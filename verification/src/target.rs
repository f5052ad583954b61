//! What a query is about: a postcode, a region, or the whole country.

use vstd::prelude::*;
use vstd::std_specs::convert::FromSpecImpl;
use vstd::string::StringExecFns;

use crate::region::{region_of_text, Region};

verus! {

/// What a query is about.
#[derive(Debug, Clone, PartialEq)]
pub enum Target {
    /// The outward part of a postcode, such as `BS7`.
    Postcode(String),
    /// One of the provider's regions.
    Region(Region),
    /// The whole country.
    National,
}

/// Whether `c` is the lower-case ASCII letter `letter` in either case.
pub open spec fn is_letter(c: char, letter: char) -> bool {
    c == letter || ('A' <= c && c <= 'Z' && c as int + 32 == letter as int)
}

/// Whether `text` stands for the whole country: it is empty, or it is the
/// word `national` with each letter in either case.
pub open spec fn is_national_text(text: Seq<char>) -> bool {
    text.len() == 0 || (text.len() == 8 && forall|i: int|
        0 <= i < 8 ==> is_letter(#[trigger] text[i], "national"@[i]))
}

/// The target that the text of `s` names: the region with that number if it
/// is the number of a region; else the whole country if it is empty or the
/// word `national`; else the postcode `s`, whatever it holds.
pub open spec fn target_of(s: String) -> Target {
    match region_of_text(s@) {
        Ok(region) => Target::Region(region),
        Err(_) => if is_national_text(s@) {
            Target::National
        } else {
            Target::Postcode(s)
        },
    }
}

/// Whether `text` stands for the whole country.
fn is_national(text: &str) -> (r: bool)
    ensures
        r == is_national_text(text@),
{
    let len = text.unicode_len();
    if len == 0 {
        return true;
    }
    if len != 8 {
        return false;
    }
    let word = "national";
    proof {
        reveal_strlit("national");
    }
    let mut i: usize = 0;
    while i < 8
        invariant
            i <= 8,
            text@.len() == 8,
            word@ == "national"@,
            word@.len() == 8,
            forall|j: int| 0 <= j < i ==> is_letter(#[trigger] text@[j], "national"@[j]),
        decreases 8 - i,
    {
        let c = text.get_char(i);
        let letter = word.get_char(i);
        let same = c == letter || ('A' <= c && c <= 'Z' && c as u32 + 32 == letter as u32);
        if !same {
            return false;
        }
        i += 1;
    }
    true
}

impl Target {
    /// The target in words: `postcode` and the postcode, the region's name,
    /// or `national`.
    pub open spec fn text(self) -> Seq<char> {
        match self {
            Target::Postcode(postcode) => "postcode "@ + postcode@,
            Target::Region(region) => region.name_text(),
            Target::National => "national"@,
        }
    }

    /// The target in words: `postcode` and the postcode, the region's name,
    /// or `national`.
    pub fn to_string(&self) -> (s: String)
        ensures
            s@ == self.text(),
    {
        match self {
            Target::Postcode(postcode) => String::from_str("postcode ").concat(postcode.as_str()),
            Target::Region(region) => region.to_string(),
            Target::National => String::from_str("national"),
        }
    }
}

impl From<String> for Target {
    /// Reads a target from what a user wrote. Every text names a target: what
    /// is neither the number of a region nor a word for the whole country is
    /// taken for a postcode, unchecked.
    fn from(s: String) -> (target: Target) {
        if let Ok(region) = Region::parse(s.as_str()) {
            return Target::Region(region);
        }
        if is_national(s.as_str()) {
            return Target::National;
        }
        Target::Postcode(s)
    }
}

impl FromSpecImpl<String> for Target {
    open spec fn obeys_from_spec() -> bool {
        true
    }

    open spec fn from_spec(s: String) -> Target {
        target_of(s)
    }
}

} // verus!
