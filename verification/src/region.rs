//! The seventeen regions the provider reports on, and their identifiers.

use vstd::prelude::*;

verus! {

/// A region of Great Britain, as numbered by the provider (1 to 17).
#[derive(Debug, Clone, Copy, PartialEq, Eq, Structural)]
pub enum Region {
    NorthScotland,
    SouthScotland,
    NorthWestEngland,
    NorthEastEngland,
    SouthYorkshire,
    NorthWalesMerseysideAndCheshire,
    SouthWales,
    WestMidlands,
    EastMidlands,
    EastEngland,
    SouthWestEngland,
    SouthEngland,
    London,
    SouthEastEngland,
    England,
    Scotland,
    Wales,
}

/// Why a text is not a region identifier.
#[derive(Debug, Clone, Copy, PartialEq, Eq, Structural)]
pub enum RegionError {
    /// The text is not a decimal number that fits in eight bits.
    ParseError,
    /// The number is not between 1 and 17.
    OutsideRange,
}

/// Whether `c` is one of the ASCII digits.
pub open spec fn is_digit(c: char) -> bool {
    '0' <= c && c <= '9'
}

/// The number that a sequence of ASCII digits writes in base ten.
pub open spec fn decimal_value(digits: Seq<char>) -> nat
    decreases digits.len(),
{
    if digits.len() == 0 {
        0
    } else {
        decimal_value(digits.drop_last()) * 10 + (digits.last() as nat - '0' as nat) as nat
    }
}

/// The digits of `text`: all of it, or what follows a leading `+`.
pub open spec fn unsigned_digits(text: Seq<char>) -> Seq<char> {
    if text.len() > 0 && text[0] == '+' {
        text.subrange(1, text.len() as int)
    } else {
        text
    }
}

/// The eight-bit number that `text` writes: an optional `+`, then one or more
/// ASCII digits whose value is at most 255. Nothing else is a number.
pub open spec fn decimal_u8(text: Seq<char>) -> Option<u8> {
    let digits = unsigned_digits(text);
    if digits.len() > 0 && (forall|i: int| 0 <= i < digits.len() ==> is_digit(#[trigger] digits[i]))
        && decimal_value(digits) <= 255 {
        Some(decimal_value(digits) as u8)
    } else {
        None
    }
}

/// The region that `text` names, or the reason why it names none.
pub open spec fn region_of_text(text: Seq<char>) -> Result<Region, RegionError> {
    match decimal_u8(text) {
        None => Err(RegionError::ParseError),
        Some(id) => match Region::with_number(id as int) {
            Some(region) => Ok(region),
            None => Err(RegionError::OutsideRange),
        },
    }
}

proof fn lemma_decimal_value_grows(digits: Seq<char>, k: int)
    requires
        0 <= k <= digits.len(),
        forall|i: int| 0 <= i < digits.len() ==> is_digit(#[trigger] digits[i]),
    ensures
        decimal_value(digits.subrange(0, k)) <= decimal_value(digits),
    decreases digits.len() - k,
{
    if k == digits.len() {
        assert(digits.subrange(0, k) =~= digits);
    } else {
        lemma_decimal_value_grows(digits, k + 1);
        let longer = digits.subrange(0, k + 1);
        assert(longer.drop_last() =~= digits.subrange(0, k));
    }
}

/// Reads an eight-bit decimal number.
fn parse_u8(text: &str) -> (r: Option<u8>)
    ensures
        r == decimal_u8(text@),
{
    let len = text.unicode_len();
    let first: usize = if len > 0 && text.get_char(0) == '+' { 1 } else { 0 };
    let ghost digits = unsigned_digits(text@);
    if first == len {
        return None;
    }
    let mut value: u16 = 0;
    let mut i: usize = first;
    while i < len
        invariant
            first <= i <= len,
            len == text@.len(),
            digits == unsigned_digits(text@),
            digits == text@.subrange(first as int, len as int),
            forall|j: int| 0 <= j < i - first ==> is_digit(#[trigger] digits[j]),
            value == decimal_value(digits.subrange(0, i - first)),
            value <= 255,
        decreases len - i,
    {
        let c = text.get_char(i);
        if !('0' <= c && c <= '9') {
            assert(!is_digit(digits[i - first]));
            return None;
        }
        let digit: u16 = (c as u32 - '0' as u32) as u16;
        let ghost longer = digits.subrange(0, i - first + 1);
        assert(longer.drop_last() =~= digits.subrange(0, i - first));
        value = value * 10 + digit;
        if value > 255 {
            proof {
                if forall|j: int| 0 <= j < digits.len() ==> is_digit(#[trigger] digits[j]) {
                    lemma_decimal_value_grows(digits, i - first + 1);
                }
            }
            return None;
        }
        i += 1;
    }
    assert(digits.subrange(0, i - first) =~= digits);
    Some(value as u8)
}

impl Region {
    /// The provider's number for this region.
    pub open spec fn number(self) -> int {
        match self {
            Region::NorthScotland => 1,
            Region::SouthScotland => 2,
            Region::NorthWestEngland => 3,
            Region::NorthEastEngland => 4,
            Region::SouthYorkshire => 5,
            Region::NorthWalesMerseysideAndCheshire => 6,
            Region::SouthWales => 7,
            Region::WestMidlands => 8,
            Region::EastMidlands => 9,
            Region::EastEngland => 10,
            Region::SouthWestEngland => 11,
            Region::SouthEngland => 12,
            Region::London => 13,
            Region::SouthEastEngland => 14,
            Region::England => 15,
            Region::Scotland => 16,
            Region::Wales => 17,
        }
    }

    /// The region with the given number, if there is one.
    pub open spec fn with_number(n: int) -> Option<Region> {
        if n == 1 {
            Some(Region::NorthScotland)
        } else if n == 2 {
            Some(Region::SouthScotland)
        } else if n == 3 {
            Some(Region::NorthWestEngland)
        } else if n == 4 {
            Some(Region::NorthEastEngland)
        } else if n == 5 {
            Some(Region::SouthYorkshire)
        } else if n == 6 {
            Some(Region::NorthWalesMerseysideAndCheshire)
        } else if n == 7 {
            Some(Region::SouthWales)
        } else if n == 8 {
            Some(Region::WestMidlands)
        } else if n == 9 {
            Some(Region::EastMidlands)
        } else if n == 10 {
            Some(Region::EastEngland)
        } else if n == 11 {
            Some(Region::SouthWestEngland)
        } else if n == 12 {
            Some(Region::SouthEngland)
        } else if n == 13 {
            Some(Region::London)
        } else if n == 14 {
            Some(Region::SouthEastEngland)
        } else if n == 15 {
            Some(Region::England)
        } else if n == 16 {
            Some(Region::Scotland)
        } else if n == 17 {
            Some(Region::Wales)
        } else {
            None
        }
    }

    /// The provider's number for this region.
    pub fn id(self) -> (id: u8)
        ensures
            id == self.number(),
            1 <= id <= 17,
    {
        match self {
            Region::NorthScotland => 1,
            Region::SouthScotland => 2,
            Region::NorthWestEngland => 3,
            Region::NorthEastEngland => 4,
            Region::SouthYorkshire => 5,
            Region::NorthWalesMerseysideAndCheshire => 6,
            Region::SouthWales => 7,
            Region::WestMidlands => 8,
            Region::EastMidlands => 9,
            Region::EastEngland => 10,
            Region::SouthWestEngland => 11,
            Region::SouthEngland => 12,
            Region::London => 13,
            Region::SouthEastEngland => 14,
            Region::England => 15,
            Region::Scotland => 16,
            Region::Wales => 17,
        }
    }

    /// The region with the given number: some region exactly for 1 to 17.
    pub fn from_id(id: u8) -> (r: Option<Region>)
        ensures
            r == Region::with_number(id as int),
            r is Some <==> 1 <= id <= 17,
    {
        match id {
            1 => Some(Region::NorthScotland),
            2 => Some(Region::SouthScotland),
            3 => Some(Region::NorthWestEngland),
            4 => Some(Region::NorthEastEngland),
            5 => Some(Region::SouthYorkshire),
            6 => Some(Region::NorthWalesMerseysideAndCheshire),
            7 => Some(Region::SouthWales),
            8 => Some(Region::WestMidlands),
            9 => Some(Region::EastMidlands),
            10 => Some(Region::EastEngland),
            11 => Some(Region::SouthWestEngland),
            12 => Some(Region::SouthEngland),
            13 => Some(Region::London),
            14 => Some(Region::SouthEastEngland),
            15 => Some(Region::England),
            16 => Some(Region::Scotland),
            17 => Some(Region::Wales),
            _ => None,
        }
    }

    /// The provider's number for this region, written in decimal.
    pub open spec fn id_text(self) -> Seq<char> {
        match self {
            Region::NorthScotland => "1"@,
            Region::SouthScotland => "2"@,
            Region::NorthWestEngland => "3"@,
            Region::NorthEastEngland => "4"@,
            Region::SouthYorkshire => "5"@,
            Region::NorthWalesMerseysideAndCheshire => "6"@,
            Region::SouthWales => "7"@,
            Region::WestMidlands => "8"@,
            Region::EastMidlands => "9"@,
            Region::EastEngland => "10"@,
            Region::SouthWestEngland => "11"@,
            Region::SouthEngland => "12"@,
            Region::London => "13"@,
            Region::SouthEastEngland => "14"@,
            Region::England => "15"@,
            Region::Scotland => "16"@,
            Region::Wales => "17"@,
        }
    }

    /// The provider's number for this region, written in decimal.
    pub fn id_str(self) -> (text: &'static str)
        ensures
            text@ == self.id_text(),
    {
        match self {
            Region::NorthScotland => "1",
            Region::SouthScotland => "2",
            Region::NorthWestEngland => "3",
            Region::NorthEastEngland => "4",
            Region::SouthYorkshire => "5",
            Region::NorthWalesMerseysideAndCheshire => "6",
            Region::SouthWales => "7",
            Region::WestMidlands => "8",
            Region::EastMidlands => "9",
            Region::EastEngland => "10",
            Region::SouthWestEngland => "11",
            Region::SouthEngland => "12",
            Region::London => "13",
            Region::SouthEastEngland => "14",
            Region::England => "15",
            Region::Scotland => "16",
            Region::Wales => "17",
        }
    }

    /// The region's name in words.
    pub open spec fn name_text(self) -> Seq<char> {
        match self {
            Region::NorthScotland => "North Scotland"@,
            Region::SouthScotland => "South Scotland"@,
            Region::NorthWestEngland => "North West England"@,
            Region::NorthEastEngland => "North East England"@,
            Region::SouthYorkshire => "South Yorkshire"@,
            Region::NorthWalesMerseysideAndCheshire => "North Wales, Merseyside and Cheshire"@,
            Region::SouthWales => "South Wales"@,
            Region::WestMidlands => "West Midlands"@,
            Region::EastMidlands => "East Midlands"@,
            Region::EastEngland => "East England"@,
            Region::SouthWestEngland => "South West England"@,
            Region::SouthEngland => "South England"@,
            Region::London => "London"@,
            Region::SouthEastEngland => "South East England"@,
            Region::England => "England"@,
            Region::Scotland => "Scotland"@,
            Region::Wales => "Wales"@,
        }
    }

    /// The region's name in words.
    pub fn name(self) -> (name: &'static str)
        ensures
            name@ == self.name_text(),
    {
        match self {
            Region::NorthScotland => "North Scotland",
            Region::SouthScotland => "South Scotland",
            Region::NorthWestEngland => "North West England",
            Region::NorthEastEngland => "North East England",
            Region::SouthYorkshire => "South Yorkshire",
            Region::NorthWalesMerseysideAndCheshire => "North Wales, Merseyside and Cheshire",
            Region::SouthWales => "South Wales",
            Region::WestMidlands => "West Midlands",
            Region::EastMidlands => "East Midlands",
            Region::EastEngland => "East England",
            Region::SouthWestEngland => "South West England",
            Region::SouthEngland => "South England",
            Region::London => "London",
            Region::SouthEastEngland => "South East England",
            Region::England => "England",
            Region::Scotland => "Scotland",
            Region::Wales => "Wales",
        }
    }

    /// The region's name in words, as an owned string.
    pub fn to_string(&self) -> (s: String)
        ensures
            s@ == self.name_text(),
    {
        self.name().to_owned()
    }

    /// Reads a region from its number written in decimal.
    ///
    /// A text that is no eight-bit decimal number gives
    /// `RegionError::ParseError`; a number outside 1 to 17 gives
    /// `RegionError::OutsideRange`.
    pub fn parse(text: &str) -> (r: Result<Region, RegionError>)
        ensures
            r == region_of_text(text@),
    {
        match parse_u8(text) {
            None => Err(RegionError::ParseError),
            Some(id) => match Region::from_id(id) {
                Some(region) => Ok(region),
                None => Err(RegionError::OutsideRange),
            },
        }
    }
}

/// A region's number, written in decimal, reads back as that region.
pub proof fn lemma_id_text_names_region(region: Region)
    ensures
        region_of_text(region.id_text()) == Ok::<Region, RegionError>(region),
{
    reveal_strlit("1");
    reveal_strlit("2");
    reveal_strlit("3");
    reveal_strlit("4");
    reveal_strlit("5");
    reveal_strlit("6");
    reveal_strlit("7");
    reveal_strlit("8");
    reveal_strlit("9");
    reveal_strlit("10");
    reveal_strlit("11");
    reveal_strlit("12");
    reveal_strlit("13");
    reveal_strlit("14");
    reveal_strlit("15");
    reveal_strlit("16");
    reveal_strlit("17");
    reveal_with_fuel(decimal_value, 3);
}

impl core::str::FromStr for Region {
    type Err = RegionError;

    fn from_str(s: &str) -> (r: Result<Self, Self::Err>)
        ensures
            r == region_of_text(s@),
    {
        Region::parse(s)
    }
}

impl RegionError {
    /// What went wrong, in words.
    pub open spec fn message_text(self) -> Seq<char> {
        match self {
            RegionError::ParseError => "Failed to parse region id"@,
            RegionError::OutsideRange =>
                "Region id outside allowed range. Must be between 1 and 17 (inclusive)"@,
        }
    }

    /// What went wrong, in words.
    pub fn to_string(&self) -> (s: String)
        ensures
            s@ == self.message_text(),
    {
        match self {
            RegionError::ParseError => "Failed to parse region id".to_owned(),
            RegionError::OutsideRange =>
                "Region id outside allowed range. Must be between 1 and 17 (inclusive)".to_owned(),
        }
    }
}

/// The error with which std rejects a text that is no integer.
#[verifier::external_type_specification]
#[verifier::external_body]
pub struct ExParseIntError(core::num::ParseIntError);

impl From<core::num::ParseIntError> for RegionError {
    fn from(_error: core::num::ParseIntError) -> (r: Self) {
        RegionError::ParseError
    }
}

impl vstd::std_specs::convert::FromSpecImpl<core::num::ParseIntError> for RegionError {
    open spec fn obeys_from_spec() -> bool {
        true
    }

    open spec fn from_spec(_error: core::num::ParseIntError) -> Self {
        RegionError::ParseError
    }
}

} // verus!
