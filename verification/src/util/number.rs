use crate::util::parameters::FromText;
use crate::util::text::chars_of;
use vstd::prelude::*;
use vstd::string::*;

verus! {

/// Why a text is no number.
#[derive(Clone, Copy, Debug, PartialEq, Eq, Structural)]
pub enum NumberError {
    Empty,
    InvalidDigit,
    PosOverflow,
}

impl NumberError {
    /// The words for the error.
    pub open spec fn words(self) -> Seq<char> {
        match self {
            NumberError::Empty => "cannot parse integer from empty string"@,
            NumberError::InvalidDigit => "invalid digit found in string"@,
            NumberError::PosOverflow => "number too large to fit in target type"@,
        }
    }

    pub fn to_string(&self) -> (s: String)
        ensures
            s@ == self.words(),
    {
        match self {
            NumberError::Empty => "cannot parse integer from empty string".to_owned(),
            NumberError::InvalidDigit => "invalid digit found in string".to_owned(),
            NumberError::PosOverflow => "number too large to fit in target type".to_owned(),
        }
    }
}

/// Whether a character is one of the ten digits.
pub open spec fn is_digit(c: char) -> bool {
    '0' <= c && c <= '9'
}

/// What a digit counts.
pub open spec fn digit_value(c: char) -> int {
    c as int - '0' as int
}

/// The number that a run of digits writes in base ten, read from the left:
/// the first character that is no digit, or the first digit with which the
/// number passes `max`, ends the reading with an error.
pub open spec fn scan_digits(digits: Seq<char>, max: int) -> Result<int, NumberError>
    decreases digits.len(),
{
    if digits.len() == 0 {
        Ok(0)
    } else {
        match scan_digits(digits.drop_last(), max) {
            Err(e) => Err(e),
            Ok(before) => if !is_digit(digits.last()) {
                Err(NumberError::InvalidDigit)
            } else if before * 10 + digit_value(digits.last()) > max {
                Err(NumberError::PosOverflow)
            } else {
                Ok(before * 10 + digit_value(digits.last()))
            },
        }
    }
}

/// The number of at most `max` that a text writes: digits, with an optional
/// `+` before them.
pub open spec fn unsigned_of(text: Seq<char>, max: int) -> Result<int, NumberError> {
    if text.len() == 0 {
        Err(NumberError::Empty)
    } else if text.len() == 1 && (text[0] == '+' || text[0] == '-') {
        Err(NumberError::InvalidDigit)
    } else if text[0] == '+' {
        scan_digits(text.skip(1), max)
    } else {
        scan_digits(text, max)
    }
}

/// Reads a number of at most `max` from a text.
pub fn parse_unsigned(text: &str, max: u32) -> (r: Result<u32, NumberError>)
    ensures
        match unsigned_of(text@, max as int) {
            Ok(n) => r is Ok && r->Ok_0 == n,
            Err(e) => r == Err::<u32, NumberError>(e),
        },
{
    let chars = chars_of(text);
    let n = chars.len();
    if n == 0 {
        return Err(NumberError::Empty);
    }
    if n == 1 && (chars[0] == '+' || chars[0] == '-') {
        return Err(NumberError::InvalidDigit);
    }
    let start: usize = if chars[0] == '+' {
        1
    } else {
        0
    };
    let ghost digits = chars@.skip(start as int);
    let mut acc: u64 = 0;
    let mut i: usize = start;
    proof {
        assert(chars@.skip(0) =~= chars@);
        assert(digits.take(0) =~= Seq::<char>::empty());
    }
    while i < n
        invariant
            start <= i <= n,
            unsigned_of(text@, max as int) == scan_digits(digits, max as int),
            n == chars@.len(),
            digits == chars@.skip(start as int),
            acc <= max,
            scan_digits(digits.take(i - start), max as int) == Ok::<int, NumberError>(acc as int),
        decreases n - i,
    {
        let c = chars[i];
        proof {
            let prefix = digits.take(i - start + 1);
            assert(prefix.drop_last() =~= digits.take(i - start));
            assert(prefix.last() == c);
            if i + 1 == n {
                assert(prefix =~= digits);
            }
        }
        if !(c >= '0' && c <= '9') {
            proof {
                lemma_scan_error_stays(digits, i - start + 1, max as int);
            }
            return Err(NumberError::InvalidDigit);
        }
        let d = (c as u32 - '0' as u32) as u64;
        let next = acc * 10 + d;
        if next > max as u64 {
            proof {
                lemma_scan_error_stays(digits, i - start + 1, max as int);
            }
            return Err(NumberError::PosOverflow);
        }
        acc = next;
        i += 1;
    }
    proof {
        assert(digits.take(n - start) =~= digits);
    }
    Ok(acc as u32)
}

/// Once the reading of a prefix has failed, the reading of the whole fails in
/// the same way.
pub proof fn lemma_scan_error_stays(digits: Seq<char>, k: int, max: int)
    requires
        0 <= k <= digits.len(),
        scan_digits(digits.take(k), max) is Err,
    ensures
        scan_digits(digits, max) == scan_digits(digits.take(k), max),
    decreases digits.len() - k,
{
    if k < digits.len() {
        assert(digits.take(k + 1).drop_last() =~= digits.take(k));
        lemma_scan_error_stays(digits, k + 1, max);
    } else {
        assert(digits.take(k) =~= digits);
    }
}

impl FromText for u32 {
    open spec fn readable(text: Seq<char>) -> bool {
        unsigned_of(text, u32::MAX as int) is Ok
    }

    open spec fn reads_as(text: Seq<char>, item: u32) -> bool {
        unsigned_of(text, u32::MAX as int) == Ok::<int, NumberError>(item as int)
    }

    open spec fn complaint(text: Seq<char>) -> Seq<char> {
        match unsigned_of(text, u32::MAX as int) {
            Ok(_) => Seq::empty(),
            Err(e) => e.words(),
        }
    }

    fn from_text(text: &str) -> (r: Result<u32, String>) {
        match parse_unsigned(text, u32::MAX) {
            Ok(n) => Ok(n),
            Err(e) => Err(e.to_string()),
        }
    }
}

impl FromText for u8 {
    open spec fn readable(text: Seq<char>) -> bool {
        unsigned_of(text, u8::MAX as int) is Ok
    }

    open spec fn reads_as(text: Seq<char>, item: u8) -> bool {
        unsigned_of(text, u8::MAX as int) == Ok::<int, NumberError>(item as int)
    }

    open spec fn complaint(text: Seq<char>) -> Seq<char> {
        match unsigned_of(text, u8::MAX as int) {
            Ok(_) => Seq::empty(),
            Err(e) => e.words(),
        }
    }

    fn from_text(text: &str) -> (r: Result<u8, String>) {
        match parse_unsigned(text, 255) {
            Ok(n) => Ok(n as u8),
            Err(e) => Err(e.to_string()),
        }
    }
}

} // verus!
