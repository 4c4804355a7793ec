//! Decoding of the `{id}` path segment into a user id.
use vstd::prelude::*;
use vstd::string::StringSliceAdditionalSpecFns;

verus! {

/// Why a path segment is not a user id.
#[derive(Debug, Clone, Copy, PartialEq, Eq, Structural)]
pub enum DecodeError {
    /// The segment holds no digit after its optional sign.
    Empty,
    /// A byte other than an ASCII digit follows the optional sign.
    InvalidDigit,
    /// The number does not fit in an `i32`.
    OutOfRange,
}

pub open spec fn is_ascii_digit(b: u8) -> bool {
    48 <= b && b <= 57
}

pub open spec fn all_digits(s: Seq<u8>) -> bool {
    forall|i: int| 0 <= i < s.len() ==> is_ascii_digit(#[trigger] s[i])
}

/// The number that a run of decimal digits denotes, most significant first.
pub open spec fn digits_value(s: Seq<u8>) -> int
    decreases s.len(),
{
    if s.len() == 0 {
        0
    } else {
        digits_value(s.drop_last()) * 10 + (s.last() - 48)
    }
}

/// Whether the segment starts with a minus sign.
pub open spec fn is_negative(s: Seq<u8>) -> bool {
    s.len() > 0 && s[0] == 45
}

/// The digits of the segment: what follows an optional `+` or `-`.
pub open spec fn unsigned_part(s: Seq<u8>) -> Seq<u8> {
    if s.len() > 0 && (s[0] == 43 || s[0] == 45) {
        s.drop_first()
    } else {
        s
    }
}

/// The integer that the segment spells, if it spells one of any size.
pub open spec fn segment_value(s: Seq<u8>) -> int {
    if is_negative(s) {
        -digits_value(unsigned_part(s))
    } else {
        digits_value(unsigned_part(s))
    }
}

pub open spec fn fits_i32(v: int) -> bool {
    i32::MIN <= v && v <= i32::MAX
}

/// The outcome of decoding the segment: an optional sign, one or more ASCII
/// digits, and a value that fits in an `i32`.
pub open spec fn decode_spec(s: Seq<u8>) -> Result<i32, DecodeError> {
    if unsigned_part(s).len() == 0 {
        Err(DecodeError::Empty)
    } else if !all_digits(unsigned_part(s)) {
        Err(DecodeError::InvalidDigit)
    } else if !fits_i32(segment_value(s)) {
        Err(DecodeError::OutOfRange)
    } else {
        Ok(segment_value(s) as i32)
    }
}

proof fn lemma_digits_value_grows(s: Seq<u8>, i: int)
    requires
        0 <= i <= s.len(),
        all_digits(s),
    ensures
        digits_value(s.subrange(0, i)) <= digits_value(s),
        0 <= digits_value(s.subrange(0, i)),
    decreases s.len() - i,
{
    lemma_digits_value_nonneg(s.subrange(0, i));
    if i < s.len() {
        lemma_digits_value_grows(s, i + 1);
        assert(s.subrange(0, i + 1).drop_last() =~= s.subrange(0, i));
    } else {
        assert(s.subrange(0, i) =~= s);
    }
}

proof fn lemma_digits_value_nonneg(s: Seq<u8>)
    requires
        all_digits(s),
    ensures
        0 <= digits_value(s),
    decreases s.len(),
{
    if s.len() > 0 {
        assert(all_digits(s.drop_last()));
        lemma_digits_value_nonneg(s.drop_last());
    }
}

/// Decodes a path segment into a user id, accepting what Rust's `i32` parser
/// accepts: an optional `+` or `-` followed by one or more ASCII digits.
pub fn parse_user_id(segment: &str) -> (r: Result<i32, DecodeError>)
    ensures
        r == decode_spec(segment.spec_bytes()),
{
    let bytes = segment.as_bytes();
    let ghost s = bytes@;
    let len = bytes.len();
    let negative = len > 0 && bytes[0] == 45u8;
    let start: usize = if len > 0 && (bytes[0] == 43u8 || bytes[0] == 45u8) {
        1
    } else {
        0
    };
    let ghost digits = unsigned_part(s);
    assert(digits =~= s.subrange(start as int, len as int));
    if start == len {
        return Err(DecodeError::Empty);
    }
    let mut i: usize = start;
    while i < len
        invariant
            start <= i <= len,
            len == s.len(),
            bytes@ == s,
            s == segment.spec_bytes(),
            digits =~= s.subrange(start as int, len as int),
            digits == unsigned_part(s),
            negative == is_negative(s),
            start < len,
            all_digits(digits.subrange(0, i - start)),
        decreases len - i,
    {
        if !(48u8 <= bytes[i] && bytes[i] <= 57u8) {
            assert(!is_ascii_digit(digits[i - start]));
            assert(!all_digits(digits));
            return Err(DecodeError::InvalidDigit);
        }
        i = i + 1;
    }
    assert(digits.subrange(0, len - start) =~= digits);
    // The magnitude of the most negative i32.
    let limit: i64 = 2147483648;
    let mut acc: i64 = 0;
    let mut j: usize = start;
    while j < len
        invariant
            start <= j <= len,
            len == s.len(),
            bytes@ == s,
            s == segment.spec_bytes(),
            digits =~= s.subrange(start as int, len as int),
            digits == unsigned_part(s),
            negative == is_negative(s),
            start < len,
            all_digits(digits),
            0 <= acc <= limit,
            acc == digits_value(digits.subrange(0, j - start)),
            limit == 2147483648,
        decreases len - j,
    {
        assert(digits[j - start] == bytes[j as int]);
        assert(is_ascii_digit(digits[j - start]));
        let d = (bytes[j] - 48u8) as i64;
        assert(digits.subrange(0, j + 1 - start).drop_last() =~= digits.subrange(0, j - start));
        if acc > (limit - d) / 10 {
            proof {
                assert(acc * 10 + d > limit) by (nonlinear_arith)
                    requires
                        acc > (limit - d) / 10,
                        0 <= d <= 9,
                        limit == 2147483648,
                ;
                lemma_digits_value_grows(digits, j + 1 - start);
            }
            return Err(DecodeError::OutOfRange);
        }
        acc = acc * 10 + d;
        j = j + 1;
    }
    assert(digits.subrange(0, len - start) =~= digits);
    if negative {
        Ok((-acc) as i32)
    } else if acc == limit {
        Err(DecodeError::OutOfRange)
    } else {
        Ok(acc as i32)
    }
}

} // verus!
