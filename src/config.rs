use vstd::prelude::*;
use vstd::string::*;

verus! {

/// Why a simulation could not be configured.
#[derive(Clone, Copy, Debug, PartialEq, Eq, Structural)]
pub enum ConfigError {
    /// No rectangle count was supplied.
    MissingCount,
    /// The rectangle count is not a decimal number that fits a `usize`.
    InvalidCount,
    /// The rectangle count is zero.
    ZeroCount,
    /// A canvas extent does not exceed the largest generated size.
    CanvasTooSmall,
    /// A canvas extent exceeds what the integer model admits.
    CanvasTooLarge,
}

/// An ASCII decimal digit.
pub open spec fn is_digit(b: u8) -> bool {
    48 <= b <= 57
}

/// The number that a run of decimal digits spells, most significant first.
pub open spec fn digits_value(s: Seq<u8>) -> int
    decreases s.len(),
{
    if s.len() == 0 {
        0
    } else {
        digits_value(s.drop_last()) * 10 + (s.last() as int - 48)
    }
}

/// The digit run of a count: the text after an optional leading `+`.
pub open spec fn count_digits(s: Seq<u8>) -> Seq<u8> {
    if s.len() > 0 && s[0] == 43 {
        s.drop_first()
    } else {
        s
    }
}

/// The text is a decimal number, optionally signed `+`, that fits a `usize`.
pub open spec fn is_decimal_count(s: Seq<u8>) -> bool {
    let d = count_digits(s);
    &&& d.len() > 0
    &&& forall|i: int| 0 <= i < d.len() ==> is_digit(#[trigger] d[i])
    &&& digits_value(d) <= usize::MAX
}

proof fn lemma_digits_value_prefix(s: Seq<u8>, i: int)
    requires
        0 <= i <= s.len(),
        forall|k: int| 0 <= k < s.len() ==> is_digit(#[trigger] s[k]),
    ensures
        0 <= digits_value(s.subrange(0, i)) <= digits_value(s),
    decreases s.len(),
{
    if i == s.len() {
        assert(s.subrange(0, i) =~= s);
        lemma_digits_value_nonneg(s);
    } else {
        let t = s.drop_last();
        lemma_digits_value_prefix(t, i);
        assert(t.subrange(0, i) =~= s.subrange(0, i));
    }
}

proof fn lemma_digits_value_nonneg(s: Seq<u8>)
    requires
        forall|k: int| 0 <= k < s.len() ==> is_digit(#[trigger] s[k]),
    ensures
        0 <= digits_value(s),
    decreases s.len(),
{
    if s.len() > 0 {
        lemma_digits_value_nonneg(s.drop_last());
    }
}

/// Validates the configured rectangle count: it must be present, a decimal
/// number that fits a `usize`, and greater than zero.
pub fn parse_rectangle_count(param: Option<&str>) -> (res: Result<usize, ConfigError>)
    ensures
        param is None <==> res == Err::<usize, ConfigError>(ConfigError::MissingCount),
        param matches Some(p) ==> {
            let s = p.spec_bytes();
            &&& !is_decimal_count(s) <==> res == Err::<usize, ConfigError>(
                ConfigError::InvalidCount,
            )
            &&& (is_decimal_count(s) && digits_value(count_digits(s)) == 0) <==> res == Err::<
                usize,
                ConfigError,
            >(ConfigError::ZeroCount)
            &&& res is Ok <==> is_decimal_count(s) && digits_value(count_digits(s)) > 0
            &&& res matches Ok(n) ==> n == digits_value(count_digits(s))
        },
{
    let text = match param {
        None => return Err(ConfigError::MissingCount),
        Some(t) => t,
    };
    let bytes = text.as_bytes();
    let len = bytes.len();
    let ghost s = bytes@;
    let mut start: usize = 0;
    if len > 0 && bytes[0] == 43 {
        start = 1;
    }
    let ghost d = s.subrange(start as int, len as int);
    assert(count_digits(s) =~= d);
    if start == len {
        return Err(ConfigError::InvalidCount);
    }
    let mut value: usize = 0;
    let mut i: usize = start;
    while i < len
        invariant
            start <= i <= len,
            param == Some(text),
            len == s.len(),
            s == bytes@,
            s == text.spec_bytes(),
            d == s.subrange(start as int, len as int),
            count_digits(s) == d,
            forall|k: int| 0 <= k < i - start ==> is_digit(#[trigger] d[k]),
            value == digits_value(d.subrange(0, i - start)),
        decreases len - i,
    {
        let b = bytes[i];
        if b < 48 || b > 57 {
            assert(!is_digit(d[i - start]));
            return Err(ConfigError::InvalidCount);
        }
        let digit = (b - 48) as usize;
        let ghost next = d.subrange(0, i + 1 - start);
        assert(next.drop_last() =~= d.subrange(0, i - start));
        if value > (usize::MAX - digit) / 10 {
            proof {
                assert(digits_value(next) > usize::MAX);
                if forall|k: int| 0 <= k < d.len() ==> is_digit(#[trigger] d[k]) {
                    lemma_digits_value_prefix(d, i + 1 - start);
                }
            }
            return Err(ConfigError::InvalidCount);
        }
        value = value * 10 + digit;
        i = i + 1;
    }
    assert(d.subrange(0, len - start) =~= d);
    if value == 0 {
        Err(ConfigError::ZeroCount)
    } else {
        Ok(value)
    }
}

} // verus!
