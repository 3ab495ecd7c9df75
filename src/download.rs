//! The length that a download announces.
use vstd::prelude::*;
use crate::text::opt_str_view;

verus! {

/// Why a response cannot be downloaded.
#[derive(Debug, Clone, PartialEq, Eq)]
pub enum DownloadError {
    /// The response carries no content length.
    MissingContentLength,
    /// The content length is not a number that fits in 64 bits.
    InvalidContentLength,
}

/// `c` is an ASCII decimal digit.
pub open spec fn is_digit(c: char) -> bool {
    '0' <= c && c <= '9'
}

/// The value of the decimal digits `s`.
pub open spec fn decimal_value(s: Seq<char>) -> int
    decreases s.len(),
{
    if s.len() == 0 {
        0
    } else {
        decimal_value(s.drop_last()) * 10 + (s.last() as int - '0' as int)
    }
}

/// The digits of a length, without the sign that may precede them.
pub open spec fn length_digits(s: Seq<char>) -> Seq<char> {
    if s.len() > 0 && s[0] == '+' {
        s.subrange(1, s.len() as int)
    } else {
        s
    }
}

/// Every character of `d` is a decimal digit.
pub open spec fn all_digits(d: Seq<char>) -> bool {
    forall|i: int| 0 <= i < d.len() ==> is_digit(#[trigger] d[i])
}

/// `s` is an unsigned decimal number, with an optional leading `+`.
pub open spec fn is_decimal(s: Seq<char>) -> bool {
    length_digits(s).len() > 0 && all_digits(length_digits(s))
}

/// The length announced by a content-length header with value `header`
/// (`None`: no such header).
pub open spec fn content_length(header: Option<Seq<char>>) -> Result<int, DownloadError> {
    match header {
        None => Err(DownloadError::MissingContentLength),
        Some(h) => if is_decimal(h) && decimal_value(length_digits(h)) <= u64::MAX {
            Ok(decimal_value(length_digits(h)))
        } else {
            Err(DownloadError::InvalidContentLength)
        },
    }
}

proof fn lemma_decimal_value_nonneg(s: Seq<char>)
    requires
        forall|i: int| 0 <= i < s.len() ==> is_digit(#[trigger] s[i]),
    ensures
        decimal_value(s) >= 0,
    decreases s.len(),
{
    if s.len() > 0 {
        lemma_decimal_value_nonneg(s.drop_last());
    }
}

proof fn lemma_decimal_value_monotone(s: Seq<char>, k: int)
    requires
        0 <= k <= s.len(),
        forall|i: int| 0 <= i < s.len() ==> is_digit(#[trigger] s[i]),
    ensures
        decimal_value(s.subrange(0, k)) <= decimal_value(s),
    decreases s.len() - k,
{
    if k < s.len() {
        let t = s.subrange(0, k + 1);
        assert(t.drop_last() =~= s.subrange(0, k));
        lemma_decimal_value_nonneg(s.subrange(0, k));
        lemma_decimal_value_monotone(s, k + 1);
    } else {
        assert(s.subrange(0, k) =~= s);
    }
}

/// The length announced by a content-length header with value `header`
/// (`None`: no such header).
pub fn parse_content_length(header: Option<&str>) -> (r: Result<u64, DownloadError>)
    ensures
        match r {
            Ok(n) => content_length(opt_str_view(header)) == Ok::<int, DownloadError>(n as int),
            Err(e) => content_length(opt_str_view(header)) == Err::<int, DownloadError>(e),
        },
{
    let h = match header {
        None => {
            return Err(DownloadError::MissingContentLength);
        },
        Some(h) => h,
    };
    let v = crate::text::chars_of(h);
    let start: usize = if v.len() > 0 && v[0] == '+' {
        1
    } else {
        0
    };
    let ghost d = length_digits(h@);
    assert(d =~= h@.subrange(start as int, h@.len() as int));
    if start >= v.len() {
        return Err(DownloadError::InvalidContentLength);
    }
    let mut value: u64 = 0;
    let mut i: usize = start;
    while i < v.len()
        invariant
            v@ == h@,
            start <= i <= v.len(),
            d == h@.subrange(start as int, h@.len() as int),
            d == length_digits(h@),
            header == Some(h),
            forall|j: int| 0 <= j < i - start ==> is_digit(#[trigger] d[j]),
            value as int == decimal_value(d.subrange(0, i - start)),
        decreases v.len() - i,
    {
        let c = v[i];
        if c < '0' || c > '9' {
            proof {
                assert(d.len() == h@.len() - start);
                assert(d[i - start] == h@[i as int]);
                assert(!is_digit(d[i - start]));
                assert(!all_digits(d));
            }
            return Err(DownloadError::InvalidContentLength);
        }
        let digit = (c as u32 - '0' as u32) as u64;
        assert(d.subrange(0, i + 1 - start).drop_last() =~= d.subrange(0, i - start));
        if value > (u64::MAX - digit) / 10 {
            proof {
                assert(forall|j: int| 0 <= j < i + 1 - start ==> is_digit(#[trigger] d[j]));
                if is_decimal(h@) {
                    assert(all_digits(d));
                    lemma_decimal_value_monotone(d, i + 1 - start);
                }
                assert(decimal_value(d.subrange(0, i + 1 - start)) == value * 10 + digit);
                assert(value * 10 + digit > u64::MAX) by (nonlinear_arith)
                    requires
                        value > (u64::MAX - digit) / 10,
                        digit <= 9,
                ;
            }
            return Err(DownloadError::InvalidContentLength);
        }
        assert(value * 10 + digit <= u64::MAX) by (nonlinear_arith)
            requires
                value <= (u64::MAX - digit) / 10,
                digit <= 9,
        ;
        value = value * 10 + digit;
        i = i + 1;
    }
    assert(d.subrange(0, i - start) =~= d);
    Ok(value)
}

} // verus!
