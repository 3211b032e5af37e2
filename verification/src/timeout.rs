//! The request timeout: which variable sets it, and how its value is read.

use vstd::prelude::*;
use vstd::string::*;

verus! {

/// The timeout, in seconds, where no variable sets one or the value that
/// sets it is no number.
pub const DEFAULT_TIMEOUT: u64 = 30;

/// An ASCII digit.
pub open spec fn is_digit(c: char) -> bool {
    '0' <= c && c <= '9'
}

/// The number that a digit stands for.
pub open spec fn digit_value(c: char) -> nat {
    (c as u32 - '0' as u32) as nat
}

/// Whether `s` holds digits only.
pub open spec fn all_digits(s: Seq<char>) -> bool {
    forall|i: int| 0 <= i < s.len() ==> is_digit(#[trigger] s[i])
}

/// The number that a run of digits stands for in base ten.
pub open spec fn decimal_value(s: Seq<char>) -> nat
    decreases s.len(),
{
    if s.len() == 0 {
        0
    } else {
        decimal_value(s.drop_last()) * 10 + digit_value(s.last())
    }
}

/// `s` without the plus sign that may lead it.
pub open spec fn without_sign(s: Seq<char>) -> Seq<char> {
    if s.len() > 0 && s.first() == '+' {
        s.drop_first()
    } else {
        s
    }
}

/// The count of seconds that `s` denotes: one or more digits, behind at most
/// one plus sign and with nothing else around them, whose number fits in 64
/// bits.
pub open spec fn parse_seconds_spec(s: Seq<char>) -> Option<u64> {
    let digits = without_sign(s);
    if digits.len() > 0 && all_digits(digits) && decimal_value(digits) <= u64::MAX {
        Some(decimal_value(digits) as u64)
    } else {
        None
    }
}

/// A number only grows as digits are added to it.
proof fn lemma_decimal_value_grows(s: Seq<char>, n: int)
    requires
        0 <= n <= s.len(),
    ensures
        decimal_value(s.take(n)) <= decimal_value(s),
    decreases s.len() - n,
{
    if n == s.len() {
        assert(s.take(n) =~= s);
    } else {
        lemma_decimal_value_grows(s, n + 1);
        let longer = s.take(n + 1);
        assert(longer.drop_last() =~= s.take(n));
    }
}

/// Reads a count of seconds.
pub fn parse_seconds(value: &str) -> (r: Option<u64>)
    ensures
        r == parse_seconds_spec(value@),
{
    let len: usize = value.unicode_len();
    let start: usize = if len > 0 && value.get_char(0) == '+' {
        1
    } else {
        0
    };
    let ghost digits = without_sign(value@);
    assert(digits =~= value@.skip(start as int));
    if start == len {
        return None;
    }
    let mut i: usize = start;
    let mut total: u64 = 0;
    assert(digits.take(0) =~= Seq::<char>::empty());
    while i < len
        invariant
            start <= i <= len,
            len == value@.len(),
            digits == value@.skip(start as int),
            digits == without_sign(value@),
            all_digits(digits.take(i - start)),
            total == decimal_value(digits.take(i - start)),
        decreases len - i,
    {
        let c: char = value.get_char(i);
        let ghost k = i - start;
        assert(digits[k] == c);
        if !('0' <= c && c <= '9') {
            assert(!is_digit(digits[k]));
            return None;
        }
        let d: u64 = (c as u32 - '0' as u32) as u64;
        proof {
            let longer = digits.take(k + 1);
            assert(longer.drop_last() =~= digits.take(k));
            assert(longer.last() == c);
            assert(decimal_value(longer) == total * 10 + d);
            assert forall|j: int| 0 <= j < longer.len() implies is_digit(#[trigger] longer[j]) by {
                if j < k {
                    assert(digits.take(k)[j] == longer[j]);
                }
            }
            lemma_decimal_value_grows(digits, k + 1);
        }
        if total > (u64::MAX - d) / 10 {
            assert(total * 10 + d > u64::MAX);
            return None;
        }
        total = total * 10 + d;
        i = i + 1;
    }
    assert(digits.take(len - start) =~= digits);
    Some(total)
}

/// The value of the first variable that is set: the primary one, then its
/// older name, then the general one.
pub open spec fn first_set(
    primary: Option<Seq<char>>,
    alias: Option<Seq<char>>,
    fallback: Option<Seq<char>>,
) -> Option<Seq<char>> {
    if primary is Some {
        primary
    } else if alias is Some {
        alias
    } else {
        fallback
    }
}

/// The timeout that a value gives: its count of seconds, or the default
/// where there is no value or it is no count.
pub open spec fn timeout_of(value: Option<Seq<char>>) -> u64 {
    match value {
        Some(text) => match parse_seconds_spec(text) {
            Some(seconds) => seconds,
            None => DEFAULT_TIMEOUT,
        },
        None => DEFAULT_TIMEOUT,
    }
}

/// The warning on a value that is no count of seconds.
pub open spec fn invalid_timeout_message(text: Seq<char>) -> Seq<char> {
    "Ignoring invalid value from environment for UV_HTTP_TIMEOUT. Expected integer number of seconds, got \""@
        + text + "\"."@
}

/// The warning that a value raises: none, unless it is set and no count.
pub open spec fn timeout_warning(value: Option<Seq<char>>) -> Option<Seq<char>> {
    match value {
        Some(text) if parse_seconds_spec(text) is None => Some(invalid_timeout_message(text)),
        _ => None,
    }
}

/// A timeout, and the warning to raise with it.
#[derive(Debug, PartialEq, Eq)]
pub struct ResolvedTimeout {
    /// The timeout in seconds.
    pub seconds: u64,
    /// The warning on the value that was set, where it was no count.
    pub warning: Option<String>,
}

/// The text of an optional string.
pub open spec fn text_of(value: Option<String>) -> Option<Seq<char>> {
    match value {
        Some(text) => Some(text@),
        None => None,
    }
}

/// Resolves the timeout from the three variables that may set it. The first
/// that is set decides, also where its value is no count: the others are
/// then not read, the default applies, and a warning is due.
pub fn resolve_timeout(
    primary: &Option<String>,
    alias: &Option<String>,
    fallback: &Option<String>,
) -> (r: ResolvedTimeout)
    ensures
        r.seconds == timeout_of(first_set(text_of(*primary), text_of(*alias), text_of(*fallback))),
        text_of(r.warning) == timeout_warning(
            first_set(text_of(*primary), text_of(*alias), text_of(*fallback)),
        ),
{
    let value: &Option<String> = if primary.is_some() {
        primary
    } else if alias.is_some() {
        alias
    } else {
        fallback
    };
    match value {
        Some(text) => match parse_seconds(text.as_str()) {
            Some(seconds) => ResolvedTimeout { seconds, warning: None },
            None => {
                let mut message = String::from_str(
                    "Ignoring invalid value from environment for UV_HTTP_TIMEOUT. Expected integer number of seconds, got \"",
                );
                message.append(text.as_str());
                message.append("\".");
                ResolvedTimeout { seconds: DEFAULT_TIMEOUT, warning: Some(message) }
            },
        },
        None => ResolvedTimeout { seconds: DEFAULT_TIMEOUT, warning: None },
    }
}

} // verus!
