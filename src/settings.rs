//! The display settings of a notification and the rules that read them from
//! text and numbers.

use vstd::prelude::*;
use vstd::string::StrSliceExecFns;

verus! {

/// How long a notification stays on screen.
#[derive(Clone, Copy, Debug, PartialEq, Eq, Structural)]
pub enum Timeout {
    /// The notification service decides.
    Default,
    /// The notification stays until dismissed.
    Never,
    /// The notification closes after this many milliseconds.
    Milliseconds(u32),
}

/// The severity hint handed to the notification service.
#[derive(Clone, Copy, Debug, PartialEq, Eq, Structural)]
pub enum Urgency {
    Low,
    Normal,
    Critical,
}

pub open spec fn is_digit(c: char) -> bool {
    '0' <= c && c <= '9'
}

pub open spec fn all_digits(s: Seq<char>) -> bool {
    forall|i: int| 0 <= i < s.len() ==> is_digit(#[trigger] s[i])
}

/// The number written by a sequence of decimal digits.
pub open spec fn digits_value(s: Seq<char>) -> nat
    decreases s.len(),
{
    if s.len() == 0 {
        0
    } else {
        digits_value(s.drop_last()) * 10 + (s.last() as nat - '0' as nat) as nat
    }
}

/// The digits of an unsigned decimal number, after an optional leading `+`.
pub open spec fn unsigned_digits(s: Seq<char>) -> Seq<char> {
    if s.len() > 0 && s[0] == '+' {
        s.drop_first()
    } else {
        s
    }
}

/// Whether `s` is the decimal text of a `u32`: an optional `+`, then one or
/// more digits whose value fits in 32 bits.
pub open spec fn is_u32_text(s: Seq<char>) -> bool {
    let d = unsigned_digits(s);
    d.len() > 0 && all_digits(d) && digits_value(d) <= u32::MAX
}

/// The value of a text for which `is_u32_text` holds.
pub open spec fn u32_text_value(s: Seq<char>) -> u32 {
    digits_value(unsigned_digits(s)) as u32
}

/// Reads a `u32` written in decimal, as `str::parse::<u32>` does.
pub fn parse_u32_text(s: &str) -> (r: Option<u32>)
    ensures
        r == (if is_u32_text(s@) {
            Some(u32_text_value(s@))
        } else {
            None
        }),
{
    let n = s.unicode_len();
    let mut start: usize = 0;
    if n > 0 && s.get_char(0) == '+' {
        start = 1;
    }
    let ghost d = unsigned_digits(s@);
    assert(d =~= s@.subrange(start as int, n as int));
    if start == n {
        return None;
    }
    // `acc` holds the value read so far, capped just above the largest u32.
    let cap: u64 = 0x1_0000_0000;
    let mut acc: u64 = 0;
    let mut i: usize = start;
    while i < n
        invariant
            start <= i <= n,
            n == s@.len(),
            d == s@.subrange(start as int, n as int),
            d == unsigned_digits(s@),
            all_digits(s@.subrange(start as int, i as int)),
            cap == 0x1_0000_0000u64,
            acc == (if digits_value(s@.subrange(start as int, i as int)) < cap {
                digits_value(s@.subrange(start as int, i as int))
            } else {
                cap as nat
            }),
        decreases n - i,
    {
        let c = s.get_char(i);
        if !('0' <= c && c <= '9') {
            assert(d[i - start] == c && !is_digit(d[i - start]));
            assert(!all_digits(d));
            return None;
        }
        let ghost prefix = s@.subrange(start as int, i as int);
        let ghost next = s@.subrange(start as int, i + 1);
        assert(next.drop_last() =~= prefix);
        assert(next.last() == c);
        let digit = (c as u32 - '0' as u32) as u64;
        acc = acc * 10 + digit;
        if acc > cap {
            acc = cap;
        }
        i = i + 1;
        assert(all_digits(next)) by {
            assert forall|k: int| 0 <= k < next.len() implies is_digit(#[trigger] next[k]) by {
                if k < prefix.len() {
                    assert(next[k] == prefix[k]);
                }
            }
        }
    }
    assert(s@.subrange(start as int, n as int) =~= d);
    if acc >= cap {
        None
    } else {
        Some(acc as u32)
    }
}


/// The timeout that a text asks for: `default`, `never`, or a count of
/// milliseconds; any other text gives the default timeout.
pub open spec fn timeout_from_text(s: Seq<char>) -> Timeout {
    if s == "default"@ {
        Timeout::Default
    } else if s == "never"@ {
        Timeout::Never
    } else if is_u32_text(s) {
        Timeout::Milliseconds(u32_text_value(s))
    } else {
        Timeout::Default
    }
}

/// Whether a timeout text is one that the rules understand.
pub open spec fn timeout_text_accepted(s: Seq<char>) -> bool {
    s == "default"@ || s == "never"@ || is_u32_text(s)
}

/// The timeout that a number asks for: -1 is the default, 0 is never, and a
/// positive number counts milliseconds; any other number gives the default.
pub open spec fn timeout_from_number(n: int) -> Timeout {
    if n == -1 {
        Timeout::Default
    } else if n == 0 {
        Timeout::Never
    } else if 0 < n <= u32::MAX {
        Timeout::Milliseconds(n as u32)
    } else {
        Timeout::Default
    }
}

/// Whether a numeric timeout is one that the rules understand.
pub open spec fn timeout_number_accepted(n: int) -> bool {
    -1 <= n <= u32::MAX
}

/// The urgency that a text names; any text other than `low`, `normal` and
/// `critical` gives normal urgency.
pub open spec fn urgency_from_text(s: Seq<char>) -> Urgency {
    if s == "low"@ {
        Urgency::Low
    } else if s == "critical"@ {
        Urgency::Critical
    } else {
        Urgency::Normal
    }
}

/// Whether a text names an urgency.
pub open spec fn urgency_text_accepted(s: Seq<char>) -> bool {
    s == "low"@ || s == "normal"@ || s == "critical"@
}

} // verus!
