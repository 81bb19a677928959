//! Parsing of port strings and the outcome rule of a readiness probe.
//!
//! A readiness probe takes a port given as text, and succeeds only when the
//! text names a valid TCP port and a connection to that port succeeds. The
//! parsing and the outcome rule are decisions and live here; opening the
//! connection is I/O and is left to the caller.

use vstd::prelude::*;

verus! {

/// A decimal digit.
pub open spec fn is_digit_char(c: char) -> bool {
    48 <= c as u32 && c as u32 <= 57
}

/// The numeric value of one decimal digit.
pub open spec fn digit_val(c: char) -> nat {
    (c as u32 - 48) as nat
}

/// Every character of `s` is a decimal digit.
pub open spec fn all_digits(s: Seq<char>) -> bool {
    forall|i: int| 0 <= i < s.len() ==> is_digit_char(s[i])
}

/// The number written by a sequence of decimal digits, most significant first.
pub open spec fn digits_val(s: Seq<char>) -> nat
    decreases s.len(),
{
    if s.len() == 0 {
        0
    } else {
        digits_val(s.drop_last()) * 10 + digit_val(s.last())
    }
}

/// What parsing a port string yields: the port number when the string is an
/// optional `+` sign followed by at least one decimal digit and the value
/// fits in a `u16`; nothing otherwise.
pub open spec fn spec_parse_port(s: Seq<char>) -> Option<u16> {
    let body = if s.len() > 0 && s[0] == '+' {
        s.subrange(1, s.len() as int)
    } else {
        s
    };
    if body.len() > 0 && all_digits(body) && digits_val(body) <= u16::MAX {
        Some(digits_val(body) as u16)
    } else {
        None
    }
}

/// Reading one more digit multiplies the value so far by ten and adds the
/// digit.
proof fn lemma_digits_val_step(s: Seq<char>, i: int)
    requires
        0 <= i < s.len(),
    ensures
        digits_val(s.take(i + 1)) == digits_val(s.take(i)) * 10 + digit_val(s[i]),
{
    assert(s.take(i + 1).drop_last() =~= s.take(i));
    assert(s.take(i + 1).last() == s[i]);
}

/// The value of a digit string never shrinks as digits are appended.
proof fn lemma_digits_val_mono(s: Seq<char>, i: int, j: int)
    requires
        0 <= i <= j <= s.len(),
        all_digits(s),
    ensures
        digits_val(s.take(i)) <= digits_val(s.take(j)),
    decreases j - i,
{
    if i < j {
        lemma_digits_val_mono(s, i, j - 1);
        lemma_digits_val_step(s, j - 1);
    }
}

/// Parses a port string: an optional `+` sign, then one or more decimal
/// digits whose value fits in a `u16`. Anything else yields `None`.
pub fn parse_port(s: &str) -> (r: Option<u16>)
    ensures
        r == spec_parse_port(s@),
{
    let n: usize = s.unicode_len();
    let start: usize = if n > 0 && s.get_char(0) == '+' {
        1
    } else {
        0
    };
    let ghost body: Seq<char> = if s@.len() > 0 && s@[0] == '+' {
        s@.subrange(1, s@.len() as int)
    } else {
        s@
    };
    if start == n {
        assert(body.len() == 0);
        return None;
    }
    let mut acc: u32 = 0;
    let mut i: usize = start;
    while i < n
        invariant
            start <= i <= n,
            n == s@.len(),
            start == if s@.len() > 0 && s@[0] == '+' {
                1int
            } else {
                0int
            },
            body == (if s@.len() > 0 && s@[0] == '+' {
                s@.subrange(1, s@.len() as int)
            } else {
                s@
            }),
            all_digits(body.take(i - start)),
            acc == digits_val(body.take(i - start)),
            acc <= u16::MAX,
        decreases n - i,
    {
        let c = s.get_char(i);
        let cu: u32 = c as u32;
        assert(body[i - start] == s@[i as int]);
        if cu < 48 || cu > 57 {
            assert(!is_digit_char(body[i - start]));
            return None;
        }
        let d: u32 = cu - 48;
        proof {
            lemma_digits_val_step(body, i - start);
            assert(body.take(i - start + 1).take(i - start) =~= body.take(i - start));
        }
        let next: u32 = acc * 10 + d;
        if next > 65535 {
            proof {
                if all_digits(body) {
                    assert(body.take(body.len() as int) =~= body);
                    lemma_digits_val_mono(body, i - start + 1, body.len() as int);
                }
            }
            return None;
        }
        acc = next;
        i = i + 1;
    }
    proof {
        assert(body.take(body.len() as int) =~= body);
        assert(body.take(i - start) =~= body);
    }
    Some(acc as u16)
}

/// The loopback address a readiness probe connects to: the worker is only
/// ever probed on the local machine.
pub fn loopback_address(port: u16) -> (r: String)
    ensures
        r@ == "127.0.0.1:"@ + crate::diag::dec_rep(port as nat),
{
    let mut s = String::from_str("127.0.0.1:");
    let p = crate::diag::decimal_string(port as u64);
    s.append(p.as_str());
    s
}

/// The outcome rule of one readiness probe: the probe reports readiness only
/// when the port string parsed and the connection attempt succeeded. A string
/// that names no port collapses to `false`, never to an error.
pub fn probe_outcome(target: Option<u16>, connect_succeeded: bool) -> (r: bool)
    ensures
        r == (target is Some && connect_succeeded),
{
    match target {
        Some(_) => connect_succeeded,
        None => false,
    }
}

} // verus!
