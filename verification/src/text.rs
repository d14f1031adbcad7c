//! Small text helpers shared by the player: suffix tests on file names and
//! zero-padded decimal rendering for the progress read-out.

use vstd::prelude::*;

verus! {

/// `suf` stands at the end of `s`, with at least one character before it.
pub open spec fn has_proper_suffix(s: Seq<char>, suf: Seq<char>) -> bool {
    s.len() > suf.len() && s.subrange(s.len() - suf.len(), s.len() as int) == suf
}

/// Reports whether `suf` is a proper suffix of `s` (strictly shorter than `s`).
pub fn ends_with_proper(s: &str, suf: &str) -> (b: bool)
    ensures
        b == has_proper_suffix(s@, suf@),
{
    let n = s.unicode_len();
    let m = suf.unicode_len();
    if n <= m {
        return false;
    }
    let mut j: usize = 0;
    while j < m
        invariant
            n == s@.len(),
            m == suf@.len(),
            m < n,
            j <= m,
            forall|k: int| 0 <= k < j ==> s@[s@.len() - suf@.len() + k] == suf@[k],
        decreases m - j,
    {
        if s.get_char(n - m + j) != suf.get_char(j) {
            proof {
                if has_proper_suffix(s@, suf@) {
                    assert(s@.subrange(s@.len() - suf@.len(), s@.len() as int)[j as int]
                        == suf@[j as int]);
                }
            }
            return false;
        }
        j += 1;
    }
    proof {
        assert(s@.subrange(s@.len() - suf@.len(), s@.len() as int) =~= suf@);
    }
    true
}

/// The character for one decimal digit.
pub open spec fn digit_char(d: int) -> char {
    if d == 0 {
        '0'
    } else if d == 1 {
        '1'
    } else if d == 2 {
        '2'
    } else if d == 3 {
        '3'
    } else if d == 4 {
        '4'
    } else if d == 5 {
        '5'
    } else if d == 6 {
        '6'
    } else if d == 7 {
        '7'
    } else if d == 8 {
        '8'
    } else {
        '9'
    }
}

/// The decimal digits of `n`, most significant first.
pub open spec fn dec_digits(n: int) -> Seq<char>
    decreases n,
{
    if n < 10 {
        seq![digit_char(n)]
    } else {
        dec_digits(n / 10).push(digit_char(n % 10))
    }
}

/// `n` in decimal, left-padded with `'0'` to at least two characters.
pub open spec fn two_digits(n: int) -> Seq<char> {
    if n < 10 {
        seq!['0'] + dec_digits(n)
    } else {
        dec_digits(n)
    }
}

/// `MM:SS`, minutes and seconds each padded to two digits; the minute field
/// simply grows beyond two digits past 99 minutes.
pub open spec fn clock_text(total_secs: int) -> Seq<char> {
    two_digits(total_secs / 60) + seq![':'] + two_digits(total_secs % 60)
}

/// A one-character string slice holding the digit `d`.
fn digit_str(d: u64) -> (s: &'static str)
    requires
        d < 10,
    ensures
        s@ == seq![digit_char(d as int)],
{
    let s: &'static str = if d == 0 {
        "0"
    } else if d == 1 {
        "1"
    } else if d == 2 {
        "2"
    } else if d == 3 {
        "3"
    } else if d == 4 {
        "4"
    } else if d == 5 {
        "5"
    } else if d == 6 {
        "6"
    } else if d == 7 {
        "7"
    } else if d == 8 {
        "8"
    } else {
        "9"
    };
    proof {
        reveal_strlit("0");
        reveal_strlit("1");
        reveal_strlit("2");
        reveal_strlit("3");
        reveal_strlit("4");
        reveal_strlit("5");
        reveal_strlit("6");
        reveal_strlit("7");
        reveal_strlit("8");
        reveal_strlit("9");
        assert(s@ =~= seq![digit_char(d as int)]);
    }
    s
}

/// Appends the decimal digits of `n` to `out`.
pub fn push_decimal(out: &mut String, n: u64)
    ensures
        final(out)@ == old(out)@ + dec_digits(n as int),
    decreases n,
{
    if n >= 10 {
        proof {
            assert(n / 10 < n) by (nonlinear_arith)
                requires
                    n >= 10,
            ;
        }
        push_decimal(out, n / 10);
        let d = digit_str(n % 10);
        out.append(d);
        proof {
            assert(out@ =~= old(out)@ + dec_digits(n as int));
        }
    } else {
        let d = digit_str(n);
        out.append(d);
        proof {
            assert(out@ =~= old(out)@ + dec_digits(n as int));
        }
    }
}

/// Appends `n` in decimal, padded to at least two digits.
pub fn push_two_digits(out: &mut String, n: u64)
    ensures
        final(out)@ == old(out)@ + two_digits(n as int),
{
    if n < 10 {
        out.append("0");
        proof {
            reveal_strlit("0");
        }
        push_decimal(out, n);
        proof {
            assert(out@ =~= old(out)@ + two_digits(n as int));
        }
    } else {
        push_decimal(out, n);
    }
}

/// Appends `MM:SS` for a number of seconds.
pub fn push_clock(out: &mut String, secs: u64)
    ensures
        final(out)@ == old(out)@ + clock_text(secs as int),
{
    push_two_digits(out, secs / 60);
    out.append(":");
    proof {
        reveal_strlit(":");
    }
    push_two_digits(out, secs % 60);
    proof {
        assert(out@ =~= old(out)@ + clock_text(secs as int));
    }
}

} // verus!
