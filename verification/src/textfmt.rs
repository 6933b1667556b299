use vstd::prelude::*;

use crate::clock::LocalStamp;

verus! {

/// The character for one decimal digit value.
pub open spec fn digit_char(d: int) -> char {
    if d == 0 {
        '0'
    } else if d == 1 {
        '1'
    } else if d == 2 {
        '2'
    } else if d == 3 {
        '3'
    } else if d == 4 {
        '4'
    } else if d == 5 {
        '5'
    } else if d == 6 {
        '6'
    } else if d == 7 {
        '7'
    } else if d == 8 {
        '8'
    } else {
        '9'
    }
}

/// The usual decimal notation of `n`: no sign, no leading zero except
/// for zero itself.
pub open spec fn dec_chars(n: nat) -> Seq<char>
    decreases n,
{
    if n < 10 {
        seq![digit_char(n as int)]
    } else {
        dec_chars(n / 10).push(digit_char((n % 10) as int))
    }
}

/// `n` in exactly two digits, zero-padded; meaningful for `n < 100`.
pub open spec fn two_digit_chars(n: nat) -> Seq<char> {
    seq![digit_char((n / 10 % 10) as int), digit_char((n % 10) as int)]
}

/// A year as the log stamp writes it: zero-padded to at least four
/// digits, with a leading minus sign for years before year zero.
pub open spec fn year_chars(y: int) -> Seq<char> {
    if y < 0 {
        seq!['-'] + padded_four((-y) as nat)
    } else {
        padded_four(y as nat)
    }
}

/// `n` zero-padded on the left to at least four digits.
pub open spec fn padded_four(n: nat) -> Seq<char> {
    if n < 10 {
        seq!['0', '0', '0'] + dec_chars(n)
    } else if n < 100 {
        seq!['0', '0'] + dec_chars(n)
    } else if n < 1000 {
        seq!['0'] + dec_chars(n)
    } else {
        dec_chars(n)
    }
}

/// The one-character string for a digit value.
fn digit_str(d: u64) -> (r: &'static str)
    requires
        d < 10,
    ensures
        r@ == seq![digit_char(d as int)],
{
    proof {
        reveal_strlit("0");
        reveal_strlit("1");
        reveal_strlit("2");
        reveal_strlit("3");
        reveal_strlit("4");
        reveal_strlit("5");
        reveal_strlit("6");
        reveal_strlit("7");
        reveal_strlit("8");
        reveal_strlit("9");
    }
    if d == 0 {
        "0"
    } else if d == 1 {
        "1"
    } else if d == 2 {
        "2"
    } else if d == 3 {
        "3"
    } else if d == 4 {
        "4"
    } else if d == 5 {
        "5"
    } else if d == 6 {
        "6"
    } else if d == 7 {
        "7"
    } else if d == 8 {
        "8"
    } else {
        "9"
    }
}

/// Appends the decimal notation of `n` to `out`.
pub fn push_decimal(out: &mut String, n: u64)
    ensures
        final(out)@ == old(out)@ + dec_chars(n as nat),
    decreases n,
{
    if n < 10 {
        out.append(digit_str(n));
    } else {
        push_decimal(out, n / 10);
        out.append(digit_str(n % 10));
        proof {
            assert(final(out)@ =~= old(out)@ + dec_chars(n as nat));
        }
    }
}

/// Appends `n` as exactly two zero-padded digits.
pub fn push_two_digits(out: &mut String, n: u8)
    requires
        n < 100,
    ensures
        final(out)@ == old(out)@ + two_digit_chars(n as nat),
{
    out.append(digit_str((n / 10) as u64));
    out.append(digit_str((n % 10) as u64));
    proof {
        assert(final(out)@ =~= old(out)@ + two_digit_chars(n as nat));
    }
}

/// Appends a year, zero-padded to at least four digits, with a sign when
/// negative.
pub fn push_year(out: &mut String, y: i32)
    ensures
        final(out)@ == old(out)@ + year_chars(y as int),
{
    let wide: i64 = y as i64;
    let mag: u64 = if wide < 0 {
        (-wide) as u64
    } else {
        wide as u64
    };
    if wide < 0 {
        proof {
            reveal_strlit("-");
        }
        out.append("-");
    }
    if mag < 10 {
        proof {
            reveal_strlit("000");
        }
        out.append("000");
    } else if mag < 100 {
        proof {
            reveal_strlit("00");
        }
        out.append("00");
    } else if mag < 1000 {
        proof {
            reveal_strlit("0");
        }
        out.append("0");
    }
    push_decimal(out, mag);
    proof {
        assert(final(out)@ =~= old(out)@ + year_chars(y as int));
    }
}

/// A full timestamp as the lifecycle log lines carry it:
/// year, month and day joined by `-`, a space, then hour, minute and
/// second joined by `:`, every field zero-padded.
pub open spec fn stamp_chars(t: LocalStamp) -> Seq<char> {
    date_chars(t) + seq![' '] + two_digit_chars(t.hour as nat) + seq![':'] + two_digit_chars(
        t.minute as nat,
    ) + seq![':'] + two_digit_chars(t.second as nat)
}

/// The calendar-date part of a stamp: year, month and day joined by `-`.
pub open spec fn date_chars(t: LocalStamp) -> Seq<char> {
    year_chars(t.year as int) + seq!['-'] + two_digit_chars(t.month as nat) + seq!['-']
        + two_digit_chars(t.day as nat)
}

/// Appends the calendar-date part of `t`.
pub fn push_date(out: &mut String, t: &LocalStamp)
    requires
        t.wf(),
    ensures
        final(out)@ == old(out)@ + date_chars(*t),
{
    proof {
        reveal_strlit("-");
        assert("-"@ =~= seq!['-']);
    }
    push_year(out, t.year);
    out.append("-");
    push_two_digits(out, t.month);
    out.append("-");
    push_two_digits(out, t.day);
    proof {
        assert(final(out)@ =~= old(out)@ + date_chars(*t));
    }
}

/// Appends the full timestamp of `t`.
pub fn push_stamp(out: &mut String, t: &LocalStamp)
    requires
        t.wf(),
    ensures
        final(out)@ == old(out)@ + stamp_chars(*t),
{
    proof {
        reveal_strlit(" ");
        reveal_strlit(":");
        assert(" "@ =~= seq![' ']);
        assert(":"@ =~= seq![':']);
    }
    push_date(out, t);
    out.append(" ");
    push_two_digits(out, t.hour);
    out.append(":");
    push_two_digits(out, t.minute);
    out.append(":");
    push_two_digits(out, t.second);
    proof {
        assert(final(out)@ =~= old(out)@ + stamp_chars(*t));
    }
}

} // verus!
