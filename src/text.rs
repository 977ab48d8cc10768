//! Decimal rendering of counters and percentages.
use vstd::prelude::*;

verus! {

/// The character of a decimal digit.
pub open spec fn digit_char(d: nat) -> char {
    if d == 0 {
        '0'
    } else if d == 1 {
        '1'
    } else if d == 2 {
        '2'
    } else if d == 3 {
        '3'
    } else if d == 4 {
        '4'
    } else if d == 5 {
        '5'
    } else if d == 6 {
        '6'
    } else if d == 7 {
        '7'
    } else if d == 8 {
        '8'
    } else {
        '9'
    }
}

/// The decimal notation of `n`, without leading zeros.
pub open spec fn dec_str(n: nat) -> Seq<char>
    decreases n,
{
    if n < 10 {
        seq![digit_char(n)]
    } else {
        dec_str(n / 10).push(digit_char(n % 10))
    }
}

/// A percentage held in hundredths, written with two decimals and a `%` sign.
pub open spec fn percent_str(centi: nat) -> Seq<char> {
    dec_str(centi / 100) + seq!['.', digit_char((centi % 100) / 10), digit_char(centi % 10), '%']
}

/// A memory total in mebibytes, followed by its unit.
pub open spec fn mb_str(mb: nat) -> Seq<char> {
    dec_str(mb) + seq![' ', 'M', 'b']
}

fn digit_str(d: u128) -> (r: &'static str)
    requires
        d < 10,
    ensures
        r@ == seq![digit_char(d as nat)],
{
    if d == 0 {
        proof { reveal_strlit("0"); }
        "0"
    } else if d == 1 {
        proof { reveal_strlit("1"); }
        "1"
    } else if d == 2 {
        proof { reveal_strlit("2"); }
        "2"
    } else if d == 3 {
        proof { reveal_strlit("3"); }
        "3"
    } else if d == 4 {
        proof { reveal_strlit("4"); }
        "4"
    } else if d == 5 {
        proof { reveal_strlit("5"); }
        "5"
    } else if d == 6 {
        proof { reveal_strlit("6"); }
        "6"
    } else if d == 7 {
        proof { reveal_strlit("7"); }
        "7"
    } else if d == 8 {
        proof { reveal_strlit("8"); }
        "8"
    } else {
        proof { reveal_strlit("9"); }
        "9"
    }
}

/// Appends the decimal notation of `n` to `out`.
pub fn push_decimal(out: &mut String, n: u128)
    ensures
        final(out)@ == old(out)@ + dec_str(n as nat),
    decreases n,
{
    if n >= 10 {
        push_decimal(out, n / 10);
    }
    out.append(digit_str(n % 10));
    proof {
        if n >= 10 {
            assert(old(out)@ + dec_str(n as nat) =~= old(out)@ + dec_str((n / 10) as nat) + seq![
                digit_char((n % 10) as nat),
            ]);
        } else {
            assert(old(out)@ + dec_str(n as nat) =~= old(out)@ + seq![digit_char(n as nat)]);
        }
    }
}

/// The decimal notation of `n`.
pub fn decimal_string(n: u128) -> (r: String)
    ensures
        r@ == dec_str(n as nat),
{
    let mut s = String::new();
    push_decimal(&mut s, n);
    proof {
        assert(s@ =~= dec_str(n as nat));
    }
    s
}

/// `centi` hundredths of a percent, written as `12.34%`.
pub fn percent_string(centi: u128) -> (r: String)
    ensures
        r@ == percent_str(centi as nat),
{
    let mut s = String::new();
    push_decimal(&mut s, centi / 100);
    s.append(".");
    s.append(digit_str((centi % 100) / 10));
    s.append(digit_str(centi % 10));
    s.append("%");
    proof {
        reveal_strlit(".");
        reveal_strlit("%");
        assert(s@ =~= percent_str(centi as nat));
    }
    s
}

/// A memory total in mebibytes, written as `512 Mb`.
pub fn mb_string(mb: u128) -> (r: String)
    ensures
        r@ == mb_str(mb as nat),
{
    let mut s = String::new();
    push_decimal(&mut s, mb);
    s.append(" Mb");
    proof {
        reveal_strlit(" Mb");
        assert(s@ =~= mb_str(mb as nat));
    }
    s
}

} // verus!
