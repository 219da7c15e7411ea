use vstd::prelude::*;
use vstd::string::StringExecFns;

verus! {

/// Hexadecimal digit of `d`, upper case.
pub open spec fn hex_char(d: nat) -> char {
    if d == 0 {
        '0'
    } else if d == 1 {
        '1'
    } else if d == 2 {
        '2'
    } else if d == 3 {
        '3'
    } else if d == 4 {
        '4'
    } else if d == 5 {
        '5'
    } else if d == 6 {
        '6'
    } else if d == 7 {
        '7'
    } else if d == 8 {
        '8'
    } else if d == 9 {
        '9'
    } else if d == 10 {
        'A'
    } else if d == 11 {
        'B'
    } else if d == 12 {
        'C'
    } else if d == 13 {
        'D'
    } else if d == 14 {
        'E'
    } else {
        'F'
    }
}

/// The last `n` hexadecimal digits of `v`, most significant first.
pub open spec fn hex(v: nat, n: nat) -> Seq<char>
    decreases n,
{
    if n == 0 {
        Seq::empty()
    } else {
        hex(v / 16, (n - 1) as nat).push(hex_char(v % 16))
    }
}

/// Decimal digits of `v`, without leading zeros.
pub open spec fn dec(v: nat) -> Seq<char>
    decreases v,
{
    if v < 10 {
        seq![hex_char(v)]
    } else {
        dec(v / 10).push(hex_char(v % 10))
    }
}

fn digit_str(d: u64) -> (r: &'static str)
    requires
        d < 16,
    ensures
        r@ == seq![hex_char(d as nat)],
{
    proof {
        reveal_strlit("0");
        reveal_strlit("1");
        reveal_strlit("2");
        reveal_strlit("3");
        reveal_strlit("4");
        reveal_strlit("5");
        reveal_strlit("6");
        reveal_strlit("7");
        reveal_strlit("8");
        reveal_strlit("9");
        reveal_strlit("A");
        reveal_strlit("B");
        reveal_strlit("C");
        reveal_strlit("D");
        reveal_strlit("E");
        reveal_strlit("F");
    }
    match d {
        0 => "0",
        1 => "1",
        2 => "2",
        3 => "3",
        4 => "4",
        5 => "5",
        6 => "6",
        7 => "7",
        8 => "8",
        9 => "9",
        10 => "A",
        11 => "B",
        12 => "C",
        13 => "D",
        14 => "E",
        _ => "F",
    }
}

/// Appends the last `n` hexadecimal digits of `v`.
pub fn push_hex(s: &mut String, v: u64, n: usize)
    ensures
        final(s)@ == old(s)@ + hex(v as nat, n as nat),
    decreases n,
{
    if n > 0 {
        push_hex(s, v / 16, n - 1);
        s.append(digit_str(v % 16));
        proof {
            let h = hex((v / 16) as nat, (n - 1) as nat);
            assert(hex(v as nat, n as nat) == h.push(hex_char((v % 16) as nat)));
            assert(old(s)@ + h + seq![hex_char((v % 16) as nat)] =~= old(s)@ + hex(v as nat, n as nat));
        }
    } else {
        assert(old(s)@ + hex(v as nat, 0) =~= old(s)@);
    }
}

/// Appends the decimal digits of `v`.
pub fn push_dec(s: &mut String, v: u64)
    ensures
        final(s)@ == old(s)@ + dec(v as nat),
    decreases v,
{
    if v >= 10 {
        push_dec(s, v / 10);
        s.append(digit_str(v % 10));
        proof {
            let h = dec((v / 10) as nat);
            assert(old(s)@ + h + seq![hex_char((v % 10) as nat)] =~= old(s)@ + dec(v as nat));
        }
    } else {
        s.append(digit_str(v));
    }
}

} // verus!
