//! Text for error messages: numbers in decimal and byte lists in brackets.

use vstd::prelude::*;

verus! {

/// The character that stands for the digit `d`.
pub open spec fn digit_char(d: nat) -> char {
    if d == 0 {
        '0'
    } else if d == 1 {
        '1'
    } else if d == 2 {
        '2'
    } else if d == 3 {
        '3'
    } else if d == 4 {
        '4'
    } else if d == 5 {
        '5'
    } else if d == 6 {
        '6'
    } else if d == 7 {
        '7'
    } else if d == 8 {
        '8'
    } else {
        '9'
    }
}

/// `n` in decimal, without leading zeros.
pub open spec fn decimal(n: nat) -> Seq<char>
    decreases n,
{
    if n < 10 {
        seq![digit_char(n)]
    } else {
        decimal(n / 10).push(digit_char(n % 10))
    }
}

/// The elements of `bytes` in decimal, separated by a comma and a space.
pub open spec fn decimal_list(bytes: Seq<u8>) -> Seq<char>
    decreases bytes.len(),
{
    if bytes.len() == 0 {
        Seq::empty()
    } else if bytes.len() == 1 {
        decimal(bytes[0] as nat)
    } else {
        decimal_list(bytes.drop_last()) + seq![',', ' '] + decimal(bytes.last() as nat)
    }
}

/// `bytes` as a bracketed list of decimal numbers, such as `[82, 73, 0]`.
pub open spec fn debug_bytes(bytes: Seq<u8>) -> Seq<char> {
    seq!['['] + decimal_list(bytes) + seq![']']
}

fn digit_str(d: u8) -> (s: &'static str)
    requires
        d < 10,
    ensures
        s@ == seq![digit_char(d as nat)],
{
    proof {
        reveal_strlit("0");
        reveal_strlit("1");
        reveal_strlit("2");
        reveal_strlit("3");
        reveal_strlit("4");
        reveal_strlit("5");
        reveal_strlit("6");
        reveal_strlit("7");
        reveal_strlit("8");
        reveal_strlit("9");
    }
    let s = if d == 0 {
        "0"
    } else if d == 1 {
        "1"
    } else if d == 2 {
        "2"
    } else if d == 3 {
        "3"
    } else if d == 4 {
        "4"
    } else if d == 5 {
        "5"
    } else if d == 6 {
        "6"
    } else if d == 7 {
        "7"
    } else if d == 8 {
        "8"
    } else {
        "9"
    };
    assert(s@ =~= seq![digit_char(d as nat)]);
    s
}

/// Appends `n` in decimal to `out`.
pub fn push_decimal(out: &mut String, n: u8)
    ensures
        final(out)@ == old(out)@ + decimal(n as nat),
{
    let ghost before = out@;
    if n >= 100 {
        out.append(digit_str(n / 100));
    }
    if n >= 10 {
        out.append(digit_str((n / 10) % 10));
    }
    out.append(digit_str(n % 10));
    proof {
        let v = n as nat;
        if v >= 100 {
            assert(decimal(v / 10 / 10) == seq![digit_char(v / 100)]);
            assert(decimal(v / 10) == decimal(v / 10 / 10).push(digit_char((v / 10) % 10)));
        } else if v >= 10 {
            assert(decimal(v / 10) == seq![digit_char(v / 10)]);
        }
        assert(out@ =~= before + decimal(v));
    }
}

/// Appends `bytes` as a bracketed list of decimal numbers to `out`.
pub fn push_debug_bytes(out: &mut String, bytes: &[u8])
    ensures
        final(out)@ == old(out)@ + debug_bytes(bytes@),
{
    let ghost before = out@;
    proof {
        reveal_strlit("[");
        reveal_strlit(", ");
        reveal_strlit("]");
    }
    out.append("[");
    let mut i: usize = 0;
    while i < bytes.len()
        invariant
            i <= bytes@.len(),
            out@ == before + seq!['['] + decimal_list(bytes@.take(i as int)),
        decreases bytes@.len() - i,
    {
        let ghost so_far = out@;
        if i > 0 {
            out.append(", ");
        }
        push_decimal(out, bytes[i]);
        proof {
            let next = bytes@.take(i + 1);
            assert(next.drop_last() =~= bytes@.take(i as int));
            assert(next.last() == bytes@[i as int]);
            reveal_strlit(", ");
            assert(", "@ =~= seq![',', ' ']);
            if i == 0 {
                assert(decimal_list(bytes@.take(0)) =~= Seq::<char>::empty());
                assert(out@ =~= before + seq!['['] + decimal_list(next));
            } else {
                assert(out@ =~= before + seq!['['] + decimal_list(next));
            }
        }
        i += 1;
    }
    out.append("]");
    proof {
        assert(bytes@.take(bytes@.len() as int) =~= bytes@);
        assert("]"@ =~= seq![']']);
        assert("["@ =~= seq!['[']);
        assert(out@ =~= before + debug_bytes(bytes@));
    }
}

} // verus!
