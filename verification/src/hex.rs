//! Lowercase hexadecimal rendering of a body length, used as the size prefix
//! of a validator token.

use vstd::prelude::*;
use vstd::string::StringExecFns;

verus! {

/// The lowercase hexadecimal digit character for a value below sixteen.
pub open spec fn hex_digit(d: nat) -> char {
    if d == 0 {
        '0'
    } else if d == 1 {
        '1'
    } else if d == 2 {
        '2'
    } else if d == 3 {
        '3'
    } else if d == 4 {
        '4'
    } else if d == 5 {
        '5'
    } else if d == 6 {
        '6'
    } else if d == 7 {
        '7'
    } else if d == 8 {
        '8'
    } else if d == 9 {
        '9'
    } else if d == 10 {
        'a'
    } else if d == 11 {
        'b'
    } else if d == 12 {
        'c'
    } else if d == 13 {
        'd'
    } else if d == 14 {
        'e'
    } else {
        'f'
    }
}

/// Lowercase hexadecimal rendering of `n` without leading zeros (`"0"` for zero),
/// as `format!("{:x}", n)` would print it.
pub open spec fn hex_seq(n: nat) -> Seq<char>
    decreases n,
{
    if n < 16 {
        seq![hex_digit(n)]
    } else {
        hex_seq(n / 16) + seq![hex_digit(n % 16)]
    }
}

/// No character of a hexadecimal rendering is the separator `'-'`.
pub proof fn lemma_hex_seq_no_dash(n: nat)
    ensures
        forall|i: int| 0 <= i < hex_seq(n).len() ==> hex_seq(n)[i] != '-',
    decreases n,
{
    if n < 16 {
    } else {
        lemma_hex_seq_no_dash(n / 16);
        assert forall|i: int| 0 <= i < hex_seq(n).len() implies hex_seq(n)[i] != '-' by {
            if i < hex_seq(n / 16).len() {
                assert(hex_seq(n)[i] == hex_seq(n / 16)[i]);
            } else {
                assert(hex_seq(n)[i] == hex_digit(n % 16));
            }
        }
    }
}

/// A hexadecimal rendering has at least one character.
pub proof fn lemma_hex_seq_len(n: nat)
    ensures
        hex_seq(n).len() >= 1,
    decreases n,
{
    if n < 16 {
    } else {
        lemma_hex_seq_len(n / 16);
    }
}

/// Distinct numbers have distinct hexadecimal renderings.
pub proof fn lemma_hex_seq_injective(n1: nat, n2: nat)
    requires
        n1 != n2,
    ensures
        hex_seq(n1) != hex_seq(n2),
    decreases n1 + n2,
{
    if n1 < 16 && n2 < 16 {
        assert(hex_seq(n1)[0] == hex_digit(n1));
        assert(hex_seq(n2)[0] == hex_digit(n2));
        assert(hex_digit(n1) != hex_digit(n2));
    } else if n1 < 16 {
        lemma_hex_seq_len(n2 / 16);
        assert(hex_seq(n2).len() >= 2);
        assert(hex_seq(n1).len() == 1);
    } else if n2 < 16 {
        lemma_hex_seq_len(n1 / 16);
        assert(hex_seq(n1).len() >= 2);
        assert(hex_seq(n2).len() == 1);
    } else if n1 % 16 != n2 % 16 {
        let l1 = hex_seq(n1).len();
        let l2 = hex_seq(n2).len();
        assert(hex_seq(n1)[l1 - 1] == hex_digit(n1 % 16));
        assert(hex_seq(n2)[l2 - 1] == hex_digit(n2 % 16));
        assert(hex_digit(n1 % 16) != hex_digit(n2 % 16));
        if l1 == l2 {
            assert(hex_seq(n1)[l1 - 1] != hex_seq(n2)[l1 - 1]);
        }
    } else {
        lemma_hex_seq_injective(n1 / 16, n2 / 16);
        if hex_seq(n1) == hex_seq(n2) {
            assert(hex_seq(n1).drop_last() =~= hex_seq(n1 / 16));
            assert(hex_seq(n2).drop_last() =~= hex_seq(n2 / 16));
            assert(false);
        }
    }
}

fn push_hex_digit(s: &mut String, d: usize)
    requires
        d < 16,
    ensures
        final(s)@ == old(s)@ + seq![hex_digit(d as nat)],
{
    let digit: &str = match d {
        0 => "0",
        1 => "1",
        2 => "2",
        3 => "3",
        4 => "4",
        5 => "5",
        6 => "6",
        7 => "7",
        8 => "8",
        9 => "9",
        10 => "a",
        11 => "b",
        12 => "c",
        13 => "d",
        14 => "e",
        _ => "f",
    };
    proof {
        reveal_strlit("0");
        reveal_strlit("1");
        reveal_strlit("2");
        reveal_strlit("3");
        reveal_strlit("4");
        reveal_strlit("5");
        reveal_strlit("6");
        reveal_strlit("7");
        reveal_strlit("8");
        reveal_strlit("9");
        reveal_strlit("a");
        reveal_strlit("b");
        reveal_strlit("c");
        reveal_strlit("d");
        reveal_strlit("e");
        reveal_strlit("f");
        assert(digit@ =~= seq![hex_digit(d as nat)]);
    }
    s.append(digit);
    proof {
        assert(s@ =~= old(s)@ + seq![hex_digit(d as nat)]);
    }
}

fn push_hex(s: &mut String, n: usize)
    ensures
        final(s)@ == old(s)@ + hex_seq(n as nat),
    decreases n,
{
    if n < 16 {
        push_hex_digit(s, n);
    } else {
        push_hex(s, n / 16);
        push_hex_digit(s, n % 16);
        proof {
            assert(s@ =~= old(s)@ + hex_seq(n as nat));
        }
    }
}

/// The size prefix of a validator token: the body length in lowercase
/// hexadecimal, without leading zeros.
pub fn size_prefix(n: usize) -> (s: String)
    ensures
        s@ == hex_seq(n as nat),
{
    let mut s = String::new();
    push_hex(&mut s, n);
    proof {
        assert(s@ =~= hex_seq(n as nat));
    }
    s
}

} // verus!
