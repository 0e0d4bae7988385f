//! Window identifiers: the letter `w` followed by a decimal counter, so that
//! every identifier the registry hands out is distinct from every earlier one.
use vstd::prelude::*;
use vstd::string::StringExecFns;

verus! {

/// The decimal digit character for `d` (meaningful for `d < 10`).
pub open spec fn digit_char(d: nat) -> char {
    if d == 0 {
        '0'
    } else if d == 1 {
        '1'
    } else if d == 2 {
        '2'
    } else if d == 3 {
        '3'
    } else if d == 4 {
        '4'
    } else if d == 5 {
        '5'
    } else if d == 6 {
        '6'
    } else if d == 7 {
        '7'
    } else if d == 8 {
        '8'
    } else {
        '9'
    }
}

/// The decimal representation of `n`, most significant digit first, no
/// leading zeroes (`0` itself is the single digit `0`).
pub open spec fn dec_of(n: nat) -> Seq<char>
    decreases n,
{
    if n < 10 {
        seq![digit_char(n)]
    } else {
        dec_of(n / 10) + seq![digit_char(n % 10)]
    }
}

/// The window identifier for counter `n`.
pub open spec fn win_id(n: nat) -> Seq<char> {
    seq!['w'] + dec_of(n)
}

proof fn lemma_digit_char_inj(a: nat, b: nat)
    requires
        a < 10,
        b < 10,
        digit_char(a) == digit_char(b),
    ensures
        a == b,
{
}

proof fn lemma_dec_of_len(n: nat)
    ensures
        dec_of(n).len() >= 1,
        (n < 10) <==> (dec_of(n).len() == 1),
    decreases n,
{
    if n >= 10 {
        lemma_dec_of_len(n / 10);
    }
}

proof fn lemma_dec_of_inj(a: nat, b: nat)
    requires
        dec_of(a) == dec_of(b),
    ensures
        a == b,
    decreases a,
{
    lemma_dec_of_len(a);
    lemma_dec_of_len(b);
    if a < 10 && b < 10 {
        assert(dec_of(a)[0] == digit_char(a));
        assert(dec_of(b)[0] == digit_char(b));
        lemma_digit_char_inj(a, b);
    } else if a < 10 {
        assert(dec_of(b).len() >= 2);
        assert(false);
    } else if b < 10 {
        assert(dec_of(a).len() >= 2);
        assert(false);
    } else {
        let da = dec_of(a / 10);
        let db = dec_of(b / 10);
        assert(dec_of(a).drop_last() =~= da);
        assert(dec_of(b).drop_last() =~= db);
        assert(dec_of(a).last() == digit_char(a % 10));
        assert(dec_of(b).last() == digit_char(b % 10));
        lemma_dec_of_inj(a / 10, b / 10);
        lemma_digit_char_inj(a % 10, b % 10);
        vstd::arithmetic::div_mod::lemma_fundamental_div_mod(a as int, 10);
        vstd::arithmetic::div_mod::lemma_fundamental_div_mod(b as int, 10);
    }
}

/// Distinct counters give distinct window identifiers.
pub proof fn lemma_win_id_inj(a: nat, b: nat)
    requires
        win_id(a) == win_id(b),
    ensures
        a == b,
{
    assert(win_id(a).subrange(1, win_id(a).len() as int) =~= dec_of(a));
    assert(win_id(b).subrange(1, win_id(b).len() as int) =~= dec_of(b));
    assert(dec_of(a) == dec_of(b));
    lemma_dec_of_inj(a, b);
}

/// Appends the decimal representation of `n` to `s`.
pub fn push_decimal(s: &mut String, n: u64)
    ensures
        final(s)@ == old(s)@ + dec_of(n as nat),
    decreases n,
{
    if n >= 10 {
        push_decimal(s, n / 10);
    }
    let d: u64 = n % 10;
    if d == 0 {
        s.append("0");
        proof {
            reveal_strlit("0");
        }
    } else if d == 1 {
        s.append("1");
        proof {
            reveal_strlit("1");
        }
    } else if d == 2 {
        s.append("2");
        proof {
            reveal_strlit("2");
        }
    } else if d == 3 {
        s.append("3");
        proof {
            reveal_strlit("3");
        }
    } else if d == 4 {
        s.append("4");
        proof {
            reveal_strlit("4");
        }
    } else if d == 5 {
        s.append("5");
        proof {
            reveal_strlit("5");
        }
    } else if d == 6 {
        s.append("6");
        proof {
            reveal_strlit("6");
        }
    } else if d == 7 {
        s.append("7");
        proof {
            reveal_strlit("7");
        }
    } else if d == 8 {
        s.append("8");
        proof {
            reveal_strlit("8");
        }
    } else {
        s.append("9");
        proof {
            reveal_strlit("9");
        }
    }
    proof {
        assert(s@ =~= old(s)@ + dec_of(n as nat));
    }
}

/// Builds the window identifier string for counter `n`.
pub fn make_window_id(n: u64) -> (r: String)
    ensures
        r@ == win_id(n as nat),
{
    let mut s = String::from_str("w");
    proof {
        reveal_strlit("w");
    }
    push_decimal(&mut s, n);
    proof {
        assert(s@ =~= win_id(n as nat));
    }
    s
}

} // verus!
