//! Small verified text utilities shared by the fragment builders: decimal
//! rendering of indices and comma-joining of fragment lists.

use vstd::prelude::*;

verus! {

/// The single decimal digit `d` as a one-character sequence.
pub open spec fn dec_digit(d: nat) -> Seq<char> {
    if d == 0 {
        seq!['0']
    } else if d == 1 {
        seq!['1']
    } else if d == 2 {
        seq!['2']
    } else if d == 3 {
        seq!['3']
    } else if d == 4 {
        seq!['4']
    } else if d == 5 {
        seq!['5']
    } else if d == 6 {
        seq!['6']
    } else if d == 7 {
        seq!['7']
    } else if d == 8 {
        seq!['8']
    } else {
        seq!['9']
    }
}

/// Decimal rendering of `n`, most significant digit first, with no leading
/// zeros (`0` itself renders as `"0"`).
pub open spec fn dec_rep(n: nat) -> Seq<char>
    decreases n,
{
    if n < 10 {
        dec_digit(n)
    } else {
        dec_rep(n / 10) + dec_digit(n % 10)
    }
}

/// A decimal rendering is never empty.
pub proof fn lemma_dec_rep_len(n: nat)
    ensures
        dec_rep(n).len() >= 1,
    decreases n,
{
    if n >= 10 {
        lemma_dec_rep_len(n / 10);
    }
}

/// Every character of a decimal rendering is a digit.
pub proof fn lemma_dec_rep_digits(n: nat)
    ensures
        forall|i: int| 0 <= i < dec_rep(n).len() ==> '0' <= #[trigger] dec_rep(n)[i] <= '9',
    decreases n,
{
    if n >= 10 {
        lemma_dec_rep_digits(n / 10);
        let pre = dec_rep(n / 10);
        let last = dec_digit(n % 10);
        assert forall|i: int| 0 <= i < dec_rep(n).len() implies '0' <= #[trigger] dec_rep(n)[i]
            <= '9' by {
            if i < pre.len() {
                assert(dec_rep(n)[i] == pre[i]);
            } else {
                assert(dec_rep(n)[i] == last[i - pre.len()]);
            }
        }
    }
}

fn dec_digit_str(d: usize) -> (r: &'static str)
    requires
        d < 10,
    ensures
        r@ == dec_digit(d as nat),
{
    proof {
        reveal_strlit("0");
        reveal_strlit("1");
        reveal_strlit("2");
        reveal_strlit("3");
        reveal_strlit("4");
        reveal_strlit("5");
        reveal_strlit("6");
        reveal_strlit("7");
        reveal_strlit("8");
        reveal_strlit("9");
    }
    let r: &'static str = if d == 0 {
        "0"
    } else if d == 1 {
        "1"
    } else if d == 2 {
        "2"
    } else if d == 3 {
        "3"
    } else if d == 4 {
        "4"
    } else if d == 5 {
        "5"
    } else if d == 6 {
        "6"
    } else if d == 7 {
        "7"
    } else {
        "8"
    };
    let r: &'static str = if d == 9 {
        "9"
    } else {
        r
    };
    proof {
        assert(r@ =~= dec_digit(d as nat));
    }
    r
}

/// Renders `n` in decimal, as `dec_rep` describes.
pub fn usize_dec(n: usize) -> (r: String)
    ensures
        r@ == dec_rep(n as nat),
    decreases n,
{
    if n < 10 {
        let d = dec_digit_str(n);
        String::from_str(d)
    } else {
        proof {
            assert(n / 10 < n) by (nonlinear_arith)
                requires
                    n >= 10,
            ;
        }
        let mut s = usize_dec(n / 10);
        let d = dec_digit_str(n % 10);
        s.append(d);
        s
    }
}

/// The parts joined with `", "` between neighbours, in order.
pub open spec fn joined(parts: Seq<Seq<char>>) -> Seq<char>
    decreases parts.len(),
{
    if parts.len() == 0 {
        Seq::empty()
    } else if parts.len() == 1 {
        parts[0]
    } else {
        joined(parts.drop_last()) + ", "@ + parts.last()
    }
}

} // verus!
