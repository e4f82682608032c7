//! Lamport amounts shown in the native unit.
use vstd::prelude::*;
use vstd::string::*;
use crate::text::{decimal, decimal_string, lemma_decimal_len_pos, zero_padded, zero_padded_string};

verus! {

/// Lamports in one native unit.
pub const LAMPORTS_PER_SOL: u64 = 1_000_000_000;

/// The native-unit text of `lamports`: the whole units, a point, and the
/// remaining lamports as exactly nine digits. The text is exact: no rounding.
pub open spec fn sol_text(lamports: nat) -> Seq<char> {
    decimal(lamports / 1_000_000_000).push('.') + zero_padded(lamports % 1_000_000_000, 9)
}

pub open spec fn pow10(k: nat) -> nat
    decreases k,
{
    if k == 0 {
        1
    } else {
        10 * pow10((k - 1) as nat)
    }
}

/// A number below `10^k` takes at most `k` digits.
pub proof fn lemma_decimal_len_bound(n: nat, k: nat)
    requires
        k >= 1,
        n < pow10(k),
    ensures
        decimal(n).len() <= k,
    decreases k,
{
    if n >= 10 {
        assert(k >= 2) by {
            if k == 1 {
                assert(pow10(1) == 10) by {
                    reveal_with_fuel(pow10, 2);
                }
            }
        }
        assert(n / 10 < pow10((k - 1) as nat)) by (nonlinear_arith)
            requires
                n < pow10(k),
                pow10(k) == 10 * pow10((k - 1) as nat),
        ;
        lemma_decimal_len_bound(n / 10, (k - 1) as nat);
    }
}

/// The native-unit text of every lamport amount denotes that amount exactly:
/// its whole part is `L / 10^9`, its fraction the nine digits of `L % 10^9`,
/// and the two put back together give `L`.
pub proof fn lemma_sol_text_exact(lamports: nat)
    ensures
        sol_text(lamports) == decimal(lamports / 1_000_000_000).push('.') + zero_padded(
            lamports % 1_000_000_000,
            9,
        ),
        zero_padded(lamports % 1_000_000_000, 9).len() == 9,
        (lamports / 1_000_000_000) * 1_000_000_000 + lamports % 1_000_000_000 == lamports,
{
    let frac = lamports % 1_000_000_000;
    assert(pow10(9) == 1_000_000_000) by {
        reveal_with_fuel(pow10, 10);
    }
    lemma_decimal_len_bound(frac, 9);
    lemma_decimal_len_pos(frac);
}

/// The native-unit text of `lamports`.
pub fn sol_string(lamports: u64) -> (r: String)
    ensures
        r@ == sol_text(lamports as nat),
{
    let mut s = decimal_string(lamports / LAMPORTS_PER_SOL);
    let frac = zero_padded_string(lamports % LAMPORTS_PER_SOL, 9);
    proof {
        reveal_strlit(".");
    }
    s.append(".");
    s.append(frac.as_str());
    assert(s@ =~= sol_text(lamports as nat));
    s
}

/// The native-unit text of `lamports` followed by ` SOL`.
pub fn sol_amount(lamports: u64) -> (r: String)
    ensures
        r@ == sol_text(lamports as nat) + " SOL"@,
{
    let mut s = sol_string(lamports);
    s.append(" SOL");
    s
}

} // verus!
