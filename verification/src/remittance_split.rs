use crate::host::{host_vec_items, host_vec_of_four};
use vstd::prelude::*;

verus! {

/// Percent of a remittance that goes to spending.
pub const SPENDING_PERCENT: i128 = 40;
/// Percent of a remittance that goes to savings.
pub const SAVINGS_PERCENT: i128 = 30;
/// Percent of a remittance that goes to bills.
pub const BILLS_PERCENT: i128 = 20;
/// Percent of a remittance that goes to insurance.
pub const INSURANCE_PERCENT: i128 = 10;

/// Remittance split with fixed 40/30/20/10 percentages.
pub struct MockRemittanceSplit;

/// `a / b` rounded toward zero, as integer division on machine integers rounds.
pub open spec fn div_toward_zero(a: int, b: int) -> int {
    if a >= 0 {
        a / b
    } else {
        -((-a) / b)
    }
}

/// `percent` percent of `total`, rounded toward zero.
pub open spec fn percent_of(total: int, percent: int) -> int {
    div_toward_zero(total * percent, 100)
}

/// The spending, savings, bills and insurance shares of `total`, in that order.
pub open spec fn split_shares(total: int) -> Seq<int> {
    seq![
        percent_of(total, SPENDING_PERCENT as int),
        percent_of(total, SAVINGS_PERCENT as int),
        percent_of(total, BILLS_PERCENT as int),
        percent_of(total, INSURANCE_PERCENT as int),
    ]
}

/// Sum of the four shares of `total`.
pub open spec fn split_sum(total: int) -> int {
    let s = split_shares(total);
    s[0] + s[1] + s[2] + s[3]
}

/// The largest product that the split computes, `total * 40`, fits in an `i128`.
pub open spec fn split_fits(total: int) -> bool {
    i128::MIN <= total * SPENDING_PERCENT <= i128::MAX
}

impl MockRemittanceSplit {
    /// Splits `total_amount` into its spending, savings, bills and insurance
    /// shares, each rounded toward zero, in that order.
    pub fn split_amounts(total_amount: i128) -> (shares: [i128; 4])
        requires
            split_fits(total_amount as int),
        ensures
            forall|i: int| 0 <= i < 4 ==> shares@[i] as int == #[trigger] split_shares(total_amount as int)[i],
            total_amount >= 0 ==> {
                &&& shares@[0] as int == (total_amount * 40) / 100
                &&& shares@[1] as int == (total_amount * 30) / 100
                &&& shares@[2] as int == (total_amount * 20) / 100
                &&& shares@[3] as int == (total_amount * 10) / 100
            },
            total_amount < 0 ==> {
                &&& shares@[0] as int == -((-total_amount * 40) / 100)
                &&& shares@[1] as int == -((-total_amount * 30) / 100)
                &&& shares@[2] as int == -((-total_amount * 20) / 100)
                &&& shares@[3] as int == -((-total_amount * 10) / 100)
            },
    {
        proof {
            lemma_split_shares_are_fixed_percentages(total_amount as int);
        }
        let spending = (total_amount * SPENDING_PERCENT) / 100;
        let savings = (total_amount * SAVINGS_PERCENT) / 100;
        let bills = (total_amount * BILLS_PERCENT) / 100;
        let insurance = (total_amount * INSURANCE_PERCENT) / 100;
        [spending, savings, bills, insurance]
    }

    /// The split of `total_amount` as a host vector: its spending, savings,
    /// bills and insurance shares, each rounded toward zero, in that order.
    pub fn calculate_split(env: soroban_sdk::Env, total_amount: i128) -> (shares: soroban_sdk::Vec<i128>)
        requires
            split_fits(total_amount as int),
        ensures
            host_vec_items(shares).len() == 4,
            forall|i: int| 0 <= i < 4 ==> host_vec_items(shares)[i] as int == #[trigger] split_shares(total_amount as int)[i],
            total_amount >= 0 ==> {
                &&& host_vec_items(shares)[0] as int == (total_amount * 40) / 100
                &&& host_vec_items(shares)[1] as int == (total_amount * 30) / 100
                &&& host_vec_items(shares)[2] as int == (total_amount * 20) / 100
                &&& host_vec_items(shares)[3] as int == (total_amount * 10) / 100
            },
            total_amount < 0 ==> {
                &&& host_vec_items(shares)[0] as int == -((-total_amount * 40) / 100)
                &&& host_vec_items(shares)[1] as int == -((-total_amount * 30) / 100)
                &&& host_vec_items(shares)[2] as int == -((-total_amount * 20) / 100)
                &&& host_vec_items(shares)[3] as int == -((-total_amount * 10) / 100)
            },
    {
        let amounts = Self::split_amounts(total_amount);
        host_vec_of_four(&env, amounts)
    }
}

/// The four shares add up to the total exactly when the total is a multiple
/// of ten; otherwise rounding loses something.
pub proof fn lemma_split_exact_iff_multiple_of_ten(total: int)
    ensures
        (split_sum(total) == total) <==> (total % 10 == 0),
{
    let t = if total >= 0 { total } else { -total };
    lemma_split_sum_of_nonnegative(t);
    let r = t % 10;
    lemma_remainder_shares(r);
    assert((total % 10 == 0) <==> (t % 10 == 0)) by {
        assert(t == total || t == -total);
        assert(t % 10 == 0 ==> t == 10 * (t / 10));
        assert(total % 10 == 0 ==> total == 10 * (total / 10));
        assert(t == 10 * (t / 10) ==> -t == 10 * (-(t / 10)));
        assert(total == 10 * (total / 10) ==> -total == 10 * (-(total / 10)));
    }
}

/// What a remainder `r` below ten contributes to the rounded shares falls
/// short of `r` unless `r` is zero.
proof fn lemma_remainder_shares(r: int)
    requires
        0 <= r < 10,
    ensures
        ((4 * r) / 10 + (3 * r) / 10 + (2 * r) / 10 == r) <==> (r == 0),
        0 <= (4 * r) / 10 + (3 * r) / 10 + (2 * r) / 10 <= r,
        r - 3 <= (4 * r) / 10 + (3 * r) / 10 + (2 * r) / 10,
{
    assert(r == 0 || r == 1 || r == 2 || r == 3 || r == 4 || r == 5 || r == 6 || r == 7 || r == 8 || r == 9);
}

/// Rounding never loses more than three units, and every share has the sign
/// of the total: for a total of zero or more the shares are all zero or more
/// and add up to at most the total, and symmetrically below zero.
pub proof fn lemma_split_bounded(total: int)
    ensures
        total >= 0 ==> {
            &&& forall|i: int| 0 <= i < 4 ==> #[trigger] split_shares(total)[i] >= 0
            &&& total - 3 <= split_sum(total) <= total
        },
        total < 0 ==> {
            &&& forall|i: int| 0 <= i < 4 ==> #[trigger] split_shares(total)[i] <= 0
            &&& total <= split_sum(total) <= total + 3
        },
{
    let t = if total >= 0 { total } else { -total };
    lemma_split_sum_of_nonnegative(t);
    lemma_remainder_shares(t % 10);
}

/// For `t >= 0`, writing `t = 10 * q + r`, the shares of `t` and `-t` are
/// mirror images and their sum is `10 * q` plus what the remainder contributes.
proof fn lemma_split_sum_of_nonnegative(t: int)
    requires
        t >= 0,
    ensures
        split_sum(t) == 10 * (t / 10) + (4 * (t % 10)) / 10 + (3 * (t % 10)) / 10 + (2 * (t % 10)) / 10,
        split_sum(-t) == -split_sum(t),
        forall|i: int| 0 <= i < 4 ==> #[trigger] split_shares(t)[i] >= 0,
        forall|i: int| 0 <= i < 4 ==> #[trigger] split_shares(-t)[i] == -split_shares(t)[i],
{
    let q = t / 10;
    let r = t % 10;
    assert(t == 10 * q + r);
    assert((t * 40) / 100 == 4 * q + (4 * r) / 10) by (nonlinear_arith)
        requires t == 10 * q + r, 0 <= r < 10, q >= 0;
    assert((t * 30) / 100 == 3 * q + (3 * r) / 10) by (nonlinear_arith)
        requires t == 10 * q + r, 0 <= r < 10, q >= 0;
    assert((t * 20) / 100 == 2 * q + (2 * r) / 10) by (nonlinear_arith)
        requires t == 10 * q + r, 0 <= r < 10, q >= 0;
    assert((t * 10) / 100 == q) by (nonlinear_arith)
        requires t == 10 * q + r, 0 <= r < 10, q >= 0;
    assert(-t * 40 <= 0 && -t * 30 <= 0 && -t * 20 <= 0 && -t * 10 <= 0);
    assert(-(-t * 40) == t * 40 && -(-t * 30) == t * 30 && -(-t * 20) == t * 20 && -(-t * 10) == t * 10);
}

/// Each share is its fixed percentage of the total, rounded toward zero: the
/// spending share is 40%, the savings share 30%, the bills share 20% and the
/// insurance share 10%, in that order.
pub proof fn lemma_split_shares_are_fixed_percentages(total: int)
    ensures
        split_shares(total).len() == 4,
        total >= 0 ==> {
            &&& split_shares(total)[0] == (total * 40) / 100
            &&& split_shares(total)[1] == (total * 30) / 100
            &&& split_shares(total)[2] == (total * 20) / 100
            &&& split_shares(total)[3] == (total * 10) / 100
        },
        total < 0 ==> {
            &&& split_shares(total)[0] == -((-total * 40) / 100)
            &&& split_shares(total)[1] == -((-total * 30) / 100)
            &&& split_shares(total)[2] == -((-total * 20) / 100)
            &&& split_shares(total)[3] == -((-total * 10) / 100)
        },
{
    assert(total < 0 ==> -(total * 40) == -total * 40 && -(total * 30) == -total * 30
        && -(total * 20) == -total * 20 && -(total * 10) == -total * 10);
}

/// The shares come in decreasing order of size: for a total of zero or more,
/// spending >= savings >= bills >= insurance >= 0, and for a negative total
/// the same order holds for their magnitudes.
pub proof fn lemma_split_shares_ordered(total: int)
    ensures
        total >= 0 ==> split_shares(total)[0] >= split_shares(total)[1] >= split_shares(total)[2]
            >= split_shares(total)[3] >= 0,
        total < 0 ==> split_shares(total)[0] <= split_shares(total)[1] <= split_shares(total)[2]
            <= split_shares(total)[3] <= 0,
{
    lemma_split_shares_are_fixed_percentages(total);
    let t = if total >= 0 { total } else { -total };
    assert((t * 40) / 100 >= (t * 30) / 100 >= (t * 20) / 100 >= (t * 10) / 100 >= 0) by (nonlinear_arith)
        requires t >= 0;
}

/// For a total that is a multiple of ten the shares are in the exact
/// proportion 4 : 3 : 2 : 1, the insurance share being a tenth of the total.
pub proof fn lemma_split_proportions_of_multiple_of_ten(total: int)
    requires
        total % 10 == 0,
    ensures
        split_shares(total)[3] * 10 == total,
        split_shares(total)[0] == 4 * split_shares(total)[3],
        split_shares(total)[1] == 3 * split_shares(total)[3],
        split_shares(total)[2] == 2 * split_shares(total)[3],
{
    lemma_split_shares_are_fixed_percentages(total);
    let q = total / 10;
    assert(total == 10 * q);
    if total >= 0 {
        assert((total * 40) / 100 == 4 * q && (total * 30) / 100 == 3 * q && (total * 20) / 100 == 2 * q
            && (total * 10) / 100 == q) by (nonlinear_arith)
            requires total == 10 * q;
    } else {
        let p = -q;
        assert(-total == 10 * p);
        assert((-total * 40) / 100 == 4 * p && (-total * 30) / 100 == 3 * p && (-total * 20) / 100 == 2 * p
            && (-total * 10) / 100 == p) by (nonlinear_arith)
            requires -total == 10 * p;
    }
}

} // verus!
