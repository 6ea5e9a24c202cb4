use vstd::prelude::*;

verus! {

/// Largest amount that the family wallet lets a caller spend in one go.
pub const SPENDING_LIMIT: i128 = 10000;

/// Family wallet whose only rule is a fixed spending limit.
pub struct MockFamilyWallet;

impl MockFamilyWallet {
    /// Whether `amount` is within the spending limit (the limit itself included).
    pub fn check_spending_limit(amount: i128) -> (allowed: bool)
        ensures
            allowed == (amount <= SPENDING_LIMIT),
            allowed <==> amount <= 10000,
    {
        amount <= SPENDING_LIMIT
    }
}

/// The spending limit is ten thousand: every amount up to and including it
/// is allowed, every larger one refused.
pub proof fn lemma_spending_limit_is_ten_thousand(amount: i128)
    ensures
        (amount <= SPENDING_LIMIT) <==> (amount <= 10000),
        amount <= 10000 ==> amount <= SPENDING_LIMIT,
        amount > 10000 ==> !(amount <= SPENDING_LIMIT),
{
}

} // verus!
