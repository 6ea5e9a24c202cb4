use vstd::prelude::*;

verus! {

/// Policy id that the insurance contract does not know.
pub const MISSING_POLICY_ID: u32 = 999;
/// Policy id of a policy that is no longer active.
pub const INACTIVE_POLICY_ID: u32 = 998;

/// Why the insurance contract refuses a premium payment outright.
#[derive(Clone, Copy, Debug, PartialEq, Eq, Structural)]
pub enum InsurancePaymentError {
    PolicyNotFound,
}

impl InsurancePaymentError {
    /// The text with which the contract call fails.
    pub fn message(&self) -> (text: &'static str)
        ensures
            text@ == self.spec_message(),
            text@ == "Policy not found"@,
    {
        match self {
            InsurancePaymentError::PolicyNotFound => "Policy not found",
        }
    }

    /// The text of each refusal.
    pub open spec fn spec_message(&self) -> Seq<char> {
        match self {
            InsurancePaymentError::PolicyNotFound => "Policy not found"@,
        }
    }
}

/// Insurance contract that takes premium payments on its policies.
pub struct MockInsurance;

/// What paying the premium of policy `policy_id` returns: a refusal for an
/// unknown policy, else whether the policy is active and so took the payment.
pub open spec fn premium_outcome(policy_id: u32) -> Result<bool, InsurancePaymentError> {
    if policy_id == MISSING_POLICY_ID {
        Err(InsurancePaymentError::PolicyNotFound)
    } else {
        Ok(policy_id != INACTIVE_POLICY_ID)
    }
}

impl MockInsurance {
    /// Pays the premium of policy `policy_id`: fails for an unknown policy,
    /// else reports whether the policy is active.
    pub fn pay_premium(policy_id: u32) -> (result: Result<bool, InsurancePaymentError>)
        ensures
            result == premium_outcome(policy_id),
            (result == Err::<bool, InsurancePaymentError>(InsurancePaymentError::PolicyNotFound)) <==> policy_id == 999,
            policy_id != 999 ==> (result == Ok::<bool, InsurancePaymentError>(false) <==> policy_id == 998),
            policy_id != 999 && policy_id != 998 ==> result == Ok::<bool, InsurancePaymentError>(true),
    {
        proof {
            lemma_premium_outcome_by_policy(policy_id);
        }
        if policy_id == MISSING_POLICY_ID {
            return Err(InsurancePaymentError::PolicyNotFound);
        }
        Ok(policy_id != INACTIVE_POLICY_ID)
    }
}

/// Which premiums the contract takes: policy 999 is unknown, policy 998 is
/// the only inactive one, and every other policy takes the payment.
pub proof fn lemma_premium_outcome_by_policy(policy_id: u32)
    ensures
        (premium_outcome(policy_id) == Err::<bool, InsurancePaymentError>(InsurancePaymentError::PolicyNotFound))
            <==> policy_id == 999,
        policy_id != 999 ==> (premium_outcome(policy_id) == Ok::<bool, InsurancePaymentError>(false)
            <==> policy_id == 998),
        policy_id != 999 && policy_id != 998 ==> premium_outcome(policy_id) == Ok::<bool, InsurancePaymentError>(
            true,
        ),
{
}

} // verus!
