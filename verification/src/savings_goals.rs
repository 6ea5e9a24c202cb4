use vstd::prelude::*;

verus! {

/// Goal id that the savings contract does not know.
pub const MISSING_GOAL_ID: u32 = 999;
/// Goal id of a goal that is already completed.
pub const COMPLETED_GOAL_ID: u32 = 998;

/// What the savings contract keeps in storage: how many deposits it took.
#[derive(Clone, Copy, Debug, PartialEq, Eq, Structural)]
pub struct SavingsState {
    pub deposit_count: u32,
}

/// Why the savings contract refuses a deposit.
#[derive(Clone, Copy, Debug, PartialEq, Eq, Structural)]
pub enum SavingsGoalError {
    GoalNotFound,
    GoalAlreadyCompleted,
    InvalidAmount,
}

impl SavingsGoalError {
    /// The text with which the contract call fails.
    pub fn message(&self) -> (text: &'static str)
        ensures
            text@ == self.spec_message(),
            *self == SavingsGoalError::GoalNotFound ==> text@ == "Goal not found"@,
            *self == SavingsGoalError::GoalAlreadyCompleted ==> text@ == "Goal already completed"@,
            *self == SavingsGoalError::InvalidAmount ==> text@ == "Amount must be positive"@,
    {
        match self {
            SavingsGoalError::GoalNotFound => "Goal not found",
            SavingsGoalError::GoalAlreadyCompleted => "Goal already completed",
            SavingsGoalError::InvalidAmount => "Amount must be positive",
        }
    }

    /// The text of each refusal.
    pub open spec fn spec_message(&self) -> Seq<char> {
        match self {
            SavingsGoalError::GoalNotFound => "Goal not found"@,
            SavingsGoalError::GoalAlreadyCompleted => "Goal already completed"@,
            SavingsGoalError::InvalidAmount => "Amount must be positive"@,
        }
    }
}

/// Savings-goals contract; `stored` is its storage slot for the state, empty
/// until the first deposit is taken.
pub struct MockSavingsGoals {
    pub stored: Option<SavingsState>,
}

/// What a deposit of `amount` into goal `goal_id` returns: the amount, or the
/// first reason, in this order, why the goal refuses it.
pub open spec fn deposit_outcome(goal_id: u32, amount: i128) -> Result<i128, SavingsGoalError> {
    if goal_id == MISSING_GOAL_ID {
        Err(SavingsGoalError::GoalNotFound)
    } else if goal_id == COMPLETED_GOAL_ID {
        Err(SavingsGoalError::GoalAlreadyCompleted)
    } else if amount <= 0 {
        Err(SavingsGoalError::InvalidAmount)
    } else {
        Ok(amount)
    }
}

/// The deposit count after one deposit attempt: one more when it is taken,
/// unchanged when it is refused.
pub open spec fn count_after_deposit(count: nat, goal_id: u32, amount: i128) -> nat {
    if deposit_outcome(goal_id, amount) is Ok {
        count + 1
    } else {
        count
    }
}

/// The deposit count after the attempts `requests`, made in order.
pub open spec fn count_after_deposits(count: nat, requests: Seq<(u32, i128)>) -> nat
    decreases requests.len(),
{
    if requests.len() == 0 {
        count
    } else {
        count_after_deposits(
            count_after_deposit(count, requests[0].0, requests[0].1),
            requests.drop_first(),
        )
    }
}

/// How many of `requests` the contract takes.
pub open spec fn accepted_deposits(requests: Seq<(u32, i128)>) -> nat
    decreases requests.len(),
{
    if requests.len() == 0 {
        0
    } else {
        (if deposit_outcome(requests[0].0, requests[0].1) is Ok {
            1nat
        } else {
            0nat
        }) + accepted_deposits(requests.drop_first())
    }
}

impl MockSavingsGoals {
    /// The state that `get_state` reports: the stored one, or no deposits yet.
    pub open spec fn state(self) -> SavingsState {
        match self.stored {
            Some(state) => state,
            None => SavingsState { deposit_count: 0 },
        }
    }

    /// A contract with nothing in storage.
    pub fn new() -> (contract: Self)
        ensures
            contract.stored is None,
            contract.state().deposit_count == 0,
    {
        MockSavingsGoals { stored: None }
    }

    /// The stored state, or a state with no deposits when nothing is stored.
    pub fn get_state(&self) -> (state: SavingsState)
        ensures
            state == self.state(),
            self.stored is None ==> state.deposit_count == 0,
            self.stored is Some ==> self.stored == Some(state),
    {
        match self.stored {
            Some(state) => state,
            None => SavingsState { deposit_count: 0 },
        }
    }

    /// Deposits `amount` into goal `goal_id`. A taken deposit adds one to the
    /// deposit count and stores the new state; a refused one leaves storage as
    /// it was, as a failed contract call has none of its writes kept.
    pub fn add_to_goal(&mut self, goal_id: u32, amount: i128) -> (result: Result<i128, SavingsGoalError>)
        requires
            old(self).state().deposit_count < u32::MAX,
        ensures
            result == deposit_outcome(goal_id, amount),
            goal_id != 999 && goal_id != 998 && amount > 0 ==> result == Ok::<i128, SavingsGoalError>(amount),
            (result == Err::<i128, SavingsGoalError>(SavingsGoalError::GoalNotFound)) <==> goal_id == 999,
            (result == Err::<i128, SavingsGoalError>(SavingsGoalError::GoalAlreadyCompleted)) <==> goal_id == 998,
            (result == Err::<i128, SavingsGoalError>(SavingsGoalError::InvalidAmount)) <==> (goal_id != 999
                && goal_id != 998 && amount <= 0),
            result is Ok ==> final(self).stored == Some(
                SavingsState { deposit_count: (old(self).state().deposit_count + 1) as u32 },
            ),
            result is Err ==> final(self).stored == old(self).stored,
            final(self).state().deposit_count as nat == count_after_deposit(
                old(self).state().deposit_count as nat,
                goal_id,
                amount,
            ),
    {
        proof {
            lemma_deposit_outcome_by_goal_and_amount(goal_id, amount);
        }
        let mut state = self.get_state();
        state.deposit_count = state.deposit_count + 1;
        if goal_id == MISSING_GOAL_ID {
            return Err(SavingsGoalError::GoalNotFound);
        }
        if goal_id == COMPLETED_GOAL_ID {
            return Err(SavingsGoalError::GoalAlreadyCompleted);
        }
        if amount <= 0 {
            return Err(SavingsGoalError::InvalidAmount);
        }
        self.stored = Some(state);
        Ok(amount)
    }
}

/// The deposit count only ever counts deposits that were taken: after any
/// sequence of deposit attempts it has grown by exactly the number of them
/// that the contract accepted, refused attempts leaving no trace.
pub proof fn lemma_deposit_count_counts_accepted(count: nat, requests: Seq<(u32, i128)>)
    ensures
        count_after_deposits(count, requests) == count + accepted_deposits(requests),
    decreases requests.len(),
{
    if requests.len() > 0 {
        lemma_deposit_count_counts_accepted(
            count_after_deposit(count, requests[0].0, requests[0].1),
            requests.drop_first(),
        );
    }
}

/// Which deposits the contract takes, by goal and amount: goal 999 is
/// unknown, goal 998 is completed, any other goal takes every positive amount
/// and returns it unchanged, and refuses an amount of zero or less.
pub proof fn lemma_deposit_outcome_by_goal_and_amount(goal_id: u32, amount: i128)
    ensures
        (deposit_outcome(goal_id, amount) == Ok::<i128, SavingsGoalError>(amount)) <==> (goal_id != 999
            && goal_id != 998 && amount > 0),
        deposit_outcome(goal_id, amount) is Ok ==> deposit_outcome(goal_id, amount) == Ok::<i128, SavingsGoalError>(amount),
        (deposit_outcome(goal_id, amount) == Err::<i128, SavingsGoalError>(SavingsGoalError::GoalNotFound))
            <==> goal_id == 999,
        (deposit_outcome(goal_id, amount) == Err::<i128, SavingsGoalError>(
            SavingsGoalError::GoalAlreadyCompleted,
        )) <==> goal_id == 998,
        (deposit_outcome(goal_id, amount) == Err::<i128, SavingsGoalError>(SavingsGoalError::InvalidAmount))
            <==> (goal_id != 999 && goal_id != 998 && amount <= 0),
{
}

/// A taken deposit adds exactly one to the deposit count and a refused one
/// adds nothing, whatever the count was.
pub proof fn lemma_count_after_deposit_by_goal_and_amount(count: nat, goal_id: u32, amount: i128)
    ensures
        goal_id != 999 && goal_id != 998 && amount > 0 ==> count_after_deposit(count, goal_id, amount) == count + 1,
        goal_id == 999 || goal_id == 998 || amount <= 0 ==> count_after_deposit(count, goal_id, amount) == count,
{
}

} // verus!
