use orchestrator_mocks::{
    BillPaymentError, BillsState, InsurancePaymentError, MockBillPayments, MockInsurance,
    MockSavingsGoals, SavingsGoalError, SavingsState,
};

#[test]
fn savings_state_starts_with_no_deposits() {
    let goals = MockSavingsGoals::new();
    assert_eq!(goals.get_state(), SavingsState { deposit_count: 0 });
    assert!(goals.stored.is_none());
}

#[test]
fn savings_deposit_is_taken_and_counted() {
    let mut goals = MockSavingsGoals::new();
    assert_eq!(goals.add_to_goal(1, 5000), Ok(5000));
    assert_eq!(goals.get_state().deposit_count, 1);
    assert_eq!(goals.stored, Some(SavingsState { deposit_count: 1 }));
    assert_eq!(goals.add_to_goal(7, 1), Ok(1));
    assert_eq!(goals.get_state().deposit_count, 2);
}

#[test]
fn savings_deposit_continues_from_stored_state() {
    let mut goals = MockSavingsGoals { stored: Some(SavingsState { deposit_count: 41 }) };
    assert_eq!(goals.add_to_goal(3, 10), Ok(10));
    assert_eq!(goals.get_state().deposit_count, 42);
}

#[test]
fn savings_missing_goal_is_refused_without_trace() {
    let mut goals = MockSavingsGoals::new();
    assert_eq!(goals.add_to_goal(999, 5000), Err(SavingsGoalError::GoalNotFound));
    assert_eq!(goals.get_state().deposit_count, 0);
    assert!(goals.stored.is_none());
}

#[test]
fn savings_completed_goal_is_refused_without_trace() {
    let mut goals = MockSavingsGoals { stored: Some(SavingsState { deposit_count: 3 }) };
    assert_eq!(goals.add_to_goal(998, 5000), Err(SavingsGoalError::GoalAlreadyCompleted));
    assert_eq!(goals.stored, Some(SavingsState { deposit_count: 3 }));
}

#[test]
fn savings_nonpositive_amount_is_refused() {
    let mut goals = MockSavingsGoals::new();
    assert_eq!(goals.add_to_goal(1, 0), Err(SavingsGoalError::InvalidAmount));
    assert_eq!(goals.add_to_goal(1, -500), Err(SavingsGoalError::InvalidAmount));
    assert_eq!(goals.get_state().deposit_count, 0);
}

#[test]
fn savings_refusal_reasons_come_in_order() {
    let mut goals = MockSavingsGoals::new();
    assert_eq!(goals.add_to_goal(999, 0), Err(SavingsGoalError::GoalNotFound));
    assert_eq!(goals.add_to_goal(998, -1), Err(SavingsGoalError::GoalAlreadyCompleted));
}

#[test]
fn savings_refusal_does_not_poison_next_deposit() {
    let mut goals = MockSavingsGoals::new();
    assert!(goals.add_to_goal(999, 5000).is_err());
    assert_eq!(goals.add_to_goal(1, 5000), Ok(5000));
    assert_eq!(goals.get_state().deposit_count, 1);
}

#[test]
fn savings_count_equals_accepted_deposits() {
    let mut goals = MockSavingsGoals::new();
    let attempts = [(1u32, 10i128), (999, 10), (2, 0), (3, 7), (998, 5), (4, 1)];
    let mut accepted = 0u32;
    for (goal, amount) in attempts {
        if goals.add_to_goal(goal, amount).is_ok() {
            accepted += 1;
        }
    }
    assert_eq!(accepted, 3);
    assert_eq!(goals.get_state().deposit_count, accepted);
}

#[test]
fn savings_refusal_messages() {
    assert_eq!(SavingsGoalError::GoalNotFound.message(), "Goal not found");
    assert_eq!(SavingsGoalError::GoalAlreadyCompleted.message(), "Goal already completed");
    assert_eq!(SavingsGoalError::InvalidAmount.message(), "Amount must be positive");
}

#[test]
fn bills_state_starts_with_no_payments() {
    let bills = MockBillPayments::new();
    assert_eq!(bills.get_state(), BillsState { payment_count: 0 });
}

#[test]
fn bill_payment_is_taken_and_counted() {
    let mut bills = MockBillPayments::new();
    assert_eq!(bills.pay_bill(1), Ok(()));
    assert_eq!(bills.get_state().payment_count, 1);
    assert_eq!(bills.stored, Some(BillsState { payment_count: 1 }));
}

#[test]
fn bill_missing_or_paid_is_refused_without_trace() {
    let mut bills = MockBillPayments { stored: Some(BillsState { payment_count: 2 }) };
    assert_eq!(bills.pay_bill(999), Err(BillPaymentError::BillNotFound));
    assert_eq!(bills.pay_bill(998), Err(BillPaymentError::BillAlreadyPaid));
    assert_eq!(bills.stored, Some(BillsState { payment_count: 2 }));
}

#[test]
fn bill_refusal_does_not_poison_next_payment() {
    let mut bills = MockBillPayments::new();
    assert!(bills.pay_bill(999).is_err());
    assert!(bills.pay_bill(1).is_ok());
    assert_eq!(bills.get_state().payment_count, 1);
}

#[test]
fn bills_count_equals_accepted_payments() {
    let mut bills = MockBillPayments::new();
    for id in [1u32, 999, 2, 998, 3, 999] {
        let _ = bills.pay_bill(id);
    }
    assert_eq!(bills.get_state().payment_count, 3);
}

#[test]
fn bill_refusal_messages() {
    assert_eq!(BillPaymentError::BillNotFound.message(), "Bill not found");
    assert_eq!(BillPaymentError::BillAlreadyPaid.message(), "Bill already paid");
}

#[test]
fn premium_on_active_policy_is_paid() {
    assert_eq!(MockInsurance::pay_premium(1), Ok(true));
    assert_eq!(MockInsurance::pay_premium(997), Ok(true));
}

#[test]
fn premium_on_inactive_policy_reports_false() {
    assert_eq!(MockInsurance::pay_premium(998), Ok(false));
}

#[test]
fn premium_on_missing_policy_is_refused() {
    assert_eq!(MockInsurance::pay_premium(999), Err(InsurancePaymentError::PolicyNotFound));
    assert_eq!(InsurancePaymentError::PolicyNotFound.message(), "Policy not found");
}
