use vstd::prelude::*;

verus! {

/// Bill id that the bill-payments contract does not know.
pub const MISSING_BILL_ID: u32 = 999;
/// Bill id of a bill that is already paid.
pub const PAID_BILL_ID: u32 = 998;

/// What the bill-payments contract keeps in storage: how many payments it took.
#[derive(Clone, Copy, Debug, PartialEq, Eq, Structural)]
pub struct BillsState {
    pub payment_count: u32,
}

/// Why the bill-payments contract refuses a payment.
#[derive(Clone, Copy, Debug, PartialEq, Eq, Structural)]
pub enum BillPaymentError {
    BillNotFound,
    BillAlreadyPaid,
}

impl BillPaymentError {
    /// The text with which the contract call fails.
    pub fn message(&self) -> (text: &'static str)
        ensures
            text@ == self.spec_message(),
            *self == BillPaymentError::BillNotFound ==> text@ == "Bill not found"@,
            *self == BillPaymentError::BillAlreadyPaid ==> text@ == "Bill already paid"@,
    {
        match self {
            BillPaymentError::BillNotFound => "Bill not found",
            BillPaymentError::BillAlreadyPaid => "Bill already paid",
        }
    }

    /// The text of each refusal.
    pub open spec fn spec_message(&self) -> Seq<char> {
        match self {
            BillPaymentError::BillNotFound => "Bill not found"@,
            BillPaymentError::BillAlreadyPaid => "Bill already paid"@,
        }
    }
}

/// Bill-payments contract; `stored` is its storage slot for the state, empty
/// until the first payment is taken.
pub struct MockBillPayments {
    pub stored: Option<BillsState>,
}

/// What paying bill `bill_id` returns: nothing, or the reason, in this order,
/// why the bill cannot be paid.
pub open spec fn payment_outcome(bill_id: u32) -> Result<(), BillPaymentError> {
    if bill_id == MISSING_BILL_ID {
        Err(BillPaymentError::BillNotFound)
    } else if bill_id == PAID_BILL_ID {
        Err(BillPaymentError::BillAlreadyPaid)
    } else {
        Ok(())
    }
}

/// The payment count after one payment attempt: one more when it is taken,
/// unchanged when it is refused.
pub open spec fn count_after_payment(count: nat, bill_id: u32) -> nat {
    if payment_outcome(bill_id) is Ok {
        count + 1
    } else {
        count
    }
}

/// The payment count after the attempts on `bill_ids`, made in order.
pub open spec fn count_after_payments(count: nat, bill_ids: Seq<u32>) -> nat
    decreases bill_ids.len(),
{
    if bill_ids.len() == 0 {
        count
    } else {
        count_after_payments(count_after_payment(count, bill_ids[0]), bill_ids.drop_first())
    }
}

/// How many of the attempts on `bill_ids` the contract takes.
pub open spec fn accepted_payments(bill_ids: Seq<u32>) -> nat
    decreases bill_ids.len(),
{
    if bill_ids.len() == 0 {
        0
    } else {
        (if payment_outcome(bill_ids[0]) is Ok {
            1nat
        } else {
            0nat
        }) + accepted_payments(bill_ids.drop_first())
    }
}

impl MockBillPayments {
    /// The state that `get_state` reports: the stored one, or no payments yet.
    pub open spec fn state(self) -> BillsState {
        match self.stored {
            Some(state) => state,
            None => BillsState { payment_count: 0 },
        }
    }

    /// A contract with nothing in storage.
    pub fn new() -> (contract: Self)
        ensures
            contract.stored is None,
            contract.state().payment_count == 0,
    {
        MockBillPayments { stored: None }
    }

    /// The stored state, or a state with no payments when nothing is stored.
    pub fn get_state(&self) -> (state: BillsState)
        ensures
            state == self.state(),
            self.stored is None ==> state.payment_count == 0,
            self.stored is Some ==> self.stored == Some(state),
    {
        match self.stored {
            Some(state) => state,
            None => BillsState { payment_count: 0 },
        }
    }

    /// Pays bill `bill_id`. A taken payment adds one to the payment count and
    /// stores the new state; a refused one leaves storage as it was, as a
    /// failed contract call has none of its writes kept.
    pub fn pay_bill(&mut self, bill_id: u32) -> (result: Result<(), BillPaymentError>)
        requires
            old(self).state().payment_count < u32::MAX,
        ensures
            result == payment_outcome(bill_id),
            (result is Ok) <==> (bill_id != 999 && bill_id != 998),
            (result == Err::<(), BillPaymentError>(BillPaymentError::BillNotFound)) <==> bill_id == 999,
            (result == Err::<(), BillPaymentError>(BillPaymentError::BillAlreadyPaid)) <==> bill_id == 998,
            result is Ok ==> final(self).stored == Some(
                BillsState { payment_count: (old(self).state().payment_count + 1) as u32 },
            ),
            result is Err ==> final(self).stored == old(self).stored,
            final(self).state().payment_count as nat == count_after_payment(
                old(self).state().payment_count as nat,
                bill_id,
            ),
    {
        proof {
            lemma_payment_outcome_by_bill(bill_id);
        }
        let mut state = self.get_state();
        state.payment_count = state.payment_count + 1;
        if bill_id == MISSING_BILL_ID {
            return Err(BillPaymentError::BillNotFound);
        }
        if bill_id == PAID_BILL_ID {
            return Err(BillPaymentError::BillAlreadyPaid);
        }
        self.stored = Some(state);
        Ok(())
    }
}

/// The payment count only ever counts payments that were taken: after any
/// sequence of payment attempts it has grown by exactly the number of them
/// that the contract accepted, refused attempts leaving no trace.
pub proof fn lemma_payment_count_counts_accepted(count: nat, bill_ids: Seq<u32>)
    ensures
        count_after_payments(count, bill_ids) == count + accepted_payments(bill_ids),
    decreases bill_ids.len(),
{
    if bill_ids.len() > 0 {
        lemma_payment_count_counts_accepted(
            count_after_payment(count, bill_ids[0]),
            bill_ids.drop_first(),
        );
    }
}

/// Which bills the contract pays: bill 999 is unknown, bill 998 is already
/// paid, and every other bill is paid.
pub proof fn lemma_payment_outcome_by_bill(bill_id: u32)
    ensures
        (payment_outcome(bill_id) is Ok) <==> (bill_id != 999 && bill_id != 998),
        (payment_outcome(bill_id) == Err::<(), BillPaymentError>(BillPaymentError::BillNotFound)) <==> bill_id
            == 999,
        (payment_outcome(bill_id) == Err::<(), BillPaymentError>(BillPaymentError::BillAlreadyPaid)) <==> bill_id
            == 998,
{
}

/// A taken payment adds exactly one to the payment count and a refused one
/// adds nothing, whatever the count was.
pub proof fn lemma_count_after_payment_by_bill(count: nat, bill_id: u32)
    ensures
        bill_id != 999 && bill_id != 998 ==> count_after_payment(count, bill_id) == count + 1,
        bill_id == 999 || bill_id == 998 ==> count_after_payment(count, bill_id) == count,
{
}

} // verus!
