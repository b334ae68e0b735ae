use vstd::prelude::*;
use super::amount::Amount;
use super::rejection::Rejection;

verus! {

/// The balances of one client account.
#[derive(Clone, Copy, Debug, PartialEq, Eq)]
pub struct TransactionRunningState {
    pub client: u16,
    pub available: Amount,
    pub held: Amount,
    pub total: Amount,
    pub locked: bool,
}

/// Whether `value`, in ten-thousandths, is an amount.
pub open spec fn representable(value: int) -> bool {
    i64::MIN <= value <= i64::MAX
}

/// Whether `outcome` tells what became of a record: success where
/// `expected` is an account, else the reason that `expected` gives.
pub open spec fn reports(
    outcome: Result<(), Rejection>,
    expected: Result<TransactionRunningState, Rejection>,
) -> bool {
    match expected {
        Ok(_) => outcome is Ok,
        Err(reason) => outcome == Err::<(), Rejection>(reason),
    }
}

/// What an operation owes its caller: on success the account that
/// `expected` holds, on rejection the reason and the account untouched.
pub open spec fn settles(
    before: TransactionRunningState,
    after: TransactionRunningState,
    outcome: Result<(), Rejection>,
    expected: Result<TransactionRunningState, Rejection>,
) -> bool {
    &&& reports(outcome, expected)
    &&& after == match expected {
        Ok(state) => state,
        Err(_) => before,
    }
}

impl TransactionRunningState {
    /// The account invariant: the total is what is available plus what is held.
    pub open spec fn balanced(self) -> bool {
        self.total@ == self.available@ + self.held@
    }

    /// The account with a new total, a new held balance and a new lock flag,
    /// the available balance being what the two leave; rejected where one of
    /// the three balances is no amount.
    pub open spec fn rebalanced(self, total: int, held: int, locked: bool) -> Result<
        TransactionRunningState,
        Rejection,
    > {
        if representable(total) && representable(held) && representable(total - held) {
            Ok(
                TransactionRunningState {
                    client: self.client,
                    available: Amount { ten_thousandths: (total - held) as i64 },
                    held: Amount { ten_thousandths: held as i64 },
                    total: Amount { ten_thousandths: total as i64 },
                    locked,
                },
            )
        } else {
            Err(Rejection::OutOfRange)
        }
    }

    /// The account after a deposit of `amount`.
    pub open spec fn deposited(self, amount: int) -> Result<TransactionRunningState, Rejection> {
        if amount <= 0 || self.total@ + amount > i64::MAX {
            Err(Rejection::DepositNotIncreasing)
        } else {
            self.rebalanced(self.total@ + amount, self.held@, self.locked)
        }
    }

    /// The account after a withdrawal of `amount`.
    pub open spec fn withdrawn(self, amount: int) -> Result<TransactionRunningState, Rejection> {
        if self.available@ < amount {
            Err(Rejection::InsufficientFunds)
        } else {
            self.rebalanced(self.total@ - amount, self.held@, self.locked)
        }
    }

    /// The account after `amount` is put on hold.
    pub open spec fn after_hold(self, amount: int) -> Result<TransactionRunningState, Rejection> {
        self.rebalanced(self.total@, self.held@ + amount, self.locked)
    }

    /// The account after `amount` is released from hold.
    pub open spec fn after_release(self, amount: int) -> Result<
        TransactionRunningState,
        Rejection,
    > {
        self.rebalanced(self.total@, self.held@ - amount, self.locked)
    }

    /// The account after a held deposit of `amount` is charged back.
    pub open spec fn after_chargeback_deposit(self, amount: int) -> Result<
        TransactionRunningState,
        Rejection,
    > {
        self.rebalanced(self.total@ - amount, self.held@ - amount, true)
    }

    /// The account after a held withdrawal of `amount` is charged back.
    pub open spec fn after_chargeback_withdrawal(self, amount: int) -> Result<
        TransactionRunningState,
        Rejection,
    > {
        self.rebalanced(self.total@ + amount, self.held@ - amount, true)
    }

    /// An empty, unlocked account for `client`.
    pub fn new(client: u16) -> (state: TransactionRunningState)
        ensures
            state.client == client,
            state.available@ == 0,
            state.held@ == 0,
            state.total@ == 0,
            !state.locked,
    {
        TransactionRunningState {
            client,
            available: Amount { ten_thousandths: 0 },
            held: Amount { ten_thousandths: 0 },
            total: Amount { ten_thousandths: 0 },
            locked: false,
        }
    }

    /// Adds `amount` to the total. Rejected unless that strictly increases
    /// the total.
    pub fn deposit(&mut self, amount: Amount) -> (outcome: Result<(), Rejection>)
        ensures
            settles(*old(self), *final(self), outcome, old(self).deposited(amount@)),
            outcome is Ok ==> final(self).total@ == old(self).total@ + amount@ && final(self).total@ > old(self).total@ && final(self).balanced(),
    {
        let new_total: i128 = self.total.ten_thousandths as i128 + amount.ten_thousandths as i128;
        if new_total > self.total.ten_thousandths as i128 && new_total <= i64::MAX as i128 {
            self.calculate_available(new_total, self.held.ten_thousandths as i128, self.locked)
        } else {
            Err(Rejection::DepositNotIncreasing)
        }
    }

    /// Takes `amount` from the total. Rejected where less than `amount` is
    /// available.
    pub fn withdraw(&mut self, amount: Amount) -> (outcome: Result<(), Rejection>)
        ensures
            settles(*old(self), *final(self), outcome, old(self).withdrawn(amount@)),
            outcome is Ok ==> amount@ <= old(self).available@ && final(self).total@ == old(self).total@ - amount@ && final(self).balanced(),
    {
        if self.available.ten_thousandths >= amount.ten_thousandths {
            let new_total: i128 = self.total.ten_thousandths as i128
                - amount.ten_thousandths as i128;
            self.calculate_available(new_total, self.held.ten_thousandths as i128, self.locked)
        } else {
            Err(Rejection::InsufficientFunds)
        }
    }

    /// Takes a held deposit of `amount` out of the account for good and locks
    /// the account.
    pub fn chargeback_deposit(&mut self, amount: Amount) -> (outcome: Result<(), Rejection>)
        ensures
            settles(*old(self), *final(self), outcome, old(self).after_chargeback_deposit(amount@)),
            outcome is Ok ==> final(self).total@ == old(self).total@ - amount@ && final(self).held@ == old(self).held@ - amount@ && final(self).locked && final(self).balanced(),
    {
        let new_total: i128 = self.total.ten_thousandths as i128 - amount.ten_thousandths as i128;
        self.chargeback(new_total, amount)
    }

    /// Gives a held withdrawal of `amount` back to the account and locks the
    /// account.
    pub fn chargeback_withdrawal(&mut self, amount: Amount) -> (outcome: Result<(), Rejection>)
        ensures
            settles(
                *old(self),
                *final(self),
                outcome,
                old(self).after_chargeback_withdrawal(amount@),
            ),
            outcome is Ok ==> final(self).total@ == old(self).total@ + amount@ && final(self).held@ == old(self).held@ - amount@ && final(self).locked && final(self).balanced(),
    {
        let new_total: i128 = self.total.ten_thousandths as i128 + amount.ten_thousandths as i128;
        self.chargeback(new_total, amount)
    }

    /// Moves `amount` from the available balance to the held balance.
    pub fn hold(&mut self, amount: Amount) -> (outcome: Result<(), Rejection>)
        ensures
            settles(*old(self), *final(self), outcome, old(self).after_hold(amount@)),
            outcome is Ok ==> final(self).held@ == old(self).held@ + amount@ && final(self).total
                == old(self).total && final(self).balanced(),
            outcome is Ok && old(self).balanced() ==> final(self).available@ == old(self).available@ - amount@,
    {
        let new_held: i128 = self.held.ten_thousandths as i128 + amount.ten_thousandths as i128;
        self.calculate_available(self.total.ten_thousandths as i128, new_held, self.locked)
    }

    /// Moves `amount` from the held balance back to the available balance.
    pub fn release(&mut self, amount: Amount) -> (outcome: Result<(), Rejection>)
        ensures
            settles(*old(self), *final(self), outcome, old(self).after_release(amount@)),
            outcome is Ok ==> final(self).held@ == old(self).held@ - amount@ && final(self).total
                == old(self).total && final(self).balanced(),
            outcome is Ok && old(self).balanced() ==> final(self).available@ == old(self).available@ + amount@,
    {
        let new_held: i128 = self.held.ten_thousandths as i128 - amount.ten_thousandths as i128;
        self.calculate_available(self.total.ten_thousandths as i128, new_held, self.locked)
    }

    fn chargeback(&mut self, total: i128, amount: Amount) -> (outcome: Result<(), Rejection>)
        requires
            -0x1_0000_0000_0000_0000 <= total <= 0x1_0000_0000_0000_0000,
        ensures
            settles(
                *old(self),
                *final(self),
                outcome,
                old(self).rebalanced(total as int, old(self).held@ - amount@, true),
            ),
    {
        let new_held: i128 = self.held.ten_thousandths as i128 - amount.ten_thousandths as i128;
        self.calculate_available(total, new_held, true)
    }

    fn calculate_available(&mut self, total: i128, held: i128, locked: bool) -> (outcome: Result<
        (),
        Rejection,
    >)
        requires
            -0x1_0000_0000_0000_0000 <= total <= 0x1_0000_0000_0000_0000,
            -0x1_0000_0000_0000_0000 <= held <= 0x1_0000_0000_0000_0000,
        ensures
            settles(
                *old(self),
                *final(self),
                outcome,
                old(self).rebalanced(total as int, held as int, locked),
            ),
    {
        let available: i128 = total - held;
        if fits(total) && fits(held) && fits(available) {
            self.total = Amount { ten_thousandths: total as i64 };
            self.held = Amount { ten_thousandths: held as i64 };
            self.available = Amount { ten_thousandths: available as i64 };
            self.locked = locked;
            Ok(())
        } else {
            Err(Rejection::OutOfRange)
        }
    }
}

fn fits(value: i128) -> (yes: bool)
    ensures
        yes == representable(value as int),
{
    i64::MIN as i128 <= value && value <= i64::MAX as i128
}

} // verus!
