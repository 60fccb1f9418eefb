//! The collateral ledger: the two balances of an account and how collateral
//! is reserved from them.

use vstd::prelude::*;

use anchor_lang::prelude::Pubkey;

use crate::types::{AccountState, ErrorCode, UserAccount};

verus! {

/// The balances `(a, b)` after reserving `amount`, when `a + b` covers it:
/// denomination A pays as much as it can, B pays the rest.
pub open spec fn drawn(a: u64, b: u64, amount: u64) -> (int, int) {
    if a >= amount {
        (a - amount, b as int)
    } else {
        (0, b - (amount - a))
    }
}

impl AccountState {
    /// The same account with other balances.
    pub open spec fn with_balances(self, a: int, b: int) -> AccountState {
        AccountState { balance_a: a as u64, balance_b: b as u64, ..self }
    }

    /// The account after a successful reservation of `amount`.
    pub open spec fn after_reserve(self, amount: u64) -> AccountState {
        let (a, b) = drawn(self.balance_a, self.balance_b, amount);
        self.with_balances(a, b)
    }
}

impl UserAccount {
    /// A fresh account of `owner`: no collateral and no orders.
    pub fn new(owner: Pubkey) -> (r: UserAccount)
        ensures
            r@.owner == owner,
            r@.balance_a == 0,
            r@.balance_b == 0,
            r@.orders.len() == 0,
            r@.next_order_id == 0,
            r@.well_formed(),
    {
        UserAccount { owner, balance_a: 0, balance_b: 0, open_positions: Vec::new(), next_order_id: 0 }
    }

    /// All collateral of the account; `Overflow` where the sum leaves `u64`.
    pub fn available(&self) -> (r: Result<u64, ErrorCode>)
        ensures
            self@.total() <= u64::MAX ==> r == Ok::<u64, ErrorCode>(self@.total() as u64),
            self@.total() > u64::MAX ==> r == Err::<u64, ErrorCode>(ErrorCode::Overflow),
    {
        match self.balance_a.checked_add(self.balance_b) {
            Some(sum) => Ok(sum),
            None => Err(ErrorCode::Overflow),
        }
    }

    /// Debits `amount` from the account, from denomination A first and the
    /// remainder from B. Fails with `InsufficientMargin`, and changes
    /// nothing, where both balances together do not cover `amount`.
    pub fn reserve(&mut self, amount: u64) -> (r: Result<(), ErrorCode>)
        ensures
            old(self)@.total() < amount ==> r == Err::<(), ErrorCode>(ErrorCode::InsufficientMargin)
                && final(self)@ == old(self)@,
            old(self)@.total() >= amount ==> r == Ok::<(), ErrorCode>(())
                && final(self)@ == old(self)@.after_reserve(amount),
            // what is debited is exactly `amount`
            r is Ok ==> final(self)@.total() == old(self)@.total() - amount,
            // an amount that spans both balances empties A
            old(self).balance_a < amount <= old(self)@.total() ==> final(self).balance_a == 0
                && final(self).balance_b == old(self).balance_b - (amount - old(self).balance_a),
    {
        if self.balance_a >= amount {
            self.balance_a = self.balance_a - amount;
            Ok(())
        } else {
            let rest = amount - self.balance_a;
            if self.balance_b >= rest {
                self.balance_b = self.balance_b - rest;
                self.balance_a = 0;
                Ok(())
            } else {
                Err(ErrorCode::InsufficientMargin)
            }
        }
    }

    /// Adds `amount` to denomination A; `Overflow`, and no change, where the
    /// balance would leave `u64`.
    pub fn credit_a(&mut self, amount: u64) -> (r: Result<(), ErrorCode>)
        ensures
            old(self).balance_a + amount <= u64::MAX ==> r == Ok::<(), ErrorCode>(())
                && final(self)@ == old(self)@.with_balances(
                old(self).balance_a + amount,
                old(self).balance_b as int,
            ),
            old(self).balance_a + amount > u64::MAX ==> r == Err::<(), ErrorCode>(ErrorCode::Overflow)
                && final(self)@ == old(self)@,
    {
        match self.balance_a.checked_add(amount) {
            Some(a) => {
                self.balance_a = a;
                Ok(())
            },
            None => Err(ErrorCode::Overflow),
        }
    }

    /// Adds `amount` to denomination B; `Overflow`, and no change, where the
    /// balance would leave `u64`.
    pub fn credit_b(&mut self, amount: u64) -> (r: Result<(), ErrorCode>)
        ensures
            old(self).balance_b + amount <= u64::MAX ==> r == Ok::<(), ErrorCode>(())
                && final(self)@ == old(self)@.with_balances(
                old(self).balance_a as int,
                old(self).balance_b + amount,
            ),
            old(self).balance_b + amount > u64::MAX ==> r == Err::<(), ErrorCode>(ErrorCode::Overflow)
                && final(self)@ == old(self)@,
    {
        match self.balance_b.checked_add(amount) {
            Some(b) => {
                self.balance_b = b;
                Ok(())
            },
            None => Err(ErrorCode::Overflow),
        }
    }
}

} // verus!
