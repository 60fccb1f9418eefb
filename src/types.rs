//! The data model: orders, user accounts and the errors of the engine.

use vstd::prelude::*;

use anchor_lang::prelude::Pubkey;

verus! {

/// How an order is filled at settlement.
#[derive(Clone, Copy, Debug, PartialEq, Eq, Structural)]
pub enum OrderType {
    /// Filled unconditionally.
    Market,
    /// Filled when the observed price crosses the trigger price.
    Limit,
}

/// How the margin of an order is accounted. Recorded with the order; the
/// engine treats both kinds alike.
#[derive(Clone, Copy, Debug, PartialEq, Eq, Structural)]
pub enum MarginType {
    Cross,
    Isolated,
}

/// Whether a position profits from a rising or from a falling price.
#[derive(Clone, Copy, Debug, PartialEq, Eq, Structural)]
pub enum PositionType {
    Long,
    Short,
}

/// The result of settling an order: who receives the locked margin.
#[derive(Clone, Copy, Debug, PartialEq, Eq, Structural)]
pub enum Outcome {
    /// The pool pays the locked margin to the user.
    Win,
    /// The user pays the locked margin to the pool.
    Loss,
}

/// Every way in which an operation of the engine can fail. A failed
/// operation leaves the account as it was.
#[derive(Clone, Copy, Debug, PartialEq, Eq, Structural)]
pub enum ErrorCode {
    /// The account's collateral does not cover what the order needs.
    InsufficientMargin,
    /// The order was settled before.
    OrderAlreadySettled,
    /// A token account is not owned by the expected principal.
    IncorrectAccountOwner,
    /// The accounts handed to an instruction do not fit together.
    AccountValidationFailed,
    /// Anything else.
    UnexpectedError,
    /// No order of the account has the requested id.
    OrderNotFound,
    /// `amount * leverage`, a balance sum or the order counter leaves `u64`.
    Overflow,
    /// The order request is malformed: a zero amount, a zero leverage, or a
    /// limit order without a trigger price.
    InvalidOrder,
    /// The token transfer that settles an order did not go through.
    TransferFailed,
}

/// One leveraged order of a user.
pub struct Order {
    /// Unique among the orders of the owning account.
    pub id: u64,
    /// The traded instrument.
    pub asset: Pubkey,
    pub position: PositionType,
    pub order_type: OrderType,
    /// The trigger price of a limit order.
    pub price: Option<u64>,
    /// Notional size, before leverage.
    pub amount: u64,
    pub leverage: u64,
    pub margin_type: MarginType,
    /// Recorded, not evaluated by settlement.
    pub stop_loss: Option<u64>,
    /// Recorded, not evaluated by settlement.
    pub take_profit: Option<u64>,
    /// Recorded, not enforced.
    pub expiration_date: Option<i64>,
    /// Collateral reserved when the order was placed: `amount * leverage`.
    pub margin_locked: u64,
    pub settled: bool,
}

/// The ledger entry of one user: collateral in two denominations and the
/// orders placed against it. Reservations draw on denomination A first.
pub struct UserAccount {
    pub owner: Pubkey,
    /// Collateral in denomination A.
    pub balance_a: u64,
    /// Collateral in denomination B.
    pub balance_b: u64,
    /// All orders of the account, in the order they were placed.
    pub open_positions: Vec<Order>,
    /// The id that the next order receives.
    pub next_order_id: u64,
}

/// What a `UserAccount` holds, with its orders as a sequence.
pub struct AccountState {
    pub owner: Pubkey,
    pub balance_a: u64,
    pub balance_b: u64,
    pub orders: Seq<Order>,
    pub next_order_id: u64,
}

impl View for UserAccount {
    type V = AccountState;

    open spec fn view(&self) -> AccountState {
        AccountState {
            owner: self.owner,
            balance_a: self.balance_a,
            balance_b: self.balance_b,
            orders: self.open_positions@,
            next_order_id: self.next_order_id,
        }
    }
}

impl AccountState {
    /// All collateral of the account, in both denominations.
    pub open spec fn total(self) -> int {
        self.balance_a + self.balance_b
    }

    /// Order ids grow with the position in the sequence, so none repeats,
    /// and every id lies below the counter.
    pub open spec fn well_formed(self) -> bool {
        &&& forall|i: int, j: int|
            0 <= i < j < self.orders.len() ==> #[trigger] self.orders[i].id
                < #[trigger] self.orders[j].id
        &&& forall|i: int| 0 <= i < self.orders.len() ==> #[trigger] self.orders[i].id < self.next_order_id
    }
}

} // verus!
