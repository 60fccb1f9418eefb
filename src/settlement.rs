//! Settlement: evaluating an order's fill rule against an observed price and
//! resolving its locked margin to the winner.
//!
//! Settlement takes two steps around the token transfer that moves the
//! margin. `plan_settlement` decides the outcome, the direction and the amount
//! of the transfer; the caller makes it; `settle_order` then marks the order
//! settled, and only where the transfer went through.

use vstd::prelude::*;

use crate::types::{AccountState, ErrorCode, Order, OrderType, Outcome, PositionType, UserAccount};

verus! {

/// Which way the locked margin of a settled order moves.
#[derive(Clone, Copy, Debug, PartialEq, Eq, Structural)]
pub enum TransferDirection {
    /// From the pool's token account to the user's, signed by the pool.
    PoolToUser,
    /// From the user's token account to the pool's, signed by the user.
    UserToPool,
}

/// A decided settlement: the transfer to make before the order is marked.
#[derive(Clone, Copy, Debug, PartialEq, Eq, Structural)]
pub struct Settlement {
    pub order_id: u64,
    pub outcome: Outcome,
    pub direction: TransferDirection,
    /// The order's locked margin.
    pub amount: u64,
}

/// The fill rule. A market order always wins. A limit order compares the
/// observed price with its trigger: a long wins at or above it, a short at or
/// below it. A missing trigger stands for the extreme price on the losing
/// side: `u64::MAX` for a long, `0` for a short.
pub open spec fn fill_outcome(
    order_type: OrderType,
    position: PositionType,
    trigger: Option<u64>,
    observed: u64,
) -> Outcome {
    match order_type {
        OrderType::Market => Outcome::Win,
        OrderType::Limit => {
            let wins = match position {
                PositionType::Long => observed >= (match trigger {
                    Some(p) => p,
                    None => u64::MAX,
                }),
                PositionType::Short => observed <= (match trigger {
                    Some(p) => p,
                    None => 0,
                }),
            };
            if wins {
                Outcome::Win
            } else {
                Outcome::Loss
            }
        },
    }
}

/// A win is paid by the pool, a loss by the user.
pub open spec fn payout_direction(outcome: Outcome) -> TransferDirection {
    match outcome {
        Outcome::Win => TransferDirection::PoolToUser,
        Outcome::Loss => TransferDirection::UserToPool,
    }
}

/// `i` is the first position in `orders` of an order with id `id`.
pub open spec fn is_first_with_id(orders: Seq<Order>, id: u64, i: int) -> bool {
    &&& 0 <= i < orders.len()
    &&& orders[i].id == id
    &&& forall|j: int| 0 <= j < i ==> orders[j].id != id
}

/// The first position of an order with id `id`, or `-1` where there is none.
pub open spec fn order_index(orders: Seq<Order>, id: u64) -> int {
    if exists|i: int| is_first_with_id(orders, id, i) {
        choose|i: int| is_first_with_id(orders, id, i)
    } else {
        -1
    }
}

/// What settling order `order_id` of account `s` at price `observed` comes to.
pub open spec fn settlement_decision(s: AccountState, order_id: u64, observed: u64) -> Result<
    Settlement,
    ErrorCode,
> {
    let i = order_index(s.orders, order_id);
    if i < 0 {
        Err(ErrorCode::OrderNotFound)
    } else if s.orders[i].settled {
        Err(ErrorCode::OrderAlreadySettled)
    } else {
        let o = s.orders[i];
        let outcome = fill_outcome(o.order_type, o.position, o.price, observed);
        Ok(
            Settlement {
                order_id,
                outcome,
                direction: payout_direction(outcome),
                amount: o.margin_locked,
            },
        )
    }
}

impl AccountState {
    /// The same account with its order at position `i` marked settled.
    pub open spec fn with_settled(self, i: int) -> AccountState {
        AccountState {
            orders: self.orders.update(i, Order { settled: true, ..self.orders[i] }),
            ..self
        }
    }
}

/// What committing `settlement` to account `s` returns, and the account after
/// it, where `transferred` tells whether its transfer went through.
pub open spec fn settle_result(s: AccountState, settlement: Settlement, transferred: bool) -> (
    Result<Outcome, ErrorCode>,
    AccountState,
) {
    let i = order_index(s.orders, settlement.order_id);
    if i < 0 {
        (Err(ErrorCode::OrderNotFound), s)
    } else if s.orders[i].settled {
        (Err(ErrorCode::OrderAlreadySettled), s)
    } else if !transferred {
        (Err(ErrorCode::TransferFailed), s)
    } else {
        (Ok(settlement.outcome), s.with_settled(i))
    }
}

/// The first position with a given id is the one `order_index` names.
pub proof fn lemma_order_index(orders: Seq<Order>, id: u64, i: int)
    requires
        is_first_with_id(orders, id, i),
    ensures
        order_index(orders, id) == i,
{
    let k = order_index(orders, id);
    assert(is_first_with_id(orders, id, k));
    if k < i {
        assert(orders[k].id != id);
    } else if i < k {
        assert(orders[i].id != id);
    }
}

/// Marking an order settled keeps every id where it was, so every id is
/// found at the same position as before.
pub proof fn lemma_order_index_after_settling(s: AccountState, i: int, id: u64)
    requires
        0 <= i < s.orders.len(),
    ensures
        order_index(s.with_settled(i).orders, id) == order_index(s.orders, id),
{
    let after = s.with_settled(i).orders;
    assert forall|k: int| 0 <= k < s.orders.len() implies #[trigger] after[k].id == s.orders[k].id by {}
    let k = order_index(s.orders, id);
    if k >= 0 {
        assert(is_first_with_id(s.orders, id, k));
        assert(is_first_with_id(after, id, k));
        lemma_order_index(after, id, k);
    } else {
        if exists|m: int| is_first_with_id(after, id, m) {
            let m = choose|m: int| is_first_with_id(after, id, m);
            assert forall|j: int| 0 <= j < m implies s.orders[j].id != id by {
                assert(after[j].id == s.orders[j].id);
            }
            assert(is_first_with_id(s.orders, id, m));
        }
    }
}

/// An order is settled at most once. After a settlement of an order has been
/// committed, deciding a settlement of the same id again fails with
/// `OrderAlreadySettled` at every price, so no second transfer is called
/// for; and committing any settlement of that id again fails the same way,
/// whatever its transfer did, and leaves the account as it is.
pub proof fn lemma_settles_once(
    s: AccountState,
    settlement: Settlement,
    transferred: bool,
    observed: u64,
    again: Settlement,
    transferred_again: bool,
)
    requires
        settle_result(s, settlement, transferred).0 is Ok,
        again.order_id == settlement.order_id,
    ensures
        ({
            let s1 = settle_result(s, settlement, transferred).1;
            &&& s1.orders[order_index(s1.orders, settlement.order_id)].settled
            &&& settlement_decision(s1, settlement.order_id, observed) == Err::<Settlement, ErrorCode>(
                ErrorCode::OrderAlreadySettled,
            )
            &&& settle_result(s1, again, transferred_again) == (
                Err::<Outcome, ErrorCode>(ErrorCode::OrderAlreadySettled),
                s1,
            )
        }),
{
    let i = order_index(s.orders, settlement.order_id);
    lemma_order_index_after_settling(s, i, settlement.order_id);
}

/// Evaluates the fill rule of `order` at price `observed_price`.
pub fn evaluate_fill(order: &Order, observed_price: u64) -> (r: Outcome)
    ensures
        r == fill_outcome(order.order_type, order.position, order.price, observed_price),
        order.order_type == OrderType::Market ==> r == Outcome::Win,
        order.order_type == OrderType::Limit && order.position == PositionType::Long
            && order.price is Some ==> (r == Outcome::Win <==> observed_price
            >= order.price->0),
        order.order_type == OrderType::Limit && order.position == PositionType::Short
            && order.price is Some ==> (r == Outcome::Win <==> observed_price
            <= order.price->0),
{
    let wins = match order.order_type {
        OrderType::Market => true,
        OrderType::Limit => match order.position {
            PositionType::Long => observed_price >= order.price.unwrap_or(u64::MAX),
            PositionType::Short => observed_price <= order.price.unwrap_or(0),
        },
    };
    if wins {
        Outcome::Win
    } else {
        Outcome::Loss
    }
}

/// The position of the first order of `orders` with id `order_id`.
fn find_order(orders: &Vec<Order>, order_id: u64) -> (r: Option<usize>)
    ensures
        match r {
            Some(i) => i as int == order_index(orders@, order_id) && i < orders@.len(),
            None => order_index(orders@, order_id) == -1,
        },
{
    let mut k: usize = 0;
    while k < orders.len()
        invariant
            k <= orders@.len(),
            forall|j: int| 0 <= j < k ==> orders@[j].id != order_id,
        decreases orders@.len() - k,
    {
        if orders[k].id == order_id {
            proof {
                lemma_order_index(orders@, order_id, k as int);
            }
            return Some(k);
        }
        k = k + 1;
    }
    assert(!exists|i: int| is_first_with_id(orders@, order_id, i));
    None
}

/// Decides the settlement of order `order_id` at price `asset_price`: the
/// outcome of its fill rule, and the transfer of its locked margin that the
/// outcome calls for. Fails with `OrderNotFound` where the account has no
/// such order and with `OrderAlreadySettled` where it was settled before.
pub fn plan_settlement(account: &UserAccount, order_id: u64, asset_price: u64) -> (r: Result<
    Settlement,
    ErrorCode,
>)
    ensures
        r == settlement_decision(account@, order_id, asset_price),
{
    let i = match find_order(&account.open_positions, order_id) {
        Some(i) => i,
        None => return Err(ErrorCode::OrderNotFound),
    };
    let order = &account.open_positions[i];
    if order.settled {
        return Err(ErrorCode::OrderAlreadySettled);
    }
    let outcome = evaluate_fill(order, asset_price);
    let direction = match outcome {
        Outcome::Win => TransferDirection::PoolToUser,
        Outcome::Loss => TransferDirection::UserToPool,
    };
    Ok(Settlement { order_id, outcome, direction, amount: order.margin_locked })
}

/// Commits `settlement` once its transfer was attempted: where `transferred`
/// holds and the order is still open, marks it settled and returns the
/// outcome. Otherwise fails (`OrderNotFound`, `OrderAlreadySettled`, then
/// `TransferFailed`) and changes nothing. Balances are never touched: the
/// transfer alone moves value.
pub fn settle_order(account: &mut UserAccount, settlement: &Settlement, transferred: bool) -> (r:
    Result<Outcome, ErrorCode>)
    ensures
        (r, final(account)@) == settle_result(old(account)@, *settlement, transferred),
        final(account).balance_a == old(account).balance_a,
        final(account).balance_b == old(account).balance_b,
        old(account)@.well_formed() ==> final(account)@.well_formed(),
{
    let i = match find_order(&account.open_positions, settlement.order_id) {
        Some(i) => i,
        None => return Err(ErrorCode::OrderNotFound),
    };
    if account.open_positions[i].settled {
        return Err(ErrorCode::OrderAlreadySettled);
    }
    if !transferred {
        return Err(ErrorCode::TransferFailed);
    }
    let ghost before = account@;
    account.open_positions[i].settled = true;
    proof {
        let after = account@;
        assert(after == before.with_settled(i as int));
        if before.well_formed() {
            assert forall|p: int, q: int| 0 <= p < q < after.orders.len() implies #[trigger] after.orders[p].id
                < #[trigger] after.orders[q].id by {
                assert(after.orders[p].id == before.orders[p].id);
                assert(after.orders[q].id == before.orders[q].id);
            }
            assert forall|p: int| 0 <= p < after.orders.len() implies #[trigger] after.orders[p].id
                < after.next_order_id by {
                assert(after.orders[p].id == before.orders[p].id);
            }
        }
    }
    Ok(settlement.outcome)
}

} // verus!
