//! Order placement: validating a request, locking its margin and recording
//! the new order.

use vstd::prelude::*;

use anchor_lang::prelude::Pubkey;

use crate::types::{AccountState, ErrorCode, MarginType, Order, OrderType, PositionType, UserAccount};

verus! {

/// Why a placement request fails on account `s`, or `None` where it succeeds.
///
/// Eligibility compares the collateral with the notional `amount`, and the
/// reservation that follows compares it with `amount * leverage`; as the
/// leverage is at least one, the second comparison decides.
pub open spec fn placement_error(
    s: AccountState,
    order_type: OrderType,
    price: Option<u64>,
    amount: u64,
    leverage: u64,
) -> Option<ErrorCode> {
    if amount == 0 || leverage == 0 || (order_type == OrderType::Limit && price is None) {
        Some(ErrorCode::InvalidOrder)
    } else if amount * leverage > u64::MAX {
        Some(ErrorCode::Overflow)
    } else if s.total() > u64::MAX {
        Some(ErrorCode::Overflow)
    } else if s.total() < amount * leverage {
        Some(ErrorCode::InsufficientMargin)
    } else if s.next_order_id == u64::MAX {
        Some(ErrorCode::Overflow)
    } else {
        None
    }
}

impl AccountState {
    /// The account after `order` was placed: its margin reserved, the order
    /// appended and the counter advanced past its id.
    pub open spec fn placed(self, order: Order) -> AccountState {
        AccountState {
            orders: self.orders.push(order),
            next_order_id: (self.next_order_id + 1) as u64,
            ..self.after_reserve(order.margin_locked)
        }
    }
}

/// An order that takes the next id keeps ids increasing and below the
/// counter.
pub proof fn lemma_placed_well_formed(s: AccountState, order: Order)
    requires
        s.well_formed(),
        order.id == s.next_order_id,
        s.next_order_id < u64::MAX,
    ensures
        s.placed(order).well_formed(),
{
    let after = s.placed(order);
    assert forall|i: int, j: int| 0 <= i < j < after.orders.len() implies #[trigger] after.orders[i].id
        < #[trigger] after.orders[j].id by {
        assert(after.orders[i] == s.orders[i]);
        if j < s.orders.len() {
            assert(after.orders[j] == s.orders[j]);
        }
    }
    assert forall|i: int| 0 <= i < after.orders.len() implies #[trigger] after.orders[i].id
        < after.next_order_id by {
        if i < s.orders.len() {
            assert(after.orders[i] == s.orders[i]);
        }
    }
}

/// Successive placements on one account never share an id nor the same
/// collateral. Where two placements succeed one after the other, the second
/// order's id exceeds the first's, both orders are kept with their own
/// ids, and the collateral falls by the sum of both margins.
pub proof fn lemma_successive_placements(s: AccountState, first: Order, second: Order)
    requires
        placement_error(s, first.order_type, first.price, first.amount, first.leverage) is None,
        first.id == s.next_order_id,
        first.margin_locked == first.amount * first.leverage,
        placement_error(
            s.placed(first),
            second.order_type,
            second.price,
            second.amount,
            second.leverage,
        ) is None,
        second.id == s.placed(first).next_order_id,
        second.margin_locked == second.amount * second.leverage,
    ensures
        first.id < second.id,
        s.placed(first).placed(second).orders == s.orders.push(first).push(second),
        s.placed(first).placed(second).total() == s.total() - first.margin_locked
            - second.margin_locked,
        s.well_formed() ==> s.placed(first).placed(second).well_formed(),
{
    if s.well_formed() {
        lemma_placed_well_formed(s, first);
        lemma_placed_well_formed(s.placed(first), second);
    }
}

/// Places a leveraged order against `account` and returns its id.
///
/// The order locks `amount * leverage` units of collateral, drawn from
/// denomination A first. On any failure the account is left as it was.
pub fn place_order(
    account: &mut UserAccount,
    asset: Pubkey,
    position: PositionType,
    order_type: OrderType,
    price: Option<u64>,
    amount: u64,
    leverage: u64,
    margin_type: MarginType,
    stop_loss: Option<u64>,
    take_profit: Option<u64>,
    expiration_date: Option<i64>,
) -> (r: Result<u64, ErrorCode>)
    ensures
        placement_error(old(account)@, order_type, price, amount, leverage) matches Some(e)
            ==> r == Err::<u64, ErrorCode>(e) && final(account)@ == old(account)@,
        placement_error(old(account)@, order_type, price, amount, leverage) is None ==> {
            &&& r == Ok::<u64, ErrorCode>(old(account).next_order_id)
            &&& final(account)@ == old(account)@.placed(
                (Order {
                    id: old(account).next_order_id,
                    asset,
                    position,
                    order_type,
                    price,
                    amount,
                    leverage,
                    margin_type,
                    stop_loss,
                    take_profit,
                    expiration_date,
                    margin_locked: (amount * leverage) as u64,
                    settled: false,
                }),
            )
        },
        r is Ok ==> final(account)@.total() == old(account)@.total() - amount * leverage,
        old(account)@.well_formed() ==> final(account)@.well_formed(),
{
    if amount == 0 || leverage == 0 {
        return Err(ErrorCode::InvalidOrder);
    }
    if order_type == OrderType::Limit && price.is_none() {
        return Err(ErrorCode::InvalidOrder);
    }
    let margin_locked = match amount.checked_mul(leverage) {
        Some(m) => m,
        None => return Err(ErrorCode::Overflow),
    };
    let available_margin = match account.available() {
        Ok(v) => v,
        Err(e) => return Err(e),
    };
    proof {
        assert(amount <= amount * leverage) by (nonlinear_arith)
            requires
                leverage >= 1,
        ;
    }
    if available_margin < amount {
        return Err(ErrorCode::InsufficientMargin);
    }
    if available_margin < margin_locked {
        return Err(ErrorCode::InsufficientMargin);
    }
    // The counter is checked before anything changes, so that a failure
    // leaves no trace.
    let order_id = account.next_order_id;
    if order_id == u64::MAX {
        return Err(ErrorCode::Overflow);
    }
    let ghost before = account@;
    match account.reserve(margin_locked) {
        Ok(()) => {},
        Err(e) => return Err(e),
    }
    account.next_order_id = order_id + 1;
    let order = Order {
        id: order_id,
        asset,
        position,
        order_type,
        price,
        amount,
        leverage,
        margin_type,
        stop_loss,
        take_profit,
        expiration_date,
        margin_locked,
        settled: false,
    };
    let ghost placed_order = order;
    account.open_positions.push(order);
    proof {
        if before.well_formed() {
            lemma_placed_well_formed(before, placed_order);
        }
    }
    Ok(order_id)
}

} // verus!
