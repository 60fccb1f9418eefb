use anchor_lang::prelude::Pubkey;
use lenous::placement::place_order;
use lenous::settlement::{evaluate_fill, plan_settlement, settle_order, Settlement, TransferDirection};
use lenous::types::{ErrorCode, MarginType, Order, OrderType, Outcome, PositionType, UserAccount};

fn key(b: u8) -> Pubkey {
    Pubkey::new_from_array([b; 32])
}

fn account(balance_a: u64, balance_b: u64) -> UserAccount {
    UserAccount {
        owner: key(1),
        balance_a,
        balance_b,
        open_positions: Vec::new(),
        next_order_id: 0,
    }
}

fn order(order_type: OrderType, position: PositionType, price: Option<u64>) -> Order {
    Order {
        id: 0,
        asset: key(9),
        position,
        order_type,
        price,
        amount: 10,
        leverage: 2,
        margin_type: MarginType::Isolated,
        stop_loss: None,
        take_profit: None,
        expiration_date: None,
        margin_locked: 20,
        settled: false,
    }
}

fn place_market(acct: &mut UserAccount, amount: u64, leverage: u64) -> Result<u64, ErrorCode> {
    place_order(
        acct,
        key(9),
        PositionType::Long,
        OrderType::Market,
        None,
        amount,
        leverage,
        MarginType::Cross,
        None,
        None,
        None,
    )
}

#[test]
fn place_order_locks_leveraged_margin() {
    let mut acct = account(1000, 0);
    assert_eq!(place_market(&mut acct, 100, 5), Ok(0));
    assert_eq!(acct.open_positions.len(), 1);
    let o = &acct.open_positions[0];
    assert_eq!(o.id, 0);
    assert_eq!(o.margin_locked, 500);
    assert_eq!(o.amount, 100);
    assert_eq!(o.leverage, 5);
    assert!(!o.settled);
    assert_eq!(acct.balance_a, 500);
    assert_eq!(acct.balance_b, 0);
    assert_eq!(acct.next_order_id, 1);
}

#[test]
fn settle_win_pays_locked_margin_to_user() {
    let mut acct = account(1000, 0);
    let id = place_market(&mut acct, 100, 5).unwrap();
    let plan = plan_settlement(&acct, id, 42).unwrap();
    assert_eq!(
        plan,
        Settlement {
            order_id: id,
            outcome: Outcome::Win,
            direction: TransferDirection::PoolToUser,
            amount: 500,
        }
    );
    assert_eq!(settle_order(&mut acct, &plan, true), Ok(Outcome::Win));
    assert!(acct.open_positions[0].settled);
    assert_eq!(acct.balance_a, 500);
    assert_eq!(acct.balance_b, 0);
}

#[test]
fn second_settlement_fails_without_transfer() {
    let mut acct = account(1000, 0);
    let id = place_market(&mut acct, 100, 5).unwrap();
    let plan = plan_settlement(&acct, id, 1).unwrap();
    assert_eq!(settle_order(&mut acct, &plan, true), Ok(Outcome::Win));
    assert_eq!(plan_settlement(&acct, id, 1), Err(ErrorCode::OrderAlreadySettled));
    assert_eq!(plan_settlement(&acct, id, 0), Err(ErrorCode::OrderAlreadySettled));
    assert_eq!(settle_order(&mut acct, &plan, true), Err(ErrorCode::OrderAlreadySettled));
    assert_eq!(settle_order(&mut acct, &plan, false), Err(ErrorCode::OrderAlreadySettled));
    assert!(acct.open_positions[0].settled);
}

#[test]
fn failed_transfer_leaves_order_open_and_retryable() {
    let mut acct = account(1000, 0);
    let id = place_market(&mut acct, 10, 3).unwrap();
    let plan = plan_settlement(&acct, id, 5).unwrap();
    assert_eq!(settle_order(&mut acct, &plan, false), Err(ErrorCode::TransferFailed));
    assert!(!acct.open_positions[0].settled);
    assert_eq!(plan_settlement(&acct, id, 5), Ok(plan));
    assert_eq!(settle_order(&mut acct, &plan, true), Ok(Outcome::Win));
    assert!(acct.open_positions[0].settled);
}

#[test]
fn unknown_order_is_not_found() {
    let mut acct = account(1000, 0);
    assert_eq!(plan_settlement(&acct, 0, 5), Err(ErrorCode::OrderNotFound));
    place_market(&mut acct, 10, 1).unwrap();
    assert_eq!(plan_settlement(&acct, 7, 5), Err(ErrorCode::OrderNotFound));
    let stray = Settlement {
        order_id: 7,
        outcome: Outcome::Win,
        direction: TransferDirection::PoolToUser,
        amount: 10,
    };
    assert_eq!(settle_order(&mut acct, &stray, true), Err(ErrorCode::OrderNotFound));
    assert!(!acct.open_positions[0].settled);
}

#[test]
fn losing_limit_order_is_paid_by_user() {
    let mut acct = account(1000, 0);
    let id = place_order(
        &mut acct,
        key(3),
        PositionType::Long,
        OrderType::Limit,
        Some(100),
        20,
        3,
        MarginType::Isolated,
        Some(90),
        Some(120),
        Some(1_700_000_000),
    )
    .unwrap();
    let plan = plan_settlement(&acct, id, 99).unwrap();
    assert_eq!(plan.outcome, Outcome::Loss);
    assert_eq!(plan.direction, TransferDirection::UserToPool);
    assert_eq!(plan.amount, 60);
    assert_eq!(settle_order(&mut acct, &plan, true), Ok(Outcome::Loss));
    assert_eq!(acct.balance_a, 940);
}

#[test]
fn market_order_always_wins() {
    for price in [0u64, 1, 500, u64::MAX] {
        let long = order(OrderType::Market, PositionType::Long, None);
        let short = order(OrderType::Market, PositionType::Short, Some(3));
        assert_eq!(evaluate_fill(&long, price), Outcome::Win);
        assert_eq!(evaluate_fill(&short, price), Outcome::Win);
    }
}

#[test]
fn limit_long_wins_at_or_above_trigger() {
    let o = order(OrderType::Limit, PositionType::Long, Some(100));
    assert_eq!(evaluate_fill(&o, 100), Outcome::Win);
    assert_eq!(evaluate_fill(&o, 101), Outcome::Win);
    assert_eq!(evaluate_fill(&o, u64::MAX), Outcome::Win);
    assert_eq!(evaluate_fill(&o, 99), Outcome::Loss);
    assert_eq!(evaluate_fill(&o, 0), Outcome::Loss);
}

#[test]
fn limit_short_wins_at_or_below_trigger() {
    let o = order(OrderType::Limit, PositionType::Short, Some(100));
    assert_eq!(evaluate_fill(&o, 100), Outcome::Win);
    assert_eq!(evaluate_fill(&o, 0), Outcome::Win);
    assert_eq!(evaluate_fill(&o, 99), Outcome::Win);
    assert_eq!(evaluate_fill(&o, 101), Outcome::Loss);
    assert_eq!(evaluate_fill(&o, u64::MAX), Outcome::Loss);
}

#[test]
fn limit_without_trigger_uses_extreme_threshold() {
    let long = order(OrderType::Limit, PositionType::Long, None);
    assert_eq!(evaluate_fill(&long, u64::MAX - 1), Outcome::Loss);
    assert_eq!(evaluate_fill(&long, u64::MAX), Outcome::Win);
    let short = order(OrderType::Limit, PositionType::Short, None);
    assert_eq!(evaluate_fill(&short, 1), Outcome::Loss);
    assert_eq!(evaluate_fill(&short, 0), Outcome::Win);
}

#[test]
fn reserve_from_a_alone() {
    let mut acct = account(100, 50);
    assert_eq!(acct.reserve(100), Ok(()));
    assert_eq!((acct.balance_a, acct.balance_b), (0, 50));
    let mut acct = account(100, 50);
    assert_eq!(acct.reserve(40), Ok(()));
    assert_eq!((acct.balance_a, acct.balance_b), (60, 50));
}

#[test]
fn reserve_spanning_both_drains_a_first() {
    let mut acct = account(30, 100);
    assert_eq!(acct.reserve(50), Ok(()));
    assert_eq!((acct.balance_a, acct.balance_b), (0, 80));
    let mut acct = account(30, 100);
    assert_eq!(acct.reserve(130), Ok(()));
    assert_eq!((acct.balance_a, acct.balance_b), (0, 0));
}

#[test]
fn reserve_beyond_collateral_changes_nothing() {
    let mut acct = account(30, 100);
    assert_eq!(acct.reserve(131), Err(ErrorCode::InsufficientMargin));
    assert_eq!((acct.balance_a, acct.balance_b), (30, 100));
    let mut empty = account(0, 0);
    assert_eq!(empty.reserve(0), Ok(()));
    assert_eq!(empty.reserve(1), Err(ErrorCode::InsufficientMargin));
}

#[test]
fn reserve_keeps_total_minus_amount() {
    for amount in [0u64, 1, 29, 30, 31, 77, 130] {
        let mut acct = account(30, 100);
        acct.reserve(amount).unwrap();
        assert_eq!(acct.balance_a + acct.balance_b, 130 - amount);
    }
}

#[test]
fn available_sums_both_balances() {
    assert_eq!(account(30, 100).available(), Ok(130));
    assert_eq!(account(u64::MAX, 0).available(), Ok(u64::MAX));
    assert_eq!(account(u64::MAX, 1).available(), Err(ErrorCode::Overflow));
}

#[test]
fn credits_add_to_one_denomination() {
    let mut acct = account(5, 7);
    assert_eq!(acct.credit_a(10), Ok(()));
    assert_eq!((acct.balance_a, acct.balance_b), (15, 7));
    assert_eq!(acct.credit_b(3), Ok(()));
    assert_eq!((acct.balance_a, acct.balance_b), (15, 10));
    let mut full = account(u64::MAX, u64::MAX);
    assert_eq!(full.credit_a(1), Err(ErrorCode::Overflow));
    assert_eq!(full.credit_b(1), Err(ErrorCode::Overflow));
    assert_eq!((full.balance_a, full.balance_b), (u64::MAX, u64::MAX));
}

#[test]
fn placement_spanning_both_denominations() {
    let mut acct = account(100, 1000);
    assert_eq!(place_market(&mut acct, 50, 4), Ok(0));
    assert_eq!((acct.balance_a, acct.balance_b), (0, 900));
}

#[test]
fn malformed_requests_are_rejected() {
    let mut acct = account(1000, 0);
    assert_eq!(place_market(&mut acct, 0, 5), Err(ErrorCode::InvalidOrder));
    assert_eq!(place_market(&mut acct, 5, 0), Err(ErrorCode::InvalidOrder));
    let limit = place_order(
        &mut acct,
        key(2),
        PositionType::Short,
        OrderType::Limit,
        None,
        5,
        1,
        MarginType::Cross,
        None,
        None,
        None,
    );
    assert_eq!(limit, Err(ErrorCode::InvalidOrder));
    assert_eq!(acct.balance_a, 1000);
    assert!(acct.open_positions.is_empty());
    assert_eq!(acct.next_order_id, 0);
}

#[test]
fn overflowing_requests_are_rejected() {
    let mut acct = account(1000, 0);
    assert_eq!(place_market(&mut acct, u64::MAX, 2), Err(ErrorCode::Overflow));
    let mut rich = account(u64::MAX, 1);
    assert_eq!(place_market(&mut rich, 1, 1), Err(ErrorCode::Overflow));
    let mut exhausted = account(1000, 0);
    exhausted.next_order_id = u64::MAX;
    assert_eq!(place_market(&mut exhausted, 1, 1), Err(ErrorCode::Overflow));
    assert_eq!(exhausted.balance_a, 1000);
    assert!(exhausted.open_positions.is_empty());
}

#[test]
fn insufficient_collateral_is_rejected() {
    let mut acct = account(50, 20);
    assert_eq!(place_market(&mut acct, 71, 1), Err(ErrorCode::InsufficientMargin));
    // the notional amount is covered, the leveraged margin is not
    assert_eq!(place_market(&mut acct, 50, 2), Err(ErrorCode::InsufficientMargin));
    assert_eq!((acct.balance_a, acct.balance_b), (50, 20));
    assert!(acct.open_positions.is_empty());
    assert_eq!(place_market(&mut acct, 35, 2), Ok(0));
    assert_eq!((acct.balance_a, acct.balance_b), (0, 0));
}

#[test]
fn successive_placements_get_distinct_ids_and_collateral() {
    let mut acct = account(300, 200);
    let first = place_market(&mut acct, 100, 2).unwrap();
    let second = place_market(&mut acct, 50, 4).unwrap();
    assert_eq!((first, second), (0, 1));
    assert_eq!(acct.balance_a + acct.balance_b, 100);
    assert_eq!((acct.balance_a, acct.balance_b), (0, 100));
    assert_eq!(acct.open_positions[0].id, 0);
    assert_eq!(acct.open_positions[1].id, 1);
    assert_eq!(place_market(&mut acct, 60, 2), Err(ErrorCode::InsufficientMargin));
    assert_eq!(acct.next_order_id, 2);
}

#[test]
fn fresh_account_funded_by_credits() {
    let mut acct = UserAccount::new(key(4));
    assert_eq!((acct.balance_a, acct.balance_b, acct.next_order_id), (0, 0, 0));
    assert!(acct.open_positions.is_empty());
    assert_eq!(acct.owner, key(4));
    assert_eq!(place_market(&mut acct, 1, 1), Err(ErrorCode::InsufficientMargin));
    acct.credit_a(40).unwrap();
    acct.credit_b(60).unwrap();
    assert_eq!(place_market(&mut acct, 25, 3), Ok(0));
    assert_eq!((acct.balance_a, acct.balance_b), (0, 25));
}
