use otc_sol::error::ApiError;
use otc_sol::models::Trade;
use otc_sol::trades::{
    close_trade, create_trade, get_trade, update_trade, CreateTradeData, UpdateTradeData, DEFAULT_CREATOR_ID,
};

fn request() -> CreateTradeData {
    CreateTradeData { amount: 1000000, price_bits: 35.5f64.to_bits(), side: "buy".to_string() }
}

fn stored(id: i32) -> Trade {
    let mut t = create_trade(&request(), 1_700_000_000_000_000);
    t.id = id;
    t
}

#[test]
fn test_create_trade() {
    let trade = create_trade(&request(), 1_700_000_000_000_000);
    assert_eq!(trade.amount, 1000000);
    assert_eq!(f64::from_bits(trade.price_bits), 35.5);
    assert_eq!(trade.status, "Open");
    assert_eq!(trade.id, 0);
    assert_eq!(trade.creator_id, DEFAULT_CREATOR_ID);
    assert_eq!(trade.created_at, 1_700_000_000_000_000);
    let row = trade.to_new_trade();
    assert_eq!(row.amount, 1000000);
    assert_eq!(row.creator_id, 1);
    assert_eq!(row.status, "Open");
    assert_eq!(f64::from_bits(row.price_bits), 35.5);
}

#[test]
fn test_get_trade() {
    let trade = get_trade(Some(stored(3))).expect("found");
    assert_eq!(trade.amount, 1000000);
    assert_eq!(f64::from_bits(trade.price_bits), 35.5);
    assert_eq!(trade.status, "Open");
    assert_eq!(trade.id, 3);
}

#[test]
fn lookup_of_missing_trade_answers_not_found() {
    // After deletion the lookup finds nothing; the answer is 404.
    let r = get_trade(None);
    assert_eq!(r.as_ref().unwrap_err(), &ApiError::NotFound);
    assert_eq!(r.unwrap_err().status_code(), 404);
}

#[test]
fn test_update_trade() {
    let update = UpdateTradeData { amount: Some(2000000), price_bits: Some(40.0f64.to_bits()), status: None };
    let changes = update_trade(&update).expect("something to write");
    assert_eq!(changes.amount, Some(2000000));
    assert_eq!(changes.price_bits.map(f64::from_bits), Some(40.0));
    assert_eq!(changes.status, None);
}

#[test]
fn update_with_only_status_writes_only_status() {
    let update = UpdateTradeData { amount: None, price_bits: None, status: Some("Pending".to_string()) };
    let changes = update_trade(&update).expect("something to write");
    assert_eq!(changes.amount, None);
    assert_eq!(changes.price_bits, None);
    assert_eq!(changes.status.as_deref(), Some("Pending"));
}

#[test]
fn empty_update_writes_nothing() {
    let update = UpdateTradeData { amount: None, price_bits: None, status: None };
    assert!(update_trade(&update).is_none());
}

#[test]
fn test_close_trade() {
    let changes = close_trade();
    assert_eq!(changes.status.as_deref(), Some("Closed"));
    assert_eq!(changes.amount, None);
    assert_eq!(changes.price_bits, None);
}

#[test]
fn price_bits_carry_negative_zero_and_nan_unchanged() {
    for bits in [(-0.0f64).to_bits(), f64::NAN.to_bits(), f64::INFINITY.to_bits()] {
        let data = CreateTradeData { amount: -5, price_bits: bits, side: "sell".to_string() };
        let t = create_trade(&data, -1);
        assert_eq!(t.price_bits, bits);
        assert_eq!(t.amount, -5);
        assert_eq!(t.created_at, -1);
    }
}
