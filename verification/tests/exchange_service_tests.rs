use rust_exchange::amount::Amount;
use rust_exchange::error::AppError;
use rust_exchange::exchange_service::ExchangeService;
use rust_exchange::market::{supported_symbols, symbol_price};

fn amt(x: f64) -> Amount {
    Amount::from_bits(x.to_bits())
}

fn val(a: Amount) -> f64 {
    f64::from_bits(a.to_bits())
}

#[test]
fn recorded_trade_is_found() {
    let mut s = ExchangeService::new();
    let t = s.create_trade("o1".to_string(), amt(100.0), amt(2.0), amt(0.2)).unwrap();
    assert_eq!(t.id.len(), 36);
    for p in [8, 13, 18, 23] {
        assert_eq!(t.id.as_bytes()[p], b'-');
    }
    assert_eq!(t.id.as_bytes()[14], b'4');
    assert!(t.created_at > 1_600_000_000);
    assert_eq!(val(t.commission), 0.2);
    let got = s.get_trade(&t.id).unwrap();
    assert_eq!(got.order_id, "o1");
    assert_eq!(val(got.price), 100.0);
    assert_eq!(val(got.quantity), 2.0);
}

#[test]
fn unknown_trade_is_not_found() {
    let s = ExchangeService::new();
    match s.get_trade("t9").unwrap_err() {
        AppError::NotFound(m) => assert_eq!(m, "Trade not found: t9"),
        AppError::BadRequest(m) | AppError::Internal(m) => panic!("{}", m),
    }
}

#[test]
fn trades_filtered_by_order() {
    let mut s = ExchangeService::new();
    s.create_trade_at("o1".to_string(), amt(1.0), amt(1.0), amt(0.001), "t1".to_string(), 10).unwrap();
    s.create_trade_at("o2".to_string(), amt(1.0), amt(1.0), amt(0.001), "t2".to_string(), 11).unwrap();
    s.create_trade_at("o1".to_string(), amt(2.0), amt(1.0), amt(0.002), "t3".to_string(), 12).unwrap();
    let by_order: Vec<String> =
        s.get_trades(Some("o1".to_string()), None).unwrap().into_iter().map(|t| t.id).collect();
    assert_eq!(by_order, vec!["t1", "t3"]);
    let by_both: Vec<String> = s
        .get_trades(Some("o2".to_string()), Some("u".to_string()))
        .unwrap()
        .into_iter()
        .map(|t| t.id)
        .collect();
    assert_eq!(by_both, vec!["t2"]);
    assert!(s.get_trades(None, Some("u".to_string())).unwrap().is_empty());
    assert_eq!(s.get_trades(None, None).unwrap().len(), 3);
}

#[test]
fn trade_at_given_id_and_time() {
    let mut s = ExchangeService::new();
    let t = s.create_trade_at("o".to_string(), amt(1.0), amt(3.0), amt(0.003), "t".to_string(), 77).unwrap();
    assert_eq!(t.id, "t");
    assert_eq!(t.created_at, 77);
}

#[test]
fn listed_symbols_in_order() {
    let v = supported_symbols();
    assert_eq!(v, vec!["BTC/USDT", "ETH/USDT", "BNB/USDT", "SOL/USDT"]);
}

#[test]
fn quoted_prices() {
    assert_eq!(val(symbol_price("BTC/USDT").unwrap()), 66500.0);
    assert_eq!(val(symbol_price("ETH/USDT").unwrap()), 3450.0);
    assert_eq!(val(symbol_price("BNB/USDT").unwrap()), 560.0);
    assert_eq!(val(symbol_price("SOL/USDT").unwrap()), 142.0);
}

#[test]
fn unlisted_symbol_not_found() {
    match symbol_price("DOGE/USDT").unwrap_err() {
        AppError::NotFound(m) => assert_eq!(m, "Symbol not found: DOGE/USDT"),
        AppError::BadRequest(m) | AppError::Internal(m) => panic!("{}", m),
    }
}

#[test]
fn every_listed_symbol_has_a_price() {
    for s in supported_symbols() {
        assert!(symbol_price(&s).is_ok());
    }
}
