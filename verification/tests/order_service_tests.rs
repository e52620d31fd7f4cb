use rust_exchange::amount::Amount;
use rust_exchange::error::AppError;
use rust_exchange::model::{Order, OrderSide, OrderStatus, OrderType};
use rust_exchange::order_service::{order_from_request, order_from_request_at, CreateOrderRequest, OrderService};

fn amt(x: f64) -> Amount {
    Amount::from_bits(x.to_bits())
}

fn order(id: &str, user: &str, status: OrderStatus) -> Order {
    Order {
        id: id.to_string(),
        user_id: user.to_string(),
        symbol: "BTC/USDT".to_string(),
        order_type: OrderType::Limit,
        side: OrderSide::Buy,
        price: amt(66000.0),
        quantity: amt(0.5),
        status,
        created_at: 100,
        updated_at: 100,
    }
}

fn request(user: &str) -> CreateOrderRequest {
    CreateOrderRequest {
        user_id: user.to_string(),
        symbol: "ETH/USDT".to_string(),
        order_type: OrderType::Market,
        side: OrderSide::Sell,
        price: amt(3450.0),
        quantity: amt(2.0),
    }
}

fn message(e: &AppError) -> (&'static str, String) {
    match e {
        AppError::NotFound(m) => ("not found", m.clone()),
        AppError::BadRequest(m) => ("bad request", m.clone()),
        AppError::Internal(m) => ("internal", m.clone()),
    }
}

#[test]
fn created_order_is_found() {
    let mut s = OrderService::new();
    let o = s.create_order(order("o1", "u1", OrderStatus::New)).unwrap();
    assert_eq!(o.id, "o1");
    let got = s.get_order("o1").unwrap();
    assert_eq!(got.user_id, "u1");
    assert_eq!(got.status, OrderStatus::New);
}

#[test]
fn unknown_order_is_not_found() {
    let s = OrderService::new();
    let e = s.get_order("zz").unwrap_err();
    assert_eq!(message(&e), ("not found", "Order not found: zz".to_string()));
}

#[test]
fn request_opens_new_order() {
    let o = order_from_request_at(request("u9"), "x".to_string(), 42);
    assert_eq!(o.id, "x");
    assert_eq!(o.user_id, "u9");
    assert_eq!(o.status, OrderStatus::New);
    assert_eq!(o.created_at, 42);
    assert_eq!(o.updated_at, 42);
    assert_eq!(f64::from_bits(o.price.to_bits()), 3450.0);
    assert_eq!(o.order_type, OrderType::Market);
    assert_eq!(o.side, OrderSide::Sell);
}

#[test]
fn request_opened_now_gets_fresh_id_and_time() {
    let o = order_from_request(request("u9")).unwrap();
    assert_eq!(o.id.len(), 36);
    assert!(o.created_at > 1_600_000_000);
    assert_eq!(o.created_at, o.updated_at);
}

#[test]
fn cancel_sets_status_and_time() {
    let mut s = OrderService::new();
    s.create_order(order("o1", "u1", OrderStatus::New)).unwrap();
    s.create_order(order("o2", "u1", OrderStatus::New)).unwrap();
    let c = s.cancel_order_at("o1", 500).unwrap();
    assert_eq!(c.status, OrderStatus::Canceled);
    assert_eq!(c.updated_at, 500);
    assert_eq!(c.created_at, 100);
    assert_eq!(s.get_order("o1").unwrap().status, OrderStatus::Canceled);
    assert_eq!(s.get_order("o2").unwrap().status, OrderStatus::New);
}

#[test]
fn cancel_twice_is_refused() {
    let mut s = OrderService::new();
    s.create_order(order("o1", "u1", OrderStatus::PartiallyFilled)).unwrap();
    s.cancel_order("o1").unwrap();
    let e = s.cancel_order("o1").unwrap_err();
    assert_eq!(message(&e), ("bad request", "Order is already canceled".to_string()));
}

#[test]
fn filled_order_cannot_be_canceled() {
    let mut s = OrderService::new();
    s.create_order(order("o1", "u1", OrderStatus::Filled)).unwrap();
    let e = s.cancel_order_at("o1", 7).unwrap_err();
    assert_eq!(message(&e), ("bad request", "Cannot cancel an already filled order".to_string()));
    let o = s.get_order("o1").unwrap();
    assert_eq!(o.status, OrderStatus::Filled);
    assert_eq!(o.updated_at, 100);
}

#[test]
fn cancel_unknown_order_is_not_found() {
    let mut s = OrderService::new();
    let e = s.cancel_order("missing").unwrap_err();
    assert_eq!(message(&e), ("not found", "Order not found: missing".to_string()));
}

#[test]
fn cancel_now_uses_the_clock() {
    let mut s = OrderService::new();
    s.create_order(order("o1", "u1", OrderStatus::New)).unwrap();
    let c = s.cancel_order("o1").unwrap();
    assert!(c.updated_at > 1_600_000_000);
}

#[test]
fn orders_filtered_by_user() {
    let mut s = OrderService::new();
    s.create_order(order("o1", "u1", OrderStatus::New)).unwrap();
    s.create_order(order("o2", "u2", OrderStatus::New)).unwrap();
    s.create_order(order("o3", "u1", OrderStatus::Filled)).unwrap();
    let u1 = "u1".to_string();
    let mine: Vec<String> = s.get_orders(Some(&u1)).unwrap().into_iter().map(|o| o.id).collect();
    assert_eq!(mine, vec!["o1", "o3"]);
    let all: Vec<String> = s.get_orders(None).unwrap().into_iter().map(|o| o.id).collect();
    assert_eq!(all, vec!["o1", "o2", "o3"]);
    let none = "nobody".to_string();
    assert!(s.get_orders(Some(&none)).unwrap().is_empty());
}

#[test]
fn storing_same_id_replaces_order() {
    let mut s = OrderService::new();
    s.create_order(order("o1", "u1", OrderStatus::New)).unwrap();
    s.create_order(order("o1", "u2", OrderStatus::New)).unwrap();
    let all = s.get_orders(None).unwrap();
    assert_eq!(all.len(), 1);
    assert_eq!(all[0].user_id, "u2");
}
