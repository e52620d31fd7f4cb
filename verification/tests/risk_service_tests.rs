use rust_exchange::amount::Amount;
use rust_exchange::error::AppError;
use rust_exchange::model::RiskLevel;
use rust_exchange::risk_service::{RiskRejection, RiskService, DEFAULT_MAX_ORDER_VALUE_BITS};

fn amt(x: f64) -> Amount {
    Amount::from_bits(x.to_bits())
}

fn val(a: Amount) -> f64 {
    f64::from_bits(a.to_bits())
}

#[test]
fn sample_profiles() {
    let s = RiskService::seeded(1, 2, 3);
    let p1 = s.get_user_risk_profile("user1").unwrap();
    assert_eq!(p1.risk_level, RiskLevel::Low);
    assert_eq!(val(p1.max_order_value), 10000.0);
    assert_eq!(val(p1.max_daily_volume), 50000.0);
    assert_eq!(p1.updated_at, 1);
    let p2 = s.get_user_risk_profile("user2").unwrap();
    assert_eq!(p2.risk_level, RiskLevel::Medium);
    assert_eq!(val(p2.max_order_value), 5000.0);
    assert_eq!(val(p2.max_daily_volume), 20000.0);
    let p3 = s.get_user_risk_profile("user3").unwrap();
    assert_eq!(p3.risk_level, RiskLevel::High);
    assert_eq!(val(p3.max_order_value), 1000.0);
    assert_eq!(val(p3.max_daily_volume), 5000.0);
    assert_eq!(p3.updated_at, 3);
}

#[test]
fn new_stamps_profiles_now() {
    let s = RiskService::new().unwrap();
    assert!(s.get_user_risk_profile("user2").unwrap().updated_at > 1_600_000_000);
}

#[test]
fn default_limit_is_five_thousand() {
    assert_eq!(f64::from_bits(DEFAULT_MAX_ORDER_VALUE_BITS), 5000.0);
}

#[test]
fn missing_profile_not_found() {
    let s = RiskService::seeded(0, 0, 0);
    match s.get_user_risk_profile("user4").unwrap_err() {
        AppError::NotFound(m) => assert_eq!(m, "Risk profile not found for user: user4"),
        AppError::BadRequest(m) | AppError::Internal(m) => panic!("{}", m),
    }
}

#[test]
fn profile_limit_applies() {
    let s = RiskService::seeded(0, 0, 0);
    let (ok, reason, level) = s.evaluate_order("user3", amt(1000.0)).unwrap();
    assert!(ok);
    assert!(reason.is_none());
    assert_eq!(level, Some(RiskLevel::High));
    let (ok, reason, level) = s.evaluate_order("user3", amt(1000.5)).unwrap();
    assert!(!ok);
    match reason {
        Some(RiskRejection::ExceedsUserLimit { order_value, max_order_value }) => {
            assert_eq!(val(order_value), 1000.5);
            assert_eq!(val(max_order_value), 1000.0);
        }
        other => panic!("{:?}", other),
    }
    assert_eq!(level, Some(RiskLevel::High));
}

#[test]
fn default_limit_applies_without_profile() {
    let s = RiskService::seeded(0, 0, 0);
    let (ok, reason, level) = s.evaluate_order("stranger", amt(5000.0)).unwrap();
    assert!(ok);
    assert!(reason.is_none());
    assert_eq!(level, Some(RiskLevel::Medium));
    let (ok, reason, _) = s.evaluate_order("stranger", amt(5000.01)).unwrap();
    assert!(!ok);
    assert!(matches!(reason, Some(RiskRejection::ExceedsDefaultLimit)));
}

#[test]
fn nan_value_without_profile_is_refused_without_reason() {
    let s = RiskService::seeded(0, 0, 0);
    let (ok, reason, level) = s.evaluate_order("stranger", amt(f64::NAN)).unwrap();
    assert!(!ok);
    assert!(reason.is_none());
    assert_eq!(level, Some(RiskLevel::Medium));
}

#[test]
fn nan_value_with_profile_is_approved() {
    let s = RiskService::seeded(0, 0, 0);
    let (ok, reason, _) = s.evaluate_order("user1", amt(f64::NAN)).unwrap();
    assert!(ok);
    assert!(reason.is_none());
}

#[test]
fn lowering_an_approved_value_keeps_it_approved() {
    let s = RiskService::seeded(0, 0, 0);
    for user in ["user1", "user2", "user3", "stranger"] {
        let mut last_ok = true;
        for v in [-1.0, 0.0, 10.0, 999.0, 1000.0, 4000.0, 5000.0, 9000.0, 10000.0, 20000.0, f64::INFINITY] {
            let (ok, _, _) = s.evaluate_order(user, amt(v)).unwrap();
            // once refused, every higher value is refused too
            assert!(last_ok || !ok, "{} at {}", user, v);
            last_ok = ok;
        }
    }
}

#[test]
fn default_limit_reason_text() {
    assert_eq!(
        RiskRejection::ExceedsDefaultLimit.fixed_text(),
        Some("Order value exceeds default limit of 5000.0".to_string())
    );
    let r = RiskRejection::ExceedsUserLimit { order_value: amt(2.0), max_order_value: amt(1.0) };
    assert_eq!(r.fixed_text(), None);
}
