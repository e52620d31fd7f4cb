use rust_exchange::api::{error_status, optional_param, Endpoint};
use rust_exchange::error::AppError;

#[test]
fn statuses_follow_endpoints() {
    let nf = AppError::NotFound("x".to_string());
    let br = AppError::BadRequest("x".to_string());
    assert_eq!(error_status(Endpoint::GetTrade, &nf), 404);
    assert_eq!(error_status(Endpoint::GetTrades, &nf), 500);
    assert_eq!(error_status(Endpoint::CreateUser, &br), 400);
    assert_eq!(error_status(Endpoint::CreateUser, &nf), 500);
    assert_eq!(error_status(Endpoint::CancelOrder, &br), 400);
    assert_eq!(error_status(Endpoint::CancelOrder, &nf), 404);
    assert_eq!(error_status(Endpoint::GetUser, &br), 500);
    assert_eq!(error_status(Endpoint::DeleteUser, &nf), 404);
    assert_eq!(error_status(Endpoint::EvaluateOrder, &br), 400);
    assert_eq!(error_status(Endpoint::GetUsers, &nf), 500);
    let internal = AppError::Internal("x".to_string());
    assert_eq!(error_status(Endpoint::GetTrade, &internal), 500);
    assert_eq!(error_status(Endpoint::CreateUser, &internal), 500);
}

#[test]
fn empty_parameter_counts_as_absent() {
    assert_eq!(optional_param(String::new()), None);
    assert_eq!(optional_param("o1".to_string()), Some("o1".to_string()));
}

#[test]
fn error_messages() {
    let e = AppError::not_found("Order not found: ", "7");
    assert_eq!(e.message(), "Order not found: 7");
    let b = AppError::bad_request("no");
    assert_eq!(b.message(), "no");
}

#[test]
fn unavailable_sources_have_fixed_messages() {
    assert_eq!(AppError::no_id().message(), "No random bytes for a new identifier");
    assert_eq!(AppError::no_clock().message(), "The system clock cannot be read");
}
