//! What the HTTP endpoints decide before and after they call a service:
//! which query parameters count as given, and which status answers an
//! error.
use vstd::prelude::*;
use crate::error::{AppError, ErrorView};

verus! {

/// The endpoints of the four services.
#[derive(Clone, Copy, Debug, PartialEq, Eq, Structural)]
pub enum Endpoint {
    GetTrades,
    GetTrade,
    CreateOrder,
    GetOrder,
    GetOrders,
    CancelOrder,
    EvaluateOrder,
    GetUserRiskProfile,
    CreateUser,
    GetUser,
    GetUsers,
    DeleteUser,
}

/// The endpoint answers a `NotFound` with 404.
pub open spec fn reports_not_found(e: Endpoint) -> bool {
    match e {
        Endpoint::GetTrade | Endpoint::CreateOrder | Endpoint::GetOrder | Endpoint::CancelOrder
        | Endpoint::EvaluateOrder | Endpoint::GetUserRiskProfile | Endpoint::GetUser
        | Endpoint::DeleteUser => true,
        _ => false,
    }
}

/// The endpoint answers a `BadRequest` with 400.
pub open spec fn reports_bad_request(e: Endpoint) -> bool {
    match e {
        Endpoint::CreateOrder | Endpoint::CancelOrder | Endpoint::EvaluateOrder
        | Endpoint::CreateUser => true,
        _ => false,
    }
}

/// The status with which `endpoint` answers the error `err`: 404 or 400
/// where the endpoint reports that kind of error, 500 otherwise (and always
/// for an internal error).
pub open spec fn status_for(endpoint: Endpoint, err: ErrorView) -> u16 {
    match err {
        ErrorView::NotFound(_) => if reports_not_found(endpoint) {
            404
        } else {
            500
        },
        ErrorView::BadRequest(_) => if reports_bad_request(endpoint) {
            400
        } else {
            500
        },
        ErrorView::Internal(_) => 500,
    }
}

/// The status with which `endpoint` answers the error `err`.
pub fn error_status(endpoint: Endpoint, err: &AppError) -> (code: u16)
    ensures
        code == status_for(endpoint, err@),
{
    let not_found = match endpoint {
        Endpoint::GetTrade | Endpoint::CreateOrder | Endpoint::GetOrder | Endpoint::CancelOrder
        | Endpoint::EvaluateOrder | Endpoint::GetUserRiskProfile | Endpoint::GetUser
        | Endpoint::DeleteUser => true,
        _ => false,
    };
    let bad_request = match endpoint {
        Endpoint::CreateOrder | Endpoint::CancelOrder | Endpoint::EvaluateOrder
        | Endpoint::CreateUser => true,
        _ => false,
    };
    match err {
        AppError::NotFound(_) => if not_found {
            404
        } else {
            500
        },
        AppError::BadRequest(_) => if bad_request {
            400
        } else {
            500
        },
        AppError::Internal(_) => 500,
    }
}

/// A query parameter counts as given when it is not empty.
pub fn optional_param(value: String) -> (r: Option<String>)
    ensures
        value@.len() == 0 ==> r is None,
        value@.len() > 0 ==> r == Some(value),
{
    if value.as_str().is_empty() {
        None
    } else {
        Some(value)
    }
}

/// The status table of the endpoints: a missing record is answered with 404
/// by every endpoint that looks one up or acts on one, a refused request
/// with 400 by every endpoint that takes one, and anything else with 500.
pub proof fn law_status_table(m: Seq<char>)
    ensures
        status_for(Endpoint::GetTrade, ErrorView::NotFound(m)) == 404,
        status_for(Endpoint::CreateOrder, ErrorView::NotFound(m)) == 404,
        status_for(Endpoint::GetOrder, ErrorView::NotFound(m)) == 404,
        status_for(Endpoint::CancelOrder, ErrorView::NotFound(m)) == 404,
        status_for(Endpoint::EvaluateOrder, ErrorView::NotFound(m)) == 404,
        status_for(Endpoint::GetUserRiskProfile, ErrorView::NotFound(m)) == 404,
        status_for(Endpoint::GetUser, ErrorView::NotFound(m)) == 404,
        status_for(Endpoint::DeleteUser, ErrorView::NotFound(m)) == 404,
        status_for(Endpoint::GetTrades, ErrorView::NotFound(m)) == 500,
        status_for(Endpoint::GetOrders, ErrorView::NotFound(m)) == 500,
        status_for(Endpoint::CreateUser, ErrorView::NotFound(m)) == 500,
        status_for(Endpoint::GetUsers, ErrorView::NotFound(m)) == 500,
        status_for(Endpoint::CreateOrder, ErrorView::BadRequest(m)) == 400,
        status_for(Endpoint::CancelOrder, ErrorView::BadRequest(m)) == 400,
        status_for(Endpoint::EvaluateOrder, ErrorView::BadRequest(m)) == 400,
        status_for(Endpoint::CreateUser, ErrorView::BadRequest(m)) == 400,
        status_for(Endpoint::GetTrades, ErrorView::BadRequest(m)) == 500,
        status_for(Endpoint::GetTrade, ErrorView::BadRequest(m)) == 500,
        status_for(Endpoint::GetOrder, ErrorView::BadRequest(m)) == 500,
        status_for(Endpoint::GetOrders, ErrorView::BadRequest(m)) == 500,
        status_for(Endpoint::GetUserRiskProfile, ErrorView::BadRequest(m)) == 500,
        status_for(Endpoint::GetUser, ErrorView::BadRequest(m)) == 500,
        status_for(Endpoint::GetUsers, ErrorView::BadRequest(m)) == 500,
        status_for(Endpoint::DeleteUser, ErrorView::BadRequest(m)) == 500,
        forall|e: Endpoint| #[trigger] status_for(e, ErrorView::Internal(m)) == 500,
{
}

} // verus!
