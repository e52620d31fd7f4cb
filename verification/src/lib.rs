//! Order, trade, user and risk bookkeeping for a small exchange, with the
//! rules of each service stated as contracts and proved.
pub mod amount;
pub mod error;
pub mod model;
pub mod system;
pub mod table;
pub mod user_service;
pub mod order_service;
pub mod exchange_service;
pub mod market;
pub mod risk_service;
pub mod api;
