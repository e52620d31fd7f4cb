//! The records the services keep.
use vstd::prelude::*;
use crate::amount::Amount;
use crate::table::Record;

verus! {

/// How an order is priced.
#[derive(Clone, Copy, Debug, PartialEq, Eq, Structural)]
pub enum OrderType {
    Market,
    Limit,
}

/// Which way an order trades.
#[derive(Clone, Copy, Debug, PartialEq, Eq, Structural)]
pub enum OrderSide {
    Buy,
    Sell,
}

/// Where an order stands.
#[derive(Clone, Copy, Debug, PartialEq, Eq, Structural)]
pub enum OrderStatus {
    New,
    PartiallyFilled,
    Filled,
    Canceled,
}

/// How risky a user's trading is judged to be.
#[derive(Clone, Copy, Debug, PartialEq, Eq, Structural)]
pub enum RiskLevel {
    Low,
    Medium,
    High,
}

/// An order placed by a user.
#[derive(Debug)]
pub struct Order {
    pub id: String,
    pub user_id: String,
    pub symbol: String,
    pub order_type: OrderType,
    pub side: OrderSide,
    pub price: Amount,
    pub quantity: Amount,
    pub status: OrderStatus,
    pub created_at: i64,
    pub updated_at: i64,
}

/// A trade made for an order.
#[derive(Debug)]
pub struct Trade {
    pub id: String,
    pub order_id: String,
    pub price: Amount,
    pub quantity: Amount,
    pub commission: Amount,
    pub created_at: i64,
}

/// A user account.
#[derive(Debug)]
pub struct User {
    pub id: String,
    pub username: String,
    pub email: String,
}

/// The limits that apply to one user's orders.
#[derive(Debug)]
pub struct RiskEvaluation {
    pub user_id: String,
    pub risk_level: RiskLevel,
    pub max_order_value: Amount,
    pub max_daily_volume: Amount,
    pub updated_at: i64,
}

impl Record for Order {
    open spec fn key(&self) -> Seq<char> {
        self.id@
    }

    fn key_string(&self) -> (k: &String) {
        &self.id
    }

    fn duplicate(&self) -> (r: Self) {
        Order {
            id: self.id.clone(),
            user_id: self.user_id.clone(),
            symbol: self.symbol.clone(),
            order_type: self.order_type,
            side: self.side,
            price: self.price,
            quantity: self.quantity,
            status: self.status,
            created_at: self.created_at,
            updated_at: self.updated_at,
        }
    }
}

impl Record for Trade {
    open spec fn key(&self) -> Seq<char> {
        self.id@
    }

    fn key_string(&self) -> (k: &String) {
        &self.id
    }

    fn duplicate(&self) -> (r: Self) {
        Trade {
            id: self.id.clone(),
            order_id: self.order_id.clone(),
            price: self.price,
            quantity: self.quantity,
            commission: self.commission,
            created_at: self.created_at,
        }
    }
}

impl Record for User {
    open spec fn key(&self) -> Seq<char> {
        self.id@
    }

    fn key_string(&self) -> (k: &String) {
        &self.id
    }

    fn duplicate(&self) -> (r: Self) {
        User { id: self.id.clone(), username: self.username.clone(), email: self.email.clone() }
    }
}

impl Record for RiskEvaluation {
    open spec fn key(&self) -> Seq<char> {
        self.user_id@
    }

    fn key_string(&self) -> (k: &String) {
        &self.user_id
    }

    fn duplicate(&self) -> (r: Self) {
        RiskEvaluation {
            user_id: self.user_id.clone(),
            risk_level: self.risk_level,
            max_order_value: self.max_order_value,
            max_daily_volume: self.max_daily_volume,
            updated_at: self.updated_at,
        }
    }
}

} // verus!
