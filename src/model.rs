//! Rows of the persisted schema that the lifecycle and the ledger work on.

use vstd::prelude::*;

verus! {

/// A registered user. `created_at` (Unix seconds) decides promotion
/// eligibility.
#[derive(Debug, Clone)]
pub struct User {
    pub id: i32,
    pub username: String,
    pub email: String,
    pub created_at: i64,
}

/// What a signup hands to the store.
#[derive(Debug, Clone)]
pub struct NewUser {
    pub username: String,
    pub email: String,
}

/// A provisioned bot instance. `active` is 0 (inactive) or 1 (active);
/// billing accrues only while it is active.
#[derive(Debug, Clone)]
pub struct Instance {
    pub id: i32,
    pub user_id: i32,
    pub country_code: String,
    pub phone_number: String,
    pub active: i32,
    pub created_at: i64,
}

/// What a provisioning request hands to the store.
#[derive(Debug, Clone)]
pub struct NewInstance {
    pub user_id: i32,
    pub country_code: String,
    pub phone_number: String,
}

/// One continuous active window of an instance. `ended_at` is `None` while
/// the window is open, and `amount_cents` is 0 until it closes.
#[derive(Debug, Clone, Copy, PartialEq, Eq, Structural)]
pub struct BillingRecord {
    pub id: i32,
    pub instance_id: i32,
    pub user_id: i32,
    pub started_at: i64,
    pub ended_at: Option<i64>,
    pub amount_cents: i32,
}

/// The row that opens a billing window.
#[derive(Debug, Clone, Copy, PartialEq, Eq, Structural)]
pub struct NewBillingRecord {
    pub instance_id: i32,
    pub user_id: i32,
    pub started_at: i64,
}

impl Instance {
    /// The instance is billed while this holds.
    pub open spec fn is_active(&self) -> bool {
        self.active != 0
    }
}

impl BillingRecord {
    /// The window has not been closed yet.
    pub open spec fn is_open(&self) -> bool {
        self.ended_at.is_none()
    }
}

} // verus!
