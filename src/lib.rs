//! Instance lifecycle, billing ledger and dual-write orchestration for a
//! service that meters provisioned bot instances and bills them by the hour.
//!
//! - `charge`: the price of one billing window.
//! - `lifecycle`: whether an instance may be activated or deactivated, and
//!   the ledger writes that follow.
//! - `store`: users, instances and windows on which the lifecycle runs
//!   atomically, with at most one open window per instance.
//! - `ledger`: listings and totals over billing windows.
//! - `coordinator`: primary-then-mirror write decisions.
//! - `auth`, `token`, `ws`: session values, token lookup in request
//!   headers, and replies on the message channel.

pub mod auth;
pub mod charge;
pub mod coordinator;
pub mod ledger;
pub mod lifecycle;
pub mod model;
pub mod payment;
pub mod store;
pub mod text;
pub mod token;
pub mod ws;
