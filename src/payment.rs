//! Results of the payment gateway that gates access-key activation. The
//! gateway itself is reached from outside this library.

use vstd::prelude::*;

verus! {

/// What a payment provider reports after attempting a charge.
#[derive(Debug, Clone)]
pub struct PaymentOutcome {
    pub success: bool,
    /// Short identifier of the provider (`"stripe"`, `"dummy"`).
    pub provider: String,
    pub message: String,
    pub transaction_id: Option<String>,
}

/// A provider that approves every charge; for development only.
#[derive(Debug, Clone, Copy)]
pub struct DummyPaymentProvider;

} // verus!
