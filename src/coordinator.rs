//! Dual-write decisions: every mutating statement runs against the primary
//! store; where a secondary store is connected the same statement is then
//! mirrored to it, best effort. The secondary's outcome never reaches the
//! caller, and nothing keeps the two stores consistent: the secondary must
//! never be read where correctness matters.
//!
//! The statements themselves run outside this module; it decides whether
//! to mirror and what the caller is told.

use vstd::prelude::*;

verus! {

/// Seconds between two liveness statements sent through the coordinator.
pub const HEARTBEAT_INTERVAL_SECS: u64 = 5;

/// A backend's report that a statement failed.
#[derive(Debug, Clone, PartialEq, Eq)]
pub struct StoreError {
    pub message: String,
}

/// Whether writes are mirrored. Decided once at startup: a secondary that is
/// not configured, or not reachable then, leaves the process primary-only.
#[derive(Debug, Clone, Copy, PartialEq, Eq, Structural)]
pub enum MirrorMode {
    PrimaryOnly,
    Mirrored,
}

/// What the coordinator remembers between writes.
#[derive(Debug, Clone, Copy, PartialEq, Eq, Structural)]
pub struct DualWriteCoordinator {
    pub mode: MirrorMode,
    /// Mirrored statements that the secondary rejected (saturating).
    pub secondary_failures: u64,
}

impl DualWriteCoordinator {
    /// What `complete` does: the caller gets the primary's result unchanged,
    /// and a failed mirror is counted.
    pub open spec fn complete_post(
        pre: Self,
        primary: Result<usize, StoreError>,
        secondary: Option<Result<usize, StoreError>>,
        post: Self,
        r: Result<usize, StoreError>,
    ) -> bool {
        &&& r == primary
        &&& post.mode == pre.mode
        &&& post.secondary_failures == if secondary matches Some(Err(_)) && pre.secondary_failures < u64::MAX {
            pre.secondary_failures + 1
        } else {
            pre.secondary_failures as int
        }
    }

    /// A coordinator for a process whose secondary store was (`true`) or was
    /// not reached at startup.
    pub fn new(secondary_connected: bool) -> (c: Self)
        ensures
            c.mode == (if secondary_connected { MirrorMode::Mirrored } else { MirrorMode::PrimaryOnly }),
            c.secondary_failures == 0,
    {
        let mode = if secondary_connected { MirrorMode::Mirrored } else { MirrorMode::PrimaryOnly };
        DualWriteCoordinator { mode, secondary_failures: 0 }
    }

    /// Whether the statement is to be mirrored, given the primary's result:
    /// only after the primary succeeded, and only where a secondary is connected.
    pub fn should_mirror(&self, primary: &Result<usize, StoreError>) -> (b: bool)
        ensures
            b == (primary is Ok && self.mode == MirrorMode::Mirrored),
    {
        match primary {
            Ok(_) => self.mode == MirrorMode::Mirrored,
            Err(_) => false,
        }
    }

    /// Ends one write: `primary` is the primary's result, `secondary` the
    /// mirror's where one was attempted. The caller gets the primary's result.
    pub fn complete(
        &mut self,
        primary: Result<usize, StoreError>,
        secondary: Option<Result<usize, StoreError>>,
    ) -> (r: Result<usize, StoreError>)
        ensures
            Self::complete_post(*old(self), primary, secondary, *final(self), r),
    {
        if let Some(Err(_)) = secondary {
            if self.secondary_failures < u64::MAX {
                self.secondary_failures = self.secondary_failures + 1;
            }
        }
        primary
    }
}

/// A primary failure reaches the caller even when the secondary is healthy,
/// and a failure of the secondary alone leaves the caller's result as the
/// primary gave it.
pub proof fn lemma_primary_alone_decides(
    pre: DualWriteCoordinator,
    primary: Result<usize, StoreError>,
    secondary: Option<Result<usize, StoreError>>,
    post: DualWriteCoordinator,
    r: Result<usize, StoreError>,
)
    requires
        DualWriteCoordinator::complete_post(pre, primary, secondary, post, r),
    ensures
        primary matches Err(e) ==> r == Err::<usize, StoreError>(e),
        primary matches Ok(n) ==> r == Ok::<usize, StoreError>(n),
        secondary matches Some(Err(_)) && primary is Ok ==> r is Ok,
{
}

} // verus!
