//! The decisions of the instance lifecycle: whether an instance may be
//! activated or deactivated, and which ledger writes follow.

use vstd::prelude::*;
use crate::charge::{calculate_charge_cents, charge_of, MAX_CHARGEABLE_SECS};
use crate::model::{BillingRecord, Instance, NewBillingRecord, User};

verus! {

/// Why a lifecycle operation was refused.
#[derive(Debug, Clone, Copy, PartialEq, Eq, Structural)]
pub enum LifecycleError {
    /// The instance (or another addressed row) does not exist.
    NotFound,
    /// The instance is already in the requested state.
    Conflict,
    /// Stored state breaks an invariant: no open window for an active
    /// instance, a missing owner, or a window that ends before it starts.
    Inconsistent,
}

impl LifecycleError {
    /// The HTTP status that reports this error.
    pub fn status_code(&self) -> (r: u16)
        ensures
            *self == LifecycleError::NotFound ==> r == 404,
            *self == LifecycleError::Conflict ==> r == 409,
            *self == LifecycleError::Inconsistent ==> r == 500,
    {
        match self {
            LifecycleError::NotFound => 404,
            LifecycleError::Conflict => 409,
            LifecycleError::Inconsistent => 500,
        }
    }
}

/// The writes that close a billing window.
#[derive(Debug, Clone, Copy, PartialEq, Eq, Structural)]
pub struct WindowClose {
    pub record_id: i32,
    pub ended_at: i64,
    pub amount_cents: i32,
}

/// A window that opened at `started_at` can be closed at `now` and charged.
pub open spec fn closable(started_at: int, now: int) -> bool {
    started_at <= now && now - started_at <= MAX_CHARGEABLE_SECS
}

/// Decides an activation from the instance as read (`None`: no such row).
/// On success the result is the billing window to open, starting `now`.
pub fn plan_activate(instance: Option<&Instance>, now: i64) -> (r: Result<NewBillingRecord, LifecycleError>)
    ensures
        instance.is_none() ==> r == Err::<NewBillingRecord, LifecycleError>(LifecycleError::NotFound),
        instance.is_some() && instance.unwrap().is_active() ==> r == Err::<NewBillingRecord, LifecycleError>(LifecycleError::Conflict),
        instance.is_some() && !instance.unwrap().is_active() ==> r == Ok::<NewBillingRecord, LifecycleError>(
            (NewBillingRecord {
                instance_id: instance.unwrap().id,
                user_id: instance.unwrap().user_id,
                started_at: now,
            }),
        ),
{
    match instance {
        None => Err(LifecycleError::NotFound),
        Some(inst) => {
            if inst.active != 0 {
                Err(LifecycleError::Conflict)
            } else {
                Ok(NewBillingRecord { instance_id: inst.id, user_id: inst.user_id, started_at: now })
            }
        },
    }
}

/// Decides a deactivation from the rows as read: the instance, its owner
/// and the open window found for it. On success the result closes that
/// window at `now` with the charge for its duration.
pub fn plan_deactivate(
    instance: Option<&Instance>,
    owner: Option<&User>,
    open_window: Option<&BillingRecord>,
    now: i64,
) -> (r: Result<WindowClose, LifecycleError>)
    ensures
        instance.is_none() ==> r == Err::<WindowClose, LifecycleError>(LifecycleError::NotFound),
        instance.is_some() && !instance.unwrap().is_active() ==> r == Err::<WindowClose, LifecycleError>(LifecycleError::Conflict),
        instance.is_some() && instance.unwrap().is_active() ==> {
            let inst = instance.unwrap();
            if owner.is_some() && owner.unwrap().id == inst.user_id && open_window.is_some()
                && open_window.unwrap().is_open() && open_window.unwrap().instance_id == inst.id
                && closable(open_window.unwrap().started_at as int, now as int) {
                let w = open_window.unwrap();
                r == Ok::<WindowClose, LifecycleError>(
                    (WindowClose {
                        record_id: w.id,
                        ended_at: now,
                        amount_cents: charge_of(
                            now - w.started_at,
                            owner.unwrap().created_at as int,
                            w.started_at as int,
                        ) as i32,
                    }),
                )
            } else {
                r == Err::<WindowClose, LifecycleError>(LifecycleError::Inconsistent)
            }
        },
        r matches Ok(c) ==> 0 <= c.amount_cents,
{
    let inst = match instance {
        None => { return Err(LifecycleError::NotFound); },
        Some(i) => i,
    };
    if inst.active == 0 {
        return Err(LifecycleError::Conflict);
    }
    let user = match owner {
        Some(u) if u.id == inst.user_id => u,
        _ => { return Err(LifecycleError::Inconsistent); },
    };
    let window = match open_window {
        Some(w) if w.ended_at.is_none() && w.instance_id == inst.id => w,
        _ => { return Err(LifecycleError::Inconsistent); },
    };
    if now < window.started_at || (now as i128) - (window.started_at as i128) > MAX_CHARGEABLE_SECS as i128 {
        return Err(LifecycleError::Inconsistent);
    }
    let duration = now - window.started_at;
    let charge = calculate_charge_cents(duration, user.created_at, window.started_at);
    Ok(WindowClose { record_id: window.id, ended_at: now, amount_cents: charge })
}

} // verus!
