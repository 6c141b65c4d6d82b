//! An in-memory store of users, instances and billing windows on which the
//! lifecycle runs atomically: each activation or deactivation applies both
//! of its writes or neither.

use vstd::prelude::*;
use crate::charge::{charge_of, lemma_charge_in_range};
use crate::lifecycle::{closable, plan_activate, plan_deactivate, LifecycleError, WindowClose};
use crate::model::{BillingRecord, Instance, NewInstance, NewUser, User};

verus! {

/// Some window of instance `instance_id` is still open.
pub open spec fn has_open_window(records: Seq<BillingRecord>, instance_id: int) -> bool {
    exists|j: int|
        0 <= j < records.len() && #[trigger] records[j].is_open() && records[j].instance_id == instance_id
}

/// The open window of instance `instance_id`, where there is one.
pub open spec fn open_window_index(records: Seq<BillingRecord>, instance_id: int) -> int {
    choose|j: int|
        0 <= j < records.len() && #[trigger] records[j].is_open() && records[j].instance_id == instance_id
}

/// No instance has two open windows.
pub open spec fn at_most_one_open(records: Seq<BillingRecord>) -> bool {
    forall|j: int, k: int|
        0 <= j < records.len() && 0 <= k < records.len() && #[trigger] records[j].is_open()
            && #[trigger] records[k].is_open() && records[j].instance_id == records[k].instance_id
            ==> j == k
}

/// `b` is `a` with its `active` flag set to `active`.
pub open spec fn with_active(a: Instance, b: Instance, active: int) -> bool {
    &&& b.id == a.id
    &&& b.user_id == a.user_id
    &&& b.country_code == a.country_code
    &&& b.phone_number == a.phone_number
    &&& b.created_at == a.created_at
    &&& b.active == active
}

/// `post` is `pre` with the instance at `idx` given the flag `active`.
pub open spec fn instances_with_active(pre: Seq<Instance>, post: Seq<Instance>, idx: int, active: int) -> bool {
    &&& post.len() == pre.len()
    &&& with_active(pre[idx], post[idx], active)
    &&& forall|k: int| 0 <= k < pre.len() && k != idx ==> post[k] == pre[k]
}

/// The window `w` closed at `now` with a charge of `cents`.
pub open spec fn closed_window(w: BillingRecord, now: int, cents: int) -> BillingRecord {
    BillingRecord {
        id: w.id,
        instance_id: w.instance_id,
        user_id: w.user_id,
        started_at: w.started_at,
        ended_at: Some(now as i64),
        amount_cents: cents as i32,
    }
}

/// Users, instances and billing windows. Rows are numbered from 1 in the
/// order they were added, as an autoincrement key would number them.
pub struct InstanceStore {
    pub users: Vec<User>,
    pub instances: Vec<Instance>,
    pub records: Vec<BillingRecord>,
}

impl InstanceStore {
    /// Keys follow positions, every row points at an existing owner, and
    /// an instance is active exactly when it has an open window, of which
    /// it never has two.
    pub open spec fn wf(&self) -> bool {
        &&& self.users@.len() <= i32::MAX
        &&& self.instances@.len() <= i32::MAX
        &&& self.records@.len() <= i32::MAX
        &&& forall|k: int| 0 <= k < self.users@.len() ==> (#[trigger] self.users@[k]).id == k + 1
        &&& forall|k: int|
            0 <= k < self.instances@.len() ==> (#[trigger] self.instances@[k]).id == k + 1
                && 1 <= self.instances@[k].user_id <= self.users@.len()
        &&& forall|k: int|
            0 <= k < self.records@.len() ==> (#[trigger] self.records@[k]).id == k + 1
                && 1 <= self.records@[k].instance_id <= self.instances@.len()
                && self.records@[k].user_id == self.instances@[self.records@[k].instance_id - 1].user_id
        &&& at_most_one_open(self.records@)
        &&& forall|k: int|
            0 <= k < self.instances@.len() ==> ((#[trigger] self.instances@[k]).is_active()
                <==> has_open_window(self.records@, k + 1))
    }

    pub open spec fn has_instance(&self, instance_id: int) -> bool {
        1 <= instance_id <= self.instances@.len()
    }

    pub open spec fn instance(&self, instance_id: int) -> Instance {
        self.instances@[instance_id - 1]
    }

    pub open spec fn owner(&self, instance_id: int) -> User {
        self.users@[self.instance(instance_id).user_id - 1]
    }

    /// What `activate` does: refuse an unknown or an active instance and
    /// change nothing, or mark the instance active and open a window at `now`.
    pub open spec fn activate_post(pre: Self, instance_id: int, now: int, post: Self, r: Result<(), LifecycleError>) -> bool {
        if !pre.has_instance(instance_id) {
            r == Err::<(), LifecycleError>(LifecycleError::NotFound) && post == pre
        } else if pre.instance(instance_id).is_active() {
            r == Err::<(), LifecycleError>(LifecycleError::Conflict) && post == pre
        } else {
            &&& r == Ok::<(), LifecycleError>(())
            &&& post.users@ == pre.users@
            &&& instances_with_active(pre.instances@, post.instances@, instance_id - 1, 1)
            &&& post.records@ == pre.records@.push(
                BillingRecord {
                    id: (pre.records@.len() + 1) as i32,
                    instance_id: instance_id as i32,
                    user_id: pre.instance(instance_id).user_id,
                    started_at: now as i64,
                    ended_at: None,
                    amount_cents: 0,
                },
            )
        }
    }

    /// What `deactivate` does: refuse an unknown or an inactive instance,
    /// or a window that cannot be charged at `now`, and change nothing; or
    /// close the open window with its charge, mark the instance inactive,
    /// and return the charge.
    pub open spec fn deactivate_post(pre: Self, instance_id: int, now: int, post: Self, r: Result<i32, LifecycleError>) -> bool {
        let j = open_window_index(pre.records@, instance_id);
        let w = pre.records@[j];
        if !pre.has_instance(instance_id) {
            r == Err::<i32, LifecycleError>(LifecycleError::NotFound) && post == pre
        } else if !pre.instance(instance_id).is_active() {
            r == Err::<i32, LifecycleError>(LifecycleError::Conflict) && post == pre
        } else if !closable(w.started_at as int, now) {
            r == Err::<i32, LifecycleError>(LifecycleError::Inconsistent) && post == pre
        } else {
            let cents = charge_of(now - w.started_at, pre.owner(instance_id).created_at as int, w.started_at as int);
            &&& r == Ok::<i32, LifecycleError>(cents as i32)
            &&& post.users@ == pre.users@
            &&& instances_with_active(pre.instances@, post.instances@, instance_id - 1, 0)
            &&& post.records@ == pre.records@.update(j, closed_window(w, now, cents))
        }
    }

    /// An empty store.
    pub fn new() -> (s: Self)
        ensures
            s.wf(),
            s.users@.len() == 0,
            s.instances@.len() == 0,
            s.records@.len() == 0,
    {
        InstanceStore { users: Vec::new(), instances: Vec::new(), records: Vec::new() }
    }

    /// Registers a user at time `now`; the result is the new user's key.
    pub fn add_user(&mut self, new_user: NewUser, now: i64) -> (id: i32)
        requires
            old(self).wf(),
            old(self).users@.len() < i32::MAX,
        ensures
            final(self).wf(),
            id == old(self).users@.len() + 1,
            final(self).users@ == old(self).users@.push(
                User { id, username: new_user.username, email: new_user.email, created_at: now },
            ),
            final(self).instances@ == old(self).instances@,
            final(self).records@ == old(self).records@,
    {
        let id = (self.users.len() + 1) as i32;
        self.users.push(User { id, username: new_user.username, email: new_user.email, created_at: now });
        id
    }

    /// Provisions an inactive instance for an existing user at time `now`;
    /// the result is the new instance's key.
    pub fn create_instance(&mut self, new_instance: NewInstance, now: i64) -> (r: Result<i32, LifecycleError>)
        requires
            old(self).wf(),
            old(self).instances@.len() < i32::MAX,
        ensures
            final(self).wf(),
            !(1 <= new_instance.user_id <= old(self).users@.len()) ==> r == Err::<i32, LifecycleError>(
                LifecycleError::NotFound,
            ) && *final(self) == *old(self),
            1 <= new_instance.user_id <= old(self).users@.len() ==> {
                &&& r == Ok::<i32, LifecycleError>((old(self).instances@.len() + 1) as i32)
                &&& final(self).users@ == old(self).users@
                &&& final(self).records@ == old(self).records@
                &&& final(self).instances@ == old(self).instances@.push(
                    Instance {
                        id: (old(self).instances@.len() + 1) as i32,
                        user_id: new_instance.user_id,
                        country_code: new_instance.country_code,
                        phone_number: new_instance.phone_number,
                        active: 0,
                        created_at: now,
                    },
                )
            },
    {
        if new_instance.user_id < 1 || new_instance.user_id as usize > self.users.len() {
            return Err(LifecycleError::NotFound);
        }
        let id = (self.instances.len() + 1) as i32;
        self.instances.push(
            Instance {
                id,
                user_id: new_instance.user_id,
                country_code: new_instance.country_code,
                phone_number: new_instance.phone_number,
                active: 0,
                created_at: now,
            },
        );
        assert(!has_open_window(self.records@, id as int));
        Ok(id)
    }

    /// Position of the open window of `instance_id`, if it has one.
    pub fn find_open_window(&self, instance_id: i32) -> (r: Option<usize>)
        requires
            self.wf(),
        ensures
            r.is_none() <==> !has_open_window(self.records@, instance_id as int),
            r matches Some(j) ==> j == open_window_index(self.records@, instance_id as int)
                && self.records@[j as int].is_open()
                && self.records@[j as int].instance_id == instance_id,
    {
        let mut j: usize = 0;
        while j < self.records.len()
            invariant
                self.wf(),
                0 <= j <= self.records@.len(),
                forall|k: int|
                    0 <= k < j ==> !(#[trigger] self.records@[k].is_open() && self.records@[k].instance_id
                        == instance_id),
            decreases self.records@.len() - j,
        {
            if self.records[j].ended_at.is_none() && self.records[j].instance_id == instance_id {
                proof {
                    assert(self.records@[j as int].is_open());
                    assert(has_open_window(self.records@, instance_id as int));
                    let c = open_window_index(self.records@, instance_id as int);
                    assert(self.records@[c].is_open() && self.records@[c].instance_id == instance_id);
                }
                return Some(j);
            }
            j += 1;
        }
        None
    }

    /// Activates an inactive instance at time `now`: marks it active and
    /// opens its billing window, both or neither.
    pub fn activate(&mut self, instance_id: i32, now: i64) -> (r: Result<(), LifecycleError>)
        requires
            old(self).wf(),
            old(self).records@.len() < i32::MAX,
        ensures
            final(self).wf(),
            Self::activate_post(*old(self), instance_id as int, now as int, *final(self), r),
    {
        let found = if 1 <= instance_id && instance_id as usize <= self.instances.len() {
            Some(&self.instances[(instance_id - 1) as usize])
        } else {
            None
        };
        let opened = match plan_activate(found, now) {
            Ok(w) => w,
            Err(e) => { return Err(e); },
        };
        let idx = (instance_id - 1) as usize;
        let id = (self.records.len() + 1) as i32;
        let ghost pre = *self;
        self.instances[idx].active = 1;
        self.records.push(
            BillingRecord {
                id,
                instance_id: opened.instance_id,
                user_id: opened.user_id,
                started_at: opened.started_at,
                ended_at: None,
                amount_cents: 0,
            },
        );
        proof {
            let n = pre.records@.len() as int;
            assert(!has_open_window(pre.records@, instance_id as int)) by {
                assert(!pre.instances@[idx as int].is_active());
            };
            assert(self.records@[n].is_open());
            assert forall|j: int, k: int|
                0 <= j < self.records@.len() && 0 <= k < self.records@.len()
                    && #[trigger] self.records@[j].is_open() && #[trigger] self.records@[k].is_open()
                    && self.records@[j].instance_id == self.records@[k].instance_id implies j == k by {
                if j < n && k < n {
                    assert(pre.records@[j].is_open() && pre.records@[k].is_open());
                } else if j < n {
                    assert(pre.records@[j].is_open());
                } else if k < n {
                    assert(pre.records@[k].is_open());
                }
            };
            assert forall|k: int| 0 <= k < self.instances@.len() implies ((#[trigger] self.instances@[k]).is_active()
                <==> has_open_window(self.records@, k + 1)) by {
                if k == idx {
                    assert(self.records@[n].instance_id == k + 1);
                } else {
                    assert(pre.instances@[k].is_active() <==> has_open_window(pre.records@, k + 1));
                    if has_open_window(pre.records@, k + 1) {
                        let c = open_window_index(pre.records@, k + 1);
                        assert(self.records@[c].is_open());
                    }
                    if has_open_window(self.records@, k + 1) {
                        let c = open_window_index(self.records@, k + 1);
                        assert(c != n);
                        assert(pre.records@[c].is_open());
                    }
                }
            };
        }
        Ok(())
    }

    /// Deactivates an active instance at time `now`: closes its open window
    /// with the charge for the window's duration and marks the instance
    /// inactive, both or neither. The result is the charge in cents.
    pub fn deactivate(&mut self, instance_id: i32, now: i64) -> (r: Result<i32, LifecycleError>)
        requires
            old(self).wf(),
        ensures
            final(self).wf(),
            Self::deactivate_post(*old(self), instance_id as int, now as int, *final(self), r),
    {
        if instance_id < 1 || instance_id as usize > self.instances.len() {
            return Err(LifecycleError::NotFound);
        }
        let idx = (instance_id - 1) as usize;
        if self.instances[idx].active == 0 {
            return Err(LifecycleError::Conflict);
        }
        let j = match self.find_open_window(instance_id) {
            Some(j) => j,
            None => { return Err(LifecycleError::Inconsistent); },
        };
        let uidx = (self.instances[idx].user_id - 1) as usize;
        let close: WindowClose = match plan_deactivate(
            Some(&self.instances[idx]),
            Some(&self.users[uidx]),
            Some(&self.records[j]),
            now,
        ) {
            Ok(c) => c,
            Err(e) => { return Err(e); },
        };
        let ghost pre = *self;
        let w = self.records[j];
        self.records.set(
            j,
            BillingRecord {
                id: w.id,
                instance_id: w.instance_id,
                user_id: w.user_id,
                started_at: w.started_at,
                ended_at: Some(close.ended_at),
                amount_cents: close.amount_cents,
            },
        );
        self.instances[idx].active = 0;
        proof {
            assert(pre.records@[j as int].is_open());
            assert forall|a: int, b: int|
                0 <= a < self.records@.len() && 0 <= b < self.records@.len()
                    && #[trigger] self.records@[a].is_open() && #[trigger] self.records@[b].is_open()
                    && self.records@[a].instance_id == self.records@[b].instance_id implies a == b by {
                assert(pre.records@[a].is_open() && pre.records@[b].is_open());
            };
            assert forall|k: int| 0 <= k < self.instances@.len() implies ((#[trigger] self.instances@[k]).is_active()
                <==> has_open_window(self.records@, k + 1)) by {
                if k == idx {
                    if has_open_window(self.records@, k + 1) {
                        let c = open_window_index(self.records@, k + 1);
                        assert(c != j);
                        assert(pre.records@[c].is_open());
                    }
                } else {
                    assert(pre.instances@[k].is_active() <==> has_open_window(pre.records@, k + 1));
                    if has_open_window(pre.records@, k + 1) {
                        let c = open_window_index(pre.records@, k + 1);
                        assert(c != j);
                        assert(self.records@[c].is_open());
                    }
                    if has_open_window(self.records@, k + 1) {
                        let c = open_window_index(self.records@, k + 1);
                        assert(c != j);
                        assert(pre.records@[c].is_open());
                    }
                }
            };
        }
        Ok(close.amount_cents)
    }
}

/// In a well-formed store no two distinct billing windows of the same
/// instance are open at once.
pub proof fn lemma_no_two_open_windows(s: InstanceStore, j: int, k: int)
    requires
        s.wf(),
        0 <= j < s.records@.len(),
        0 <= k < s.records@.len(),
        j != k,
        s.records@[j].is_open(),
        s.records@[k].is_open(),
    ensures
        s.records@[j].instance_id != s.records@[k].instance_id,
{
}

/// Activating an instance that is already active is refused with
/// `Conflict` and leaves the store as it was: no second open window.
pub proof fn lemma_activate_twice_conflicts(
    s0: InstanceStore,
    s1: InstanceStore,
    s2: InstanceStore,
    instance_id: int,
    t1: int,
    t2: int,
    r1: Result<(), LifecycleError>,
    r2: Result<(), LifecycleError>,
)
    requires
        s0.wf(),
        InstanceStore::activate_post(s0, instance_id, t1, s1, r1),
        r1 is Ok,
        InstanceStore::activate_post(s1, instance_id, t2, s2, r2),
    ensures
        r2 == Err::<(), LifecycleError>(LifecycleError::Conflict),
        s2 == s1,
{
}

/// Activating an inactive instance at `t1` and deactivating it at `t2`
/// appends exactly one billing window, closed at `t2` and charged for
/// `t2 - t1` seconds at the owner's promotion status for a window that
/// opened at `t1`; the instance ends inactive and earlier windows are kept.
pub proof fn lemma_activate_then_deactivate(
    s0: InstanceStore,
    s1: InstanceStore,
    s2: InstanceStore,
    instance_id: int,
    t1: int,
    t2: int,
    r1: Result<(), LifecycleError>,
    r2: Result<i32, LifecycleError>,
)
    requires
        s0.wf(),
        s1.wf(),
        s0.has_instance(instance_id),
        !s0.instance(instance_id).is_active(),
        i64::MIN <= t1 <= i64::MAX,
        closable(t1, t2),
        InstanceStore::activate_post(s0, instance_id, t1, s1, r1),
        InstanceStore::deactivate_post(s1, instance_id, t2, s2, r2),
    ensures
        ({
            let n = s0.records@.len() as int;
            let cents = charge_of(t2 - t1, s0.owner(instance_id).created_at as int, t1);
            &&& r1 is Ok
            &&& r2 == Ok::<i32, LifecycleError>(cents as i32)
            &&& s2.records@.len() == n + 1
            &&& s2.records@.subrange(0, n) == s0.records@
            &&& s2.records@[n].instance_id == instance_id
            &&& s2.records@[n].started_at == t1
            &&& s2.records@[n].ended_at == Some(t2 as i64)
            &&& s2.records@[n].amount_cents == cents
            &&& !s2.instance(instance_id).is_active()
        }),
{
    let n = s0.records@.len() as int;
    assert(s1.records@[n].is_open() && s1.records@[n].instance_id == instance_id);
    assert(has_open_window(s1.records@, instance_id));
    let j = open_window_index(s1.records@, instance_id);
    assert(s1.records@[j].is_open());
    assert(j == n);
    assert(s1.owner(instance_id) == s0.owner(instance_id));
    lemma_charge_in_range(t2 - t1, s0.owner(instance_id).created_at as int, t1);
    assert(s2.records@.subrange(0, n) =~= s0.records@);
}

} // verus!
