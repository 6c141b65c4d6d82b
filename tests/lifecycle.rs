use orsta::charge::{calculate_charge_cents, MAX_CHARGEABLE_SECS, PROMOTION_DURATION_SECS};
use orsta::lifecycle::{plan_activate, plan_deactivate, LifecycleError, WindowClose};
use orsta::model::{BillingRecord, Instance, NewInstance, NewUser, User};
use orsta::store::InstanceStore;

const T0: i64 = 1_700_000_000;

fn store_with_instance(user_created_at: i64) -> (InstanceStore, i32) {
    let mut store = InstanceStore::new();
    let uid = store.add_user(
        NewUser { username: "ada".to_string(), email: "ada@example.com".to_string() },
        user_created_at,
    );
    let iid = store
        .create_instance(
            NewInstance { user_id: uid, country_code: "US".to_string(), phone_number: "+15550001234".to_string() },
            user_created_at,
        )
        .unwrap();
    (store, iid)
}

fn open_windows(store: &InstanceStore, instance_id: i32) -> usize {
    store.records.iter().filter(|r| r.instance_id == instance_id && r.ended_at.is_none()).count()
}

#[test]
fn new_instance_is_inactive() {
    let (store, iid) = store_with_instance(T0);
    assert_eq!(iid, 1);
    assert_eq!(store.instances[0].active, 0);
    assert!(store.records.is_empty());
}

#[test]
fn create_instance_for_unknown_user_is_not_found() {
    let mut store = InstanceStore::new();
    let r = store.create_instance(
        NewInstance { user_id: 7, country_code: "US".to_string(), phone_number: "1".to_string() },
        T0,
    );
    assert_eq!(r, Err(LifecycleError::NotFound));
    assert!(store.instances.is_empty());
}

#[test]
fn activate_then_deactivate_closes_one_window() {
    let (mut store, iid) = store_with_instance(T0 - 1);
    assert_eq!(store.activate(iid, T0), Ok(()));
    assert_eq!(store.instances[0].active, 1);
    assert_eq!(open_windows(&store, iid), 1);
    let charge = store.deactivate(iid, T0 + 3_600).unwrap();
    assert_eq!(charge, 34);
    assert_eq!(store.instances[0].active, 0);
    assert_eq!(store.records.len(), 1);
    let rec = store.records[0];
    assert_eq!(rec.started_at, T0);
    assert_eq!(rec.ended_at, Some(T0 + 3_600));
    assert_eq!(rec.amount_cents, calculate_charge_cents(3_600, T0 - 1, T0));
    assert_eq!(open_windows(&store, iid), 0);
}

#[test]
fn cycles_without_promotion_charge_full_rate() {
    let (mut store, iid) = store_with_instance(T0 - PROMOTION_DURATION_SECS - 1);
    store.activate(iid, T0).unwrap();
    assert_eq!(store.deactivate(iid, T0 + 1_800), Ok(24));
    store.activate(iid, T0 + 2_000).unwrap();
    assert_eq!(store.deactivate(iid, T0 + 5_600), Ok(48));
    assert_eq!(store.records.len(), 2);
    assert_eq!(store.records[1].id, 2);
    assert_eq!(open_windows(&store, iid), 0);
}

#[test]
fn double_activate_conflicts_and_changes_nothing() {
    let (mut store, iid) = store_with_instance(T0);
    store.activate(iid, T0).unwrap();
    let records_before = store.records.clone();
    assert_eq!(store.activate(iid, T0 + 10), Err(LifecycleError::Conflict));
    assert_eq!(store.records, records_before);
    assert_eq!(open_windows(&store, iid), 1);
    assert_eq!(store.instances[0].active, 1);
}

#[test]
fn deactivate_inactive_conflicts() {
    let (mut store, iid) = store_with_instance(T0);
    assert_eq!(store.deactivate(iid, T0), Err(LifecycleError::Conflict));
    assert!(store.records.is_empty());
}

#[test]
fn unknown_instance_is_not_found() {
    let (mut store, _) = store_with_instance(T0);
    assert_eq!(store.activate(2, T0), Err(LifecycleError::NotFound));
    assert_eq!(store.activate(0, T0), Err(LifecycleError::NotFound));
    assert_eq!(store.deactivate(-3, T0), Err(LifecycleError::NotFound));
    assert!(store.records.is_empty());
}

#[test]
fn deactivate_before_window_start_is_inconsistent() {
    let (mut store, iid) = store_with_instance(T0);
    store.activate(iid, T0).unwrap();
    assert_eq!(store.deactivate(iid, T0 - 1), Err(LifecycleError::Inconsistent));
    assert_eq!(store.instances[0].active, 1);
    assert_eq!(open_windows(&store, iid), 1);
    assert_eq!(store.deactivate(iid, T0 + MAX_CHARGEABLE_SECS + 1), Err(LifecycleError::Inconsistent));
}

#[test]
fn two_instances_keep_separate_windows() {
    let (mut store, a) = store_with_instance(T0);
    let b = store
        .create_instance(NewInstance { user_id: 1, country_code: "DE".to_string(), phone_number: "2".to_string() }, T0)
        .unwrap();
    store.activate(a, T0).unwrap();
    store.activate(b, T0 + 5).unwrap();
    assert_eq!(open_windows(&store, a), 1);
    assert_eq!(open_windows(&store, b), 1);
    store.deactivate(a, T0 + 75).unwrap();
    assert_eq!(open_windows(&store, a), 0);
    assert_eq!(open_windows(&store, b), 1);
    assert_eq!(store.instances[1].active, 1);
}

#[test]
fn error_status_codes() {
    assert_eq!(LifecycleError::NotFound.status_code(), 404);
    assert_eq!(LifecycleError::Conflict.status_code(), 409);
    assert_eq!(LifecycleError::Inconsistent.status_code(), 500);
}

fn instance(active: i32) -> Instance {
    Instance {
        id: 4,
        user_id: 9,
        country_code: "US".to_string(),
        phone_number: "1".to_string(),
        active,
        created_at: T0,
    }
}

fn user() -> User {
    User { id: 9, username: "u".to_string(), email: "u@x".to_string(), created_at: T0 - 1 }
}

fn window(instance_id: i32, ended_at: Option<i64>) -> BillingRecord {
    BillingRecord { id: 12, instance_id, user_id: 9, started_at: T0, ended_at, amount_cents: 0 }
}

#[test]
fn plan_activate_cases() {
    assert_eq!(plan_activate(None, T0), Err(LifecycleError::NotFound));
    assert_eq!(plan_activate(Some(&instance(1)), T0), Err(LifecycleError::Conflict));
    let w = plan_activate(Some(&instance(0)), T0).unwrap();
    assert_eq!((w.instance_id, w.user_id, w.started_at), (4, 9, T0));
}

#[test]
fn plan_deactivate_cases() {
    let u = user();
    let open = window(4, None);
    assert_eq!(plan_deactivate(None, Some(&u), Some(&open), T0), Err(LifecycleError::NotFound));
    assert_eq!(plan_deactivate(Some(&instance(0)), Some(&u), Some(&open), T0), Err(LifecycleError::Conflict));
    assert_eq!(plan_deactivate(Some(&instance(1)), Some(&u), None, T0), Err(LifecycleError::Inconsistent));
    assert_eq!(plan_deactivate(Some(&instance(1)), None, Some(&open), T0), Err(LifecycleError::Inconsistent));
    let closed = window(4, Some(T0 + 5));
    assert_eq!(plan_deactivate(Some(&instance(1)), Some(&u), Some(&closed), T0 + 9), Err(LifecycleError::Inconsistent));
    let other = window(5, None);
    assert_eq!(plan_deactivate(Some(&instance(1)), Some(&u), Some(&other), T0 + 9), Err(LifecycleError::Inconsistent));
    assert_eq!(
        plan_deactivate(Some(&instance(1)), Some(&u), Some(&open), T0 + 3_600),
        Ok(WindowClose { record_id: 12, ended_at: T0 + 3_600, amount_cents: 34 })
    );
}
