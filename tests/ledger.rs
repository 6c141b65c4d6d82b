use orsta::ledger::{list_records, total_cents, RecordOwner};
use orsta::model::BillingRecord;

fn rec(id: i32, instance_id: i32, user_id: i32, ended_at: Option<i64>, amount_cents: i32) -> BillingRecord {
    BillingRecord { id, instance_id, user_id, started_at: 100 * id as i64, ended_at, amount_cents }
}

#[test]
fn total_counts_closed_windows_only() {
    let records = vec![
        rec(1, 1, 1, Some(150), 34),
        rec(2, 2, 1, None, 0),
        rec(3, 1, 1, Some(350), 48),
        rec(4, 1, 1, None, 999),
    ];
    assert_eq!(total_cents(&records), 82);
}

#[test]
fn total_of_empty_ledger_is_zero() {
    assert_eq!(total_cents(&[]), 0);
}

#[test]
fn list_by_instance_and_by_user_keeps_order() {
    let records = vec![
        rec(1, 1, 1, Some(150), 34),
        rec(2, 2, 2, None, 0),
        rec(3, 1, 1, None, 0),
        rec(4, 3, 1, Some(450), 5),
    ];
    let ids: Vec<i32> = list_records(&records, RecordOwner::Instance(1)).iter().map(|r| r.id).collect();
    assert_eq!(ids, vec![1, 3]);
    let ids: Vec<i32> = list_records(&records, RecordOwner::User(1)).iter().map(|r| r.id).collect();
    assert_eq!(ids, vec![1, 3, 4]);
    assert!(list_records(&records, RecordOwner::User(9)).is_empty());
}
