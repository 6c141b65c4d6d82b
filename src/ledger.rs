//! Reads over the append-only ledger of billing windows.

use vstd::prelude::*;
use crate::model::BillingRecord;

verus! {

/// Whose billing windows a listing asks for.
#[derive(Debug, Clone, Copy, PartialEq, Eq, Structural)]
pub enum RecordOwner {
    Instance(i32),
    User(i32),
}

/// The window belongs to `owner`.
pub open spec fn belongs_to(r: BillingRecord, owner: RecordOwner) -> bool {
    match owner {
        RecordOwner::Instance(id) => r.instance_id == id,
        RecordOwner::User(id) => r.user_id == id,
    }
}

/// The windows of `owner` among `records`, in ledger order.
pub open spec fn records_of(records: Seq<BillingRecord>, owner: RecordOwner) -> Seq<BillingRecord>
    decreases records.len(),
{
    if records.len() == 0 {
        Seq::empty()
    } else {
        let rest = records_of(records.drop_last(), owner);
        if belongs_to(records.last(), owner) {
            rest.push(records.last())
        } else {
            rest
        }
    }
}

/// What a window adds to the total: its charge once closed, nothing while open.
pub open spec fn billed_cents(r: BillingRecord) -> int {
    if r.is_open() {
        0
    } else {
        r.amount_cents as int
    }
}

/// Sum of the charges of the closed windows among `records`.
pub open spec fn closed_total(records: Seq<BillingRecord>) -> int
    decreases records.len(),
{
    if records.len() == 0 {
        0
    } else {
        closed_total(records.drop_last()) + billed_cents(records.last())
    }
}

/// Whether `r` belongs to `owner`.
pub fn is_owned_by(r: &BillingRecord, owner: RecordOwner) -> (b: bool)
    ensures
        b == belongs_to(*r, owner),
{
    match owner {
        RecordOwner::Instance(id) => r.instance_id == id,
        RecordOwner::User(id) => r.user_id == id,
    }
}

/// All windows of `owner`, open and closed, in the order they were opened.
pub fn list_records(records: &[BillingRecord], owner: RecordOwner) -> (r: Vec<BillingRecord>)
    ensures
        r@ == records_of(records@, owner),
{
    let mut out: Vec<BillingRecord> = Vec::new();
    let mut i: usize = 0;
    while i < records.len()
        invariant
            0 <= i <= records@.len(),
            out@ == records_of(records@.subrange(0, i as int), owner),
        decreases records@.len() - i,
    {
        proof {
            assert(records@.subrange(0, i + 1).drop_last() =~= records@.subrange(0, i as int));
        }
        if is_owned_by(&records[i], owner) {
            out.push(records[i]);
        }
        i += 1;
    }
    proof {
        assert(records@.subrange(0, records@.len() as int) =~= records@);
    }
    out
}

/// Sum of `amount_cents` over the closed windows; open windows add nothing
/// whatever their age, since a window is charged only when it closes.
pub fn total_cents(records: &[BillingRecord]) -> (r: i64)
    requires
        records@.len() <= u32::MAX,
    ensures
        r == closed_total(records@),
{
    let mut sum: i64 = 0;
    let mut i: usize = 0;
    while i < records.len()
        invariant
            0 <= i <= records@.len(),
            records@.len() <= u32::MAX,
            sum == closed_total(records@.subrange(0, i as int)),
            -(i as int) * 2147483648 <= sum <= (i as int) * 2147483647,
        decreases records@.len() - i,
    {
        proof {
            assert(records@.subrange(0, i + 1).drop_last() =~= records@.subrange(0, i as int));
        }
        if records[i].ended_at.is_some() {
            sum = sum + records[i].amount_cents as i64;
        }
        i += 1;
    }
    proof {
        assert(records@.subrange(0, records@.len() as int) =~= records@);
    }
    sum
}

/// The closed windows among `records`, in ledger order.
pub open spec fn closed_only(records: Seq<BillingRecord>) -> Seq<BillingRecord>
    decreases records.len(),
{
    if records.len() == 0 {
        Seq::empty()
    } else {
        let rest = closed_only(records.drop_last());
        if records.last().is_open() {
            rest
        } else {
            rest.push(records.last())
        }
    }
}

/// Plain sum of `amount_cents`.
pub open spec fn amount_sum(records: Seq<BillingRecord>) -> int
    decreases records.len(),
{
    if records.len() == 0 {
        0
    } else {
        amount_sum(records.drop_last()) + records.last().amount_cents as int
    }
}

/// The total of a mixed list of open and closed windows is the sum of the
/// charges of its closed windows alone.
pub proof fn lemma_total_counts_closed_only(records: Seq<BillingRecord>)
    ensures
        closed_total(records) == amount_sum(closed_only(records)),
    decreases records.len(),
{
    if records.len() > 0 {
        lemma_total_counts_closed_only(records.drop_last());
        let rest = closed_only(records.drop_last());
        if !records.last().is_open() {
            assert(rest.push(records.last()).drop_last() =~= rest);
        }
    }
}

} // verus!
