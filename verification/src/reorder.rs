//! Full reordering of an initiative's project membership.
use vstd::prelude::*;

use crate::domain::{DomainFailure, StorageError, MAX_PROJECTS_PER_INITIATIVE};
use crate::text::{decimal_text, i64_text};

verus! {

/// One entry of a reorder request: a project, the membership revision the
/// caller last saw, and its new position.
#[derive(Clone, Debug)]
pub struct ReorderInput {
    pub project_id: String,
    pub expected_membership_revision: i64,
    pub position: i64,
}

/// A current membership as locked at the start of a reorder.
#[derive(Clone, Debug)]
pub struct MembershipRow {
    pub project_id: String,
    pub membership_revision: i64,
}

/// One reordered project in the response.
#[derive(Clone, Debug, PartialEq)]
pub struct ReorderItemRecord {
    pub project_id: String,
    pub position: i64,
    pub membership_revision: String,
}

/// The response of a reorder: the initiative's new revision and the new order.
#[derive(Clone, Debug, PartialEq)]
pub struct ReorderRecord {
    pub initiative_revision: String,
    pub items: Vec<ReorderItemRecord>,
}

/// No two entries name the same project.
pub open spec fn distinct_projects(items: Seq<ReorderInput>) -> bool {
    forall|i: int, j: int|
        0 <= i < items.len() && 0 <= j < items.len() && i != j ==> #[trigger] items[i].project_id@
            != #[trigger] items[j].project_id@
}

/// No two entries ask for the same position.
pub open spec fn distinct_positions(items: Seq<ReorderInput>) -> bool {
    forall|i: int, j: int|
        0 <= i < items.len() && 0 <= j < items.len() && i != j ==> #[trigger] items[i].position
            != #[trigger] items[j].position
}

/// No two membership rows are of the same project (they come from a table
/// keyed by project).
pub open spec fn distinct_rows(rows: Seq<MembershipRow>) -> bool {
    forall|i: int, j: int|
        0 <= i < rows.len() && 0 <= j < rows.len() && i != j ==> #[trigger] rows[i].project_id@
            != #[trigger] rows[j].project_id@
}

/// The membership of `item`'s project is current at the revision it expects.
pub open spec fn expected_current(rows: Seq<MembershipRow>, item: ReorderInput) -> bool {
    exists|j: int|
        0 <= j < rows.len() && #[trigger] rows[j].project_id@ == item.project_id@
            && rows[j].membership_revision == item.expected_membership_revision
}

/// A reorder is accepted when it names between 1 and 500 distinct projects at
/// distinct positions, as many as are attached, each at its current
/// membership revision.
pub open spec fn reorder_accepted(rows: Seq<MembershipRow>, items: Seq<ReorderInput>) -> bool {
    &&& 0 < items.len() <= MAX_PROJECTS_PER_INITIATIVE
    &&& distinct_projects(items)
    &&& distinct_positions(items)
    &&& rows.len() == items.len()
    &&& forall|i: int| 0 <= i < items.len() ==> expected_current(rows, #[trigger] items[i])
}

/// Checks a full reorder against the locked current membership.
pub fn validate_reorder(rows: &[MembershipRow], items: &[ReorderInput]) -> (r: Result<
    (),
    StorageError,
>)
    requires
        distinct_rows(rows@),
    ensures
        r == if reorder_accepted(rows@, items@) {
            Ok::<(), StorageError>(())
        } else {
            Err::<(), StorageError>(StorageError::Domain(DomainFailure::InvalidRequest))
        },
{
    let n = items.len();
    if n == 0 || n > 500 {
        return Err(StorageError::Domain(DomainFailure::InvalidRequest));
    }
    let mut i: usize = 0;
    while i < n
        invariant
            n == items@.len(),
            i <= n,
            forall|a: int, b: int|
                0 <= a < i && 0 <= b < i && a != b ==> #[trigger] items@[a].project_id@
                    != #[trigger] items@[b].project_id@,
            forall|a: int, b: int|
                0 <= a < i && 0 <= b < i && a != b ==> #[trigger] items@[a].position
                    != #[trigger] items@[b].position,
        decreases n - i,
    {
        let mut j: usize = 0;
        while j < i
            invariant
                n == items@.len(),
                i < n,
                j <= i,
                forall|b: int| 0 <= b < j ==> items@[b].project_id@ != #[trigger] items@[i as int].project_id@,
                forall|b: int| 0 <= b < j ==> items@[b].position != #[trigger] items@[i as int].position,
            decreases i - j,
        {
            if items[i].project_id == items[j].project_id {
                assert(!distinct_projects(items@)) by {
                    assert(items@[i as int].project_id@ == items@[j as int].project_id@);
                }
                return Err(StorageError::Domain(DomainFailure::InvalidRequest));
            }
            if items[i].position == items[j].position {
                assert(!distinct_positions(items@)) by {
                    assert(items@[i as int].position == items@[j as int].position);
                }
                return Err(StorageError::Domain(DomainFailure::InvalidRequest));
            }
            j += 1;
        }
        i += 1;
    }
    if rows.len() != n {
        return Err(StorageError::Domain(DomainFailure::InvalidRequest));
    }
    let mut i: usize = 0;
    while i < n
        invariant
            n == items@.len(),
            n == rows@.len(),
            i <= n,
            distinct_rows(rows@),
            forall|a: int| 0 <= a < i ==> expected_current(rows@, #[trigger] items@[a]),
        decreases n - i,
    {
        let mut j: usize = 0;
        let mut found = false;
        while j < n
            invariant
                n == items@.len(),
                n == rows@.len(),
                i < n,
                j <= n,
                distinct_rows(rows@),
                found ==> expected_current(rows@, items@[i as int]),
                !found ==> forall|b: int|
                    0 <= b < j ==> #[trigger] rows@[b].project_id@ != items@[i as int].project_id@,
            decreases n - j,
        {
            if rows[j].project_id == items[i].project_id {
                if rows[j].membership_revision != items[i].expected_membership_revision {
                    assert(!expected_current(rows@, items@[i as int])) by {
                        if expected_current(rows@, items@[i as int]) {
                            let w = choose|w: int|
                                0 <= w < rows@.len() && #[trigger] rows@[w].project_id@
                                    == items@[i as int].project_id@
                                    && rows@[w].membership_revision
                                    == items@[i as int].expected_membership_revision;
                            assert(w != j);
                            assert(rows@[w].project_id@ == rows@[j as int].project_id@);
                        }
                    }
                    return Err(StorageError::Domain(DomainFailure::InvalidRequest));
                }
                found = true;
                assert(expected_current(rows@, items@[i as int])) by {
                    assert(rows@[j as int].project_id@ == items@[i as int].project_id@);
                }
            }
            j += 1;
        }
        if !found {
            assert(!expected_current(rows@, items@[i as int]));
            return Err(StorageError::Domain(DomainFailure::InvalidRequest));
        }
        i += 1;
    }
    Ok(())
}

/// The plain view of a reordered project.
pub open spec fn item_view(item: ReorderItemRecord) -> (Seq<char>, i64, Seq<char>) {
    (item.project_id@, item.position, item.membership_revision@)
}

/// The reordered project that entry `k` of the request becomes, with the
/// membership revision the write returned for it.
pub open spec fn entry_view(items: Seq<ReorderInput>, revisions: Seq<i64>, k: int) -> (
    Seq<char>,
    i64,
    Seq<char>,
) {
    (items[k].project_id@, items[k].position, i64_text(revisions[k] as int))
}

/// `out` lists, by ascending position, exactly the first `count` entries of
/// the request, reordered.
pub open spec fn lists_entries(
    out: Seq<ReorderItemRecord>,
    items: Seq<ReorderInput>,
    revisions: Seq<i64>,
    count: int,
) -> bool {
    &&& out.len() == count
    &&& forall|a: int, b: int| 0 <= a < b < out.len() ==> #[trigger] out[a].position < #[trigger] out[b].position
    &&& forall|a: int|
        #![trigger item_view(out[a])]
        0 <= a < out.len() ==> exists|k: int|
            0 <= k < count && item_view(out[a]) == #[trigger] entry_view(items, revisions, k)
    &&& forall|k: int|
        #![trigger entry_view(items, revisions, k)]
        0 <= k < count ==> exists|a: int|
            0 <= a < out.len() && #[trigger] item_view(out[a]) == entry_view(items, revisions, k)
}

/// `out` lists exactly the reordered entries of the request, by ascending position.
pub open spec fn reordered(
    out: Seq<ReorderItemRecord>,
    items: Seq<ReorderInput>,
    revisions: Seq<i64>,
) -> bool {
    lists_entries(out, items, revisions, items.len() as int)
}

/// Builds the response of an accepted reorder: the entries with the
/// membership revisions their writes returned, ordered by position.
pub fn reorder_record(
    initiative_revision: i64,
    items: &[ReorderInput],
    membership_revisions: &[i64],
) -> (r: ReorderRecord)
    requires
        items@.len() == membership_revisions@.len(),
        distinct_positions(items@),
    ensures
        r.initiative_revision@ == i64_text(initiative_revision as int),
        reordered(r.items@, items@, membership_revisions@),
{
    let n = items.len();
    let mut out: Vec<ReorderItemRecord> = Vec::new();
    let mut i: usize = 0;
    while i < n
        invariant
            n == items@.len(),
            n == membership_revisions@.len(),
            distinct_positions(items@),
            i <= n,
            lists_entries(out@, items@, membership_revisions@, i as int),
        decreases n - i,
    {
        let record = ReorderItemRecord {
            project_id: items[i].project_id.clone(),
            position: items[i].position,
            membership_revision: decimal_text(membership_revisions[i]),
        };
        assert(item_view(record) == entry_view(items@, membership_revisions@, i as int));
        let mut k: usize = 0;
        while k < out.len() && out[k].position < record.position
            invariant
                k <= out@.len(),
                forall|a: int| 0 <= a < k ==> #[trigger] out@[a].position < record.position,
            decreases out@.len() - k,
        {
            k += 1;
        }
        // Every earlier entry has a position other than this one.
        assert forall|a: int| 0 <= a < out@.len() implies #[trigger] out@[a].position
            != record.position by {
            assert(item_view(out@[a]) == item_view(out@[a]));
            let m = choose|m: int|
                0 <= m < i && item_view(out@[a]) == #[trigger] entry_view(
                    items@,
                    membership_revisions@,
                    m,
                );
            assert(items@[m].position != items@[i as int].position);
        }
        let ghost before = out@;
        out.insert(k, record);
        proof {
            assert forall|a: int, b: int| 0 <= a < b < out@.len() implies #[trigger] out@[a].position
                < #[trigger] out@[b].position by {
                if b < k {
                } else if b == k {
                    assert(out@[a] == before[a]);
                } else if a < k {
                    assert(out@[b] == before[b - 1]);
                    if a + 1 <= b - 1 {
                        assert(before[a].position < before[b - 1].position);
                    }
                    assert(before[a].position < record.position);
                    assert(record.position <= before[b - 1].position || k == b - 1);
                    if k < b - 1 {
                        assert(before[k as int].position < before[b - 1].position);
                        assert(before[k as int].position >= record.position);
                    } else {
                        assert(before[k as int].position >= record.position);
                        assert(before[k as int].position != record.position);
                    }
                } else if a == k {
                    assert(out@[b] == before[b - 1]);
                    if k < b - 1 {
                        assert(before[k as int].position < before[b - 1].position);
                    }
                    assert(before[k as int].position >= record.position);
                    assert(before[k as int].position != record.position);
                } else {
                    assert(out@[a] == before[a - 1]);
                    assert(out@[b] == before[b - 1]);
                }
            }
            assert forall|a: int| #![trigger item_view(out@[a])] 0 <= a < out@.len() implies exists|m: int|
                0 <= m < i + 1 && item_view(out@[a]) == #[trigger] entry_view(
                    items@,
                    membership_revisions@,
                    m,
                ) by {
                if a < k {
                    assert(out@[a] == before[a]);
                    assert(item_view(before[a]) == item_view(before[a]));
                    let m = choose|m: int|
                        0 <= m < i && item_view(before[a]) == #[trigger] entry_view(
                            items@,
                            membership_revisions@,
                            m,
                        );
                    assert(entry_view(items@, membership_revisions@, m) == item_view(out@[a]));
                } else if a == k {
                    assert(item_view(out@[a]) == entry_view(items@, membership_revisions@, i as int));
                } else {
                    assert(out@[a] == before[a - 1]);
                    assert(item_view(before[a - 1]) == item_view(before[a - 1]));
                    let m = choose|m: int|
                        0 <= m < i && item_view(before[a - 1]) == #[trigger] entry_view(
                            items@,
                            membership_revisions@,
                            m,
                        );
                    assert(entry_view(items@, membership_revisions@, m) == item_view(out@[a]));
                }
            }
            assert forall|m: int| #![trigger entry_view(items@, membership_revisions@, m)] 0 <= m < i + 1 implies exists|a: int|
                0 <= a < out@.len() && #[trigger] item_view(out@[a]) == entry_view(
                    items@,
                    membership_revisions@,
                    m,
                ) by {
                if m == i {
                    assert(item_view(out@[k as int]) == entry_view(items@, membership_revisions@, m));
                } else {
                    assert(entry_view(items@, membership_revisions@, m) == entry_view(items@, membership_revisions@, m));
                    let a = choose|a: int|
                        0 <= a < before.len() && #[trigger] item_view(before[a]) == entry_view(
                            items@,
                            membership_revisions@,
                            m,
                        );
                    if a < k {
                        assert(out@[a] == before[a]);
                        assert(item_view(out@[a]) == entry_view(items@, membership_revisions@, m));
                    } else {
                        assert(out@[a + 1] == before[a]);
                        assert(item_view(out@[a + 1]) == entry_view(items@, membership_revisions@, m));
                    }
                }
            }
        }
        i += 1;
    }
    ReorderRecord { initiative_revision: decimal_text(initiative_revision), items: out }
}

} // verus!
