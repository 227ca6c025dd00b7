//! Properties that hold across the portfolio's rules.
use vstd::prelude::*;
use vstd::set_lib::*;
use vstd::utf8::*;

use crate::config::ProjectPortfolioConfig;
use crate::dates::{calendar_date_of, date_window_of, parts_after};
use crate::requests::{
    create_fields_valid, is_idempotency_key, opaque_id, optional_opaque_id, optional_text,
    patch_fields_valid, update_fields_valid, MAX_NAME_BYTES,
};
use crate::text::is_white_space;
use crate::operations::{
    callers_of, is_read, permission_of, role_of, Operation, Role, PORTFOLIO_ADMIN, PORTFOLIO_READ,
    PORTFOLIO_WRITE,
};
use crate::domain::{
    admission, attach_check, mutable_revision_check, CommandReceipt, DomainFailure, LockedInitiative,
    StorageError, MAX_PROJECTS_PER_INITIATIVE,
};
use crate::reorder::{distinct_rows, expected_current, reorder_accepted, MembershipRow, ReorderInput};
use crate::rollup::{
    bytes_less, earliest_start, latest_date, opt_string_view, lemma_matching_count_le, matching_count, text_less,
    project_matches, rollup_matches, InitiativeRecord, ProjectRecord, RollupRecord, SnapshotCondition,
};

verus! {

/// Replaying a committed command: a request with the same hash under the
/// same key gets back exactly the response stored when the command
/// committed, and performs nothing again.
pub proof fn committed_command_replays_its_response<R>(receipt: CommandReceipt<R>, hash: Seq<u8>, response: R)
    requires
        receipt.request_hash@ == hash,
        receipt.response == Some(response),
    ensures
        admission(Some(receipt), hash) == Ok::<Option<R>, StorageError>(Some(response)),
{
}

/// A key claimed by one request refuses a request with another hash, whether
/// or not the first command has committed.
pub proof fn reused_key_with_other_request_conflicts<R>(receipt: CommandReceipt<R>, hash: Seq<u8>)
    requires
        receipt.request_hash@ != hash,
    ensures
        admission(Some(receipt), hash) == Err::<Option<R>, StorageError>(
            StorageError::Domain(DomainFailure::IdempotencyConflict),
        ),
{
}

/// While a command holds its key without having committed, a retry with the
/// same request is told the operation is in progress.
pub proof fn pending_command_is_in_progress<R>(receipt: CommandReceipt<R>, hash: Seq<u8>)
    requires
        receipt.request_hash@ == hash,
        receipt.response is None,
    ensures
        admission(Some(receipt), hash) == Err::<Option<R>, StorageError>(
            StorageError::Domain(DomainFailure::OperationInProgress),
        ),
{
}

/// Compare-and-swap: a mutation proceeds only on a live initiative at exactly
/// the revision the caller expects; a stale or future revision conflicts.
pub proof fn mutation_needs_current_revision(current: LockedInitiative, expected: i64)
    ensures
        mutable_revision_check(current, expected) is Ok <==> (!current.archived && current.revision
            == expected),
        !current.archived && current.revision != expected ==> mutable_revision_check(
            current,
            expected,
        ) == Err::<(), StorageError>(StorageError::Domain(DomainFailure::RevisionConflict)),
{
}

/// An attach that passes its checks adds a project that was not attached,
/// and never takes an initiative beyond 500 projects.
pub proof fn attach_keeps_project_bound(already_attached: bool, project_count: i64)
    requires
        attach_check(already_attached, project_count) is Ok,
    ensures
        !already_attached,
        project_count + 1 <= MAX_PROJECTS_PER_INITIATIVE,
{
}

/// Some entry of `items` names the project `project_id`.
pub open spec fn names_project(items: Seq<ReorderInput>, project_id: Seq<char>) -> bool {
    exists|i: int| 0 <= i < items.len() && #[trigger] items[i].project_id@ == project_id
}

/// An accepted reorder names every current membership: it is the complete
/// current order, not a part of it.
pub proof fn accepted_reorder_covers_membership(rows: Seq<MembershipRow>, items: Seq<ReorderInput>)
    requires
        distinct_rows(rows),
        reorder_accepted(rows, items),
    ensures
        forall|j: int| 0 <= j < rows.len() ==> names_project(items, #[trigger] rows[j].project_id@),
{
    let row_ids = rows.map_values(|r: MembershipRow| r.project_id@);
    let item_ids = items.map_values(|t: ReorderInput| t.project_id@);
    assert(row_ids.no_duplicates()) by {
        assert forall|a: int, b: int|
            0 <= a < row_ids.len() && 0 <= b < row_ids.len() && a != b implies row_ids[a]
            != row_ids[b] by {
            assert(rows[a].project_id@ != rows[b].project_id@);
        }
    }
    assert(item_ids.no_duplicates()) by {
        assert forall|a: int, b: int|
            0 <= a < item_ids.len() && 0 <= b < item_ids.len() && a != b implies item_ids[a]
            != item_ids[b] by {
            assert(items[a].project_id@ != items[b].project_id@);
        }
    }
    row_ids.unique_seq_to_set();
    item_ids.unique_seq_to_set();
    assert(item_ids.to_set().subset_of(row_ids.to_set())) by {
        assert forall|x: Seq<char>| item_ids.to_set().contains(x) implies row_ids.to_set().contains(
            x,
        ) by {
            let i = choose|i: int| 0 <= i < item_ids.len() && item_ids[i] == x;
            assert(expected_current(rows, items[i]));
            let j = choose|j: int|
                0 <= j < rows.len() && #[trigger] rows[j].project_id@ == items[i].project_id@
                    && rows[j].membership_revision == items[i].expected_membership_revision;
            assert(row_ids[j] == x);
        }
    }
    lemma_subset_equality(item_ids.to_set(), row_ids.to_set());
    assert forall|j: int| 0 <= j < rows.len() implies names_project(items, #[trigger] rows[j].project_id@) by {
        assert(row_ids.to_set().contains(row_ids[j]));
        assert(item_ids.to_set().contains(row_ids[j]));
        let i = choose|i: int| 0 <= i < item_ids.len() && item_ids[i] == row_ids[j];
        assert(items[i].project_id@ == rows[j].project_id@);
    }
}

/// A rollup never counts more completed projects than it has snapshots, and
/// at-risk and off-track snapshots together never outnumber them (a snapshot
/// has one health).
pub proof fn rollup_counts_fit(projects: Seq<ProjectRecord>)
    ensures
        matching_count(projects, SnapshotCondition::StatusCategory("completed"@)) <= projects.len(),
        matching_count(projects, SnapshotCondition::Health("at_risk"@)) + matching_count(
            projects,
            SnapshotCondition::Health("off_track"@),
        ) <= projects.len(),
    decreases projects.len(),
{
    lemma_matching_count_le(projects, SnapshotCondition::StatusCategory("completed"@));
    if projects.len() > 0 {
        rollup_counts_fit(projects.drop_last());
        reveal_strlit("at_risk");
        reveal_strlit("off_track");
        assert("at_risk"@ != "off_track"@) by {
            assert("at_risk"@.len() != "off_track"@.len());
        }
    }
}

proof fn lemma_bytes_less_transitive(a: Seq<u8>, b: Seq<u8>, c: Seq<u8>)
    requires
        bytes_less(a, b),
        bytes_less(b, c),
    ensures
        bytes_less(a, c),
    decreases a.len(),
{
    if a.len() > 0 && b.len() > 0 && c.len() > 0 && a[0] == b[0] && b[0] == c[0] {
        lemma_bytes_less_transitive(a.drop_first(), b.drop_first(), c.drop_first());
    }
}

proof fn lemma_bytes_less_total(a: Seq<u8>, b: Seq<u8>)
    ensures
        bytes_less(a, b) || bytes_less(b, a) || a == b,
    decreases a.len(),
{
    if a.len() > 0 && b.len() > 0 && a[0] == b[0] {
        lemma_bytes_less_total(a.drop_first(), b.drop_first());
        if a.drop_first() == b.drop_first() {
            assert(a =~= b) by {
                assert forall|i: int| 0 <= i < a.len() implies a[i] == b[i] by {
                    if i > 0 {
                        assert(a[i] == a.drop_first()[i - 1]);
                        assert(b[i] == b.drop_first()[i - 1]);
                    }
                }
            }
        }
    } else if a.len() == 0 && b.len() == 0 {
        assert(a =~= b);
    }
}

proof fn lemma_bytes_less_irreflexive(a: Seq<u8>)
    ensures
        !bytes_less(a, a),
    decreases a.len(),
{
    if a.len() > 0 {
        lemma_bytes_less_irreflexive(a.drop_first());
    }
}

/// The rollup's earliest target start is the start of one of the snapshots,
/// and no snapshot starts earlier.
pub proof fn earliest_start_is_least(projects: Seq<ProjectRecord>)
    ensures
        match earliest_start(projects) {
            Some(m) => {
                &&& exists|i: int|
                    0 <= i < projects.len() && #[trigger] opt_string_view(projects[i].target_start)
                        == Some(m)
                &&& forall|j: int|
                    0 <= j < projects.len() ==> match #[trigger] opt_string_view(
                        projects[j].target_start,
                    ) {
                        Some(s) => !text_less(s, m),
                        None => true,
                    }
            },
            None => forall|j: int|
                0 <= j < projects.len() ==> #[trigger] opt_string_view(projects[j].target_start)
                    is None,
        },
    decreases projects.len(),
{
    if projects.len() == 0 {
        return;
    }
    let rest = projects.drop_last();
    earliest_start_is_least(rest);
    let n = projects.len() - 1;
    assert forall|j: int| 0 <= j < n implies #[trigger] projects[j] == rest[j] by {}
    match opt_string_view(projects.last().target_start) {
        None => {
            match earliest_start(rest) {
                Some(m) => {
                    let i = choose|i: int|
                        0 <= i < rest.len() && #[trigger] opt_string_view(rest[i].target_start)
                            == Some(m);
                    assert(projects[i] == rest[i]);
                },
                None => {},
            }
        },
        Some(s) => {
            let sb = encode_utf8(s);
            lemma_bytes_less_irreflexive(sb);
            match earliest_start(rest) {
                None => {},
                Some(m) => {
                    let i = choose|i: int|
                        0 <= i < rest.len() && #[trigger] opt_string_view(rest[i].target_start)
                            == Some(m);
                    assert(projects[i] == rest[i]);
                    if text_less(s, m) {
                        assert forall|j: int| 0 <= j < projects.len() implies match #[trigger] opt_string_view(
                            projects[j].target_start,
                        ) {
                            Some(t) => !text_less(t, s),
                            None => true,
                        } by {
                            if j < n {
                                if let Some(t) = opt_string_view(projects[j].target_start) {
                                    if text_less(t, s) {
                                        lemma_bytes_less_transitive(encode_utf8(t), sb, encode_utf8(m));
                                    }
                                }
                            }
                        }
                    }
                },
            }
        },
    }
}

/// The rollup's latest target date is the target date of one of the
/// snapshots, and no snapshot ends later.
pub proof fn latest_date_is_greatest(projects: Seq<ProjectRecord>)
    ensures
        match latest_date(projects) {
            Some(m) => {
                &&& exists|i: int|
                    0 <= i < projects.len() && #[trigger] opt_string_view(projects[i].target_date)
                        == Some(m)
                &&& forall|j: int|
                    0 <= j < projects.len() ==> match #[trigger] opt_string_view(
                        projects[j].target_date,
                    ) {
                        Some(s) => !text_less(m, s),
                        None => true,
                    }
            },
            None => forall|j: int|
                0 <= j < projects.len() ==> #[trigger] opt_string_view(projects[j].target_date)
                    is None,
        },
    decreases projects.len(),
{
    if projects.len() == 0 {
        return;
    }
    let rest = projects.drop_last();
    latest_date_is_greatest(rest);
    let n = projects.len() - 1;
    assert forall|j: int| 0 <= j < n implies #[trigger] projects[j] == rest[j] by {}
    match opt_string_view(projects.last().target_date) {
        None => {
            match latest_date(rest) {
                Some(m) => {
                    let i = choose|i: int|
                        0 <= i < rest.len() && #[trigger] opt_string_view(rest[i].target_date)
                            == Some(m);
                    assert(projects[i] == rest[i]);
                },
                None => {},
            }
        },
        Some(s) => {
            let sb = encode_utf8(s);
            lemma_bytes_less_irreflexive(sb);
            match latest_date(rest) {
                None => {},
                Some(m) => {
                    let mb = encode_utf8(m);
                    let i = choose|i: int|
                        0 <= i < rest.len() && #[trigger] opt_string_view(rest[i].target_date)
                            == Some(m);
                    assert(projects[i] == rest[i]);
                    if text_less(s, m) {
                        if bytes_less(mb, sb) {
                            lemma_bytes_less_transitive(mb, sb, mb);
                            lemma_bytes_less_irreflexive(mb);
                        }
                    } else {
                        lemma_bytes_less_total(sb, mb);
                        assert forall|j: int| 0 <= j < projects.len() implies match #[trigger] opt_string_view(
                            projects[j].target_date,
                        ) {
                            Some(t) => !text_less(s, t),
                            None => true,
                        } by {
                            if j < n {
                                if let Some(t) = opt_string_view(projects[j].target_date) {
                                    let tb = encode_utf8(t);
                                    if bytes_less(sb, tb) && bytes_less(mb, sb) {
                                        lemma_bytes_less_transitive(mb, sb, tb);
                                    }
                                }
                            }
                        }
                    }
                },
            }
        },
    }
}

/// An accepted target window never starts after its target date.
pub proof fn accepted_window_is_ordered(start: Option<Seq<char>>, end: Option<Seq<char>>)
    ensures
        date_window_of(start, end) matches Some(w) ==> (w.0 matches Some(a) ==> (w.1 matches Some(b)
            ==> !parts_after(a, b))),
{
}

/// Archival and membership administration is authorized only against the
/// administrative caller allowlist with the administrative permission; every
/// other operation uses the ordinary allowlist, with the read permission for
/// reads and the write permission for mutations. No ordinary operation
/// requires, or is granted by, the administrative permission.
pub proof fn operations_require_their_role_authority(config: ProjectPortfolioConfig, op: Operation)
    ensures
        role_of(op) == Role::Admin ==> callers_of(config, op) == config.admin_callers@
            && permission_of(op) == PORTFOLIO_ADMIN@,
        role_of(op) == Role::Portfolio ==> callers_of(config, op) == config.portfolio_callers@
            && permission_of(op) == if is_read(op) {
            PORTFOLIO_READ@
        } else {
            PORTFOLIO_WRITE@
        },
        permission_of(op) == PORTFOLIO_ADMIN@ <==> role_of(op) == Role::Admin,
{
    reveal_strlit("portfolio.initiatives.read");
    reveal_strlit("portfolio.initiatives.write");
    reveal_strlit("portfolio.initiatives.admin");
    assert(PORTFOLIO_READ@.len() != PORTFOLIO_ADMIN@.len());
    assert(PORTFOLIO_WRITE@[22] != PORTFOLIO_ADMIN@[22]);
}


/// The day number of a calendar date whose month is 1 to 12 and whose day is
/// 1 to 31: later days have larger numbers.
pub open spec fn day_number(d: (int, int, int)) -> int {
    d.0 * 512 + d.1 * 32 + d.2
}

/// A target window of two dates is accepted exactly when the start date is
/// not later than the target date: its day number is not larger. An accepted
/// window holds the two dates as given.
pub proof fn window_accepted_iff_start_not_later(
    start: Seq<char>,
    end: Seq<char>,
    a: (int, int, int),
    b: (int, int, int),
)
    requires
        calendar_date_of(start) == Some(a),
        calendar_date_of(end) == Some(b),
        1 <= a.1 <= 12,
        1 <= a.2 <= 31,
        1 <= b.1 <= 12,
        1 <= b.2 <= 31,
    ensures
        date_window_of(Some(start), Some(end)) is Some <==> day_number(a) <= day_number(b),
        day_number(a) <= day_number(b) ==> date_window_of(Some(start), Some(end)) == Some(
            (Some(a), Some(b)),
        ),
{
}

/// A start date in an earlier year, or in an earlier month of the same year,
/// than the target date is accepted whatever the days of the month; in the
/// same month, the window is accepted exactly when the start day is not after
/// the target day.
pub proof fn earlier_month_window_is_accepted(
    start: Seq<char>,
    end: Seq<char>,
    a: (int, int, int),
    b: (int, int, int),
)
    requires
        calendar_date_of(start) == Some(a),
        calendar_date_of(end) == Some(b),
    ensures
        a.0 < b.0 ==> date_window_of(Some(start), Some(end)) == Some((Some(a), Some(b))),
        a.0 == b.0 && a.1 < b.1 ==> date_window_of(Some(start), Some(end)) == Some(
            (Some(a), Some(b)),
        ),
        a.0 == b.0 && a.1 == b.1 ==> (date_window_of(Some(start), Some(end)) is Some <==> a.2
            <= b.2),
        a.0 > b.0 ==> date_window_of(Some(start), Some(end)) is None,
{
}

/// An accepted reorder writes over no membership that changed since the
/// caller read it: for every entry, the current membership of its project
/// has exactly the revision the entry expects.
pub proof fn accepted_reorder_expects_current_revisions(
    rows: Seq<MembershipRow>,
    items: Seq<ReorderInput>,
)
    requires
        distinct_rows(rows),
        reorder_accepted(rows, items),
    ensures
        forall|i: int, j: int|
            0 <= i < items.len() && 0 <= j < rows.len() && #[trigger] rows[j].project_id@
                == #[trigger] items[i].project_id@ ==> rows[j].membership_revision
                == items[i].expected_membership_revision,
{
    assert forall|i: int, j: int|
        0 <= i < items.len() && 0 <= j < rows.len() && #[trigger] rows[j].project_id@
            == #[trigger] items[i].project_id@ implies rows[j].membership_revision
        == items[i].expected_membership_revision by {
        assert(expected_current(rows, items[i]));
        let k = choose|k: int|
            0 <= k < rows.len() && #[trigger] rows[k].project_id@ == items[i].project_id@
                && rows[k].membership_revision == items[i].expected_membership_revision;
        if k != j {
            assert(rows[k].project_id@ != rows[j].project_id@);
        }
    }
}

/// A reorder one of whose entries expects a membership revision other than
/// the current one (older or newer) is refused.
pub proof fn stale_membership_revision_refuses_reorder(
    rows: Seq<MembershipRow>,
    items: Seq<ReorderInput>,
    i: int,
    j: int,
)
    requires
        distinct_rows(rows),
        0 <= i < items.len(),
        0 <= j < rows.len(),
        rows[j].project_id@ == items[i].project_id@,
        rows[j].membership_revision != items[i].expected_membership_revision,
    ensures
        !reorder_accepted(rows, items),
{
    if reorder_accepted(rows, items) {
        accepted_reorder_expects_current_revisions(rows, items);
        assert(rows[j].project_id@ == items[i].project_id@);
    }
}

/// Free text with a visible character, no NUL, and at most `max` UTF-8 bytes.
pub open spec fn text_within(s: Seq<char>, max: int) -> bool {
    &&& exists|i: int| 0 <= i < s.len() && !is_white_space(#[trigger] s[i])
    &&& forall|i: int| 0 <= i < s.len() ==> #[trigger] s[i] != '\0'
    &&& encode_utf8(s).len() <= max
}

/// The summary of a structured update may be up to 4000 bytes: with the
/// other fields valid, an update is accepted for every summary with a visible
/// character, no NUL and at most 4000 UTF-8 bytes, and refused for a longer one.
pub proof fn update_summary_allows_four_thousand_bytes(
    idempotency_key: Seq<char>,
    initiative_id: Seq<char>,
    update_id: Seq<char>,
    summary: Seq<char>,
    progress: i64,
)
    requires
        is_idempotency_key(idempotency_key),
        opaque_id(initiative_id),
        opaque_id(update_id),
        0 <= progress <= 100,
    ensures
        text_within(summary, 4000) ==> update_fields_valid(
            idempotency_key,
            initiative_id,
            update_id,
            summary,
            progress,
        ),
        encode_utf8(summary).len() > 4000 ==> !update_fields_valid(
            idempotency_key,
            initiative_id,
            update_id,
            summary,
            progress,
        ),
{
}

/// An initiative patch may carry a summary of up to 4000 bytes: a patch that
/// is valid without a summary stays valid with any summary that has a visible
/// character, no NUL and at most 4000 UTF-8 bytes, and a longer one is
/// refused.
pub proof fn patch_summary_allows_four_thousand_bytes(
    idempotency_key: Seq<char>,
    initiative_id: Seq<char>,
    name: Option<Seq<char>>,
    summary: Seq<char>,
    owner_subject: Option<Seq<char>>,
)
    requires
        patch_fields_valid(idempotency_key, initiative_id, name, None, owner_subject),
    ensures
        text_within(summary, 4000) ==> patch_fields_valid(
            idempotency_key,
            initiative_id,
            name,
            Some(summary),
            owner_subject,
        ),
        encode_utf8(summary).len() > 4000 ==> !patch_fields_valid(
            idempotency_key,
            initiative_id,
            name,
            Some(summary),
            owner_subject,
        ),
{
}

/// The same bound holds for the summary of a new initiative, while its name
/// is held to 240 bytes.
pub proof fn create_summary_allows_four_thousand_bytes(
    idempotency_key: Seq<char>,
    initiative_id: Seq<char>,
    name: Seq<char>,
    summary: Seq<char>,
    owner_subject: Option<Seq<char>>,
)
    requires
        create_fields_valid(idempotency_key, initiative_id, name, None, owner_subject),
    ensures
        text_within(summary, 4000) ==> create_fields_valid(
            idempotency_key,
            initiative_id,
            name,
            Some(summary),
            owner_subject,
        ),
        encode_utf8(summary).len() > 4000 ==> !create_fields_valid(
            idempotency_key,
            initiative_id,
            name,
            Some(summary),
            owner_subject,
        ),
        encode_utf8(name).len() <= 240,
{
}

proof fn lemma_count_is_filter(
    ps: Seq<ProjectRecord>,
    c: SnapshotCondition,
    pred: spec_fn(ProjectRecord) -> bool,
)
    requires
        forall|p: ProjectRecord| #[trigger] pred(p) == project_matches(p, c),
    ensures
        matching_count(ps, c) == ps.filter(pred).len(),
    decreases ps.len(),
{
    reveal(Seq::filter);
    if ps.len() > 0 {
        lemma_count_is_filter(ps.drop_last(), c, pred);
        assert(pred(ps.last()) == project_matches(ps.last(), c));
    }
}

/// A rollup counts as completed exactly the snapshots whose status category
/// is `completed`, and as at risk or off track exactly those whose health is
/// `at_risk` or `off_track`; no other field of a snapshot (its progress, its
/// window) makes it count.
pub proof fn rollup_counts_are_exact(
    r: RollupRecord,
    initiative: InitiativeRecord,
    projects: Seq<ProjectRecord>,
    computed_at: Seq<char>,
)
    requires
        rollup_matches(r, initiative, projects, computed_at),
    ensures
        r.completed_count == projects.filter(
            |p: ProjectRecord| p.status_category@ == "completed"@,
        ).len(),
        r.at_risk_count == projects.filter(|p: ProjectRecord| p.health@ == "at_risk"@).len(),
        r.off_track_count == projects.filter(|p: ProjectRecord| p.health@ == "off_track"@).len(),
{
    let completed = |p: ProjectRecord| p.status_category@ == "completed"@;
    let at_risk = |p: ProjectRecord| p.health@ == "at_risk"@;
    let off_track = |p: ProjectRecord| p.health@ == "off_track"@;
    lemma_count_is_filter(projects, SnapshotCondition::StatusCategory("completed"@), completed);
    lemma_count_is_filter(projects, SnapshotCondition::Health("at_risk"@), at_risk);
    lemma_count_is_filter(projects, SnapshotCondition::Health("off_track"@), off_track);
}

} // verus!
