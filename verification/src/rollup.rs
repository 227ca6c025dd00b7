//! Records the portfolio returns, and the rollup derived from the project
//! snapshots an initiative owns.
use vstd::prelude::*;
use vstd::string::*;
use vstd::utf8::*;

use crate::dates::{format_timestamp, rfc3339_text_of};
use crate::domain::{DomainFailure, StorageError};

verus! {

/// An initiative as the portfolio stores and returns it.
#[derive(Clone, Debug, PartialEq)]
pub struct InitiativeRecord {
    pub initiative_id: String,
    pub organization_id: String,
    pub name: String,
    pub summary: Option<String>,
    pub owner_subject: Option<String>,
    pub target_start: Option<String>,
    pub target_date: Option<String>,
    pub health: String,
    pub progress: i64,
    pub project_count: i64,
    pub archived: bool,
    pub revision: String,
    pub created_at: String,
    pub updated_at: String,
    pub archived_at: Option<String>,
    pub row_seq: i64,
}

/// An attached project: the caller-supplied snapshot, its place in the
/// initiative's order, and its membership revision.
#[derive(Clone, Debug, PartialEq)]
pub struct ProjectRecord {
    pub project_id: String,
    pub name_snapshot: String,
    pub status_category: String,
    pub health: String,
    pub progress: i64,
    pub target_start: Option<String>,
    pub target_date: Option<String>,
    pub snapshot_revision: String,
    pub observed_at: String,
    pub position: i64,
    pub membership_revision: String,
    pub initiative_revision: Option<String>,
}

/// A structured health update of an initiative.
#[derive(Clone, Debug, PartialEq)]
pub struct UpdateRecord {
    pub update_id: String,
    pub initiative_id: String,
    pub organization_id: String,
    pub health: String,
    pub summary: String,
    pub progress: i64,
    pub created_by: String,
    pub initiative_revision: String,
    pub created_at: String,
    pub row_seq: i64,
}

/// An archived initiative's new state.
#[derive(Clone, Debug, PartialEq)]
pub struct ArchiveRecord {
    pub initiative_id: String,
    pub organization_id: String,
    pub archived: bool,
    pub revision: String,
    pub updated_at: String,
    pub archived_at: Option<String>,
}

/// The result of detaching a project.
#[derive(Clone, Debug, PartialEq)]
pub struct DetachRecord {
    pub detached: bool,
    pub initiative_revision: String,
}

/// The mean progress of the attached projects, kept as the exact quotient
/// `total / count`.
#[derive(Clone, Copy, Debug, PartialEq, Eq, Structural)]
pub struct ProgressAverage {
    pub total: i64,
    pub count: i64,
}

/// A rollup of an initiative over its attached project snapshots.
#[derive(Clone, Debug, PartialEq)]
pub struct RollupRecord {
    pub initiative_id: String,
    pub initiative_revision: String,
    pub health: String,
    pub initiative_progress: i64,
    pub project_count: i64,
    pub completed_count: i64,
    pub at_risk_count: i64,
    pub off_track_count: i64,
    pub average_project_progress: Option<ProgressAverage>,
    pub earliest_target_start: Option<String>,
    pub latest_target_date: Option<String>,
    pub computed_at: String,
    pub source: String,
}

/// A condition on a project snapshot that a rollup counts.
pub enum ProjectFilter {
    StatusCategory(String),
    Health(String),
}

/// The condition a filter denotes, on the filter's text.
pub enum SnapshotCondition {
    StatusCategory(Seq<char>),
    Health(Seq<char>),
}

/// The condition that `f` denotes.
pub open spec fn condition_of(f: ProjectFilter) -> SnapshotCondition {
    match f {
        ProjectFilter::StatusCategory(s) => SnapshotCondition::StatusCategory(s@),
        ProjectFilter::Health(h) => SnapshotCondition::Health(h@),
    }
}

/// Whether `p` meets `c`.
pub open spec fn project_matches(p: ProjectRecord, c: SnapshotCondition) -> bool {
    match c {
        SnapshotCondition::StatusCategory(s) => p.status_category@ == s,
        SnapshotCondition::Health(h) => p.health@ == h,
    }
}

/// How many of `ps` meet `f`.
pub open spec fn matching_count(ps: Seq<ProjectRecord>, f: SnapshotCondition) -> nat
    decreases ps.len(),
{
    if ps.len() == 0 {
        0
    } else {
        matching_count(ps.drop_last(), f) + if project_matches(ps.last(), f) {
            1nat
        } else {
            0nat
        }
    }
}

pub proof fn lemma_matching_count_le(ps: Seq<ProjectRecord>, f: SnapshotCondition)
    ensures
        matching_count(ps, f) <= ps.len(),
    decreases ps.len(),
{
    if ps.len() > 0 {
        lemma_matching_count_le(ps.drop_last(), f);
    }
}

/// Counts the projects that meet `predicate`; a count beyond `i64` is refused.
pub fn count(projects: &[ProjectRecord], predicate: &ProjectFilter) -> (r: Result<i64, StorageError>)
    ensures
        r == if matching_count(projects@, condition_of(*predicate)) <= i64::MAX {
            Ok::<i64, StorageError>(matching_count(projects@, condition_of(*predicate)) as i64)
        } else {
            Err::<i64, StorageError>(StorageError::Domain(DomainFailure::InvalidRequest))
        },
{
    let mut n: usize = 0;
    let mut i: usize = 0;
    while i < projects.len()
        invariant
            i <= projects@.len(),
            n == matching_count(projects@.take(i as int), condition_of(*predicate)),
            n <= i,
        decreases projects@.len() - i,
    {
        let hit = match predicate {
            ProjectFilter::StatusCategory(s) => projects[i].status_category == *s,
            ProjectFilter::Health(h) => projects[i].health == *h,
        };
        assert(projects@.take(i + 1).drop_last() =~= projects@.take(i as int));
        if hit {
            n += 1;
        }
        i += 1;
    }
    assert(projects@.take(projects@.len() as int) =~= projects@);
    if (n as u128) > 0x7fff_ffff_ffff_ffffu128 {
        Err(StorageError::Domain(DomainFailure::InvalidRequest))
    } else {
        Ok(n as i64)
    }
}

/// Lexicographic order of byte strings (a proper prefix comes first).
pub open spec fn bytes_less(a: Seq<u8>, b: Seq<u8>) -> bool
    decreases a.len(),
{
    if a.len() == 0 {
        b.len() > 0
    } else if b.len() == 0 {
        false
    } else if a[0] < b[0] {
        true
    } else if a[0] > b[0] {
        false
    } else {
        bytes_less(a.drop_first(), b.drop_first())
    }
}

/// The order of `String`: lexicographic on UTF-8 bytes.
pub open spec fn text_less(a: Seq<char>, b: Seq<char>) -> bool {
    bytes_less(encode_utf8(a), encode_utf8(b))
}

/// Whether `a` orders before `b` as `String`s do.
pub fn text_less_than(a: &String, b: &String) -> (r: bool)
    ensures
        r == text_less(a@, b@),
{
    let x = a.as_str().as_bytes();
    let y = b.as_str().as_bytes();
    let mut i: usize = 0;
    assert(x@.skip(0) =~= x@);
    assert(y@.skip(0) =~= y@);
    while i < x.len() && i < y.len()
        invariant
            x@ == encode_utf8(a@),
            y@ == encode_utf8(b@),
            i <= x@.len(),
            i <= y@.len(),
            bytes_less(x@, y@) == bytes_less(x@.skip(i as int), y@.skip(i as int)),
        decreases x@.len() - i,
    {
        if x[i] < y[i] {
            return true;
        }
        if x[i] > y[i] {
            return false;
        }
        assert(x@.skip(i as int).drop_first() =~= x@.skip(i + 1));
        assert(y@.skip(i as int).drop_first() =~= y@.skip(i + 1));
        i += 1;
    }
    i == x.len() && i < y.len()
}

/// The smallest target start among `ps`, as `Iterator::min` finds it.
pub open spec fn earliest_start(ps: Seq<ProjectRecord>) -> Option<Seq<char>>
    decreases ps.len(),
{
    if ps.len() == 0 {
        None
    } else {
        let rest = earliest_start(ps.drop_last());
        match ps.last().target_start {
            None => rest,
            Some(s) => match rest {
                None => Some(s@),
                Some(m) => if text_less(s@, m) {
                    Some(s@)
                } else {
                    Some(m)
                },
            },
        }
    }
}

/// The largest target date among `ps`, as `Iterator::max` finds it.
pub open spec fn latest_date(ps: Seq<ProjectRecord>) -> Option<Seq<char>>
    decreases ps.len(),
{
    if ps.len() == 0 {
        None
    } else {
        let rest = latest_date(ps.drop_last());
        match ps.last().target_date {
            None => rest,
            Some(s) => match rest {
                None => Some(s@),
                Some(m) => if text_less(s@, m) {
                    Some(m)
                } else {
                    Some(s@)
                },
            },
        }
    }
}

/// The view of an optional string.
pub open spec fn opt_string_view(s: Option<String>) -> Option<Seq<char>> {
    match s {
        Some(t) => Some(t@),
        None => None,
    }
}

fn earliest_target_start(projects: &[ProjectRecord]) -> (r: Option<String>)
    ensures
        opt_string_view(r) == earliest_start(projects@),
{
    let mut best: Option<String> = None;
    let mut i: usize = 0;
    while i < projects.len()
        invariant
            i <= projects@.len(),
            opt_string_view(best) == earliest_start(projects@.take(i as int)),
        decreases projects@.len() - i,
    {
        assert(projects@.take(i + 1).drop_last() =~= projects@.take(i as int));
        match &projects[i].target_start {
            None => {},
            Some(s) => {
                let replace = match &best {
                    None => true,
                    Some(m) => text_less_than(s, m),
                };
                if replace {
                    best = Some(s.clone());
                }
            },
        }
        i += 1;
    }
    assert(projects@.take(projects@.len() as int) =~= projects@);
    best
}

fn latest_target_date(projects: &[ProjectRecord]) -> (r: Option<String>)
    ensures
        opt_string_view(r) == latest_date(projects@),
{
    let mut best: Option<String> = None;
    let mut i: usize = 0;
    while i < projects.len()
        invariant
            i <= projects@.len(),
            opt_string_view(best) == latest_date(projects@.take(i as int)),
        decreases projects@.len() - i,
    {
        assert(projects@.take(i + 1).drop_last() =~= projects@.take(i as int));
        match &projects[i].target_date {
            None => {},
            Some(s) => {
                let replace = match &best {
                    None => true,
                    Some(m) => !text_less_than(s, m),
                };
                if replace {
                    best = Some(s.clone());
                }
            },
        }
        i += 1;
    }
    assert(projects@.take(projects@.len() as int) =~= projects@);
    best
}

/// The sum of the projects' progress.
pub open spec fn progress_total(ps: Seq<ProjectRecord>) -> int
    decreases ps.len(),
{
    if ps.len() == 0 {
        0
    } else {
        progress_total(ps.drop_last()) + ps.last().progress
    }
}

/// Every partial sum of the projects' progress, in order, fits in `i64`, so
/// summing them does not overflow.
pub open spec fn progress_sum_fits(ps: Seq<ProjectRecord>) -> bool {
    forall|k: int|
        0 <= k <= ps.len() ==> i64::MIN <= #[trigger] progress_total(ps.take(k)) <= i64::MAX
}

fn total_progress(projects: &[ProjectRecord]) -> (r: i64)
    requires
        progress_sum_fits(projects@),
    ensures
        r == progress_total(projects@),
{
    let mut total: i64 = 0;
    let mut i: usize = 0;
    assert(projects@.take(0) =~= Seq::<ProjectRecord>::empty());
    while i < projects.len()
        invariant
            i <= projects@.len(),
            progress_sum_fits(projects@),
            total == progress_total(projects@.take(i as int)),
        decreases projects@.len() - i,
    {
        assert(projects@.take(i + 1).drop_last() =~= projects@.take(i as int));
        assert(i64::MIN <= progress_total(projects@.take(i + 1)) <= i64::MAX);
        total = total + projects[i].progress;
        i += 1;
    }
    assert(projects@.take(projects@.len() as int) =~= projects@);
    total
}

/// The rollup that `compute_rollup` returns when it succeeds.
pub open spec fn rollup_matches(
    r: RollupRecord,
    initiative: InitiativeRecord,
    projects: Seq<ProjectRecord>,
    computed_at: Seq<char>,
) -> bool {
    &&& r.initiative_id@ == initiative.initiative_id@
    &&& r.initiative_revision@ == initiative.revision@
    &&& r.health@ == initiative.health@
    &&& r.initiative_progress == initiative.progress
    &&& r.project_count == projects.len()
    &&& r.completed_count == matching_count(
        projects,
        SnapshotCondition::StatusCategory("completed"@),
    )
    &&& r.at_risk_count == matching_count(projects, SnapshotCondition::Health("at_risk"@))
    &&& r.off_track_count == matching_count(projects, SnapshotCondition::Health("off_track"@))
    &&& r.average_project_progress == if projects.len() == 0 {
        None::<ProgressAverage>
    } else {
        Some(ProgressAverage { total: progress_total(projects) as i64, count: projects.len() as i64 })
    }
    &&& opt_string_view(r.earliest_target_start) == earliest_start(projects)
    &&& opt_string_view(r.latest_target_date) == latest_date(projects)
    &&& r.computed_at@ == computed_at
    &&& r.source@ == "owned_project_snapshots"@
}

/// Computes the rollup of `initiative` over its attached `projects` at the
/// instant `computed_at` (nanoseconds since the Unix epoch). It reads nothing
/// but the snapshots it is given.
pub fn compute_rollup(
    initiative: &InitiativeRecord,
    projects: &[ProjectRecord],
    computed_at: i128,
) -> (r: Result<RollupRecord, StorageError>)
    requires
        progress_sum_fits(projects@),
    ensures
        projects@.len() > i64::MAX ==> r == Err::<RollupRecord, StorageError>(
            StorageError::Domain(DomainFailure::InvalidRequest),
        ),
        projects@.len() <= i64::MAX && rfc3339_text_of(computed_at as int) is None ==> r
            == Err::<RollupRecord, StorageError>(StorageError::Time),
        projects@.len() <= i64::MAX && rfc3339_text_of(computed_at as int) is Some ==> (
        match r {
            Ok(x) => rollup_matches(
                x,
                *initiative,
                projects@,
                rfc3339_text_of(computed_at as int)->0,
            ),
            Err(_) => false,
        }),
{
    if (projects.len() as u128) > 0x7fff_ffff_ffff_ffffu128 {
        return Err(StorageError::Domain(DomainFailure::InvalidRequest));
    }
    let project_count = projects.len() as i64;
    proof {
        reveal_strlit("completed");
        reveal_strlit("at_risk");
        reveal_strlit("off_track");
        reveal_strlit("owned_project_snapshots");
        lemma_matching_count_le(projects@, SnapshotCondition::StatusCategory("completed"@));
        lemma_matching_count_le(projects@, SnapshotCondition::Health("at_risk"@));
        lemma_matching_count_le(projects@, SnapshotCondition::Health("off_track"@));
    }
    let completed = ProjectFilter::StatusCategory(String::from_str("completed"));
    let at_risk = ProjectFilter::Health(String::from_str("at_risk"));
    let off_track = ProjectFilter::Health(String::from_str("off_track"));
    let completed_count = match count(projects, &completed) {
        Ok(n) => n,
        Err(e) => return Err(e),
    };
    let at_risk_count = match count(projects, &at_risk) {
        Ok(n) => n,
        Err(e) => return Err(e),
    };
    let off_track_count = match count(projects, &off_track) {
        Ok(n) => n,
        Err(e) => return Err(e),
    };
    let average_project_progress = if projects.len() == 0 {
        None
    } else {
        Some(ProgressAverage { total: total_progress(projects), count: project_count })
    };
    let earliest = earliest_target_start(projects);
    let latest = latest_target_date(projects);
    let computed_text = match format_timestamp(computed_at) {
        Some(text) => text,
        None => return Err(StorageError::Time),
    };
    Ok(RollupRecord {
        initiative_id: initiative.initiative_id.clone(),
        initiative_revision: initiative.revision.clone(),
        health: initiative.health.clone(),
        initiative_progress: initiative.progress,
        project_count,
        completed_count,
        at_risk_count,
        off_track_count,
        average_project_progress,
        earliest_target_start: earliest,
        latest_target_date: latest,
        computed_at: computed_text,
        source: String::from_str("owned_project_snapshots"),
    })
}

} // verus!
