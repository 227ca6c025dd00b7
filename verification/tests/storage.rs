use lenso_project_portfolio::domain::next_update_revision;
use lenso_project_portfolio::domain::{
    admit_command, check_attach, check_snapshot_refresh, completed_receipt, detach_outcome,
    pending_receipt, require_mutable_revision, unique_violation, DomainFailure, LockedInitiative,
    StorageError,
};
use lenso_project_portfolio::errors::{admin_error, portfolio_error, read_error, AdminError, PortfolioMutationError, PortfolioReadError};
use lenso_project_portfolio::paging::{initiative_cursor, project_cursor, split_page, valid_page_limit};
use lenso_project_portfolio::reorder::{reorder_record, validate_reorder, MembershipRow, ReorderInput};
use lenso_project_portfolio::rollup::{compute_rollup, count, InitiativeRecord, ProjectFilter, ProjectRecord};
use lenso_project_portfolio::text::parse_cursor;

fn domain(f: DomainFailure) -> StorageError {
    StorageError::Domain(f)
}

#[test]
fn compare_and_swap_revisions() {
    let live = LockedInitiative { revision: 2, archived: false };
    assert_eq!(require_mutable_revision(&live, 2), Ok(()));
    assert_eq!(require_mutable_revision(&live, 1), Err(domain(DomainFailure::RevisionConflict)));
    let archived = LockedInitiative { revision: 2, archived: true };
    assert_eq!(require_mutable_revision(&archived, 2), Err(domain(DomainFailure::Archived)));
}

#[test]
fn receipts_replay_conflict_or_wait() {
    let hash = [1_u8, 2, 3];
    assert_eq!(admit_command::<String>(None, &hash), Ok(None));
    let pending = pending_receipt::<String>(&hash);
    assert_eq!(admit_command(Some(pending.clone()), &hash), Err(domain(DomainFailure::OperationInProgress)));
    let done = completed_receipt(pending, "record".to_owned());
    assert_eq!(admit_command(Some(done.clone()), &hash), Ok(Some("record".to_owned())));
    assert_eq!(admit_command(Some(done), &[2]), Err(domain(DomainFailure::IdempotencyConflict)));
}

#[test]
fn membership_preconditions() {
    assert_eq!(check_attach(true, 0), Err(domain(DomainFailure::AlreadyAttached)));
    assert_eq!(check_attach(false, 499), Ok(()));
    assert_eq!(check_attach(false, 500), Err(domain(DomainFailure::InvalidRequest)));
    let live = LockedInitiative { revision: 1, archived: false };
    assert_eq!(check_snapshot_refresh(&live, Some(3), 3), Ok(()));
    assert_eq!(check_snapshot_refresh(&live, Some(4), 3), Err(domain(DomainFailure::RevisionConflict)));
    assert_eq!(check_snapshot_refresh(&live, None, 3), Err(domain(DomainFailure::NotAttached)));
    let archived = LockedInitiative { revision: 1, archived: true };
    assert_eq!(check_snapshot_refresh(&archived, Some(3), 3), Err(domain(DomainFailure::Archived)));
    assert_eq!(detach_outcome(1, true), Ok(()));
    assert_eq!(detach_outcome(0, true), Err(domain(DomainFailure::RevisionConflict)));
    assert_eq!(detach_outcome(0, false), Err(domain(DomainFailure::NotAttached)));
    assert!(unique_violation(Some("23505")));
    assert!(!unique_violation(Some("23503")));
    assert!(!unique_violation(None));
}

#[test]
fn storage_failures_map_to_operation_errors() {
    assert_eq!(portfolio_error(DomainFailure::AlreadyExists), PortfolioMutationError::AlreadyExists);
    assert_eq!(portfolio_error(DomainFailure::PositionConflict), PortfolioMutationError::InvalidRequest);
    assert_eq!(read_error(DomainFailure::NotFound), PortfolioReadError::NotFound);
    assert_eq!(read_error(DomainFailure::Archived), PortfolioReadError::InvalidRequest);
    assert_eq!(admin_error(DomainFailure::NotAttached), AdminError::NotAttached);
    assert_eq!(admin_error(DomainFailure::AlreadyExists), AdminError::InvalidRequest);
}

fn row(id: &str, revision: i64) -> MembershipRow {
    MembershipRow { project_id: id.to_owned(), membership_revision: revision }
}

fn item(id: &str, revision: i64, position: i64) -> ReorderInput {
    ReorderInput { project_id: id.to_owned(), expected_membership_revision: revision, position }
}

#[test]
fn reorder_requires_the_complete_current_order() {
    let rows = [row("a", 1), row("b", 2)];
    assert_eq!(validate_reorder(&rows, &[item("b", 2, 0), item("a", 1, 1)]), Ok(()));
    let invalid = Err(domain(DomainFailure::InvalidRequest));
    assert_eq!(validate_reorder(&rows, &[]), invalid);
    assert_eq!(validate_reorder(&rows, &[item("a", 1, 0)]), invalid);
    assert_eq!(validate_reorder(&rows, &[item("a", 1, 0), item("a", 1, 1)]), invalid);
    assert_eq!(validate_reorder(&rows, &[item("a", 1, 0), item("b", 2, 0)]), invalid);
    assert_eq!(validate_reorder(&rows, &[item("a", 1, 0), item("b", 3, 1)]), invalid);
    assert_eq!(validate_reorder(&rows, &[item("a", 1, 0), item("c", 2, 1)]), invalid);
    let too_many: Vec<ReorderInput> = (0..501).map(|i| item(&format!("p{i}"), 1, i)).collect();
    assert_eq!(validate_reorder(&rows, &too_many), invalid);
    let record = reorder_record(9, &[item("a", 1, 5), item("b", 2, 0), item("c", 1, 3)], &[2, 3, 4]);
    assert_eq!(record.initiative_revision, "9");
    let order: Vec<(&str, i64, &str)> = record
        .items
        .iter()
        .map(|i| (i.project_id.as_str(), i.position, i.membership_revision.as_str()))
        .collect();
    assert_eq!(order, vec![("b", 0, "3"), ("c", 3, "4"), ("a", 5, "2")]);
}

fn project(id: &str, status: &str, health: &str, progress: i64, start: Option<&str>, end: Option<&str>) -> ProjectRecord {
    ProjectRecord {
        project_id: id.to_owned(),
        name_snapshot: id.to_owned(),
        status_category: status.to_owned(),
        health: health.to_owned(),
        progress,
        target_start: start.map(str::to_owned),
        target_date: end.map(str::to_owned),
        snapshot_revision: "r".to_owned(),
        observed_at: "2026-08-30T00:00:00Z".to_owned(),
        position: 0,
        membership_revision: "1".to_owned(),
        initiative_revision: None,
    }
}

fn initiative() -> InitiativeRecord {
    InitiativeRecord {
        initiative_id: "ini".to_owned(),
        organization_id: "org".to_owned(),
        name: "Launch".to_owned(),
        summary: None,
        owner_subject: None,
        target_start: None,
        target_date: None,
        health: "on_track".to_owned(),
        progress: 10,
        project_count: 0,
        archived: false,
        revision: "7".to_owned(),
        created_at: "2026-08-30T00:00:00Z".to_owned(),
        updated_at: "2026-08-30T00:00:00Z".to_owned(),
        archived_at: None,
        row_seq: 1,
    }
}

#[test]
fn rollup_window_counts_and_time() {
    let projects = [
        project("a", "completed", "at_risk", 30, Some("2026-08-10"), Some("2026-10-01")),
        project("b", "started", "off_track", 60, None, Some("2026-12-24")),
        project("c", "started", "at_risk", 0, Some("2026-07-01"), None),
    ];
    let rollup = compute_rollup(&initiative(), &projects, 1_000_000_000).unwrap();
    assert_eq!(rollup.initiative_revision, "7");
    assert_eq!(rollup.project_count, 3);
    assert_eq!(rollup.completed_count, 1);
    assert_eq!(rollup.at_risk_count, 2);
    assert_eq!(rollup.off_track_count, 1);
    assert_eq!(rollup.earliest_target_start.as_deref(), Some("2026-07-01"));
    assert_eq!(rollup.latest_target_date.as_deref(), Some("2026-12-24"));
    assert_eq!(rollup.computed_at, "1970-01-01T00:00:01Z");
    let average = rollup.average_project_progress.unwrap();
    assert_eq!((average.total, average.count), (90, 3));
    let empty = compute_rollup(&initiative(), &[], 0).unwrap();
    assert_eq!(empty.average_project_progress, None);
    assert_eq!(empty.earliest_target_start, None);
    assert_eq!(count(&projects, &ProjectFilter::Health("at_risk".to_owned())), Ok(2));
}

#[test]
fn pages_drop_the_lookahead_row() {
    assert!(valid_page_limit(1));
    assert!(!valid_page_limit(0));
    assert!(!valid_page_limit(201));
    let (page, more) = split_page(vec![1, 2, 3], 2);
    assert_eq!((page, more), (vec![1, 2], true));
    let (page, more) = split_page(vec![1, 2], 2);
    assert_eq!((page, more), (vec![1, 2], false));
    let mut second = initiative();
    second.row_seq = 42;
    let initiatives = vec![initiative(), second];
    let cursor = initiative_cursor(&initiatives, true).unwrap();
    assert_eq!(cursor, "42");
    assert_eq!(parse_cursor(Some(&cursor)), Ok(Some(42)));
    assert_eq!(initiative_cursor(&initiatives, false), None);
    let mut p = project("a", "started", "on_track", 1, None, None);
    p.position = 7;
    assert_eq!(project_cursor(&[p], true), Some(7));
}

#[test]
fn structured_update_advances_revision_by_one() {
    let live = LockedInitiative { revision: 4, archived: false };
    assert_eq!(next_update_revision(&live, 4), Ok(5));
    assert_eq!(next_update_revision(&live, 3), Err(domain(DomainFailure::RevisionConflict)));
    let archived = LockedInitiative { revision: 4, archived: true };
    assert_eq!(next_update_revision(&archived, 4), Err(domain(DomainFailure::Archived)));
}
