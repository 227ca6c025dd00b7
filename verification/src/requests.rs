//! Validation of each capability operation's request fields, done after
//! authorization and before storage. Every refusal here is reported as an
//! invalid request.
use vstd::prelude::*;
use vstd::string::*;
use vstd::utf8::*;

use crate::dates::{
    date_window_of, opt_view, parse_date_window, parse_timestamp, rfc3339_instant_of,
    window_parts, CalendarDate, DateWindow,
};
use crate::reorder::ReorderInput;
use crate::text::{
    bounded_opaque, bounded_text, idempotency_key_bytes, parse_revision, revision_value,
    valid_bounded_opaque, valid_idempotency_key, valid_opaque_id, valid_optional_text,
    valid_text, MAX_ID_BYTES, MAX_TEXT_BYTES,
};

verus! {

/// Longest initiative or project name, in bytes.
pub const MAX_NAME_BYTES: usize = 240;

/// Longest source revision of a project snapshot, in bytes.
pub const MAX_SNAPSHOT_REVISION_BYTES: usize = 128;

/// Largest position of a project in an initiative's order.
pub const MAX_POSITION: i64 = 10000;

/// An opaque identifier of at most 512 bytes.
pub open spec fn opaque_id(s: Seq<char>) -> bool {
    bounded_opaque(s, MAX_ID_BYTES as int)
}

/// An optional field that is absent or an opaque identifier.
pub open spec fn optional_opaque_id(s: Option<Seq<char>>) -> bool {
    match s {
        Some(v) => opaque_id(v),
        None => true,
    }
}

/// An optional field that is absent or free text of at most `max` bytes.
pub open spec fn optional_text(s: Option<Seq<char>>, max: int) -> bool {
    match s {
        Some(v) => bounded_text(v, max),
        None => true,
    }
}

/// An idempotency key.
pub open spec fn is_idempotency_key(s: Seq<char>) -> bool {
    idempotency_key_bytes(encode_utf8(s))
}

/// The expected revision a field denotes.
pub open spec fn revision_of(s: Seq<char>) -> Option<int> {
    revision_value(encode_utf8(s))
}

fn valid_optional_opaque_id(value: Option<&str>) -> (r: bool)
    ensures
        r == optional_opaque_id(opt_view(value)),
{
    match value {
        None => true,
        Some(v) => valid_opaque_id(v),
    }
}

/// The fields of a new initiative, other than its target window, are valid.
pub open spec fn create_fields_valid(
    idempotency_key_text: Seq<char>,
    initiative_id: Seq<char>,
    name: Seq<char>,
    summary: Option<Seq<char>>,
    owner_subject: Option<Seq<char>>,
) -> bool {
    &&& is_idempotency_key(idempotency_key_text)
    &&& opaque_id(initiative_id)
    &&& bounded_text(name, MAX_NAME_BYTES as int)
    &&& optional_text(summary, MAX_TEXT_BYTES as int)
    &&& optional_opaque_id(owner_subject)
}

/// Validates a request to create an initiative and reads its target window.
pub fn check_create_initiative(
    idempotency_key: &str,
    initiative_id: &str,
    name: &str,
    summary: Option<&str>,
    owner_subject: Option<&str>,
    target_start: Option<&str>,
    target_date: Option<&str>,
) -> (r: Option<DateWindow>)
    ensures
        window_parts(r) == if create_fields_valid(
            idempotency_key@,
            initiative_id@,
            name@,
            opt_view(summary),
            opt_view(owner_subject),
        ) {
            date_window_of(opt_view(target_start), opt_view(target_date))
        } else {
            None
        },
{
    let dates = match parse_date_window(target_start, target_date) {
        Some(w) => w,
        None => return None,
    };
    if !valid_idempotency_key(idempotency_key) || !valid_opaque_id(initiative_id) || !valid_text(
        name,
        MAX_NAME_BYTES,
    ) || !valid_optional_text(summary, MAX_TEXT_BYTES) || !valid_optional_opaque_id(
        owner_subject,
    ) {
        return None;
    }
    Some(dates)
}

/// The fields of an initiative patch, other than revision and window, are valid.
pub open spec fn patch_fields_valid(
    idempotency_key_text: Seq<char>,
    initiative_id: Seq<char>,
    name: Option<Seq<char>>,
    summary: Option<Seq<char>>,
    owner_subject: Option<Seq<char>>,
) -> bool {
    &&& is_idempotency_key(idempotency_key_text)
    &&& opaque_id(initiative_id)
    &&& optional_text(name, MAX_NAME_BYTES as int)
    &&& optional_text(summary, MAX_TEXT_BYTES as int)
    &&& optional_opaque_id(owner_subject)
}

/// Validates a request to update an initiative and reads its expected
/// revision and target window.
pub fn check_update_initiative(
    expected_revision: &str,
    idempotency_key: &str,
    initiative_id: &str,
    name: Option<&str>,
    summary: Option<&str>,
    owner_subject: Option<&str>,
    target_start: Option<&str>,
    target_date: Option<&str>,
) -> (r: Option<(i64, DateWindow)>)
    ensures
        match r {
            Some((revision, window)) => {
                &&& revision_of(expected_revision@) == Some(revision as int)
                &&& date_window_of(opt_view(target_start), opt_view(target_date)) == window_parts(
                    Some(window),
                )
                &&& patch_fields_valid(
                    idempotency_key@,
                    initiative_id@,
                    opt_view(name),
                    opt_view(summary),
                    opt_view(owner_subject),
                )
            },
            None => {
                ||| revision_of(expected_revision@) is None
                ||| date_window_of(opt_view(target_start), opt_view(target_date)) is None
                ||| !patch_fields_valid(
                    idempotency_key@,
                    initiative_id@,
                    opt_view(name),
                    opt_view(summary),
                    opt_view(owner_subject),
                )
            },
        },
{
    let revision = match parse_revision(expected_revision) {
        Some(v) => v,
        None => return None,
    };
    let dates = match parse_date_window(target_start, target_date) {
        Some(w) => w,
        None => return None,
    };
    let name_ok = match name {
        None => true,
        Some(n) => valid_text(n, MAX_NAME_BYTES),
    };
    if !valid_idempotency_key(idempotency_key) || !valid_opaque_id(initiative_id) || !name_ok
        || !valid_optional_text(summary, MAX_TEXT_BYTES) || !valid_optional_opaque_id(
        owner_subject,
    ) {
        return None;
    }
    Some((revision, dates))
}

/// The fields of a new initiative update are valid.
pub open spec fn update_fields_valid(
    idempotency_key_text: Seq<char>,
    initiative_id: Seq<char>,
    update_id: Seq<char>,
    summary: Seq<char>,
    progress: i64,
) -> bool {
    &&& is_idempotency_key(idempotency_key_text)
    &&& opaque_id(initiative_id)
    &&& opaque_id(update_id)
    &&& bounded_text(summary, MAX_TEXT_BYTES as int)
    &&& 0 <= progress <= 100
}

/// Validates a request to add an initiative update and reads its expected
/// revision.
pub fn check_add_initiative_update(
    expected_revision: &str,
    idempotency_key: &str,
    initiative_id: &str,
    update_id: &str,
    summary: &str,
    progress: i64,
) -> (r: Option<i64>)
    ensures
        r == match revision_of(expected_revision@) {
            Some(v) => if update_fields_valid(
                idempotency_key@,
                initiative_id@,
                update_id@,
                summary@,
                progress,
            ) {
                Some(v as i64)
            } else {
                None
            },
            None => None::<i64>,
        },
{
    let revision = match parse_revision(expected_revision) {
        Some(v) => v,
        None => return None,
    };
    if !valid_idempotency_key(idempotency_key) || !valid_opaque_id(initiative_id)
        || !valid_opaque_id(update_id) || !valid_text(summary, MAX_TEXT_BYTES) || !(0 <= progress
        && progress <= 100) {
        return None;
    }
    Some(revision)
}

/// Validates a request to list initiatives and reads its cursor.
pub fn check_list_initiatives(after: Option<&str>, limit: i64) -> (r: Option<Option<i64>>)
    ensures
        r == match opt_view(after) {
            None => if 1 <= limit <= 200 {
                Some(None::<i64>)
            } else {
                None
            },
            Some(a) => match revision_of(a) {
                Some(v) => if 1 <= limit <= 200 {
                    Some(Some(v as i64))
                } else {
                    None
                },
                None => None,
            },
        },
{
    let cursor = match after {
        None => None,
        Some(a) => match parse_revision(a) {
            Some(v) => Some(v),
            None => return None,
        },
    };
    if !(1 <= limit && limit <= 200) {
        return None;
    }
    Some(cursor)
}

/// Validates a request to list the projects of an initiative.
pub fn check_list_projects(initiative_id: &str, limit: i64) -> (r: bool)
    ensures
        r == (opaque_id(initiative_id@) && 1 <= limit <= 200),
{
    valid_opaque_id(initiative_id) && 1 <= limit && limit <= 200
}

/// Validates a request to list the updates of an initiative and reads its cursor.
pub fn check_list_updates(after: Option<&str>, initiative_id: &str, limit: i64) -> (r: Option<
    Option<i64>,
>)
    ensures
        r == match opt_view(after) {
            None => if opaque_id(initiative_id@) && 1 <= limit <= 200 {
                Some(None::<i64>)
            } else {
                None
            },
            Some(a) => match revision_of(a) {
                Some(v) => if opaque_id(initiative_id@) && 1 <= limit <= 200 {
                    Some(Some(v as i64))
                } else {
                    None
                },
                None => None,
            },
        },
{
    let cursor = match after {
        None => None,
        Some(a) => match parse_revision(a) {
            Some(v) => Some(v),
            None => return None,
        },
    };
    if !valid_opaque_id(initiative_id) || !(1 <= limit && limit <= 200) {
        return None;
    }
    Some(cursor)
}

/// A caller-supplied project snapshot, validated.
#[derive(Clone, Debug)]
pub struct ProjectSnapshot {
    pub project_id: String,
    pub name_snapshot: String,
    pub status_category: String,
    pub health: String,
    pub progress: i64,
    pub target_start: Option<CalendarDate>,
    pub target_date: Option<CalendarDate>,
    pub snapshot_revision: String,
    /// Nanoseconds since the Unix epoch.
    pub observed_at: i128,
}

/// The fields of a project snapshot, other than its window and observation
/// time, are valid.
pub open spec fn snapshot_fields_valid(
    project_id: Seq<char>,
    name_snapshot: Seq<char>,
    snapshot_revision: Seq<char>,
    progress: i64,
) -> bool {
    &&& opaque_id(project_id)
    &&& bounded_text(name_snapshot, MAX_NAME_BYTES as int)
    &&& bounded_opaque(snapshot_revision, MAX_SNAPSHOT_REVISION_BYTES as int)
    &&& 0 <= progress <= 100
}

/// Validates a project snapshot supplied with an attach or refresh.
pub fn parse_snapshot(
    project_id: &str,
    name_snapshot: &str,
    status_category: &str,
    health: &str,
    progress: i64,
    target_start: Option<&str>,
    target_date: Option<&str>,
    snapshot_revision: &str,
    observed_at: &str,
) -> (r: Result<ProjectSnapshot, ()>)
    ensures
        match r {
            Ok(s) => {
                &&& snapshot_fields_valid(project_id@, name_snapshot@, snapshot_revision@, progress)
                &&& date_window_of(opt_view(target_start), opt_view(target_date)) == window_parts(
                    Some((s.target_start, s.target_date)),
                )
                &&& rfc3339_instant_of(observed_at@) == Some(s.observed_at as int)
                &&& s.project_id@ == project_id@
                &&& s.name_snapshot@ == name_snapshot@
                &&& s.status_category@ == status_category@
                &&& s.health@ == health@
                &&& s.progress == progress
                &&& s.snapshot_revision@ == snapshot_revision@
            },
            Err(()) => {
                ||| date_window_of(opt_view(target_start), opt_view(target_date)) is None
                ||| !snapshot_fields_valid(project_id@, name_snapshot@, snapshot_revision@, progress)
                ||| rfc3339_instant_of(observed_at@) is None
            },
        },
{
    let dates = match parse_date_window(target_start, target_date) {
        Some(w) => w,
        None => return Err(()),
    };
    if !valid_opaque_id(project_id) || !valid_text(name_snapshot, MAX_NAME_BYTES)
        || !valid_bounded_opaque(snapshot_revision, MAX_SNAPSHOT_REVISION_BYTES) || !(0 <= progress
        && progress <= 100) {
        return Err(());
    }
    let observed = match parse_timestamp(observed_at) {
        Some(t) => t,
        None => return Err(()),
    };
    Ok(
        ProjectSnapshot {
            project_id: String::from_str(project_id),
            name_snapshot: String::from_str(name_snapshot),
            status_category: String::from_str(status_category),
            health: String::from_str(health),
            progress,
            target_start: dates.0,
            target_date: dates.1,
            snapshot_revision: String::from_str(snapshot_revision),
            observed_at: observed,
        },
    )
}

/// Whether a requested position is between 0 and 10000.
pub fn valid_position(position: i64) -> (r: bool)
    ensures
        r == (0 <= position <= MAX_POSITION),
{
    0 <= position && position <= MAX_POSITION
}

/// Validates a request to detach a project and reads its two expected
/// revisions: the initiative's and the membership's.
pub fn check_detach(
    idempotency_key: &str,
    initiative_id: &str,
    expected_initiative_revision: &str,
    project_id: &str,
    expected_membership_revision: &str,
) -> (r: Option<(i64, i64)>)
    ensures
        match r {
            Some((initiative_revision, membership_revision)) => {
                &&& is_idempotency_key(idempotency_key@)
                &&& opaque_id(initiative_id@)
                &&& opaque_id(project_id@)
                &&& revision_of(expected_initiative_revision@) == Some(initiative_revision as int)
                &&& revision_of(expected_membership_revision@) == Some(membership_revision as int)
            },
            None => {
                ||| !is_idempotency_key(idempotency_key@)
                ||| !opaque_id(initiative_id@)
                ||| !opaque_id(project_id@)
                ||| revision_of(expected_initiative_revision@) is None
                ||| revision_of(expected_membership_revision@) is None
            },
        },
{
    if !valid_idempotency_key(idempotency_key) || !valid_opaque_id(initiative_id) {
        return None;
    }
    let initiative_revision = match parse_revision(expected_initiative_revision) {
        Some(v) => v,
        None => return None,
    };
    let membership_revision = match parse_revision(expected_membership_revision) {
        Some(v) => v,
        None => return None,
    };
    if !valid_opaque_id(project_id) {
        return None;
    }
    Some((initiative_revision, membership_revision))
}

/// One entry of a reorder request as the caller sends it.
#[derive(Clone, Debug)]
pub struct ReorderItemRequest {
    pub project_id: String,
    pub expected_membership_revision: String,
    pub position: i64,
}

/// The entry is valid: an opaque project identifier, a revision, and a
/// position between 0 and 10000.
pub open spec fn reorder_item_valid(item: ReorderItemRequest) -> bool {
    &&& opaque_id(item.project_id@)
    &&& revision_of(item.expected_membership_revision@) is Some
    &&& 0 <= item.position <= MAX_POSITION
}

/// The validated form of a valid entry.
pub open spec fn reorder_input_of(item: ReorderItemRequest, input: ReorderInput) -> bool {
    &&& input.project_id@ == item.project_id@
    &&& Some(input.expected_membership_revision as int) == revision_of(
        item.expected_membership_revision@,
    )
    &&& input.position == item.position
}

/// Validates every entry of a reorder request; one invalid entry refuses all.
pub fn reorder_inputs(items: &[ReorderItemRequest]) -> (r: Option<Vec<ReorderInput>>)
    ensures
        match r {
            Some(inputs) => {
                &&& inputs@.len() == items@.len()
                &&& forall|i: int| 0 <= i < items@.len() ==> #[trigger] reorder_item_valid(items@[i])
                &&& forall|i: int|
                    0 <= i < items@.len() ==> reorder_input_of(items@[i], #[trigger] inputs@[i])
            },
            None => exists|i: int| 0 <= i < items@.len() && !#[trigger] reorder_item_valid(items@[i]),
        },
{
    let mut out: Vec<ReorderInput> = Vec::new();
    let mut i: usize = 0;
    while i < items.len()
        invariant
            i <= items@.len(),
            out@.len() == i,
            forall|k: int| 0 <= k < i ==> #[trigger] reorder_item_valid(items@[k]),
            forall|k: int| 0 <= k < i ==> reorder_input_of(items@[k], #[trigger] out@[k]),
        decreases items@.len() - i,
    {
        let item = &items[i];
        if !valid_opaque_id(item.project_id.as_str()) {
            assert(!reorder_item_valid(items@[i as int]));
            return None;
        }
        let revision = match parse_revision(item.expected_membership_revision.as_str()) {
            Some(v) => v,
            None => {
                assert(!reorder_item_valid(items@[i as int]));
                return None;
            },
        };
        if !(0 <= item.position && item.position <= MAX_POSITION) {
            assert(!reorder_item_valid(items@[i as int]));
            return None;
        }
        out.push(
            ReorderInput {
                project_id: item.project_id.clone(),
                expected_membership_revision: revision,
                position: item.position,
            },
        );
        i += 1;
    }
    Some(out)
}

} // verus!
