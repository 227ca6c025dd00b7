//! Bounded, stable pagination of lists.
use vstd::prelude::*;
use vstd::utf8::*;

use crate::rollup::{InitiativeRecord, ProjectRecord, UpdateRecord};
use crate::text::{decimal_text, i64_text, lemma_decimal_text_reads_back, revision_value};

verus! {

/// Largest page a list request may ask for.
pub const MAX_PAGE_LIMIT: i64 = 200;

/// Whether a requested page size is between 1 and 200.
pub fn valid_page_limit(limit: i64) -> (r: bool)
    ensures
        r == (1 <= limit <= MAX_PAGE_LIMIT),
{
    1 <= limit && limit <= MAX_PAGE_LIMIT
}

/// Whether more rows than `limit` came back (a negative limit counts as 0).
pub open spec fn overflows(len: nat, limit: i64) -> bool {
    if limit < 0 {
        len > 0
    } else {
        len > limit
    }
}

/// Storage is asked for one row more than the page holds; when it returns
/// more than `limit` rows there is a next page, and the extra row is dropped.
pub fn split_page<T>(records: Vec<T>, limit: i64) -> (r: (Vec<T>, bool))
    ensures
        r.1 == overflows(records@.len(), limit),
        r.0@ == if r.1 {
            records@.drop_last()
        } else {
            records@
        },
{
    let mut records = records;
    let bound: usize = if limit < 0 {
        0
    } else if (limit as u64) > (usize::MAX as u64) {
        usize::MAX
    } else {
        limit as usize
    };
    let has_more = records.len() > bound;
    if has_more {
        records.pop();
    }
    (records, has_more)
}

/// The cursor of the next page of initiatives: the row sequence of the last
/// initiative of this page, when there is a next page.
pub fn initiative_cursor(page: &[InitiativeRecord], has_more: bool) -> (r: Option<String>)
    ensures
        match r {
            Some(c) => has_more && page@.len() > 0 && c@ == i64_text(page@.last().row_seq as int),
            None => !has_more || page@.len() == 0,
        },
{
    if has_more && page.len() > 0 {
        Some(decimal_text(page[page.len() - 1].row_seq))
    } else {
        None
    }
}

/// The cursor of the next page of initiative updates.
pub fn update_cursor(page: &[UpdateRecord], has_more: bool) -> (r: Option<String>)
    ensures
        match r {
            Some(c) => has_more && page@.len() > 0 && c@ == i64_text(page@.last().row_seq as int),
            None => !has_more || page@.len() == 0,
        },
{
    if has_more && page.len() > 0 {
        Some(decimal_text(page[page.len() - 1].row_seq))
    } else {
        None
    }
}

/// The position after which the next page of attached projects starts.
pub fn project_cursor(page: &[ProjectRecord], has_more: bool) -> (r: Option<i64>)
    ensures
        r == if has_more && page@.len() > 0 {
            Some(page@.last().position)
        } else {
            None::<i64>
        },
{
    if has_more && page.len() > 0 {
        Some(page[page.len() - 1].position)
    } else {
        None
    }
}

/// A cursor handed out for a row read back as that row's sequence number
/// (row sequence numbers are positive).
pub proof fn cursor_reads_back(row_seq: i64)
    requires
        row_seq > 0,
    ensures
        revision_value(encode_utf8(i64_text(row_seq as int))) == Some(row_seq as int),
{
    lemma_decimal_text_reads_back(row_seq as int);
}

} // verus!
