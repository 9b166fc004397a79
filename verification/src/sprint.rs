//! Finding the board's active sprint in the tracker's reply.

use crate::json::{json_document, parse_document, Json, JsonView};
use vstd::prelude::*;

verus! {

/// Why a reply to the sprint query names no sprint.
#[derive(Debug, Clone, Copy, PartialEq, Eq)]
pub enum ResolveError {
    /// The reply is not a JSON document.
    NotJson,
    /// The reply has no `values` array, or the array is empty: the board
    /// has no active sprint.
    NoActiveSprint,
    /// The first sprint listed has no `id` that is an unsigned 64-bit
    /// integer.
    NoSprintId,
}

/// The id of the first sprint that a reply document lists: the number at
/// `values[0].id`.
pub open spec fn first_sprint_id(doc: JsonView) -> Result<u64, ResolveError> {
    match doc.member("values"@) {
        None => Err(ResolveError::NoActiveSprint),
        Some(values) => match values.element(0) {
            None => Err(ResolveError::NoActiveSprint),
            Some(sprint) => match sprint.member("id"@) {
                None => Err(ResolveError::NoSprintId),
                Some(id) => match id.as_u64() {
                    None => Err(ResolveError::NoSprintId),
                    Some(number) => Ok(number),
                },
            },
        },
    }
}

/// The sprint that the body of a reply resolves to.
pub open spec fn resolved_sprint(body: Seq<char>) -> Result<u64, ResolveError> {
    match json_document(body) {
        None => Err(ResolveError::NotJson),
        Some(doc) => first_sprint_id(doc),
    }
}

/// Picks the id of the active sprint out of a reply document.
pub fn sprint_id_in(doc: &Json) -> (id: Result<u64, ResolveError>)
    ensures
        id == first_sprint_id(doc@),
{
    let values = match doc.member("values") {
        Some(values) => values,
        None => return Err(ResolveError::NoActiveSprint),
    };
    let sprint = match values.element(0) {
        Some(sprint) => sprint,
        None => return Err(ResolveError::NoActiveSprint),
    };
    let id = match sprint.member("id") {
        Some(id) => id,
        None => return Err(ResolveError::NoSprintId),
    };
    match id.as_u64() {
        Some(number) => Ok(number),
        None => Err(ResolveError::NoSprintId),
    }
}

/// Reads the body of a reply to the sprint query and picks the id of the
/// active sprint out of it.
pub fn active_sprint_id(body: &str) -> (id: Result<u64, ResolveError>)
    ensures
        id == resolved_sprint(body@),
{
    match parse_document(body) {
        Some(doc) => sprint_id_in(&doc),
        None => Err(ResolveError::NotJson),
    }
}

} // verus!
