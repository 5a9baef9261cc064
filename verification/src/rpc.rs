//! What the wire layer makes of a request to activate a category.

use vstd::prelude::*;
use crate::categories::model::Categories;
use crate::categories::statement::Probe;
use crate::categories::store::MemoryStore;
use crate::categories::table::{position, Table};
use crate::domain::{id_of_text, later, RowID};
use crate::error::{DatabaseError, DatabaseResult};

verus! {

/// A failure as the wire reports it.
#[derive(Debug, PartialEq, Eq)]
pub enum WireStatus {
    /// The request itself is malformed.
    InvalidArgument(String),
    /// What the request names does not exist.
    NotFound(String),
    /// Anything else went wrong.
    Internal(String),
}

/// The mathematical content of a [`WireStatus`].
pub ghost enum WireView {
    InvalidArgument(Seq<char>),
    NotFound(Seq<char>),
    Internal(Seq<char>),
}

impl View for WireStatus {
    type V = WireView;

    open spec fn view(&self) -> WireView {
        match self {
            WireStatus::InvalidArgument(s) => WireView::InvalidArgument(s@),
            WireStatus::NotFound(s) => WireView::NotFound(s@),
            WireStatus::Internal(s) => WireView::Internal(s@),
        }
    }
}

/// The status for an id that is not the text of an identifier.
pub open spec fn malformed_id() -> WireView {
    WireView::InvalidArgument("Invalid category ID format"@)
}

/// The status for an id that no category has.
pub open spec fn unknown_id(id: Seq<char>) -> WireView {
    WireView::NotFound("Category with ID '"@ + id + "' not found"@)
}

/// The status for any other failure of an activation.
pub open spec fn activation_failed() -> WireView {
    WireView::Internal("Failed to activate category"@)
}

/// Reads the identifier of a request; a text that is not one is an
/// invalid argument.
pub fn parse_category_id(id: &str) -> (result: Result<RowID, WireStatus>)
    ensures
        match id_of_text(id@) {
            Some(row) => result == Ok::<RowID, WireStatus>(row),
            None => result matches Err(status) && status@ == malformed_id(),
        },
{
    match RowID::parse(id) {
        Some(row) => Ok(row),
        None => Err(WireStatus::InvalidArgument(String::from_str("Invalid category ID format"))),
    }
}

/// What the wire answers to an activation, given what the store made of
/// it: the category; not found, for the store's `NotFound`; an internal
/// failure for any other error.
pub fn activation_reply(id: &str, result: DatabaseResult<Categories>) -> (reply: Result<
    Categories,
    WireStatus,
>)
    ensures
        match result {
            Ok(category) => reply == Ok::<Categories, WireStatus>(category),
            Err(DatabaseError::NotFound(_)) => reply matches Err(status) && status@ == unknown_id(
                id@,
            ),
            Err(_) => reply matches Err(status) && status@ == activation_failed(),
        },
{
    match result {
        Ok(category) => Ok(category),
        Err(DatabaseError::NotFound(_)) => Err(
            WireStatus::NotFound(
                String::from_str("Category with ID '").concat(id).concat("' not found"),
            ),
        ),
        Err(_) => Err(WireStatus::Internal(String::from_str("Failed to activate category"))),
    }
}

/// Activates the category that a request names by the text of its id.
///
/// A text that is not an identifier is an invalid argument, and the store
/// is not touched. An identifier that no row has is not found. Otherwise
/// the row's active flag is set, its time of update becomes the store's
/// time unless that would take it back, and the row comes back.
pub fn activate_category(id: &str, store: &mut MemoryStore) -> (reply: Result<
    Categories,
    WireStatus,
>)
    requires
        old(store).wf(),
    ensures
        final(store).wf(),
        match id_of_text(id@) {
            None => {
                &&& reply matches Err(status) && status@ == malformed_id()
                &&& final(store)@ == old(store)@
            },
            Some(row) => {
                let rows = old(store)@.rows;
                let i = position(rows, Probe::Id(row));
                if i < rows.len() {
                    let active = Categories {
                        is_active: true,
                        updated_on: later(old(store)@.now, rows[i].updated_on),
                        ..rows[i]
                    };
                    &&& reply == Ok::<Categories, WireStatus>(active)
                    &&& final(store)@ == (Table { rows: rows.update(i, active), ..old(store)@ })
                } else {
                    &&& reply matches Err(status) && status@ == unknown_id(id@)
                    &&& final(store)@ == old(store)@
                }
            },
        },
{
    let row = match parse_category_id(id) {
        Ok(row) => row,
        Err(status) => {
            return Err(status);
        },
    };
    let result = Categories::update_active_status(row, true, store);
    activation_reply(id, result)
}

/// The service that answers pings.
#[derive(Debug)]
pub struct MyUtilitiesService {}

impl MyUtilitiesService {
    /// The answer to a ping.
    pub fn ping(&self) -> (message: String)
        ensures
            message@ == "Pong..."@,
    {
        String::from_str("Pong...")
    }
}

impl Default for MyUtilitiesService {
    fn default() -> (service: MyUtilitiesService) {
        MyUtilitiesService {  }
    }
}

} // verus!
