//! What a category or expense request asks of the server: answer at once,
//! write to the database and then answer, or stop.

use vstd::prelude::*;
use crate::contexts::UnauthorizedAccessContext;
use crate::flash::{FlashNote, FlashRedirect, response_view};

verus! {

/// A change to the database.
#[derive(Debug, PartialEq, Eq)]
pub enum DbWrite {
    CreateCategory { user_id: i32, name: String, descrip: String },
    UpdateCategory { category_id: i32, name: String, descrip: String },
    ArchiveCategory { category_id: i32 },
    UnarchiveCategory { category_id: i32 },
    CreateExpense { user_id: i32, category_id: i32, name: String, amount: String },
    UpdateExpense { expense_id: i32, category_id: i32, name: String, amount: String },
    DeleteExpense { expense_id: i32 },
}

/// The mathematical content of a [`DbWrite`].
pub enum DbWriteView {
    CreateCategory { user_id: i32, name: Seq<char>, descrip: Seq<char> },
    UpdateCategory { category_id: i32, name: Seq<char>, descrip: Seq<char> },
    ArchiveCategory { category_id: i32 },
    UnarchiveCategory { category_id: i32 },
    CreateExpense { user_id: i32, category_id: i32, name: Seq<char>, amount: Seq<char> },
    UpdateExpense { expense_id: i32, category_id: i32, name: Seq<char>, amount: Seq<char> },
    DeleteExpense { expense_id: i32 },
}

impl View for DbWrite {
    type V = DbWriteView;

    open spec fn view(&self) -> DbWriteView {
        match self {
            DbWrite::CreateCategory { user_id, name, descrip } => DbWriteView::CreateCategory {
                user_id: *user_id,
                name: name@,
                descrip: descrip@,
            },
            DbWrite::UpdateCategory { category_id, name, descrip } => DbWriteView::UpdateCategory {
                category_id: *category_id,
                name: name@,
                descrip: descrip@,
            },
            DbWrite::ArchiveCategory { category_id } => DbWriteView::ArchiveCategory {
                category_id: *category_id,
            },
            DbWrite::UnarchiveCategory { category_id } => DbWriteView::UnarchiveCategory {
                category_id: *category_id,
            },
            DbWrite::CreateExpense { user_id, category_id, name, amount } => DbWriteView::CreateExpense {
                user_id: *user_id,
                category_id: *category_id,
                name: name@,
                amount: amount@,
            },
            DbWrite::UpdateExpense { expense_id, category_id, name, amount } => DbWriteView::UpdateExpense {
                expense_id: *expense_id,
                category_id: *category_id,
                name: name@,
                amount: amount@,
            },
            DbWrite::DeleteExpense { expense_id } => DbWriteView::DeleteExpense {
                expense_id: *expense_id,
            },
        }
    }
}

/// What a category or expense request asks of the server.
#[derive(Debug, PartialEq, Eq)]
pub enum RouteAction {
    /// Answer with this response; nothing is written.
    Respond(Result<FlashRedirect, FlashRedirect>),
    /// Make this change, then answer `Ok(response)`.
    Write { write: DbWrite, response: FlashRedirect },
    /// Stop with this message, as the request cannot be served.
    Fail { reason: String },
}

/// The mathematical content of a [`RouteAction`].
pub enum RouteActionView {
    Respond(Result<FlashNote, FlashNote>),
    Write { write: DbWriteView, response: FlashNote },
    Fail { reason: Seq<char> },
}

impl View for RouteAction {
    type V = RouteActionView;

    open spec fn view(&self) -> RouteActionView {
        match self {
            RouteAction::Respond(r) => RouteActionView::Respond(response_view(*r)),
            RouteAction::Write { write, response } => RouteActionView::Write {
                write: write@,
                response: response@,
            },
            RouteAction::Fail { reason } => RouteActionView::Fail { reason: reason@ },
        }
    }
}

/// A page about one record: the record's owner sees it, any other user is
/// told they may not.
#[derive(Debug, PartialEq, Eq)]
pub enum GuardedPage<T> {
    Unauthorized(UnauthorizedAccessContext),
    Authorized(T),
}

} // verus!
