//! Deleting a record from its page: the delete button asks for a
//! confirmation first, the request goes out only once it is confirmed, and
//! its answer either leaves the page for the list or shows the error.

use vstd::prelude::*;
use crate::client::{author_url, book_url};
use crate::error::Resource;
use crate::text::decimal;

verus! {

/// Where a deletion stands.
#[derive(Debug, Clone, Copy, PartialEq, Eq)]
pub enum DeleteState {
    /// Nothing asked yet.
    Idle,
    /// The confirmation is on screen.
    Confirming,
    /// The request is out.
    Deleting,
}

/// What happens on the page.
#[derive(Debug, Clone, PartialEq)]
pub enum DeleteEvent {
    /// The delete button was pressed.
    Requested,
    /// The confirmation was declined.
    Cancelled,
    /// The confirmation was accepted.
    Confirmed,
    /// The request was answered: the record is gone.
    Deleted,
    /// The request failed with this message.
    Failed(String),
}

/// What the page does next.
#[derive(Debug, Clone, PartialEq)]
pub enum DeleteAction {
    Nothing,
    /// Show the confirmation with this question.
    AskConfirmation(String),
    /// Send the deletion to this API address.
    Send(String),
    /// Go to this page.
    Navigate(String),
    /// Show this error in place of the record.
    ShowError(String),
}

/// The abstract content of an action.
pub enum DeleteActionView {
    Nothing,
    AskConfirmation(Seq<char>),
    Send(Seq<char>),
    Navigate(Seq<char>),
    ShowError(Seq<char>),
}

impl View for DeleteAction {
    type V = DeleteActionView;

    open spec fn view(&self) -> DeleteActionView {
        match self {
            DeleteAction::Nothing => DeleteActionView::Nothing,
            DeleteAction::AskConfirmation(s) => DeleteActionView::AskConfirmation(s@),
            DeleteAction::Send(s) => DeleteActionView::Send(s@),
            DeleteAction::Navigate(s) => DeleteActionView::Navigate(s@),
            DeleteAction::ShowError(s) => DeleteActionView::ShowError(s@),
        }
    }
}

/// The question asked before deleting.
pub open spec fn confirm_question(r: Resource) -> Seq<char> {
    match r {
        Resource::Author => "Delete this author? This cannot be undone."@,
        Resource::Book => "Delete this book? This cannot be undone."@,
    }
}

/// The API address that deletes the record.
pub open spec fn delete_address(r: Resource, id: int) -> Seq<char> {
    match r {
        Resource::Author => "/api/authors/"@ + decimal(id),
        Resource::Book => "/api/books/"@ + decimal(id),
    }
}

/// The list a deleted record's page goes back to.
pub open spec fn list_page(r: Resource) -> Seq<char> {
    match r {
        Resource::Author => "/authors"@,
        Resource::Book => "/"@,
    }
}

/// The next state and action of a deletion of record `id` of kind `r`.
pub open spec fn delete_next(s: DeleteState, r: Resource, id: int, e: DeleteEvent) -> (
    DeleteState,
    DeleteActionView,
) {
    match (s, e) {
        (DeleteState::Idle, DeleteEvent::Requested) => (
            DeleteState::Confirming,
            DeleteActionView::AskConfirmation(confirm_question(r)),
        ),
        (DeleteState::Confirming, DeleteEvent::Cancelled) => (DeleteState::Idle, DeleteActionView::Nothing),
        (DeleteState::Confirming, DeleteEvent::Confirmed) => (
            DeleteState::Deleting,
            DeleteActionView::Send(delete_address(r, id)),
        ),
        (DeleteState::Deleting, DeleteEvent::Deleted) => (
            DeleteState::Idle,
            DeleteActionView::Navigate(list_page(r)),
        ),
        (DeleteState::Deleting, DeleteEvent::Failed(m)) => (
            DeleteState::Idle,
            DeleteActionView::ShowError(m@),
        ),
        _ => (s, DeleteActionView::Nothing),
    }
}

/// One step of a deletion: from where it stands and what happened, where it
/// stands next and what the page does.
pub fn delete_step(s: DeleteState, r: Resource, id: i64, e: DeleteEvent) -> (res: (
    DeleteState,
    DeleteAction,
))
    ensures
        (res.0, res.1@) == delete_next(s, r, id as int, e),
{
    match (s, e) {
        (DeleteState::Idle, DeleteEvent::Requested) => {
            let q = match r {
                Resource::Author => "Delete this author? This cannot be undone.".to_owned(),
                Resource::Book => "Delete this book? This cannot be undone.".to_owned(),
            };
            (DeleteState::Confirming, DeleteAction::AskConfirmation(q))
        },
        (DeleteState::Confirming, DeleteEvent::Cancelled) => (DeleteState::Idle, DeleteAction::Nothing),
        (DeleteState::Confirming, DeleteEvent::Confirmed) => {
            let url = match r {
                Resource::Author => author_url(id),
                Resource::Book => book_url(id),
            };
            (DeleteState::Deleting, DeleteAction::Send(url))
        },
        (DeleteState::Deleting, DeleteEvent::Deleted) => {
            let to = match r {
                Resource::Author => "/authors".to_owned(),
                Resource::Book => "/".to_owned(),
            };
            (DeleteState::Idle, DeleteAction::Navigate(to))
        },
        (DeleteState::Deleting, DeleteEvent::Failed(m)) => (
            DeleteState::Idle,
            DeleteAction::ShowError(m),
        ),
        (s, _) => (s, DeleteAction::Nothing),
    }
}

/// The delete button's text.
pub fn delete_button_label(s: DeleteState, r: Resource) -> (res: &'static str)
    ensures
        res@ == if s == DeleteState::Deleting {
            "Deleting..."@
        } else {
            match r {
                Resource::Author => "Delete Author"@,
                Resource::Book => "Delete Book"@,
            }
        },
{
    match s {
        DeleteState::Deleting => "Deleting...",
        _ => match r {
            Resource::Author => "Delete Author",
            Resource::Book => "Delete Book",
        },
    }
}

/// Whether the delete button is disabled: while the request is out.
pub fn delete_button_disabled(s: DeleteState) -> (res: bool)
    ensures
        res == (s == DeleteState::Deleting),
{
    match s {
        DeleteState::Deleting => true,
        _ => false,
    }
}

/// A deletion is sent only when a confirmation on screen is accepted; in
/// particular no single event sends one from a page where nothing was asked,
/// and declining the confirmation sends nothing and returns to the start.
pub proof fn lemma_delete_needs_confirmation(s: DeleteState, r: Resource, id: int, e: DeleteEvent)
    ensures
        delete_next(s, r, id, e).1 is Send ==> s == DeleteState::Confirming && e == DeleteEvent::Confirmed,
        s == DeleteState::Idle ==> !(delete_next(s, r, id, e).1 is Send),
        s == DeleteState::Confirming && e == DeleteEvent::Cancelled ==> delete_next(s, r, id, e).0
            == DeleteState::Idle && delete_next(s, r, id, e).1 is Nothing,
{
}

/// Accepting the confirmation of a request sends the deletion of that record,
/// and a successful answer leaves for the list.
pub proof fn lemma_delete_round(r: Resource, id: int)
    ensures
        ({
            let asked = delete_next(DeleteState::Idle, r, id, DeleteEvent::Requested);
            let sent = delete_next(asked.0, r, id, DeleteEvent::Confirmed);
            let done = delete_next(sent.0, r, id, DeleteEvent::Deleted);
            &&& sent.1 == DeleteActionView::Send(delete_address(r, id))
            &&& done == (DeleteState::Idle, DeleteActionView::Navigate(list_page(r)))
        }),
{
}

} // verus!
