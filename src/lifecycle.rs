use vstd::prelude::*;
use crate::classify::{BackendOutcome, BackendOutcomeKind, ResponseEnvelope, outcome_of, response_outcome};
use crate::command::{join_spec, join_words, words_view};
use crate::reply::Reply;

verus! {

/// Body of the backend's ticket-open call.
#[derive(Clone, Debug)]
pub struct TicketOpenRequest {
    pub chat_id: i64,
    pub title: String,
}

/// Body of the backend's ticket-close call.
#[derive(Clone, Copy, Debug, PartialEq, Eq, Structural)]
pub struct TicketCloseRequest {
    pub chat_id: i64,
}

/// Builds the open request for a chat, with the arguments joined by spaces
/// as its title; an empty title is refused before anything is sent.
pub fn open_request(chat_id: i64, args: &Vec<String>) -> (r: Result<TicketOpenRequest, Reply>)
    ensures
        (r is Err) == (join_spec(words_view(args@)).len() == 0),
        r matches Err(e) ==> e == Reply::MissingTitle,
        r matches Ok(q) ==> q.chat_id == chat_id && q.title@ == join_spec(words_view(args@)),
{
    let title = join_words(args);
    if title.as_str().unicode_len() == 0 {
        Err(Reply::MissingTitle)
    } else {
        Ok(TicketOpenRequest { chat_id, title })
    }
}

/// Builds the close request for a chat.
pub fn close_request(chat_id: i64) -> (r: TicketCloseRequest)
    ensures
        r.chat_id == chat_id,
{
    TicketCloseRequest { chat_id }
}

/// Message with which the open endpoint reports an active ticket.
pub open spec fn open_conflict_label() -> Seq<char> {
    "forum exists"@
}

/// Message with which the close endpoint reports a missing ticket.
pub open spec fn close_conflict_label() -> Seq<char> {
    "forum not found"@
}

pub open spec fn open_reply_spec(k: BackendOutcomeKind) -> Reply {
    match k {
        BackendOutcomeKind::Success => Reply::TicketOpened,
        BackendOutcomeKind::LogicConflict => Reply::TicketAlreadyOpen,
        BackendOutcomeKind::TransientError => Reply::OpenFailed,
    }
}

pub open spec fn close_reply_spec(k: BackendOutcomeKind) -> Reply {
    match k {
        BackendOutcomeKind::Success => Reply::TicketClosed,
        BackendOutcomeKind::LogicConflict => Reply::TicketNotFound,
        BackendOutcomeKind::TransientError => Reply::CloseFailed,
    }
}

/// The reply to an open request: on a conflict the chat already has a ticket.
pub fn open_reply(outcome: &BackendOutcome) -> (r: Reply)
    ensures
        r == open_reply_spec(outcome.kind()),
{
    match outcome {
        BackendOutcome::Success => Reply::TicketOpened,
        BackendOutcome::LogicConflict(_) => Reply::TicketAlreadyOpen,
        BackendOutcome::TransientError => Reply::OpenFailed,
    }
}

/// The reply to a close request: on a conflict the chat has no ticket.
pub fn close_reply(outcome: &BackendOutcome) -> (r: Reply)
    ensures
        r == close_reply_spec(outcome.kind()),
{
    match outcome {
        BackendOutcome::Success => Reply::TicketClosed,
        BackendOutcome::LogicConflict(_) => Reply::TicketNotFound,
        BackendOutcome::TransientError => Reply::CloseFailed,
    }
}

/// The reply to the open endpoint's answer, or to its absence (`None`).
pub fn open_ticket_reply(resp: &Option<ResponseEnvelope>) -> (r: Reply)
    ensures
        r == open_reply_spec(response_outcome(*resp, Some(open_conflict_label()))),
{
    proof { reveal_strlit("forum exists"); }
    open_reply(&outcome_of(resp, "forum exists"))
}

/// The reply to the close endpoint's answer, or to its absence (`None`).
pub fn close_ticket_reply(resp: &Option<ResponseEnvelope>) -> (r: Reply)
    ensures
        r == close_reply_spec(response_outcome(*resp, Some(close_conflict_label()))),
{
    proof { reveal_strlit("forum not found"); }
    close_reply(&outcome_of(resp, "forum not found"))
}

} // verus!
