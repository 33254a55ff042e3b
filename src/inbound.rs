use vstd::prelude::*;
use crate::attachment::{AttachmentDescriptor, InboundEvent, media_spec, select_media, event_text, text_spec};
use crate::classify::{BackendOutcome, BackendOutcomeKind, ResponseEnvelope, classify, outcome_spec};
use crate::command::{Command, CommandKind, join_spec, parse, parse_spec, route, route_spec};
use crate::lifecycle::{TicketCloseRequest, TicketOpenRequest, close_request, open_request};
use crate::reply::Reply;

verus! {

/// A non-command message for the backend's intake.
#[derive(Clone, Debug)]
pub struct InboundContentMessage {
    pub chat_id: i64,
    pub author: String,
    pub text: String,
    pub attachments: Vec<AttachmentDescriptor>,
}

/// The first step of handling an event.
#[derive(Clone, Debug)]
pub enum InboundStart {
    /// Answer with this notice and stop.
    Reject(Reply),
    /// Resolve this file identifier to a path, then decide with the attachment.
    Resolve(String),
    /// Decide without an attachment.
    Decide,
}

/// What to do with an event once its attachment is known.
#[derive(Clone, Debug)]
pub enum InboundAction {
    Reply(Reply),
    OpenTicket(TicketOpenRequest),
    CloseTicket(TicketCloseRequest),
    Post(InboundContentMessage),
}

/// An [`InboundStart`] over plain values.
pub enum StartView {
    Reject(Reply),
    Resolve(Seq<char>),
    Decide,
}

/// An [`InboundAction`] over plain values; an attachment is a (name, location) pair.
pub enum ActionView {
    Reply(Reply),
    OpenTicket(i64, Seq<char>),
    CloseTicket(i64),
    Post(i64, Seq<char>, Seq<char>, Seq<(Seq<char>, Seq<char>)>),
}

pub open spec fn attachment_view(a: AttachmentDescriptor) -> (Seq<char>, Seq<char>) {
    (a.name@, a.location@)
}

impl InboundStart {
    pub open spec fn view(&self) -> StartView {
        match self {
            InboundStart::Reject(r) => StartView::Reject(*r),
            InboundStart::Resolve(id) => StartView::Resolve(id@),
            InboundStart::Decide => StartView::Decide,
        }
    }
}

impl InboundAction {
    pub open spec fn view(&self) -> ActionView {
        match self {
            InboundAction::Reply(r) => ActionView::Reply(*r),
            InboundAction::OpenTicket(q) => ActionView::OpenTicket(q.chat_id, q.title@),
            InboundAction::CloseTicket(q) => ActionView::CloseTicket(q.chat_id),
            InboundAction::Post(m) => ActionView::Post(
                m.chat_id,
                m.author@,
                m.text@,
                m.attachments@.map_values(|a: AttachmentDescriptor| attachment_view(a)),
            ),
        }
    }
}

/// Events from group-like chats (negative identifiers) are refused.
pub open spec fn is_direct(chat_id: i64) -> bool {
    chat_id >= 0
}

pub open spec fn start_spec(ev: InboundEvent) -> StartView {
    if !is_direct(ev.chat_id) {
        StartView::Reject(Reply::DirectOnly)
    } else {
        match media_spec(ev) {
            Some((_, id)) => StartView::Resolve(id),
            None => StartView::Decide,
        }
    }
}

/// Shown as the author where the sender is unknown.
pub open spec fn unknown_author() -> Seq<char> {
    "Unknown User"@
}

pub open spec fn author_spec(ev: InboundEvent) -> Seq<char> {
    match ev.author {
        Some(a) => a@,
        None => unknown_author(),
    }
}

pub open spec fn attachments_spec(att: Option<(Seq<char>, Seq<char>)>) -> Seq<(Seq<char>, Seq<char>)> {
    match att {
        Some(a) => seq![a],
        None => Seq::empty(),
    }
}

/// The decision for an event, given the attachment resolved for it.
pub open spec fn decide_spec(
    ev: InboundEvent,
    bot_name: Seq<char>,
    att: Option<(Seq<char>, Seq<char>)>,
) -> ActionView {
    if !is_direct(ev.chat_id) {
        ActionView::Reply(Reply::DirectOnly)
    } else {
        let (c, args) = parse_spec(text_spec(ev), bot_name);
        match route_spec(c, args) {
            CommandKind::OpenTicket(a) => if join_spec(a).len() == 0 {
                ActionView::Reply(Reply::MissingTitle)
            } else {
                ActionView::OpenTicket(ev.chat_id, join_spec(a))
            },
            CommandKind::CloseTicket => ActionView::CloseTicket(ev.chat_id),
            CommandKind::Start => ActionView::Reply(Reply::Welcome),
            CommandKind::Content => ActionView::Post(
                ev.chat_id,
                author_spec(ev),
                text_spec(ev),
                attachments_spec(att),
            ),
        }
    }
}

pub open spec fn opt_attachment_view(a: Option<AttachmentDescriptor>) -> Option<(Seq<char>, Seq<char>)> {
    match a {
        Some(a) => Some(attachment_view(a)),
        None => None,
    }
}

/// First step for an event: refuse group-like chats, else ask for the
/// attachment's file to be resolved where the event carries media.
pub fn begin(ev: &InboundEvent) -> (r: InboundStart)
    ensures
        r@ == start_spec(*ev),
{
    if ev.chat_id < 0 {
        return InboundStart::Reject(Reply::DirectOnly);
    }
    match select_media(ev) {
        Some(m) => InboundStart::Resolve(m.file_id),
        None => InboundStart::Decide,
    }
}

/// Decides what an event asks for: a command's request or reply, or the
/// content message to relay with its attachment.
pub fn decide(ev: &InboundEvent, bot_name: &str, attachment: Option<AttachmentDescriptor>) -> (r: InboundAction)
    ensures
        r@ == decide_spec(*ev, bot_name@, opt_attachment_view(attachment)),
{
    if ev.chat_id < 0 {
        return InboundAction::Reply(Reply::DirectOnly);
    }
    let text = event_text(ev);
    let (c, args) = parse(text.as_str(), bot_name);
    match route(c.as_str(), args) {
        Command::OpenTicket(a) => match open_request(ev.chat_id, &a) {
            Ok(q) => InboundAction::OpenTicket(q),
            Err(e) => InboundAction::Reply(e),
        },
        Command::CloseTicket => InboundAction::CloseTicket(close_request(ev.chat_id)),
        Command::Start => InboundAction::Reply(Reply::Welcome),
        Command::Content => {
            let author = match &ev.author {
                Some(a) => a.clone(),
                None => {
                    proof { reveal_strlit("Unknown User"); }
                    String::from_str("Unknown User")
                },
            };
            let mut attachments: Vec<AttachmentDescriptor> = Vec::new();
            match attachment {
                Some(a) => attachments.push(a),
                None => {},
            }
            let r = InboundAction::Post(InboundContentMessage { chat_id: ev.chat_id, author, text, attachments });
            proof {
                assert(attachments@.map_values(|a: AttachmentDescriptor| attachment_view(a))
                    =~= attachments_spec(opt_attachment_view(attachment)));
                assert(author@ == author_spec(*ev));
                assert(r@ == decide_spec(*ev, bot_name@, opt_attachment_view(attachment)));
            }
            r
        },
    }
}

/// An event from a group-like chat is refused with the direct-message notice
/// at either step, whatever it carries: no request for the backend comes of it.
pub proof fn lemma_group_chat_refused(
    ev: InboundEvent,
    bot_name: Seq<char>,
    att: Option<(Seq<char>, Seq<char>)>,
)
    requires
        ev.chat_id < 0,
    ensures
        start_spec(ev) == StartView::Reject(Reply::DirectOnly),
        decide_spec(ev, bot_name, att) == ActionView::Reply(Reply::DirectOnly),
{
}

/// Deciding keeps no memory of earlier events: each time a direct event
/// whose text is no command is decided, the decision is to post its content
/// to the backend, so the same message sent twice is posted twice.
pub proof fn lemma_content_always_posted(
    ev: InboundEvent,
    bot_name: Seq<char>,
    att: Option<(Seq<char>, Seq<char>)>,
)
    requires
        is_direct(ev.chat_id),
        route_spec(parse_spec(text_spec(ev), bot_name).0, parse_spec(text_spec(ev), bot_name).1)
            is Content,
    ensures
        decide_spec(ev, bot_name, att) == ActionView::Post(
            ev.chat_id,
            author_spec(ev),
            text_spec(ev),
            attachments_spec(att),
        ),
{
}

pub open spec fn message_reply_spec(k: BackendOutcomeKind) -> Option<Reply> {
    match k {
        BackendOutcomeKind::Success => None,
        BackendOutcomeKind::LogicConflict => Some(Reply::NoActiveTicket),
        BackendOutcomeKind::TransientError => Some(Reply::RelayFailed),
    }
}

/// The reply after relaying content: none on success, a request to open a
/// ticket on a conflict, an apology otherwise.
pub fn message_reply(outcome: &BackendOutcome) -> (r: Option<Reply>)
    ensures
        r == message_reply_spec(outcome.kind()),
{
    match outcome {
        BackendOutcome::Success => None,
        BackendOutcome::LogicConflict(_) => Some(Reply::NoActiveTicket),
        BackendOutcome::TransientError => Some(Reply::RelayFailed),
    }
}

/// The reply to the intake's answer, or to its absence (`None`).
pub fn post_reply(resp: &Option<ResponseEnvelope>) -> (r: Option<Reply>)
    ensures
        r == message_reply_spec(match *resp {
            None => BackendOutcomeKind::TransientError,
            Some(e) => outcome_spec(e.status@, e.code, e.message@, None),
        }),
{
    match resp {
        None => Some(Reply::RelayFailed),
        Some(e) => message_reply(&classify(e)),
    }
}

} // verus!
