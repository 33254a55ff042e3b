use vstd::prelude::*;
use crate::attachment::AttachmentDescriptor;

verus! {

/// Whether url's parser accepts a string as an absolute URL.
pub uninterp spec fn url_parses(s: Seq<char>) -> bool;

/// Relies on url::Url::parse: whether it accepts a string depends on the
/// string alone.
#[verifier::external_body]
fn is_url(s: &str) -> (r: bool)
    ensures
        r == url_parses(s@),
{
    url::Url::parse(s).is_ok()
}

/// A message from the backend for a chat: author, text and attachments whose
/// locations are URLs to fetch.
#[derive(Clone, Debug)]
pub struct OutboundContentMessage {
    pub chat_id: i64,
    pub author: String,
    pub text: String,
    pub attachments: Vec<AttachmentDescriptor>,
}

/// Where delivery of an outbound message stands.
#[derive(Clone, Copy, Debug, PartialEq, Eq, Structural)]
pub enum Stage {
    /// The text is to be sent.
    Text,
    /// The attachment at this index is to be sent.
    File(usize),
    /// Some attachment failed: the aggregate notice is to be sent.
    Notice,
    /// Finished; the backend is answered with success.
    Done,
    /// The text could not be delivered; the backend is answered with failure.
    Failed,
}

/// Delivery of one outbound message, step by step: each step's action is
/// performed by the caller, who reports whether it was delivered.
#[derive(Clone, Debug)]
pub struct OutboundRelay {
    pub message: OutboundContentMessage,
    pub stage: Stage,
    /// Attachments that could not be delivered so far.
    pub failures: usize,
}

/// One delivery into the chat, or the answer to the backend.
#[derive(Clone, Debug)]
pub enum OutboundAction {
    SendText(i64, String),
    SendFile(i64, String),
    SendNotice(i64, String),
    Respond(u16, String),
}

/// An [`OutboundAction`] over plain values.
pub enum OutboundView {
    SendText(i64, Seq<char>),
    SendFile(i64, Seq<char>),
    SendNotice(i64, Seq<char>),
    Respond(u16, Seq<char>),
}

impl OutboundAction {
    pub open spec fn view(&self) -> OutboundView {
        match self {
            OutboundAction::SendText(c, t) => OutboundView::SendText(*c, t@),
            OutboundAction::SendFile(c, u) => OutboundView::SendFile(*c, u@),
            OutboundAction::SendNotice(c, t) => OutboundView::SendNotice(*c, t@),
            OutboundAction::Respond(s, b) => OutboundView::Respond(*s, b@),
        }
    }
}

/// The line delivered into the chat: `"<author>: <text>"`.
pub open spec fn chat_line(author: Seq<char>, text: Seq<char>) -> Seq<char> {
    author + ": "@ + text
}

/// The textual echo returned to the backend.
pub open spec fn echo_line(author: Seq<char>, text: Seq<char>) -> Seq<char> {
    author + ". You sent: "@ + text
}

/// The aggregate notice sent when some attachment failed.
pub open spec fn failure_notice(author: Seq<char>) -> Seq<char> {
    "One or more files sent by "@ + author + " failed to be sent"@
}

/// The answer to the backend when the text could not be delivered.
pub open spec fn text_failure_body() -> Seq<char> {
    "Error at sending message"@
}

/// The first index from `j` on whose location is a URL, or the length.
pub open spec fn next_valid(locs: Seq<Seq<char>>, j: int) -> int
    decreases locs.len() - j,
{
    if j >= locs.len() {
        locs.len() as int
    } else if url_parses(locs[j]) {
        j
    } else {
        next_valid(locs, j + 1)
    }
}

/// How many locations from `j` on are skipped as no URL before the next one
/// that is.
pub open spec fn skipped(locs: Seq<Seq<char>>, j: int) -> int
    decreases locs.len() - j,
{
    if j >= locs.len() || url_parses(locs[j]) {
        0
    } else {
        1 + skipped(locs, j + 1)
    }
}

/// Stage and failure count after moving on to attachment `j`: locations that
/// are no URL count as failures, and after the last attachment comes the
/// notice if anything failed.
pub open spec fn skip_spec(locs: Seq<Seq<char>>, j: int, f: int) -> (Stage, int) {
    let k = next_valid(locs, j);
    let f2 = f + skipped(locs, j);
    if k < locs.len() {
        (Stage::File(k as usize), f2)
    } else if f2 > 0 {
        (Stage::Notice, f2)
    } else {
        (Stage::Done, f2)
    }
}

/// The stage and failure count after the current step was reported.
pub open spec fn step_spec(locs: Seq<Seq<char>>, stage: Stage, f: int, delivered: bool) -> (Stage, int) {
    match stage {
        Stage::Text => if delivered {
            skip_spec(locs, 0, f)
        } else {
            (Stage::Failed, f)
        },
        Stage::File(i) => skip_spec(locs, i + 1, if delivered { f } else { f + 1 }),
        Stage::Notice => (Stage::Done, f),
        Stage::Done => (Stage::Done, f),
        Stage::Failed => (Stage::Failed, f),
    }
}

proof fn lemma_skip_bounds(locs: Seq<Seq<char>>, j: int)
    requires
        0 <= j <= locs.len(),
    ensures
        j <= next_valid(locs, j) <= locs.len(),
        skipped(locs, j) == next_valid(locs, j) - j,
        next_valid(locs, j) < locs.len() ==> url_parses(locs[next_valid(locs, j)]),
    decreases locs.len() - j,
{
    if j < locs.len() && !url_parses(locs[j]) {
        lemma_skip_bounds(locs, j + 1);
    }
}

/// A failed attachment never ends delivery: the relay moves on to the next
/// attachment or to the aggregate notice, with the failure counted; after the
/// notice comes the answer to the backend, whatever became of the notice.
pub proof fn lemma_attachment_failure_not_fatal(locs: Seq<Seq<char>>, i: usize, f: int, notice_sent: bool)
    requires
        i < locs.len(),
        0 <= f,
    ensures
        step_spec(locs, Stage::File(i), f, false).0 != Stage::Failed,
        step_spec(locs, Stage::File(i), f, false).0 != Stage::Done,
        step_spec(locs, Stage::File(i), f, false).1 == f + 1 + skipped(locs, i + 1),
        step_spec(locs, Stage::Notice, f, notice_sent) == (Stage::Done, f),
{
    lemma_skip_bounds(locs, i + 1);
}

/// An attachment's location goes to delivery as it stands: moving on to an
/// attachment whose location is a URL stops at it, and the action then sends
/// that very location.
pub proof fn lemma_location_sent_unchanged(relay: OutboundRelay, j: usize)
    requires
        relay.wf(),
        j < relay.message.attachments@.len(),
        url_parses(relay.message.attachments@[j as int].location@),
    ensures
        skip_spec(relay.locations(), j as int, relay.failures as int).0 == Stage::File(j),
        (OutboundRelay { stage: Stage::File(j), ..relay }).action_spec() == OutboundView::SendFile(
            relay.message.chat_id,
            relay.message.attachments@[j as int].location@,
        ),
{
    assert(relay.locations()[j as int] == relay.message.attachments@[j as int].location@);
}

impl OutboundRelay {
    pub open spec fn locations(&self) -> Seq<Seq<char>> {
        self.message.attachments@.map_values(|a: AttachmentDescriptor| a.location@)
    }

    pub open spec fn wf(&self) -> bool {
        let n = self.message.attachments@.len();
        &&& self.failures <= n
        &&& match self.stage {
            Stage::Text => self.failures == 0,
            Stage::File(i) => i < n && self.failures <= i,
            _ => true,
        }
    }

    /// The action that the current stage asks for.
    pub open spec fn action_spec(&self) -> OutboundView {
        let m = self.message;
        match self.stage {
            Stage::Text => OutboundView::SendText(m.chat_id, chat_line(m.author@, m.text@)),
            Stage::File(i) => OutboundView::SendFile(m.chat_id, self.locations()[i as int]),
            Stage::Notice => OutboundView::SendNotice(m.chat_id, failure_notice(m.author@)),
            Stage::Done => OutboundView::Respond(200, echo_line(m.author@, m.text@)),
            Stage::Failed => OutboundView::Respond(400, text_failure_body()),
        }
    }

    /// Starts delivery of a message with its text.
    pub fn new(message: OutboundContentMessage) -> (r: OutboundRelay)
        ensures
            r.wf(),
            r.message == message,
            r.stage == Stage::Text,
            r.failures == 0,
    {
        OutboundRelay { message, stage: Stage::Text, failures: 0 }
    }

    /// Whether the backend has been answered and nothing is left to do.
    pub fn is_finished(&self) -> (r: bool)
        ensures
            r == (self.stage == Stage::Done || self.stage == Stage::Failed),
    {
        match self.stage {
            Stage::Done | Stage::Failed => true,
            _ => false,
        }
    }

    /// The action of the current stage.
    pub fn action(&self) -> (r: OutboundAction)
        requires
            self.wf(),
        ensures
            r@ == self.action_spec(),
    {
        let m = &self.message;
        match self.stage {
            Stage::Text => {
                let mut t = m.author.clone();
                t.append(": ");
                t.append(m.text.as_str());
                proof {
                    reveal_strlit(": ");
                    assert(t@ =~= chat_line(m.author@, m.text@));
                }
                OutboundAction::SendText(m.chat_id, t)
            },
            Stage::File(i) => {
                let u = m.attachments[i].location.clone();
                OutboundAction::SendFile(m.chat_id, u)
            },
            Stage::Notice => {
                let mut t = String::from_str("One or more files sent by ");
                t.append(m.author.as_str());
                t.append(" failed to be sent");
                proof {
                    reveal_strlit("One or more files sent by ");
                    reveal_strlit(" failed to be sent");
                    assert(t@ =~= failure_notice(m.author@));
                }
                OutboundAction::SendNotice(m.chat_id, t)
            },
            Stage::Done => {
                let mut t = m.author.clone();
                t.append(". You sent: ");
                t.append(m.text.as_str());
                proof {
                    reveal_strlit(". You sent: ");
                    assert(t@ =~= echo_line(m.author@, m.text@));
                }
                OutboundAction::Respond(200, t)
            },
            Stage::Failed => {
                proof { reveal_strlit("Error at sending message"); }
                OutboundAction::Respond(400, String::from_str("Error at sending message"))
            },
        }
    }

    /// Moves on to attachment `j`, counting those whose location is no URL
    /// as failed without sending them.
    fn skip_to(&mut self, j: usize)
        requires
            j <= old(self).message.attachments@.len(),
            old(self).failures <= j,
        ensures
            final(self).message == old(self).message,
            final(self).wf(),
            (final(self).stage, final(self).failures as int)
                == skip_spec(old(self).locations(), j as int, old(self).failures as int),
    {
        let n = self.message.attachments.len();
        let ghost locs = self.locations();
        let ghost f0 = self.failures as int;
        let mut k: usize = j;
        proof { lemma_skip_bounds(locs, j as int); }
        while k < n && !is_url(self.message.attachments[k].location.as_str())
            invariant
                n == self.message.attachments@.len(),
                locs == self.locations(),
                self.message == old(self).message,
                j <= k <= n,
                self.failures <= k,
                self.failures == f0 + (k - j),
                next_valid(locs, j as int) == next_valid(locs, k as int),
                skipped(locs, j as int) == (k - j) + skipped(locs, k as int),
            decreases n - k,
        {
            proof {
                assert(locs[k as int] == self.message.attachments@[k as int].location@);
            }
            self.failures = self.failures + 1;
            k = k + 1;
        }
        proof {
            lemma_skip_bounds(locs, k as int);
            if k < n {
                assert(locs[k as int] == self.message.attachments@[k as int].location@);
            }
        }
        if k < n {
            self.stage = Stage::File(k);
        } else if self.failures > 0 {
            self.stage = Stage::Notice;
        } else {
            self.stage = Stage::Done;
        }
    }

    /// Records whether the current action was delivered and moves on. A failed
    /// text ends delivery; a failed attachment is counted and the next one is
    /// still sent; the notice's own result changes nothing.
    pub fn advance(&mut self, delivered: bool)
        requires
            old(self).wf(),
        ensures
            final(self).wf(),
            final(self).message == old(self).message,
            (final(self).stage, final(self).failures as int) == step_spec(
                old(self).locations(),
                old(self).stage,
                old(self).failures as int,
                delivered,
            ),
    {
        match self.stage {
            Stage::Text => {
                if delivered {
                    self.skip_to(0);
                } else {
                    self.stage = Stage::Failed;
                }
            },
            Stage::File(i) => {
                let n = self.message.attachments.len();
                proof { assert(i < n); }
                if !delivered {
                    self.failures = self.failures + 1;
                }
                self.skip_to(i + 1);
            },
            Stage::Notice => {
                self.stage = Stage::Done;
            },
            Stage::Done | Stage::Failed => {},
        }
    }
}

} // verus!
