use vstd::prelude::*;

verus! {

/// One attachment: a file name and where the file can be fetched.
#[derive(Clone, Debug)]
pub struct AttachmentDescriptor {
    pub name: String,
    pub location: String,
}

/// An inbound chat event, as plain values: the chat, the sender, the text or
/// caption, and the transient file identifier of each media field.
#[derive(Clone, Debug)]
pub struct InboundEvent {
    pub chat_id: i64,
    pub author: Option<String>,
    pub text: Option<String>,
    pub caption: Option<String>,
    /// Identifiers of the photo's sizes, smallest first.
    pub photo: Vec<String>,
    pub audio: Option<String>,
    pub document: Option<String>,
    pub animation: Option<String>,
    pub sticker: Option<String>,
    pub video: Option<String>,
    pub voice: Option<String>,
}

/// The media kinds, in the order in which they are taken.
#[derive(Clone, Copy, Debug, PartialEq, Eq, Structural)]
pub enum MediaKind {
    Photo,
    Audio,
    Document,
    Animation,
    Sticker,
    Video,
    Voice,
}

/// The media field that an event's attachment comes from.
#[derive(Clone, Debug)]
pub struct Media {
    pub kind: MediaKind,
    pub file_id: String,
}

/// The first populated media field in priority order, with its file
/// identifier; for a photo, that of its largest size.
pub open spec fn media_spec(ev: InboundEvent) -> Option<(MediaKind, Seq<char>)> {
    if ev.photo@.len() > 0 {
        Some((MediaKind::Photo, ev.photo@.last()@))
    } else if ev.audio is Some {
        Some((MediaKind::Audio, ev.audio->0@))
    } else if ev.document is Some {
        Some((MediaKind::Document, ev.document->0@))
    } else if ev.animation is Some {
        Some((MediaKind::Animation, ev.animation->0@))
    } else if ev.sticker is Some {
        Some((MediaKind::Sticker, ev.sticker->0@))
    } else if ev.video is Some {
        Some((MediaKind::Video, ev.video->0@))
    } else if ev.voice is Some {
        Some((MediaKind::Voice, ev.voice->0@))
    } else {
        None
    }
}

pub open spec fn media_view(m: Option<Media>) -> Option<(MediaKind, Seq<char>)> {
    match m {
        Some(m) => Some((m.kind, m.file_id@)),
        None => None,
    }
}

fn take(kind: MediaKind, id: &String) -> (r: Option<Media>)
    ensures
        media_view(r) == Some((kind, id@)),
{
    Some(Media { kind, file_id: id.clone() })
}

/// Picks the one media field that an event's attachment is taken from.
pub fn select_media(ev: &InboundEvent) -> (r: Option<Media>)
    ensures
        media_view(r) == media_spec(*ev),
{
    let n = ev.photo.len();
    if n > 0 {
        take(MediaKind::Photo, &ev.photo[n - 1])
    } else if let Some(id) = &ev.audio {
        take(MediaKind::Audio, id)
    } else if let Some(id) = &ev.document {
        take(MediaKind::Document, id)
    } else if let Some(id) = &ev.animation {
        take(MediaKind::Animation, id)
    } else if let Some(id) = &ev.sticker {
        take(MediaKind::Sticker, id)
    } else if let Some(id) = &ev.video {
        take(MediaKind::Video, id)
    } else if let Some(id) = &ev.voice {
        take(MediaKind::Voice, id)
    } else {
        None
    }
}

/// The text an event carries: its own text, else the caption of its
/// attachment, else nothing.
pub open spec fn text_spec(ev: InboundEvent) -> Seq<char> {
    if ev.text is Some {
        ev.text->0@
    } else if media_spec(ev) is Some && ev.caption is Some {
        ev.caption->0@
    } else {
        Seq::empty()
    }
}

/// The text of an event, falling back to the caption of an attachment.
pub fn event_text(ev: &InboundEvent) -> (r: String)
    ensures
        r@ == text_spec(*ev),
{
    match &ev.text {
        Some(t) => t.clone(),
        None => {
            let m = select_media(ev);
            match (&m, &ev.caption) {
                (Some(_), Some(c)) => c.clone(),
                _ => String::new(),
            }
        },
    }
}

/// Start of every file URL; the bot's credential and the path follow.
pub open spec fn file_base() -> Seq<char> {
    "https://api.telegram.org/file/bot"@
}

/// Where the path fragment's last segment starts: just past its last `/`.
pub open spec fn segment_start(path: Seq<char>) -> int
    decreases path.len(),
{
    if path.len() == 0 {
        0
    } else if path.last() == '/' {
        path.len() as int
    } else {
        segment_start(path.drop_last())
    }
}

/// The final `/`-separated segment of a path.
pub open spec fn last_segment(path: Seq<char>) -> Seq<char> {
    path.subrange(segment_start(path), path.len() as int)
}

/// The fetch URL of a file, given the bot's credential and the path fragment
/// that the chat platform resolved its identifier to.
pub open spec fn file_url(token: Seq<char>, path: Seq<char>) -> Seq<char> {
    file_base() + token + "/"@ + path
}

/// The final segment of a `/`-separated path.
pub fn path_file_name(path: &str) -> (r: String)
    ensures
        r@ == last_segment(path@),
{
    let n = path.unicode_len();
    let mut i: usize = n;
    proof { assert(path@.subrange(0, n as int) =~= path@); }
    while i > 0 && path.get_char(i - 1) != '/'
        invariant
            n == path@.len(),
            i <= n,
            segment_start(path@) == segment_start(path@.subrange(0, i as int)),
        decreases i,
    {
        proof {
            assert(path@.subrange(0, i as int).drop_last() =~= path@.subrange(0, i as int - 1));
        }
        i = i - 1;
    }
    proof {
        if i == 0 {
            assert(path@.subrange(0, 0) =~= Seq::<char>::empty());
        }
    }
    String::from_str(path.substring_char(i, n))
}

/// Builds the attachment of an event from the resolved path fragment: the
/// name is the path's final segment, the location the file URL.
pub fn attachment_from_path(token: &str, path: &str) -> (r: AttachmentDescriptor)
    ensures
        r.name@ == last_segment(path@),
        r.location@ == file_url(token@, path@),
        r.location@.len() > 0,
{
    let name = path_file_name(path);
    let mut location = String::from_str("https://api.telegram.org/file/bot");
    location.append(token);
    location.append("/");
    location.append(path);
    proof {
        reveal_strlit("https://api.telegram.org/file/bot");
        reveal_strlit("/");
        assert(location@ =~= file_url(token@, path@));
    }
    AttachmentDescriptor { name, location }
}

} // verus!
