use telecord::attachment::{
    attachment_from_path, event_text, path_file_name, select_media, AttachmentDescriptor, InboundEvent,
    MediaKind,
};
use telecord::classify::{classify, classify_labelled, outcome_of, BackendOutcome, ResponseEnvelope};
use telecord::command::{join_words, parse, route, Command};
use telecord::inbound::{begin, decide, message_reply, post_reply, InboundAction, InboundStart};
use telecord::lifecycle::{close_reply, close_ticket_reply, open_reply, open_request, open_ticket_reply};
use telecord::outbound::{OutboundAction, OutboundContentMessage, OutboundRelay, Stage};
use telecord::reply::Reply;

fn event(chat_id: i64) -> InboundEvent {
    InboundEvent {
        chat_id,
        author: Some("Ana Putri".to_string()),
        text: None,
        caption: None,
        photo: Vec::new(),
        audio: None,
        document: None,
        animation: None,
        sticker: None,
        video: None,
        voice: None,
    }
}

fn envelope(status: &str, code: u32, message: &str) -> ResponseEnvelope {
    ResponseEnvelope { status: status.to_string(), code, message: message.to_string() }
}

fn words(ws: &[&str]) -> Vec<String> {
    ws.iter().map(|w| w.to_string()).collect()
}

fn attachment(name: &str, location: &str) -> AttachmentDescriptor {
    AttachmentDescriptor { name: name.to_string(), location: location.to_string() }
}

#[test]
fn group_chat_is_refused() {
    for chat in [-1i64, -100123, i64::MIN] {
        for text in ["/open-ticket Printer jam", "/close-ticket", "/start", "hello"] {
            let mut ev = event(chat);
            ev.text = Some(text.to_string());
            ev.photo = words(&["small", "large"]);
            assert!(matches!(begin(&ev), InboundStart::Reject(Reply::DirectOnly)));
            let a = decide(&ev, "bot", Some(attachment("x.jpg", "https://example.com/x.jpg")));
            assert!(matches!(a, InboundAction::Reply(Reply::DirectOnly)));
        }
    }
}

#[test]
fn parse_open_ticket_with_bot_name() {
    let (c, args) = parse("/open-ticket@bot Printer jam", "bot");
    assert_eq!(c, "open-ticket");
    assert_eq!(args, words(&["Printer", "jam"]));
    assert_eq!(join_words(&args), "Printer jam");
    let mut ev = event(42);
    ev.text = Some("/open-ticket@bot Printer jam".to_string());
    match decide(&ev, "bot", None) {
        InboundAction::OpenTicket(q) => {
            assert_eq!(q.chat_id, 42);
            assert_eq!(q.title, "Printer jam");
        }
        other => panic!("unexpected {:?}", other),
    }
}

#[test]
fn parse_non_command_is_empty() {
    let (c, args) = parse("Printer jam", "bot");
    assert_eq!(c, "");
    assert!(args.is_empty());
    let (c, args) = parse("/open-ticket@otherbot x", "bot");
    assert_eq!(c, "");
    assert!(args.is_empty());
    let (c, args) = parse("", "bot");
    assert_eq!(c, "");
    assert!(args.is_empty());
}

#[test]
fn route_commands() {
    assert!(matches!(route("open-ticket", words(&["a"])), Command::OpenTicket(a) if a == words(&["a"])));
    assert!(matches!(route("close-ticket", words(&["extra"])), Command::CloseTicket));
    assert!(matches!(route("start", Vec::new()), Command::Start));
    assert!(matches!(route("help", Vec::new()), Command::Start));
    assert!(matches!(route("", Vec::new()), Command::Content));
    assert!(matches!(route("unknown", Vec::new()), Command::Content));
}

#[test]
fn open_without_title_is_refused() {
    assert!(matches!(open_request(7, &Vec::new()), Err(Reply::MissingTitle)));
    assert!(matches!(open_request(7, &words(&[""])), Err(Reply::MissingTitle)));
    let mut ev = event(7);
    ev.text = Some("/open-ticket".to_string());
    assert!(matches!(decide(&ev, "bot", None), InboundAction::Reply(Reply::MissingTitle)));
}

#[test]
fn open_conflict_is_already_open() {
    let r = open_ticket_reply(&Some(envelope("fail", 2, "active ticket")));
    assert_eq!(r, Reply::TicketAlreadyOpen);
    assert_eq!(open_ticket_reply(&Some(envelope("fail", 3, "forum exists"))), Reply::TicketAlreadyOpen);
    assert_eq!(open_ticket_reply(&Some(envelope("fail", 1, "forum exists"))), Reply::OpenFailed);
    assert_eq!(open_ticket_reply(&Some(envelope("ok", 0, ""))), Reply::TicketOpened);
    assert_eq!(open_ticket_reply(&None), Reply::OpenFailed);
    assert_eq!(open_ticket_reply(&Some(envelope("fail", 0, "other"))), Reply::OpenFailed);
}

#[test]
fn close_ok_is_closed() {
    assert_eq!(close_ticket_reply(&Some(envelope("ok", 0, ""))), Reply::TicketClosed);
    assert_eq!(close_ticket_reply(&Some(envelope("fail", 2, "x"))), Reply::TicketNotFound);
    assert_eq!(close_ticket_reply(&Some(envelope("fail", 5, "forum not found"))), Reply::TicketNotFound);
    assert_eq!(close_ticket_reply(&Some(envelope("fail", 1, ""))), Reply::CloseFailed);
    assert_eq!(close_ticket_reply(&None), Reply::CloseFailed);
}

#[test]
fn classifier_is_generic() {
    assert!(matches!(classify(&envelope("ok", 2, "x")), BackendOutcome::Success));
    assert!(matches!(classify(&envelope("fail", 1, "x")), BackendOutcome::TransientError));
    assert!(matches!(classify(&envelope("fail", 2, "nope")), BackendOutcome::LogicConflict(m) if m == "nope"));
    assert!(matches!(classify(&envelope("fail", 9, "forum exists")), BackendOutcome::TransientError));
    assert!(matches!(
        classify_labelled(&envelope("fail", 9, "forum exists"), "forum exists"),
        BackendOutcome::LogicConflict(m) if m == "forum exists"
    ));
    assert!(matches!(outcome_of(&None, "x"), BackendOutcome::TransientError));
    assert_eq!(open_reply(&BackendOutcome::Success), Reply::TicketOpened);
    assert_eq!(close_reply(&BackendOutcome::LogicConflict("m".to_string())), Reply::TicketNotFound);
}

#[test]
fn message_outcomes() {
    assert_eq!(message_reply(&BackendOutcome::Success), None);
    assert_eq!(message_reply(&BackendOutcome::LogicConflict("x".to_string())), Some(Reply::NoActiveTicket));
    assert_eq!(message_reply(&BackendOutcome::TransientError), Some(Reply::RelayFailed));
    assert_eq!(post_reply(&None), Some(Reply::RelayFailed));
    assert_eq!(post_reply(&Some(envelope("fail", 2, "no forum"))), Some(Reply::NoActiveTicket));
    assert_eq!(post_reply(&Some(envelope("ok", 0, ""))), None);
}

#[test]
fn caption_and_photo() {
    let mut ev = event(5);
    ev.caption = Some("see this".to_string());
    ev.photo = words(&["id-small", "id-large"]);
    assert_eq!(event_text(&ev), "see this");
    let m = select_media(&ev).unwrap();
    assert_eq!(m.kind, MediaKind::Photo);
    assert_eq!(m.file_id, "id-large");
    assert!(matches!(begin(&ev), InboundStart::Resolve(id) if id == "id-large"));
    let att = attachment_from_path("TOKEN", "photos/file_3.jpg");
    match decide(&ev, "bot", Some(att)) {
        InboundAction::Post(msg) => {
            assert_eq!(msg.text, "see this");
            assert_eq!(msg.author, "Ana Putri");
            assert_eq!(msg.attachments.len(), 1);
            assert_eq!(msg.attachments[0].name, "file_3.jpg");
        }
        other => panic!("unexpected {:?}", other),
    }
}

#[test]
fn media_priority_and_absence() {
    let mut ev = event(5);
    assert!(select_media(&ev).is_none());
    assert!(matches!(begin(&ev), InboundStart::Decide));
    assert_eq!(event_text(&ev), "");
    ev.caption = Some("orphan caption".to_string());
    assert_eq!(event_text(&ev), "");
    ev.voice = Some("v".to_string());
    ev.document = Some("d".to_string());
    ev.audio = Some("a".to_string());
    let m = select_media(&ev).unwrap();
    assert_eq!(m.kind, MediaKind::Audio);
    assert_eq!(m.file_id, "a");
    ev.audio = None;
    assert_eq!(select_media(&ev).unwrap().kind, MediaKind::Document);
    ev.text = Some("text wins".to_string());
    assert_eq!(event_text(&ev), "text wins");
}

#[test]
fn file_url_and_name() {
    let a = attachment_from_path("123:abc", "documents/file_9.pdf");
    assert_eq!(a.location, "https://api.telegram.org/file/bot123:abc/documents/file_9.pdf");
    assert_eq!(a.name, "file_9.pdf");
    assert_eq!(path_file_name("plain.txt"), "plain.txt");
    assert_eq!(path_file_name("a/b/"), "");
    assert_eq!(path_file_name(""), "");
}

#[test]
fn unknown_author_placeholder() {
    let mut ev = event(3);
    ev.author = None;
    ev.text = Some("hi".to_string());
    match decide(&ev, "bot", None) {
        InboundAction::Post(msg) => {
            assert_eq!(msg.author, "Unknown User");
            assert!(msg.attachments.is_empty());
        }
        other => panic!("unexpected {:?}", other),
    }
}

#[test]
fn welcome_and_close_commands() {
    let mut ev = event(3);
    ev.text = Some("/start".to_string());
    assert!(matches!(decide(&ev, "bot", None), InboundAction::Reply(Reply::Welcome)));
    ev.text = Some("/close-ticket now please".to_string());
    assert!(matches!(decide(&ev, "bot", None), InboundAction::CloseTicket(q) if q.chat_id == 3));
    assert!(!Reply::Welcome.text().is_empty());
}

#[test]
fn same_message_posted_twice() {
    let mut ev = event(11);
    ev.text = Some("my printer is broken".to_string());
    let first = decide(&ev, "bot", None);
    let second = decide(&ev, "bot", None);
    assert!(matches!(first, InboundAction::Post(ref m) if m.text == "my printer is broken"));
    assert!(matches!(second, InboundAction::Post(ref m) if m.text == "my printer is broken"));
}

fn outbound(urls: &[&str]) -> OutboundContentMessage {
    OutboundContentMessage {
        chat_id: 77,
        author: "Agent".to_string(),
        text: "Hello".to_string(),
        attachments: urls.iter().map(|u| attachment("f", u)).collect(),
    }
}

#[test]
fn outbound_second_attachment_fails() {
    let mut r = OutboundRelay::new(outbound(&[
        "https://example.com/1.pdf",
        "https://example.com/2.pdf",
        "https://example.com/3.pdf",
    ]));
    assert!(matches!(r.action(), OutboundAction::SendText(77, t) if t == "Agent: Hello"));
    r.advance(true);
    assert!(matches!(r.action(), OutboundAction::SendFile(77, u) if u == "https://example.com/1.pdf"));
    r.advance(true);
    assert!(matches!(r.action(), OutboundAction::SendFile(77, u) if u == "https://example.com/2.pdf"));
    r.advance(false);
    assert!(matches!(r.action(), OutboundAction::SendFile(77, u) if u == "https://example.com/3.pdf"));
    r.advance(true);
    assert_eq!(r.failures, 1);
    assert!(matches!(r.action(), OutboundAction::SendNotice(77, t)
        if t == "One or more files sent by Agent failed to be sent"));
    r.advance(false);
    assert!(r.is_finished());
    assert!(matches!(r.action(), OutboundAction::Respond(200, b) if b == "Agent. You sent: Hello"));
}

#[test]
fn outbound_all_delivered() {
    let mut r = OutboundRelay::new(outbound(&["https://example.com/1.pdf"]));
    r.advance(true);
    r.advance(true);
    assert_eq!(r.stage, Stage::Done);
    assert!(matches!(r.action(), OutboundAction::Respond(200, _)));
}

#[test]
fn outbound_text_failure_aborts() {
    let mut r = OutboundRelay::new(outbound(&["https://example.com/1.pdf"]));
    r.advance(false);
    assert_eq!(r.stage, Stage::Failed);
    assert!(matches!(r.action(), OutboundAction::Respond(400, b) if b == "Error at sending message"));
}

#[test]
fn outbound_invalid_url_counts_as_failure() {
    let mut r = OutboundRelay::new(outbound(&["not a url", "https://example.com/2.pdf"]));
    r.advance(true);
    assert_eq!(r.failures, 1);
    assert!(matches!(r.action(), OutboundAction::SendFile(77, u) if u == "https://example.com/2.pdf"));
    r.advance(true);
    assert_eq!(r.stage, Stage::Notice);
    let mut e = OutboundRelay::new(outbound(&[]));
    e.advance(true);
    assert_eq!(e.stage, Stage::Done);
}

#[test]
fn normalized_location_is_sent_unchanged() {
    let a = attachment_from_path("123:abc", "photos/file_1.jpg");
    let loc = a.location.clone();
    let mut r = OutboundRelay::new(OutboundContentMessage {
        chat_id: 1,
        author: "Agent".to_string(),
        text: "".to_string(),
        attachments: vec![a],
    });
    r.advance(true);
    assert!(matches!(r.action(), OutboundAction::SendFile(1, u) if u == loc));
}

#[test]
fn notice_texts() {
    assert_eq!(Reply::DirectOnly.text(), "Bot ini hanya bisa dijalankan di dalam pesan langsung atau DM.");
    assert_eq!(Reply::NoActiveTicket.text(), "Mohon untuk buka tiket baru.");
    assert_eq!(
        Reply::TicketClosed.text(),
        "Tiket sudah ditutup, terima kasih sudah menggunakan layanan kami."
    );
    assert!(Reply::Welcome.text().starts_with("Halo, selamat datang"));
}

#[test]
fn caption_without_slash_is_content() {
    let mut ev = event(5);
    ev.caption = Some("look".to_string());
    ev.photo = words(&["s1", "s2"]);
    let att = attachment_from_path("TOK", "photos/file_1.jpg");
    match decide(&ev, "bot", Some(att)) {
        InboundAction::Post(msg) => {
            assert_eq!(msg.chat_id, 5);
            assert_eq!(msg.text, "look");
            assert_eq!(msg.attachments.len(), 1);
            assert_eq!(msg.attachments[0].name, "file_1.jpg");
            assert_eq!(msg.attachments[0].location, "https://api.telegram.org/file/botTOK/photos/file_1.jpg");
        }
        other => panic!("unexpected {:?}", other),
    }
}
