use vstd::prelude::*;
use crate::text::str_eq;

verus! {

/// What teloxide's command parser makes of `text` for a bot called
/// `bot_name`: the command word and the words after it.
pub uninterp spec fn command_parse(text: Seq<char>, bot_name: Seq<char>) -> Option<(Seq<char>, Seq<Seq<char>>)>;

pub open spec fn words_view(v: Seq<String>) -> Seq<Seq<char>> {
    v.map_values(|w: String| w@)
}

pub open spec fn parsed_view(r: Option<(String, Vec<String>)>) -> Option<(Seq<char>, Seq<Seq<char>>)> {
    match r {
        Some((c, a)) => Some((c@, words_view(a@))),
        None => None,
    }
}

/// Relies on teloxide::utils::command::parse_command: its result depends on
/// the two strings alone, and text that does not start with `/` is no command.
#[verifier::external_body]
fn parse_command_words(text: &str, bot_name: &str) -> (r: Option<(String, Vec<String>)>)
    ensures
        parsed_view(r) == command_parse(text@, bot_name@),
        (text@.len() == 0 || text@[0] != '/') ==> r.is_none(),
{
    match teloxide::utils::command::parse_command(text, bot_name) {
        Some((c, a)) => Some((c.to_string(), a.iter().map(|w| w.to_string()).collect())),
        None => None,
    }
}

/// The command word and arguments of `text`, or an empty command with no
/// arguments where the text is no command addressed to this bot; text that
/// does not start with `/` is never a command.
pub open spec fn parse_spec(text: Seq<char>, bot_name: Seq<char>) -> (Seq<char>, Seq<Seq<char>>) {
    if text.len() == 0 || text[0] != '/' {
        (Seq::empty(), Seq::empty())
    } else {
        match command_parse(text, bot_name) {
            Some(p) => p,
            None => (Seq::empty(), Seq::empty()),
        }
    }
}

/// Splits `/command@bot arg1 arg2` into the command and its arguments; text
/// that is not a command gives an empty command and no arguments.
pub fn parse(text: &str, bot_name: &str) -> (r: (String, Vec<String>))
    ensures
        (r.0@, words_view(r.1@)) == parse_spec(text@, bot_name@),
{
    match parse_command_words(text, bot_name) {
        Some(p) => p,
        None => {
            let v: Vec<String> = Vec::new();
            proof { assert(words_view(v@) =~= Seq::empty()); }
            (String::new(), v)
        },
    }
}

/// The commands this bot acts on; anything else is content to relay.
#[derive(Clone, Debug)]
pub enum Command {
    OpenTicket(Vec<String>),
    CloseTicket,
    Start,
    Content,
}

pub open spec fn route_spec(command: Seq<char>, args: Seq<Seq<char>>) -> CommandKind {
    if command == "open-ticket"@ {
        CommandKind::OpenTicket(args)
    } else if command == "close-ticket"@ {
        CommandKind::CloseTicket
    } else if command == "start"@ || command == "help"@ {
        CommandKind::Start
    } else {
        CommandKind::Content
    }
}

/// A [`Command`] over plain values.
pub enum CommandKind {
    OpenTicket(Seq<Seq<char>>),
    CloseTicket,
    Start,
    Content,
}

impl Command {
    pub open spec fn view(&self) -> CommandKind {
        match self {
            Command::OpenTicket(a) => CommandKind::OpenTicket(words_view(a@)),
            Command::CloseTicket => CommandKind::CloseTicket,
            Command::Start => CommandKind::Start,
            Command::Content => CommandKind::Content,
        }
    }
}

/// Picks the command that a parsed command word names; the arguments go with
/// the open command, and are ignored by the others.
pub fn route(command: &str, args: Vec<String>) -> (r: Command)
    ensures
        r@ == route_spec(command@, words_view(args@)),
{
    if str_eq(command, "open-ticket") {
        Command::OpenTicket(args)
    } else if str_eq(command, "close-ticket") {
        Command::CloseTicket
    } else if str_eq(command, "start") || str_eq(command, "help") {
        Command::Start
    } else {
        Command::Content
    }
}

/// `words` joined with single spaces.
pub open spec fn join_spec(words: Seq<Seq<char>>) -> Seq<char>
    decreases words.len(),
{
    if words.len() == 0 {
        Seq::empty()
    } else if words.len() == 1 {
        words[0]
    } else {
        join_spec(words.drop_last()) + " "@ + words.last()
    }
}

/// Joins `words` with single spaces.
pub fn join_words(words: &Vec<String>) -> (r: String)
    ensures
        r@ == join_spec(words_view(words@)),
{
    let mut r = String::new();
    let mut i: usize = 0;
    while i < words.len()
        invariant
            i <= words@.len(),
            r@ == join_spec(words_view(words@.subrange(0, i as int))),
        decreases words@.len() - i,
    {
        proof {
            let ws = words_view(words@.subrange(0, i as int + 1));
            assert(ws.drop_last() =~= words_view(words@.subrange(0, i as int)));
            assert(ws.last() == words@[i as int]@);
        }
        if i > 0 {
            r.append(" ");
        }
        r.append(words[i].as_str());
        i = i + 1;
    }
    proof { assert(words@.subrange(0, i as int) =~= words@); }
    r
}

} // verus!
