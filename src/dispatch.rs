//! From a chat message to what the bot does about it.

use vstd::prelude::*;
use crate::parse::{escaped, regex_accepts, regex_escape, regex_group, Parser};

verus! {

/// What a message asks the bot to do.
pub enum Command {
    Ping,
    DockerHello,
    RmAllContainers,
    RmAllImages,
    /// Run `code` as a script, passing it `args`.
    Python { args: Vec<String>, code: String },
}

/// What the bot does in answer to a message.
pub enum Plan {
    /// Send this text back.
    Reply { text: String },
    /// Run the greeting image and send its result.
    RunHello,
    /// Run the script and send its result.
    RunScript { code: String, args: Vec<String> },
}

/// The names that the bot's patterns are registered under.
pub open spec fn command_names() -> Seq<Seq<char>> {
    seq!["ping"@, "docker-hello"@, "rm-all-containers"@, "rm-all-images"@, "python"@]
}

/// The pattern of command `name` for a bot whose id is `bot_id`: a mention
/// of the bot, then the command as a flag, or for `python` an optional
/// argument line and a fenced code block.
pub open spec fn command_regex(name: Seq<char>, bot_id: Seq<char>) -> Seq<char> {
    if name == "python"@ {
        "(?s)^@"@ + escaped(bot_id) + "(?<arg>.*)\\n+```(?:python)?\\n(?<code>.*?)\\n```$"@
    } else {
        "(?s)^@"@ + escaped(bot_id) + " +-"@ + name + "$"@
    }
}

fn make_command_regex(name: &str, bot_id: &str) -> (r: String)
    ensures
        r@ == command_regex(name@, bot_id@),
{
    let id = regex_escape(bot_id);
    let python = String::from_str("python");
    let key = String::from_str(name);
    if key == python {
        String::from_str("(?s)^@").concat(id.as_str()).concat(
            "(?<arg>.*)\\n+```(?:python)?\\n(?<code>.*?)\\n```$",
        )
    } else {
        String::from_str("(?s)^@").concat(id.as_str()).concat(" +-").concat(name).concat("$")
    }
}

/// The parser that recognises the bot's commands addressed to `bot_id`.
pub fn command_parser(bot_id: &str) -> (r: Result<Parser, regex::Error>)
    ensures
        r is Ok <==> forall|i: int|
            0 <= i < command_names().len() ==> regex_accepts(
                #[trigger] command_regex(command_names()[i], bot_id@),
            ),
        r is Ok ==> {
            let p = r->Ok_0;
            &&& p.wf()
            &&& p@.len() == command_names().len()
            &&& forall|i: int|
                0 <= i < p@.len() ==> (#[trigger] p@[i]).name@ == command_names()[i]
                    && p@[i].pattern.source() == command_regex(command_names()[i], bot_id@)
        },
{
    let mut parser = Parser::new();
    let names: [&str; 5] = ["ping", "docker-hello", "rm-all-containers", "rm-all-images", "python"];
    proof {
        reveal_strlit("ping");
        reveal_strlit("docker-hello");
        reveal_strlit("rm-all-containers");
        reveal_strlit("rm-all-images");
        reveal_strlit("python");
        assert(names@.map_values(|s: &str| s@) =~= command_names());
    }
    let mut i: usize = 0;
    while i < 5
        invariant
            0 <= i <= 5,
            names@.map_values(|s: &str| s@) == command_names(),
            parser.wf(),
            parser@.len() == i,
            forall|k: int| 0 <= k < i ==> regex_accepts(#[trigger] command_regex(command_names()[k], bot_id@)),
            forall|k: int|
                0 <= k < i ==> (#[trigger] parser@[k]).name@ == command_names()[k]
                    && parser@[k].pattern.source() == command_regex(command_names()[k], bot_id@),
        decreases 5 - i,
    {
        let name = names[i];
        assert(name@ == command_names()[i as int]);
        let source = make_command_regex(name, bot_id);
        let ghost before = parser@;
        proof {
            reveal_strlit("ping");
            reveal_strlit("docker-hello");
            reveal_strlit("rm-all-containers");
            reveal_strlit("rm-all-images");
            reveal_strlit("python");
            assert forall|k: int| 0 <= k < before.len() implies (#[trigger] before[k]).name@ != name@ by {
                assert(command_names()[k].len() != command_names()[i as int].len());
            };
        }
        match parser.add(name, source.as_str()) {
            Ok(()) => {},
            Err(e) => {
                return Err(e);
            },
        }
        i = i + 1;
    }
    Ok(parser)
}

/// A character with the Unicode White_Space property.
pub open spec fn is_white_space(c: char) -> bool {
    ('\u{9}' <= c && c <= '\u{d}') || c == ' ' || c == '\u{85}' || c == '\u{a0}' || c == '\u{1680}'
        || ('\u{2000}' <= c && c <= '\u{200a}') || c == '\u{2028}' || c == '\u{2029}' || c
        == '\u{202f}' || c == '\u{205f}' || c == '\u{3000}'
}

/// Whether `c` is white space.
pub fn white_space(c: char) -> (r: bool)
    ensures
        r == is_white_space(c),
{
    ('\u{9}' <= c && c <= '\u{d}') || c == ' ' || c == '\u{85}' || c == '\u{a0}' || c == '\u{1680}'
        || ('\u{2000}' <= c && c <= '\u{200a}') || c == '\u{2028}' || c == '\u{2029}' || c
        == '\u{202f}' || c == '\u{205f}' || c == '\u{3000}'
}

/// The number of characters at the start of `s` before the first white
/// space, or all of them.
pub open spec fn word_len(s: Seq<char>) -> nat
    decreases s.len(),
{
    if s.len() == 0 || is_white_space(s[0]) {
        0
    } else {
        1 + word_len(s.drop_first())
    }
}

/// The maximal runs of characters of `s` that are not white space, in
/// order.
pub open spec fn words(s: Seq<char>) -> Seq<Seq<char>>
    decreases s.len()
    via words_decreases
{
    if s.len() == 0 {
        Seq::empty()
    } else if is_white_space(s[0]) {
        words(s.drop_first())
    } else {
        let n = word_len(s);
        seq![s.take(n as int)] + words(s.skip(n as int))
    }
}

#[via_fn]
proof fn words_decreases(s: Seq<char>) {
    if s.len() > 0 && !is_white_space(s[0]) {
        lemma_word_len_bound(s);
    }
}

proof fn lemma_word_len_bound(s: Seq<char>)
    ensures
        word_len(s) <= s.len(),
        s.len() > 0 && !is_white_space(s[0]) ==> word_len(s) > 0,
    decreases s.len(),
{
    if s.len() > 0 && !is_white_space(s[0]) {
        lemma_word_len_bound(s.drop_first());
    }
}

/// Splits `s` into its words.
pub fn split_words(s: &str) -> (r: Vec<String>)
    ensures
        r@.map_values(|w: String| w@) == words(s@),
{
    let n = s.unicode_len();
    let mut done: Vec<String> = Vec::new();
    let mut i: usize = 0;
    proof {
        assert(s@.skip(0) =~= s@);
    }
    while i < n
        invariant
            n == s@.len(),
            0 <= i <= n,
            done@.map_values(|w: String| w@) + words(s@.skip(i as int)) == words(s@),
        decreases n - i,
    {
        let c = s.get_char(i);
        if white_space(c) {
            proof {
                assert(s@.skip(i as int).drop_first() =~= s@.skip(i as int + 1));
            }
            i = i + 1;
        } else {
            let start = i;
            let mut j: usize = i + 1;
            proof {
                assert(s@.skip(i as int).drop_first() =~= s@.skip(j as int));
            }
            while j < n && !white_space(s.get_char(j))
                invariant
                    n == s@.len(),
                    start < j <= n,
                    !is_white_space(s@[start as int]),
                    word_len(s@.skip(start as int)) == (j - start) + word_len(s@.skip(j as int)),
                decreases n - j,
            {
                proof {
                    assert(s@.skip(j as int).drop_first() =~= s@.skip(j as int + 1));
                }
                j = j + 1;
            }
            proof {
                assert(word_len(s@.skip(j as int)) == 0);
                let t = s@.skip(start as int);
                assert(t.take((j - start) as int) =~= s@.subrange(start as int, j as int));
                assert(t.skip((j - start) as int) =~= s@.skip(j as int));
            }
            let w = String::from_str(s.substring_char(start, j));
            let ghost before = done@.map_values(|w: String| w@);
            done.push(w);
            proof {
                assert(done@.map_values(|w: String| w@) =~= before.push(s@.subrange(start as int, j as int)));
                assert(before.push(s@.subrange(start as int, j as int)) + words(s@.skip(j as int)) =~= before
                    + (seq![s@.subrange(start as int, j as int)] + words(s@.skip(j as int))));
            }
            i = j;
        }
    }
    proof {
        assert(s@.skip(n as int).len() == 0);
        assert(done@.map_values(|w: String| w@) + words(s@.skip(n as int)) =~= done@.map_values(|w: String| w@));
    }
    done
}

/// The words of what group `group` captured, or none if it captured
/// nothing.
pub open spec fn group_words(source: Seq<char>, text: Seq<char>, group: Seq<char>) -> Seq<Seq<char>> {
    match regex_group(source, text, group) {
        Some(g) => words(g),
        None => Seq::empty(),
    }
}

/// `r` is the command that the entry named `name` with pattern `source`
/// makes of `text`.
pub open spec fn is_command_of(r: Option<Command>, name: Seq<char>, source: Seq<char>, text: Seq<char>) -> bool {
    if name == "ping"@ {
        r == Some(Command::Ping)
    } else if name == "docker-hello"@ {
        r == Some(Command::DockerHello)
    } else if name == "rm-all-containers"@ {
        r == Some(Command::RmAllContainers)
    } else if name == "rm-all-images"@ {
        r == Some(Command::RmAllImages)
    } else if name == "python"@ {
        match regex_group(source, text, "code"@) {
            None => r is None,
            Some(code) => match r {
                Some(Command::Python { args, code: c }) => c@ == code && args@.map_values(
                    |w: String| w@,
                ) == group_words(source, text, "arg"@),
                _ => false,
            },
        }
    } else {
        r is None
    }
}

/// The command that `text` asks for, according to the first pattern of
/// `parser` that matches it.
pub fn interpret(parser: &Parser, text: &str) -> (r: Option<Command>)
    ensures
        match parser.first_match(text@) {
            None => r is None,
            Some(i) => is_command_of(r, parser@[i].name@, parser@[i].pattern.source(), text@),
        },
{
    proof {
        reveal_strlit("ping");
        reveal_strlit("docker-hello");
        reveal_strlit("rm-all-containers");
        reveal_strlit("rm-all-images");
        reveal_strlit("python");
    }
    match parser.parse(text) {
        None => None,
        Some((name, pattern)) => {
            if name == String::from_str("ping") {
                Some(Command::Ping)
            } else if name == String::from_str("docker-hello") {
                Some(Command::DockerHello)
            } else if name == String::from_str("rm-all-containers") {
                Some(Command::RmAllContainers)
            } else if name == String::from_str("rm-all-images") {
                Some(Command::RmAllImages)
            } else if name == String::from_str("python") {
                match pattern.group(text, "code") {
                    None => None,
                    Some(code) => {
                        let args = match pattern.group(text, "arg") {
                            Some(a) => split_words(a.as_str()),
                            None => {
                                let v: Vec<String> = Vec::new();
                                proof {
                                    assert(v@.map_values(|w: String| w@) =~= Seq::<Seq<char>>::empty());
                                }
                                v
                            },
                        };
                        Some(Command::Python { args, code })
                    },
                }
            } else {
                None
            }
        },
    }
}

/// The text of a reply, for the plans that are one.
pub open spec fn reply_of(p: Plan) -> Option<Seq<char>> {
    match p {
        Plan::Reply { text } => Some(text@),
        _ => None,
    }
}

/// What the bot does about a message that asked for `cmd`: a question
/// mark for no command, `pong` for a ping, a notice for the removals that
/// are not offered, and a run for the rest.
pub fn plan_for(cmd: Option<Command>) -> (r: Plan)
    ensures
        match cmd {
            None => reply_of(r) == Some(":question:"@),
            Some(Command::Ping) => reply_of(r) == Some("pong"@),
            Some(Command::RmAllContainers) | Some(Command::RmAllImages) => reply_of(r) == Some(
                "not implemented."@,
            ),
            Some(Command::DockerHello) => r is RunHello,
            Some(Command::Python { args, code }) => r == (Plan::RunScript { code, args }),
        },
{
    match cmd {
        None => Plan::Reply { text: String::from_str(":question:") },
        Some(Command::Ping) => Plan::Reply { text: String::from_str("pong") },
        Some(Command::RmAllContainers) | Some(Command::RmAllImages) => Plan::Reply {
            text: String::from_str("not implemented."),
        },
        Some(Command::DockerHello) => Plan::RunHello,
        Some(Command::Python { args, code }) => Plan::RunScript { code, args },
    }
}

/// What arrived on the event connection.
#[derive(PartialEq, Eq, Structural, Clone, Copy)]
pub enum Incoming {
    /// A text frame: an event.
    Text,
    /// A keep-alive ping.
    Ping,
    /// The server closes the connection.
    Close,
    /// Any other frame.
    Other,
    /// Reading the connection failed.
    Failed,
}

/// What the event loop does next.
#[derive(PartialEq, Eq, Structural, Clone, Copy)]
pub enum LoopStep {
    /// Decode the event and handle it.
    Handle,
    /// Answer with a pong.
    Pong,
    /// Leave the loop.
    Stop,
    /// Read on.
    Skip,
}

/// The event loop's answer to what arrived: events are handled, pings
/// answered, and the loop ends when the connection closes or fails.
pub fn on_incoming(i: Incoming) -> (r: LoopStep)
    ensures
        r == match i {
            Incoming::Text => LoopStep::Handle,
            Incoming::Ping => LoopStep::Pong,
            Incoming::Close | Incoming::Failed => LoopStep::Stop,
            Incoming::Other => LoopStep::Skip,
        },
{
    match i {
        Incoming::Text => LoopStep::Handle,
        Incoming::Ping => LoopStep::Pong,
        Incoming::Close | Incoming::Failed => LoopStep::Stop,
        Incoming::Other => LoopStep::Skip,
    }
}

} // verus!
