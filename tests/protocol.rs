use traq_python_bot::dispatch::{
    command_parser, interpret, on_incoming, plan_for, split_words, white_space, Command, Incoming,
    LoopStep, Plan,
};
use traq_python_bot::events::{
    event_type, Channel, Event, EventType, EventTypeError, JoinedLeft, Message, MessageBody,
    MessageCreatedUpdated, ServerError, System, User,
};
use traq_python_bot::parse::{Parser, Pattern};
use traq_python_bot::reply::{format_reply, run_error_reply, script_error_reply, unknown_image_reply};
use traq_python_bot::registry::UnknownImageError;
use traq_python_bot::runner::{RunError, RunResult};
use traq_python_bot::text::decimal_string;
use traq_python_bot::traq::{
    make_api_prefix, make_bearer, make_messages_url, message_body, EventLoopBuilder,
    TraqServerConnecterBuilder,
};
use traq_python_bot::workspace::ScriptError;

#[test]
fn decimal_renders_numbers() {
    assert_eq!(decimal_string(0), "0");
    assert_eq!(decimal_string(7), "7");
    assert_eq!(decimal_string(5000), "5000");
    assert_eq!(decimal_string(u64::MAX), "18446744073709551615");
}

#[test]
fn reply_without_stderr() {
    let r = RunResult { stdout: "hi\n".to_string(), stderr: String::new(), elapsed_ms: 1234, timed_out: false };
    assert_eq!(format_reply(&r), "time: 1234ms\nstdout:\n```\nhi\n\n```");
}

#[test]
fn reply_with_stderr_and_timeout() {
    let r = RunResult { stdout: String::new(), stderr: "oops".to_string(), elapsed_ms: 5000, timed_out: true };
    assert_eq!(
        format_reply(&r),
        "time: 5000ms (timed out)\nstdout:\n```\n\n```\nstderr:\n```\noops\n```"
    );
}

#[test]
fn error_replies() {
    assert_eq!(unknown_image_reply(&UnknownImageError { name: "x".to_string() }), "No image of the name: x");
    assert_eq!(run_error_reply(&RunError::Launch { message: "m".to_string() }), "container failed to launch: m");
    assert_eq!(run_error_reply(&RunError::LogStream { message: "m".to_string() }), "log stream failed: m");
    assert_eq!(run_error_reply(&RunError::UndecodableOutput), "log output is not valid UTF-8");
    assert_eq!(script_error_reply(&ScriptError::MissingOutput), "the script left no output file");
    assert_eq!(script_error_reply(&ScriptError::Io { message: "e".to_string() }), "workspace error: e");
}

#[test]
fn words_split_on_unicode_white_space() {
    assert_eq!(split_words("  a  b\tc\u{3000}d "), vec!["a", "b", "c", "d"]);
    assert!(split_words("").is_empty());
    assert!(split_words(" \n ").is_empty());
    assert_eq!(split_words("héllo"), vec!["héllo"]);
    assert!(white_space('\u{85}'));
    assert!(!white_space('x'));
    assert!(!white_space('\u{200b}'));
}

#[test]
fn commands_are_recognised() {
    let parser = command_parser("bot.id").ok().unwrap();
    assert!(matches!(interpret(&parser, "@bot.id -ping"), Some(Command::Ping)));
    assert!(matches!(interpret(&parser, "@bot.id   -docker-hello"), Some(Command::DockerHello)));
    assert!(matches!(interpret(&parser, "@bot.id -rm-all-containers"), Some(Command::RmAllContainers)));
    assert!(matches!(interpret(&parser, "@bot.id -rm-all-images"), Some(Command::RmAllImages)));
    assert!(interpret(&parser, "@botXid -ping").is_none());
    assert!(interpret(&parser, "hello").is_none());
}

#[test]
fn python_command_carries_code_and_args() {
    let parser = command_parser("bot").ok().unwrap();
    let msg = "@bot a  b\n```python\nprint('hi')\n```";
    match interpret(&parser, msg) {
        Some(Command::Python { args, code }) => {
            assert_eq!(code, "print('hi')");
            assert_eq!(args, vec!["a".to_string(), "b".to_string()]);
        }
        _ => panic!("expected a python command"),
    }
}

#[test]
fn plans_for_commands() {
    assert!(matches!(plan_for(None), Plan::Reply { text } if text == ":question:"));
    assert!(matches!(plan_for(Some(Command::Ping)), Plan::Reply { text } if text == "pong"));
    assert!(matches!(plan_for(Some(Command::RmAllImages)), Plan::Reply { text } if text == "not implemented."));
    assert!(matches!(plan_for(Some(Command::DockerHello)), Plan::RunHello));
    match plan_for(Some(Command::Python { args: vec!["x".to_string()], code: "c".to_string() })) {
        Plan::RunScript { code, args } => {
            assert_eq!(code, "c");
            assert_eq!(args, vec!["x".to_string()]);
        }
        _ => panic!("expected a script run"),
    }
}

#[test]
fn parser_adds_replaces_and_removes() {
    let mut p = Parser::new();
    assert!(p.add("num", "^[0-9]+$").is_ok());
    assert!(p.add("word", "^[a-z]+$").is_ok());
    assert!(p.add("bad", "(").is_err());
    assert_eq!(p.parse("123").map(|(n, _)| n), Some("num".to_string()));
    assert_eq!(p.parse("abc").map(|(n, _)| n), Some("word".to_string()));
    assert!(p.parse("ABC").is_none());
    assert!(p.add("num", "^[A-Z]+$").is_ok());
    assert_eq!(p.parse("ABC").map(|(n, _)| n), Some("num".to_string()));
    let removed = p.remove("num").unwrap();
    assert_eq!(removed.as_str(), "^[A-Z]+$");
    assert!(p.parse("ABC").is_none());
    assert!(p.remove("num").is_none());
}

#[test]
fn pattern_groups() {
    let pat = Pattern::new("(?<k>[a-z]+)=(?<v>[0-9]*)").ok().unwrap();
    assert!(pat.is_match("x key=12"));
    assert_eq!(pat.group("x key=12", "k"), Some("key".to_string()));
    assert_eq!(pat.group("x key=12", "v"), Some("12".to_string()));
    assert_eq!(pat.group("x key=12", "z"), None);
    assert_eq!(pat.group("nothing", "k"), None);
}

#[test]
fn event_types_are_read() {
    assert!(event_type("PING") == Ok(EventType::Ping));
    assert!(event_type("MESSAGE_CREATED") == Ok(EventType::MessageCreated));
    assert!(event_type("BOT_MESSAGE_STAMPS_UPDATED") == Ok(EventType::BotMessageStampsUpdated));
    assert!(event_type("TAG_REMOVED") == Err(EventTypeError::NotHandled));
    assert!(event_type("CHANNEL_CREATED") == Err(EventTypeError::NotHandled));
    assert!(event_type("NOPE") == Err(EventTypeError::Unknown));
}

fn user() -> User {
    User { id: "u".to_string(), name: "n".to_string(), display_name: "d".to_string(), icon_id: "i".to_string(), bot: false }
}

#[test]
fn created_message_is_found() {
    let body = MessageBody {
        id: "m".to_string(),
        user: user(),
        channel_id: "c".to_string(),
        text: "t".to_string(),
        plain_text: "p".to_string(),
        embedded: vec![],
        created_at: "x".to_string(),
        updated_at: "y".to_string(),
    };
    let e = Event::Message {
        req_id: "r1".to_string(),
        body: Message::MessageCreated(MessageCreatedUpdated { event_time: "now".to_string(), message: body }),
    };
    assert_eq!(e.req_id(), "r1");
    assert_eq!(e.created_message().unwrap().plain_text, "p");
    let channel = Channel {
        id: "c".to_string(), name: "n".to_string(), path: "p".to_string(), parent_id: "".to_string(),
        creator: (), created_at: "a".to_string(), updated_at: "b".to_string(),
    };
    let j = Event::System { req_id: "r2".to_string(), body: System::Joined(JoinedLeft { event_time: "t".to_string(), channel }) };
    assert!(j.created_message().is_none());
}

#[test]
fn server_error_message() {
    assert_eq!(ServerError::EnvNotFound("TRAQ_HOST".to_string()).message(), "Environment variable not found: TRAQ_HOST");
}

#[test]
fn chat_addresses() {
    assert_eq!(make_bearer("tok"), "Bearer tok");
    assert_eq!(make_api_prefix("q.example.com"), "https://q.example.com/api/v3");
    assert_eq!(
        make_messages_url("https://q.example.com/api/v3", "ch1"),
        "https://q.example.com/api/v3/channels/ch1/messages"
    );
    let b = EventLoopBuilder::from_host_and_token("h".to_string(), "k".to_string());
    assert_eq!(b.connecter.ws_url(), "wss://h/api/v3/bots/ws");
    assert_eq!(b.connecter.authorization(), "Bearer k");
    let c = TraqServerConnecterBuilder { host: "x".to_string(), bot_token: "y".to_string() };
    assert_eq!(c.ws_url(), "wss://x/api/v3/bots/ws");
}

#[test]
fn message_body_is_json() {
    assert_eq!(message_body("pong", false), "{\"content\":\"pong\",\"embed\":false}");
    assert_eq!(
        message_body("a\"b\nc", true),
        "{\"content\":\"a\\\"b\\nc\",\"embed\":true}"
    );
}

#[test]
fn message_body_escapes_control_characters() {
    assert_eq!(
        message_body("\u{1}\t\\/\u{7f}é", false),
        "{\"content\":\"\\u0001\\t\\\\/\u{7f}é\",\"embed\":false}"
    );
}

#[test]
fn incoming_frames() {
    assert!(on_incoming(Incoming::Text) == LoopStep::Handle);
    assert!(on_incoming(Incoming::Ping) == LoopStep::Pong);
    assert!(on_incoming(Incoming::Close) == LoopStep::Stop);
    assert!(on_incoming(Incoming::Failed) == LoopStep::Stop);
    assert!(on_incoming(Incoming::Other) == LoopStep::Skip);
}
