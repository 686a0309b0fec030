//! The addresses, credentials and request bodies of the chat service.

use vstd::prelude::*;
use crate::text::digit_char;

verus! {

/// `serde_json::Error`, why serialization failed, carried through opaquely.
#[verifier::external_type_specification]
#[verifier::external_body]
pub struct ExJsonError(serde_json::Error);

/// How to reach the chat server.
pub struct TraqServerConnecterBuilder {
    /// The host of the chat server.
    pub host: String,
    /// The bot's access token.
    pub bot_token: String,
}

/// What an event loop is built from.
pub struct EventLoopBuilder {
    pub connecter: TraqServerConnecterBuilder,
}

/// The value of the authorization header for `token`.
pub open spec fn bearer(token: Seq<char>) -> Seq<char> {
    "Bearer "@ + token
}

/// The address of the bot event socket on `host`.
pub open spec fn ws_url(host: Seq<char>) -> Seq<char> {
    "wss://"@ + host + "/api/v3/bots/ws"@
}

/// The prefix of every REST address on `host`.
pub open spec fn api_prefix(host: Seq<char>) -> Seq<char> {
    "https://"@ + host + "/api/v3"@
}

/// The address to post a message to channel `channel_id` at.
pub open spec fn messages_url(prefix: Seq<char>, channel_id: Seq<char>) -> Seq<char> {
    prefix + "/channels/"@ + channel_id + "/messages"@
}

/// A lower-case hexadecimal digit.
pub open spec fn hex_digit(d: nat) -> char {
    if d < 10 {
        digit_char(d)
    } else if d == 10 {
        'a'
    } else if d == 11 {
        'b'
    } else if d == 12 {
        'c'
    } else if d == 13 {
        'd'
    } else if d == 14 {
        'e'
    } else {
        'f'
    }
}

/// How `c` is written inside a JSON string: quote and backslash escaped,
/// the usual short escapes for backspace, tab, line feed, form feed and
/// carriage return, `\u00xx` for the other control characters, and
/// everything else as itself.
pub open spec fn json_char(c: char) -> Seq<char> {
    if c == '"' {
        seq!['\\', '"']
    } else if c == '\\' {
        seq!['\\', '\\']
    } else if c == '\u{8}' {
        seq!['\\', 'b']
    } else if c == '\t' {
        seq!['\\', 't']
    } else if c == '\n' {
        seq!['\\', 'n']
    } else if c == '\u{c}' {
        seq!['\\', 'f']
    } else if c == '\r' {
        seq!['\\', 'r']
    } else if (c as u32) < 0x20 {
        seq![
            '\\',
            'u',
            '0',
            '0',
            hex_digit((c as u32 / 16) as nat),
            hex_digit((c as u32 % 16) as nat),
        ]
    } else {
        seq![c]
    }
}

/// The characters of `s`, each written as inside a JSON string.
pub open spec fn json_escaped(s: Seq<char>) -> Seq<char>
    decreases s.len(),
{
    if s.len() == 0 {
        Seq::empty()
    } else {
        json_escaped(s.drop_last()) + json_char(s.last())
    }
}

/// The JSON string literal for `s`.
pub open spec fn json_string(s: Seq<char>) -> Seq<char> {
    seq!['"'] + json_escaped(s) + seq!['"']
}

/// The JSON body of a message post.
pub open spec fn message_body_text(content: Seq<char>, embed: bool) -> Seq<char> {
    "{\"content\":"@ + json_string(content) + ",\"embed\":"@ + (if embed {
        "true"@
    } else {
        "false"@
    }) + "}"@
}

/// Relies on `serde_json::to_string` applied to a string: it writes the
/// string between quotes, escaping by its fixed table, into a `Vec`, which
/// cannot fail.
#[verifier::external_body]
fn to_json_string(s: &str) -> (r: Result<String, serde_json::Error>)
    ensures
        r is Ok,
        r->Ok_0@ == json_string(s@),
{
    serde_json::to_string(s)
}

/// Builds the authorization header value for `token`.
pub fn make_bearer(token: &str) -> (r: String)
    ensures
        r@ == bearer(token@),
{
    String::from_str("Bearer ").concat(token)
}

/// Builds the REST prefix for `host`.
pub fn make_api_prefix(host: &str) -> (r: String)
    ensures
        r@ == api_prefix(host@),
{
    String::from_str("https://").concat(host).concat("/api/v3")
}

/// Builds the address for posting to `channel_id`.
pub fn make_messages_url(prefix: &str, channel_id: &str) -> (r: String)
    ensures
        r@ == messages_url(prefix@, channel_id@),
{
    String::from_str(prefix).concat("/channels/").concat(channel_id).concat("/messages")
}

/// Builds the JSON body that posts `content`, with embedding of links
/// turned on or off.
pub fn message_body(content: &str, embed: bool) -> (r: String)
    ensures
        r@ == message_body_text(content@, embed),
{
    let quoted = to_json_string(content).unwrap();
    let flag = if embed {
        "true"
    } else {
        "false"
    };
    String::from_str("{\"content\":").concat(quoted.as_str()).concat(",\"embed\":").concat(flag).concat(
        "}",
    )
}

impl TraqServerConnecterBuilder {
    /// The address of the event socket.
    pub fn ws_url(&self) -> (r: String)
        ensures
            r@ == ws_url(self.host@),
    {
        String::from_str("wss://").concat(self.host.as_str()).concat("/api/v3/bots/ws")
    }

    /// The authorization header value.
    pub fn authorization(&self) -> (r: String)
        ensures
            r@ == bearer(self.bot_token@),
    {
        make_bearer(self.bot_token.as_str())
    }
}

impl EventLoopBuilder {
    /// The builder of an event loop for `host` with token `token`.
    pub fn from_host_and_token(host: String, token: String) -> (r: EventLoopBuilder)
        ensures
            r.connecter.host == host,
            r.connecter.bot_token == token,
    {
        EventLoopBuilder { connecter: TraqServerConnecterBuilder { host, bot_token: token } }
    }
}

} // verus!
