//! Events that the chat server pushes to the bot.

use vstd::prelude::*;

verus! {

/// An event, with the id of the request that carried it.
pub enum Event {
    System { req_id: String, body: System },
    Message { req_id: String, body: Message },
}

/// Events about the connection itself.
pub enum System {
    Ping { event_time: String },
    Joined(JoinedLeft),
    Left(JoinedLeft),
}

/// The bot joined or left a channel.
pub struct JoinedLeft {
    pub event_time: String,
    pub channel: Channel,
}

pub struct Channel {
    pub id: String,
    pub name: String,
    pub path: String,
    pub parent_id: String,
    pub creator: (),
    pub created_at: String,
    pub updated_at: String,
}

pub struct User {
    pub id: String,
    pub name: String,
    pub display_name: String,
    pub icon_id: String,
    pub bot: bool,
}

/// Events about messages.
pub enum Message {
    MessageCreated(MessageCreatedUpdated),
    MessageDeleted(MessageDeleted),
    MessageUpdated(MessageCreatedUpdated),
    DirectMessageCreated(MessageCreatedUpdated),
    DirectMessageDeleted(MessageDeleted),
    DirectMessageUpdated(MessageCreatedUpdated),
    BotMessageStampsUpdated(BotMessageStampsUpdated),
}

pub struct MessageCreatedUpdated {
    pub event_time: String,
    pub message: MessageBody,
}

pub struct MessageBody {
    pub id: String,
    pub user: User,
    pub channel_id: String,
    pub text: String,
    pub plain_text: String,
    pub embedded: Vec<Embedded>,
    pub created_at: String,
    pub updated_at: String,
}

/// Something embedded in a message: a mention, a channel link.
pub struct Embedded {
    pub raw: String,
    /// What kind of thing is embedded.
    pub embed_type: String,
    pub id: String,
}

pub struct MessageDeleted {
    pub event_time: String,
    pub message: MessageDeletedBody,
}

pub struct MessageDeletedBody {
    pub id: String,
    pub user_id: String,
    pub channel_id: String,
}

pub struct BotMessageStampsUpdated {
    pub event_time: String,
    pub message_id: String,
    pub stamps: Vec<Stamp>,
}

pub struct Stamp {
    pub stamp_id: String,
    pub user_id: String,
    pub count: u32,
    pub created_at: String,
    pub updated_at: String,
}

/// The kinds of event the bot reads.
#[derive(PartialEq, Eq, Structural, Clone, Copy)]
pub enum EventType {
    Ping,
    Joined,
    Left,
    MessageCreated,
    MessageDeleted,
    MessageUpdated,
    DirectMessageCreated,
    DirectMessageDeleted,
    DirectMessageUpdated,
    BotMessageStampsUpdated,
}

/// Why an event's type tag is not read.
#[derive(PartialEq, Eq, Structural, Clone, Copy)]
pub enum EventTypeError {
    /// A kind of event the server sends that the bot does not handle.
    NotHandled,
    /// A tag the server does not send.
    Unknown,
}

/// The type tags of events the server sends that the bot does not handle.
pub open spec fn unhandled_tags() -> Seq<Seq<char>> {
    seq!["CHANNEL_CREATED"@, "CHANNEL_TOPIC_CHANGED"@, "USER_CREATED"@, "USER_ACTIVATED"@, "USER_GROUP_CREATED"@, "USER_GROUP_UPDATED"@, "USER_GROUP_DELETED"@, "USER_GROUP_MEMBER_ADDED"@, "USER_GROUP_MEMBER_UPDATED"@, "USER_GROUP_MEMBER_REMOVED"@, "USER_GROUP_ADMIN_ADDED"@, "USER_GROUP_ADMIN_REMOVED"@, "STAMP_CREATED"@, "TAG_ADDED"@, "TAG_REMOVED"@]
}

/// The kind of event that type tag `tag` announces.
pub open spec fn event_type_of(tag: Seq<char>) -> Result<EventType, EventTypeError> {
    if tag == "PING"@ {
        Ok(EventType::Ping)
    } else     if tag == "JOINED"@ {
        Ok(EventType::Joined)
    } else     if tag == "LEFT"@ {
        Ok(EventType::Left)
    } else     if tag == "MESSAGE_CREATED"@ {
        Ok(EventType::MessageCreated)
    } else     if tag == "MESSAGE_DELETED"@ {
        Ok(EventType::MessageDeleted)
    } else     if tag == "MESSAGE_UPDATED"@ {
        Ok(EventType::MessageUpdated)
    } else     if tag == "DIRECT_MESSAGE_CREATED"@ {
        Ok(EventType::DirectMessageCreated)
    } else     if tag == "DIRECT_MESSAGE_DELETED"@ {
        Ok(EventType::DirectMessageDeleted)
    } else     if tag == "DIRECT_MESSAGE_UPDATED"@ {
        Ok(EventType::DirectMessageUpdated)
    } else     if tag == "BOT_MESSAGE_STAMPS_UPDATED"@ {
        Ok(EventType::BotMessageStampsUpdated)
    } else     if unhandled_tags().contains(tag) {
        Err(EventTypeError::NotHandled)
    } else {
        Err(EventTypeError::Unknown)
    }
}

/// Reads the type tag of an event.
pub fn event_type(tag: &str) -> (r: Result<EventType, EventTypeError>)
    ensures
        r == event_type_of(tag@),
{
    let key = String::from_str(tag);
    if key == String::from_str("PING") {
        Ok(EventType::Ping)
    } else     if key == String::from_str("JOINED") {
        Ok(EventType::Joined)
    } else     if key == String::from_str("LEFT") {
        Ok(EventType::Left)
    } else     if key == String::from_str("MESSAGE_CREATED") {
        Ok(EventType::MessageCreated)
    } else     if key == String::from_str("MESSAGE_DELETED") {
        Ok(EventType::MessageDeleted)
    } else     if key == String::from_str("MESSAGE_UPDATED") {
        Ok(EventType::MessageUpdated)
    } else     if key == String::from_str("DIRECT_MESSAGE_CREATED") {
        Ok(EventType::DirectMessageCreated)
    } else     if key == String::from_str("DIRECT_MESSAGE_DELETED") {
        Ok(EventType::DirectMessageDeleted)
    } else     if key == String::from_str("DIRECT_MESSAGE_UPDATED") {
        Ok(EventType::DirectMessageUpdated)
    } else     if key == String::from_str("BOT_MESSAGE_STAMPS_UPDATED") {
        Ok(EventType::BotMessageStampsUpdated)
    } else {
        unhandled_or_unknown(&key)
    }
}

fn unhandled_or_unknown(key: &String) -> (r: Result<EventType, EventTypeError>)
    ensures
        r == (if unhandled_tags().contains(key@) {
            Err::<EventType, EventTypeError>(EventTypeError::NotHandled)
        } else {
            Err(EventTypeError::Unknown)
        }),
{
    let tags: [&str; 15] = [
        "CHANNEL_CREATED",
        "CHANNEL_TOPIC_CHANGED",
        "USER_CREATED",
        "USER_ACTIVATED",
        "USER_GROUP_CREATED",
        "USER_GROUP_UPDATED",
        "USER_GROUP_DELETED",
        "USER_GROUP_MEMBER_ADDED",
        "USER_GROUP_MEMBER_UPDATED",
        "USER_GROUP_MEMBER_REMOVED",
        "USER_GROUP_ADMIN_ADDED",
        "USER_GROUP_ADMIN_REMOVED",
        "STAMP_CREATED",
        "TAG_ADDED",
        "TAG_REMOVED",
    ];
    let ghost want = unhandled_tags();
    proof {
        assert(tags@.map_values(|s: &str| s@) =~= want);
    }
    let mut i: usize = 0;
    while i < 15
        invariant
            0 <= i <= 15,
            want == unhandled_tags(),
            tags@.map_values(|s: &str| s@) == want,
            forall|k: int| 0 <= k < i ==> want[k] != key@,
        decreases 15 - i,
    {
        if *key == String::from_str(tags[i]) {
            proof {
                assert(want[i as int] == key@);
            }
            return Err(EventTypeError::NotHandled);
        }
        i = i + 1;
    }
    proof {
        assert(!want.contains(key@));
    }
    Err(EventTypeError::Unknown)
}

impl Event {
    /// The id of the request that carried the event.
    pub fn req_id(&self) -> (r: &str)
        ensures
            r@ == match self {
                Event::System { req_id, .. } => req_id@,
                Event::Message { req_id, .. } => req_id@,
            },
    {
        match self {
            Event::System { req_id, .. } => req_id.as_str(),
            Event::Message { req_id, .. } => req_id.as_str(),
        }
    }

    /// The message of an event that announces a new channel message.
    pub fn created_message(&self) -> (r: Option<&MessageBody>)
        ensures
            match self {
                Event::Message { body: Message::MessageCreated(m), .. } => r == Some(&m.message),
                _ => r is None,
            },
    {
        match self {
            Event::Message { body: Message::MessageCreated(m), .. } => Some(&m.message),
            _ => None,
        }
    }
}

/// Errors that stop the server.
pub enum ServerError {
    /// A required environment variable is not set.
    EnvNotFound(String),
}

impl ServerError {
    /// The description of the error.
    pub fn message(&self) -> (r: String)
        ensures
            r@ == match self {
                ServerError::EnvNotFound(e) => "Environment variable not found: "@ + e@,
            },
    {
        match self {
            ServerError::EnvNotFound(e) => String::from_str("Environment variable not found: ").concat(
                e.as_str(),
            ),
        }
    }
}

} // verus!
