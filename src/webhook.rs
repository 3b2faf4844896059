//! Webhook updates: what the gateway reads of them, how a message becomes a
//! relay command, and the response that acknowledges a webhook push.
use vstd::prelude::*;
use crate::codec::{encode_response, headers_model, reason_bytes, response_spec, Header, HttpVersion};
use crate::qcproto::{ActorInfos, BotFamily, Command, CommandKind, PROTOCOL_VERSION};
use crate::text::{signed_decimal_chars, signed_decimal_string};

verus! {

/// The author of a message.
#[derive(Debug, Clone)]
pub struct User {
    pub first_name: String,
    pub last_name: Option<String>,
}

/// A chat message, as far as the gateway reads it.
#[derive(Debug, Clone)]
pub struct Message {
    pub chat_id: i64,
    pub from: Option<User>,
    pub text: Option<String>,
}

/// A webhook update; only its optional message is read.
#[derive(Debug, Clone)]
pub struct Update {
    pub update_id: i64,
    pub message: Option<Message>,
}

/// A command to hand to the command sender of the named peer.
#[derive(Debug, Clone)]
pub struct Relay {
    pub peer: String,
    pub command: Command,
}

/// The name shown for an author: the first name, then a space and the last
/// name when there is one; "Unknown" when the author is not known.
pub open spec fn display_name(from: Option<User>) -> Seq<char> {
    match from {
        None => "Unknown"@,
        Some(u) => match u.last_name {
            None => u.first_name@,
            Some(l) => u.first_name@ + " "@ + l@,
        },
    }
}

pub open spec fn text_or_empty(text: Option<String>) -> Seq<char> {
    match text {
        None => Seq::empty(),
        Some(t) => t@,
    }
}

/// `c` is the relay command for `msg` towards the chat `channel`: a forwarded
/// message from the message's chat and author, with the message's text, sent
/// by the Telegram bot family at the local protocol version.
pub open spec fn is_relay_command(c: Command, msg: Message, channel: Seq<char>) -> bool {
    &&& c.kind matches CommandKind::ForwardMessage { from, to, content } && {
        &&& from.server@ == signed_decimal_chars(msg.chat_id as int)
        &&& from.name@ == display_name(msg.from)
        &&& to.server@ == channel
        &&& to.name@ == Seq::<char>::empty()
        &&& content@ == text_or_empty(msg.text)
    }
    &&& c.sender_bot_family == BotFamily::Telegram
    &&& c.protocol_version == PROTOCOL_VERSION
}

/// The display name of a message's author.
pub fn display_name_of(from: &Option<User>) -> (r: String)
    ensures
        r@ == display_name(*from),
{
    proof {
        reveal_strlit("Unknown");
        reveal_strlit(" ");
    }
    match from {
        None => String::from_str("Unknown"),
        Some(u) => match &u.last_name {
            None => u.first_name.clone(),
            Some(l) => {
                let mut name = u.first_name.clone();
                name.append(" ");
                name.append(l.as_str());
                name
            },
        },
    }
}

/// The relay command that forwards `msg` to the chat `channel`.
pub fn relay_command(msg: &Message, channel: &String) -> (r: Command)
    ensures
        is_relay_command(r, *msg, channel@),
{
    let content = match &msg.text {
        None => String::new(),
        Some(t) => t.clone(),
    };
    Command {
        kind: CommandKind::ForwardMessage {
            from: ActorInfos {
                server: signed_decimal_string(msg.chat_id),
                name: display_name_of(&msg.from),
            },
            to: ActorInfos { server: channel.clone(), name: String::new() },
            content,
        },
        sender_bot_family: BotFamily::Telegram,
        protocol_version: PROTOCOL_VERSION,
    }
}

/// Turns each message into a relay command for the configured peer; with no
/// peer configured a message is dropped silently, so that the gateway can run
/// on its own.
pub struct DefaultUpdateHandler {
    relay_peer: Option<String>,
    relay_channel: String,
}

/// What handling `msg` yields: nothing without a peer, else one relay of the
/// message's command to that peer.
pub open spec fn handled(peer: Option<String>, channel: Seq<char>, msg: Message, r: Option<Relay>) -> bool {
    match peer {
        None => r is None,
        Some(p) => r matches Some(x) && x.peer@ == p@ && is_relay_command(x.command, msg, channel),
    }
}

impl DefaultUpdateHandler {
    pub fn new(relay_peer: Option<String>, relay_channel: String) -> (r: DefaultUpdateHandler)
        ensures
            r.peer() == relay_peer,
            r.channel() == relay_channel@,
    {
        DefaultUpdateHandler { relay_peer, relay_channel }
    }

    pub closed spec fn peer(&self) -> Option<String> {
        self.relay_peer
    }

    pub closed spec fn channel(&self) -> Seq<char> {
        self.relay_channel@
    }

    /// Handles one message.
    pub fn message(&self, msg: Message) -> (r: Option<Relay>)
        ensures
            handled(self.peer(), self.channel(), msg, r),
    {
        match &self.relay_peer {
            None => None,
            Some(p) => Some(Relay { peer: p.clone(), command: relay_command(&msg, &self.relay_channel) }),
        }
    }
}

/// Routes each update to the update handler.
pub struct DefaultUpdateDispatcher {
    handler: DefaultUpdateHandler,
}

impl DefaultUpdateDispatcher {
    pub fn new(handler: DefaultUpdateHandler) -> (r: DefaultUpdateDispatcher)
        ensures
            r.handler() == handler,
    {
        DefaultUpdateDispatcher { handler }
    }

    pub closed spec fn handler(&self) -> DefaultUpdateHandler {
        self.handler
    }

    /// Hands the update's message, if it has one, to the handler, once; an
    /// update without a message yields nothing and is no error.
    pub fn dispatch(&self, data: Update) -> (r: Option<Relay>)
        ensures
            data.message is None ==> r is None,
            data.message matches Some(m) ==> handled(
                self.handler().peer(),
                self.handler().channel(),
                m,
                r,
            ),
    {
        match data.message {
            Some(msg) => self.handler.message(msg),
            None => None,
        }
    }
}

pub open spec fn content_type_json() -> (Seq<u8>, Seq<u8>) {
    (
        seq![67u8, 111, 110, 116, 101, 110, 116, 45, 84, 121, 112, 101],
        seq![97u8, 112, 112, 108, 105, 99, 97, 116, 105, 111, 110, 47, 106, 115, 111, 110],
    )
}

/// The body `{"result":"ok"}`.
pub open spec fn ok_body() -> Seq<u8> {
    seq![123u8, 34, 114, 101, 115, 117, 108, 116, 34, 58, 34, 111, 107, 34, 125]
}

/// The answer to an accepted webhook push: `HTTP/1.1 200 OK` with
/// `Content-Type: application/json` and the body `{"result":"ok"}`.
pub fn webhook_ok_response() -> (r: Vec<u8>)
    ensures
        r@ == response_spec(HttpVersion::Http11, 200, seq![content_type_json()], ok_body()),
        reason_bytes(200) == seq![79u8, 75u8],
{
    let name: Vec<u8> = vec![67u8, 111, 110, 116, 101, 110, 116, 45, 84, 121, 112, 101];
    let value: Vec<u8> = vec![97u8, 112, 112, 108, 105, 99, 97, 116, 105, 111, 110, 47, 106, 115, 111, 110];
    let body: Vec<u8> = vec![123u8, 34, 114, 101, 115, 117, 108, 116, 34, 58, 34, 111, 107, 34, 125];
    let headers = vec![Header { name, value }];
    assert(headers_model(headers@) =~= seq![content_type_json()]);
    assert(body@ =~= ok_body());
    encode_response(HttpVersion::Http11, 200, &headers, body.as_slice())
}

} // verus!
