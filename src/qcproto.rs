//! The qcproto relay protocol: its messages and the rule that decides the
//! acknowledgement of a received command.
use vstd::prelude::*;
use crate::text::{decimal_chars, decimal_string, digit_char};

verus! {

/// The protocol version spoken by this process; a command is accepted only
/// when it carries exactly this version.
pub const PROTOCOL_VERSION: u16 = 100;

/// Two actors are equal when their chats and names read the same.
pub open spec fn same_actor(a: ActorInfos, b: ActorInfos) -> bool {
    a.server@ == b.server@ && a.name@ == b.name@
}

pub open spec fn same_kind(a: CommandKind, b: CommandKind) -> bool {
    match (a, b) {
        (
            CommandKind::ForwardMessage { from: f1, to: t1, content: c1 },
            CommandKind::ForwardMessage { from: f2, to: t2, content: c2 },
        ) => same_actor(f1, f2) && same_actor(t1, t2) && c1@ == c2@,
        (CommandKind::GetOnlineUsers, CommandKind::GetOnlineUsers) => true,
        _ => false,
    }
}

pub open spec fn same_command(a: Command, b: Command) -> bool {
    same_kind(a.kind, b.kind) && a.sender_bot_family == b.sender_bot_family
        && a.protocol_version == b.protocol_version
}

/// One side of a relayed message: a chat or room, and a display name.
#[derive(Debug, Clone)]
pub struct ActorInfos {
    pub server: String,
    pub name: String,
}

impl PartialEq for ActorInfos {
    fn eq(&self, o: &ActorInfos) -> (r: bool) {
        self.server == o.server && self.name == o.name
    }
}

impl vstd::std_specs::cmp::PartialEqSpecImpl for ActorInfos {
    open spec fn obeys_eq_spec() -> bool {
        true
    }

    open spec fn eq_spec(&self, o: &ActorInfos) -> bool {
        same_actor(*self, *o)
    }
}

/// What a relay command asks the receiving bot to do.
#[derive(Debug, Clone)]
pub enum CommandKind {
    ForwardMessage { from: ActorInfos, to: ActorInfos, content: String },
    GetOnlineUsers,
}

impl PartialEq for CommandKind {
    fn eq(&self, o: &CommandKind) -> (r: bool) {
        match (self, o) {
            (
                CommandKind::ForwardMessage { from: f1, to: t1, content: c1 },
                CommandKind::ForwardMessage { from: f2, to: t2, content: c2 },
            ) => f1.eq(f2) && t1.eq(t2) && c1.eq(c2),
            (CommandKind::GetOnlineUsers, CommandKind::GetOnlineUsers) => true,
            _ => false,
        }
    }
}

impl vstd::std_specs::cmp::PartialEqSpecImpl for CommandKind {
    open spec fn obeys_eq_spec() -> bool {
        true
    }

    open spec fn eq_spec(&self, o: &CommandKind) -> bool {
        same_kind(*self, *o)
    }
}

/// The messaging platform a command comes from.
#[derive(Debug, Clone, Copy, PartialEq, Eq, Structural)]
pub enum BotFamily {
    Discord,
    Telegram,
    WhatsApp,
}

/// The unit of cross-process relay.
#[derive(Debug, Clone)]
pub struct Command {
    pub kind: CommandKind,
    pub sender_bot_family: BotFamily,
    pub protocol_version: u16,
}

impl PartialEq for Command {
    fn eq(&self, o: &Command) -> (r: bool) {
        self.kind == o.kind && self.sender_bot_family == o.sender_bot_family
            && self.protocol_version == o.protocol_version
    }
}

impl vstd::std_specs::cmp::PartialEqSpecImpl for Command {
    open spec fn obeys_eq_spec() -> bool {
        true
    }

    open spec fn eq_spec(&self, o: &Command) -> bool {
        same_command(*self, *o)
    }
}

/// The acknowledgement a relay peer sends back for each command it receives.
#[derive(Debug, Clone, Copy, PartialEq, Eq, Structural)]
pub enum TransmissionResult {
    Received,
    BadSyntax,
    MismatchedVersions,
}

/// Context shared by the handlers of relay commands; it carries nothing yet.
pub struct CommandContext;

pub open spec fn describe_spec(t: TransmissionResult) -> Seq<char> {
    match t {
        TransmissionResult::Received => "Received"@,
        TransmissionResult::BadSyntax => "Bad syntax"@,
        TransmissionResult::MismatchedVersions => "Mismatched protocol versions"@,
    }
}

/// The JSON text of an acknowledgement: the variant's name as a JSON string.
pub open spec fn ack_json_spec(t: TransmissionResult) -> Seq<char> {
    match t {
        TransmissionResult::Received => "\"Received\""@,
        TransmissionResult::BadSyntax => "\"BadSyntax\""@,
        TransmissionResult::MismatchedVersions => "\"MismatchedVersions\""@,
    }
}

impl TransmissionResult {
    /// A human-readable description of the acknowledgement.
    pub fn to_string(&self) -> (r: String)
        ensures
            r@ == describe_spec(*self),
    {
        match self {
            TransmissionResult::Received => String::from_str("Received"),
            TransmissionResult::BadSyntax => String::from_str("Bad syntax"),
            TransmissionResult::MismatchedVersions => String::from_str(
                "Mismatched protocol versions",
            ),
        }
    }

    /// The acknowledgement as it travels on the wire.
    pub fn to_json(&self) -> (r: String)
        ensures
            r@ == ack_json_spec(*self),
    {
        match self {
            TransmissionResult::Received => String::from_str("\"Received\""),
            TransmissionResult::BadSyntax => String::from_str("\"BadSyntax\""),
            TransmissionResult::MismatchedVersions => String::from_str("\"MismatchedVersions\""),
        }
    }
}

/// The acknowledgement owed for a received payload, given what decoding it as a
/// command produced (`None` when it is not a command).
pub open spec fn ack_for(decoded: Option<Command>) -> TransmissionResult {
    match decoded {
        None => TransmissionResult::BadSyntax,
        Some(c) => if c.protocol_version == PROTOCOL_VERSION {
            TransmissionResult::Received
        } else {
            TransmissionResult::MismatchedVersions
        },
    }
}

/// Decides how a received relay payload is answered: the acknowledgement to
/// write back, and the command to dispatch after it has been written, if any.
/// Only a command of the local protocol version is dispatched.
pub fn acknowledge_command(decoded: Option<Command>) -> (r: (TransmissionResult, Option<Command>))
    ensures
        r.0 == ack_for(decoded),
        r.1 == (if r.0 == TransmissionResult::Received { decoded } else { None }),
{
    match decoded {
        None => (TransmissionResult::BadSyntax, None),
        Some(c) => if c.protocol_version == PROTOCOL_VERSION {
            (TransmissionResult::Received, Some(c))
        } else {
            (TransmissionResult::MismatchedVersions, None)
        },
    }
}

#[verifier::external_type_specification]
#[verifier::external_body]
pub struct ExJsonError(serde_json::Error);

/// A lowercase hexadecimal digit.
pub open spec fn hex_digit(d: nat) -> char {
    if d < 10 {
        digit_char(d)
    } else if d == 10 {
        'a'
    } else if d == 11 {
        'b'
    } else if d == 12 {
        'c'
    } else if d == 13 {
        'd'
    } else if d == 14 {
        'e'
    } else {
        'f'
    }
}

/// How one character stands inside a JSON string: a quote and a backslash
/// behind a backslash; backspace, form feed, line feed, carriage return and
/// tab as `\b`, `\f`, `\n`, `\r`, `\t`; any other control character below
/// U+0020 as `\u00` and two lowercase hex digits; anything else as it is.
pub open spec fn json_escape_char(c: char) -> Seq<char> {
    let n = c as u32;
    if c == '"' {
        seq!['\\', '"']
    } else if c == '\\' {
        seq!['\\', '\\']
    } else if n == 8 {
        seq!['\\', 'b']
    } else if n == 12 {
        seq!['\\', 'f']
    } else if n == 10 {
        seq!['\\', 'n']
    } else if n == 13 {
        seq!['\\', 'r']
    } else if n == 9 {
        seq!['\\', 't']
    } else if n < 32 {
        seq!['\\', 'u', '0', '0', hex_digit((n / 16) as nat), hex_digit((n % 16) as nat)]
    } else {
        seq![c]
    }
}

pub open spec fn json_escaped(s: Seq<char>) -> Seq<char>
    decreases s.len(),
{
    if s.len() == 0 {
        Seq::empty()
    } else {
        json_escaped(s.drop_last()) + json_escape_char(s.last())
    }
}

/// The JSON string literal of a text: its escaped characters between quotes.
pub open spec fn json_string_of(s: Seq<char>) -> Seq<char> {
    seq!['"'] + json_escaped(s) + seq!['"']
}

#[verifier::external_body]
fn json_string(s: &str) -> (r: Result<String, serde_json::Error>)
    ensures
        r is Ok,
        r matches Ok(t) ==> t@ == json_string_of(s@),
{
    serde_json::to_string(s)
}

pub open spec fn family_name(f: BotFamily) -> Seq<char> {
    match f {
        BotFamily::Discord => "Discord"@,
        BotFamily::Telegram => "Telegram"@,
        BotFamily::WhatsApp => "WhatsApp"@,
    }
}

/// `{"server":SERVER,"name":NAME}`.
pub open spec fn actor_json(a: ActorInfos) -> Seq<char> {
    "{\"server\":"@ + json_string_of(a.server@) + ",\"name\":"@ + json_string_of(a.name@) + "}"@
}

/// A forwarded message as `{"ForwardMessage":{"from":..,"to":..,"content":..}}`,
/// a kind without fields as its name in quotes.
pub open spec fn kind_json(k: CommandKind) -> Seq<char> {
    match k {
        CommandKind::ForwardMessage { from, to, content } => "{\"ForwardMessage\":{\"from\":"@
            + actor_json(from) + ",\"to\":"@ + actor_json(to) + ",\"content\":"@ + json_string_of(
            content@,
        ) + "}}"@,
        CommandKind::GetOnlineUsers => "\"GetOnlineUsers\""@,
    }
}

/// The JSON text of a command, as it travels to a relay peer:
/// `{"kind":..,"sender_bot_family":"..","protocol_version":N}`.
pub open spec fn command_json(c: Command) -> Seq<char> {
    "{\"kind\":"@ + kind_json(c.kind) + ",\"sender_bot_family\":\""@ + family_name(
        c.sender_bot_family,
    ) + "\",\"protocol_version\":"@ + decimal_chars(c.protocol_version as nat) + "}"@
}

fn append_json_string(out: &mut String, s: &String)
    ensures
        final(out)@ == old(out)@ + json_string_of(s@),
{
    if let Ok(t) = json_string(s.as_str()) {
        out.append(t.as_str());
    }
}

fn append_actor(out: &mut String, a: &ActorInfos)
    ensures
        final(out)@ == old(out)@ + actor_json(*a),
{
    proof {
        reveal_strlit("{\"server\":");
        reveal_strlit(",\"name\":");
        reveal_strlit("}");
    }
    out.append("{\"server\":");
    append_json_string(out, &a.server);
    out.append(",\"name\":");
    append_json_string(out, &a.name);
    out.append("}");
    assert(out@ =~= old(out)@ + actor_json(*a));
}

fn append_kind(out: &mut String, k: &CommandKind)
    ensures
        final(out)@ == old(out)@ + kind_json(*k),
{
    match k {
        CommandKind::ForwardMessage { from, to, content } => {
            proof {
                reveal_strlit("{\"ForwardMessage\":{\"from\":");
                reveal_strlit(",\"to\":");
                reveal_strlit(",\"content\":");
                reveal_strlit("}}");
            }
            out.append("{\"ForwardMessage\":{\"from\":");
            append_actor(out, from);
            out.append(",\"to\":");
            append_actor(out, to);
            out.append(",\"content\":");
            append_json_string(out, content);
            out.append("}}");
            assert(out@ =~= old(out)@ + kind_json(*k));
        },
        CommandKind::GetOnlineUsers => {
            proof {
                reveal_strlit("\"GetOnlineUsers\"");
            }
            out.append("\"GetOnlineUsers\"");
        },
    }
}

impl Command {
    /// The command's JSON text; its strings are escaped by `serde_json`.
    pub fn to_json(&self) -> (r: String)
        ensures
            r@ == command_json(*self),
    {
        proof {
            reveal_strlit("{\"kind\":");
            reveal_strlit(",\"sender_bot_family\":\"");
            reveal_strlit("\",\"protocol_version\":");
            reveal_strlit("}");
            reveal_strlit("Discord");
            reveal_strlit("Telegram");
            reveal_strlit("WhatsApp");
        }
        let mut out = String::new();
        out.append("{\"kind\":");
        append_kind(&mut out, &self.kind);
        out.append(",\"sender_bot_family\":\"");
        match self.sender_bot_family {
            BotFamily::Discord => out.append("Discord"),
            BotFamily::Telegram => out.append("Telegram"),
            BotFamily::WhatsApp => out.append("WhatsApp"),
        }
        out.append("\",\"protocol_version\":");
        let v = decimal_string(self.protocol_version as u64);
        out.append(v.as_str());
        out.append("}");
        assert(out@ =~= command_json(*self));
        out
    }
}

} // verus!
