//! Both ends of a relay exchange past the acknowledgement rule: the handler
//! that turns a received command into a message for the messaging platform,
//! and the sender's reading of the acknowledgement it gets back.
use vstd::prelude::*;
use crate::qcproto::{Command, CommandKind, TransmissionResult};

verus! {

/// The number of UTF-16 code units that encode `s`: two for a character
/// outside the Basic Multilingual Plane, one for any other.
pub open spec fn utf16_len(s: Seq<char>) -> nat
    decreases s.len(),
{
    if s.len() == 0 {
        0
    } else {
        utf16_len(s.drop_last()) + utf16_width(s.last())
    }
}

pub open spec fn utf16_width(c: char) -> nat {
    if (c as u32) >= 0x10000 { 2 } else { 1 }
}

/// `utf16_len(s)`, or `usize::MAX` where that is larger.
pub open spec fn utf16_len_capped(s: Seq<char>) -> nat {
    if utf16_len(s) > usize::MAX { usize::MAX as nat } else { utf16_len(s) }
}

/// The number of UTF-16 code units of `s`, capped at `usize::MAX`.
fn utf16_units(s: &str) -> (r: usize)
    ensures
        r as nat == utf16_len_capped(s@),
{
    let n = s.unicode_len();
    let mut count: usize = 0;
    let mut i: usize = 0;
    while i < n
        invariant
            n == s@.len(),
            i <= n,
            count as nat == utf16_len_capped(s@.subrange(0, i as int)),
        decreases n - i,
    {
        let c = s.get_char(i);
        let w: usize = if (c as u32) >= 0x10000 { 2 } else { 1 };
        proof {
            let next = s@.subrange(0, i + 1);
            assert(next.drop_last() =~= s@.subrange(0, i as int));
            assert(utf16_len(next) == utf16_len(s@.subrange(0, i as int)) + utf16_width(c));
        }
        count = if count > usize::MAX - w { usize::MAX } else { count + w };
        i = i + 1;
    }
    assert(s@.subrange(0, n as int) =~= s@);
    count
}

/// A message to submit to the messaging platform: its target chat, its text,
/// and the leading range of UTF-16 code units shown in bold.
#[derive(Debug, Clone)]
pub struct OutgoingMessage {
    pub chat_id: i64,
    pub text: String,
    pub bold_offset: usize,
    pub bold_length: usize,
}

#[derive(Debug, Clone, Copy, PartialEq, Eq, Structural)]
pub enum HandlerError {
    /// The command handler only forwards messages.
    UnsupportedKind,
}

/// The text that says who writes what: the author's name, " пишет:", a line
/// break, then the content.
pub open spec fn forward_text(name: Seq<char>, content: Seq<char>) -> Seq<char> {
    name + " пишет:\n"@ + content
}

/// The message that forwards `cmd` into the chat `chat_id`, or why there is
/// none.
pub open spec fn forwarded(cmd: Command, chat_id: i64, r: Result<OutgoingMessage, HandlerError>) -> bool {
    match cmd.kind {
        CommandKind::ForwardMessage { from, to, content } => r matches Ok(m) && m.chat_id
            == chat_id && m.text@ == forward_text(from.name@, content@) && m.bold_offset == 0
            && m.bold_length as nat == utf16_len_capped(from.name@),
        CommandKind::GetOnlineUsers => r == Err::<OutgoingMessage, HandlerError>(
            HandlerError::UnsupportedKind,
        ),
    }
}

/// Turns received relay commands into messages for one chat of the messaging
/// platform; submitting them is the platform client's work.
pub struct AppCommandHandler {
    chat_id: i64,
}

impl AppCommandHandler {
    pub fn new(chat_id: i64) -> (r: AppCommandHandler)
        ensures
            r.chat() == chat_id,
    {
        AppCommandHandler { chat_id }
    }

    pub closed spec fn chat(&self) -> i64 {
        self.chat_id
    }

    /// Composes the message that forwards `msg`: the author's name in bold,
    /// then the content. Any kind other than `ForwardMessage` is an error.
    pub fn forward_message(&self, msg: &Command) -> (r: Result<OutgoingMessage, HandlerError>)
        ensures
            forwarded(*msg, self.chat(), r),
    {
        match &msg.kind {
            CommandKind::ForwardMessage { from, to: _, content } => {
                proof {
                    reveal_strlit(" пишет:\n");
                }
                let mut text = from.name.clone();
                text.append(" пишет:\n");
                text.append(content.as_str());
                Ok(
                    OutgoingMessage {
                        chat_id: self.chat_id,
                        text,
                        bold_offset: 0,
                        bold_length: utf16_units(from.name.as_str()),
                    },
                )
            },
            CommandKind::GetOnlineUsers => Err(HandlerError::UnsupportedKind),
        }
    }
}

/// Hands every received command to the command handler.
pub struct DefaultCommandDispatcher {
    handler: AppCommandHandler,
}

impl DefaultCommandDispatcher {
    pub fn new(handler: AppCommandHandler) -> (r: DefaultCommandDispatcher)
        ensures
            r.chat() == handler.chat(),
    {
        DefaultCommandDispatcher { handler }
    }

    pub closed spec fn chat(&self) -> i64 {
        self.handler.chat()
    }

    pub fn dispatch(&self, data: &Command) -> (r: Result<OutgoingMessage, HandlerError>)
        ensures
            forwarded(*data, self.chat(), r),
    {
        self.handler.forward_message(data)
    }
}

/// Why sending a command did not succeed.
#[derive(Debug, Clone, Copy, PartialEq, Eq, Structural)]
pub enum SendError {
    /// The peer could not decode the command.
    BadSyntax,
    /// The peer speaks another protocol version.
    MismatchedVersions,
    /// The peer's answer is no acknowledgement.
    MalformedAck,
    /// Connecting, writing or reading failed, or timed out.
    Transport,
}

/// What the sender reports for the acknowledgement it read (`None` when the
/// answer could not be decoded as one).
pub open spec fn ack_result(ack: Option<TransmissionResult>) -> Result<(), SendError> {
    match ack {
        Some(TransmissionResult::Received) => Ok(()),
        Some(TransmissionResult::BadSyntax) => Err(SendError::BadSyntax),
        Some(TransmissionResult::MismatchedVersions) => Err(SendError::MismatchedVersions),
        None => Err(SendError::MalformedAck),
    }
}

/// Success exactly when the peer acknowledged the command as received.
pub fn ack_outcome(ack: Option<TransmissionResult>) -> (r: Result<(), SendError>)
    ensures
        r == ack_result(ack),
        r is Ok <==> ack == Some(TransmissionResult::Received),
{
    match ack {
        Some(TransmissionResult::Received) => Ok(()),
        Some(TransmissionResult::BadSyntax) => Err(SendError::BadSyntax),
        Some(TransmissionResult::MismatchedVersions) => Err(SendError::MismatchedVersions),
        None => Err(SendError::MalformedAck),
    }
}

/// How a peer is reached.
#[derive(Debug, Clone, Copy, PartialEq, Eq, Structural)]
pub enum Transport {
    /// `host:port`.
    Tcp,
    /// A filesystem path of a Unix-domain socket.
    Unix,
}

/// An address is `host:port` when it has a colon and no slash; anything else
/// is the path of a Unix-domain socket.
pub open spec fn transport_of(addr: Seq<char>) -> Transport {
    if addr.contains(':') && !addr.contains('/') {
        Transport::Tcp
    } else {
        Transport::Unix
    }
}

/// The transport that reaches `addr`.
pub fn transport_for(addr: &str) -> (r: Transport)
    ensures
        r == transport_of(addr@),
{
    let n = addr.unicode_len();
    let mut colon = false;
    let mut slash = false;
    let mut i: usize = 0;
    while i < n
        invariant
            n == addr@.len(),
            i <= n,
            colon <==> exists|j: int| 0 <= j < i && addr@[j] == ':',
            slash <==> exists|j: int| 0 <= j < i && addr@[j] == '/',
        decreases n - i,
    {
        let c = addr.get_char(i);
        if c == ':' {
            colon = true;
        }
        if c == '/' {
            slash = true;
        }
        i = i + 1;
    }
    if colon && !slash {
        assert(addr@.contains(':'));
        Transport::Tcp
    } else {
        Transport::Unix
    }
}

/// Where a sender delivers its payloads, and over which transport.
#[derive(Debug)]
pub struct DataSender {
    destination: String,
    transport: Transport,
}

impl DataSender {
    pub fn new(destination: String) -> (r: DataSender)
        ensures
            r.destination_view() == destination@,
            r.transport_view() == transport_of(destination@),
    {
        let transport = transport_for(destination.as_str());
        DataSender { destination, transport }
    }

    pub closed spec fn destination_view(&self) -> Seq<char> {
        self.destination@
    }

    pub closed spec fn transport_view(&self) -> Transport {
        self.transport
    }

    pub fn destination(&self) -> (r: &String)
        ensures
            r@ == self.destination_view(),
    {
        &self.destination
    }

    pub fn transport(&self) -> (r: Transport)
        ensures
            r == self.transport_view(),
    {
        self.transport
    }
}

/// The sender of relay commands to one peer. Each send opens its own
/// connection, writes the command, and reads back one acknowledgement.
#[derive(Debug)]
pub struct CommandSender {
    sender: DataSender,
}

impl CommandSender {
    pub fn new(destination: String) -> (r: CommandSender)
        ensures
            r.destination_view() == destination@,
            r.transport_view() == transport_of(destination@),
    {
        CommandSender { sender: DataSender::new(destination) }
    }

    pub closed spec fn destination_view(&self) -> Seq<char> {
        self.sender.destination_view()
    }

    pub closed spec fn transport_view(&self) -> Transport {
        self.sender.transport_view()
    }

    pub fn destination(&self) -> (r: &String)
        ensures
            r@ == self.destination_view(),
    {
        self.sender.destination()
    }

    pub fn transport(&self) -> (r: Transport)
        ensures
            r == self.transport_view(),
    {
        self.sender.transport()
    }
}

} // verus!
