//! Core of a bot-relay gateway: the qcproto relay model and its acknowledgement
//! rules, a minimal HTTP request/response codec, the decisions of the
//! connection-accepting loop, and the conversion between webhook updates and
//! relay commands.
pub mod codec;
pub mod config;
pub mod listener;
pub mod qcproto;
pub mod relay;
pub mod text;
pub mod webhook;

pub use qcproto::{
    acknowledge_command, ActorInfos, BotFamily, Command, CommandContext, CommandKind,
    TransmissionResult, PROTOCOL_VERSION,
};
pub use text::{decimal_string, signed_decimal_string};
pub use codec::{encode_response, parse_request, Header, HttpVersion, ParseError, Request, MAX_HEADERS};
pub use listener::{stop_then_join_all, AcceptOutcome, ListenError, ListenerState, Phase};
pub use webhook::{
    display_name_of, relay_command, webhook_ok_response, DefaultUpdateDispatcher,
    DefaultUpdateHandler, Message, Relay, Update, User,
};
pub use relay::{
    ack_outcome, transport_for, AppCommandHandler, CommandSender, DataSender,
    DefaultCommandDispatcher, HandlerError, OutgoingMessage, SendError, Transport,
};
pub use config::{
    check_server_parts, Config, GeneralSection, ListenerSource, ServerError, ServersSection,
};
