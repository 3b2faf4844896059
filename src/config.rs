//! The gateway's configuration, and the start-up checks of a server's parts.
use vstd::prelude::*;
use crate::text::{decimal_chars, decimal_string};

verus! {

/// Relay sockets of the sibling bots, by platform.
#[derive(Debug, Clone)]
pub struct ServersSection {
    pub discord: Option<String>,
    pub whatsapp: Option<String>,
}

/// The mandatory settings: where the webhook server listens, its TLS key and
/// certificate files, the environment variable that holds the platform token,
/// and the socket on which relay commands arrive.
#[derive(Debug, Clone)]
pub struct GeneralSection {
    pub server_ip: String,
    pub server_port: u16,
    pub private_key_path: String,
    pub certificate_path: String,
    pub token_var: String,
    pub sock_addr: String,
}

#[derive(Debug, Clone)]
pub struct Config {
    pub general: GeneralSection,
    pub integrations: Option<ServersSection>,
}

impl Default for Config {
    fn default() -> (r: Config)
        ensures
            r.general.server_ip@ == "127.0.0.1"@,
            r.general.server_port == 8443,
            r.general.private_key_path@ == "private.key"@,
            r.general.certificate_path@ == "server.crt"@,
            r.general.token_var@ == "QUEENSCORSAR_TG_TOKEN"@,
            r.general.sock_addr@ == "/tmp/qcorsar.tg.sock"@,
            r.integrations is None,
    {
        Config {
            general: GeneralSection {
                server_ip: String::from_str("127.0.0.1"),
                server_port: 8443,
                private_key_path: String::from_str("private.key"),
                certificate_path: String::from_str("server.crt"),
                token_var: String::from_str("QUEENSCORSAR_TG_TOKEN"),
                sock_addr: String::from_str("/tmp/qcorsar.tg.sock"),
            },
            integrations: None,
        }
    }
}

/// The configured relay peer: the Discord bot's socket, if any.
pub open spec fn relay_peer_of(c: Config) -> Option<String> {
    match c.integrations {
        None => None,
        Some(s) => s.discord,
    }
}

impl Config {
    /// The address the webhook server binds: `IP:PORT`.
    pub fn webhook_address(&self) -> (r: String)
        ensures
            r@ == self.general.server_ip@ + ":"@ + decimal_chars(self.general.server_port as nat),
    {
        proof {
            reveal_strlit(":");
        }
        let mut addr = self.general.server_ip.clone();
        addr.append(":");
        let port = decimal_string(self.general.server_port as u64);
        addr.append(port.as_str());
        addr
    }

    /// The relay peer that webhook messages are forwarded to, if one is set.
    pub fn relay_peer(&self) -> (r: Option<String>)
        ensures
            match (r, relay_peer_of(*self)) {
                (Some(a), Some(b)) => a@ == b@,
                (None, None) => true,
                _ => false,
            },
    {
        match &self.integrations {
            None => None,
            Some(s) => match &s.discord {
                None => None,
                Some(d) => Some(d.clone()),
            },
        }
    }
}

/// Where a server's listener comes from.
#[derive(Debug, Clone, Copy, PartialEq, Eq, Structural)]
pub enum ListenerSource {
    /// A listener bound to the configured address, serving the given handler.
    Bind,
    /// A listener supplied ready-made, with its own handler.
    Custom,
}

/// A server whose parts do not fit together.
#[derive(Debug, Clone, Copy, PartialEq, Eq, Structural)]
pub enum ServerError {
    MissingLogger,
    /// Both an address and a listener, or neither.
    AddressOrListener,
    /// A handler beside a ready-made listener, which would never use it.
    HandlerWithListener,
}

/// The parts fit when there is a logger, exactly one of an address and a
/// listener, and no handler beside a listener; the listener is then the one
/// supplied when there is one, else one bound to the address. The handler of
/// a bound listener is optional.
pub open spec fn server_parts_spec(
    has_logger: bool,
    has_address: bool,
    has_listener: bool,
    has_handler: bool,
) -> Result<ListenerSource, ServerError> {
    if !has_logger {
        Err(ServerError::MissingLogger)
    } else if has_address == has_listener {
        Err(ServerError::AddressOrListener)
    } else if has_listener && has_handler {
        Err(ServerError::HandlerWithListener)
    } else {
        Ok(if has_listener { ListenerSource::Custom } else { ListenerSource::Bind })
    }
}

/// Checks, when a server is built, that its parts fit together: a logger, and
/// either an address to bind, with or without a handler for its connections,
/// or a ready-made listener alone.
pub fn check_server_parts(
    has_logger: bool,
    has_address: bool,
    has_listener: bool,
    has_handler: bool,
) -> (r: Result<ListenerSource, ServerError>)
    ensures
        r == server_parts_spec(has_logger, has_address, has_listener, has_handler),
        r is Ok <==> has_logger && has_address != has_listener && !(has_listener && has_handler),
        r == Ok::<ListenerSource, ServerError>(ListenerSource::Custom) <==> r is Ok && has_listener,
{
    if !has_logger {
        Err(ServerError::MissingLogger)
    } else if has_address == has_listener {
        Err(ServerError::AddressOrListener)
    } else if has_listener {
        if has_handler {
            Err(ServerError::HandlerWithListener)
        } else {
            Ok(ListenerSource::Custom)
        }
    } else {
        Ok(ListenerSource::Bind)
    }
}

} // verus!
