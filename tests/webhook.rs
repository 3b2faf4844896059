use queens_corsar_tg::{
    display_name_of, relay_command, webhook_ok_response, BotFamily, CommandKind,
    DefaultUpdateDispatcher, DefaultUpdateHandler, Message, Update, User, PROTOCOL_VERSION,
};

fn message(chat_id: i64, from: Option<User>, text: Option<&str>) -> Message {
    Message { chat_id, from, text: text.map(|t| t.to_string()) }
}

fn alice() -> Option<User> {
    Some(User { first_name: "Alice".to_string(), last_name: Some("Liddell".to_string()) })
}

fn dispatcher(peer: Option<&str>) -> DefaultUpdateDispatcher {
    DefaultUpdateDispatcher::new(DefaultUpdateHandler::new(
        peer.map(|p| p.to_string()),
        "1032941443058241546".to_string(),
    ))
}

#[test]
fn update_without_message_relays_nothing() {
    let update = Update { update_id: 1, message: None };
    assert!(dispatcher(Some("/tmp/discord.sock")).dispatch(update).is_none());
    assert_eq!(
        webhook_ok_response(),
        b"HTTP/1.1 200 OK\r\nContent-Type: application/json\r\n\r\n{\"result\":\"ok\"}".to_vec()
    );
}

#[test]
fn message_is_relayed_to_the_peer() {
    let update = Update { update_id: 2, message: Some(message(-100123, alice(), Some("hello"))) };
    let relay = dispatcher(Some("/tmp/discord.sock")).dispatch(update).expect("relayed");
    assert_eq!(relay.peer, "/tmp/discord.sock");
    assert_eq!(relay.command.sender_bot_family, BotFamily::Telegram);
    assert_eq!(relay.command.protocol_version, PROTOCOL_VERSION);
    match relay.command.kind {
        CommandKind::ForwardMessage { from, to, content } => {
            assert_eq!(from.server, "-100123");
            assert_eq!(from.name, "Alice Liddell");
            assert_eq!(to.server, "1032941443058241546");
            assert_eq!(to.name, "");
            assert_eq!(content, "hello");
        }
        CommandKind::GetOnlineUsers => panic!("wrong kind"),
    }
}

#[test]
fn without_peer_messages_are_dropped() {
    let update = Update { update_id: 3, message: Some(message(5, alice(), Some("hello"))) };
    assert!(dispatcher(None).dispatch(update).is_none());
}

#[test]
fn unknown_author_and_missing_text() {
    let cmd = relay_command(&message(0, None, None), &"c".to_string());
    match cmd.kind {
        CommandKind::ForwardMessage { from, content, .. } => {
            assert_eq!(from.server, "0");
            assert_eq!(from.name, "Unknown");
            assert_eq!(content, "");
        }
        CommandKind::GetOnlineUsers => panic!("wrong kind"),
    }
}

#[test]
fn display_names() {
    assert_eq!(display_name_of(&None), "Unknown");
    assert_eq!(
        display_name_of(&Some(User { first_name: "Bob".to_string(), last_name: None })),
        "Bob"
    );
    assert_eq!(display_name_of(&alice()), "Alice Liddell");
}
