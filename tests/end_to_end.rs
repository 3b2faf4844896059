use queens_corsar_tg::{
    acknowledge_command, ack_outcome, ActorInfos, AppCommandHandler, BotFamily, Command,
    CommandKind, DefaultCommandDispatcher, DefaultUpdateDispatcher, DefaultUpdateHandler, Message,
    TransmissionResult, Update, User,
};

fn text(v: &serde_json::Value, key: &str) -> String {
    v.get(key).and_then(|x| x.as_str()).expect("string field").to_string()
}

fn actor(v: &serde_json::Value) -> ActorInfos {
    ActorInfos { server: text(v, "server"), name: text(v, "name") }
}

/// Decodes a command the way a relay peer reads it.
fn peer_decode(payload: &str) -> Option<Command> {
    let v: serde_json::Value = serde_json::from_str(payload).ok()?;
    let fwd = v.get("kind")?.get("ForwardMessage")?;
    let family = match v.get("sender_bot_family")?.as_str()? {
        "Discord" => BotFamily::Discord,
        "Telegram" => BotFamily::Telegram,
        "WhatsApp" => BotFamily::WhatsApp,
        _ => return None,
    };
    Some(Command {
        kind: CommandKind::ForwardMessage {
            from: actor(fwd.get("from")?),
            to: actor(fwd.get("to")?),
            content: text(fwd, "content"),
        },
        sender_bot_family: family,
        protocol_version: u16::try_from(v.get("protocol_version")?.as_u64()?).ok()?,
    })
}

#[test]
fn relay_end_to_end() {
    let update = Update {
        update_id: 10,
        message: Some(Message {
            chat_id: 42,
            from: Some(User { first_name: "Alice".to_string(), last_name: None }),
            text: Some("hi".to_string()),
        }),
    };
    let webhook = DefaultUpdateDispatcher::new(DefaultUpdateHandler::new(
        Some("/tmp/peer.sock".to_string()),
        "chat2".to_string(),
    ));
    let relay = webhook.dispatch(update).expect("one relay");
    let payload = relay.command.to_json();

    let decoded = peer_decode(&payload);
    let (ack, accepted) = acknowledge_command(decoded);
    assert_eq!(ack, TransmissionResult::Received);
    let ack_text = ack.to_json();
    assert_eq!(
        serde_json::from_str::<serde_json::Value>(&ack_text).expect("JSON"),
        serde_json::Value::String("Received".to_string())
    );
    assert_eq!(ack_outcome(Some(ack)), Ok(()));

    let accepted = accepted.expect("dispatched");
    assert!(accepted == relay.command);
    let out = DefaultCommandDispatcher::new(AppCommandHandler::new(-7))
        .dispatch(&accepted)
        .expect("forwarded");
    assert_eq!(out.chat_id, -7);
    assert_eq!(out.text, "Alice пишет:\nhi");
    assert_eq!(out.bold_length, 5);
}

#[test]
fn garbage_payload_end_to_end() {
    let (ack, accepted) = acknowledge_command(peer_decode("{\"kind\":"));
    assert_eq!(ack, TransmissionResult::BadSyntax);
    assert!(accepted.is_none());
    assert_eq!(ack.to_json(), "\"BadSyntax\"");
}
