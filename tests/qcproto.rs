use queens_corsar_tg::{
    acknowledge_command, ActorInfos, BotFamily, Command, CommandKind, TransmissionResult,
    PROTOCOL_VERSION,
};

fn actor(server: &str, name: &str) -> ActorInfos {
    ActorInfos { server: server.to_string(), name: name.to_string() }
}

fn forward(content: &str, version: u16) -> Command {
    Command {
        kind: CommandKind::ForwardMessage {
            from: actor("chat1", "Alice"),
            to: actor("chat2", ""),
            content: content.to_string(),
        },
        sender_bot_family: BotFamily::Telegram,
        protocol_version: version,
    }
}

fn string_field(v: &serde_json::Value, key: &str) -> String {
    v.get(key).and_then(|x| x.as_str()).expect("string field").to_string()
}

fn decode_actor(v: &serde_json::Value) -> ActorInfos {
    ActorInfos { server: string_field(v, "server"), name: string_field(v, "name") }
}

fn decode_command(text: &str) -> Command {
    let v: serde_json::Value = serde_json::from_str(text).expect("valid JSON");
    let fwd = v.get("kind").and_then(|k| k.get("ForwardMessage")).expect("ForwardMessage");
    let family = match v.get("sender_bot_family").and_then(|f| f.as_str()) {
        Some("Discord") => BotFamily::Discord,
        Some("Telegram") => BotFamily::Telegram,
        Some("WhatsApp") => BotFamily::WhatsApp,
        other => panic!("unexpected family {:?}", other),
    };
    Command {
        kind: CommandKind::ForwardMessage {
            from: decode_actor(fwd.get("from").expect("from")),
            to: decode_actor(fwd.get("to").expect("to")),
            content: string_field(fwd, "content"),
        },
        sender_bot_family: family,
        protocol_version: v.get("protocol_version").and_then(|p| p.as_u64()).expect("version")
            as u16,
    }
}

#[test]
fn undecodable_payload_is_bad_syntax() {
    let (ack, dispatched) = acknowledge_command(None);
    assert_eq!(ack, TransmissionResult::BadSyntax);
    assert!(dispatched.is_none());
}

#[test]
fn other_version_is_mismatched_and_not_dispatched() {
    for v in [0u16, PROTOCOL_VERSION - 1, PROTOCOL_VERSION + 1, u16::MAX] {
        let (ack, dispatched) = acknowledge_command(Some(forward("hi", v)));
        assert_eq!(ack, TransmissionResult::MismatchedVersions);
        assert!(dispatched.is_none());
    }
}

#[test]
fn local_version_is_received_and_dispatched_once() {
    let cmd = forward("hi", PROTOCOL_VERSION);
    let (ack, dispatched) = acknowledge_command(Some(cmd.clone()));
    assert_eq!(ack, TransmissionResult::Received);
    assert_eq!(ack.to_json(), "\"Received\"");
    assert!(dispatched == Some(cmd));
}

#[test]
fn acknowledgement_texts() {
    assert_eq!(TransmissionResult::Received.to_string(), "Received");
    assert_eq!(TransmissionResult::BadSyntax.to_string(), "Bad syntax");
    assert_eq!(
        TransmissionResult::MismatchedVersions.to_string(),
        "Mismatched protocol versions"
    );
    assert_eq!(TransmissionResult::BadSyntax.to_json(), "\"BadSyntax\"");
    assert_eq!(TransmissionResult::MismatchedVersions.to_json(), "\"MismatchedVersions\"");
}

#[test]
fn command_json_text() {
    let json = forward("hi", 100).to_json();
    assert_eq!(
        json,
        "{\"kind\":{\"ForwardMessage\":{\"from\":{\"server\":\"chat1\",\"name\":\"Alice\"},\
         \"to\":{\"server\":\"chat2\",\"name\":\"\"},\"content\":\"hi\"}},\
         \"sender_bot_family\":\"Telegram\",\"protocol_version\":100}"
    );
}

#[test]
fn command_json_escapes_strings() {
    let json = forward("say \"hi\"\n", 100).to_json();
    assert!(json.contains("\"content\":\"say \\\"hi\\\"\\n\""));
}

#[test]
fn get_online_users_json() {
    let cmd = Command {
        kind: CommandKind::GetOnlineUsers,
        sender_bot_family: BotFamily::Discord,
        protocol_version: 7,
    };
    assert_eq!(
        cmd.to_json(),
        "{\"kind\":\"GetOnlineUsers\",\"sender_bot_family\":\"Discord\",\"protocol_version\":7}"
    );
}

#[test]
fn command_json_round_trip() {
    let cmd = forward("hi", PROTOCOL_VERSION);
    let json = cmd.to_json();
    let back = decode_command(&json);
    assert!(back == cmd);
    assert!(back != forward("hi!", PROTOCOL_VERSION));
}

fn object(fields: Vec<(&str, serde_json::Value)>) -> serde_json::Value {
    let mut map = serde_json::Map::new();
    for (k, v) in fields {
        map.insert(k.to_string(), v);
    }
    serde_json::Value::Object(map)
}

fn string(s: &str) -> serde_json::Value {
    serde_json::Value::String(s.to_string())
}

/// The layout serde derives for the wire types: structs as objects, a variant
/// with fields as a one-key object, a unit variant as its name.
#[test]
fn command_json_matches_serde_layout() {
    let expected = object(vec![
        (
            "kind",
            object(vec![(
                "ForwardMessage",
                object(vec![
                    ("from", object(vec![("server", string("chat1")), ("name", string("Alice"))])),
                    ("to", object(vec![("server", string("chat2")), ("name", string(""))])),
                    ("content", string("hi")),
                ]),
            )]),
        ),
        ("sender_bot_family", string("Telegram")),
        ("protocol_version", serde_json::Value::from(PROTOCOL_VERSION)),
    ]);
    let decoded: serde_json::Value =
        serde_json::from_str(&forward("hi", PROTOCOL_VERSION).to_json()).expect("valid JSON");
    assert_eq!(decoded, expected);
}

#[test]
fn command_json_escapes_control_characters() {
    let json = forward("a\u{1}\t\\\u{1f}é", 100).to_json();
    assert!(json.contains("\"content\":\"a\\u0001\\t\\\\\\u001fé\""));
}
