use queens_corsar_tg::{
    ack_outcome, transport_for, ActorInfos, AppCommandHandler, BotFamily, Command, CommandKind,
    CommandSender, DataSender, DefaultCommandDispatcher, HandlerError, SendError, Transport,
    TransmissionResult,
};

fn forward(name: &str, content: &str) -> Command {
    Command {
        kind: CommandKind::ForwardMessage {
            from: ActorInfos { server: "chat1".to_string(), name: name.to_string() },
            to: ActorInfos { server: "chat2".to_string(), name: String::new() },
            content: content.to_string(),
        },
        sender_bot_family: BotFamily::Discord,
        protocol_version: 100,
    }
}

#[test]
fn forwarded_message_names_its_author_in_bold() {
    let handler = AppCommandHandler::new(-1001898024643);
    let out = handler.forward_message(&forward("Alice", "hi")).expect("forwarded");
    assert_eq!(out.chat_id, -1001898024643);
    assert_eq!(out.text, "Alice пишет:\nhi");
    assert_eq!(out.bold_offset, 0);
    assert_eq!(out.bold_length, 5);
}

#[test]
fn bold_length_counts_utf16_units() {
    let handler = AppCommandHandler::new(1);
    let out = handler.forward_message(&forward("Ян😀", "x")).expect("forwarded");
    assert_eq!(out.bold_length, 4);
}

#[test]
fn other_kinds_are_unsupported() {
    let cmd = Command {
        kind: CommandKind::GetOnlineUsers,
        sender_bot_family: BotFamily::Discord,
        protocol_version: 100,
    };
    let dispatcher = DefaultCommandDispatcher::new(AppCommandHandler::new(1));
    assert_eq!(dispatcher.dispatch(&cmd).unwrap_err(), HandlerError::UnsupportedKind);
}

#[test]
fn dispatcher_forwards() {
    let dispatcher = DefaultCommandDispatcher::new(AppCommandHandler::new(9));
    let out = dispatcher.dispatch(&forward("B", "c")).expect("forwarded");
    assert_eq!(out.chat_id, 9);
    assert_eq!(out.text, "B пишет:\nc");
}

#[test]
fn acknowledgements_seen_by_the_sender() {
    assert_eq!(ack_outcome(Some(TransmissionResult::Received)), Ok(()));
    assert_eq!(ack_outcome(Some(TransmissionResult::BadSyntax)), Err(SendError::BadSyntax));
    assert_eq!(
        ack_outcome(Some(TransmissionResult::MismatchedVersions)),
        Err(SendError::MismatchedVersions)
    );
    assert_eq!(ack_outcome(None), Err(SendError::MalformedAck));
}

#[test]
fn transport_follows_the_address_form() {
    assert_eq!(transport_for("127.0.0.1:9000"), Transport::Tcp);
    assert_eq!(transport_for("localhost:1"), Transport::Tcp);
    assert_eq!(transport_for("/tmp/qcorsar.ds.sock"), Transport::Unix);
    assert_eq!(transport_for("./dir:x/sock"), Transport::Unix);
    assert_eq!(transport_for("sock"), Transport::Unix);
    assert_eq!(transport_for(""), Transport::Unix);
}

#[test]
fn senders_keep_their_destination() {
    let d = DataSender::new("/tmp/a.sock".to_string());
    assert_eq!(d.destination(), "/tmp/a.sock");
    assert_eq!(d.transport(), Transport::Unix);
    let c = CommandSender::new("10.0.0.1:7000".to_string());
    assert_eq!(c.destination(), "10.0.0.1:7000");
    assert_eq!(c.transport(), Transport::Tcp);
}
