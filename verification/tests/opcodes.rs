use shiki::events;
use shiki::models::Attachment;
use shiki::ws::events::{ChannelCreate, Event, HasOpcode, MessageCreate, Opcode, Ready};
use shiki::ws::server::{CreateMessage, User};

fn author() -> User {
    User { id: 7, username: "ann".to_string(), joined: 11, avatar: None }
}

#[test]
fn opcodes_are_read_from_numbers() {
    for (number, opcode) in [
        (0u64, events::Opcode::Identify),
        (1, events::Opcode::Ready),
        (2, events::Opcode::MessageCreate),
        (3, events::Opcode::ChannelCreate),
    ] {
        let value = serde_json::Value::from(number);
        assert_eq!(events::Opcode::from_json(Some(&value)), Some(opcode));
        assert_eq!(events::Opcode::from_code(Some(number)), Some(opcode));
        assert_eq!(u64::from(opcode.code()), number);
    }
}

#[test]
fn other_values_are_no_opcode() {
    assert_eq!(events::Opcode::from_json(None), None);
    for value in [
        serde_json::Value::Null,
        serde_json::Value::from(4u64),
        serde_json::Value::from(u64::MAX),
        serde_json::Value::from(-1i64),
        serde_json::Value::from(1.0f64),
        serde_json::Value::from("1"),
        serde_json::Value::from(true),
    ] {
        assert_eq!(events::Opcode::from_json(Some(&value)), None);
        assert_eq!(Opcode::from_json(Some(&value)), None);
    }
    assert_eq!(events::Opcode::from_code(None), None);
}

#[test]
fn gateway_opcodes_are_read_from_numbers() {
    for (number, opcode) in [
        (0u64, Opcode::Identify),
        (1, Opcode::Ready),
        (2, Opcode::MessageCreate),
        (3, Opcode::ChannelCreate),
    ] {
        let value = serde_json::Value::from(number);
        assert_eq!(Opcode::from_json(Some(&value)), Some(opcode));
        assert_eq!(u64::from(opcode.code()), number);
    }
}

#[test]
fn custom_opcode_is_written_and_not_read() {
    assert_eq!(Opcode::Custom.code(), 4);
    assert_eq!(Opcode::from_code(Some(4)), None);
    assert_eq!(Opcode::from_json(Some(&serde_json::Value::from(4u64))), None);
}

#[test]
fn payloads_carry_their_opcode() {
    let ready = events::Ready::new(1, "ann".to_string());
    assert_eq!(ready.opcode(), events::Opcode::Ready);
    assert_eq!((ready.id, ready.name.as_str()), (1, "ann"));

    let message = events::MessageCreate::new(2, "hi".to_string(), Some(1), 3);
    assert_eq!(message.opcode(), events::Opcode::MessageCreate);
    assert_eq!((message.id, message.author_id, message.channel_id), (2, Some(1), 3));
    assert_eq!(message.content, "hi");

    let channel = events::ChannelCreate::new(4, "general".to_string());
    assert_eq!(channel.opcode(), events::Opcode::ChannelCreate);
    assert_eq!((channel.id, channel.name.as_str()), (4, "general"));
}

#[test]
fn payload_types_have_an_opcode() {
    assert_eq!(Ready::opcode(), Opcode::Ready);
    assert_eq!(MessageCreate::opcode(), Opcode::MessageCreate);
    assert_eq!(ChannelCreate::opcode(), Opcode::ChannelCreate);
}

#[test]
fn events_are_records_or_custom_text() {
    let channel = Event::ChannelCreate(ChannelCreate::new(4, "general".to_string()));
    assert_eq!((channel.opcode(), channel.text()), (Opcode::ChannelCreate, None));

    let ready = Event::Ready(Ready { channels: vec![], user: author(), users: vec![author()] });
    assert_eq!((ready.opcode(), ready.text()), (Opcode::Ready, None));

    for (event, text) in [
        (Event::Custom("7 left".to_string()), "7 left"),
        (Event::SetToken("secret".to_string()), "secret"),
        (Event::BadToken, ""),
        (Event::Hello, ""),
    ] {
        assert_eq!(event.opcode(), Opcode::Custom);
        assert_eq!(event.text(), Some(text.to_string()));
        assert_eq!(event.clone().text(), event.text());
    }
}

#[test]
fn message_event_shows_attachments_not_their_ids() {
    let picture = Attachment {
        id: 5,
        filename: "a.png".to_string(),
        size: 10,
        url: "https://cdn.shiki.space/a.png".to_string(),
        width: 1,
        height: 2,
        content_type: "image/png".to_string(),
    };
    let event = MessageCreate::from(CreateMessage {
        id: 1,
        channel_id: 2,
        content: "look".to_string(),
        author: author(),
        created_at: 3,
        attachments: Some(vec![5]),
        attachments_raw: Some(vec![picture.clone()]),
    });
    assert_eq!((event.id, event.channel_id, event.created_at), (1, 2, 3));
    assert_eq!(event.content, "look");
    assert_eq!(event.author, author());
    assert_eq!(event.attachments, Some(vec![picture]));
    let event = Event::MessageCreate(event);
    assert_eq!((event.opcode(), event.text()), (Opcode::MessageCreate, None));
}
