use shiki::clock::current_utc_timestamp;
use shiki::config::{server_url, CloudinaryConfig};
use shiki::ids::IdGenerator;
use shiki::models::{Attachment, Channel, Message, User};
use shiki::text::{joined, numbered, signed_text, unsigned_text};
use shiki::ws::server;
use std::collections::HashSet;

fn now() -> usize {
    std::time::SystemTime::now()
        .duration_since(std::time::UNIX_EPOCH)
        .unwrap()
        .as_secs() as usize
}

#[test]
fn clock_is_the_unix_clock() {
    let before = now();
    let read = current_utc_timestamp();
    assert!(before <= read && read <= now());
}

#[test]
fn channel_is_created_now() {
    let before = now();
    let channel = Channel::new(5, "general", Some("talk".to_string()), 9);
    assert!(before <= channel.created_at && channel.created_at <= now());
    assert_eq!((channel.id, channel.owner_id), (5, 9));
    assert_eq!(channel.name, "general");
    assert_eq!(channel.description, Some("talk".to_string()));
    assert_eq!(channel.clone(), channel);
}

#[test]
fn channel_with_a_time() {
    assert_eq!(
        Channel::created_at(5, "general", None, 9, 77),
        Channel {
            id: 5,
            name: "general".to_string(),
            description: None,
            created_at: 77,
            owner_id: 9,
        }
    );
}

#[test]
fn user_signs_up_with_a_random_token() {
    let before = now();
    let user = User::new(3, "a@b.c", "ann", "pw");
    assert!(before <= user.created_at && user.created_at <= now());
    assert_eq!(user.id, 3);
    assert_eq!(
        (user.email.as_str(), user.username.as_str(), user.password.as_str()),
        ("a@b.c", "ann", "pw")
    );
    assert_eq!(user.avatar, None);

    let token: Vec<char> = user.token.chars().collect();
    assert_eq!(token.len(), 36);
    for (i, c) in token.iter().enumerate() {
        if i == 8 || i == 13 || i == 18 || i == 23 {
            assert_eq!(*c, '-');
        } else {
            assert!(matches!(*c, '0'..='9' | 'a'..='f'));
        }
    }
    assert_eq!(token[14], '4');
    assert!(matches!(token[19], '8' | '9' | 'a' | 'b'));
    assert_ne!(user.token, User::new(3, "a@b.c", "ann", "pw").token);
}

#[test]
fn user_with_a_token() {
    assert_eq!(
        User::with_token(3, "a@b.c", "ann", "pw", "t".to_string(), 8),
        User {
            id: 3,
            email: "a@b.c".to_string(),
            username: "ann".to_string(),
            password: "pw".to_string(),
            token: "t".to_string(),
            created_at: 8,
            avatar: None,
        }
    );
}

#[test]
fn defaults_are_blank() {
    assert_eq!(Channel::default(), Channel::created_at(0, "", None, 0, 0));
    assert_eq!(User::default(), User::with_token(0, "", "", "", String::new(), 0));
    assert_eq!(
        Message::default(),
        Message {
            id: 0,
            channel_id: 0,
            author_id: 0,
            content: String::new(),
            created_at: 0,
            attachments: None,
        }
    );
    assert_eq!(
        server::User::default(),
        server::User { id: 0, username: String::new(), joined: 0, avatar: None }
    );
}

#[test]
fn clones_are_equal() {
    let attachment = Attachment {
        id: 5,
        filename: "a.png".to_string(),
        size: 10,
        url: "u".to_string(),
        width: 1,
        height: 2,
        content_type: "image/png".to_string(),
    };
    assert_eq!(attachment.clone(), attachment);
    let message = Message { attachments: Some(vec![3, 1, 2]), ..Message::default() };
    assert_eq!(message.clone(), message);
    let user = User { avatar: Some("a".to_string()), ..User::default() };
    assert_eq!(user.clone(), user);
    let guild = server::Guild { id: 4, name: "g".to_string() };
    let same = guild.clone();
    assert_eq!((same.id, same.name), (4, "g".to_string()));
}

#[test]
fn only_public_fields_of_an_account_are_shown() {
    let account = User {
        avatar: Some("face".to_string()),
        ..User::with_token(3, "a@b.c", "ann", "pw", "t".to_string(), 8)
    };
    assert_eq!(
        server::User::from(account),
        server::User {
            id: 3,
            username: "ann".to_string(),
            joined: 8,
            avatar: Some("face".to_string()),
        }
    );
}

#[test]
fn stored_channel_is_loaded_without_sessions() {
    let channel = server::Channel::from(Channel::created_at(5, "general", None, 9, 77));
    assert_eq!((channel.id, channel.guild_id), (5, None));
    assert_eq!(channel.name, "general");
    assert!(channel.sessions.is_empty());
}

#[test]
fn message_is_stored_with_the_ids_of_its_attachments() {
    let message = Message::from(server::CreateMessage {
        id: 1,
        channel_id: 2,
        content: "hi".to_string(),
        author: server::User { id: 3, ..server::User::default() },
        created_at: 4,
        attachments: Some(vec![5, 6]),
        attachments_raw: Some(vec![]),
    });
    assert_eq!(
        message,
        Message {
            id: 1,
            channel_id: 2,
            author_id: 3,
            content: "hi".to_string(),
            created_at: 4,
            attachments: Some(vec![5, 6]),
        }
    );
}

#[test]
fn ids_bear_machine_and_node_and_are_distinct() {
    let mut generator = IdGenerator::new();
    let mut seen = HashSet::new();
    for _ in 0..100 {
        let id = generator.generate();
        assert_eq!((id >> 12) & 0x3ff, 33);
        assert_ne!(id, 0);
        assert!(seen.insert(id));
    }
}

#[test]
fn ids_count_milliseconds_from_their_epoch() {
    let millis = |time: std::time::SystemTime| {
        time.duration_since(std::time::UNIX_EPOCH).unwrap().as_millis() as i64 - 1672531200
    };
    let before = millis(std::time::SystemTime::now());
    let mut generator = IdGenerator::new();
    let time = generator.generate() >> 22;
    let after = millis(std::time::SystemTime::now());
    assert!(before - 1 <= time && time <= after + 1);
}

#[test]
fn numbers_are_written_in_decimal() {
    for n in [0, 1, 9, 10, 99, 100, 1672531200, i64::MAX, -1, -10, i64::MIN] {
        assert_eq!(signed_text(n), format!("{n}"));
        assert_eq!(numbered("user_", n), format!("user_{n}"));
    }
    for n in [0, 7, 10, 65536, usize::MAX] {
        assert_eq!(unsigned_text(n), format!("{n}"));
    }
    assert_eq!(joined("user_token_", "abc"), "user_token_abc");
}

#[test]
fn server_url_has_a_default() {
    assert_eq!(server_url(None), "http://localhost:8080");
    assert_eq!(server_url(Some("http://a:1".to_string())), "http://a:1");
    let config = CloudinaryConfig {
        cloud_name: "c".to_string(),
        api_key: "k".to_string(),
        api_secret: "s".to_string(),
    };
    assert_eq!(config.cloud_name, "c");
}
