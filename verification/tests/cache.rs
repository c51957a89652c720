use shiki::message_fields::{CacheReply, Incompatible};
use shiki::models::{Attachment, Channel, Message, User};
use shiki::redis::{
    cache_read, queried, token_read, user_queried, user_read, user_token_key, ChangeStep,
    FetchStep, FetchUserId, ItemKind, ModifyUser, RedisFetcher, UserStep,
};
use shiki::validation::Problems;
use std::collections::HashMap;

fn message() -> Message {
    Message {
        id: 42,
        channel_id: -7,
        author_id: 3,
        content: "say \"hi\"\n\\ é".to_string(),
        created_at: 1700000000,
        attachments: Some(vec![5, -6, 7]),
    }
}

fn fields(list: &[(&str, &str)]) -> Vec<(String, String)> {
    list.iter().map(|(k, v)| (k.to_string(), v.to_string())).collect()
}

/// The step that follows once there is a connection.
fn connected<T>(step: FetchStep<T>) -> FetchStep<T> {
    match step {
        FetchStep::Connect(plan) => plan.connected(Ok::<(), String>(())).unwrap(),
        _ => panic!("no connection is needed"),
    }
}

fn looked_for(wanted: FetchUserId) -> UserStep {
    RedisFetcher::new().fetch_user(Ok::<(), String>(()), wanted).unwrap()
}

fn account() -> User {
    User::with_token(3, "a@b.c", "ann", "pw", "abc".to_string(), 8)
}

#[test]
fn message_is_written_as_json_fields() {
    assert_eq!(
        message().to_fields(),
        fields(&[
            ("id", "42"),
            ("channel_id", "-7"),
            ("author_id", "3"),
            ("content", "\"say \\\"hi\\\"\\n\\\\ é\""),
            ("created_at", "1700000000"),
            ("attachments", "[5,-6,7]"),
        ])
    );
    let bare = Message { attachments: None, ..message() };
    assert_eq!(bare.to_fields()[5], ("attachments".to_string(), "null".to_string()));
    let empty = Message { attachments: Some(vec![]), ..message() };
    assert_eq!(empty.to_fields()[5].1, "[]");
}

#[test]
fn written_fields_are_what_the_serializer_writes() {
    let text = message().content;
    assert_eq!(message().to_fields()[3].1, serde_json::Value::from(text).to_string());
    let ids = serde_json::Value::from(vec![5i64, -6, 7]);
    assert_eq!(message().to_fields()[5].1, ids.to_string());
}

#[test]
fn message_is_read_back_as_it_was_stored() {
    for stored in [
        message(),
        Message::default(),
        Message { attachments: Some(vec![]), ..message() },
        Message { id: i64::MIN, channel_id: i64::MAX, created_at: usize::MAX, ..message() },
        Message { content: "\u{0}\u{7f}\u{1F600}".to_string(), ..message() },
    ] {
        assert_eq!(Message::from_fields(&stored.to_fields(), 0), Ok(stored.clone()));
        for turn in 0..6 {
            let mut list = stored.to_fields();
            list.rotate_left(turn);
            assert_eq!(Message::from_fields(&list, 0), Ok(stored.clone()));
            list.reverse();
            assert_eq!(Message::from_reply(CacheReply::Fields(list)), Ok(stored.clone()));
        }
    }
}

#[test]
fn empty_reply_is_the_default_message() {
    assert_eq!(Message::from_reply(CacheReply::Nil), Ok(Message::default()));
}

#[test]
fn reply_without_fields_is_incompatible() {
    assert_eq!(Message::from_reply(CacheReply::Other), Err(Incompatible));
}

#[test]
fn missing_record_is_incompatible() {
    assert_eq!(Message::from_reply(CacheReply::Fields(vec![])), Err(Incompatible));
}

#[test]
fn fields_come_in_any_order_and_the_last_one_counts() {
    let list = fields(&[
        ("content", "\"old\""),
        ("content", "\"new\""),
        ("author_id", " 3 "),
        ("unknown", "{\"a\":[true]}"),
        ("channel_id", "2"),
        ("id", "1"),
    ]);
    assert_eq!(
        Message::from_fields(&list, 99),
        Ok(Message {
            id: 1,
            channel_id: 2,
            author_id: 3,
            content: "new".to_string(),
            created_at: 99,
            attachments: None,
        })
    );
}

#[test]
fn message_without_a_time_is_from_now() {
    let list = fields(&[
        ("id", "1"),
        ("channel_id", "2"),
        ("author_id", "3"),
        ("content", "\"\""),
    ]);
    let before = shiki::clock::current_utc_timestamp();
    let read = Message::from_reply(CacheReply::Fields(list)).unwrap();
    assert!(before <= read.created_at);
    assert!(read.created_at <= shiki::clock::current_utc_timestamp());
}

#[test]
fn wrong_fields_are_incompatible() {
    for (name, value) in [
        ("id", "\"1\""),
        ("id", "1.0"),
        ("id", "9223372036854775808"),
        ("id", "1 2"),
        ("channel_id", "null"),
        ("author_id", "true"),
        ("content", "hello"),
        ("content", "5"),
        ("content", "null"),
        ("created_at", "-1"),
        ("created_at", "null"),
        ("attachments", "5"),
        ("attachments", "[1,\"2\"]"),
        ("attachments", "[1,null]"),
        ("other", "not json"),
    ] {
        let mut list = message().to_fields();
        list.push((name.to_string(), value.to_string()));
        assert_eq!(Message::from_fields(&list, 0), Err(Incompatible), "{name} {value}");
    }
    for name in ["id", "channel_id", "author_id", "content"] {
        let list: Vec<(String, String)> =
            message().to_fields().into_iter().filter(|f| f.0 != name).collect();
        assert_eq!(Message::from_fields(&list, 0), Err(Incompatible), "{name}");
    }
}

#[test]
fn keys_and_collections_of_records() {
    for (kind, key, collection) in [
        (ItemKind::Attachment, "attachment_12", "attachments"),
        (ItemKind::Channel, "channel_12", "channels"),
        (ItemKind::Message, "message_12", "messages"),
        (ItemKind::User, "user_12", "users"),
    ] {
        assert_eq!(kind.key(12), key);
        assert_eq!(kind.collection(), collection);
    }
    assert_eq!(ItemKind::User.key(-1), "user_-1");
    assert_eq!(user_token_key("abc"), "user_token_abc");
}

#[test]
fn keys_are_distinct() {
    let mut keys = vec![user_token_key(""), user_token_key("1"), user_token_key("-1")];
    for kind in [ItemKind::Attachment, ItemKind::Channel, ItemKind::Message, ItemKind::User] {
        for id in [0, 1, -1, 10, 11, i64::MAX, i64::MIN] {
            keys.push(kind.key(id));
        }
    }
    let count = keys.len();
    keys.sort();
    keys.dedup();
    assert_eq!(keys.len(), count);
}

#[test]
fn no_ids_need_no_fetching() {
    let fetcher = RedisFetcher::new();
    assert!(matches!(fetcher.fetch_messages(&[]), FetchStep::Done(items) if items.is_empty()));
    assert!(matches!(fetcher.fetch_users(Some(&[])), FetchStep::Done(items) if items.is_empty()));
}

#[test]
fn ids_are_looked_for_in_the_cache() {
    let fetcher = RedisFetcher::new();
    let ids = [3, -4];
    assert!(matches!(connected(fetcher.fetch_attachments(Some(&ids))),
        FetchStep::ReadCache(keys) if keys == ["attachment_3", "attachment_-4"]));
    assert!(matches!(connected(fetcher.fetch_channels(Some(&ids))),
        FetchStep::ReadCache(keys) if keys == ["channel_3", "channel_-4"]));
    assert!(matches!(connected(fetcher.fetch_messages(&ids)),
        FetchStep::ReadCache(keys) if keys == ["message_3", "message_-4"]));
    assert!(matches!(connected(fetcher.fetch_users(Some(&ids))),
        FetchStep::ReadCache(keys) if keys == ["user_3", "user_-4"]));
}

#[test]
fn all_records_are_asked_of_the_database() {
    let fetcher = RedisFetcher::new();
    assert!(matches!(connected(fetcher.fetch_channels(None)),
        FetchStep::Query { found, ids: None } if found.is_empty()));
    assert!(matches!(connected(fetcher.fetch_users(None)),
        FetchStep::Query { found, ids: None } if found.is_empty()));
    assert!(matches!(connected(fetcher.fetch_attachments(None)),
        FetchStep::Query { found, ids: None } if found.is_empty()));
}

#[test]
fn cached_records_need_no_database() {
    match cache_read(&[1, 2], vec![Some("a"), Some("b")]) {
        FetchStep::Done(items) => assert_eq!(items, ["a", "b"]),
        other => panic!("{other:?}"),
    }
}

#[test]
fn only_missing_records_are_asked_for() {
    match cache_read(&[1, 2, 3, 2], vec![None, Some("b"), None, Some("b")]) {
        FetchStep::Query { found, ids } => {
            assert_eq!(found, ["b", "b"]);
            assert_eq!(ids, Some(vec![1, 3]));
        }
        other => panic!("{other:?}"),
    }
}

#[test]
fn database_rows_follow_those_that_were_cached() {
    assert_eq!(queried(vec![2], Ok::<_, String>(vec![1, 3])), Ok(vec![2, 1, 3]));
    assert_eq!(queried(vec![2], Err::<Vec<i32>, _>("down")), Err("down"));
}

#[test]
fn user_is_looked_for_by_id() {
    let step = looked_for(FetchUserId::Id(3));
    assert!(matches!(step, UserStep::ReadUser { id: 3, ref key } if key == "user_3"));
    assert!(matches!(user_read(3, Some(account())), UserStep::Done(user) if user == account()));
    assert!(matches!(user_read(3, None), UserStep::Query(FetchUserId::Id(3))));
}

#[test]
fn user_is_looked_for_by_token() {
    let wanted = FetchUserId::Token("abc".to_string());
    let step = looked_for(wanted.clone());
    assert!(matches!(step, UserStep::ReadToken { ref token, ref key }
        if token == "abc" && key == "user_token_abc"));
    let step = token_read("abc".to_string(), Some(3));
    assert!(matches!(step, UserStep::ReadUser { id: 3, ref key } if key == "user_3"));
    let step = token_read("abc".to_string(), None);
    assert!(matches!(step, UserStep::Query(FetchUserId::Token(ref token)) if token == "abc"));
}

#[test]
fn user_from_the_database_goes_to_the_cache() {
    let found = user_queried(Ok::<_, String>(Some(account()))).unwrap().unwrap();
    assert_eq!(found.user, account());
    assert_eq!(found.user_key, "user_3");
    let cached = found.cached(Ok::<(), String>(())).unwrap();
    assert_eq!((&cached.user, cached.token_key.as_str()), (&account(), "user_token_abc"));
    assert_eq!(cached.token_cached(Ok::<(), String>(())), Ok(Some(account())));
}

#[test]
fn user_who_cannot_be_cached_is_an_error() {
    let found = || user_queried(Ok::<_, String>(Some(account()))).unwrap().unwrap();
    assert_eq!(found().cached(Err("full")).err(), Some("full"));
    let cached = found().cached(Ok::<(), String>(())).unwrap();
    assert_eq!(cached.token_cached(Err("full")), Err("full"));
}

#[test]
fn without_a_connection_nothing_is_fetched() {
    let wanted = FetchUserId::Id(3);
    let result = RedisFetcher::new().fetch_user(Err("no cache"), wanted);
    assert_eq!(result.err(), Some("no cache"));
    for ids in [Some(&[3i64][..]), None] {
        match RedisFetcher::new().fetch_users(ids) {
            FetchStep::Connect(plan) => {
                let step = plan.connected::<User, _>(Err("no cache"));
                assert_eq!(step.err(), Some("no cache"));
            }
            other => panic!("{other:?}"),
        }
    }
}

#[test]
fn user_that_is_nowhere() {
    assert!(matches!(user_queried(Ok::<_, String>(None)), Ok(None)));
    assert!(matches!(user_queried(Err("down")), Err("down")));
}

#[test]
fn cached_user_is_found_by_id_and_token() {
    let found = user_queried(Ok::<_, String>(Some(account()))).unwrap().unwrap();
    let users = HashMap::from([(found.user_key.clone(), found.user.clone())]);
    let cached = found.cached(Ok::<(), String>(())).unwrap();
    let ids = HashMap::from([(cached.token_key, 3i64)]);
    for wanted in [FetchUserId::Id(3), FetchUserId::Token("abc".to_string())] {
        let mut step = looked_for(wanted);
        for _ in 0..2 {
            step = match step {
                UserStep::ReadToken { token, key } => token_read(token, ids.get(&key).copied()),
                UserStep::ReadUser { id, key } => user_read(id, users.get(&key).cloned()),
                other => other,
            };
        }
        assert!(matches!(step, UserStep::Done(user) if user == account()));
    }
}

#[test]
fn new_records_have_a_key_and_a_collection() {
    let fetcher = RedisFetcher::new();
    let channel = Channel::created_at(5, "general", None, 9, 77);
    let insertion = fetcher.insert_channel(channel.clone());
    assert_eq!((insertion.key.as_str(), insertion.collection), ("channel_5", "channels"));
    assert_eq!(insertion.record, channel);

    let insertion = fetcher.insert_message(message());
    assert_eq!((insertion.key.as_str(), insertion.collection), ("message_42", "messages"));
    assert_eq!(insertion.record, message());

    let attachment = Attachment {
        id: 6,
        filename: "a.png".to_string(),
        size: 10,
        url: "u".to_string(),
        width: 1,
        height: 2,
        content_type: "image/png".to_string(),
    };
    let insertion = fetcher.insert_attachment(attachment.clone());
    assert_eq!((insertion.key.as_str(), insertion.collection), ("attachment_6", "attachments"));
    assert_eq!(insertion.record, attachment);
}

#[test]
fn changes_of_an_account() {
    let mut user = account();
    let data = ModifyUser {
        username: Some("bob".to_string()),
        avatar: Some("face".to_string()),
    };
    let changes = RedisFetcher::new().modify_user(Ok::<(), String>(()), &mut user, data).unwrap();
    assert_eq!(
        user,
        User {
            username: "bob".to_string(),
            avatar: Some("face".to_string()),
            ..account()
        }
    );
    assert_eq!((changes.id, changes.key.as_str()), (3, "user_3"));
    let written = fields(&[("username", "bob"), ("avatar", "face")]);
    assert_eq!(changes.fields, written);
}

#[test]
fn what_is_not_changed_stays() {
    let mut user = User { avatar: Some("face".to_string()), ..account() };
    let before = user.clone();
    let none = ModifyUser { username: None, avatar: None };
    let changes = RedisFetcher::new().modify_user(Ok::<(), String>(()), &mut user, none).unwrap();
    assert_eq!(user, before);
    assert!(changes.fields.is_empty());

    let data = ModifyUser { username: Some("bob".to_string()), avatar: None };
    let changes = RedisFetcher::new().modify_user(Ok::<(), String>(()), &mut user, data).unwrap();
    assert_eq!(user, User { username: "bob".to_string(), ..before.clone() });
    assert_eq!(changes.fields, fields(&[("username", "bob")]));

    let data = ModifyUser { username: None, avatar: Some("other".to_string()) };
    let changes = RedisFetcher::new().modify_user(Ok::<(), String>(()), &mut user, data).unwrap();
    assert_eq!(user.username, "bob");
    assert_eq!(user.avatar, Some("other".to_string()));
    assert_eq!(changes.fields, fields(&[("avatar", "other")]));
}

#[test]
fn usernames_have_a_length_and_no_control_characters() {
    let check = |name: &str| {
        ModifyUser { username: Some(name.to_string()), avatar: None }.validate()
    };
    let problems = |length, non_control_character| {
        Err(Problems { length, non_control_character })
    };
    assert_eq!(check("ab"), Ok(()));
    assert_eq!(check("éé"), Ok(()));
    assert_eq!(check(&"é".repeat(32)), Ok(()));
    assert_eq!(check("a"), problems(true, false));
    assert_eq!(check("é"), problems(true, false));
    assert_eq!(check(&"a".repeat(33)), problems(true, false));
    assert_eq!(check("a\u{7f}b"), problems(false, true));
    assert_eq!(check("ab\u{9f}"), problems(false, true));
    assert_eq!(check("ab\u{a0}"), Ok(()));
    assert_eq!(check("\n"), problems(true, true));
    assert_eq!(ModifyUser { username: None, avatar: Some(String::new()) }.validate(), Ok(()));
}

#[test]
fn stored_record_is_found_and_others_stay() {
    let insertion = RedisFetcher::new().insert_message(message());
    let cache = HashMap::from([(insertion.key, insertion.record), (
        "message_1".to_string(),
        Message { id: 1, ..Message::default() },
    )]);
    let ids = [42, 1, 2];
    let replies = match connected(RedisFetcher::new().fetch_messages(&ids)) {
        FetchStep::ReadCache(keys) => keys.iter().map(|k| cache.get(k).cloned()).collect(),
        other => panic!("{other:?}"),
    };
    match cache_read(&ids, replies) {
        FetchStep::Query { found, ids } => {
            assert_eq!(found, [message(), Message { id: 1, ..Message::default() }]);
            assert_eq!(ids, Some(vec![2]));
        }
        other => panic!("{other:?}"),
    }
}

fn changes() -> (User, shiki::redis::UserChanges) {
    let mut user = account();
    let data = ModifyUser { username: Some("bob".to_string()), avatar: None };
    let changes =
        RedisFetcher::new().modify_user(Ok::<(), String>(()), &mut user, data).unwrap();
    (user, changes)
}

#[test]
fn without_a_connection_an_account_is_not_changed() {
    let mut user = account();
    let data = ModifyUser { username: Some("bob".to_string()), avatar: None };
    let result = RedisFetcher::new().modify_user(Err("no cache"), &mut user, data);
    assert_eq!(result.err(), Some("no cache"));
    assert_eq!(user, account());
}

#[test]
fn changes_go_to_the_cache_only_where_it_has_the_user() {
    match changes().1.cache_checked(Ok::<_, String>(account())) {
        ChangeStep::WriteCache(changes) => {
            assert_eq!(changes.key, "user_3");
            let update = changes.cached(Ok::<(), String>(())).unwrap();
            assert_eq!((update.id, update.fields), (3, fields(&[("username", "bob")])));
        }
        other => panic!("{other:?}"),
    }
    match changes().1.cache_checked(Err::<User, _>("missing")) {
        ChangeStep::UpdateRow(update) => {
            assert_eq!((update.id, &update.fields), (3, &fields(&[("username", "bob")])));
            assert_eq!(update.updated(Ok::<(), String>(())), Ok(()));
        }
        other => panic!("{other:?}"),
    }
}

#[test]
fn failed_writes_of_changes_are_errors() {
    assert_eq!(changes().1.cached(Err("full")).err(), Some("full"));
    let update = changes().1.cached(Ok::<(), String>(())).unwrap();
    assert_eq!(update.updated(Err("down")), Err("down"));
}

#[test]
fn records_are_cached_before_they_are_inserted() {
    let row = RedisFetcher::new().insert_message(message()).cached(Ok::<(), String>(())).unwrap();
    assert_eq!((row.collection, &row.record), ("messages", &message()));
    assert_eq!(row.inserted(Ok::<(), String>(())), Ok(()));

    let row = RedisFetcher::new().insert_message(message()).cached(Ok::<(), String>(())).unwrap();
    assert_eq!(row.inserted(Err("down")), Err("down"));
    let refused = RedisFetcher::new().insert_message(message()).cached(Err("no cache"));
    assert_eq!(refused.err(), Some("no cache"));
}
