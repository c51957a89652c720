use shiki::models;
use shiki::models::{Attachment, Message};
use shiki::routes::api::messages::{
    create_message, default_after, default_before, default_limit, message_stored, GetMessage,
    GetMessages, MessagePage, MessageQuery, ID_ORDER,
};
use shiki::routes::{json_error, Refusal, Status};
use shiki::ids::IdGenerator;
use shiki::ws::server::{CreateMessage, User};

fn refusal(status: Status, body: &str) -> Refusal {
    Refusal { status, body: Some(body.to_string()) }
}

fn internal() -> Refusal {
    refusal(Status::InternalServerError, "Something went wrong")
}

fn account(id: i64, name: &str) -> models::User {
    models::User::with_token(id, "a@b.c", name, "pw", "t".to_string(), 8)
}

fn shown(id: i64, name: &str) -> User {
    User { id, username: name.to_string(), joined: 8, avatar: None }
}

fn deleted() -> User {
    User { username: "Deleted User".to_string(), ..User::default() }
}

fn message(id: i64, author_id: i64, attachments: Option<Vec<i64>>) -> Message {
    Message {
        id,
        channel_id: 2,
        author_id,
        content: format!("text {id}"),
        created_at: 100,
        attachments,
    }
}

fn picture(id: i64) -> Attachment {
    Attachment {
        id,
        filename: format!("{id}.png"),
        size: 10,
        url: "u".to_string(),
        width: 1,
        height: 2,
        content_type: "image/png".to_string(),
    }
}

fn page(messages: Vec<Message>) -> MessagePage {
    MessagePage::found(Some(messages)).unwrap()
}

fn draft(attachments: Option<Vec<i64>>) -> CreateMessage {
    CreateMessage {
        id: 0,
        channel_id: 0,
        content: "hi".to_string(),
        author: User::default(),
        created_at: 50,
        attachments,
        attachments_raw: None,
    }
}

#[test]
fn defaults_of_a_request() {
    assert_eq!(default_before(), None);
    assert_eq!(default_after(), None);
    assert_eq!(default_limit(), 50);
}

#[test]
fn limit_is_between_1_and_100() {
    let query = |limit| GetMessages { before: None, after: None, limit }.query(2);
    for limit in [1, 50, 100] {
        assert_eq!(
            query(limit),
            Ok(MessageQuery { channel_id: 2, before: None, after: None, limit })
        );
    }
    for limit in [0, -1, 101, i64::MIN, i64::MAX] {
        assert_eq!(
            query(limit),
            Err(refusal(Status::BadRequest, "Limit must be between 1 and 100"))
        );
    }
}

#[test]
fn both_bounds_apply() {
    assert_eq!(
        GetMessages { before: Some(9), after: Some(4), limit: 10 }.query(2),
        Ok(MessageQuery { channel_id: 2, before: Some(9), after: Some(4), limit: 10 })
    );
}

#[test]
fn failed_search_is_an_internal_error() {
    assert_eq!(MessagePage::found(None).err(), Some(internal()));
}

#[test]
fn attachments_and_authors_to_fetch() {
    let page = page(vec![
        message(1, 7, Some(vec![11, 12])),
        message(2, 8, None),
        message(3, 7, Some(vec![])),
        message(4, 7, Some(vec![12])),
    ]);
    assert_eq!(page.attachment_ids(), vec![11, 12, 12]);
    let mut authors = page.author_ids();
    authors.sort();
    assert_eq!(authors, vec![7, 8]);
}

#[test]
fn messages_are_listed_with_authors_and_attachments() {
    let list = page(vec![message(1, 7, Some(vec![12, 13, 11])), message(2, 8, None)])
        .finish(
            Some(vec![picture(11), picture(12)]),
            Some(vec![account(7, "ann"), account(8, "bob")]),
        )
        .unwrap();
    assert_eq!(
        list,
        vec![
            GetMessage {
                id: 1,
                channel_id: 2,
                content: "text 1".to_string(),
                created_at: 100,
                author: shown(7, "ann"),
                attachments: Some(vec![picture(12), picture(11)]),
            },
            GetMessage {
                id: 2,
                channel_id: 2,
                content: "text 2".to_string(),
                created_at: 100,
                author: shown(8, "bob"),
                attachments: None,
            },
        ]
    );
    assert_eq!(list[0].clone(), list[0]);
}

#[test]
fn missing_authors_are_shown_as_deleted() {
    let list = page(vec![message(1, 7, None), message(2, 8, None), message(3, 9, None)])
        .finish(Some(vec![]), Some(vec![account(8, "bob")]))
        .unwrap();
    let authors: Vec<User> = list.into_iter().map(|m| m.author).collect();
    assert_eq!(authors, vec![deleted(), shown(8, "bob"), deleted()]);
}

#[test]
fn author_zero_is_always_shown_as_deleted() {
    let list = page(vec![message(1, 0, None)])
        .finish(None, Some(vec![account(0, "nobody")]))
        .unwrap();
    assert_eq!(list[0].author, deleted());
}

#[test]
fn unknown_author_among_enough_users_is_blank() {
    let list = page(vec![message(1, 7, None)])
        .finish(None, Some(vec![account(8, "bob")]))
        .unwrap();
    assert_eq!(list[0].author, User::default());
}

#[test]
fn attachments_that_cannot_be_fetched_are_left_out() {
    let list = page(vec![message(1, 7, Some(vec![11]))])
        .finish(None, Some(vec![account(7, "ann")]))
        .unwrap();
    assert_eq!(list[0].attachments, Some(vec![]));
}

#[test]
fn without_users_there_is_no_list() {
    let result = page(vec![message(1, 7, None)]).finish(Some(vec![]), None);
    assert_eq!(result, Err(internal()));
}

#[test]
fn blank_listed_message() {
    assert_eq!(
        GetMessage::default(),
        GetMessage {
            id: 0,
            channel_id: 0,
            content: String::new(),
            created_at: 0,
            author: User::default(),
            attachments: None,
        }
    );
}

#[test]
fn attachments_of_a_new_message_must_exist() {
    let attached = draft(Some(vec![11, 12])).attach(Some(vec![picture(11), picture(12)])).unwrap();
    assert_eq!(attached.attachments, Some(vec![11, 12]));
    assert_eq!(attached.attachments_raw, Some(vec![picture(11), picture(12)]));

    let missing = Some(refusal(Status::BadRequest, "Attachments do not exist!"));
    assert_eq!(draft(Some(vec![11, 12])).attach(Some(vec![picture(11)])).err(), missing);
    assert_eq!(draft(Some(vec![11])).attach(None).err(), missing);

    let bare = draft(None).attach(None).unwrap();
    assert_eq!((bare.attachments, bare.attachments_raw), (None, None));
    let empty = draft(Some(vec![])).attach(None).unwrap();
    assert_eq!(empty.attachments_raw, Some(vec![]));
}

#[test]
fn new_message_gets_id_channel_and_author() {
    let message = draft(None).address_as(33, 2, account(7, "ann"));
    assert_eq!((message.id, message.channel_id, message.created_at), (33, 2, 50));
    assert_eq!(message.content, "hi");
    assert_eq!(message.author, shown(7, "ann"));
    let record = message.record();
    assert_eq!(
        record,
        Message {
            id: 33,
            channel_id: 2,
            author_id: 7,
            content: "hi".to_string(),
            created_at: 50,
            attachments: None,
        }
    );
}

#[test]
fn new_message_gets_the_next_id() {
    let mut ids = IdGenerator::new();
    let first = draft(None).address(2, account(7, "ann"), &mut ids);
    let second = draft(None).address(2, account(7, "ann"), &mut ids);
    assert_ne!(first.id, second.id);
    assert_eq!((first.id >> 12) & 0x3ff, 33);
    assert_eq!((first.channel_id, first.author), (2, shown(7, "ann")));
}

#[test]
fn message_that_is_not_stored_is_not_sent() {
    let sent = message_stored(draft(None), true).unwrap();
    assert_eq!(sent.content, "hi");
    assert_eq!(message_stored(draft(None), false).err(), Some(internal()));
}

#[test]
fn answers_to_a_new_message() {
    assert_eq!(create_message(Some(Some(draft(None)))).unwrap().content, "hi");
    assert_eq!(
        create_message(Some(None)).err(),
        Some(refusal(Status::BadRequest, "Channel does not exist!"))
    );
    assert_eq!(create_message(None).err(), Some(internal()));
}

#[test]
fn unreadable_json_is_answered_with_the_reason() {
    assert_eq!(json_error("no body"), "{\"error\":\"no body\"}");
}

#[test]
fn listing_keeps_the_answer_to_a_search() {
    assert_eq!(ID_ORDER, 1);
    let query = GetMessages { before: Some(9), after: Some(2), limit: 3 }.query(2).unwrap();
    let other = Message { channel_id: 5, ..message(4, 7, None) };
    let stored = [
        message(8, 7, None),
        message(3, 7, None),
        other,
        message(9, 7, None),
        message(6, 7, None),
        message(2, 7, None),
        message(5, 7, None),
    ];
    let mut answer: Vec<Message> = stored
        .into_iter()
        .filter(|m| m.channel_id == query.channel_id)
        .filter(|m| query.before.map_or(true, |id| m.id < id))
        .filter(|m| query.after.map_or(true, |id| m.id > id))
        .collect();
    answer.sort_by_key(|m| m.id);
    answer.truncate(query.limit as usize);
    let list = page(answer).finish(None, Some(vec![account(7, "ann")])).unwrap();
    assert_eq!(list.iter().map(|m| m.id).collect::<Vec<_>>(), vec![3, 5, 6]);
    assert!(list.iter().all(|m| m.channel_id == 2 && m.author == shown(7, "ann")));
}
