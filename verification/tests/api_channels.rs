use shiki::ids::IdGenerator;
use shiki::models;
use shiki::routes::api::channels::{
    create_channel, get_channels_list, get_count, join_channel, join_request, CreateChannel,
};
use shiki::routes::api::users::{modify_user, requester};
use shiki::routes::{Refusal, Status};
use shiki::validation::{validate_text, Problems};
use shiki::ws::server::{Channel, User};
use std::collections::HashSet;

fn refusal(status: Status, body: &str) -> Refusal {
    Refusal { status, body: Some(body.to_string()) }
}

fn internal() -> Refusal {
    refusal(Status::InternalServerError, "Something went wrong")
}

fn channel(id: i64) -> Channel {
    Channel { id, guild_id: None, name: "general".to_string(), sessions: HashSet::new() }
}

fn request(name: &str) -> CreateChannel {
    CreateChannel { name: name.to_string() }
}

fn account() -> models::User {
    models::User::with_token(7, "a@b.c", "ann", "pw", "t".to_string(), 8)
}

#[test]
fn count_of_visitors() {
    assert_eq!(get_count(0), "Visitors: 0");
    assert_eq!(get_count(1203), "Visitors: 1203");
}

#[test]
fn list_of_channels() {
    let list = get_channels_list(Ok(vec![channel(1), channel(2)])).unwrap();
    assert_eq!(list.iter().map(|c| c.id).collect::<Vec<_>>(), vec![1, 2]);
    assert_eq!(
        get_channels_list(Err("mailbox closed".to_string())).err(),
        Some(refusal(Status::InternalServerError, "mailbox closed"))
    );
}

#[test]
fn channel_names_are_not_empty_and_plain() {
    assert_eq!(request("g").validate(), Ok(()));
    assert_eq!(request(&"g".repeat(1000)).validate(), Ok(()));
    assert_eq!(
        request("").validate(),
        Err(Problems { length: true, non_control_character: false })
    );
    assert_eq!(
        request("a\tb").validate(),
        Err(Problems { length: false, non_control_character: true })
    );
}

#[test]
fn texts_are_checked_by_characters() {
    assert_eq!(validate_text("éé", 2, Some(2)), Ok(()));
    assert_eq!(
        validate_text("ééé\u{1f}", 1, Some(3)),
        Err(Problems { length: true, non_control_character: true })
    );
    assert_eq!(validate_text("", 0, None), Ok(()));
}

#[test]
fn new_channel_has_a_record_and_a_request() {
    let new = request("general").open_as(7, 33, 50);
    assert_eq!(new.record, models::Channel::created_at(33, "general", None, 7, 50));
    assert_eq!((new.request.id, new.request.guild_id), (33, None));
    assert_eq!(new.request.name, "general");
    assert!(new.request.sessions.is_empty());
}

#[test]
fn new_channel_gets_the_next_id_and_the_time() {
    let mut ids = IdGenerator::new();
    let before = shiki::clock::current_utc_timestamp();
    let new = request("general").open(7, &mut ids);
    assert!(before <= new.record.created_at);
    assert_eq!((new.record.id >> 12) & 0x3ff, 33);
    assert_eq!(new.record.id, new.request.id);
    assert_eq!(new.record.owner_id, 7);
    assert_ne!(request("general").open(7, &mut ids).record.id, new.record.id);
}

#[test]
fn channel_that_is_not_stored_is_not_created() {
    assert_eq!(request("general").open_as(7, 33, 50).stored(true).unwrap().id, 33);
    assert_eq!(request("general").open_as(7, 33, 50).stored(false).err(), Some(internal()));
}

#[test]
fn answers_to_a_new_channel() {
    assert_eq!(create_channel(Ok(Some(channel(3)))).unwrap().id, 3);
    assert_eq!(
        create_channel(Ok(None)).err(),
        Some(refusal(Status::BadRequest, "Channel already exists"))
    );
    assert_eq!(
        create_channel(Err("timeout".to_string())).err(),
        Some(refusal(Status::InternalServerError, "timeout"))
    );
}

#[test]
fn answers_to_joining_a_channel() {
    let join = join_request(5);
    assert_eq!((join.client_id, join.channel_id), (0, 5));
    assert_eq!(join_channel(Ok(Some(channel(3)))).unwrap().id, 3);
    assert_eq!(
        join_channel(Ok(None)).err(),
        Some(refusal(Status::BadRequest, "Channel does not exist"))
    );
    assert_eq!(
        join_channel(Err("timeout".to_string())).err(),
        Some(refusal(Status::InternalServerError, "timeout"))
    );
}

#[test]
fn requests_need_a_user() {
    assert_eq!(requester(Some(&account())), Ok(account()));
    assert_eq!(requester(None), Err(refusal(Status::Unauthorized, "Unauthorized")));
}

#[test]
fn answers_to_changing_the_account() {
    assert_eq!(
        modify_user(account(), true),
        Ok(User { id: 7, username: "ann".to_string(), joined: 8, avatar: None })
    );
    assert_eq!(modify_user(account(), false), Err(internal()));
}

#[test]
fn refusals_with_and_without_a_body() {
    assert_eq!(Refusal::bare(Status::NotFound), Refusal { status: Status::NotFound, body: None });
    assert_eq!(Refusal::with_body(Status::BadRequest, "no"), refusal(Status::BadRequest, "no"));
    assert_eq!(Refusal::internal(), internal());
}
