use shiki::models;
use shiki::ws::events::Event;
use shiki::ws::server::{
    Channel, Connect, CreateMessage, Delivery, Disconnect, Identify, Join, ListChannels,
    ShikiServer, Started, User,
};
use std::collections::HashSet;

fn stored(id: i64, name: &str) -> models::Channel {
    models::Channel::created_at(id, name, None, 7, 50)
}

fn asked(id: i64, name: &str) -> Channel {
    Channel { id, guild_id: Some(4), name: name.to_string(), sessions: HashSet::from([99]) }
}

fn account(id: i64, name: &str) -> models::User {
    models::User::with_token(id, "a@b.c", name, "pw", "t".to_string(), 8)
}

fn shown(id: i64, name: &str) -> User {
    User { id, username: name.to_string(), joined: 8, avatar: None }
}

fn message(channel_id: i64) -> CreateMessage {
    CreateMessage {
        id: 33,
        channel_id,
        content: "hi".to_string(),
        author: shown(7, "ann"),
        created_at: 50,
        attachments: None,
        attachments_raw: None,
    }
}

/// A server with channels 1 and 2 and these sessions.
fn server(sessions: &[usize]) -> ShikiServer {
    let mut server = ShikiServer::new(0);
    let started = server.started(Some(vec![stored(1, "general"), stored(2, "random")]));
    assert_eq!(started, Started::Running(2));
    for id in sessions {
        let greeting = server.connect_as(*id);
        assert_eq!(greeting.to, *id);
        assert!(matches!(greeting.event, Event::Hello));
    }
    server
}

fn hearers(deliveries: &[Delivery]) -> Vec<usize> {
    let mut list: Vec<usize> = deliveries.iter().map(|d| d.to).collect();
    list.sort();
    list
}

fn channels(server: &ShikiServer) -> Vec<(i64, String, Vec<usize>)> {
    let mut list: Vec<(i64, String, Vec<usize>)> = server
        .list_channels(ListChannels)
        .into_iter()
        .map(|c| {
            let mut sessions: Vec<usize> = c.sessions.into_iter().collect();
            sessions.sort();
            (c.id, c.name, sessions)
        })
        .collect();
    list.sort();
    list
}

#[test]
fn new_server_is_empty() {
    let server = ShikiServer::new(3);
    assert_eq!(server.visitor_count(), 3);
    assert!(server.list_channels(ListChannels).is_empty());
}

#[test]
fn server_starts_with_the_stored_channels() {
    let mut server = ShikiServer::new(0);
    let list = vec![stored(1, "old"), stored(2, "random"), stored(1, "new")];
    assert_eq!(server.started(Some(list)), Started::Running(2));
    assert_eq!(
        channels(&server),
        vec![(1, "new".to_string(), vec![]), (2, "random".to_string(), vec![])]
    );
}

#[test]
fn server_without_channels_stops() {
    assert_eq!(ShikiServer::new(0).started(None), Started::Stopping(0));
    let mut running = server(&[]);
    assert_eq!(running.started(None), Started::Stopping(2));
    assert_eq!(channels(&running).len(), 2);
}

#[test]
fn sessions_get_random_ids() {
    let mut server = server(&[]);
    let (first, greeting) = server.connect(Connect);
    assert_eq!(greeting.to, first);
    assert!(matches!(greeting.event, Event::Hello));
    let (second, _) = server.connect(Connect);
    assert_ne!(first, second);
    assert_eq!(server.visitor_count(), 2);
    let mut both = vec![first, second];
    both.sort();
    assert_eq!(channels(&server)[0].2, both);
}

#[test]
fn sessions_are_in_every_channel() {
    let server = server(&[5, 3]);
    assert_eq!(
        channels(&server),
        vec![
            (1, "general".to_string(), vec![3, 5]),
            (2, "random".to_string(), vec![3, 5]),
        ]
    );
    assert_eq!(server.visitor_count(), 2);
}

#[test]
fn channels_hear_that_a_session_left() {
    let mut server = server(&[3, 5, 8]);
    let mut heard = server.disconnect(Disconnect { id: 5 });
    heard.sort_by_key(|b| b.channel);
    assert_eq!(heard.iter().map(|b| b.channel).collect::<Vec<_>>(), vec![1, 2]);
    for broadcast in &heard {
        assert_eq!(hearers(&broadcast.deliveries), vec![3, 8]);
        for delivery in &broadcast.deliveries {
            assert!(matches!(&delivery.event, Event::Custom(text) if text == "5 left"));
        }
    }
    assert_eq!(server.visitor_count(), 2);
    assert_eq!(channels(&server)[0].2, vec![3, 8]);
    assert_eq!(channels(&server)[1].2, vec![3, 8]);
}

#[test]
fn unknown_session_leaves_nothing() {
    let mut server = server(&[3]);
    let before = channels(&server);
    assert!(server.disconnect(Disconnect { id: 4 }).is_empty());
    assert_eq!(channels(&server), before);
    assert_eq!(server.visitor_count(), 1);
    server.disconnect(Disconnect { id: 3 });
    assert_eq!(server.visitor_count(), 0);
    assert!(server.disconnect(Disconnect { id: 3 }).is_empty());
    assert_eq!(server.visitor_count(), 0);
}

#[test]
fn disconnecting_undoes_connecting() {
    let mut server = server(&[3]);
    let before = channels(&server);
    server.connect_as(9);
    assert_ne!(channels(&server), before);
    server.disconnect(Disconnect { id: 9 });
    assert_eq!(channels(&server), before);
    assert_eq!(server.visitor_count(), 1);
}

#[test]
fn full_counter_starts_again() {
    let mut server = ShikiServer::new(usize::MAX);
    server.connect_as(1);
    assert_eq!(server.visitor_count(), 0);
}

#[test]
fn new_channel_is_told_to_everyone() {
    let mut server = server(&[3, 5]);
    let (answer, deliveries) = server.create_channel(asked(6, "news"));
    let channel = answer.unwrap();
    assert_eq!((channel.id, channel.guild_id), (6, Some(4)));
    assert_eq!(channel.name, "news");
    assert_eq!(channel.sessions, HashSet::from([3, 5]));
    assert_eq!(hearers(&deliveries), vec![3, 5]);
    for delivery in &deliveries {
        assert!(matches!(&delivery.event,
            Event::ChannelCreate(c) if c.id == 6 && c.name == "news"));
    }
    assert_eq!(channels(&server)[2], (6, "news".to_string(), vec![3, 5]));
}

#[test]
fn channel_is_created_once() {
    let mut server = server(&[3]);
    server.create_channel(asked(6, "news"));
    let before = channels(&server);
    let (answer, deliveries) = server.create_channel(asked(6, "other"));
    assert!(answer.is_none());
    assert!(deliveries.is_empty());
    assert_eq!(channels(&server), before);
}

#[test]
fn message_goes_to_its_channel() {
    let server = server(&[3, 5]);
    let (answer, deliveries) = server.create_message(message(2));
    assert_eq!(answer.unwrap().content, "hi");
    assert_eq!(hearers(&deliveries), vec![3, 5]);
    for delivery in &deliveries {
        assert!(matches!(&delivery.event, Event::MessageCreate(m)
            if m.id == 33 && m.channel_id == 2 && m.content == "hi"
                && m.author == shown(7, "ann") && m.created_at == 50));
    }
}

#[test]
fn message_needs_a_channel() {
    let server = server(&[3]);
    let (answer, deliveries) = server.create_message(message(9));
    assert!(answer.is_none());
    assert!(deliveries.is_empty());
}

#[test]
fn session_zero_hears_no_broadcast() {
    let mut server = server(&[0, 3]);
    assert_eq!(hearers(&server.create_message(message(1)).1), vec![3]);
    assert_eq!(hearers(&server.create_channel(asked(6, "news")).1), vec![3]);
}

#[test]
fn only_connected_sessions_of_a_channel_hear() {
    let mut server = server(&[3]);
    let (answer, deliveries) = server.join(Join { client_id: 77, channel_id: 1 });
    assert_eq!(answer.unwrap().sessions, HashSet::from([3, 77]));
    assert_eq!(hearers(&deliveries), vec![3]);
    assert_eq!(hearers(&server.create_message(message(1)).1), vec![3]);
    assert_eq!(channels(&server)[0].2, vec![3, 77]);
    assert_eq!(channels(&server)[1].2, vec![3]);
}

#[test]
fn others_hear_that_someone_joined() {
    let mut server = server(&[3, 5]);
    let before = channels(&server);
    let (answer, deliveries) = server.join(Join { client_id: 5, channel_id: 2 });
    assert_eq!(answer.unwrap().name, "random");
    assert_eq!(hearers(&deliveries), vec![3]);
    assert!(matches!(&deliveries[0].event, Event::Custom(text) if text == "Someone connected"));
    assert_eq!(channels(&server), before);
}

#[test]
fn channel_that_is_joined_is_created() {
    let mut server = server(&[3, 5]);
    let (answer, deliveries) = server.join(Join { client_id: 3, channel_id: -9 });
    let channel = answer.unwrap();
    assert_eq!((channel.id, channel.guild_id), (-9, None));
    assert_eq!(channel.name, "-9");
    assert_eq!(channel.sessions, HashSet::from([3, 5]));
    assert_eq!(hearers(&deliveries), vec![5]);
    assert!(matches!(&deliveries[0].event, Event::Custom(text) if text == "Someone connected"));
    assert_eq!(channels(&server)[0], (-9, "-9".to_string(), vec![3, 5]));

    let (answer, _) = server.join(Join { client_id: 0, channel_id: 7 });
    assert_eq!(answer.unwrap().sessions, HashSet::from([0, 3, 5]));
    assert_eq!(channels(&server).len(), 4);
    server.join(Join { client_id: 0, channel_id: 7 });
    assert_eq!(channels(&server).len(), 4);
    assert!(server.create_message(message(7)).0.is_some());
}

#[test]
fn unknown_session_is_not_identified() {
    let server = server(&[3]);
    assert!(server.identify(Identify { id: 4, token: "t".to_string() }).is_none());
}

#[test]
fn session_with_a_good_token_is_ready() {
    let server = server(&[3]);
    let pending = server.identify(Identify { id: 3, token: "t".to_string() }).unwrap();
    assert_eq!((pending.session, pending.token.as_str()), (3, "t"));
    let (delivery, next) = pending.token_checked(Ok::<_, String>(Some(account(7, "ann"))));
    assert_eq!(delivery.to, 3);
    assert!(matches!(&delivery.event, Event::SetToken(token) if token == "t"));
    let ready = next.unwrap().users_fetched(Some(vec![account(8, "bob"), account(7, "ann")]));
    assert_eq!(ready.to, 3);
    match ready.event {
        Event::Ready(ready) => {
            let mut ids: Vec<i64> = ready.channels.iter().map(|c| c.id).collect();
            ids.sort();
            assert_eq!(ids, vec![1, 2]);
            assert_eq!(ready.user, shown(7, "ann"));
            assert_eq!(ready.users, vec![shown(8, "bob"), shown(7, "ann")]);
        }
        other => panic!("{other:?}"),
    }
}

#[test]
fn ready_lists_at_least_the_user_who_connected() {
    let server = server(&[3]);
    let pending = server.identify(Identify { id: 3, token: "t".to_string() }).unwrap();
    let (_, next) = pending.token_checked(Ok::<_, String>(Some(account(7, "ann"))));
    match next.unwrap().users_fetched(None).event {
        Event::Ready(ready) => {
            assert_eq!(ready.user, shown(7, "ann"));
            assert_eq!(ready.users, vec![shown(7, "ann")]);
        }
        other => panic!("{other:?}"),
    }
}

#[test]
fn session_with_a_bad_token_hears_so() {
    let server = server(&[3]);
    for check in [Ok(None), Err("down")] {
        let pending = server.identify(Identify { id: 3, token: "t".to_string() }).unwrap();
        let (delivery, next) = pending.token_checked(check);
        assert_eq!(delivery.to, 3);
        assert!(matches!(delivery.event, Event::BadToken));
        assert!(next.is_none());
    }
}

#[test]
fn channels_and_visitors_through_a_day() {
    let mut server = server(&[3, 5]);
    server.create_channel(asked(6, "news"));
    server.join(Join { client_id: 3, channel_id: 6 });
    assert_eq!(server.visitor_count(), 2);
    server.connect_as(9);
    assert_eq!(server.visitor_count(), 3);
    server.disconnect(Disconnect { id: 3 });
    server.disconnect(Disconnect { id: 5 });
    assert_eq!(server.visitor_count(), 1);
    let ids: Vec<i64> = channels(&server).into_iter().map(|c| c.0).collect();
    assert_eq!(ids, vec![1, 2, 6]);
    assert_eq!(hearers(&server.create_message(message(6)).1), vec![9]);
}

#[test]
fn taken_ids_are_stepped_past() {
    let mut server = server(&[5, 6, usize::MAX]);
    assert!(!server.is_full());
    assert_eq!(server.connect_drawn(9).0, 9);
    let (id, greeting) = server.connect_drawn(5);
    assert_eq!((id, greeting.to), (7, 7));
    assert!(matches!(greeting.event, Event::Hello));
    assert_eq!(server.connect_drawn(usize::MAX).0, 1);
    assert_eq!(server.connect_drawn(usize::MAX).0, 2);
    assert_eq!(server.visitor_count(), 7);
    assert_eq!(channels(&server)[0].2, vec![1, 2, 5, 6, 7, 9, usize::MAX]);
}

#[test]
fn zero_is_no_session() {
    let mut server = server(&[3]);
    assert_eq!(server.connect_drawn(0).0, 1);
    assert_eq!(server.connect_drawn(0).0, 2);
    let (_, deliveries) = server.join(Join { client_id: 0, channel_id: 1 });
    assert_eq!(hearers(&deliveries), vec![1, 2, 3]);
    assert_eq!(hearers(&server.create_message(message(1)).1), vec![1, 2, 3]);
    assert_eq!(hearers(&server.create_channel(asked(6, "news")).1), vec![1, 2, 3]);
}
