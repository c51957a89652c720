//! What holds of the server whatever it is asked.
use crate::models;
use crate::text::{
    decimal, is_digit, lemma_decimal, lemma_decimal_injective, lemma_same_up_to_a_mark,
};
use crate::ws::events::EventView;
use crate::ws::server::{
    broadcast_channels, hearers, is_next_free, left_notice, lists_channels, loaded_channels, public_user, ready_users,
    reaches, stepped, Broadcast, Channel, ChannelView, Delivery, ServerView, User, JOIN_NOTICE,
};
use vstd::prelude::*;

verus! {

/// A server that loads its channels before anyone connects has everyone in
/// every channel, and each channel under its own id.
pub proof fn law_everyone_everywhere_at_start(
    server: ServerView,
    stored: Seq<models::ChannelView>,
)
    requires
        server.sessions == Set::<usize>::empty(),
    ensures
        (ServerView { channels: loaded_channels(stored), ..server }).everyone_everywhere(),
        (ServerView { channels: loaded_channels(stored), ..server }).keyed_by_id(),
    decreases stored.len(),
{
    if stored.len() > 0 {
        law_everyone_everywhere_at_start(server, stored.drop_last());
    }
}

/// Whatever connects, disconnects, is created or is joined, every connected
/// session stays in every channel.
pub proof fn law_everyone_stays_everywhere(
    server: ServerView,
    id: usize,
    channel: ChannelView,
    channel_id: i64,
)
    requires
        server.everyone_everywhere(),
    ensures
        server.connected(id).everyone_everywhere(),
        server.disconnected(id).everyone_everywhere(),
        server.channel_created(channel).everyone_everywhere(),
        server.joined(id, channel_id).everyone_everywhere(),
{
    let opened = server.channel_created(channel);
    assert forall|k: i64| #[trigger]
        opened.channels.contains_key(k) implies opened.sessions.subset_of(
        opened.channels[k].sessions,
    ) by {
        assert(server.channels.contains_key(k) || k == channel.id);
    }
    let joined = server.joined(id, channel_id);
    assert forall|k: i64| #[trigger]
        joined.channels.contains_key(k) implies joined.sessions.subset_of(
        joined.channels[k].sessions,
    ) by {
        assert(server.channels.contains_key(k) || k == channel_id);
    }
    let connected = server.connected(id);
    assert forall|k: i64| #[trigger]
        connected.channels.contains_key(k) implies connected.sessions.subset_of(
        connected.channels[k].sessions,
    ) by {
        assert(server.channels.contains_key(k));
    }
    let disconnected = server.disconnected(id);
    assert forall|k: i64| #[trigger]
        disconnected.channels.contains_key(k) implies disconnected.sessions.subset_of(
        disconnected.channels[k].sessions,
    ) by {
        assert(server.channels.contains_key(k));
    }
}

/// While everyone is in every channel, what is sent to a channel is heard by
/// every connected session except the one that is skipped.
pub proof fn law_a_channel_is_heard_by_all(server: ServerView, channel: i64, skip_id: usize)
    requires
        server.everyone_everywhere(),
        server.channels.contains_key(channel),
    ensures
        server.audience(channel, skip_id) == server.sessions.remove(skip_id),
{
    assert(server.audience(channel, skip_id) =~= server.sessions.remove(skip_id));
}

/// Whatever connects under an id of its own, disconnects, is created or is
/// joined, 0 stays the id of no session.
pub proof fn law_zero_stays_no_session(
    server: ServerView,
    new: usize,
    id: usize,
    channel: ChannelView,
    channel_id: i64,
)
    requires
        server.zero_is_no_session(),
        new != 0,
    ensures
        server.connected(new).zero_is_no_session(),
        server.disconnected(id).zero_is_no_session(),
        server.channel_created(channel).zero_is_no_session(),
        server.joined(id, channel_id).zero_is_no_session(),
{
}

/// What skips 0 skips nobody: everyone hears of a new channel, and every
/// connected session of a channel hears its messages.
pub proof fn law_zero_skips_nobody(server: ServerView, channel: i64)
    requires
        server.zero_is_no_session(),
    ensures
        server.sessions.remove(0) == server.sessions,
        server.channels.contains_key(channel) ==> server.audience(channel, 0)
            == server.channels[channel].sessions.intersect(server.sessions),
{
    assert(server.sessions.remove(0) =~= server.sessions);
    if server.channels.contains_key(channel) {
        assert(server.audience(channel, 0) =~= server.channels[channel].sessions.intersect(
            server.sessions,
        ));
    }
}

/// Only sessions that are connected hear anything, and the one that is skipped
/// does not.
pub proof fn law_only_the_connected_hear(
    server: ServerView,
    channel: i64,
    skip_id: usize,
    id: usize,
)
    requires
        server.audience(channel, skip_id).contains(id),
    ensures
        server.sessions.contains(id),
        server.channels.contains_key(channel),
        server.channels[channel].sessions.contains(id),
        id != skip_id,
{
}

/// A session that disconnects is in no channel any more, and hears nothing.
pub proof fn law_a_disconnected_session_is_gone(
    server: ServerView,
    id: usize,
    channel: i64,
    skip_id: usize,
)
    ensures
        !server.disconnected(id).sessions.contains(id),
        !server.disconnected(id).audience(channel, skip_id).contains(id),
        server.sessions.contains(id) && server.channels.contains_key(channel)
            ==> !server.disconnected(id).channels[channel].sessions.contains(id),
        server.disconnected(id).joined_channels(id) == Set::<i64>::empty(),
{
}

/// Disconnecting undoes connecting, for a session that was not there before.
/// The count of visitors is the one thing that a full counter would lose.
pub proof fn law_disconnect_undoes_connect(server: ServerView, id: usize)
    requires
        !server.sessions.contains(id),
        forall|k: i64| #[trigger]
            server.channels.contains_key(k) ==> !server.channels[k].sessions.contains(id),
        server.visitors < usize::MAX,
    ensures
        server.connected(id).disconnected(id) == server,
{
    let back = server.connected(id).disconnected(id);
    assert(back.sessions =~= server.sessions);
    assert forall|k: i64| #[trigger] server.channels.contains_key(k) implies back.channels[k]
        == server.channels[k] by {
        assert(back.channels[k].sessions =~= server.channels[k].sessions);
    }
    assert(back.channels =~= server.channels);
}

/// A session that is not connected changes nothing when it disconnects.
pub proof fn law_unknown_session_leaves_nothing(server: ServerView, id: usize)
    requires
        !server.sessions.contains(id),
    ensures
        server.disconnected(id) == server,
        server.joined_channels(id) == Set::<i64>::empty(),
{
    assert(server.disconnected(id).sessions =~= server.sessions);
}

/// Connecting and disconnecting leave the set of channels, their names and the
/// other sessions as they were.
pub proof fn law_others_are_not_touched(
    server: ServerView,
    id: usize,
    other: usize,
    channel: i64,
)
    requires
        other != id,
    ensures
        server.connected(id).channels.dom() == server.channels.dom(),
        server.disconnected(id).channels.dom() == server.channels.dom(),
        server.connected(id).sessions.contains(other) == server.sessions.contains(other),
        server.disconnected(id).sessions.contains(other) == server.sessions.contains(other),
        server.channels.contains_key(channel) ==> {
            let was = server.channels[channel];
            let connected = server.connected(id).channels[channel];
            let disconnected = server.disconnected(id).channels[channel];
            &&& connected.name == was.name && disconnected.name == was.name
            &&& connected.sessions.contains(other) == was.sessions.contains(other)
            &&& disconnected.sessions.contains(other) == was.sessions.contains(other)
        },
{
    assert(server.connected(id).channels.dom() =~= server.channels.dom());
    assert(server.disconnected(id).channels.dom() =~= server.channels.dom());
}

/// A channel is created once: the same request again changes nothing.
pub proof fn law_a_channel_is_created_once(
    server: ServerView,
    channel: ChannelView,
    again: ChannelView,
)
    requires
        again.id == channel.id,
    ensures
        server.channel_created(channel).channel_created(again) == server.channel_created(channel),
{
}

/// Joining a channel a second time changes nothing.
pub proof fn law_joining_again_changes_nothing(
    server: ServerView,
    client_id: usize,
    channel_id: i64,
)
    ensures
        server.joined(client_id, channel_id).joined(client_id, channel_id) == server.joined(
            client_id,
            channel_id,
        ),
{
    let once = server.joined(client_id, channel_id);
    let twice = once.joined(client_id, channel_id);
    assert(twice.channels[channel_id].sessions =~= once.channels[channel_id].sessions);
    assert(twice.channels =~= once.channels);
}

/// The ready payload lists the user who connected, where that user is among
/// those fetched, and also where nobody could be fetched.
pub proof fn law_ready_lists_the_user(
    fetched: Option<Seq<models::UserView>>,
    user: models::UserView,
)
    requires
        fetched matches Some(list) ==> list.contains(user),
    ensures
        ready_users(public_user(user), fetched).contains(public_user(user)),
{
    let users = ready_users(public_user(user), fetched);
    match fetched {
        Some(list) => {
            let i = list.index_of(user);
            assert(users[i] == public_user(user));
        },
        None => {
            assert(users[0] == public_user(user));
        },
    }
}

/// A channel that was asked for or joined is there afterwards, and no request
/// takes a channel away.
pub proof fn law_channels_are_never_lost(
    server: ServerView,
    id: usize,
    channel: ChannelView,
    channel_id: i64,
    k: i64,
)
    ensures
        server.channel_created(channel).channels.contains_key(channel.id),
        server.joined(id, channel_id).channels.contains_key(channel_id),
        server.joined(id, channel_id).channels[channel_id].sessions.contains(id),
        server.channels.contains_key(k) ==> {
            &&& server.connected(id).channels.contains_key(k)
            &&& server.disconnected(id).channels.contains_key(k)
            &&& server.channel_created(channel).channels.contains_key(k)
            &&& server.joined(id, channel_id).channels.contains_key(k)
        },
{
}

/// Creating and joining channels connects and disconnects nobody.
pub proof fn law_channels_do_not_move_sessions(
    server: ServerView,
    id: usize,
    channel: ChannelView,
    channel_id: i64,
)
    ensures
        server.channel_created(channel).sessions == server.sessions,
        server.channel_created(channel).visitors == server.visitors,
        server.joined(id, channel_id).sessions == server.sessions,
        server.joined(id, channel_id).visitors == server.visitors,
{
}

/// The number of visitors stays the number of connected sessions, whoever
/// disconnects, as long as the session that connects is new.
pub proof fn law_visitors_are_the_connected(server: ServerView, new: usize, id: usize)
    requires
        server.sessions.finite(),
        server.visitors == server.sessions.len(),
        server.visitors < usize::MAX,
        !server.sessions.contains(new),
    ensures
        server.connected(new).visitors == server.connected(new).sessions.len(),
        server.disconnected(id).visitors == server.disconnected(id).sessions.len(),
{
    if !server.sessions.contains(id) {
        assert(server.sessions.remove(id) =~= server.sessions);
    }
}

/// Whoever connects is connected and in every channel, and counts as one more
/// visitor. Everyone else is connected, and in a channel, if and only if that
/// was so before, and the channels keep ids, guilds and names.
pub proof fn law_who_connects_is_everywhere(
    server: ServerView,
    id: usize,
    other: usize,
    channel: i64,
)
    ensures
        server.connected(id).sessions.contains(other) <==> server.sessions.contains(other) || other
            == id,
        server.connected(id).channels.contains_key(channel) <==> server.channels.contains_key(
            channel,
        ),
        server.channels.contains_key(channel) ==> {
            let was = server.channels[channel];
            let now = server.connected(id).channels[channel];
            &&& now.id == was.id && now.guild_id == was.guild_id && now.name == was.name
            &&& now.sessions.contains(other) <==> was.sessions.contains(other) || other == id
        },
        server.visitors < usize::MAX ==> server.connected(id).visitors == server.visitors + 1,
        server.visitors == usize::MAX ==> server.connected(id).visitors == 0,
{
}

/// Whoever was connected and disconnects is neither connected nor in a channel,
/// and counts as one visitor less. Everyone else is connected, and in a channel,
/// if and only if that was so before, and the channels keep ids, guilds and
/// names.
pub proof fn law_who_disconnects_is_nowhere(
    server: ServerView,
    id: usize,
    other: usize,
    channel: i64,
)
    requires
        server.sessions.contains(id),
    ensures
        server.disconnected(id).sessions.contains(other) <==> server.sessions.contains(other)
            && other != id,
        server.disconnected(id).channels.contains_key(channel) <==> server.channels.contains_key(
            channel,
        ),
        server.channels.contains_key(channel) ==> {
            let was = server.channels[channel];
            let now = server.disconnected(id).channels[channel];
            &&& now.id == was.id && now.guild_id == was.guild_id && now.name == was.name
            &&& now.sessions.contains(other) <==> was.sessions.contains(other) && other != id
        },
        server.visitors > 0 ==> server.disconnected(id).visitors == server.visitors - 1,
        server.visitors == 0 ==> server.disconnected(id).visitors == 0,
{
}

/// Where a connected session disconnects, the channels that hear of it are those
/// that it was in, and no others; for one that is not connected there are none.
pub proof fn law_channels_hear_who_left(server: ServerView, id: usize, channel: i64)
    ensures
        server.joined_channels(id).contains(channel) <==> server.sessions.contains(id)
            && server.channels.contains_key(channel) && server.channels[channel].sessions.contains(
            id,
        ),
{
}

/// While everyone is in every channel, every channel hears that a connected
/// session left, and every other connected session is told so there.
pub proof fn law_everyone_hears_who_left(
    server: ServerView,
    id: usize,
    channel: i64,
    other: usize,
)
    requires
        server.everyone_everywhere(),
        server.zero_is_no_session(),
        server.sessions.contains(id),
        server.channels.contains_key(channel),
        server.sessions.contains(other),
        other != id,
    ensures
        server.joined_channels(id).contains(channel),
        server.disconnected(id).audience(channel, 0).contains(other),
        !server.disconnected(id).audience(channel, 0).contains(id),
{
}

/// A session hears what is sent to a channel if and only if the channel exists,
/// it is in the channel, it is connected, and it is not the one to skip.
pub proof fn law_who_hears_a_channel(server: ServerView, channel: i64, skip_id: usize, id: usize)
    ensures
        server.audience(channel, skip_id).contains(id) <==> {
            &&& server.channels.contains_key(channel)
            &&& server.channels[channel].sessions.contains(id)
            &&& server.sessions.contains(id)
            &&& id != skip_id
        },
{
}

/// A channel that is asked for under a free id is there afterwards, with the
/// guild and name that were asked for and exactly the connected sessions in it.
/// Under an id that is taken nothing changes, and no other channel ever does.
pub proof fn law_creating_a_channel(
    server: ServerView,
    channel: ChannelView,
    other: i64,
    id: usize,
)
    ensures
        server.channels.contains_key(channel.id) ==> server.channel_created(channel) == server,
        !server.channels.contains_key(channel.id) ==> {
            let new = server.channel_created(channel).channels[channel.id];
            &&& server.channel_created(channel).channels.contains_key(channel.id)
            &&& new.id == channel.id && new.guild_id == channel.guild_id && new.name == channel.name
            &&& new.sessions.contains(id) <==> server.sessions.contains(id)
            &&& server.opened(channel) == new
        },
        other != channel.id ==> {
            &&& server.channel_created(channel).channels.contains_key(other)
                <==> server.channels.contains_key(other)
            &&& server.channels.contains_key(other) ==> server.channel_created(
                channel,
            ).channels[other] == server.channels[other]
        },
        server.channel_created(channel).sessions == server.sessions,
        server.channel_created(channel).visitors == server.visitors,
{
}

/// Joining a channel that exists keeps its id, guild and name, whoever joins,
/// and adds the client to its sessions. A channel that does not exist is created
/// under the id, with the id as its name, in no guild, and with the connected
/// sessions and the client in it. No other channel changes.
pub proof fn law_joining_a_channel(
    server: ServerView,
    client_id: usize,
    channel_id: i64,
    other: i64,
    id: usize,
)
    ensures
        server.joined(client_id, channel_id).channels.contains_key(channel_id),
        server.channels.contains_key(channel_id) ==> {
            let was = server.channels[channel_id];
            let now = server.joined(client_id, channel_id).channels[channel_id];
            &&& now.id == was.id && now.guild_id == was.guild_id && now.name == was.name
            &&& now.sessions.contains(id) <==> was.sessions.contains(id) || id == client_id
        },
        !server.channels.contains_key(channel_id) ==> {
            let now = server.joined(client_id, channel_id).channels[channel_id];
            &&& now.id == channel_id && now.guild_id is None && now.name == decimal(
                channel_id as int,
            )
            &&& now.sessions.contains(id) <==> server.sessions.contains(id) || id == client_id
        },
        other != channel_id ==> {
            &&& server.joined(client_id, channel_id).channels.contains_key(other)
                <==> server.channels.contains_key(other)
            &&& server.channels.contains_key(other) ==> server.joined(
                client_id,
                channel_id,
            ).channels[other] == server.channels[other]
        },
        server.joined(client_id, channel_id).sessions == server.sessions,
        server.joined(client_id, channel_id).visitors == server.visitors,
{
}

/// Who joins a channel in turn does not matter: two clients that join are both
/// in it, whoever comes first.
pub proof fn law_joining_in_any_order(
    server: ServerView,
    a: usize,
    b: usize,
    channel_id: i64,
)
    requires
        server.channels.contains_key(channel_id),
    ensures
        server.joined(a, channel_id).joined(b, channel_id) == server.joined(b, channel_id).joined(
            a,
            channel_id,
        ),
{
    let left = server.joined(a, channel_id).joined(b, channel_id);
    let right = server.joined(b, channel_id).joined(a, channel_id);
    assert(left.channels[channel_id].sessions =~= right.channels[channel_id].sessions);
    assert(left.channels =~= right.channels);
}

/// Every session that is meant to hear an event has one delivery of it, nobody
/// else has any, and no other event is delivered.
pub proof fn law_deliveries_reach_whom_they_should(
    deliveries: Seq<Delivery>,
    to: Set<usize>,
    event: EventView,
    id: usize,
    i: int,
    j: int,
)
    requires
        reaches(deliveries, to, event),
    ensures
        to.contains(id) <==> exists|k: int|
            0 <= k < deliveries.len() && (#[trigger] deliveries[k]).to == id,
        0 <= i < deliveries.len() ==> deliveries[i].event@ == event && to.contains(
            deliveries[i].to,
        ),
        0 <= i < j < deliveries.len() ==> deliveries[i].to != deliveries[j].to,
{
    let heard = hearers(deliveries);
    assert(to.contains(id) <==> heard.contains(id));
    if heard.contains(id) {
        let k = heard.index_of(id);
        assert(deliveries[k].to == id);
    }
    if exists|k: int| 0 <= k < deliveries.len() && (#[trigger] deliveries[k]).to == id {
        let k = choose|k: int| 0 <= k < deliveries.len() && (#[trigger] deliveries[k]).to == id;
        assert(heard[k] == id);
    }
    if 0 <= i < deliveries.len() {
        assert(heard[i] == deliveries[i].to);
        assert(heard.contains(heard[i]));
        assert(heard.to_set().contains(heard[i]));
    }
    if 0 <= i < j < deliveries.len() {
        assert(heard[i] != heard[j]);
    }
}

/// A list of the channels holds each channel that exists once, as it is, and
/// nothing else.
pub proof fn law_listed_channels(
    list: Seq<ChannelView>,
    table: Map<i64, ChannelView>,
    channel: i64,
    i: int,
    j: int,
)
    requires
        lists_channels(list, table),
    ensures
        table.contains_key(channel) <==> exists|k: int|
            0 <= k < list.len() && (#[trigger] list[k]).id == channel,
        0 <= i < list.len() ==> table.contains_key(list[i].id) && list[i] == table[list[i].id],
        0 <= i < j < list.len() ==> list[i].id != list[j].id,
        list.len() == table.len(),
{
    let ids = Seq::new(list.len(), |k: int| list[k].id);
    assert(table.dom().contains(channel) <==> ids.contains(channel)) by {
        assert(ids.to_set().contains(channel) <==> ids.contains(channel));
    }
    if ids.contains(channel) {
        let k = ids.index_of(channel);
        assert(list[k].id == channel);
    }
    if exists|k: int| 0 <= k < list.len() && (#[trigger] list[k]).id == channel {
        let k = choose|k: int| 0 <= k < list.len() && (#[trigger] list[k]).id == channel;
        assert(ids[k] == channel);
    }
    if 0 <= i < j < list.len() {
        assert(ids[i] != ids[j]);
    }
    ids.unique_seq_to_set();
}

/// The server starts with the channels that were stored and no others, each
/// under its own id and name, in no guild and with nobody in it. Of two with one
/// id it is the later.
pub proof fn law_stored_channels_are_loaded(stored: Seq<models::ChannelView>, i: int, id: i64)
    ensures
        loaded_channels(stored).contains_key(id) <==> exists|k: int|
            0 <= k < stored.len() && (#[trigger] stored[k]).id == id,
        0 <= i < stored.len() && stored[i].id == id && (forall|k: int|
            i < k < stored.len() ==> (#[trigger] stored[k]).id != id) ==> {
            let loaded = loaded_channels(stored)[id];
            &&& loaded.id == id
            &&& loaded.name == stored[i].name
            &&& loaded.guild_id is None
            &&& loaded.sessions == Set::<usize>::empty()
        },
    decreases stored.len(),
{
    if stored.len() > 0 {
        let rest = stored.drop_last();
        law_stored_channels_are_loaded(rest, i, id);
        if exists|k: int| 0 <= k < stored.len() && (#[trigger] stored[k]).id == id {
            let k = choose|k: int| 0 <= k < stored.len() && (#[trigger] stored[k]).id == id;
            if k < rest.len() {
                assert(rest[k].id == id);
            }
        }
        if loaded_channels(rest).contains_key(id) {
            let k = choose|k: int| 0 <= k < rest.len() && (#[trigger] rest[k]).id == id;
            assert(stored[k].id == id);
        }
        assert(stored[stored.len() - 1] == stored.last());
        if 0 <= i < rest.len() && stored[i].id == id && (forall|k: int|
            i < k < stored.len() ==> (#[trigger] stored[k]).id != id) {
            assert(stored[stored.len() - 1].id != id);
            assert forall|k: int| i < k < rest.len() implies (#[trigger] rest[k]).id != id by {
                assert(stored[k].id != id);
            }
        }
    }
}

/// The notice that a session left is its id and the word, and tells every
/// session from every other.
pub proof fn law_notices_name_who_left(id: usize, other: usize)
    ensures
        left_notice(id) == decimal(id as int) + " left"@,
        left_notice(id) == left_notice(other) ==> id == other,
{
    reveal_strlit(" left");
    if left_notice(id) == left_notice(other) {
        let a = decimal(id as int);
        let b = decimal(other as int);
        let word = seq!['l', 'e', 'f', 't'];
        lemma_decimal(id as int);
        lemma_decimal(other as int);
        assert forall|i: int| 0 <= i < a.len() implies a[i] != ' ' by {
            assert(is_digit(a[i]) || a[i] == '-');
        }
        assert forall|i: int| 0 <= i < b.len() implies b[i] != ' ' by {
            assert(is_digit(b[i]) || b[i] == '-');
        }
        assert(" left"@ =~= seq![' '] + word);
        assert(left_notice(id) =~= a + seq![' '] + word);
        assert(left_notice(other) =~= b + seq![' '] + word);
        lemma_same_up_to_a_mark(a, b, ' ', word, word);
        lemma_decimal_injective(id as int, other as int);
    }
}

/// What others see of an account is its id, username, avatar and when it was
/// created. Accounts that differ in email, password and token only look alike.
pub proof fn law_what_others_see(user: models::UserView, other: models::UserView)
    ensures
        public_user(user).id == user.id,
        public_user(user).username == user.username,
        public_user(user).joined == user.created_at,
        public_user(user).avatar == user.avatar,
        public_user(user) == public_user(other) <==> {
            &&& user.id == other.id
            &&& user.username == other.username
            &&& user.created_at == other.created_at
            &&& user.avatar == other.avatar
        },
{
}

/// The ready payload lists every user that was fetched, in that order, as others
/// see them, and nobody else.
pub proof fn law_ready_lists_everyone(
    fetched: Seq<models::UserView>,
    user: models::UserView,
    i: int,
)
    ensures
        ready_users(public_user(user), Some(fetched)).len() == fetched.len(),
        0 <= i < fetched.len() ==> {
            let shown = ready_users(public_user(user), Some(fetched))[i];
            &&& shown.id == fetched[i].id
            &&& shown.username == fetched[i].username
            &&& shown.joined == fetched[i].created_at
            &&& shown.avatar == fetched[i].avatar
        },
        ready_users(public_user(user), None) == seq![public_user(user)],
{
}

/// The id that a new session is given is not 0 and no other session has it. It
/// is the one that was drawn, where that can be had; else every id between the
/// two is taken, so that there is only one such id.
pub proof fn law_the_next_free_id(
    sessions: Set<usize>,
    drawn: usize,
    id: usize,
    other: usize,
)
    requires
        is_next_free(sessions, drawn, id),
    ensures
        id != 0,
        !sessions.contains(id),
        drawn != 0 && !sessions.contains(drawn) ==> id == drawn,
        drawn <= other < id ==> other == 0 || sessions.contains(other),
        id < drawn && (other >= drawn || other < id) ==> other == 0 || sessions.contains(other),
        is_next_free(sessions, drawn, other) ==> other == id,
{
    let taken = sessions.insert(0);
    let steps = choose|steps: int|
        0 <= steps <= usize::MAX && id == #[trigger] stepped(drawn, steps) && !taken.contains(id)
            && forall|k: int| 0 <= k < steps ==> taken.contains(#[trigger] stepped(drawn, k));
    if drawn != 0 && !sessions.contains(drawn) {
        assert(stepped(drawn, 0) == drawn);
    }
    let way = if other >= drawn {
        other - drawn
    } else {
        usize::MAX - drawn + 1 + other
    };
    assert(stepped(drawn, way) == other);
    if is_next_free(sessions, drawn, other) {
        let more = choose|more: int|
            0 <= more <= usize::MAX && other == #[trigger] stepped(drawn, more) && !taken.contains(
                other,
            ) && forall|k: int| 0 <= k < more ==> taken.contains(#[trigger] stepped(drawn, k));
        if steps < more {
            assert(taken.contains(stepped(drawn, steps)));
        }
        if more < steps {
            assert(taken.contains(stepped(drawn, more)));
        }
    }
}

/// The view of a channel and of a user has what they have.
pub proof fn law_views_of_channels_and_users(channel: Channel, user: User)
    ensures
        channel@.id == channel.id,
        channel@.guild_id == channel.guild_id,
        channel@.name == channel.name@,
        channel@.sessions == channel.sessions@,
        user@.id == user.id,
        user@.username == user.username@,
        user@.joined == user.joined,
        user.avatar is None <==> user@.avatar is None,
        user.avatar is Some ==> user@.avatar == Some(user.avatar->0@),
{
}

/// Broadcasts go to the channels that they name, in order, and who joins is not
/// named in what a channel hears of it.
pub proof fn law_broadcasts_name_their_channels(list: Seq<Broadcast>, i: int)
    ensures
        broadcast_channels(list).len() == list.len(),
        0 <= i < list.len() ==> broadcast_channels(list)[i] == list[i].channel,
        JOIN_NOTICE@ == "Someone connected"@,
{
}

} // verus!
