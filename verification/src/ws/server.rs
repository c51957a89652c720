//! The chat server.
use crate::lists::{lemma_push_contains, lemma_views_all, lemma_views_next, optional_views, views};
use crate::models;
use crate::models::{
    copy_attachments, copy_optional_ids, optional_ids, AttachmentView, MessageView,
};
use crate::text::{copy_optional, decimal, joined, optional, signed_text, unsigned_text};
use crate::ws::events;
use crate::ws::events::{ChannelCreate, Event, EventView, MessageCreate, MessageCreateView, Ready};
use std::collections::{HashMap, HashSet};
use vstd::prelude::*;

verus! {

broadcast use vstd::std_specs::hash::group_hash_axioms;

/// New chat session is created
#[derive(Debug)]
pub struct Connect;

/// Session is disconnected
#[derive(Debug)]
pub struct Disconnect {
    pub id: usize,
}

/// Payload sent from client to identify itself.
#[derive(Debug)]
pub struct Identify {
    pub id: usize,
    pub token: String,
}

/// Create new channel
#[derive(Debug)]
pub struct Channel {
    /// Channel ID
    pub id: i64,
    /// Guild ID
    pub guild_id: Option<i64>,
    /// Channel name
    pub name: String,
    /// IDs of sessions in the channel
    pub sessions: HashSet<usize>,
}

pub struct ChannelView {
    pub id: i64,
    pub guild_id: Option<i64>,
    pub name: Seq<char>,
    pub sessions: Set<usize>,
}

impl View for Channel {
    type V = ChannelView;

    open spec fn view(&self) -> ChannelView {
        ChannelView {
            id: self.id,
            guild_id: self.guild_id,
            name: self.name@,
            sessions: self.sessions@,
        }
    }
}

impl Clone for Channel {
    fn clone(&self) -> (res: Self)
        ensures
            res@ == self@,
    {
        Channel {
            id: self.id,
            guild_id: self.guild_id,
            name: self.name.clone(),
            sessions: copy_set(&self.sessions),
        }
    }
}

/// A stored channel as the server starts with it: nobody is in it.
pub open spec fn loaded_channel(channel: models::ChannelView) -> ChannelView {
    ChannelView {
        id: channel.id,
        guild_id: None,
        name: channel.name,
        sessions: Set::empty(),
    }
}

impl From<models::Channel> for Channel {
    fn from(channel: models::Channel) -> (res: Self)
        ensures
            res@ == loaded_channel(channel@),
    {
        Self {
            id: channel.id,
            guild_id: None,
            name: channel.name,
            sessions: HashSet::new(),
        }
    }
}

impl vstd::std_specs::convert::FromSpecImpl<models::Channel> for Channel {
    open spec fn obeys_from_spec() -> bool {
        false
    }

    open spec fn from_spec(channel: models::Channel) -> Channel {
        choose|res: Channel| res@ == loaded_channel(channel@)
    }
}

/// The members of a set, each once, in some order.
fn members(set: &HashSet<usize>) -> (res: Vec<usize>)
    ensures
        res@.no_duplicates(),
        res@.to_set() == set@,
{
    let mut res: Vec<usize> = Vec::new();
    for id in it: set.iter()
        invariant
            res@ == it.seq().take(it.index() as int).unref(),
    {
        res.push(*id);
        assert(it.seq().take(it.index() + 1).unref() =~= it.seq().take(
            it.index() as int,
        ).unref().push(*id));
    }
    assert(res@ =~= vstd::std_specs::iter::IteratorSpec::remaining(
        &vstd::std_specs::hash::spec_hash_keys_iter(set),
    ).unref());
    res
}

/// A copy of a set.
fn copy_set(set: &HashSet<usize>) -> (res: HashSet<usize>)
    ensures
        res@ == set@,
{
    let list = members(set);
    let mut res: HashSet<usize> = HashSet::new();
    for i in 0..list.len()
        invariant
            forall|id: usize| #[trigger] res@.contains(id) <==> list@.take(i as int).contains(id),
    {
        res.insert(list[i]);
        proof {
            assert(list@.take(i + 1) =~= list@.take(i as int).push(list@[i as int]));
            lemma_push_contains(list@.take(i as int), list@[i as int]);
        }
    }
    assert(list@.take(list.len() as int) =~= list@);
    assert(res@ =~= list@.to_set());
    res
}

/// A copy of a list of channels.
pub fn copy_channels(list: &Vec<Channel>) -> (res: Vec<Channel>)
    ensures
        views(res@) == views(list@),
{
    let mut res: Vec<Channel> = Vec::new();
    for i in 0..list.len()
        invariant
            res@.len() == i,
            forall|j: int| 0 <= j < i ==> (#[trigger] res@[j])@ == list@[j]@,
    {
        res.push(list[i].clone());
    }
    assert(views(res@) =~= views(list@));
    res
}

/// A copy of a list of users.
pub fn copy_users(list: &Vec<User>) -> (res: Vec<User>)
    ensures
        res@ == list@,
{
    let mut res: Vec<User> = Vec::new();
    for i in 0..list.len()
        invariant
            res@ == list@.take(i as int),
    {
        res.push(list[i].clone());
        assert(list@.take(i + 1) =~= list@.take(i as int).push(list@[i as int]));
    }
    assert(list@.take(list.len() as int) =~= list@);
    res
}

/// Create new Guild
#[derive(Debug)]
pub struct Guild {
    /// ID of the guild
    pub id: i64,
    /// Guild name
    pub name: String,
}

impl Clone for Guild {
    fn clone(&self) -> (res: Self)
        ensures
            res == *self,
    {
        Guild { id: self.id, name: self.name.clone() }
    }
}

/// A user as other users see it.
#[derive(Debug, PartialEq, Eq)]
pub struct User {
    pub id: i64,
    pub username: String,
    pub joined: usize,
    /// Avatar URL
    pub avatar: Option<String>,
}

pub struct UserView {
    pub id: i64,
    pub username: Seq<char>,
    pub joined: usize,
    pub avatar: Option<Seq<char>>,
}

impl View for User {
    type V = UserView;

    open spec fn view(&self) -> UserView {
        UserView {
            id: self.id,
            username: self.username@,
            joined: self.joined,
            avatar: optional(self.avatar),
        }
    }
}

impl Clone for User {
    fn clone(&self) -> (res: Self)
        ensures
            res == *self,
    {
        User {
            id: self.id,
            username: self.username.clone(),
            joined: self.joined,
            avatar: copy_optional(&self.avatar),
        }
    }
}

/// The user whose fields are all zero, empty or absent.
pub open spec fn default_user() -> UserView {
    UserView { id: 0, username: Seq::empty(), joined: 0, avatar: None }
}

impl Default for User {
    fn default() -> (res: Self)
        ensures
            res@ == default_user(),
    {
        User { id: 0, username: String::new(), joined: 0, avatar: None }
    }
}

/// What of an account is shown to others: neither email, password nor token.
pub open spec fn public_user(user: models::UserView) -> UserView {
    UserView {
        id: user.id,
        username: user.username,
        joined: user.created_at,
        avatar: user.avatar,
    }
}

impl From<models::User> for User {
    fn from(user: models::User) -> (res: Self) {
        Self {
            id: user.id,
            username: user.username,
            joined: user.created_at,
            avatar: user.avatar,
        }
    }
}

impl vstd::std_specs::convert::FromSpecImpl<models::User> for User {
    open spec fn obeys_from_spec() -> bool {
        true
    }

    open spec fn from_spec(user: models::User) -> User {
        User {
            id: user.id,
            username: user.username,
            joined: user.created_at,
            avatar: user.avatar,
        }
    }
}

/// Create new message
#[derive(Debug)]
pub struct CreateMessage {
    /// Message ID
    pub id: i64,
    /// Channel ID
    pub channel_id: i64,
    /// Message content
    pub content: String,
    /// User who sent the message
    pub author: User,
    /// Message creation time
    pub created_at: usize,
    /// Attachments' IDs (previously uploaded from the API)
    pub attachments: Option<Vec<i64>>,
    /// The attachments that the ids stand for
    pub attachments_raw: Option<Vec<models::Attachment>>,
}

pub struct CreateMessageView {
    pub id: i64,
    pub channel_id: i64,
    pub content: Seq<char>,
    pub author: UserView,
    pub created_at: usize,
    pub attachments: Option<Seq<i64>>,
    pub attachments_raw: Option<Seq<AttachmentView>>,
}

impl View for CreateMessage {
    type V = CreateMessageView;

    open spec fn view(&self) -> CreateMessageView {
        CreateMessageView {
            id: self.id,
            channel_id: self.channel_id,
            content: self.content@,
            author: self.author@,
            created_at: self.created_at,
            attachments: optional_ids(self.attachments),
            attachments_raw: optional_views(self.attachments_raw),
        }
    }
}

impl CreateMessageView {
    /// The message as it is stored.
    pub open spec fn stored(self) -> MessageView {
        MessageView {
            id: self.id,
            channel_id: self.channel_id,
            author_id: self.author.id,
            content: self.content,
            created_at: self.created_at,
            attachments: self.attachments,
        }
    }

    /// The message as it is sent to the sessions of its channel.
    pub open spec fn announced(self) -> MessageCreateView {
        MessageCreateView {
            id: self.id,
            content: self.content,
            channel_id: self.channel_id,
            author: self.author,
            created_at: self.created_at,
            attachments: self.attachments_raw,
        }
    }
}

impl Clone for CreateMessage {
    fn clone(&self) -> (res: Self)
        ensures
            res@ == self@,
    {
        CreateMessage {
            id: self.id,
            channel_id: self.channel_id,
            content: self.content.clone(),
            author: self.author.clone(),
            created_at: self.created_at,
            attachments: copy_optional_ids(&self.attachments),
            attachments_raw: match &self.attachments_raw {
                Some(list) => Some(copy_attachments(list)),
                None => None,
            },
        }
    }
}

/// List of available channels
#[derive(Debug)]
pub struct ListChannels;

/// Join channel, if channel does not exists create new one.
#[derive(Debug)]
pub struct Join {
    /// Client ID
    pub client_id: usize,
    /// Channel ID
    pub channel_id: i64,
}

/// An event for one session.
#[derive(Debug)]
pub struct Delivery {
    /// The session that hears the event
    pub to: usize,
    pub event: Event,
}

/// The events that go to the sessions of one channel.
#[derive(Debug)]
pub struct Broadcast {
    pub channel: i64,
    pub deliveries: Vec<Delivery>,
}

/// The sessions that hear something, in order.
pub open spec fn hearers(deliveries: Seq<Delivery>) -> Seq<usize> {
    Seq::new(deliveries.len(), |i: int| deliveries[i].to)
}

/// Whether the deliveries bring `event` to every session of `to` once, and to
/// nobody else. The order is not fixed.
pub open spec fn reaches(deliveries: Seq<Delivery>, to: Set<usize>, event: EventView) -> bool {
    &&& hearers(deliveries).no_duplicates()
    &&& hearers(deliveries).to_set() == to
    &&& forall|i: int|
        0 <= i < deliveries.len() ==> (#[trigger] deliveries[i]).event@ == event
}

/// What the server keeps.
pub struct ServerView {
    /// The sessions that are connected
    pub sessions: Set<usize>,
    /// The channels by id
    pub channels: Map<i64, ChannelView>,
    /// The number of visitors that is shown
    pub visitors: usize,
}

/// A channel that `id` is in.
pub open spec fn with_session(channel: ChannelView, id: usize) -> ChannelView {
    ChannelView { sessions: channel.sessions.insert(id), ..channel }
}

/// A channel that `id` is not in.
pub open spec fn without_session(channel: ChannelView, id: usize) -> ChannelView {
    ChannelView { sessions: channel.sessions.remove(id), ..channel }
}

impl ServerView {
    /// The sessions that hear what is sent to a channel: those in it that are
    /// connected, except `skip_id`.
    pub open spec fn audience(self, channel: i64, skip_id: usize) -> Set<usize> {
        if self.channels.contains_key(channel) {
            self.channels[channel].sessions.intersect(self.sessions).remove(skip_id)
        } else {
            Set::empty()
        }
    }

    /// The server after session `id` connected. It is put into every channel.
    pub open spec fn connected(self, id: usize) -> ServerView {
        ServerView {
            sessions: self.sessions.insert(id),
            channels: self.channels.map_values(|c: ChannelView| with_session(c, id)),
            visitors: if self.visitors == usize::MAX {
                0
            } else {
                (self.visitors + 1) as usize
            },
        }
    }

    /// The server after session `id` disconnected. A session that was
    /// connected is taken out of every channel; any other changes nothing.
    pub open spec fn disconnected(self, id: usize) -> ServerView {
        ServerView {
            sessions: self.sessions.remove(id),
            channels: if self.sessions.contains(id) {
                self.channels.map_values(|c: ChannelView| without_session(c, id))
            } else {
                self.channels
            },
            visitors: if self.sessions.contains(id) && self.visitors > 0 {
                (self.visitors - 1) as usize
            } else {
                self.visitors
            },
        }
    }

    /// The channels that session `id` is in, where it is connected.
    pub open spec fn joined_channels(self, id: usize) -> Set<i64> {
        if self.sessions.contains(id) {
            self.channels.dom().filter(|k: i64| self.channels[k].sessions.contains(id))
        } else {
            Set::empty()
        }
    }

    /// The channel that is created where `channel` is asked for: every
    /// session is in it.
    pub open spec fn opened(self, channel: ChannelView) -> ChannelView {
        ChannelView { sessions: self.sessions, ..channel }
    }

    /// The server after `channel` was asked for. A channel whose id is taken
    /// changes nothing.
    pub open spec fn channel_created(self, channel: ChannelView) -> ServerView {
        if self.channels.contains_key(channel.id) {
            self
        } else {
            ServerView {
                channels: self.channels.insert(channel.id, self.opened(channel)),
                ..self
            }
        }
    }

    /// The channel that is created where one is joined that does not exist:
    /// every session is in it, and its name is its id in decimal notation.
    pub open spec fn founded(self, channel_id: i64) -> ChannelView {
        ChannelView {
            id: channel_id,
            guild_id: None,
            name: decimal(channel_id as int),
            sessions: self.sessions,
        }
    }

    /// The server after `client_id` joined a channel. A channel that does not
    /// exist is created.
    pub open spec fn joined(self, client_id: usize, channel_id: i64) -> ServerView {
        let channel = if self.channels.contains_key(channel_id) {
            self.channels[channel_id]
        } else {
            self.founded(channel_id)
        };
        ServerView {
            channels: self.channels.insert(channel_id, with_session(channel, client_id)),
            ..self
        }
    }

    /// Whether every channel is kept under its own id.
    pub open spec fn keyed_by_id(self) -> bool {
        forall|k: i64| #[trigger] self.channels.contains_key(k) ==> self.channels[k].id == k
    }

    /// Whether no session has the id 0. Where 0 is the session to skip, nobody
    /// is skipped.
    pub open spec fn zero_is_no_session(self) -> bool {
        !self.sessions.contains(0)
    }

    /// Whether every connected session is in every channel.
    pub open spec fn everyone_everywhere(self) -> bool {
        forall|k: i64| #[trigger]
            self.channels.contains_key(k) ==> self.sessions.subset_of(self.channels[k].sessions)
    }
}

/// Whether a list holds every channel of a table once. The order is not fixed.
pub open spec fn lists_channels(list: Seq<ChannelView>, table: Map<i64, ChannelView>) -> bool {
    &&& Seq::new(list.len(), |i: int| list[i].id).no_duplicates()
    &&& Seq::new(list.len(), |i: int| list[i].id).to_set() == table.dom()
    &&& forall|i: int|
        0 <= i < list.len() ==> table.contains_key((#[trigger] list[i]).id)
            && table[list[i].id] == list[i]
}

#[verifier::external_type_specification]
#[verifier::external_body]
pub struct ExThreadRng(rand::rngs::ThreadRng);

/// `rand::thread_rng`: the random generator of this thread. Nothing is claimed
/// of it.
#[verifier::external_body]
fn thread_rng() -> rand::rngs::ThreadRng {
    rand::thread_rng()
}

/// `rand::Rng::gen` at `usize`: a random number. It may be any number, also one
/// that was drawn before.
#[verifier::external_body]
fn random_id(rng: &mut rand::rngs::ThreadRng) -> usize {
    rand::Rng::gen::<usize>(rng)
}

/// `ShikiServer` manages chat channels and responsible for coordinating chat session.
pub struct ShikiServer {
    /// The actual connected clients to the gateway.
    sessions: HashSet<usize>,
    /// Chat channels. In this case they're individual channels where messages are propagated to users in the same channel. This could be a channel, guild, etc.
    channels: HashMap<i64, Channel>,
    /// Random generator for making unique IDs.
    rng: rand::rngs::ThreadRng,
    /// Number of connected clients
    visitor_count: usize,
}

/// The views of a table of channels.
spec fn channel_views(table: Map<i64, Channel>) -> Map<i64, ChannelView> {
    table.map_values(|c: Channel| c@)
}

impl View for ShikiServer {
    type V = ServerView;

    closed spec fn view(&self) -> ServerView {
        ServerView {
            sessions: self.sessions@,
            channels: channel_views(self.channels@),
            visitors: self.visitor_count,
        }
    }
}

/// The keys of a table, each once, in some order.
fn keys(table: &HashMap<i64, Channel>) -> (res: Vec<i64>)
    ensures
        res@.no_duplicates(),
        res@.to_set() == table@.dom(),
{
    let mut res: Vec<i64> = Vec::new();
    for id in it: table.keys()
        invariant
            res@ == it.seq().take(it.index() as int).unref(),
    {
        res.push(*id);
        assert(it.seq().take(it.index() + 1).unref() =~= it.seq().take(
            it.index() as int,
        ).unref().push(*id));
    }
    assert(res@ =~= vstd::std_specs::iter::IteratorSpec::remaining(
        &vstd::std_specs::hash::spec_keys_iter(table),
    ).unref());
    res
}

/// `event` for every session of `list` that is not `skip_id` and that
/// `sessions` holds.
fn deliver(
    list: &Vec<usize>,
    sessions: &HashSet<usize>,
    event: &Event,
    skip_id: usize,
) -> (res: Vec<Delivery>)
    requires
        list@.no_duplicates(),
    ensures
        reaches(res@, list@.to_set().intersect(sessions@).remove(skip_id), event@),
{
    let mut res: Vec<Delivery> = Vec::new();
    for i in 0..list.len()
        invariant
            list@.no_duplicates(),
            hearers(res@).no_duplicates(),
            forall|id: usize|
                #[trigger] hearers(res@).contains(id) <==> list@.take(i as int).contains(id)
                    && sessions@.contains(id) && id != skip_id,
            forall|j: int| 0 <= j < res@.len() ==> (#[trigger] res@[j]).event@ == event@,
    {
        let id = list[i];
        proof {
            assert(list@.take(i + 1) =~= list@.take(i as int).push(id));
            lemma_push_contains(list@.take(i as int), id);
            assert(!list@.take(i as int).contains(id));
        }
        if id != skip_id {
            if sessions.contains(&id) {
                let ghost before = res@;
                res.push(Delivery { to: id, event: event.clone() });
                proof {
                    assert(hearers(res@) =~= hearers(before).push(id));
                    lemma_push_contains(hearers(before), id);
                    assert(!hearers(before).contains(id));
                }
            }
        }
    }
    assert(list@.take(list.len() as int) =~= list@);
    assert(hearers(res@).to_set() =~= list@.to_set().intersect(sessions@).remove(skip_id));
    res
}

/// The number that `steps` steps up from `first` lead to. After the greatest
/// number comes 0.
pub open spec fn stepped(first: usize, steps: int) -> usize {
    if first + steps <= usize::MAX {
        (first + steps) as usize
    } else {
        (first + steps - usize::MAX - 1) as usize
    }
}

/// Whether `id` is the first number from `first` on that no session has. 0 is
/// never free: it stands for no session.
pub open spec fn is_next_free(sessions: Set<usize>, first: usize, id: usize) -> bool {
    let taken = sessions.insert(0);
    exists|steps: int|
        0 <= steps <= usize::MAX && id == #[trigger] stepped(first, steps) && !taken.contains(id)
            && forall|k: int| 0 <= k < steps ==> taken.contains(#[trigger] stepped(first, k))
}

/// As many taken ids in a row as there are steps are as many ids.
proof fn lemma_taken_ids(taken: Set<usize>, first: usize, steps: nat)
    requires
        taken.finite(),
        steps <= usize::MAX + 1,
        forall|k: int| 0 <= k < steps ==> taken.contains(#[trigger] stepped(first, k)),
    ensures
        steps <= taken.len(),
    decreases steps,
{
    if steps > 0 {
        let last = stepped(first, steps - 1);
        let rest = taken.remove(last);
        assert forall|k: int| 0 <= k < steps - 1 implies rest.contains(
            #[trigger] stepped(first, k),
        ) by {
            assert(taken.contains(stepped(first, k)));
        }
        lemma_taken_ids(rest, first, (steps - 1) as nat);
    }
}

/// A hash set is finite.
proof fn lemma_finite(set: HashSet<usize>)
    ensures
        set@.finite(),
{
    let list = vstd::std_specs::iter::IteratorSpec::remaining(
        &vstd::std_specs::hash::spec_hash_keys_iter(&set),
    );
    assert(list.unref().to_set() == set@);
    vstd::seq_lib::seq_to_set_is_finite(list.unref());
}

/// The first id from `first` on that no session has.
fn free_id(sessions: &HashSet<usize>, first: usize) -> (id: usize)
    requires
        sessions@.len() < usize::MAX,
    ensures
        is_next_free(sessions@, first, id),
{
    proof {
        lemma_finite(*sessions);
    }
    let ghost taken = sessions@.insert(0);
    let mut id = first;
    let ghost mut steps: nat = 0;
    while id == 0 || sessions.contains(&id)
        invariant
            taken == sessions@.insert(0),
            taken.finite(),
            taken.len() <= usize::MAX,
            steps <= usize::MAX,
            id == stepped(first, steps as int),
            forall|k: int| 0 <= k < steps ==> taken.contains(#[trigger] stepped(first, k)),
        decreases usize::MAX - steps,
    {
        proof {
            lemma_taken_ids(taken, first, steps + 1);
            steps = steps + 1;
        }
        id = id.wrapping_add(1);
    }
    id
}

impl ShikiServer {
    /// Whether every channel is kept under its own id, and no session has the
    /// id that stands for none.
    pub open spec fn wf(self) -> bool {
        self@.keyed_by_id() && self@.zero_is_no_session()
    }

    /// A server without sessions and channels.
    pub fn new(visitor_count: usize) -> (res: Self)
        ensures
            res.wf(),
            res@ == (ServerView {
                sessions: Set::empty(),
                channels: Map::empty(),
                visitors: visitor_count,
            }),
    {
        let res = Self {
            sessions: HashSet::new(),
            channels: HashMap::new(),
            rng: thread_rng(),
            visitor_count,
        };
        assert(channel_views(res.channels@) =~= Map::empty());
        res
    }

    /// Send message to all users in the channel
    fn send_channel_message(&self, channel: i64, message: Event, skip_id: usize) -> (res: Vec<
        Delivery,
    >)
        ensures
            reaches(res@, self@.audience(channel, skip_id), message@),
    {
        match self.channels.get(&channel) {
            Some(found) => {
                let list = members(&found.sessions);
                deliver(&list, &self.sessions, &message, skip_id)
            },
            None => {
                let res: Vec<Delivery> = Vec::new();
                assert(hearers(res@).to_set() =~= Set::empty());
                res
            },
        }
    }

    /// Send message to literally everyone.
    fn send_to_everyone(&self, message: Event, skip_id: usize) -> (res: Vec<Delivery>)
        ensures
            reaches(res@, self@.sessions.remove(skip_id), message@),
    {
        let list = members(&self.sessions);
        proof {
            assert(list@.to_set().intersect(self.sessions@).remove(skip_id)
                =~= self@.sessions.remove(skip_id));
        }
        deliver(&list, &self.sessions, &message, skip_id)
    }
}

/// The channels that were stored, by id. Of two with one id the later counts.
pub open spec fn loaded_channels(stored: Seq<models::ChannelView>) -> Map<i64, ChannelView>
    decreases stored.len(),
{
    if stored.len() == 0 {
        Map::empty()
    } else {
        loaded_channels(stored.drop_last()).insert(
            stored.last().id,
            loaded_channel(stored.last()),
        )
    }
}

proof fn lemma_channel_insert(table: Map<i64, Channel>, key: i64, value: Channel)
    ensures
        channel_views(table.insert(key, value)) == channel_views(table).insert(key, value@),
{
    assert(channel_views(table.insert(key, value)) =~= channel_views(table).insert(key, value@));
}

/// What becomes of the server once its channels were read.
#[derive(Debug, Clone, Copy, PartialEq, Eq, Structural)]
pub enum Started {
    /// It runs, with this many channels
    Running(usize),
    /// The channels could not be read and it stops, with this many channels
    Stopping(usize),
}

/// The text of a notice that a session left.
pub open spec fn left_notice(id: usize) -> Seq<char> {
    decimal(id as int) + " left"@
}

impl ShikiServer {
    /// Takes the channels that were stored. Where they could not be read the
    /// server keeps what it has, and stops.
    pub fn started(&mut self, stored: Option<Vec<models::Channel>>) -> (res: Started)
        requires
            old(self).wf(),
        ensures
            final(self).wf(),
            final(self)@ == (ServerView {
                channels: match stored {
                    Some(list) => loaded_channels(views(list@)),
                    None => old(self)@.channels,
                },
                ..old(self)@
            }),
            res == (match stored {
                Some(_) => Started::Running(final(self)@.channels.len() as usize),
                None => Started::Stopping(final(self)@.channels.len() as usize),
            }),
            final(self)@.channels.len() <= usize::MAX,
    {
        match stored {
            Some(list) => {
                let mut channels: HashMap<i64, Channel> = HashMap::new();
                assert(channel_views(channels@) =~= Map::empty());
                for i in 0..list.len()
                    invariant
                        channel_views(channels@) == loaded_channels(views(list@.take(i as int))),
                        forall|k: i64| #[trigger]
                            channels@.contains_key(k) ==> channels@[k].id == k,
                {
                    let channel = Channel::from(list[i].clone());
                    proof {
                        lemma_views_next(list@, i as int);
                        lemma_channel_insert(channels@, channel.id, channel);
                    }
                    channels.insert(channel.id, channel);
                }
                proof {
                    lemma_views_all(list@);
                    assert(channel_views(channels@).dom() =~= channels@.dom());
                }
                let count = channels.len();
                self.channels = channels;
                Started::Running(count)
            },
            None => {
                proof {
                    assert(channel_views(self.channels@).dom() =~= self.channels@.dom());
                }
                Started::Stopping(self.channels.len())
            },
        }
    }

    /// Whether every number but 0 is the id of a session, so that no other
    /// session can connect.
    pub fn is_full(&self) -> (res: bool)
        ensures
            res == (self@.sessions.len() >= usize::MAX),
    {
        self.sessions.len() == usize::MAX
    }

    /// Registers a new session under a random id that no other session has, and
    /// that is not 0. It is returned with the greeting to send.
    pub fn connect(&mut self, msg: Connect) -> (res: (usize, Delivery))
        requires
            old(self).wf(),
            old(self)@.sessions.len() < usize::MAX,
        ensures
            final(self).wf(),
            res.0 != 0,
            !old(self)@.sessions.contains(res.0),
            final(self)@ == old(self)@.connected(res.0),
            final(self)@.sessions.len() == old(self)@.sessions.len() + 1,
            res.1.to == res.0,
            res.1.event@ == EventView::Hello,
    {
        let drawn = random_id(&mut self.rng);
        self.connect_drawn(drawn)
    }

    /// Registers a new session under the id that was drawn for it, or under the
    /// next one that no other session has and that is not 0. The id is returned
    /// with the greeting to send.
    pub fn connect_drawn(&mut self, drawn: usize) -> (res: (usize, Delivery))
        requires
            old(self).wf(),
            old(self)@.sessions.len() < usize::MAX,
        ensures
            final(self).wf(),
            res.0 != 0,
            is_next_free(old(self)@.sessions, drawn, res.0),
            final(self)@ == old(self)@.connected(res.0),
            final(self)@.sessions.len() == old(self)@.sessions.len() + 1,
            res.1.to == res.0,
            res.1.event@ == EventView::Hello,
    {
        proof {
            lemma_finite(self.sessions);
        }
        let id = free_id(&self.sessions, drawn);
        let greeting = self.connect_as(id);
        (id, greeting)
    }

    /// Registers a new session under `id` and puts it into every channel. The
    /// greeting to send is returned.
    pub fn connect_as(&mut self, id: usize) -> (res: Delivery)
        requires
            old(self).wf(),
            id != 0,
        ensures
            final(self).wf(),
            final(self)@ == old(self)@.connected(id),
            res.to == id,
            res.event@ == EventView::Hello,
    {
        self.sessions.insert(id);
        let ghost before = channel_views(self.channels@);
        let list = keys(&self.channels);
        for i in 0..list.len()
            invariant
                list@.no_duplicates(),
                list@.to_set() == before.dom(),
                self.sessions@ == old(self)@.sessions.insert(id),
                self.visitor_count == old(self)@.visitors,
                channel_views(self.channels@).dom() == before.dom(),
                forall|k: i64|
                    before.contains_key(k) ==> #[trigger] channel_views(self.channels@)[k] == (
                    if list@.take(i as int).contains(k) {
                        with_session(before[k], id)
                    } else {
                        before[k]
                    }),
        {
            let key = list[i];
            proof {
                assert(list@.contains(key));
                assert(list@.take(i + 1) =~= list@.take(i as int).push(key));
                lemma_push_contains(list@.take(i as int), key);
                assert(!list@.take(i as int).contains(key));
                assert(before.dom().contains(key));
                assert(channel_views(self.channels@).contains_key(key));
            }
            let ghost table = self.channels@;
            if let Some(found) = self.channels.remove(&key) {
                let mut channel = found;
                channel.sessions.insert(id);
                proof {
                    lemma_channel_insert(table.remove(key), key, channel);
                    assert(channel_views(table)[key] == found@);
                    assert(channel@ == with_session(found@, id));
                }
                self.channels.insert(key, channel);
                proof {
                    let now = channel_views(self.channels@);
                    assert(now.dom() =~= before.dom());
                    assert(now =~= channel_views(table).insert(key, channel@));
                    assert forall|k: i64| before.contains_key(k) implies #[trigger] now[k] == (
                    if list@.take(i + 1).contains(k) {
                        with_session(before[k], id)
                    } else {
                        before[k]
                    }) by {
                        assert(k != key ==> now[k] == channel_views(table)[k]);
                    }
                }
            }
        }
        proof {
            assert(list@.take(list.len() as int) =~= list@);
            assert(channel_views(self.channels@) =~= old(self)@.connected(id).channels) by {
                assert forall|k: i64| before.contains_key(k) implies list@.contains(k) by {
                    assert(list@.to_set().contains(k));
                }
            }
        }
        self.visitor_count = self.visitor_count.wrapping_add(1);
        Delivery { to: id, event: Event::Hello }
    }
}

/// The channels of some broadcasts, in order.
pub open spec fn broadcast_channels(list: Seq<Broadcast>) -> Seq<i64> {
    Seq::new(list.len(), |i: int| list[i].channel)
}

impl ShikiServer {
    /// Takes a session out. Every channel that it was in hears that it left.
    pub fn disconnect(&mut self, msg: Disconnect) -> (res: Vec<Broadcast>)
        requires
            old(self).wf(),
        ensures
            final(self).wf(),
            final(self)@ == old(self)@.disconnected(msg.id),
            broadcast_channels(res@).no_duplicates(),
            broadcast_channels(res@).to_set() == old(self)@.joined_channels(msg.id),
            forall|i: int|
                0 <= i < res@.len() ==> reaches(
                    (#[trigger] res@[i]).deliveries@,
                    final(self)@.audience(res@[i].channel, 0),
                    EventView::Custom(left_notice(msg.id)),
                ),
    {
        let id = msg.id;
        let mut left: Vec<i64> = Vec::new();
        assert(left@.to_set() =~= Set::empty());
        if self.sessions.remove(&id) {
            left = self.leave_channels(id);
            if self.visitor_count > 0 {
                self.visitor_count = self.visitor_count - 1;
            }
        }
        proof {
            assert(self@.channels =~= old(self)@.disconnected(id).channels);
            assert(self@.sessions =~= old(self)@.disconnected(id).sessions);
        }
        let notice = joined(unsigned_text(id).as_str(), " left");
        let mut res: Vec<Broadcast> = Vec::new();
        for i in 0..left.len()
            invariant
                notice@ == left_notice(id),
                self@ == old(self)@.disconnected(id),
                broadcast_channels(res@) == left@.take(i as int),
                forall|j: int|
                    0 <= j < res@.len() ==> reaches(
                        (#[trigger] res@[j]).deliveries@,
                        self@.audience(res@[j].channel, 0),
                        EventView::Custom(left_notice(id)),
                    ),
        {
            let channel = left[i];
            let deliveries = self.send_channel_message(channel, Event::Custom(notice.clone()), 0);
            let ghost before = res@;
            res.push(Broadcast { channel, deliveries });
            assert(broadcast_channels(res@) =~= broadcast_channels(before).push(channel));
            assert(left@.take(i + 1) =~= left@.take(i as int).push(channel));
        }
        assert(left@.take(left.len() as int) =~= left@);
        res
    }

    /// Takes a session out of every channel. Those that it was in are
    /// returned.
    fn leave_channels(&mut self, id: usize) -> (left: Vec<i64>)
        requires
            old(self).wf(),
        ensures
            final(self)@.sessions == old(self)@.sessions,
            final(self)@.visitors == old(self)@.visitors,
            final(self)@.channels == old(self)@.channels.map_values(
                |c: ChannelView| without_session(c, id),
            ),
            left@.no_duplicates(),
            left@.to_set() == old(self)@.channels.dom().filter(
                |k: i64| old(self)@.channels[k].sessions.contains(id),
            ),
    {
        let ghost before = channel_views(self.channels@);
        let list = keys(&self.channels);
        let mut left: Vec<i64> = Vec::new();
        for i in 0..list.len()
            invariant
                before == old(self)@.channels,
                old(self)@.keyed_by_id(),
                list@.no_duplicates(),
                list@.to_set() == before.dom(),
                self.sessions@ == old(self)@.sessions,
                self.visitor_count == old(self)@.visitors,
                channel_views(self.channels@).dom() == before.dom(),
                forall|k: i64|
                    before.contains_key(k) ==> #[trigger] channel_views(self.channels@)[k] == (
                    if list@.take(i as int).contains(k) {
                        without_session(before[k], id)
                    } else {
                        before[k]
                    }),
                left@.no_duplicates(),
                forall|k: i64| #[trigger]
                    left@.contains(k) <==> list@.take(i as int).contains(k)
                        && before[k].sessions.contains(id),
        {
            let key = list[i];
            proof {
                assert(list@.contains(key));
                assert(list@.take(i + 1) =~= list@.take(i as int).push(key));
                lemma_push_contains(list@.take(i as int), key);
                assert(!list@.take(i as int).contains(key));
                assert(before.dom().contains(key));
                assert(channel_views(self.channels@).contains_key(key));
            }
            let ghost table = self.channels@;
            let ghost left_before = left@;
            if let Some(found) = self.channels.remove(&key) {
                let mut channel = found;
                assert(channel_views(table)[key] == found@);
                if channel.sessions.remove(&id) {
                    left.push(channel.id);
                    proof {
                        assert(before.contains_key(key) && before[key] == found@);
                        assert(!left_before.contains(channel.id));
                        lemma_push_contains(left_before, channel.id);
                    }
                }
                proof {
                    assert(channel@ == without_session(found@, id));
                    lemma_channel_insert(table.remove(key), key, channel);
                }
                self.channels.insert(key, channel);
                proof {
                    let now = channel_views(self.channels@);
                    assert(now.dom() =~= before.dom());
                    assert(now =~= channel_views(table).insert(key, channel@));
                    assert forall|k: i64| before.contains_key(k) implies #[trigger] now[k] == (
                    if list@.take(i + 1).contains(k) {
                        without_session(before[k], id)
                    } else {
                        before[k]
                    }) by {
                        assert(k != key ==> now[k] == channel_views(table)[k]);
                    }
                }
            }
        }
        proof {
            assert(list@.take(list.len() as int) =~= list@);
            assert forall|k: i64| #[trigger] list@.contains(k) <==> before.contains_key(k) by {
                assert(list@.to_set().contains(k) <==> list@.contains(k));
            }
            assert(self@.channels =~= before.map_values(
                |c: ChannelView| without_session(c, id),
            ));
            assert(left@.to_set() =~= before.dom().filter(
                |k: i64| before[k].sessions.contains(id),
            ));
        }
        left
    }
}

/// A session whose token is being checked.
#[derive(Debug)]
pub struct PendingIdentify {
    pub session: usize,
    /// The token to check
    pub token: String,
    /// The channels at the time of the request
    pub channels: Vec<Channel>,
}

/// A session whose user is known, while the list of users is fetched.
#[derive(Debug)]
pub struct PendingReady {
    pub session: usize,
    pub user: User,
    /// The channels at the time of the request
    pub channels: Vec<Channel>,
}

/// What others see of the users.
pub open spec fn public_users(users: Seq<models::UserView>) -> Seq<UserView> {
    Seq::new(users.len(), |i: int| public_user(users[i]))
}

/// The users that the ready payload lists: those that were fetched, or only
/// the user who connected where they could not be fetched.
pub open spec fn ready_users(user: UserView, fetched: Option<Seq<models::UserView>>) -> Seq<
    UserView,
> {
    match fetched {
        Some(list) => public_users(list),
        None => seq![user],
    }
}

impl PendingIdentify {
    /// Goes on with the user that the token belongs to. Where there is none, or
    /// the check failed, the session hears that its token is bad and that is
    /// all; else it hears its token.
    pub fn token_checked<E>(self, check: Result<Option<models::User>, E>) -> (res: (
        Delivery,
        Option<PendingReady>,
    ))
        ensures
            res.0.to == self.session,
            match check {
                Ok(Some(user)) => {
                    &&& res.0.event@ == EventView::SetToken(self.token@)
                    &&& res.1 matches Some(next)
                    &&& next.session == self.session
                    &&& next.user@ == public_user(user@)
                    &&& next.channels == self.channels
                },
                _ => res.0.event@ == EventView::BadToken && res.1 is None,
            },
    {
        match check {
            Ok(Some(user)) => (
                Delivery { to: self.session, event: Event::SetToken(self.token) },
                Some(
                    PendingReady {
                        session: self.session,
                        user: User::from(user),
                        channels: self.channels,
                    },
                ),
            ),
            _ => (Delivery { to: self.session, event: Event::BadToken }, None),
        }
    }
}

impl PendingReady {
    /// The ready payload, with the users that were fetched. Where they could
    /// not be fetched it lists the user who connected.
    pub fn users_fetched(self, users: Option<Vec<models::User>>) -> (res: Delivery)
        ensures
            res.to == self.session,
            res.event@ == EventView::Ready(
                events::ReadyView {
                    channels: views(self.channels@),
                    user: self.user@,
                    users: ready_users(self.user@, optional_views(users)),
                },
            ),
    {
        let mut shown: Vec<User> = Vec::new();
        match users {
            Some(fetched) => {
                for i in 0..fetched.len()
                    invariant
                        shown@.len() == i,
                        forall|j: int|
                            0 <= j < i ==> (#[trigger] shown@[j])@ == public_user(fetched@[j]@),
                {
                    shown.push(User::from(fetched[i].clone()));
                }
                assert(views(shown@) =~= public_users(views(fetched@)));
            },
            None => {
                shown.push(self.user.clone());
                assert(views(shown@) =~= seq![self.user@]);
            },
        }
        Delivery {
            to: self.session,
            event: Event::Ready(Ready { channels: self.channels, user: self.user, users: shown }),
        }
    }
}

/// The text that a channel hears when someone joins it.
pub const JOIN_NOTICE: &'static str = "Someone connected";

impl ShikiServer {
    /// Starts to identify a session. Nothing happens for one that is not
    /// connected.
    pub fn identify(&self, msg: Identify) -> (res: Option<PendingIdentify>)
        requires
            self.wf(),
        ensures
            res is Some <==> self@.sessions.contains(msg.id),
            res matches Some(next) ==> {
                &&& next.session == msg.id
                &&& next.token == msg.token
                &&& lists_channels(views(next.channels@), self@.channels)
            },
    {
        if !self.sessions.contains(&msg.id) {
            return None;
        }
        Some(
            PendingIdentify {
                session: msg.id,
                token: msg.token,
                channels: self.list_channels(ListChannels),
            },
        )
    }

    /// Creates a channel with every session in it, and tells everyone. A
    /// channel whose id is taken is refused.
    pub fn create_channel(&mut self, msg: Channel) -> (res: (Option<Channel>, Vec<Delivery>))
        requires
            old(self).wf(),
        ensures
            final(self).wf(),
            final(self)@ == old(self)@.channel_created(msg@),
            res.0 is Some <==> !old(self)@.channels.contains_key(msg.id),
            res.0 matches Some(channel) ==> channel@ == old(self)@.opened(msg@),
            res.0 matches Some(channel) ==> reaches(
                res.1@,
                old(self)@.sessions.remove(0),
                EventView::ChannelCreate(
                    events::ChannelCreateView { id: msg.id, name: msg.name@ },
                ),
            ),
            res.0 is None ==> res.1@.len() == 0,
    {
        if self.channels.contains_key(&msg.id) {
            return (None, Vec::new());
        }
        let mut channel = msg;
        channel.sessions = copy_set(&self.sessions);
        let kept = channel.clone();
        proof {
            lemma_channel_insert(self.channels@, channel.id, kept);
        }
        self.channels.insert(channel.id, kept);
        let deliveries = self.send_to_everyone(
            Event::ChannelCreate(ChannelCreate::new(channel.id, channel.name.clone())),
            0,
        );
        (Some(channel), deliveries)
    }

    /// Sends a message to the sessions of its channel. A message to a channel
    /// that does not exist is refused.
    pub fn create_message(&self, msg: CreateMessage) -> (res: (
        Option<CreateMessage>,
        Vec<Delivery>,
    ))
        ensures
            res.0 is Some <==> self@.channels.contains_key(msg.channel_id),
            res.0 matches Some(sent) ==> sent@ == msg@,
            res.0 matches Some(sent) ==> reaches(
                res.1@,
                self@.audience(msg.channel_id, 0),
                EventView::MessageCreate(msg@.announced()),
            ),
            res.0 is None ==> res.1@.len() == 0,
    {
        if !self.channels.contains_key(&msg.channel_id) {
            return (None, Vec::new());
        }
        let event = MessageCreate::from(msg.clone());
        let deliveries = self.send_channel_message(msg.channel_id, Event::MessageCreate(event), 0);
        (Some(msg), deliveries)
    }

    /// Every channel once, in some order.
    pub fn list_channels(&self, msg: ListChannels) -> (res: Vec<Channel>)
        requires
            self.wf(),
        ensures
            lists_channels(views(res@), self@.channels),
    {
        let list = keys(&self.channels);
        let ghost table = channel_views(self.channels@);
        let mut res: Vec<Channel> = Vec::new();
        for i in 0..list.len()
            invariant
                table == channel_views(self.channels@),
                self@.keyed_by_id(),
                list@.to_set() == table.dom(),
                res@.len() == i,
                forall|j: int|
                    0 <= j < i ==> table.contains_key(list@[j]) && (#[trigger] res@[j])@
                        == table[list@[j]] && res@[j]@.id == list@[j],
        {
            proof {
                assert(list@.contains(list@[i as int]));
                assert(list@.to_set().contains(list@[i as int]));
            }
            if let Some(channel) = self.channels.get(&list[i]) {
                proof {
                    assert(self@.channels.contains_key(list@[i as int]));
                    assert(table[list@[i as int]] == channel@);
                }
                res.push(channel.clone());
            }
        }
        proof {
            let shown = views(res@);
            assert(Seq::new(shown.len(), |i: int| shown[i].id) =~= list@);
        }
        res
    }

    /// Puts a client into a channel and tells the others in it. A channel that
    /// does not exist is created first.
    pub fn join(&mut self, msg: Join) -> (res: (Option<Channel>, Vec<Delivery>))
        requires
            old(self).wf(),
        ensures
            final(self).wf(),
            final(self)@ == old(self)@.joined(msg.client_id, msg.channel_id),
            res.0 matches Some(channel) && channel@ == final(self)@.channels[msg.channel_id],
            reaches(
                res.1@,
                final(self)@.audience(msg.channel_id, msg.client_id),
                EventView::Custom(JOIN_NOTICE@),
            ),
    {
        let Join { client_id, channel_id } = msg;
        let ghost table = self.channels@;
        let mut channel = match self.channels.remove(&channel_id) {
            Some(found) => {
                proof {
                    assert(channel_views(table)[channel_id] == found@);
                    assert(old(self)@.channels.contains_key(channel_id));
                }
                found
            },
            None => Channel {
                id: channel_id,
                guild_id: None,
                name: signed_text(channel_id),
                sessions: copy_set(&self.sessions),
            },
        };
        channel.sessions.insert(client_id);
        let answer = channel.clone();
        proof {
            lemma_channel_insert(table.remove(channel_id), channel_id, channel);
        }
        self.channels.insert(channel_id, channel);
        proof {
            assert(self@.channels =~= old(self)@.joined(client_id, channel_id).channels);
        }
        let deliveries = self.send_channel_message(
            channel_id,
            Event::Custom(JOIN_NOTICE.to_owned()),
            client_id,
        );
        (Some(answer), deliveries)
    }

    /// The number of visitors that is shown.
    pub fn visitor_count(&self) -> (res: usize)
        ensures
            res == self@.visitors,
    {
        self.visitor_count
    }
}

} // verus!
