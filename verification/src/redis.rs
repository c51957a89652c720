//! Fetching and storing records: first in the cache, then in the database.
use crate::message_fields::field_views;
use crate::models::{Attachment, Channel, Message, User, UserView};
use crate::routes::{
    ATTACHMENT_COLL_NAME, CHANNEL_COLL_NAME, MESSAGE_COLL_NAME, USER_COLL_NAME,
};
use crate::text::{decimal, joined, numbered, optional};
use crate::validation::{is_long_enough, is_plain, validate_text, Problems};
use vstd::prelude::*;

verus! {

/// The kinds of records that are stored.
#[derive(Debug, Clone, Copy, PartialEq, Eq, Structural)]
pub enum ItemKind {
    Attachment,
    Channel,
    Message,
    User,
}

/// What the cache keys of a kind begin with.
pub open spec fn key_prefix(kind: ItemKind) -> Seq<char> {
    match kind {
        ItemKind::Attachment => "attachment_"@,
        ItemKind::Channel => "channel_"@,
        ItemKind::Message => "message_"@,
        ItemKind::User => "user_"@,
    }
}

/// The cache key of a record.
pub open spec fn item_key(kind: ItemKind, id: i64) -> Seq<char> {
    key_prefix(kind) + decimal(id as int)
}

/// The cache key under which a token leads to its user's id.
pub open spec fn token_key(token: Seq<char>) -> Seq<char> {
    "user_token_"@ + token
}

impl ItemKind {
    fn prefix(self) -> (res: &'static str)
        ensures
            res@ == key_prefix(self),
    {
        match self {
            ItemKind::Attachment => "attachment_",
            ItemKind::Channel => "channel_",
            ItemKind::Message => "message_",
            ItemKind::User => "user_",
        }
    }

    /// The collection of the database that holds the records of this kind.
    pub fn collection(self) -> (res: &'static str)
        ensures
            res@ == collection_of(self),
    {
        match self {
            ItemKind::Attachment => ATTACHMENT_COLL_NAME,
            ItemKind::Channel => CHANNEL_COLL_NAME,
            ItemKind::Message => MESSAGE_COLL_NAME,
            ItemKind::User => USER_COLL_NAME,
        }
    }

    /// The cache key of a record of this kind. It is also the key that a new
    /// record is cached under before it goes to the database.
    pub fn key(self, id: i64) -> (res: String)
        ensures
            res@ == item_key(self, id),
    {
        numbered(self.prefix(), id)
    }
}

/// The cache key under which a token leads to its user's id.
pub fn user_token_key(token: &str) -> (res: String)
    ensures
        res@ == token_key(token@),
{
    joined("user_token_", token)
}

/// The records that the cache had, in order.
pub open spec fn hits<T>(replies: Seq<Option<T>>) -> Seq<T>
    decreases replies.len(),
{
    if replies.len() == 0 {
        Seq::empty()
    } else {
        match replies.last() {
            Some(item) => hits(replies.drop_last()).push(item),
            None => hits(replies.drop_last()),
        }
    }
}

/// The ids whose records the cache did not have, in order.
pub open spec fn misses<T>(ids: Seq<i64>, replies: Seq<Option<T>>) -> Seq<i64>
    decreases replies.len(),
{
    if replies.len() == 0 {
        Seq::empty()
    } else {
        let before = misses(ids, replies.drop_last());
        if replies.last() is None {
            before.push(ids[replies.len() - 1])
        } else {
            before
        }
    }
}

/// What to do next to fetch records.
#[derive(Debug)]
pub enum FetchStep<T> {
    /// These are all
    Done(Vec<T>),
    /// Connect to the cache and go on as planned
    Connect(FetchPlan),
    /// Read these keys of the cache
    ReadCache(Vec<String>),
    /// Ask the database, for the records with these ids or for all, and add
    /// what it has to those that were found
    Query { found: Vec<T>, ids: Option<Vec<i64>> },
}

/// How records are fetched once there is a connection to the cache.
#[derive(Debug)]
pub struct FetchPlan {
    /// The keys to read; without them the database is asked for all records
    pub keys: Option<Vec<String>>,
}

/// Whether a step is the first one to fetch records of a kind: those with the
/// ids, or all. No ids need no fetching and no connection; all records are not
/// looked for in the cache.
pub open spec fn starts_fetch<T>(step: FetchStep<T>, kind: ItemKind, ids: Option<Seq<i64>>) -> bool {
    match ids {
        Some(list) => if list.len() == 0 {
            step matches FetchStep::Done(items) && items@.len() == 0
        } else {
            &&& step matches FetchStep::Connect(plan)
            &&& plan.keys matches Some(keys)
            &&& keys@.len() == list.len()
            &&& forall|i: int|
                0 <= i < keys@.len() ==> (#[trigger] keys@[i])@ == item_key(kind, list[i])
        },
        None => step matches FetchStep::Connect(plan) && plan.keys is None,
    }
}

impl FetchPlan {
    /// Goes on once there is a connection to the cache. Without one nothing is
    /// fetched, also not from the database, and its error is passed on.
    pub fn connected<T, E>(self, connection: Result<(), E>) -> (res: Result<FetchStep<T>, E>)
        ensures
            match connection {
                Ok(_) => match self.keys {
                    Some(keys) => res == Ok::<FetchStep<T>, E>(FetchStep::ReadCache(keys)),
                    None => {
                        &&& res matches Ok(FetchStep::Query { found, ids })
                        &&& found@.len() == 0
                        &&& ids is None
                    },
                },
                Err(error) => res == Err::<FetchStep<T>, E>(error),
            },
    {
        match connection {
            Ok(_) => match self.keys {
                Some(keys) => Ok(FetchStep::ReadCache(keys)),
                None => Ok(FetchStep::Query { found: Vec::new(), ids: None }),
            },
            Err(error) => Err(error),
        }
    }
}

/// The view of some ids, or of none in particular.
pub open spec fn wanted_ids(ids: Option<&[i64]>) -> Option<Seq<i64>> {
    match ids {
        Some(list) => Some(list@),
        None => None,
    }
}

/// Starts to fetch records.
fn fetch_items<T>(kind: ItemKind, ids: Option<&[i64]>) -> (res: FetchStep<T>)
    ensures
        starts_fetch(res, kind, wanted_ids(ids)),
{
    match ids {
        Some(list) => {
            if list.len() == 0 {
                return FetchStep::Done(Vec::new());
            }
            let mut keys: Vec<String> = Vec::new();
            for i in 0..list.len()
                invariant
                    keys@.len() == i,
                    forall|j: int|
                        0 <= j < i ==> (#[trigger] keys@[j])@ == item_key(kind, list@[j]),
            {
                keys.push(kind.key(list[i]));
            }
            FetchStep::Connect(FetchPlan { keys: Some(keys) })
        },
        None => FetchStep::Connect(FetchPlan { keys: None }),
    }
}

/// Goes on with what the cache replied for each id. The database is asked for
/// the records that the cache did not have, and for no others.
pub fn cache_read<T>(ids: &[i64], replies: Vec<Option<T>>) -> (res: FetchStep<T>)
    requires
        replies@.len() == ids@.len(),
    ensures
        if misses(ids@, replies@).len() == 0 {
            res matches FetchStep::Done(items) && items@ == hits(replies@)
        } else {
            &&& res matches FetchStep::Query { found, ids: wanted }
            &&& found@ == hits(replies@)
            &&& wanted matches Some(list)
            &&& list@ == misses(ids@, replies@)
        },
{
    let ghost all = replies@;
    let mut found: Vec<T> = Vec::new();
    let mut missing: Vec<i64> = Vec::new();
    let count = ids.len();
    let mut i: usize = 0;
    for reply in it: replies.into_iter()
        invariant
            it.seq() == all,
            all.len() == ids@.len(),
            count == ids@.len(),
            i == it.index(),
            found@ == hits(all.take(i as int)),
            missing@ == misses(ids@, all.take(i as int)),
    {
        assert(all.take(i + 1).drop_last() =~= all.take(i as int));
        assert(all.take(i + 1).last() == reply);
        match reply {
            Some(item) => found.push(item),
            None => missing.push(ids[i]),
        }
        i = i + 1;
    }
    assert(all.take(all.len() as int) =~= all);
    if missing.len() == 0 {
        FetchStep::Done(found)
    } else {
        FetchStep::Query { found, ids: Some(missing) }
    }
}

/// Ends with what the database had. Its error is passed on.
pub fn queried<T, E>(found: Vec<T>, rows: Result<Vec<T>, E>) -> (res: Result<Vec<T>, E>)
    ensures
        match rows {
            Ok(more) => res matches Ok(items) && items@ == found@ + more@,
            Err(error) => res == Err::<Vec<T>, E>(error),
        },
{
    match rows {
        Ok(more) => {
            let mut items = found;
            let mut rest = more;
            items.append(&mut rest);
            Ok(items)
        },
        Err(error) => Err(error),
    }
}

/// What a user wants to change of their account.
#[derive(Debug)]
pub struct ModifyUser {
    /// User's username
    pub username: Option<String>,
    /// User's avatar
    pub avatar: Option<String>,
}

/// The number of characters that a username has at least.
pub const MIN_USERNAME: u64 = 2;

/// The number of characters that a username has at most.
pub const MAX_USERNAME: u64 = 32;

/// Whether a text can be a username.
pub open spec fn is_username(name: Seq<char>) -> bool {
    is_long_enough(name, MIN_USERNAME, Some(MAX_USERNAME)) && is_plain(name)
}

impl ModifyUser {
    /// Checks the new username, where there is one. Any avatar will do.
    pub fn validate(&self) -> (res: Result<(), Problems>)
        ensures
            res is Ok <==> (self.username matches Some(name) ==> is_username(name@)),
            res matches Err(problems) ==> problems == (Problems {
                length: !is_long_enough(self.username->0@, MIN_USERNAME, Some(MAX_USERNAME)),
                non_control_character: !is_plain(self.username->0@),
            }),
    {
        match &self.username {
            Some(name) => validate_text(name.as_str(), MIN_USERNAME, Some(MAX_USERNAME)),
            None => Ok(()),
        }
    }
}

/// How a user is looked for.
#[derive(Debug)]
pub enum FetchUserId {
    Id(i64),
    Token(String),
}

impl Clone for FetchUserId {
    fn clone(&self) -> (res: Self)
        ensures
            res == *self,
    {
        match self {
            FetchUserId::Id(id) => FetchUserId::Id(*id),
            FetchUserId::Token(token) => FetchUserId::Token(token.clone()),
        }
    }
}

pub enum FetchUserIdView {
    Id(i64),
    Token(Seq<char>),
}

impl View for FetchUserId {
    type V = FetchUserIdView;

    open spec fn view(&self) -> FetchUserIdView {
        match *self {
            FetchUserId::Id(id) => FetchUserIdView::Id(id),
            FetchUserId::Token(token) => FetchUserIdView::Token(token@),
        }
    }
}

/// What to do next to fetch a user.
#[derive(Debug)]
pub enum UserStep {
    /// Read the id that the cache has for the token
    ReadToken { token: String, key: String },
    /// Read the user that the cache has for the id
    ReadUser { id: i64, key: String },
    /// Ask the database
    Query(FetchUserId),
    /// This is the user
    Done(User),
}

pub enum UserStepView {
    ReadToken { token: Seq<char>, key: Seq<char> },
    ReadUser { id: i64, key: Seq<char> },
    Query(FetchUserIdView),
    Done(UserView),
}

impl View for UserStep {
    type V = UserStepView;

    open spec fn view(&self) -> UserStepView {
        match *self {
            UserStep::ReadToken { token, key } => UserStepView::ReadToken {
                token: token@,
                key: key@,
            },
            UserStep::ReadUser { id, key } => UserStepView::ReadUser { id, key: key@ },
            UserStep::Query(wanted) => UserStepView::Query(wanted@),
            UserStep::Done(user) => UserStepView::Done(user@),
        }
    }
}

/// The first step to fetch a user.
pub open spec fn first_step(wanted: FetchUserIdView) -> UserStepView {
    match wanted {
        FetchUserIdView::Id(id) => UserStepView::ReadUser { id, key: item_key(ItemKind::User, id) },
        FetchUserIdView::Token(token) => UserStepView::ReadToken { token, key: token_key(token) },
    }
}

/// The step after the cache was read for a token.
pub open spec fn after_token(token: Seq<char>, reply: Option<i64>) -> UserStepView {
    match reply {
        Some(id) => UserStepView::ReadUser { id, key: item_key(ItemKind::User, id) },
        None => UserStepView::Query(FetchUserIdView::Token(token)),
    }
}

/// The step after the cache was read for a user.
pub open spec fn after_user(id: i64, reply: Option<UserView>) -> UserStepView {
    match reply {
        Some(user) => UserStepView::Done(user),
        None => UserStepView::Query(FetchUserIdView::Id(id)),
    }
}

/// The view of a user that may be absent.
pub open spec fn optional_user(user: Option<User>) -> Option<UserView> {
    match user {
        Some(found) => Some(found@),
        None => None,
    }
}

/// Goes on with the id that the cache has for the token, where it has one.
pub fn token_read(token: String, reply: Option<i64>) -> (res: UserStep)
    ensures
        res@ == after_token(token@, reply),
{
    match reply {
        Some(id) => UserStep::ReadUser { id, key: ItemKind::User.key(id) },
        None => UserStep::Query(FetchUserId::Token(token)),
    }
}

/// Goes on with the user that the cache has for the id, where it has one.
pub fn user_read(id: i64, reply: Option<User>) -> (res: UserStep)
    ensures
        res@ == after_user(id, optional_user(reply)),
{
    match reply {
        Some(user) => UserStep::Done(user),
        None => UserStep::Query(FetchUserId::Id(id)),
    }
}

/// A user that the database had. The user goes to the cache, under the key.
#[derive(Debug)]
pub struct FoundUser {
    pub user: User,
    pub user_key: String,
}

/// A user that the cache has. The user's id goes there too, under the key.
#[derive(Debug)]
pub struct CachedUser {
    pub user: User,
    pub token_key: String,
}

/// Goes on with what the database had. A user that it had goes to the cache;
/// its error is passed on.
pub fn user_queried<E>(row: Result<Option<User>, E>) -> (res: Result<Option<FoundUser>, E>)
    ensures
        match row {
            Ok(Some(user)) => {
                &&& res matches Ok(Some(found))
                &&& found.user == user
                &&& found.user_key@ == item_key(ItemKind::User, user.id)
            },
            Ok(None) => res matches Ok(None),
            Err(error) => res == Err::<Option<FoundUser>, E>(error),
        },
{
    match row {
        Ok(Some(user)) => {
            let user_key = ItemKind::User.key(user.id);
            Ok(Some(FoundUser { user, user_key }))
        },
        Ok(None) => Ok(None),
        Err(error) => Err(error),
    }
}

impl FoundUser {
    /// Goes on once the user was written into the cache. An error in writing is
    /// passed on, and the id is not written.
    pub fn cached<E>(self, written: Result<(), E>) -> (res: Result<CachedUser, E>)
        ensures
            match written {
                Ok(_) => {
                    &&& res matches Ok(cached)
                    &&& cached.user == self.user
                    &&& cached.token_key@ == token_key(self.user.token@)
                },
                Err(error) => res == Err::<CachedUser, E>(error),
            },
    {
        match written {
            Ok(_) => {
                let token_key = user_token_key(self.user.token.as_str());
                Ok(CachedUser { user: self.user, token_key })
            },
            Err(error) => Err(error),
        }
    }
}

impl CachedUser {
    /// Ends once the user's id was written into the cache. An error in writing
    /// is passed on.
    pub fn token_cached<E>(self, written: Result<(), E>) -> (res: Result<Option<User>, E>)
        ensures
            match written {
                Ok(_) => res == Ok::<Option<User>, E>(Some(self.user)),
                Err(error) => res == Err::<Option<User>, E>(error),
            },
    {
        match written {
            Ok(_) => Ok(Some(self.user)),
            Err(error) => Err(error),
        }
    }
}

pub struct ModifyUserView {
    pub username: Option<Seq<char>>,
    pub avatar: Option<Seq<char>>,
}

impl View for ModifyUser {
    type V = ModifyUserView;

    open spec fn view(&self) -> ModifyUserView {
        ModifyUserView { username: optional(self.username), avatar: optional(self.avatar) }
    }
}

/// An account with the changes made. What is not given stays.
pub open spec fn modified(user: UserView, data: ModifyUserView) -> UserView {
    UserView {
        username: match data.username {
            Some(username) => username,
            None => user.username,
        },
        avatar: match data.avatar {
            Some(avatar) => Some(avatar),
            None => user.avatar,
        },
        ..user
    }
}

/// The fields that the changes write.
pub open spec fn changed_fields(data: ModifyUserView) -> Seq<(Seq<char>, Seq<char>)> {
    let first = match data.username {
        Some(username) => seq![("username"@, username)],
        None => Seq::empty(),
    };
    match data.avatar {
        Some(avatar) => first.push(("avatar"@, avatar)),
        None => first,
    }
}

/// What to write for a change of an account: the fields go to the record under
/// the key, where the cache has it, and then to the record with the id in the
/// database.
#[derive(Debug)]
pub struct UserChanges {
    pub id: i64,
    pub key: String,
    pub fields: Vec<(String, String)>,
}

/// What to do next to store a change of an account.
#[derive(Debug)]
pub enum ChangeStep {
    /// Write the fields into the cache
    WriteCache(UserChanges),
    /// Write the fields into the database
    UpdateRow(RowUpdate),
}

/// The fields to write into the record with the id in the database.
#[derive(Debug)]
pub struct RowUpdate {
    pub id: i64,
    pub fields: Vec<(String, String)>,
}

impl UserChanges {
    /// Goes on with what reading the record under the key came to. Where the
    /// cache has it, it is written there first. That it could not be read is no
    /// error.
    pub fn cache_checked<T, E>(self, read: Result<T, E>) -> (res: ChangeStep)
        ensures
            res == (match read {
                Ok(_) => ChangeStep::WriteCache(self),
                Err(_) => ChangeStep::UpdateRow(RowUpdate { id: self.id, fields: self.fields }),
            }),
    {
        match read {
            Ok(_) => ChangeStep::WriteCache(self),
            Err(_) => ChangeStep::UpdateRow(RowUpdate { id: self.id, fields: self.fields }),
        }
    }

    /// Goes on once the fields were written into the cache. An error in writing
    /// them is passed on, and the database is not updated.
    pub fn cached<E>(self, written: Result<(), E>) -> (res: Result<RowUpdate, E>)
        ensures
            res == (match written {
                Ok(_) => Ok(RowUpdate { id: self.id, fields: self.fields }),
                Err(error) => Err(error),
            }),
    {
        match written {
            Ok(_) => Ok(RowUpdate { id: self.id, fields: self.fields }),
            Err(error) => Err(error),
        }
    }
}

impl RowUpdate {
    /// Ends once the database was updated. Its error is passed on.
    pub fn updated<E>(self, written: Result<(), E>) -> (res: Result<(), E>)
        ensures
            res == written,
    {
        written
    }
}

/// A new record, and where it goes: into the cache under the key, and then
/// into the collection of the database.
#[derive(Debug)]
pub struct Insertion<T> {
    pub key: String,
    pub collection: &'static str,
    pub record: T,
}

/// A record to insert into a collection of the database.
#[derive(Debug)]
pub struct NewRow<T> {
    pub collection: &'static str,
    pub record: T,
}

impl<T> Insertion<T> {
    /// Goes on once the record was written into the cache. An error in
    /// connecting to the cache or in writing to it is passed on, and nothing is
    /// inserted into the database.
    pub fn cached<E>(self, written: Result<(), E>) -> (res: Result<NewRow<T>, E>)
        ensures
            res == (match written {
                Ok(_) => Ok(NewRow { collection: self.collection, record: self.record }),
                Err(error) => Err(error),
            }),
    {
        match written {
            Ok(_) => Ok(NewRow { collection: self.collection, record: self.record }),
            Err(error) => Err(error),
        }
    }
}

impl<T> NewRow<T> {
    /// Ends once the record was inserted into the database. Its error is passed
    /// on; what was written into the cache stays there.
    pub fn inserted<E>(self, written: Result<(), E>) -> (res: Result<(), E>)
        ensures
            res == written,
    {
        written
    }
}

/// The collection of the database that holds the records of a kind.
pub open spec fn collection_of(kind: ItemKind) -> Seq<char> {
    match kind {
        ItemKind::Attachment => ATTACHMENT_COLL_NAME@,
        ItemKind::Channel => CHANNEL_COLL_NAME@,
        ItemKind::Message => MESSAGE_COLL_NAME@,
        ItemKind::User => USER_COLL_NAME@,
    }
}

/// Says what to read and to write where records are fetched and stored. All
/// data is fetched from the cache first, and from the database where the cache
/// does not have it.
#[derive(Debug, Clone, Copy)]
pub struct RedisFetcher;

impl RedisFetcher {
    pub fn new() -> (res: Self)
        ensures
            res == RedisFetcher,
    {
        RedisFetcher
    }

    /// Starts to fetch attachments: those with the ids, or all.
    pub fn fetch_attachments(&self, ids: Option<&[i64]>) -> (res: FetchStep<Attachment>)
        ensures
            starts_fetch(res, ItemKind::Attachment, wanted_ids(ids)),
    {
        fetch_items(ItemKind::Attachment, ids)
    }

    /// Starts to fetch channels: those with the ids, or all.
    pub fn fetch_channels(&self, ids: Option<&[i64]>) -> (res: FetchStep<Channel>)
        ensures
            starts_fetch(res, ItemKind::Channel, wanted_ids(ids)),
    {
        fetch_items(ItemKind::Channel, ids)
    }

    /// Starts to fetch the messages with the ids.
    pub fn fetch_messages(&self, ids: &[i64]) -> (res: FetchStep<Message>)
        ensures
            starts_fetch(res, ItemKind::Message, Some(ids@)),
    {
        fetch_items(ItemKind::Message, Some(ids))
    }

    /// Starts to fetch users: those with the ids, or all.
    pub fn fetch_users(&self, ids: Option<&[i64]>) -> (res: FetchStep<User>)
        ensures
            starts_fetch(res, ItemKind::User, wanted_ids(ids)),
    {
        fetch_items(ItemKind::User, ids)
    }

    /// Starts to fetch a user once there is a connection to the cache. Without
    /// one nobody is looked for, and its error is passed on.
    pub fn fetch_user<E>(&self, connection: Result<(), E>, id: FetchUserId) -> (res: Result<
        UserStep,
        E,
    >)
        ensures
            match connection {
                Ok(_) => res matches Ok(step) && step@ == first_step(id@),
                Err(error) => res == Err::<UserStep, E>(error),
            },
    {
        if let Err(error) = connection {
            return Err(error);
        }
        match id {
            FetchUserId::Id(id) => Ok(UserStep::ReadUser { id, key: ItemKind::User.key(id) }),
            FetchUserId::Token(token) => {
                let key = user_token_key(token.as_str());
                Ok(UserStep::ReadToken { token, key })
            },
        }
    }

    /// Where a new attachment goes.
    pub fn insert_attachment(&self, attachment: Attachment) -> (res: Insertion<Attachment>)
        ensures
            res.key@ == item_key(ItemKind::Attachment, attachment.id),
            res.collection@ == collection_of(ItemKind::Attachment),
            res.record == attachment,
    {
        let kind = ItemKind::Attachment;
        Insertion { key: kind.key(attachment.id), collection: kind.collection(), record: attachment }
    }

    /// Where a new channel goes.
    pub fn insert_channel(&self, channel: Channel) -> (res: Insertion<Channel>)
        ensures
            res.key@ == item_key(ItemKind::Channel, channel.id),
            res.collection@ == collection_of(ItemKind::Channel),
            res.record == channel,
    {
        let kind = ItemKind::Channel;
        Insertion { key: kind.key(channel.id), collection: kind.collection(), record: channel }
    }

    /// Where a new message goes.
    pub fn insert_message(&self, message: Message) -> (res: Insertion<Message>)
        ensures
            res.key@ == item_key(ItemKind::Message, message.id),
            res.collection@ == collection_of(ItemKind::Message),
            res.record == message,
    {
        let kind = ItemKind::Message;
        Insertion { key: kind.key(message.id), collection: kind.collection(), record: message }
    }

    /// Makes the changes to an account once there is a connection to the cache,
    /// and says what to write for them. Without a connection nothing changes,
    /// and its error is passed on.
    pub fn modify_user<E>(
        &self,
        connection: Result<(), E>,
        user: &mut User,
        data: ModifyUser,
    ) -> (res: Result<UserChanges, E>)
        ensures
            match connection {
                Ok(_) => {
                    &&& final(user)@ == modified(old(user)@, data@)
                    &&& res matches Ok(changes)
                    &&& changes.id == old(user).id
                    &&& changes.key@ == item_key(ItemKind::User, old(user).id)
                    &&& field_views(changes.fields@) == changed_fields(data@)
                },
                Err(error) => *final(user) == *old(user) && res == Err::<UserChanges, E>(error),
            },
    {
        if let Err(error) = connection {
            return Err(error);
        }
        let id = user.id;
        let mut fields: Vec<(String, String)> = Vec::new();
        assert(field_views(fields@) =~= Seq::empty());
        if let Some(username) = data.username {
            user.username = username.clone();
            fields.push(("username".to_owned(), username));
            assert(field_views(fields@) =~= seq![("username"@, username@)]);
        }
        let ghost before = fields@;
        if let Some(avatar) = data.avatar {
            user.avatar = Some(avatar.clone());
            fields.push(("avatar".to_owned(), avatar));
            assert(field_views(fields@) =~= field_views(before).push(("avatar"@, avatar@)));
        }
        Ok(UserChanges { id, key: ItemKind::User.key(id), fields })
    }
}

} // verus!
