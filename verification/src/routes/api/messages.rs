//! Messages of a channel: listing and posting them.
use crate::ids::{is_server_id, IdGenerator};
use crate::lists::{lemma_push_contains, lemma_views_all, lemma_views_next, optional_views, views};
use crate::models;
use crate::models::{copy_attachments, Attachment, AttachmentView, Message, MessageView};
use crate::routes::{Refusal, RefusalView, Status, INTERNAL_ERROR};
use crate::ws::server::{
    default_user, public_user, CreateMessage, CreateMessageView, User, UserView,
};
use std::collections::{HashMap, HashSet};
use vstd::prelude::*;

verus! {

broadcast use vstd::std_specs::hash::group_hash_axioms;

/// Which messages of a channel are asked for.
#[derive(Debug, Clone, Copy)]
pub struct GetMessages {
    /// Get messages before this message ID
    pub before: Option<i64>,
    /// Get messages after this message ID
    pub after: Option<i64>,
    /// Max number of messages to return (1-100)
    pub limit: i64,
}

/// `before` of a request that does not give it.
pub fn default_before() -> (res: Option<i64>)
    ensures
        res is None,
{
    None
}

/// `after` of a request that does not give it.
pub fn default_after() -> (res: Option<i64>)
    ensures
        res is None,
{
    None
}

/// `limit` of a request that does not give it.
pub fn default_limit() -> (res: i64)
    ensures
        res == 50,
{
    50
}

/// The order in which a search lists messages by their ids, as the database
/// writes it: ascending.
pub const ID_ORDER: i32 = 1;

/// A search for messages. Of those that it selects, the `limit` with the
/// lowest ids are meant, in ascending order of their ids.
#[derive(Debug, Clone, Copy, PartialEq, Eq, Structural)]
pub struct MessageQuery {
    pub channel_id: i64,
    /// Only messages with a lower id
    pub before: Option<i64>,
    /// Only messages with a higher id
    pub after: Option<i64>,
    pub limit: i64,
}

impl MessageQuery {
    /// Whether the search selects `message`.
    pub open spec fn selects(self, message: MessageView) -> bool {
        &&& message.channel_id == self.channel_id
        &&& self.before matches Some(id) ==> message.id < id
        &&& self.after matches Some(id) ==> message.id > id
    }

    /// Whether `list` is what the search finds among the messages that are
    /// stored: of those that it selects the `limit` with the lowest ids, or all
    /// where there are fewer, in ascending order of their ids.
    pub open spec fn is_answered_by(self, stored: Set<MessageView>, list: Seq<MessageView>) -> bool {
        let selected = stored.filter(|message: MessageView| self.selects(message));
        &&& stored.finite()
        &&& forall|i: int| 0 <= i < list.len() ==> selected.contains(#[trigger] list[i])
        &&& forall|i: int, j: int| 0 <= i < j < list.len() ==> list[i].id < list[j].id
        &&& list.len() == if selected.len() < self.limit {
            selected.len() as int
        } else {
            self.limit as int
        }
        &&& forall|message: MessageView, i: int|
            #![trigger selected.contains(message), list[i]]
            selected.contains(message) && !list.contains(message) && 0 <= i < list.len()
                ==> list[i].id < message.id
    }
}

impl GetMessages {
    /// The search that answers the request in a channel. A limit that is not
    /// between 1 and 100 is refused.
    pub fn query(&self, channel_id: i64) -> (res: Result<MessageQuery, Refusal>)
        ensures
            res is Ok <==> 1 <= self.limit <= 100,
            res matches Ok(q) ==> q == (MessageQuery {
                channel_id,
                before: self.before,
                after: self.after,
                limit: self.limit,
            }),
            res matches Err(refusal) ==> refusal@ == Refusal::of(
                Status::BadRequest,
                "Limit must be between 1 and 100"@,
            ),
    {
        if self.limit < 1 || self.limit > 100 {
            return Err(Refusal::with_body(Status::BadRequest, "Limit must be between 1 and 100"));
        }
        Ok(
            MessageQuery {
                channel_id,
                before: self.before,
                after: self.after,
                limit: self.limit,
            },
        )
    }
}

/// A message as it is listed.
#[derive(Debug, PartialEq, Eq)]
pub struct GetMessage {
    /// The id of the message
    pub id: i64,
    /// The id of the channel the message was sent in
    pub channel_id: i64,
    /// The content of the message
    pub content: String,
    /// Unix timestamp for when the message was created
    pub created_at: usize,
    /// User who sent the message
    pub author: User,
    /// Attachments of the message
    pub attachments: Option<Vec<Attachment>>,
}

pub struct GetMessageView {
    pub id: i64,
    pub channel_id: i64,
    pub content: Seq<char>,
    pub created_at: usize,
    pub author: UserView,
    pub attachments: Option<Seq<AttachmentView>>,
}

impl View for GetMessage {
    type V = GetMessageView;

    open spec fn view(&self) -> GetMessageView {
        GetMessageView {
            id: self.id,
            channel_id: self.channel_id,
            content: self.content@,
            created_at: self.created_at,
            author: self.author@,
            attachments: optional_views(self.attachments),
        }
    }
}

impl Clone for GetMessage {
    fn clone(&self) -> (res: Self)
        ensures
            res@ == self@,
    {
        GetMessage {
            id: self.id,
            channel_id: self.channel_id,
            content: self.content.clone(),
            created_at: self.created_at,
            author: self.author.clone(),
            attachments: match &self.attachments {
                Some(list) => Some(copy_attachments(list)),
                None => None,
            },
        }
    }
}

impl Default for GetMessage {
    fn default() -> (res: Self)
        ensures
            res@ == (GetMessageView {
                id: 0,
                channel_id: 0,
                content: Seq::empty(),
                created_at: 0,
                author: default_user(),
                attachments: None,
            }),
    {
        GetMessage {
            id: 0,
            channel_id: 0,
            content: String::new(),
            created_at: 0,
            author: User::default(),
            attachments: None,
        }
    }
}

/// The ids of all attachments of the messages, in order.
pub open spec fn all_attachment_ids(messages: Seq<MessageView>) -> Seq<i64>
    decreases messages.len(),
{
    if messages.len() == 0 {
        Seq::empty()
    } else {
        let ids = all_attachment_ids(messages.drop_last());
        match messages.last().attachments {
            Some(more) => ids + more,
            None => ids,
        }
    }
}

/// The authors of the messages.
pub open spec fn authors(messages: Seq<MessageView>) -> Set<i64> {
    messages.map_values(|m: MessageView| m.author_id).to_set()
}

/// What is shown of the users, by id. Of two with one id the later counts.
pub open spec fn user_table(users: Seq<models::UserView>) -> Map<i64, UserView>
    decreases users.len(),
{
    if users.len() == 0 {
        Map::empty()
    } else {
        user_table(users.drop_last()).insert(users.last().id, public_user(users.last()))
    }
}

/// The attachments by id. Of two with one id the later counts.
pub open spec fn attachment_table(attachments: Seq<AttachmentView>) -> Map<i64, AttachmentView>
    decreases attachments.len(),
{
    if attachments.len() == 0 {
        Map::empty()
    } else {
        attachment_table(attachments.drop_last()).insert(
            attachments.last().id,
            attachments.last(),
        )
    }
}

/// The attachments with the ids, in order, without those that are not there.
pub open spec fn found_attachments(
    ids: Seq<i64>,
    table: Map<i64, AttachmentView>,
) -> Seq<AttachmentView>
    decreases ids.len(),
{
    if ids.len() == 0 {
        Seq::empty()
    } else {
        let found = found_attachments(ids.drop_last(), table);
        if table.contains_key(ids.last()) {
            found.push(table[ids.last()])
        } else {
            found
        }
    }
}

/// The author that is shown where the real one is not known any more.
pub open spec fn deleted_user() -> UserView {
    UserView { username: "Deleted User"@, ..default_user() }
}

/// The author that is shown for `author_id`. With `redact`, an author who is
/// not in the table is shown as deleted; without it, as a blank user. Author 0
/// is always shown as deleted.
pub open spec fn shown_author(
    author_id: i64,
    users: Map<i64, UserView>,
    redact: bool,
) -> UserView {
    if author_id == 0 || redact && !users.contains_key(author_id) {
        deleted_user()
    } else if users.contains_key(author_id) {
        users[author_id]
    } else {
        default_user()
    }
}

/// A message as it is listed.
pub open spec fn shown_message(
    message: MessageView,
    users: Map<i64, UserView>,
    attachments: Map<i64, AttachmentView>,
    redact: bool,
) -> GetMessageView {
    GetMessageView {
        id: message.id,
        channel_id: message.channel_id,
        content: message.content,
        created_at: message.created_at,
        author: shown_author(message.author_id, users, redact),
        attachments: match message.attachments {
            Some(ids) => Some(found_attachments(ids, attachments)),
            None => None,
        },
    }
}

/// The messages as they are listed, given the users and attachments that were
/// fetched for them. Missing authors are redacted when fewer users than
/// authors were found.
pub open spec fn shown_messages(
    messages: Seq<MessageView>,
    attachments: Seq<AttachmentView>,
    users: Seq<models::UserView>,
) -> Seq<GetMessageView> {
    let redact = user_table(users).len() < authors(messages).len();
    Seq::new(
        messages.len(),
        |i: int|
            shown_message(
                messages[i],
                user_table(users),
                attachment_table(attachments),
                redact,
            ),
    )
}

/// Messages that were found, while their authors and attachments are fetched.
#[derive(Debug)]
pub struct MessagePage {
    pub messages: Vec<Message>,
}

/// The views of a hash map's values.
spec fn table_views<T: View>(table: Map<i64, T>) -> Map<i64, T::V> {
    table.map_values(|v: T| v@)
}

proof fn lemma_table_insert<T: View>(table: Map<i64, T>, key: i64, value: T)
    ensures
        table_views(table.insert(key, value)) == table_views(table).insert(key, value@),
{
    assert(table_views(table.insert(key, value)) =~= table_views(table).insert(key, value@));
}

fn tabulate_users(users: &Vec<models::User>) -> (table: HashMap<i64, User>)
    ensures
        table_views(table@) == user_table(views(users@)),
{
    let mut table: HashMap<i64, User> = HashMap::new();
    assert(table_views(table@) =~= Map::empty());
    for i in 0..users.len()
        invariant
            table_views(table@) == user_table(views(users@.take(i as int))),
    {
        proof {
            lemma_views_next(users@, i as int);
        }
        let user = User::from(users[i].clone());
        proof {
            lemma_table_insert(table@, user.id, user);
        }
        table.insert(user.id, user);
    }
    proof {
        lemma_views_all(users@);
    }
    table
}

fn tabulate_attachments(attachments: &Vec<Attachment>) -> (table: HashMap<i64, Attachment>)
    ensures
        table_views(table@) == attachment_table(views(attachments@)),
{
    let mut table: HashMap<i64, Attachment> = HashMap::new();
    assert(table_views(table@) =~= Map::empty());
    for i in 0..attachments.len()
        invariant
            table_views(table@) == attachment_table(views(attachments@.take(i as int))),
    {
        proof {
            lemma_views_next(attachments@, i as int);
        }
        let attachment = attachments[i].clone();
        proof {
            lemma_table_insert(table@, attachment.id, attachment);
        }
        table.insert(attachment.id, attachment);
    }
    proof {
        lemma_views_all(attachments@);
    }
    table
}

fn find_attachments(ids: &Vec<i64>, table: &HashMap<i64, Attachment>) -> (res: Vec<Attachment>)
    ensures
        views(res@) == found_attachments(ids@, table_views(table@)),
{
    let mut res: Vec<Attachment> = Vec::new();
    for i in 0..ids.len()
        invariant
            views(res@) == found_attachments(ids@.take(i as int), table_views(table@)),
    {
        assert(ids@.take(i + 1).drop_last() =~= ids@.take(i as int));
        if let Some(attachment) = table.get(&ids[i]) {
            let ghost before = res@;
            res.push(attachment.clone());
            assert(views(res@) =~= views(before).push(attachment@));
        }
    }
    assert(ids@.take(ids.len() as int) =~= ids@);
    res
}

impl MessagePage {
    /// What the search for messages came to. A search that failed is answered
    /// with an internal error.
    pub fn found(result: Option<Vec<Message>>) -> (res: Result<Self, Refusal>)
        ensures
            res is Ok <==> result is Some,
            res matches Ok(page) ==> page.messages == result->0,
            res matches Err(refusal) ==> refusal@ == Refusal::of(
                Status::InternalServerError,
                INTERNAL_ERROR@,
            ),
    {
        match result {
            Some(messages) => Ok(MessagePage { messages }),
            None => Err(Refusal::internal()),
        }
    }

    /// The attachments to fetch.
    pub fn attachment_ids(&self) -> (res: Vec<i64>)
        ensures
            res@ == all_attachment_ids(views(self.messages@)),
    {
        let mut res: Vec<i64> = Vec::new();
        for i in 0..self.messages.len()
            invariant
                res@ == all_attachment_ids(views(self.messages@.take(i as int))),
        {
            proof {
                lemma_views_next(self.messages@, i as int);
            }
            if let Some(ids) = &self.messages[i].attachments {
                let ghost before = res@;
                for j in 0..ids.len()
                    invariant
                        res@ == before + ids@.take(j as int),
                {
                    res.push(ids[j]);
                    assert(ids@.take(j + 1) =~= ids@.take(j as int).push(ids@[j as int]));
                }
                assert(ids@.take(ids.len() as int) =~= ids@);
            }
        }
        proof {
            lemma_views_all(self.messages@);
        }
        res
    }

    /// The users to fetch: every author once.
    pub fn author_ids(&self) -> (res: Vec<i64>)
        ensures
            res@.no_duplicates(),
            res@.to_set() == authors(views(self.messages@)),
    {
        let mut seen: HashSet<i64> = HashSet::new();
        let mut res: Vec<i64> = Vec::new();
        for i in 0..self.messages.len()
            invariant
                res@.no_duplicates(),
                forall|id: i64| #![auto] seen@.contains(id) <==> res@.contains(id),
                forall|id: i64|
                    #![auto]
                    seen@.contains(id) <==> authors(
                        views(self.messages@.take(i as int)),
                    ).contains(id),
        {
            let id = self.messages[i].author_id;
            proof {
                lemma_views_next(self.messages@, i as int);
                lemma_authors_push(views(self.messages@.take(i as int)), self.messages@[i as int]@);
            }
            let ghost before = res@;
            if seen.insert(id) {
                res.push(id);
                proof {
                    lemma_push_contains(before, id);
                }
            }
        }
        proof {
            lemma_views_all(self.messages@);
            assert(res@.to_set() =~= authors(views(self.messages@)));
        }
        res
    }

    /// The answer, once attachments and users were fetched. Attachments that
    /// could not be fetched are left out; without users there is no answer.
    pub fn finish(
        self,
        attachments: Option<Vec<Attachment>>,
        users: Option<Vec<models::User>>,
    ) -> (res: Result<Vec<GetMessage>, Refusal>)
        ensures
            res is Ok <==> users is Some,
            res matches Ok(list) ==> views(list@) == shown_messages(
                views(self.messages@),
                match attachments {
                    Some(found) => views(found@),
                    None => Seq::empty(),
                },
                views(users->0@),
            ),
            res matches Err(refusal) ==> refusal@ == Refusal::of(
                Status::InternalServerError,
                INTERNAL_ERROR@,
            ),
    {
        let attachments = match attachments {
            Some(found) => found,
            None => Vec::new(),
        };
        let users = match users {
            Some(found) => found,
            None => return Err(Refusal::internal()),
        };
        let attachment_by_id = tabulate_attachments(&attachments);
        let user_ids = self.author_ids();
        let user_by_id = tabulate_users(&users);
        let redact = user_by_id.len() < user_ids.len();
        proof {
            user_ids@.unique_seq_to_set();
            lemma_table_len(user_by_id@);
        }
        let mut list: Vec<GetMessage> = Vec::new();
        for i in 0..self.messages.len()
            invariant
                table_views(user_by_id@) == user_table(views(users@)),
                table_views(attachment_by_id@) == attachment_table(views(attachments@)),
                list@.len() == i,
                forall|j: int|
                    0 <= j < i ==> (#[trigger] list@[j])@ == shown_message(
                        self.messages@[j]@,
                        user_table(views(users@)),
                        attachment_table(views(attachments@)),
                        redact,
                    ),
        {
            let message = &self.messages[i];
            let author = show_author(message.author_id, &user_by_id, redact);
            let shown = match &message.attachments {
                Some(ids) => Some(find_attachments(ids, &attachment_by_id)),
                None => None,
            };
            list.push(
                GetMessage {
                    id: message.id,
                    channel_id: message.channel_id,
                    content: message.content.clone(),
                    created_at: message.created_at,
                    author,
                    attachments: shown,
                },
            );
        }
        Ok(list)
    }
}

fn show_author(author_id: i64, users: &HashMap<i64, User>, redact: bool) -> (res: User)
    ensures
        res@ == shown_author(author_id, table_views(users@), redact),
{
    if author_id == 0 || redact && !users.contains_key(&author_id) {
        return User { username: "Deleted User".to_owned(), ..User::default() };
    }
    match users.get(&author_id) {
        Some(user) => user.clone(),
        None => User::default(),
    }
}

proof fn lemma_table_len<T: View>(table: Map<i64, T>)
    ensures
        table_views(table).len() == table.len(),
{
    assert(table_views(table).dom() =~= table.dom());
}

proof fn lemma_authors_push(messages: Seq<MessageView>, next: MessageView)
    ensures
        forall|id: i64|
            #[trigger] authors(messages.push(next)).contains(id) <==> authors(messages).contains(id)
                || id == next.author_id,
{
    let ids = messages.map_values(|m: MessageView| m.author_id);
    let more = messages.push(next).map_values(|m: MessageView| m.author_id);
    assert(more =~= ids.push(next.author_id));
    lemma_push_contains(ids, next.author_id);
}

/// Whether the attachments that a message names were all found.
pub open spec fn attachments_exist(message: CreateMessage, found: Option<Vec<Attachment>>) -> bool {
    message.attachments matches Some(ids) ==> ids@.len() == (match found {
        Some(list) => list@.len(),
        None => 0,
    })
}

/// A message with the attachments that were found for it.
pub open spec fn with_attachments(
    message: CreateMessageView,
    found: Option<Vec<Attachment>>,
) -> CreateMessageView {
    if message.attachments is Some {
        CreateMessageView {
            attachments_raw: Some(
                match found {
                    Some(list) => views(list@),
                    None => Seq::empty(),
                },
            ),
            ..message
        }
    } else {
        message
    }
}

/// A message with its id, in its channel, by its author.
pub open spec fn addressed(
    message: CreateMessageView,
    id: i64,
    channel_id: i64,
    author: UserView,
) -> CreateMessageView {
    CreateMessageView { id, channel_id, author, ..message }
}

impl CreateMessage {
    /// Adds the attachments that were fetched for the message's ids, where it
    /// has any. As many must have been found as it names.
    pub fn attach(self, found: Option<Vec<Attachment>>) -> (res: Result<CreateMessage, Refusal>)
        ensures
            res is Ok <==> attachments_exist(self, found),
            res matches Ok(message) ==> message@ == with_attachments(self@, found),
            res matches Err(refusal) ==> refusal@ == Refusal::of(
                Status::BadRequest,
                "Attachments do not exist!"@,
            ),
    {
        let mut message = self;
        if let Some(ids) = &message.attachments {
            let list = match found {
                Some(list) => list,
                None => Vec::new(),
            };
            if list.len() != ids.len() {
                return Err(Refusal::with_body(Status::BadRequest, "Attachments do not exist!"));
            }
            proof {
                assert(found is None ==> views(list@) =~= Seq::empty());
            }
            message.attachments_raw = Some(list);
        }
        Ok(message)
    }

    /// Gives the message the next id, its channel and its author.
    pub fn address(
        self,
        channel_id: i64,
        user: models::User,
        ids: &mut IdGenerator,
    ) -> (res: CreateMessage)
        ensures
            is_server_id(res.id),
            res@ == addressed(self@, res.id, channel_id, public_user(user@)),
            final(ids).place() == old(ids).place(),
            final(ids).epoch() == old(ids).epoch(),
    {
        let id = ids.generate();
        self.address_as(id, channel_id, user)
    }

    /// Gives the message an id, its channel and its author.
    pub fn address_as(self, id: i64, channel_id: i64, user: models::User) -> (res: CreateMessage)
        ensures
            res@ == addressed(self@, id, channel_id, public_user(user@)),
    {
        let mut message = self;
        message.id = id;
        message.channel_id = channel_id;
        message.author = User::from(user);
        message
    }

    /// The message as it is stored.
    pub fn record(&self) -> (res: Message)
        ensures
            res@ == self@.stored(),
    {
        Message::from(self.clone())
    }
}

/// The message to give the server, once its record was stored. Where it could
/// not be, the server does not get it.
pub fn message_stored(message: CreateMessage, success: bool) -> (res: Result<
    CreateMessage,
    Refusal,
>)
    ensures
        res is Ok <==> success,
        res matches Ok(same) ==> same == message,
        res matches Err(refusal) ==> refusal@ == Refusal::of(
            Status::InternalServerError,
            INTERNAL_ERROR@,
        ),
{
    if !success {
        return Err(Refusal::internal());
    }
    Ok(message)
}

/// What is answered where the server took the message or did not, or did not
/// answer.
pub open spec fn message_refusal(answer: Option<Option<CreateMessage>>) -> Option<RefusalView> {
    match answer {
        Some(Some(_)) => None,
        Some(None) => Some(Refusal::of(Status::BadRequest, "Channel does not exist!"@)),
        None => Some(Refusal::of(Status::InternalServerError, INTERNAL_ERROR@)),
    }
}

/// The answer to a request to post a message.
pub fn create_message(answer: Option<Option<CreateMessage>>) -> (res: Result<
    CreateMessage,
    Refusal,
>)
    ensures
        res is Ok <==> message_refusal(answer) is None,
        res matches Ok(message) ==> answer == Some(Some(message)),
        res matches Err(refusal) ==> Some(refusal@) == message_refusal(answer),
{
    match answer {
        Some(Some(message)) => Ok(message),
        Some(None) => Err(Refusal::with_body(Status::BadRequest, "Channel does not exist!")),
        None => Err(Refusal::internal()),
    }
}

proof fn lemma_user_table(users: Seq<models::UserView>)
    ensures
        user_table(users).dom().finite(),
        forall|id: i64| #[trigger]
            user_table(users).contains_key(id) <==> exists|i: int|
                0 <= i < users.len() && (#[trigger] users[i]).id == id,
    decreases users.len(),
{
    if users.len() > 0 {
        let rest = users.drop_last();
        lemma_user_table(rest);
        assert forall|id: i64| #[trigger] user_table(users).contains_key(id) <==> exists|i: int|
            0 <= i < users.len() && (#[trigger] users[i]).id == id by {
            if user_table(rest).contains_key(id) {
                let i = choose|i: int| 0 <= i < rest.len() && (#[trigger] rest[i]).id == id;
                assert(users[i].id == id);
            }
            if id == users.last().id {
                assert(users[users.len() - 1].id == id);
            }
            if exists|i: int| 0 <= i < users.len() && (#[trigger] users[i]).id == id {
                let i = choose|i: int| 0 <= i < users.len() && (#[trigger] users[i]).id == id;
                if i < users.len() - 1 {
                    assert(rest[i].id == id);
                }
            }
        }
    }
}

/// Where only users were fetched that were asked for, every message whose
/// author is not among them is listed as written by a deleted user.
pub proof fn law_missing_authors_are_redacted(
    messages: Seq<MessageView>,
    attachments: Seq<AttachmentView>,
    users: Seq<models::UserView>,
    i: int,
)
    requires
        0 <= i < messages.len(),
        forall|j: int| 0 <= j < users.len() ==> authors(messages).contains(#[trigger] users[j].id),
        forall|j: int| 0 <= j < users.len() ==> (#[trigger] users[j]).id != messages[i].author_id,
    ensures
        shown_messages(messages, attachments, users)[i].author == deleted_user(),
{
    let table = user_table(users);
    let ids = messages.map_values(|m: MessageView| m.author_id);
    let all = authors(messages);
    let missing = messages[i].author_id;
    lemma_user_table(users);
    assert(!table.contains_key(missing));
    assert(ids[i] == missing);
    assert(all.contains(missing));
    vstd::seq_lib::seq_to_set_is_finite(ids);
    assert(table.dom().subset_of(all.remove(missing))) by {
        assert forall|id: i64| table.dom().contains(id) implies all.remove(missing).contains(
            id,
        ) by {
            assert(table.contains_key(id));
        }
    }
    vstd::set_lib::lemma_len_subset(table.dom(), all.remove(missing));
}

/// Every message is listed, in the order in which it was found, with its own
/// id, channel, content and time.
pub proof fn law_listing_keeps_messages(
    messages: Seq<MessageView>,
    attachments: Seq<AttachmentView>,
    users: Seq<models::UserView>,
)
    ensures
        shown_messages(messages, attachments, users).len() == messages.len(),
        forall|i: int|
            0 <= i < messages.len() ==> {
                let shown = #[trigger] shown_messages(messages, attachments, users)[i];
                &&& shown.id == messages[i].id
                &&& shown.channel_id == messages[i].channel_id
                &&& shown.content == messages[i].content
                &&& shown.created_at == messages[i].created_at
                &&& shown.attachments is Some <==> messages[i].attachments is Some
            },
{
}

/// Where an author other than 0 was fetched, the message shows that author.
pub proof fn law_known_authors_are_shown(
    messages: Seq<MessageView>,
    attachments: Seq<AttachmentView>,
    users: Seq<models::UserView>,
    i: int,
)
    requires
        0 <= i < messages.len(),
        messages[i].author_id != 0,
        exists|j: int| 0 <= j < users.len() && (#[trigger] users[j]).id == messages[i].author_id,
    ensures
        shown_messages(messages, attachments, users)[i].author == user_table(
            users,
        )[messages[i].author_id],
        shown_messages(messages, attachments, users)[i].author.id == messages[i].author_id,
{
    lemma_user_table(users);
    lemma_user_table_ids(users, messages[i].author_id);
}

proof fn lemma_user_table_ids(users: Seq<models::UserView>, id: i64)
    requires
        user_table(users).contains_key(id),
    ensures
        user_table(users)[id].id == id,
    decreases users.len(),
{
    if users.last().id != id {
        lemma_user_table_ids(users.drop_last(), id);
    }
}

proof fn lemma_attachment_table(attachments: Seq<AttachmentView>, id: i64)
    ensures
        attachment_table(attachments).contains_key(id) <==> exists|j: int|
            0 <= j < attachments.len() && (#[trigger] attachments[j]).id == id,
        attachment_table(attachments).contains_key(id) ==> attachment_table(attachments)[id].id
            == id && attachments.contains(attachment_table(attachments)[id]),
    decreases attachments.len(),
{
    if attachments.len() > 0 {
        let rest = attachments.drop_last();
        let last = attachments.last();
        lemma_attachment_table(rest, id);
        lemma_push_contains(rest, last);
        assert(attachments =~= rest.push(last));
        assert(attachments[attachments.len() - 1] == last);
        if attachment_table(rest).contains_key(id) {
            let j = choose|j: int| 0 <= j < rest.len() && (#[trigger] rest[j]).id == id;
            assert(attachments[j].id == id);
        }
        if exists|j: int| 0 <= j < attachments.len() && (#[trigger] attachments[j]).id == id {
            let j = choose|j: int|
                0 <= j < attachments.len() && (#[trigger] attachments[j]).id == id;
            if j < rest.len() {
                assert(rest[j].id == id);
            }
        }
        if attachment_table(attachments).contains_key(id) {
            assert(attachments.contains(attachment_table(attachments)[id]));
        }
    }
}

/// Where all attachments that a message names were fetched, it is listed with
/// each of them, in the order in which it names them.
pub proof fn law_named_attachments_are_listed(ids: Seq<i64>, attachments: Seq<AttachmentView>)
    requires
        forall|k: int|
            0 <= k < ids.len() ==> attachment_table(attachments).contains_key(#[trigger] ids[k]),
    ensures
        ({
            let shown = found_attachments(ids, attachment_table(attachments));
            &&& shown.len() == ids.len()
            &&& forall|k: int|
                0 <= k < ids.len() ==> (#[trigger] shown[k]).id == ids[k] && attachments.contains(
                    shown[k],
                )
        }),
    decreases ids.len(),
{
    if ids.len() > 0 {
        let rest = ids.drop_last();
        assert forall|k: int| 0 <= k < rest.len() implies attachment_table(
            attachments,
        ).contains_key(#[trigger] rest[k]) by {
            assert(rest[k] == ids[k]);
        }
        law_named_attachments_are_listed(rest, attachments);
        assert(ids.last() == ids[ids.len() - 1]);
        lemma_attachment_table(attachments, ids.last());
    }
}

/// A message is listed with no attachment that it does not name or that was not
/// fetched.
pub proof fn law_listed_attachments_were_named(
    ids: Seq<i64>,
    attachments: Seq<AttachmentView>,
    k: int,
)
    requires
        0 <= k < found_attachments(ids, attachment_table(attachments)).len(),
    ensures
        ({
            let shown = found_attachments(ids, attachment_table(attachments));
            ids.contains(shown[k].id) && attachments.contains(shown[k])
        }),
    decreases ids.len(),
{
    if ids.len() > 0 {
        let rest = ids.drop_last();
        let table = attachment_table(attachments);
        lemma_push_contains(rest, ids.last());
        assert(ids =~= rest.push(ids.last()));
        if k < found_attachments(rest, table).len() {
            law_listed_attachments_were_named(rest, attachments, k);
        } else {
            lemma_attachment_table(attachments, ids.last());
        }
    }
}

/// What is stored of a message and what its channel hears agree in id, channel,
/// author, content and time.
pub proof fn law_stored_and_announced_agree(message: CreateMessageView)
    ensures
        message.stored().id == message.announced().id,
        message.stored().channel_id == message.announced().channel_id,
        message.stored().author_id == message.announced().author.id,
        message.stored().content == message.announced().content,
        message.stored().created_at == message.announced().created_at,
{
}

/// The messages that a request selects are those of its channel, before the
/// one bound and after the other, where they are given.
pub proof fn law_messages_lie_between_the_bounds(
    request: GetMessages,
    channel_id: i64,
    message: MessageView,
)
    ensures
        (MessageQuery {
            channel_id,
            before: request.before,
            after: request.after,
            limit: request.limit,
        }).selects(message) <==> {
            &&& message.channel_id == channel_id
            &&& request.before matches Some(id) ==> message.id < id
            &&& request.after matches Some(id) ==> message.id > id
        },
{
}

/// Where no two stored messages have one id, a search has only one answer.
pub proof fn law_a_search_has_one_answer(
    query: MessageQuery,
    stored: Set<MessageView>,
    list: Seq<MessageView>,
    other: Seq<MessageView>,
)
    requires
        query.is_answered_by(stored, list),
        query.is_answered_by(stored, other),
        forall|a: MessageView, b: MessageView| #[trigger]
            stored.contains(a) && #[trigger] stored.contains(b) && a.id == b.id ==> a == b,
    ensures
        list == other,
{
    lemma_answers_agree(query, stored, list, other, list.len());
    assert(list =~= other);
}

proof fn lemma_answers_agree(
    query: MessageQuery,
    stored: Set<MessageView>,
    list: Seq<MessageView>,
    other: Seq<MessageView>,
    count: nat,
)
    requires
        query.is_answered_by(stored, list),
        query.is_answered_by(stored, other),
        forall|a: MessageView, b: MessageView| #[trigger]
            stored.contains(a) && #[trigger] stored.contains(b) && a.id == b.id ==> a == b,
        count <= list.len(),
    ensures
        forall|i: int| 0 <= i < count ==> list[i] == other[i],
    decreases count,
{
    if count > 0 {
        let last = count - 1;
        lemma_answers_agree(query, stored, list, other, last as nat);
        let a = list[last];
        let b = other[last];
        assert(stored.contains(a) && stored.contains(b));
        if a.id < b.id {
            lemma_is_left_out(other, a, last);
        }
        if b.id < a.id {
            lemma_is_left_out(list, b, last);
        }
    }
}

/// What comes before `list[at]` and after all that comes before that is not in
/// an ascending list.
proof fn lemma_is_left_out(list: Seq<MessageView>, message: MessageView, at: int)
    requires
        0 <= at < list.len(),
        forall|i: int, j: int| 0 <= i < j < list.len() ==> list[i].id < list[j].id,
        forall|i: int| 0 <= i < at ==> list[i].id < message.id,
        message.id < list[at].id,
    ensures
        !list.contains(message),
{
}

/// What is listed for the answer to a search is that answer: as many messages,
/// in strictly ascending order of their ids, each with the id, channel, content
/// and time of the message that was found. A message that the search selects
/// and that is not listed has a higher id than all that are.
pub proof fn law_listing_answers_the_search(
    query: MessageQuery,
    stored: Set<MessageView>,
    messages: Seq<MessageView>,
    attachments: Seq<AttachmentView>,
    users: Seq<models::UserView>,
)
    requires
        query.is_answered_by(stored, messages),
    ensures
        ({
            let shown = shown_messages(messages, attachments, users);
            &&& shown.len() == messages.len()
            &&& shown.len() <= query.limit
            &&& forall|i: int, j: int| 0 <= i < j < shown.len() ==> shown[i].id < shown[j].id
            &&& forall|i: int|
                0 <= i < shown.len() ==> {
                    &&& stored.contains(messages[i]) && query.selects(messages[i])
                    &&& (#[trigger] shown[i]).id == messages[i].id
                    &&& shown[i].channel_id == query.channel_id
                    &&& shown[i].content == messages[i].content
                    &&& shown[i].created_at == messages[i].created_at
                }
            &&& forall|message: MessageView, i: int|
                #![trigger stored.contains(message), shown[i]]
                stored.contains(message) && query.selects(message) && !messages.contains(message)
                    && 0 <= i < shown.len() ==> shown[i].id < message.id
        }),
{
    let selected = stored.filter(|message: MessageView| query.selects(message));
    let shown = shown_messages(messages, attachments, users);
    assert forall|i: int| 0 <= i < shown.len() implies selected.contains(messages[i]) by {}
    assert forall|i: int| 0 <= i < shown.len() implies (#[trigger] shown[i]).id
        == messages[i].id && query.selects(messages[i]) by {
        assert(selected.contains(messages[i]));
    }
    assert forall|message: MessageView, i: int|
        #![trigger stored.contains(message), shown[i]]
        stored.contains(message) && query.selects(message) && !messages.contains(message) && 0 <= i
            < shown.len() implies shown[i].id < message.id by {
        assert(selected.contains(message));
        assert(messages[i].id < message.id);
    }
}

proof fn lemma_found_attachments_join(
    a: Seq<i64>,
    b: Seq<i64>,
    table: Map<i64, AttachmentView>,
)
    ensures
        found_attachments(a + b, table) == found_attachments(a, table) + found_attachments(
            b,
            table,
        ),
    decreases b.len(),
{
    if b.len() == 0 {
        assert(a + b =~= a);
        assert(found_attachments(a, table) + found_attachments(b, table) =~= found_attachments(
            a,
            table,
        ));
    } else {
        assert((a + b).drop_last() =~= a + b.drop_last());
        lemma_found_attachments_join(a, b.drop_last(), table);
        assert(found_attachments(a + b, table) =~= found_attachments(a, table)
            + found_attachments(b, table));
    }
}

proof fn lemma_last_attachment_counts(attachments: Seq<AttachmentView>, j: int)
    requires
        0 <= j < attachments.len(),
        forall|k: int|
            j < k < attachments.len() ==> (#[trigger] attachments[k]).id != attachments[j].id,
    ensures
        attachment_table(attachments).contains_key(attachments[j].id),
        attachment_table(attachments)[attachments[j].id] == attachments[j],
    decreases attachments.len(),
{
    if j < attachments.len() - 1 {
        let rest = attachments.drop_last();
        assert(attachments[attachments.len() - 1].id != attachments[j].id);
        assert forall|k: int| j < k < rest.len() implies (#[trigger] rest[k]).id != rest[j].id by {
            assert(attachments[k].id != attachments[j].id);
        }
        lemma_last_attachment_counts(rest, j);
    }
}

proof fn lemma_last_user_counts(users: Seq<models::UserView>, j: int)
    requires
        0 <= j < users.len(),
        forall|k: int| j < k < users.len() ==> (#[trigger] users[k]).id != users[j].id,
    ensures
        user_table(users).contains_key(users[j].id),
        user_table(users)[users[j].id] == public_user(users[j]),
    decreases users.len(),
{
    if j < users.len() - 1 {
        let rest = users.drop_last();
        assert(users[users.len() - 1].id != users[j].id);
        assert forall|k: int| j < k < rest.len() implies (#[trigger] rest[k]).id != rest[j].id by {
            assert(users[k].id != users[j].id);
        }
        lemma_last_user_counts(rest, j);
    }
}

/// Every message of a page whose attachments were all fetched is listed with
/// each of them, in the order in which it names them, wherever on the page it
/// stands.
pub proof fn law_every_message_shows_its_attachments(
    messages: Seq<MessageView>,
    attachments: Seq<AttachmentView>,
    users: Seq<models::UserView>,
    i: int,
    ids: Seq<i64>,
)
    requires
        0 <= i < messages.len(),
        messages[i].attachments == Some(ids),
        forall|k: int|
            0 <= k < ids.len() ==> exists|j: int|
                0 <= j < attachments.len() && (#[trigger] attachments[j]).id == #[trigger] ids[k],
    ensures
        ({
            let shown = shown_messages(messages, attachments, users)[i].attachments;
            &&& shown is Some
            &&& shown->0.len() == ids.len()
            &&& forall|k: int|
                0 <= k < ids.len() ==> (#[trigger] shown->0[k]).id == ids[k]
                    && attachments.contains(shown->0[k])
        }),
{
    assert forall|k: int| 0 <= k < ids.len() implies attachment_table(attachments).contains_key(
        #[trigger] ids[k],
    ) by {
        lemma_attachment_table(attachments, ids[k]);
    }
    law_named_attachments_are_listed(ids, attachments);
}

/// A message that names one attachment is listed with the one that was fetched
/// under that id, the last where there are more, and with none where none was.
pub proof fn law_one_attachment_is_shown_if_fetched(
    messages: Seq<MessageView>,
    attachments: Seq<AttachmentView>,
    users: Seq<models::UserView>,
    i: int,
    id: i64,
    j: int,
)
    requires
        0 <= i < messages.len(),
        messages[i].attachments == Some(seq![id]),
    ensures
        0 <= j < attachments.len() && attachments[j].id == id && (forall|k: int|
            j < k < attachments.len() ==> (#[trigger] attachments[k]).id != id) ==> shown_messages(
            messages,
            attachments,
            users,
        )[i].attachments == Some(seq![attachments[j]]),
        (forall|k: int| 0 <= k < attachments.len() ==> (#[trigger] attachments[k]).id != id)
            ==> shown_messages(messages, attachments, users)[i].attachments == Some(
            Seq::<AttachmentView>::empty(),
        ),
{
    let table = attachment_table(attachments);
    reveal_with_fuel(found_attachments, 2);
    assert(seq![id].drop_last() =~= Seq::<i64>::empty());
    lemma_attachment_table(attachments, id);
    if 0 <= j < attachments.len() && attachments[j].id == id && (forall|k: int|
        j < k < attachments.len() ==> (#[trigger] attachments[k]).id != id) {
        lemma_last_attachment_counts(attachments, j);
        assert(found_attachments(seq![id], table) =~= seq![attachments[j]]);
    }
}

/// The attachments that a message names one after the other are listed one after
/// the other: those of the first ids, then those of the others.
pub proof fn law_attachments_are_shown_in_order(
    messages: Seq<MessageView>,
    attachments: Seq<AttachmentView>,
    users: Seq<models::UserView>,
    i: int,
    first: Seq<i64>,
    rest: Seq<i64>,
)
    requires
        0 <= i < messages.len(),
        messages[i].attachments == Some(first + rest),
    ensures
        ({
            let with_first = messages.update(
                i,
                MessageView { attachments: Some(first), ..messages[i] },
            );
            let with_rest = messages.update(
                i,
                MessageView { attachments: Some(rest), ..messages[i] },
            );
            let all = shown_messages(messages, attachments, users)[i].attachments;
            let before = shown_messages(with_first, attachments, users)[i].attachments;
            let after = shown_messages(with_rest, attachments, users)[i].attachments;
            &&& all is Some && before is Some && after is Some
            &&& all->0 == before->0 + after->0
        }),
{
    lemma_found_attachments_join(first, rest, attachment_table(attachments));
}

/// Messages that are alike are listed alike, wherever on the page they stand.
pub proof fn law_the_place_on_a_page_does_not_matter(
    messages: Seq<MessageView>,
    attachments: Seq<AttachmentView>,
    users: Seq<models::UserView>,
    i: int,
    j: int,
)
    requires
        0 <= i < messages.len(),
        0 <= j < messages.len(),
        messages[i] == messages[j],
    ensures
        shown_messages(messages, attachments, users)[i] == shown_messages(
            messages,
            attachments,
            users,
        )[j],
{
}

/// A message whose author was fetched, and is not the one that stands for
/// deleted users, is listed with that author's id, username, avatar and time.
/// Where several users were fetched under one id it is the last.
pub proof fn law_authors_are_those_who_wrote(
    messages: Seq<MessageView>,
    attachments: Seq<AttachmentView>,
    users: Seq<models::UserView>,
    i: int,
    j: int,
)
    requires
        0 <= i < messages.len(),
        0 <= j < users.len(),
        users[j].id == messages[i].author_id,
        messages[i].author_id != 0,
        forall|k: int| j < k < users.len() ==> (#[trigger] users[k]).id != users[j].id,
    ensures
        ({
            let author = shown_messages(messages, attachments, users)[i].author;
            &&& author.id == users[j].id
            &&& author.username == users[j].username
            &&& author.joined == users[j].created_at
            &&& author.avatar == users[j].avatar
        }),
{
    lemma_last_user_counts(users, j);
}

proof fn lemma_table_of_users(users: Seq<models::UserView>)
    ensures
        user_table(users).dom() == users.map_values(|u: models::UserView| u.id).to_set(),
{
    let ids = users.map_values(|u: models::UserView| u.id);
    lemma_user_table(users);
    assert forall|id: i64| user_table(users).dom().contains(id) <==> ids.to_set().contains(id) by {
        if user_table(users).contains_key(id) {
            let i = choose|i: int| 0 <= i < users.len() && (#[trigger] users[i]).id == id;
            assert(ids[i] == id);
        }
        if ids.to_set().contains(id) {
            let i = ids.index_of(id);
            assert(users[i].id == id);
        }
    }
    assert(user_table(users).dom() =~= ids.to_set());
}

/// A message whose author was not fetched, or is the one that stands for deleted
/// users, shows nobody: no id, no avatar and no time. Its author is called a
/// deleted user where fewer users were fetched than wrote the page, and always
/// under the id 0; else the name is left empty.
pub proof fn law_authors_who_are_gone_show_nobody(
    messages: Seq<MessageView>,
    attachments: Seq<AttachmentView>,
    users: Seq<models::UserView>,
    i: int,
)
    requires
        0 <= i < messages.len(),
        messages[i].author_id == 0 || forall|j: int|
            0 <= j < users.len() ==> (#[trigger] users[j]).id != messages[i].author_id,
    ensures
        ({
            let author = shown_messages(messages, attachments, users)[i].author;
            let fetched = users.map_values(|u: models::UserView| u.id).to_set();
            let wrote = messages.map_values(|m: MessageView| m.author_id).to_set();
            &&& author.id == 0
            &&& author.joined == 0
            &&& author.avatar is None
            &&& author.username == if messages[i].author_id == 0 || fetched.len() < wrote.len() {
                "Deleted User"@
            } else {
                Seq::empty()
            }
        }),
{
    lemma_user_table(users);
    lemma_table_of_users(users);
}

/// A user is asked for if and only if one of the messages is theirs.
pub proof fn law_who_is_asked_for(messages: Seq<MessageView>, id: i64)
    ensures
        authors(messages).contains(id) <==> exists|i: int|
            0 <= i < messages.len() && (#[trigger] messages[i]).author_id == id,
{
    let ids = messages.map_values(|m: MessageView| m.author_id);
    if authors(messages).contains(id) {
        let i = ids.index_of(id);
        assert(messages[i].author_id == id);
    }
    if exists|i: int| 0 <= i < messages.len() && (#[trigger] messages[i]).author_id == id {
        let i = choose|i: int| 0 <= i < messages.len() && (#[trigger] messages[i]).author_id == id;
        assert(ids[i] == id);
    }
}

/// The attachments that are asked for are those that the messages name, in the
/// order of the messages: for a page those of its parts, for one message its
/// own.
pub proof fn law_what_is_asked_for(
    a: Seq<MessageView>,
    b: Seq<MessageView>,
    message: MessageView,
)
    ensures
        all_attachment_ids(a + b) == all_attachment_ids(a) + all_attachment_ids(b),
        message.attachments is None ==> all_attachment_ids(seq![message]).len() == 0,
        message.attachments is Some ==> all_attachment_ids(seq![message])
            == message.attachments->0,
    decreases b.len(),
{
    reveal_with_fuel(all_attachment_ids, 2);
    assert(seq![message].drop_last() =~= Seq::<MessageView>::empty());
    if message.attachments is Some {
        assert(all_attachment_ids(seq![message]) =~= message.attachments->0);
    }
    if b.len() == 0 {
        assert(a + b =~= a);
        assert(all_attachment_ids(a + b) =~= all_attachment_ids(a) + all_attachment_ids(b));
    } else {
        assert((a + b).drop_last() =~= a + b.drop_last());
        law_what_is_asked_for(a, b.drop_last(), message);
        assert(all_attachment_ids(a + b) =~= all_attachment_ids(a) + all_attachment_ids(b));
    }
}

/// Attaching changes nothing of a message but the attachments that go with it:
/// those that were found, each as it was found. A message that names none keeps
/// what it has.
pub proof fn law_attaching_changes_nothing_else(
    message: CreateMessageView,
    found: Option<Vec<Attachment>>,
)
    ensures
        ({
            let attached = with_attachments(message, found);
            &&& attached.id == message.id
            &&& attached.channel_id == message.channel_id
            &&& attached.content == message.content
            &&& attached.author == message.author
            &&& attached.created_at == message.created_at
            &&& attached.attachments == message.attachments
            &&& message.attachments is None ==> attached.attachments_raw == message.attachments_raw
            &&& message.attachments is Some && found is None ==> attached.attachments_raw is Some
                && attached.attachments_raw->0.len() == 0
            &&& message.attachments is Some && found is Some ==> {
                &&& attached.attachments_raw is Some
                &&& attached.attachments_raw->0.len() == found->0@.len()
                &&& forall|i: int|
                    0 <= i < found->0@.len() ==> #[trigger] attached.attachments_raw->0[i]
                        == found->0@[i]@
            }
        }),
{
}

/// A message is refused for its attachments if and only if it names some and not
/// as many were found as it names.
pub proof fn law_attachments_must_be_found(message: CreateMessage, found: Option<Vec<Attachment>>)
    ensures
        message.attachments is None ==> attachments_exist(message, found),
        message.attachments is Some && found is Some ==> (attachments_exist(message, found)
            <==> message.attachments->0@.len() == found->0@.len()),
        message.attachments is Some && found is None ==> (attachments_exist(message, found)
            <==> message.attachments->0@.len() == 0),
{
}

/// Addressing a message gives it the id, channel and author, and changes nothing
/// else of it.
pub proof fn law_addressing_changes_nothing_else(
    message: CreateMessageView,
    id: i64,
    channel_id: i64,
    author: UserView,
)
    ensures
        ({
            let sent = addressed(message, id, channel_id, author);
            &&& sent.id == id
            &&& sent.channel_id == channel_id
            &&& sent.author == author
            &&& sent.content == message.content
            &&& sent.created_at == message.created_at
            &&& sent.attachments == message.attachments
            &&& sent.attachments_raw == message.attachments_raw
        }),
{
}

/// What is stored of a message that was posted, and what its channel hears, is
/// the text as it was written, in the channel that it was posted to, by the user
/// who posted it, with the id that it was given. The record names the attachments
/// as the message did; the channel gets the attachments that were found.
pub proof fn law_a_post_is_stored_and_heard_as_written(
    message: CreateMessageView,
    found: Vec<Attachment>,
    id: i64,
    channel_id: i64,
    user: models::UserView,
)
    requires
        message.attachments is Some,
    ensures
        ({
            let post = addressed(
                with_attachments(message, Some(found)),
                id,
                channel_id,
                public_user(user),
            );
            let record = post.stored();
            let heard = post.announced();
            &&& record.id == id && heard.id == id
            &&& record.channel_id == channel_id && heard.channel_id == channel_id
            &&& record.author_id == user.id && heard.author.id == user.id
            &&& heard.author.username == user.username
            &&& record.content == message.content && heard.content == message.content
            &&& record.created_at == message.created_at && heard.created_at == message.created_at
            &&& record.attachments == message.attachments
            &&& heard.attachments is Some
            &&& heard.attachments->0.len() == found@.len()
            &&& forall|i: int|
                0 <= i < found@.len() ==> #[trigger] heard.attachments->0[i] == found@[i]@
        }),
{
}

/// What is stored of any message, and what its channel hears of it, has the
/// message's own fields.
pub proof fn law_messages_are_stored_and_heard_whole(message: CreateMessageView)
    ensures
        message.stored().id == message.id,
        message.stored().channel_id == message.channel_id,
        message.stored().author_id == message.author.id,
        message.stored().content == message.content,
        message.stored().created_at == message.created_at,
        message.stored().attachments == message.attachments,
        message.announced().id == message.id,
        message.announced().channel_id == message.channel_id,
        message.announced().author == message.author,
        message.announced().content == message.content,
        message.announced().created_at == message.created_at,
        message.announced().attachments == message.attachments_raw,
{
}

/// A post is served if and only if the server took it. Where its channel does
/// not exist the client is told so, with 400; without an answer it is told
/// nothing, with 500.
pub proof fn law_when_a_post_is_answered(answer: Option<Option<CreateMessage>>)
    ensures
        message_refusal(answer) is None <==> answer is Some && answer->0 is Some,
        answer is Some && answer->0 is None ==> message_refusal(answer) == Some(
            RefusalView {
                status: Status::BadRequest,
                body: Some("Channel does not exist!"@),
            },
        ),
        answer is None ==> message_refusal(answer) == Some(
            RefusalView {
                status: Status::InternalServerError,
                body: Some("Something went wrong"@),
            },
        ),
{
}

/// The view of a message that is posted or listed has what the message has.
pub proof fn law_views_of_messages(post: CreateMessage, listed: GetMessage)
    ensures
        post@.id == post.id,
        post@.channel_id == post.channel_id,
        post@.content == post.content@,
        post@.author == post.author@,
        post@.created_at == post.created_at,
        post.attachments is None <==> post@.attachments is None,
        post.attachments is Some ==> post@.attachments == Some(post.attachments->0@),
        post.attachments_raw is None <==> post@.attachments_raw is None,
        post.attachments_raw is Some ==> post@.attachments_raw->0.len()
            == post.attachments_raw->0@.len() && forall|i: int|
            0 <= i < post.attachments_raw->0@.len() ==> #[trigger] post@.attachments_raw->0[i]
                == post.attachments_raw->0@[i]@,
        listed@.id == listed.id,
        listed@.channel_id == listed.channel_id,
        listed@.content == listed.content@,
        listed@.created_at == listed.created_at,
        listed@.author == listed.author@,
        listed.attachments is None <==> listed@.attachments is None,
        listed.attachments is Some ==> listed@.attachments->0.len() == listed.attachments->0@.len()
            && forall|i: int|
            0 <= i < listed.attachments->0@.len() ==> #[trigger] listed@.attachments->0[i]
                == listed.attachments->0@[i]@,
{
}

} // verus!
