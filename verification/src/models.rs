//! The records that are stored.
use crate::clock;
use crate::text::{copy_optional, optional};
use crate::token;
use crate::ws::server::CreateMessage;
use vstd::prelude::*;

verus! {

/// An uploaded image.
#[derive(Debug, PartialEq, Eq)]
pub struct Attachment {
    pub id: i64,
    pub filename: String,
    pub size: usize,
    pub url: String,
    pub width: u32,
    pub height: u32,
    pub content_type: String,
}

pub struct AttachmentView {
    pub id: i64,
    pub filename: Seq<char>,
    pub size: usize,
    pub url: Seq<char>,
    pub width: u32,
    pub height: u32,
    pub content_type: Seq<char>,
}

impl View for Attachment {
    type V = AttachmentView;

    open spec fn view(&self) -> AttachmentView {
        AttachmentView {
            id: self.id,
            filename: self.filename@,
            size: self.size,
            url: self.url@,
            width: self.width,
            height: self.height,
            content_type: self.content_type@,
        }
    }
}

impl Clone for Attachment {
    fn clone(&self) -> (res: Self)
        ensures
            res == *self,
    {
        Attachment {
            id: self.id,
            filename: self.filename.clone(),
            size: self.size,
            url: self.url.clone(),
            width: self.width,
            height: self.height,
            content_type: self.content_type.clone(),
        }
    }
}

/// A copy of a list of attachments.
pub fn copy_attachments(list: &Vec<Attachment>) -> (res: Vec<Attachment>)
    ensures
        res@ == list@,
{
    let mut res: Vec<Attachment> = Vec::new();
    for i in 0..list.len()
        invariant
            res@ == list@.take(i as int),
    {
        res.push(list[i].clone());
        assert(list@.take(i + 1) =~= list@.take(i as int).push(list@[i as int]));
    }
    assert(list@.take(list.len() as int) =~= list@);
    res
}

/// A channel.
#[derive(Debug, PartialEq, Eq)]
pub struct Channel {
    /// The id of the channel
    pub id: i64,
    /// The name of the channel.
    pub name: String,
    /// The description of the channel.
    pub description: Option<String>,
    /// Unix timestamp for when channel was created.
    pub created_at: usize,
    /// The id of the user who created the channel.
    pub owner_id: i64,
}

pub struct ChannelView {
    pub id: i64,
    pub name: Seq<char>,
    pub description: Option<Seq<char>>,
    pub created_at: usize,
    pub owner_id: i64,
}

impl View for Channel {
    type V = ChannelView;

    open spec fn view(&self) -> ChannelView {
        ChannelView {
            id: self.id,
            name: self.name@,
            description: optional(self.description),
            created_at: self.created_at,
            owner_id: self.owner_id,
        }
    }
}

impl Clone for Channel {
    fn clone(&self) -> (res: Self)
        ensures
            res == *self,
    {
        Channel {
            id: self.id,
            name: self.name.clone(),
            description: copy_optional(&self.description),
            created_at: self.created_at,
            owner_id: self.owner_id,
        }
    }
}

impl Default for Channel {
    fn default() -> (res: Self)
        ensures
            res@ == (ChannelView {
                id: 0,
                name: Seq::empty(),
                description: None,
                created_at: 0,
                owner_id: 0,
            }),
    {
        Channel {
            id: 0,
            name: String::new(),
            description: None,
            created_at: 0,
            owner_id: 0,
        }
    }
}

impl Channel {
    /// A channel that is created now.
    pub fn new(id: i64, name: &str, description: Option<String>, owner_id: i64) -> (res: Self)
        ensures
            exists|seconds: i64|
                seconds >= 0 && res@ == (ChannelView {
                    id,
                    name: name@,
                    description: optional(description),
                    created_at: #[trigger] clock::timestamp_of(seconds),
                    owner_id,
                }),
    {
        let created_at = clock::current_utc_timestamp();
        Self::created_at(id, name, description, owner_id, created_at)
    }

    /// A channel that was created at `created_at`.
    pub fn created_at(
        id: i64,
        name: &str,
        description: Option<String>,
        owner_id: i64,
        created_at: usize,
    ) -> (res: Self)
        ensures
            res@ == (ChannelView {
                id,
                name: name@,
                description: optional(description),
                created_at,
                owner_id,
            }),
    {
        Channel { id, name: name.to_owned(), description, created_at, owner_id }
    }
}

/// A message in a channel.
#[derive(Debug, PartialEq, Eq)]
pub struct Message {
    /// The id of the message
    pub id: i64,
    /// The id of the channel the message was sent in
    pub channel_id: i64,
    /// The id of the user who sent the message
    pub author_id: i64,
    /// The content of the message
    pub content: String,
    /// Unix timestamp for when the message was created
    pub created_at: usize,
    /// Attachments of the message
    pub attachments: Option<Vec<i64>>,
}

pub struct MessageView {
    pub id: i64,
    pub channel_id: i64,
    pub author_id: i64,
    pub content: Seq<char>,
    pub created_at: usize,
    pub attachments: Option<Seq<i64>>,
}

/// The view of a list of ids that may be absent.
pub open spec fn optional_ids(ids: Option<Vec<i64>>) -> Option<Seq<i64>> {
    match ids {
        Some(v) => Some(v@),
        None => None,
    }
}

/// A copy of a list of ids.
pub fn copy_ids(ids: &Vec<i64>) -> (res: Vec<i64>)
    ensures
        res@ == ids@,
{
    let mut res: Vec<i64> = Vec::new();
    for i in 0..ids.len()
        invariant
            res@ == ids@.take(i as int),
    {
        res.push(ids[i]);
        assert(ids@.take(i + 1) =~= ids@.take(i as int).push(ids@[i as int]));
    }
    assert(ids@.take(ids.len() as int) =~= ids@);
    res
}

/// A copy of a list of ids that may be absent.
pub fn copy_optional_ids(ids: &Option<Vec<i64>>) -> (res: Option<Vec<i64>>)
    ensures
        optional_ids(res) == optional_ids(*ids),
{
    match ids {
        Some(v) => Some(copy_ids(v)),
        None => None,
    }
}

impl View for Message {
    type V = MessageView;

    open spec fn view(&self) -> MessageView {
        MessageView {
            id: self.id,
            channel_id: self.channel_id,
            author_id: self.author_id,
            content: self.content@,
            created_at: self.created_at,
            attachments: optional_ids(self.attachments),
        }
    }
}

impl Clone for Message {
    fn clone(&self) -> (res: Self)
        ensures
            res@ == self@,
    {
        Message {
            id: self.id,
            channel_id: self.channel_id,
            author_id: self.author_id,
            content: self.content.clone(),
            created_at: self.created_at,
            attachments: copy_optional_ids(&self.attachments),
        }
    }
}

/// The message whose fields are all zero, empty or absent.
pub open spec fn default_message() -> MessageView {
    MessageView {
        id: 0,
        channel_id: 0,
        author_id: 0,
        content: Seq::empty(),
        created_at: 0,
        attachments: None,
    }
}

impl Default for Message {
    fn default() -> (res: Self)
        ensures
            res@ == default_message(),
    {
        Message {
            id: 0,
            channel_id: 0,
            author_id: 0,
            content: String::new(),
            created_at: 0,
            attachments: None,
        }
    }
}

impl From<CreateMessage> for Message {
    fn from(msg: CreateMessage) -> (res: Self) {
        Self {
            id: msg.id,
            channel_id: msg.channel_id,
            author_id: msg.author.id,
            content: msg.content,
            created_at: msg.created_at,
            attachments: msg.attachments,
        }
    }
}

impl vstd::std_specs::convert::FromSpecImpl<CreateMessage> for Message {
    open spec fn obeys_from_spec() -> bool {
        true
    }

    open spec fn from_spec(msg: CreateMessage) -> Message {
        Message {
            id: msg.id,
            channel_id: msg.channel_id,
            author_id: msg.author.id,
            content: msg.content,
            created_at: msg.created_at,
            attachments: msg.attachments,
        }
    }
}

/// A user account.
#[derive(Debug, PartialEq, Eq)]
pub struct User {
    pub id: i64,
    pub email: String,
    pub username: String,
    pub password: String,
    /// The user's authentication token.
    pub token: String,
    /// Unix timestamp for when user was created.
    pub created_at: usize,
    pub avatar: Option<String>,
}

pub struct UserView {
    pub id: i64,
    pub email: Seq<char>,
    pub username: Seq<char>,
    pub password: Seq<char>,
    pub token: Seq<char>,
    pub created_at: usize,
    pub avatar: Option<Seq<char>>,
}

impl View for User {
    type V = UserView;

    open spec fn view(&self) -> UserView {
        UserView {
            id: self.id,
            email: self.email@,
            username: self.username@,
            password: self.password@,
            token: self.token@,
            created_at: self.created_at,
            avatar: optional(self.avatar),
        }
    }
}

impl Clone for User {
    fn clone(&self) -> (res: Self)
        ensures
            res == *self,
    {
        User {
            id: self.id,
            email: self.email.clone(),
            username: self.username.clone(),
            password: self.password.clone(),
            token: self.token.clone(),
            created_at: self.created_at,
            avatar: copy_optional(&self.avatar),
        }
    }
}

impl Default for User {
    fn default() -> (res: Self)
        ensures
            res@ == (UserView {
                id: 0,
                email: Seq::empty(),
                username: Seq::empty(),
                password: Seq::empty(),
                token: Seq::empty(),
                created_at: 0,
                avatar: None,
            }),
    {
        User {
            id: 0,
            email: String::new(),
            username: String::new(),
            password: String::new(),
            token: String::new(),
            created_at: 0,
            avatar: None,
        }
    }
}

impl User {
    /// A user who signs up now, with a fresh random token.
    pub fn new(id: i64, email: &str, username: &str, password: &str) -> (res: Self)
        ensures
            token::is_random_uuid(res.token@),
            exists|seconds: i64|
                seconds >= 0 && res@ == (UserView {
                    id,
                    email: email@,
                    username: username@,
                    password: password@,
                    token: res.token@,
                    created_at: #[trigger] clock::timestamp_of(seconds),
                    avatar: None,
                }),
    {
        let token = token::random_uuid();
        let created_at = clock::current_utc_timestamp();
        Self::with_token(id, email, username, password, token, created_at)
    }

    /// A user who signed up at `created_at` and was given `token`.
    pub fn with_token(
        id: i64,
        email: &str,
        username: &str,
        password: &str,
        token: String,
        created_at: usize,
    ) -> (res: Self)
        ensures
            res@ == (UserView {
                id,
                email: email@,
                username: username@,
                password: password@,
                token: token@,
                created_at,
                avatar: None,
            }),
    {
        User {
            id,
            email: email.to_owned(),
            username: username.to_owned(),
            password: password.to_owned(),
            token,
            created_at,
            avatar: None,
        }
    }
}

/// The view of a record has what the record has.
pub proof fn law_views_of_records(
    attachment: Attachment,
    channel: Channel,
    message: Message,
    user: User,
)
    ensures
        attachment@.id == attachment.id,
        attachment@.filename == attachment.filename@,
        attachment@.size == attachment.size,
        attachment@.url == attachment.url@,
        attachment@.width == attachment.width,
        attachment@.height == attachment.height,
        attachment@.content_type == attachment.content_type@,
        channel@.id == channel.id,
        channel@.name == channel.name@,
        channel.description is None <==> channel@.description is None,
        channel.description is Some ==> channel@.description == Some(channel.description->0@),
        channel@.created_at == channel.created_at,
        channel@.owner_id == channel.owner_id,
        message@.id == message.id,
        message@.channel_id == message.channel_id,
        message@.author_id == message.author_id,
        message@.content == message.content@,
        message@.created_at == message.created_at,
        message.attachments is None <==> message@.attachments is None,
        message.attachments is Some ==> message@.attachments == Some(message.attachments->0@),
        user@.id == user.id,
        user@.email == user.email@,
        user@.username == user.username@,
        user@.password == user.password@,
        user@.token == user.token@,
        user@.created_at == user.created_at,
        user.avatar is None <==> user@.avatar is None,
        user.avatar is Some ==> user@.avatar == Some(user.avatar->0@),
{
}

/// The default message has nothing: every number is 0, the text is empty and
/// there are no attachments.
pub proof fn law_the_default_message_is_blank()
    ensures
        default_message().id == 0 && default_message().channel_id == 0
            && default_message().author_id == 0 && default_message().created_at == 0,
        default_message().content.len() == 0,
        default_message().attachments is None,
{
}

} // verus!
