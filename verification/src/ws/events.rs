//! The events that the server sends to its clients.
use crate::json;
use crate::lists::{optional_views, views};
use crate::models;
use crate::models::{copy_attachments, AttachmentView};
use crate::ws::server::{
    copy_channels, copy_users, Channel, ChannelView, CreateMessage, User, UserView,
};
use vstd::prelude::*;

verus! {

/// A payload that is always sent under one opcode.
pub trait HasOpcode {
    spec fn own_opcode() -> Opcode;

    fn opcode() -> (res: Opcode)
        ensures
            res == Self::own_opcode(),
    ;
}

/// What an event is.
#[derive(Debug, PartialEq, Eq, Copy, Clone, Structural)]
pub enum Opcode {
    Identify,
    Ready,
    MessageCreate,
    ChannelCreate,
    Custom,
}

/// The number of an opcode on the wire.
pub open spec fn code_of(opcode: Opcode) -> u8 {
    match opcode {
        Opcode::Identify => 0,
        Opcode::Ready => 1,
        Opcode::MessageCreate => 2,
        Opcode::ChannelCreate => 3,
        Opcode::Custom => 4,
    }
}

/// The opcode that a number stands for where a client sent it. Clients do not
/// send custom events.
pub open spec fn opcode_of(code: Option<u64>) -> Option<Opcode> {
    match code {
        Some(n) => if n == 0 {
            Some(Opcode::Identify)
        } else if n == 1 {
            Some(Opcode::Ready)
        } else if n == 2 {
            Some(Opcode::MessageCreate)
        } else if n == 3 {
            Some(Opcode::ChannelCreate)
        } else {
            None
        },
        None => None,
    }
}

impl Opcode {
    /// The opcode that a JSON value stands for.
    pub fn from_json(value: Option<&serde_json::Value>) -> (res: Option<Opcode>)
        ensures
            res == opcode_of(json::optional_unsigned(value)),
    {
        match value {
            Some(v) => Self::from_code(json::as_u64(v)),
            None => None,
        }
    }

    /// The opcode that a number stands for where a client sent it.
    pub fn from_code(code: Option<u64>) -> (res: Option<Opcode>)
        ensures
            res == opcode_of(code),
    {
        match code {
            Some(0) => Some(Opcode::Identify),
            Some(1) => Some(Opcode::Ready),
            Some(2) => Some(Opcode::MessageCreate),
            Some(3) => Some(Opcode::ChannelCreate),
            _ => None,
        }
    }

    /// The number that the opcode is written as.
    pub fn code(self) -> (res: u8)
        ensures
            res == code_of(self),
    {
        match self {
            Opcode::Identify => 0,
            Opcode::Ready => 1,
            Opcode::MessageCreate => 2,
            Opcode::ChannelCreate => 3,
            Opcode::Custom => 4,
        }
    }
}

/// An opcode other than the custom one is read back as it was written, and no
/// other number reads as it.
pub proof fn law_opcode_read_back(opcode: Opcode, code: u64)
    requires
        opcode != Opcode::Custom,
    ensures
        opcode_of(Some(code_of(opcode) as u64)) == Some(opcode),
        opcode_of(Some(code)) == Some(opcode) ==> code == code_of(opcode),
{
}

/// The custom opcode is written, but no number reads as it.
pub proof fn law_custom_is_not_read(code: Option<u64>)
    ensures
        opcode_of(code) != Some(Opcode::Custom),
{
}

/// Identify Payload which is sent from the server to the client. This will contain a lot of data, like the guilds they are in, channels, etc. To be used as the entry point/hello world of the application.
#[derive(Debug)]
pub struct Ready {
    /// List of available channels.
    pub channels: Vec<Channel>,
    /// The user who connected
    pub user: User,
    /// List of all the users that are in the guild. Including the user who connected.
    pub users: Vec<User>,
}

pub struct ReadyView {
    pub channels: Seq<ChannelView>,
    pub user: UserView,
    pub users: Seq<UserView>,
}

impl View for Ready {
    type V = ReadyView;

    open spec fn view(&self) -> ReadyView {
        ReadyView {
            channels: views(self.channels@),
            user: self.user@,
            users: views(self.users@),
        }
    }
}

impl Clone for Ready {
    fn clone(&self) -> (res: Self)
        ensures
            res@ == self@,
    {
        Ready {
            channels: copy_channels(&self.channels),
            user: self.user.clone(),
            users: copy_users(&self.users),
        }
    }
}

impl HasOpcode for Ready {
    open spec fn own_opcode() -> Opcode {
        Opcode::Ready
    }

    fn opcode() -> (res: Opcode) {
        Opcode::Ready
    }
}

#[derive(Debug)]
pub struct MessageCreate {
    /// The id of the message
    pub id: i64,
    /// The content of the message
    pub content: String,
    /// The ID of the channel.
    pub channel_id: i64,
    /// The author of the message.
    pub author: User,
    /// The creation date of the message
    pub created_at: usize,
    /// The attachments of the message.
    pub attachments: Option<Vec<models::Attachment>>,
}

pub struct MessageCreateView {
    pub id: i64,
    pub content: Seq<char>,
    pub channel_id: i64,
    pub author: UserView,
    pub created_at: usize,
    pub attachments: Option<Seq<AttachmentView>>,
}

impl View for MessageCreate {
    type V = MessageCreateView;

    open spec fn view(&self) -> MessageCreateView {
        MessageCreateView {
            id: self.id,
            content: self.content@,
            channel_id: self.channel_id,
            author: self.author@,
            created_at: self.created_at,
            attachments: optional_views(self.attachments),
        }
    }
}

impl Clone for MessageCreate {
    fn clone(&self) -> (res: Self)
        ensures
            res@ == self@,
    {
        MessageCreate {
            id: self.id,
            content: self.content.clone(),
            channel_id: self.channel_id,
            author: self.author.clone(),
            created_at: self.created_at,
            attachments: match &self.attachments {
                Some(list) => Some(copy_attachments(list)),
                None => None,
            },
        }
    }
}

impl HasOpcode for MessageCreate {
    open spec fn own_opcode() -> Opcode {
        Opcode::MessageCreate
    }

    fn opcode() -> (res: Opcode) {
        Opcode::MessageCreate
    }
}

impl From<CreateMessage> for MessageCreate {
    fn from(msg: CreateMessage) -> (res: Self) {
        Self {
            id: msg.id,
            content: msg.content,
            channel_id: msg.channel_id,
            author: msg.author,
            created_at: msg.created_at,
            attachments: msg.attachments_raw,
        }
    }
}

impl vstd::std_specs::convert::FromSpecImpl<CreateMessage> for MessageCreate {
    open spec fn obeys_from_spec() -> bool {
        true
    }

    open spec fn from_spec(msg: CreateMessage) -> MessageCreate {
        MessageCreate {
            id: msg.id,
            content: msg.content,
            channel_id: msg.channel_id,
            author: msg.author,
            created_at: msg.created_at,
            attachments: msg.attachments_raw,
        }
    }
}

#[derive(Debug)]
pub struct ChannelCreate {
    /// The id of the channel
    pub id: i64,
    /// The name of the channel
    pub name: String,
}

pub struct ChannelCreateView {
    pub id: i64,
    pub name: Seq<char>,
}

impl View for ChannelCreate {
    type V = ChannelCreateView;

    open spec fn view(&self) -> ChannelCreateView {
        ChannelCreateView { id: self.id, name: self.name@ }
    }
}

impl Clone for ChannelCreate {
    fn clone(&self) -> (res: Self)
        ensures
            res == *self,
    {
        ChannelCreate { id: self.id, name: self.name.clone() }
    }
}

impl HasOpcode for ChannelCreate {
    open spec fn own_opcode() -> Opcode {
        Opcode::ChannelCreate
    }

    fn opcode() -> (res: Opcode) {
        Opcode::ChannelCreate
    }
}

impl ChannelCreate {
    pub fn new(id: i64, name: String) -> (res: Self)
        ensures
            res == (ChannelCreate { id, name }),
    {
        Self { id, name }
    }
}

/// Chat server sends this messages to session
#[derive(Debug)]
pub enum Event {
    ChannelCreate(ChannelCreate),
    MessageCreate(MessageCreate),
    Ready(Ready),
    BadToken,
    Hello,
    SetToken(String),
    Custom(String),
}

pub enum EventView {
    ChannelCreate(ChannelCreateView),
    MessageCreate(MessageCreateView),
    Ready(ReadyView),
    BadToken,
    Hello,
    SetToken(Seq<char>),
    Custom(Seq<char>),
}

impl View for Event {
    type V = EventView;

    open spec fn view(&self) -> EventView {
        match *self {
            Event::ChannelCreate(channel) => EventView::ChannelCreate(channel@),
            Event::MessageCreate(message) => EventView::MessageCreate(message@),
            Event::Ready(ready) => EventView::Ready(ready@),
            Event::BadToken => EventView::BadToken,
            Event::Hello => EventView::Hello,
            Event::SetToken(token) => EventView::SetToken(token@),
            Event::Custom(text) => EventView::Custom(text@),
        }
    }
}

impl Clone for Event {
    fn clone(&self) -> (res: Self)
        ensures
            res@ == self@,
    {
        match self {
            Event::ChannelCreate(channel) => Event::ChannelCreate(channel.clone()),
            Event::MessageCreate(message) => Event::MessageCreate(message.clone()),
            Event::Ready(ready) => Event::Ready(ready.clone()),
            Event::BadToken => Event::BadToken,
            Event::Hello => Event::Hello,
            Event::SetToken(token) => Event::SetToken(token.clone()),
            Event::Custom(text) => Event::Custom(text.clone()),
        }
    }
}

/// The opcode that an event is sent under.
pub open spec fn event_opcode(event: EventView) -> Opcode {
    match event {
        EventView::ChannelCreate(_) => Opcode::ChannelCreate,
        EventView::MessageCreate(_) => Opcode::MessageCreate,
        EventView::Ready(_) => Opcode::Ready,
        _ => Opcode::Custom,
    }
}

/// The text that an event is written as, where it is not written as a record.
pub open spec fn event_text(event: EventView) -> Option<Seq<char>> {
    match event {
        EventView::SetToken(token) => Some(token),
        EventView::Custom(text) => Some(text),
        EventView::BadToken => Some(Seq::empty()),
        EventView::Hello => Some(Seq::empty()),
        _ => None,
    }
}

impl Event {
    /// The opcode that the event is sent under.
    pub fn opcode(&self) -> (res: Opcode)
        ensures
            res == event_opcode(self@),
    {
        match self {
            Event::ChannelCreate(_) => ChannelCreate::opcode(),
            Event::MessageCreate(_) => MessageCreate::opcode(),
            Event::Ready(_) => Ready::opcode(),
            Event::Custom(_) => Opcode::Custom,
            Event::BadToken => Opcode::Custom,
            Event::Hello => Opcode::Custom,
            Event::SetToken(_) => Opcode::Custom,
        }
    }

    /// The text that the event is written as. Channels, messages and ready
    /// payloads have none: they are written as records.
    pub fn text(&self) -> (res: Option<String>)
        ensures
            crate::text::optional(res) == event_text(self@),
    {
        match self {
            Event::ChannelCreate(_) => None,
            Event::MessageCreate(_) => None,
            Event::Ready(_) => None,
            Event::Custom(text) => Some(text.clone()),
            Event::BadToken => Some(String::new()),
            Event::Hello => Some(String::new()),
            Event::SetToken(token) => Some(token.clone()),
        }
    }
}

/// An event is written as text if and only if its opcode is the custom one.
pub proof fn law_text_is_custom(event: EventView)
    ensures
        event_text(event) is Some <==> event_opcode(event) == Opcode::Custom,
{
}

/// A token and a custom text are written as they are, a greeting and a bad token
/// as nothing; channels, messages and ready payloads are not texts, and each of
/// them has its own opcode.
pub proof fn law_what_events_are_written_as(
    text: Seq<char>,
    channel: ChannelCreateView,
    message: MessageCreateView,
    ready: ReadyView,
)
    ensures
        event_text(EventView::SetToken(text)) == Some(text),
        event_text(EventView::Custom(text)) == Some(text),
        event_text(EventView::Hello) == Some(Seq::<char>::empty()),
        event_text(EventView::BadToken) == Some(Seq::<char>::empty()),
        event_text(EventView::ChannelCreate(channel)) is None,
        event_text(EventView::MessageCreate(message)) is None,
        event_text(EventView::Ready(ready)) is None,
        event_opcode(EventView::ChannelCreate(channel)) == Opcode::ChannelCreate,
        event_opcode(EventView::MessageCreate(message)) == Opcode::MessageCreate,
        event_opcode(EventView::Ready(ready)) == Opcode::Ready,
        event_opcode(EventView::SetToken(text)) == Opcode::Custom,
        event_opcode(EventView::Custom(text)) == Opcode::Custom,
{
}

/// The view of an event has what the event has.
pub proof fn law_views_of_events(ready: Ready, message: MessageCreate, channel: ChannelCreate)
    ensures
        ready@.user == ready.user@,
        ready@.users.len() == ready.users@.len(),
        ready@.channels.len() == ready.channels@.len(),
        forall|i: int|
            0 <= i < ready.users@.len() ==> #[trigger] ready@.users[i] == ready.users@[i]@,
        forall|i: int|
            0 <= i < ready.channels@.len() ==> #[trigger] ready@.channels[i]
                == ready.channels@[i]@,
        message@.id == message.id,
        message@.content == message.content@,
        message@.channel_id == message.channel_id,
        message@.author == message.author@,
        message@.created_at == message.created_at,
        message.attachments is None <==> message@.attachments is None,
        message.attachments is Some ==> message@.attachments->0.len()
            == message.attachments->0@.len() && forall|i: int|
            0 <= i < message.attachments->0@.len() ==> #[trigger] message@.attachments->0[i]
                == message.attachments->0@[i]@,
        channel@.id == channel.id,
        channel@.name == channel.name@,
        Event::Ready(ready)@ == EventView::Ready(ready@),
        Event::MessageCreate(message)@ == EventView::MessageCreate(message@),
        Event::ChannelCreate(channel)@ == EventView::ChannelCreate(channel@),
        Event::Hello@ == EventView::Hello,
        Event::BadToken@ == EventView::BadToken,
{
}

} // verus!
