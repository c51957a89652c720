//! The first set of gateway events, in which every payload carries its opcode.
use crate::json;
use vstd::prelude::*;

verus! {

/// What a payload is.
#[derive(Debug, PartialEq, Eq, Copy, Clone, Structural)]
pub enum Opcode {
    Identify,
    Ready,
    MessageCreate,
    ChannelCreate,
}

/// The number of an opcode on the wire.
pub open spec fn code_of(opcode: Opcode) -> u8 {
    match opcode {
        Opcode::Identify => 0,
        Opcode::Ready => 1,
        Opcode::MessageCreate => 2,
        Opcode::ChannelCreate => 3,
    }
}

/// The opcode that a number stands for.
pub open spec fn opcode_of(code: Option<u64>) -> Option<Opcode> {
    match code {
        Some(n) => if n == 0 {
            Some(Opcode::Identify)
        } else if n == 1 {
            Some(Opcode::Ready)
        } else if n == 2 {
            Some(Opcode::MessageCreate)
        } else if n == 3 {
            Some(Opcode::ChannelCreate)
        } else {
            None
        },
        None => None,
    }
}

impl Opcode {
    /// The opcode that a JSON value stands for.
    pub fn from_json(value: Option<&serde_json::Value>) -> (res: Option<Opcode>)
        ensures
            res == opcode_of(json::optional_unsigned(value)),
    {
        match value {
            Some(v) => Self::from_code(json::as_u64(v)),
            None => None,
        }
    }

    /// The opcode that a number stands for.
    pub fn from_code(code: Option<u64>) -> (res: Option<Opcode>)
        ensures
            res == opcode_of(code),
    {
        match code {
            Some(0) => Some(Opcode::Identify),
            Some(1) => Some(Opcode::Ready),
            Some(2) => Some(Opcode::MessageCreate),
            Some(3) => Some(Opcode::ChannelCreate),
            _ => None,
        }
    }

    /// The number that the opcode is written as.
    pub fn code(self) -> (res: u8)
        ensures
            res == code_of(self),
    {
        match self {
            Opcode::Identify => 0,
            Opcode::Ready => 1,
            Opcode::MessageCreate => 2,
            Opcode::ChannelCreate => 3,
        }
    }
}

/// An opcode is read back as it was written, and no other number reads as it.
pub proof fn law_opcode_read_back(opcode: Opcode, code: u64)
    ensures
        opcode_of(Some(code_of(opcode) as u64)) == Some(opcode),
        opcode_of(Some(code)) == Some(opcode) ==> code == code_of(opcode),
{
}

/// Identify Payload which is sent from the server to all clients notifying them someone is online.
#[derive(Debug)]
pub struct Ready {
    op: Opcode,
    pub id: i64,
    pub name: String,
}

pub struct ReadyView {
    pub op: Opcode,
    pub id: i64,
    pub name: Seq<char>,
}

impl View for Ready {
    type V = ReadyView;

    closed spec fn view(&self) -> ReadyView {
        ReadyView {
            op: self.op,
            id: self.id,
            name: self.name@,
        }
    }
}

impl Ready {
    pub fn new(id: i64, name: String) -> (res: Self)
        ensures
            res@ == (ReadyView { op: Opcode::Ready, id, name: name@ }),
    {
        Self { op: Opcode::Ready, id, name }
    }

    /// The opcode that the payload carries.
    pub fn opcode(&self) -> (res: Opcode)
        ensures
            res == self@.op,
    {
        self.op
    }
}

#[derive(Debug)]
pub struct MessageCreate {
    op: Opcode,
    /// The id of the message
    pub id: i64,
    /// The content of the message
    pub content: String,
    /// The author of the message
    pub author_id: Option<i64>,
    /// The ID of the channel/room.
    pub channel_id: i64,
}

pub struct MessageCreateView {
    pub op: Opcode,
    pub id: i64,
    pub content: Seq<char>,
    pub author_id: Option<i64>,
    pub channel_id: i64,
}

impl View for MessageCreate {
    type V = MessageCreateView;

    closed spec fn view(&self) -> MessageCreateView {
        MessageCreateView {
            op: self.op,
            id: self.id,
            content: self.content@,
            author_id: self.author_id,
            channel_id: self.channel_id,
        }
    }
}

impl MessageCreate {
    pub fn new(id: i64, content: String, author_id: Option<i64>, channel_id: i64) -> (res: Self)
        ensures
            res@ == (MessageCreateView {
                op: Opcode::MessageCreate,
                id,
                content: content@,
                author_id,
                channel_id,
            }),
    {
        Self { op: Opcode::MessageCreate, id, content, author_id, channel_id }
    }

    /// The opcode that the payload carries.
    pub fn opcode(&self) -> (res: Opcode)
        ensures
            res == self@.op,
    {
        self.op
    }
}

#[derive(Debug)]
pub struct ChannelCreate {
    op: Opcode,
    /// The id of the channel
    pub id: i64,
    /// The name of the channel
    pub name: String,
}

pub struct ChannelCreateView {
    pub op: Opcode,
    pub id: i64,
    pub name: Seq<char>,
}

impl View for ChannelCreate {
    type V = ChannelCreateView;

    closed spec fn view(&self) -> ChannelCreateView {
        ChannelCreateView {
            op: self.op,
            id: self.id,
            name: self.name@,
        }
    }
}

impl ChannelCreate {
    pub fn new(id: i64, name: String) -> (res: Self)
        ensures
            res@ == (ChannelCreateView { op: Opcode::ChannelCreate, id, name: name@ }),
    {
        Self { op: Opcode::ChannelCreate, id, name }
    }

    /// The opcode that the payload carries.
    pub fn opcode(&self) -> (res: Opcode)
        ensures
            res == self@.op,
    {
        self.op
    }
}

} // verus!
