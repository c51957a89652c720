//! Listing, creating and joining channels, and the count of visitors.
use crate::clock;
use crate::ids::{is_server_id, IdGenerator};
use crate::models;
use crate::routes::{Refusal, RefusalView, Status, INTERNAL_ERROR};
use crate::text::{decimal, joined, unsigned_text};
use crate::validation::{is_plain, validate_text, Problems};
use crate::ws::server::{Channel, ChannelView, Join};
use std::collections::HashSet;
use vstd::prelude::*;

verus! {

/// The page that shows the number of visitors.
pub fn get_count(count: usize) -> (res: String)
    ensures
        res@ == "Visitors: "@ + decimal(count as int),
{
    joined("Visitors: ", unsigned_text(count).as_str())
}

/// The answer to a request that only fails when the server does not answer.
pub fn get_channels_list(answer: Result<Vec<Channel>, String>) -> (res: Result<
    Vec<Channel>,
    Refusal,
>)
    ensures
        res is Ok <==> answer is Ok,
        res matches Ok(channels) ==> channels == answer->Ok_0,
        res matches Err(refusal) ==> refusal@ == Refusal::of(
            Status::InternalServerError,
            answer->Err_0@,
        ),
{
    match answer {
        Ok(channels) => Ok(channels),
        Err(reason) => Err(
            Refusal { status: Status::InternalServerError, body: Some(reason) },
        ),
    }
}

/// A channel that a client wants to create.
#[derive(Debug)]
pub struct CreateChannel {
    pub name: String,
}

/// A channel that is being created.
#[derive(Debug)]
pub struct NewChannel {
    /// The record to store
    pub record: models::Channel,
    /// The channel to ask the server for
    pub request: Channel,
}

/// The record of a channel that `owner_id` creates.
pub open spec fn channel_record(
    name: Seq<char>,
    id: i64,
    owner_id: i64,
    created_at: usize,
) -> models::ChannelView {
    models::ChannelView { id, name, description: None, created_at, owner_id }
}

/// The channel that the server is asked for.
pub open spec fn channel_request(name: Seq<char>, id: i64) -> ChannelView {
    ChannelView { id, guild_id: None, name, sessions: Set::empty() }
}

impl CreateChannel {
    /// Checks the name: it is not empty and holds no control character.
    pub fn validate(&self) -> (res: Result<(), Problems>)
        ensures
            res is Ok <==> self.name@.len() >= 1 && is_plain(self.name@),
            res matches Err(problems) ==> problems == (Problems {
                length: self.name@.len() < 1,
                non_control_character: !is_plain(self.name@),
            }),
    {
        validate_text(self.name.as_str(), 1, None)
    }

    /// Gives the channel the next id. It is created now, by `owner_id`.
    pub fn open(self, owner_id: i64, ids: &mut IdGenerator) -> (res: NewChannel)
        ensures
            is_server_id(res.record.id),
            exists|seconds: i64|
                seconds >= 0 && res.record@ == channel_record(
                    self.name@,
                    res.record.id,
                    owner_id,
                    #[trigger] clock::timestamp_of(seconds),
                ),
            res.request@ == channel_request(self.name@, res.record.id),
            final(ids).place() == old(ids).place(),
            final(ids).epoch() == old(ids).epoch(),
    {
        let id = ids.generate();
        let record = models::Channel::new(id, self.name.as_str(), None, owner_id);
        NewChannel { record, request: self.request_as(id) }
    }

    /// Gives the channel an id and a time of creation.
    pub fn open_as(self, owner_id: i64, id: i64, created_at: usize) -> (res: NewChannel)
        ensures
            res.record@ == channel_record(self.name@, id, owner_id, created_at),
            res.request@ == channel_request(self.name@, id),
    {
        let record = models::Channel::created_at(
            id,
            self.name.as_str(),
            None,
            owner_id,
            created_at,
        );
        NewChannel { record, request: self.request_as(id) }
    }

    fn request_as(self, id: i64) -> (res: Channel)
        ensures
            res@ == channel_request(self.name@, id),
    {
        Channel { id, guild_id: None, name: self.name, sessions: HashSet::new() }
    }
}

impl NewChannel {
    /// The channel to ask the server for, once the record was stored. Where it
    /// could not be, the server is not asked.
    pub fn stored(self, success: bool) -> (res: Result<Channel, Refusal>)
        ensures
            res is Ok <==> success,
            res matches Ok(request) ==> request == self.request,
            res matches Err(refusal) ==> refusal@ == Refusal::of(
                Status::InternalServerError,
                INTERNAL_ERROR@,
            ),
    {
        if !success {
            return Err(Refusal::internal());
        }
        Ok(self.request)
    }
}

/// What is answered where the server answers with a channel or without one,
/// or does not answer.
pub open spec fn channel_refusal(
    answer: Result<Option<Channel>, String>,
    without: Seq<char>,
) -> Option<RefusalView> {
    match answer {
        Ok(Some(_)) => None,
        Ok(None) => Some(Refusal::of(Status::BadRequest, without)),
        Err(reason) => Some(Refusal::of(Status::InternalServerError, reason@)),
    }
}

fn channel_answer(answer: Result<Option<Channel>, String>, without: &str) -> (res: Result<
    Channel,
    Refusal,
>)
    ensures
        res is Ok <==> channel_refusal(answer, without@) is None,
        res matches Ok(channel) ==> answer->Ok_0 == Some(channel),
        res matches Err(refusal) ==> Some(refusal@) == channel_refusal(answer, without@),
{
    match answer {
        Ok(Some(channel)) => Ok(channel),
        Ok(None) => Err(Refusal::with_body(Status::BadRequest, without)),
        Err(reason) => Err(
            Refusal { status: Status::InternalServerError, body: Some(reason) },
        ),
    }
}

/// The answer to a request to create a channel.
pub fn create_channel(answer: Result<Option<Channel>, String>) -> (res: Result<Channel, Refusal>)
    ensures
        res is Ok <==> channel_refusal(answer, "Channel already exists"@) is None,
        res matches Ok(channel) ==> answer->Ok_0 == Some(channel),
        res matches Err(refusal) ==> Some(refusal@) == channel_refusal(
            answer,
            "Channel already exists"@,
        ),
{
    channel_answer(answer, "Channel already exists")
}

/// What the server is asked where a client joins a channel. The client is not
/// one of the sessions: its id is 0, which no session has.
pub fn join_request(channel_id: i64) -> (res: Join)
    ensures
        res == (Join { client_id: 0, channel_id }),
{
    Join { client_id: 0, channel_id }
}

/// The answer to a request to join a channel.
pub fn join_channel(answer: Result<Option<Channel>, String>) -> (res: Result<Channel, Refusal>)
    ensures
        res is Ok <==> channel_refusal(answer, "Channel does not exist"@) is None,
        res matches Ok(channel) ==> answer->Ok_0 == Some(channel),
        res matches Err(refusal) ==> Some(refusal@) == channel_refusal(
            answer,
            "Channel does not exist"@,
        ),
{
    channel_answer(answer, "Channel does not exist")
}

/// What is stored of a new channel and what the server is asked for have the
/// same id and the name that was asked for. The record has the owner and the
/// time of creation, and nobody is in the channel yet.
pub proof fn law_new_channels_are_as_asked_for(
    name: Seq<char>,
    id: i64,
    owner_id: i64,
    created_at: usize,
)
    ensures
        channel_record(name, id, owner_id, created_at).id == id,
        channel_record(name, id, owner_id, created_at).name == name,
        channel_record(name, id, owner_id, created_at).owner_id == owner_id,
        channel_record(name, id, owner_id, created_at).created_at == created_at,
        channel_record(name, id, owner_id, created_at).description is None,
        channel_request(name, id).id == id,
        channel_request(name, id).name == name,
        channel_request(name, id).guild_id is None,
        channel_request(name, id).sessions == Set::<usize>::empty(),
{
}

/// A request about a channel is served if and only if the server answers with
/// the channel. Without a channel the client is told why, with 400; without an
/// answer what went wrong, with 500.
pub proof fn law_when_a_channel_is_answered(
    answer: Result<Option<Channel>, String>,
    without: Seq<char>,
)
    ensures
        channel_refusal(answer, without) is None <==> answer is Ok && answer->Ok_0 is Some,
        answer is Ok && answer->Ok_0 is None ==> channel_refusal(answer, without) == Some(
            RefusalView { status: Status::BadRequest, body: Some(without) },
        ),
        answer is Err ==> channel_refusal(answer, without) == Some(
            RefusalView { status: Status::InternalServerError, body: Some(answer->Err_0@) },
        ),
{
}

} // verus!
