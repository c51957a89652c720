//! The HTTP API: what a request must look like, and what it is answered.
use vstd::prelude::*;
use vstd::string::*;

pub mod api;

verus! {

pub const DB_NAME: &'static str = "shiki";

pub const ATTACHMENT_COLL_NAME: &'static str = "attachments";

pub const CHANNEL_COLL_NAME: &'static str = "channels";

pub const MESSAGE_COLL_NAME: &'static str = "messages";

pub const USER_COLL_NAME: &'static str = "users";

/// The body of an answer that gives no reason.
pub const INTERNAL_ERROR: &'static str = "Something went wrong";

/// The status of a request that was not served.
#[derive(Debug, Clone, Copy, PartialEq, Eq, Structural)]
pub enum Status {
    BadRequest,
    Unauthorized,
    NotFound,
    InternalServerError,
}

/// The answer to a request that was not served.
#[derive(Debug, PartialEq, Eq)]
pub struct Refusal {
    pub status: Status,
    pub body: Option<String>,
}

pub struct RefusalView {
    pub status: Status,
    pub body: Option<Seq<char>>,
}

impl View for Refusal {
    type V = RefusalView;

    open spec fn view(&self) -> RefusalView {
        RefusalView { status: self.status, body: crate::text::optional(self.body) }
    }
}

impl Refusal {
    /// The refusal with a status and a body.
    pub open spec fn of(status: Status, body: Seq<char>) -> RefusalView {
        RefusalView { status, body: Some(body) }
    }

    /// A refusal with a body.
    pub fn with_body(status: Status, body: &str) -> (res: Self)
        ensures
            res@ == Self::of(status, body@),
    {
        Refusal { status, body: Some(body.to_owned()) }
    }

    /// A refusal without a body.
    pub fn bare(status: Status) -> (res: Self)
        ensures
            res@ == (RefusalView { status, body: None }),
    {
        Refusal { status, body: None }
    }

    /// The refusal of a request that failed on this side.
    pub fn internal() -> (res: Self)
        ensures
            res@ == Self::of(Status::InternalServerError, INTERNAL_ERROR@),
    {
        Self::with_body(Status::InternalServerError, INTERNAL_ERROR)
    }
}

/// The body of the answer to a request whose JSON could not be read.
pub fn json_error(reason: &str) -> (res: String)
    ensures
        res@ == "{\"error\":\""@ + reason@ + "\"}"@,
{
    let mut res = "{\"error\":\"".to_owned();
    res.append(reason);
    res.append("\"}");
    res
}

/// A refusal has the status and the body that it is given.
pub proof fn law_refusals_say_what_they_are_given(status: Status, body: Seq<char>, refusal: Refusal)
    ensures
        Refusal::of(status, body).status == status,
        Refusal::of(status, body).body == Some(body),
        refusal@.status == refusal.status,
        refusal.body is None <==> refusal@.body is None,
        refusal.body is Some ==> refusal@.body == Some(refusal.body->0@),
{
}

/// What is stored goes to this database, each kind of record to a collection of
/// its own, and an answer without a reason says that something went wrong.
pub proof fn law_names_of_the_database()
    ensures
        DB_NAME@ == "shiki"@,
        ATTACHMENT_COLL_NAME@ == "attachments"@,
        CHANNEL_COLL_NAME@ == "channels"@,
        MESSAGE_COLL_NAME@ == "messages"@,
        USER_COLL_NAME@ == "users"@,
        INTERNAL_ERROR@ == "Something went wrong"@,
{
}

} // verus!
