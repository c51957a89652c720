//! A message as the cache holds it: fields whose values are JSON.
use crate::clock;
use crate::json;
use crate::json::{
    array_text, comma_separated, elements_of, integer_of, is_array_of, null_value, parsed, quoted,
    string_of, unsigned_of,
};
use crate::models::{default_message, Message, MessageView};
use crate::text::{append_signed, decimal, signed_text, unsigned_text};
use vstd::prelude::*;
use vstd::string::*;

verus! {

/// The view of a list of fields.
pub open spec fn field_views(fields: Seq<(String, String)>) -> Seq<(Seq<char>, Seq<char>)> {
    Seq::new(fields.len(), |i: int| (fields[i].0@, fields[i].1@))
}

/// The JSON of a list of ids that may be absent.
pub open spec fn ids_text(ids: Option<Seq<i64>>) -> Seq<char> {
    match ids {
        Some(list) => array_text(list),
        None => "null"@,
    }
}

/// The fields of a message.
pub open spec fn fields_of(message: MessageView) -> Seq<(Seq<char>, Seq<char>)> {
    seq![
        ("id"@, decimal(message.id as int)),
        ("channel_id"@, decimal(message.channel_id as int)),
        ("author_id"@, decimal(message.author_id as int)),
        ("content"@, quoted(message.content)),
        ("created_at"@, decimal(message.created_at as int)),
        ("attachments"@, ids_text(message.attachments)),
    ]
}

/// Whether fields are those of a message, in any order.
pub open spec fn are_fields_of(
    fields: Seq<(Seq<char>, Seq<char>)>,
    message: MessageView,
) -> bool {
    fields.to_multiset() == fields_of(message).to_multiset()
}

/// Whether the value of every field is JSON.
pub open spec fn all_json(fields: Seq<(Seq<char>, Seq<char>)>) -> bool {
    forall|i: int| 0 <= i < fields.len() ==> parsed((#[trigger] fields[i]).1) is Some
}

/// The value of the last field with a name.
pub open spec fn value_of(fields: Seq<(Seq<char>, Seq<char>)>, name: Seq<char>) -> Option<
    serde_json::Value,
>
    decreases fields.len(),
{
    if fields.len() == 0 {
        None
    } else if fields.last().0 == name {
        parsed(fields.last().1)
    } else {
        value_of(fields.drop_last(), name)
    }
}

/// The integer that a field must have.
pub open spec fn integer_field(
    fields: Seq<(Seq<char>, Seq<char>)>,
    name: Seq<char>,
) -> Option<i64> {
    match value_of(fields, name) {
        Some(value) => integer_of(value),
        None => None,
    }
}

/// The string that a field must have.
pub open spec fn string_field(
    fields: Seq<(Seq<char>, Seq<char>)>,
    name: Seq<char>,
) -> Option<Seq<char>> {
    match value_of(fields, name) {
        Some(value) => string_of(value),
        None => None,
    }
}

/// The time that a field may have. Without the field it is `now`.
pub open spec fn time_field(
    fields: Seq<(Seq<char>, Seq<char>)>,
    name: Seq<char>,
    now: usize,
) -> Option<usize> {
    match value_of(fields, name) {
        Some(value) => match unsigned_of(value) {
            Some(n) => if n <= usize::MAX {
                Some(n as usize)
            } else {
                None
            },
            None => None,
        },
        None => Some(now),
    }
}

/// The ids that a value is: an array of integers, or absent where it is null.
pub open spec fn ids_of(value: serde_json::Value) -> Option<Option<Seq<i64>>> {
    if null_value(value) {
        Some(None)
    } else {
        match elements_of(value) {
            Some(elements) => if forall|i: int|
                0 <= i < elements.len() ==> integer_of(#[trigger] elements[i]) is Some {
                Some(Some(Seq::new(elements.len(), |i: int| integer_of(elements[i])->0)))
            } else {
                None
            },
            None => None,
        }
    }
}

/// The ids that a field may have. Without the field there are none.
pub open spec fn ids_field(
    fields: Seq<(Seq<char>, Seq<char>)>,
    name: Seq<char>,
) -> Option<Option<Seq<i64>>> {
    match value_of(fields, name) {
        Some(value) => ids_of(value),
        None => Some(None),
    }
}

/// The message that some fields are. A message without a time is taken to be
/// from `now`. Fields with other names do not matter, as long as they are JSON.
pub open spec fn message_of(fields: Seq<(Seq<char>, Seq<char>)>, now: usize) -> Option<
    MessageView,
> {
    let id = integer_field(fields, "id"@);
    let channel_id = integer_field(fields, "channel_id"@);
    let author_id = integer_field(fields, "author_id"@);
    let content = string_field(fields, "content"@);
    let created_at = time_field(fields, "created_at"@, now);
    let attachments = ids_field(fields, "attachments"@);
    if all_json(fields) && id is Some && channel_id is Some && author_id is Some && content is Some
        && created_at is Some && attachments is Some {
        Some(
            MessageView {
                id: id->0,
                channel_id: channel_id->0,
                author_id: author_id->0,
                content: content->0,
                created_at: created_at->0,
                attachments: attachments->0,
            },
        )
    } else {
        None
    }
}

/// What the cache replied.
#[derive(Debug)]
pub enum CacheReply {
    /// Nothing
    Nil,
    /// A record with these fields
    Fields(Vec<(String, String)>),
    /// Something that has no fields
    Other,
}

/// What the cache replied is no message.
#[derive(Debug, Clone, Copy, PartialEq, Eq, Structural)]
pub struct Incompatible;

/// The JSON of a list of ids that may be absent.
fn ids_json(ids: &Option<Vec<i64>>) -> (res: String)
    ensures
        res@ == ids_text(crate::models::optional_ids(*ids)),
{
    match ids {
        Some(list) => {
            let mut res = "[".to_owned();
            for i in 0..list.len()
                invariant
                    res@ == "["@ + comma_separated(list@.take(i as int)),
            {
                let ghost before = list@.take(i as int);
                let ghost after = list@.take(i + 1);
                assert(after.drop_last() =~= before);
                if i > 0 {
                    res.append(",");
                }
                append_signed(&mut res, list[i]);
                proof {
                    if i > 0 {
                        assert(res@ =~= "["@ + (comma_separated(before) + ","@ + decimal(
                            list@[i as int] as int,
                        )));
                    } else {
                        assert(res@ =~= "["@ + decimal(list@[0] as int));
                    }
                }
            }
            assert(list@.take(list.len() as int) =~= list@);
            res.append("]");
            assert(res@ =~= array_text(list@));
            res
        },
        None => "null".to_owned(),
    }
}

/// The ids that a value is.
fn read_ids(value: &serde_json::Value) -> (res: Option<Option<Vec<i64>>>)
    ensures
        res is Some <==> ids_of(*value) is Some,
        res matches Some(ids) ==> ids_of(*value) == Some(crate::models::optional_ids(ids)),
{
    if json::is_null(value) {
        return Some(None);
    }
    match json::as_array(value) {
        Some(elements) => {
            let mut ids: Vec<i64> = Vec::new();
            for i in 0..elements.len()
                invariant
                    elements_of(*value) == Some(elements@),
                    !null_value(*value),
                    ids@.len() == i,
                    forall|j: int|
                        0 <= j < i ==> integer_of(#[trigger] elements@[j]) == Some(ids@[j]),
            {
                match json::as_i64(&elements[i]) {
                    Some(id) => ids.push(id),
                    None => {
                        assert(integer_of(elements@[i as int]) is None);
                        return None;
                    },
                }
            }
            assert(ids@ =~= ids_of(*value)->0->0);
            Some(Some(ids))
        },
        None => None,
    }
}

/// The index of the last field with a name.
fn find_field(fields: &Vec<(String, String)>, name: &str) -> (res: Option<usize>)
    ensures
        match res {
            Some(i) => {
                &&& i < fields@.len()
                &&& value_of(field_views(fields@), name@) == parsed(fields@[i as int].1@)
            },
            None => value_of(field_views(fields@), name@) is None,
        },
{
    let wanted = name.to_owned();
    let mut end: usize = fields.len();
    let ghost all = field_views(fields@);
    assert(all.take(end as int) =~= all);
    while end > 0
        invariant
            wanted@ == name@,
            end <= fields@.len(),
            all == field_views(fields@),
            value_of(all.take(end as int), name@) == value_of(all, name@),
        decreases end,
    {
        assert(all.take(end as int).drop_last() =~= all.take(end - 1));
        assert(all.take(end as int).last() == all[end - 1]);
        if fields[end - 1].0 == wanted {
            return Some(end - 1);
        }
        end = end - 1;
    }
    None
}

impl Message {
    /// The fields to store.
    pub fn to_fields(&self) -> (res: Vec<(String, String)>)
        ensures
            field_views(res@) == fields_of(self@),
    {
        let mut res: Vec<(String, String)> = Vec::new();
        res.push(("id".to_owned(), signed_text(self.id)));
        res.push(("channel_id".to_owned(), signed_text(self.channel_id)));
        res.push(("author_id".to_owned(), signed_text(self.author_id)));
        res.push(("content".to_owned(), json::quote(self.content.as_str())));
        res.push(("created_at".to_owned(), unsigned_text(self.created_at)));
        res.push(("attachments".to_owned(), ids_json(&self.attachments)));
        assert(field_views(res@) =~= fields_of(self@));
        res
    }
}

/// Whether `values` are the values of the fields.
spec fn are_values(values: Seq<serde_json::Value>, fields: Seq<(Seq<char>, Seq<char>)>) -> bool {
    &&& values.len() == fields.len()
    &&& forall|i: int|
        0 <= i < fields.len() ==> parsed((#[trigger] fields[i]).1) == Some(values[i])
}

/// The values of the fields, where all are JSON.
fn parse_fields(fields: &Vec<(String, String)>) -> (res: Option<Vec<serde_json::Value>>)
    ensures
        res is Some <==> all_json(field_views(fields@)),
        res matches Some(values) ==> are_values(values@, field_views(fields@)),
        res matches Some(values) ==> forall|i: int|
            0 <= i < values@.len() ==> json::is_said_by(#[trigger] values@[i], fields@[i].1@),
        (forall|i: int| 0 <= i < fields@.len() ==> json::is_written_json(#[trigger] fields@[i].1@))
            ==> res is Some,
{
    let ghost all = field_views(fields@);
    let mut values: Vec<serde_json::Value> = Vec::new();
    for i in 0..fields.len()
        invariant
            all == field_views(fields@),
            values@.len() == i,
            forall|j: int| 0 <= j < i ==> parsed((#[trigger] all[j]).1) == Some(values@[j]),
            forall|j: int|
                0 <= j < i ==> json::is_said_by(#[trigger] values@[j], fields@[j].1@),
    {
        match json::parse(fields[i].1.as_str()) {
            Ok(value) => values.push(value),
            Err(_) => {
                assert(parsed(all[i as int].1) is None);
                return None;
            },
        }
    }
    Some(values)
}

fn read_integer(
    fields: &Vec<(String, String)>,
    values: &Vec<serde_json::Value>,
    name: &str,
) -> (res: Option<i64>)
    requires
        are_values(values@, field_views(fields@)),
    ensures
        res == integer_field(field_views(fields@), name@),
{
    match find_field(fields, name) {
        Some(i) => {
            assert(parsed(field_views(fields@)[i as int].1) == Some(values@[i as int]));
            json::as_i64(&values[i])
        },
        None => None,
    }
}

fn read_string(
    fields: &Vec<(String, String)>,
    values: &Vec<serde_json::Value>,
    name: &str,
) -> (res: Option<String>)
    requires
        are_values(values@, field_views(fields@)),
    ensures
        crate::text::optional(res) == string_field(field_views(fields@), name@),
{
    match find_field(fields, name) {
        Some(i) => {
            assert(parsed(field_views(fields@)[i as int].1) == Some(values@[i as int]));
            match json::as_str(&values[i]) {
                Some(s) => Some(s.to_owned()),
                None => None,
            }
        },
        None => None,
    }
}

fn read_time(
    fields: &Vec<(String, String)>,
    values: &Vec<serde_json::Value>,
    name: &str,
    now: usize,
) -> (res: Option<usize>)
    requires
        are_values(values@, field_views(fields@)),
    ensures
        res == time_field(field_views(fields@), name@, now),
{
    match find_field(fields, name) {
        Some(i) => {
            assert(parsed(field_views(fields@)[i as int].1) == Some(values@[i as int]));
            match json::as_u64(&values[i]) {
                Some(n) => if n <= usize::MAX as u64 {
                    Some(n as usize)
                } else {
                    None
                },
                None => None,
            }
        },
        None => Some(now),
    }
}

fn read_attachments(
    fields: &Vec<(String, String)>,
    values: &Vec<serde_json::Value>,
    name: &str,
) -> (res: Option<Option<Vec<i64>>>)
    requires
        are_values(values@, field_views(fields@)),
    ensures
        res is Some <==> ids_field(field_views(fields@), name@) is Some,
        res matches Some(ids) ==> ids_field(field_views(fields@), name@) == Some(
            crate::models::optional_ids(ids),
        ),
{
    match find_field(fields, name) {
        Some(i) => {
            assert(parsed(field_views(fields@)[i as int].1) == Some(values@[i as int]));
            read_ids(&values[i])
        },
        None => Some(None),
    }
}

impl Message {
    /// The message that the cache replied with. Where it replied with nothing,
    /// that is the default message; a record must have the fields of one. A
    /// message that was stored is read back as it was, in whatever order its
    /// fields come.
    pub fn from_reply(reply: CacheReply) -> (res: Result<Message, Incompatible>)
        ensures
            match reply {
                CacheReply::Nil => res matches Ok(message) && message@ == default_message(),
                CacheReply::Fields(fields) => exists|seconds: i64|
                    seconds >= 0 && match message_of(
                        field_views(fields@),
                        #[trigger] clock::timestamp_of(seconds),
                    ) {
                        Some(expected) => res matches Ok(message) && message@ == expected,
                        None => res is Err,
                    },
                CacheReply::Other => res is Err,
            },
            forall|stored: MessageView|
                #![trigger fields_of(stored)]
                #![trigger are_fields_of(field_views(reply->Fields_0@), stored)]
                reply is Fields && are_fields_of(field_views(reply->Fields_0@), stored)
                    ==> res is Ok && res->Ok_0@ == stored,
    {
        match reply {
            CacheReply::Nil => Ok(Message::default()),
            CacheReply::Fields(fields) => {
                let now = clock::current_utc_timestamp();
                Self::from_fields(&fields, now)
            },
            CacheReply::Other => Err(Incompatible),
        }
    }

    /// The message that some fields are, where they are one. The fields that a
    /// message was stored as are that message, in whatever order they come.
    pub fn from_fields(fields: &Vec<(String, String)>, now: usize) -> (res: Result<
        Message,
        Incompatible,
    >)
        ensures
            res is Ok <==> message_of(field_views(fields@), now) is Some,
            res matches Ok(message) ==> message_of(field_views(fields@), now) == Some(message@),
            forall|stored: MessageView|
                #![trigger fields_of(stored)]
                #![trigger are_fields_of(field_views(fields@), stored)]
                are_fields_of(field_views(fields@), stored) ==> res is Ok && res->Ok_0@ == stored,
    {
        let ghost all = field_views(fields@);
        proof {
            assert forall|stored: MessageView| #[trigger]
                are_fields_of(all, stored) implies forall|i: int|
                0 <= i < fields@.len() ==> json::is_written_json(#[trigger] fields@[i].1@) by {
                lemma_fields_are_written(stored);
                lemma_same_fields(all, stored);
                assert forall|i: int| 0 <= i < fields@.len() implies json::is_written_json(
                    #[trigger] fields@[i].1@,
                ) by {
                    assert(fields_of(stored).contains(all[i]));
                    assert(all[i].1 == fields@[i].1@);
                }
            }
        }
        let values = match parse_fields(fields) {
            Some(values) => values,
            None => return Err(Incompatible),
        };
        proof {
            assert forall|stored: MessageView| #[trigger]
                are_fields_of(all, stored) implies message_of(all, now) == Some(stored) by {
                assert forall|i: int| 0 <= i < values@.len() implies json::is_said_by(
                    #[trigger] values@[i],
                    all[i].1,
                ) by {
                    assert(all[i].1 == fields@[i].1@);
                }
                lemma_read_back(stored, all, values@, now);
            }
        }
        let id = read_integer(fields, &values, "id");
        let channel_id = read_integer(fields, &values, "channel_id");
        let author_id = read_integer(fields, &values, "author_id");
        let content = read_string(fields, &values, "content");
        let created_at = read_time(fields, &values, "created_at", now);
        let attachments = read_attachments(fields, &values, "attachments");
        match (id, channel_id, author_id, content, created_at, attachments) {
            (
                Some(id),
                Some(channel_id),
                Some(author_id),
                Some(content),
                Some(created_at),
                Some(attachments),
            ) => Ok(Message { id, channel_id, author_id, content, created_at, attachments }),
            _ => Err(Incompatible),
        }
    }
}

proof fn lemma_field_names()
    ensures
        "id"@ != "channel_id"@,
        "id"@ != "author_id"@,
        "id"@ != "content"@,
        "id"@ != "created_at"@,
        "id"@ != "attachments"@,
        "channel_id"@ != "author_id"@,
        "channel_id"@ != "content"@,
        "channel_id"@ != "created_at"@,
        "channel_id"@ != "attachments"@,
        "author_id"@ != "content"@,
        "author_id"@ != "created_at"@,
        "author_id"@ != "attachments"@,
        "content"@ != "created_at"@,
        "content"@ != "attachments"@,
        "created_at"@ != "attachments"@,
{
    reveal_strlit("id");
    reveal_strlit("channel_id");
    reveal_strlit("author_id");
    reveal_strlit("content");
    reveal_strlit("created_at");
    reveal_strlit("attachments");
    assert("id"@.len() == 2 && "channel_id"@.len() == 10 && "author_id"@.len() == 9);
    assert("content"@.len() == 7 && "created_at"@.len() == 10 && "attachments"@.len() == 11);
    assert("channel_id"@[1] == 'h' && "created_at"@[1] == 'r');
}

/// Fields that are those of a message in any order are those fields, and no
/// others.
proof fn lemma_same_fields(fields: Seq<(Seq<char>, Seq<char>)>, message: MessageView)
    requires
        are_fields_of(fields, message),
    ensures
        forall|i: int|
            0 <= i < fields.len() ==> fields_of(message).contains(#[trigger] fields[i]),
        forall|k: int|
            0 <= k < 6 ==> fields.contains(#[trigger] fields_of(message)[k]),
{
    let written = fields_of(message);
    fields.to_multiset_ensures();
    written.to_multiset_ensures();
    assert forall|i: int| 0 <= i < fields.len() implies written.contains(
        #[trigger] fields[i],
    ) by {
        assert(fields.contains(fields[i]));
        assert(fields.to_multiset().count(fields[i]) > 0);
    }
    assert forall|k: int| 0 <= k < 6 implies fields.contains(#[trigger] written[k]) by {
        assert(written.contains(written[k]));
        assert(written.to_multiset().count(written[k]) > 0);
    }
}

/// Where all fields with a name say the same, that is what the name leads to.
proof fn lemma_value_of(fields: Seq<(Seq<char>, Seq<char>)>, field: (Seq<char>, Seq<char>))
    requires
        fields.contains(field),
        forall|i: int|
            0 <= i < fields.len() && (#[trigger] fields[i]).0 == field.0 ==> fields[i] == field,
    ensures
        value_of(fields, field.0) == parsed(field.1),
    decreases fields.len(),
{
    if fields.last().0 == field.0 {
        assert(fields[fields.len() - 1] == field);
    } else {
        let rest = fields.drop_last();
        let i = fields.index_of(field);
        assert(rest[i] == field);
        assert forall|j: int|
            0 <= j < rest.len() && (#[trigger] rest[j]).0 == field.0 implies rest[j]
            == field by {
            assert(fields[j].0 == field.0);
        }
        lemma_value_of(rest, field);
    }
}

/// What the name of a field of a message leads to, where the fields come in any
/// order: a value that says what the field says.
proof fn lemma_field_value(
    message: MessageView,
    fields: Seq<(Seq<char>, Seq<char>)>,
    values: Seq<serde_json::Value>,
    k: int,
) -> (value: serde_json::Value)
    requires
        0 <= k < 6,
        are_fields_of(fields, message),
        are_values(values, fields),
        forall|i: int|
            0 <= i < values.len() ==> json::is_said_by(#[trigger] values[i], fields[i].1),
    ensures
        value_of(fields, fields_of(message)[k].0) == Some(value),
        json::is_said_by(value, fields_of(message)[k].1),
{
    let written = fields_of(message);
    let field = written[k];
    lemma_field_names();
    lemma_same_fields(fields, message);
    assert forall|i: int|
        0 <= i < fields.len() && (#[trigger] fields[i]).0 == field.0 implies fields[i] == field by {
        let other = written.index_of(fields[i]);
        assert(written[other] == fields[i]);
        assert(other == k);
    }
    lemma_value_of(fields, field);
    let i = fields.index_of(field);
    assert(fields[i] == field);
    values[i]
}

/// Where values say what the fields of a message say, in any order, the message
/// that they are is that one.
proof fn lemma_read_back(
    message: MessageView,
    fields: Seq<(Seq<char>, Seq<char>)>,
    values: Seq<serde_json::Value>,
    now: usize,
)
    requires
        are_fields_of(fields, message),
        are_values(values, fields),
        forall|i: int|
            0 <= i < values.len() ==> json::is_said_by(#[trigger] values[i], fields[i].1),
    ensures
        message_of(fields, now) == Some(message),
{
    let id = lemma_field_value(message, fields, values, 0);
    let channel_id = lemma_field_value(message, fields, values, 1);
    let author_id = lemma_field_value(message, fields, values, 2);
    let content = lemma_field_value(message, fields, values, 3);
    let created_at = lemma_field_value(message, fields, values, 4);
    let attachments = lemma_field_value(message, fields, values, 5);
    assert(integer_of(id) == Some(message.id));
    assert(integer_of(channel_id) == Some(message.channel_id));
    assert(integer_of(author_id) == Some(message.author_id));
    assert(string_of(content) == Some(message.content));
    assert(decimal(message.created_at as int) == decimal((message.created_at as u64) as int));
    assert(unsigned_of(created_at) == Some(message.created_at as u64));
    match message.attachments {
        Some(ids) => {
            assert(fields_of(message)[5].1 == array_text(ids));
            assert(is_array_of(attachments, ids));
            assert(ids_of(attachments)->0->0 =~= ids);
        },
        None => {
            assert(null_value(attachments));
        },
    }
}

/// The fields of a message are JSON.
proof fn lemma_fields_are_written(message: MessageView)
    ensures
        forall|i: int|
            0 <= i < 6 ==> json::is_written_json((#[trigger] fields_of(message)[i]).1),
{
    assert forall|i: int| 0 <= i < 6 implies json::is_written_json(
        (#[trigger] fields_of(message)[i]).1,
    ) by {
        let fields = fields_of(message);
        if i == 4 {
            assert(fields[i].1 == decimal((message.created_at as u64) as int));
        } else if i == 3 {
            assert(fields[i].1 == quoted(message.content));
        } else if i == 5 {
            if message.attachments is Some {
                assert(fields[i].1 == array_text(message.attachments->0));
            }
        } else if i == 0 {
            assert(fields[i].1 == decimal(message.id as int));
        } else if i == 1 {
            assert(fields[i].1 == decimal(message.channel_id as int));
        } else {
            assert(fields[i].1 == decimal(message.author_id as int));
        }
    }
}

/// Whether field `i` is the last one with the name.
pub open spec fn is_last_field(
    fields: Seq<(Seq<char>, Seq<char>)>,
    name: Seq<char>,
    i: int,
) -> bool {
    &&& 0 <= i < fields.len()
    &&& fields[i].0 == name
    &&& forall|k: int| i < k < fields.len() ==> (#[trigger] fields[k]).0 != name
}

/// What a name leads to is the last field with that name, and nothing where no
/// field has it.
pub proof fn law_the_last_field_counts(
    fields: Seq<(Seq<char>, Seq<char>)>,
    name: Seq<char>,
    i: int,
)
    ensures
        is_last_field(fields, name, i) ==> value_of(fields, name) == parsed(fields[i].1),
        (forall|k: int| 0 <= k < fields.len() ==> (#[trigger] fields[k]).0 != name) ==> value_of(
            fields,
            name,
        ) is None,
    decreases fields.len(),
{
    if fields.len() > 0 {
        let rest = fields.drop_last();
        law_the_last_field_counts(rest, name, i);
        assert(fields[fields.len() - 1] == fields.last());
        if is_last_field(fields, name, i) && i < fields.len() - 1 {
            assert(fields[fields.len() - 1].0 != name);
            assert forall|k: int| i < k < rest.len() implies (#[trigger] rest[k]).0 != name by {
                assert(fields[k].0 != name);
            }
        }
        if forall|k: int| 0 <= k < fields.len() ==> (#[trigger] fields[k]).0 != name {
            assert(fields[fields.len() - 1].0 != name);
            assert forall|k: int| 0 <= k < rest.len() implies (#[trigger] rest[k]).0 != name by {
                assert(fields[k].0 != name);
            }
        }
    }
}

/// A message that is read from fields says what the last fields with their names
/// say. Without a time it is from `now`, without attachments it has none.
pub proof fn law_a_message_says_what_its_fields_say(
    fields: Seq<(Seq<char>, Seq<char>)>,
    now: usize,
    i: int,
)
    requires
        message_of(fields, now) is Some,
    ensures
        ({
            let message = message_of(fields, now)->0;
            let value = parsed(fields[i].1);
            &&& 0 <= i < fields.len() ==> value is Some
            &&& is_last_field(fields, "id"@, i) ==> integer_of(value->0) == Some(message.id)
            &&& is_last_field(fields, "channel_id"@, i) ==> integer_of(value->0) == Some(
                message.channel_id,
            )
            &&& is_last_field(fields, "author_id"@, i) ==> integer_of(value->0) == Some(
                message.author_id,
            )
            &&& is_last_field(fields, "content"@, i) ==> string_of(value->0) == Some(
                message.content,
            )
            &&& is_last_field(fields, "created_at"@, i) ==> unsigned_of(value->0) == Some(
                message.created_at as u64,
            )
            &&& is_last_field(fields, "attachments"@, i) ==> match message.attachments {
                Some(ids) => is_array_of(value->0, ids),
                None => null_value(value->0),
            }
            &&& (forall|k: int|
                0 <= k < fields.len() ==> (#[trigger] fields[k]).0 != "created_at"@)
                ==> message.created_at == now
            &&& (forall|k: int|
                0 <= k < fields.len() ==> (#[trigger] fields[k]).0 != "attachments"@)
                ==> message.attachments is None
        }),
{
    law_the_last_field_counts(fields, "id"@, i);
    law_the_last_field_counts(fields, "channel_id"@, i);
    law_the_last_field_counts(fields, "author_id"@, i);
    law_the_last_field_counts(fields, "content"@, i);
    law_the_last_field_counts(fields, "created_at"@, i);
    law_the_last_field_counts(fields, "attachments"@, i);
}

/// Fields that are all JSON are a message where id, channel, author and text are
/// there and of their kind, and time and attachments are of their kind or not
/// there.
pub proof fn law_complete_fields_are_a_message(
    fields: Seq<(Seq<char>, Seq<char>)>,
    now: usize,
    id: int,
    channel_id: int,
    author_id: int,
    content: int,
    created_at: int,
    attachments: int,
    ids: Seq<i64>,
)
    requires
        forall|k: int| 0 <= k < fields.len() ==> parsed((#[trigger] fields[k]).1) is Some,
        is_last_field(fields, "id"@, id),
        integer_of(parsed(fields[id].1)->0) is Some,
        is_last_field(fields, "channel_id"@, channel_id),
        integer_of(parsed(fields[channel_id].1)->0) is Some,
        is_last_field(fields, "author_id"@, author_id),
        integer_of(parsed(fields[author_id].1)->0) is Some,
        is_last_field(fields, "content"@, content),
        string_of(parsed(fields[content].1)->0) is Some,
        (forall|k: int| 0 <= k < fields.len() ==> (#[trigger] fields[k]).0 != "created_at"@) || (
        is_last_field(fields, "created_at"@, created_at) && unsigned_of(
            parsed(fields[created_at].1)->0,
        ) is Some && unsigned_of(parsed(fields[created_at].1)->0)->0 <= usize::MAX),
        (forall|k: int| 0 <= k < fields.len() ==> (#[trigger] fields[k]).0 != "attachments"@) || (
        is_last_field(fields, "attachments"@, attachments) && (null_value(
            parsed(fields[attachments].1)->0,
        ) || is_array_of(parsed(fields[attachments].1)->0, ids))),
    ensures
        message_of(fields, now) is Some,
{
    law_the_last_field_counts(fields, "id"@, id);
    law_the_last_field_counts(fields, "channel_id"@, channel_id);
    law_the_last_field_counts(fields, "author_id"@, author_id);
    law_the_last_field_counts(fields, "content"@, content);
    law_the_last_field_counts(fields, "created_at"@, created_at);
    law_the_last_field_counts(fields, "attachments"@, attachments);
    assert(fields[id].0 == "id"@);
    assert(fields[channel_id].0 == "channel_id"@);
    assert(fields[author_id].0 == "author_id"@);
    assert(fields[content].0 == "content"@);
    if is_last_field(fields, "created_at"@, created_at) {
        assert(fields[created_at].0 == "created_at"@);
    }
    if is_last_field(fields, "attachments"@, attachments) {
        assert(fields[attachments].0 == "attachments"@);
    }
}

/// Fields are no message where one of them is not JSON, or where the id, the
/// channel, the author or the text is missing.
pub proof fn law_incomplete_fields_are_no_message(
    fields: Seq<(Seq<char>, Seq<char>)>,
    now: usize,
    i: int,
)
    ensures
        0 <= i < fields.len() && parsed(fields[i].1) is None ==> message_of(fields, now) is None,
        (forall|k: int| 0 <= k < fields.len() ==> (#[trigger] fields[k]).0 != "id"@)
            ==> message_of(fields, now) is None,
        (forall|k: int| 0 <= k < fields.len() ==> (#[trigger] fields[k]).0 != "channel_id"@)
            ==> message_of(fields, now) is None,
        (forall|k: int| 0 <= k < fields.len() ==> (#[trigger] fields[k]).0 != "author_id"@)
            ==> message_of(fields, now) is None,
        (forall|k: int| 0 <= k < fields.len() ==> (#[trigger] fields[k]).0 != "content"@)
            ==> message_of(fields, now) is None,
{
    law_the_last_field_counts(fields, "id"@, i);
    law_the_last_field_counts(fields, "channel_id"@, i);
    law_the_last_field_counts(fields, "author_id"@, i);
    law_the_last_field_counts(fields, "content"@, i);
}

/// A message is stored as six fields: its numbers in decimal notation, its text
/// quoted, and its attachments as a list of numbers or as null.
pub proof fn law_stored_fields_hold_the_message(message: MessageView)
    ensures
        fields_of(message).len() == 6,
        fields_of(message).contains(("id"@, decimal(message.id as int))),
        fields_of(message).contains(("channel_id"@, decimal(message.channel_id as int))),
        fields_of(message).contains(("author_id"@, decimal(message.author_id as int))),
        fields_of(message).contains(("content"@, quoted(message.content))),
        fields_of(message).contains(("created_at"@, decimal(message.created_at as int))),
        message.attachments is None ==> fields_of(message).contains(("attachments"@, "null"@)),
        message.attachments is Some ==> fields_of(message).contains(
            ("attachments"@, array_text(message.attachments->0)),
        ),
{
    let fields = fields_of(message);
    assert(fields[0] == ("id"@, decimal(message.id as int)));
    assert(fields[1] == ("channel_id"@, decimal(message.channel_id as int)));
    assert(fields[2] == ("author_id"@, decimal(message.author_id as int)));
    assert(fields[3] == ("content"@, quoted(message.content)));
    assert(fields[4] == ("created_at"@, decimal(message.created_at as int)));
    assert(fields[5].0 == "attachments"@);
}

/// The view of fields has their names and values, in order.
pub proof fn law_views_of_fields(fields: Seq<(String, String)>, i: int)
    ensures
        field_views(fields).len() == fields.len(),
        0 <= i < fields.len() ==> field_views(fields)[i] == (fields[i].0@, fields[i].1@),
{
}

} // verus!
