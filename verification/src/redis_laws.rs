//! What holds of the cache.
use crate::models::{User, UserView};
use crate::redis::{
    after_token, after_user, changed_fields, collection_of, first_step, hits, is_username, item_key,
    key_prefix, misses, modified, optional_user, starts_fetch, token_key, wanted_ids, FetchStep,
    FetchUserId, FetchUserIdView, ItemKind, ModifyUser, ModifyUserView, UserStep, UserStepView,
};
use crate::text::{decimal, is_digit, lemma_decimal, lemma_decimal_injective};
use vstd::prelude::*;

verus! {

/// Every record has a cache key of its own, whatever its kind.
pub proof fn law_keys_are_distinct(a: ItemKind, i: i64, b: ItemKind, j: i64)
    requires
        item_key(a, i) == item_key(b, j),
    ensures
        a == b,
        i == j,
{
    reveal_strlit("attachment_");
    reveal_strlit("channel_");
    reveal_strlit("message_");
    reveal_strlit("user_");
    assert(item_key(a, i)[0] == key_prefix(a)[0]);
    assert(item_key(b, j)[0] == key_prefix(b)[0]);
    let len = key_prefix(a).len() as int;
    assert(item_key(a, i).skip(len) =~= decimal(i as int));
    assert(item_key(b, j).skip(len) =~= decimal(j as int));
    lemma_decimal_injective(i as int, j as int);
}

/// Every token has a cache key of its own, and none is the key of a record.
pub proof fn law_token_keys_are_distinct(
    token: Seq<char>,
    other: Seq<char>,
    kind: ItemKind,
    id: i64,
)
    ensures
        token_key(token) == token_key(other) ==> token == other,
        token_key(token) != item_key(kind, id),
{
    reveal_strlit("attachment_");
    reveal_strlit("channel_");
    reveal_strlit("message_");
    reveal_strlit("user_");
    reveal_strlit("user_token_");
    let len = "user_token_"@.len() as int;
    assert(token_key(token).skip(len) =~= token);
    assert(token_key(other).skip(len) =~= other);
    lemma_decimal(id as int);
    assert(token_key(token)[0] == 'u');
    assert(token_key(token)[5] == 't');
    if kind == ItemKind::User {
        assert(item_key(kind, id)[5] == decimal(id as int)[0]);
        assert(is_digit(decimal(id as int)[0]) || decimal(id as int)[0] == '-');
    } else {
        assert(item_key(kind, id)[0] == key_prefix(kind)[0]);
    }
}

/// Records are fetched from the cache first: where it has them all, the
/// database is not asked.
pub proof fn law_the_cache_comes_first<T>(ids: Seq<i64>, replies: Seq<Option<T>>)
    requires
        ids.len() == replies.len(),
        forall|i: int| 0 <= i < replies.len() ==> (#[trigger] replies[i]) is Some,
    ensures
        misses(ids, replies).len() == 0,
        hits(replies) == Seq::new(replies.len(), |i: int| replies[i]->0),
    decreases replies.len(),
{
    if replies.len() > 0 {
        let rest = replies.drop_last();
        assert forall|i: int| 0 <= i < rest.len() implies (#[trigger] rest[i]) is Some by {
            assert(replies[i] is Some);
        }
        lemma_misses_of_prefix(ids, rest);
        law_the_cache_comes_first(ids.drop_last(), rest);
        assert(replies[replies.len() - 1] is Some);
        assert(hits(replies) =~= Seq::new(replies.len(), |i: int| replies[i]->0));
    } else {
        assert(hits(replies) =~= Seq::new(replies.len(), |i: int| replies[i]->0));
    }
}

proof fn lemma_misses_of_prefix<T>(ids: Seq<i64>, replies: Seq<Option<T>>)
    requires
        ids.len() == replies.len() + 1,
    ensures
        misses(ids, replies) == misses(ids.drop_last(), replies),
{
    lemma_misses_agree(ids, ids.drop_last(), replies);
}

proof fn lemma_misses_agree<T>(ids: Seq<i64>, other: Seq<i64>, replies: Seq<Option<T>>)
    requires
        ids.len() >= replies.len(),
        other.len() >= replies.len(),
        forall|i: int| 0 <= i < replies.len() ==> ids[i] == other[i],
    ensures
        misses(ids, replies) == misses(other, replies),
    decreases replies.len(),
{
    if replies.len() > 0 {
        lemma_misses_agree(ids, other, replies.drop_last());
    }
}

/// The database is asked for exactly the ids that the cache did not have, and
/// every id is either found in the cache or asked for.
pub proof fn law_only_misses_are_asked_for<T>(ids: Seq<i64>, replies: Seq<Option<T>>, id: i64)
    requires
        ids.len() == replies.len(),
    ensures
        misses(ids, replies).contains(id) <==> exists|i: int|
            0 <= i < ids.len() && #[trigger] ids[i] == id && replies[i] is None,
        hits(replies).len() + misses(ids, replies).len() == ids.len(),
    decreases replies.len(),
{
    if replies.len() > 0 {
        let rest = replies.drop_last();
        let fewer = ids.drop_last();
        lemma_misses_of_prefix(ids, rest);
        law_only_misses_are_asked_for(fewer, rest, id);
        let before = misses(fewer, rest);
        let last = ids.len() - 1;
        if replies.last() is None {
            crate::lists::lemma_push_contains(before, ids[last]);
        }
        if exists|i: int| 0 <= i < ids.len() && #[trigger] ids[i] == id && replies[i] is None {
            let i = choose|i: int|
                0 <= i < ids.len() && #[trigger] ids[i] == id && replies[i] is None;
            if i < last {
                assert(fewer[i] == id && rest[i] is None);
            }
        }
        if before.contains(id) {
            let i = choose|i: int|
                0 <= i < fewer.len() && #[trigger] fewer[i] == id && rest[i] is None;
            assert(ids[i] == id && replies[i] is None);
        }
        assert(ids[last] == ids.last());
    }
}

/// What a cache replies for ids of a kind.
pub open spec fn replies<T>(
    cache: Map<Seq<char>, T>,
    kind: ItemKind,
    ids: Seq<i64>,
) -> Seq<Option<T>> {
    Seq::new(ids.len(), |i: int| reply(cache, item_key(kind, ids[i])))
}

/// A record that was stored under its key is found in the cache: the database
/// is not asked for it.
pub proof fn law_stored_records_are_found<T>(
    cache: Map<Seq<char>, T>,
    kind: ItemKind,
    id: i64,
    record: T,
    ids: Seq<i64>,
)
    ensures
        ({
            let after = replies(cache.insert(item_key(kind, id), record), kind, ids);
            &&& forall|i: int| 0 <= i < ids.len() && ids[i] == id ==> after[i] == Some(record)
            &&& !misses(ids, after).contains(id)
        }),
{
    let after = replies(cache.insert(item_key(kind, id), record), kind, ids);
    law_only_misses_are_asked_for(ids, after, id);
}

/// Storing a record does not change what the cache replies for other ids, nor
/// for records of another kind.
pub proof fn law_storing_leaves_the_others<T>(
    cache: Map<Seq<char>, T>,
    kind: ItemKind,
    id: i64,
    record: T,
    other: ItemKind,
    ids: Seq<i64>,
)
    requires
        other != kind || !ids.contains(id),
    ensures
        replies(cache.insert(item_key(kind, id), record), other, ids) == replies(cache, other, ids),
{
    let after = replies(cache.insert(item_key(kind, id), record), other, ids);
    assert forall|i: int| 0 <= i < ids.len() implies after[i] == replies(cache, other, ids)[i] by {
        assert(ids.contains(ids[i]));
        if item_key(other, ids[i]) == item_key(kind, id) {
            law_keys_are_distinct(other, ids[i], kind, id);
        }
    }
    assert(after =~= replies(cache, other, ids));
}

/// What a cache holds of users.
pub struct UserCache {
    /// Users by key
    pub users: Map<Seq<char>, UserView>,
    /// Ids by key
    pub ids: Map<Seq<char>, i64>,
}

/// What a key leads to.
pub open spec fn reply<V>(table: Map<Seq<char>, V>, key: Seq<char>) -> Option<V> {
    if table.contains_key(key) {
        Some(table[key])
    } else {
        None
    }
}

impl UserCache {
    /// The cache after a user was written into it.
    pub open spec fn with(self, user: UserView) -> UserCache {
        UserCache {
            users: self.users.insert(item_key(ItemKind::User, user.id), user),
            ids: self.ids.insert(token_key(user.token), user.id),
        }
    }

    /// The step that follows where the cache is read as `step` says.
    pub open spec fn answers(self, step: UserStepView) -> UserStepView {
        match step {
            UserStepView::ReadToken { token, key } => after_token(token, reply(self.ids, key)),
            UserStepView::ReadUser { id, key } => after_user(id, reply(self.users, key)),
            other => other,
        }
    }

    /// What looking for a user in the cache comes to.
    pub open spec fn looks_up(self, wanted: FetchUserIdView) -> UserStepView {
        self.answers(self.answers(first_step(wanted)))
    }
}

/// Looking for a user in the cache comes to an end: the user is found, or the
/// database is asked.
pub proof fn law_looking_up_ends(cache: UserCache, wanted: FetchUserIdView)
    ensures
        cache.looks_up(wanted) is Done || cache.looks_up(wanted) is Query,
{
}

/// A user who was written into the cache is found there, by id and by token.
pub proof fn law_cached_users_are_found(cache: UserCache, user: UserView)
    ensures
        cache.with(user).looks_up(FetchUserIdView::Id(user.id)) == UserStepView::Done(user),
        cache.with(user).looks_up(FetchUserIdView::Token(user.token)) == UserStepView::Done(user),
{
}

/// Writing a user into the cache does not change what is found for other ids,
/// nor for other tokens that do not lead to that user.
pub proof fn law_other_users_are_not_touched(
    cache: UserCache,
    user: UserView,
    id: i64,
    token: Seq<char>,
)
    requires
        id != user.id,
        token != user.token,
        reply(cache.ids, token_key(token)) != Some(user.id),
    ensures
        cache.with(user).looks_up(FetchUserIdView::Id(id)) == cache.looks_up(
            FetchUserIdView::Id(id),
        ),
        cache.with(user).looks_up(FetchUserIdView::Token(token)) == cache.looks_up(
            FetchUserIdView::Token(token),
        ),
{
    if item_key(ItemKind::User, id) == item_key(ItemKind::User, user.id) {
        law_keys_are_distinct(ItemKind::User, id, ItemKind::User, user.id);
    }
    law_token_keys_are_distinct(token, user.token, ItemKind::User, id);
    if let Some(other) = reply(cache.ids, token_key(token)) {
        if item_key(ItemKind::User, other) == item_key(ItemKind::User, user.id) {
            law_keys_are_distinct(ItemKind::User, other, ItemKind::User, user.id);
        }
    }
}

/// A user that the cache has not is asked for in the database by what is known:
/// by id, or by token where the cache does not lead from it to an id.
pub proof fn law_an_empty_cache_asks_for_what_is_wanted(wanted: FetchUserIdView)
    ensures
        (UserCache { users: Map::empty(), ids: Map::empty() }).looks_up(wanted)
            == UserStepView::Query(wanted),
{
}

/// An account after a field of its record was written.
pub open spec fn write_field(user: UserView, field: (Seq<char>, Seq<char>)) -> UserView {
    if field.0 == "username"@ {
        UserView { username: field.1, ..user }
    } else if field.0 == "avatar"@ {
        UserView { avatar: Some(field.1), ..user }
    } else {
        user
    }
}

/// An account after fields of its record were written.
pub open spec fn write_fields(user: UserView, fields: Seq<(Seq<char>, Seq<char>)>) -> UserView
    decreases fields.len(),
{
    if fields.len() == 0 {
        user
    } else {
        write_field(write_fields(user, fields.drop_last()), fields.last())
    }
}

/// The fields that a change writes make of the stored record what the change
/// makes of the account, and what is written twice is as if written once.
pub proof fn law_stored_changes_are_the_changes(user: UserView, data: ModifyUserView)
    ensures
        write_fields(user, changed_fields(data)) == modified(user, data),
        modified(modified(user, data), data) == modified(user, data),
{
    reveal_strlit("username");
    reveal_strlit("avatar");
    assert("username"@.len() == 8 && "avatar"@.len() == 6);
    let fields = changed_fields(data);
    reveal_with_fuel(write_fields, 3);
    if data.username is Some && data.avatar is Some {
        assert(fields.drop_last() =~= seq![("username"@, data.username->0)]);
        assert(fields.drop_last().drop_last() =~= Seq::empty());
    } else if data.username is Some || data.avatar is Some {
        assert(fields.drop_last() =~= Seq::empty());
    }
}

/// A change touches nothing of an account but its username and avatar.
pub proof fn law_changes_keep_the_rest(user: UserView, data: ModifyUserView)
    ensures
        modified(user, data).id == user.id,
        modified(user, data).email == user.email,
        modified(user, data).password == user.password,
        modified(user, data).token == user.token,
        modified(user, data).created_at == user.created_at,
        data.username is None ==> modified(user, data).username == user.username,
        data.avatar is None ==> modified(user, data).avatar == user.avatar,
{
}

/// The cache key of a record is the name of its kind and its id.
pub proof fn law_keys_name_the_record(id: i64, token: Seq<char>)
    ensures
        item_key(ItemKind::Attachment, id) == "attachment_"@ + decimal(id as int),
        item_key(ItemKind::Channel, id) == "channel_"@ + decimal(id as int),
        item_key(ItemKind::Message, id) == "message_"@ + decimal(id as int),
        item_key(ItemKind::User, id) == "user_"@ + decimal(id as int),
        token_key(token) == "user_token_"@ + token,
{
}

/// Each kind of record has a collection of its own.
pub proof fn law_collections_are_distinct(a: ItemKind, b: ItemKind)
    requires
        collection_of(a) == collection_of(b),
    ensures
        a == b,
{
    reveal_strlit("attachments");
    reveal_strlit("channels");
    reveal_strlit("messages");
    reveal_strlit("users");
    assert(collection_of(ItemKind::Attachment)[0] == 'a');
    assert(collection_of(ItemKind::Channel)[0] == 'c');
    assert(collection_of(ItemKind::Message)[0] == 'm');
    assert(collection_of(ItemKind::User)[0] == 'u');
}

/// To fetch no records, nothing is done. To fetch some, their keys are read in
/// the order of the ids, one for each; to fetch all, none is read.
pub proof fn law_every_id_is_looked_for<T>(
    step: FetchStep<T>,
    kind: ItemKind,
    ids: Seq<i64>,
    all: FetchStep<T>,
)
    requires
        starts_fetch(step, kind, Some(ids)),
        starts_fetch(all, kind, None),
    ensures
        ids.len() == 0 ==> step is Done && step->Done_0@.len() == 0,
        ids.len() > 0 ==> {
            &&& step is Connect
            &&& step->Connect_0.keys is Some
            &&& step->Connect_0.keys->0@.len() == ids.len()
            &&& forall|i: int|
                0 <= i < ids.len() ==> (#[trigger] step->Connect_0.keys->0@[i])@ == key_prefix(kind)
                    + decimal(ids[i] as int)
        },
        all is Connect && all->Connect_0.keys is None,
{
}

/// What the cache had is kept in the order of the replies: replies that come one
/// after the other leave what each of them leaves, a reply with a record leaves
/// that record, and one without a record leaves nothing.
pub proof fn law_hits_keep_their_order<T>(a: Seq<Option<T>>, b: Seq<Option<T>>, item: T)
    ensures
        hits(a + b) == hits(a) + hits(b),
        hits(seq![Some(item)]) == seq![item],
        hits(seq![None::<T>]) == Seq::<T>::empty(),
        hits(Seq::<Option<T>>::empty()) == Seq::<T>::empty(),
    decreases b.len(),
{
    reveal_with_fuel(hits, 2);
    assert(seq![Some(item)].drop_last() =~= Seq::<Option<T>>::empty());
    assert(seq![None::<T>].drop_last() =~= Seq::<Option<T>>::empty());
    assert(hits(seq![Some(item)]) =~= seq![item]);
    if b.len() == 0 {
        assert(a + b =~= a);
        assert(hits(a + b) =~= hits(a) + hits(b));
    } else {
        assert((a + b).drop_last() =~= a + b.drop_last());
        law_hits_keep_their_order(a, b.drop_last(), item);
        assert(hits(a + b) =~= hits(a) + hits(b));
    }
}

/// What the database is asked for is kept in the order of the ids: an id whose
/// record the cache had is left out, and one whose record it had not is asked
/// for.
pub proof fn law_misses_keep_their_order<T>(
    ids: Seq<i64>,
    replies: Seq<Option<T>>,
    id: i64,
    reply: Option<T>,
)
    requires
        ids.len() == replies.len(),
    ensures
        misses(ids.push(id), replies.push(reply)) == if reply is None {
            misses(ids, replies).push(id)
        } else {
            misses(ids, replies)
        },
        misses(Seq::<i64>::empty(), Seq::<Option<T>>::empty()) == Seq::<i64>::empty(),
{
    assert(replies.push(reply).drop_last() =~= replies);
    lemma_misses_agree(ids.push(id), ids, replies);
}

/// How a user is looked for: an id that is known leads to the user under its
/// key, a token first to the id under its own; what the cache has is the user,
/// and what it has not is asked for by the id where that is known.
pub proof fn law_how_a_user_is_looked_for(id: i64, token: Seq<char>, user: UserView)
    ensures
        first_step(FetchUserIdView::Id(id)) == (UserStepView::ReadUser {
            id,
            key: "user_"@ + decimal(id as int),
        }),
        first_step(FetchUserIdView::Token(token)) == (UserStepView::ReadToken {
            token,
            key: "user_token_"@ + token,
        }),
        after_token(token, Some(id)) == first_step(FetchUserIdView::Id(id)),
        after_token(token, None) == UserStepView::Query(FetchUserIdView::Token(token)),
        after_user(id, Some(user)) == UserStepView::Done(user),
        after_user(id, None) == UserStepView::Query(FetchUserIdView::Id(id)),
{
}

/// A change that is given is made: the account has the new username and the new
/// avatar, and the fields that are written are these, under their names.
pub proof fn law_given_changes_are_made(
    user: UserView,
    data: ModifyUserView,
    username: Seq<char>,
    avatar: Seq<char>,
)
    ensures
        data.username == Some(username) ==> modified(user, data).username == username,
        data.avatar == Some(avatar) ==> modified(user, data).avatar == Some(avatar),
        changed_fields(data).contains(("username"@, username)) <==> data.username == Some(username),
        changed_fields(data).contains(("avatar"@, avatar)) <==> data.avatar == Some(avatar),
        changed_fields(data).len() == (if data.username is Some {
            1int
        } else {
            0
        }) + (if data.avatar is Some {
            1int
        } else {
            0
        }),
{
    reveal_strlit("username");
    reveal_strlit("avatar");
    assert("username"@.len() == 8 && "avatar"@.len() == 6);
    let fields = changed_fields(data);
    if data.username is Some {
        assert(fields[0] == ("username"@, data.username->0));
    }
    if data.avatar is Some {
        assert(fields[fields.len() - 1] == ("avatar"@, data.avatar->0));
    }
}

/// A username has between two and 32 characters, none of them a control
/// character.
pub proof fn law_usernames(name: Seq<char>)
    ensures
        is_username(name) <==> 2 <= name.len() <= 32 && forall|i: int|
            0 <= i < name.len() ==> #[trigger] name[i] as u32 >= 0x20 && !(0x7f <= name[i] as u32
                <= 0x9f),
{
    if is_username(name) {
        assert forall|i: int| 0 <= i < name.len() implies #[trigger] name[i] as u32 >= 0x20 && !(
        0x7f <= name[i] as u32 <= 0x9f) by {
            crate::validation::law_what_passes(name, 2, 32, i);
        }
    }
    crate::validation::law_what_passes(name, 2, 32, 0);
}

/// The ids that are wanted are those that are given, where some are.
pub proof fn law_wanted_ids_are_those_given(ids: &[i64])
    ensures
        wanted_ids(Some(ids)) == Some(ids@),
        wanted_ids(None) is None,
{
}

/// The view of a step has what the step has.
pub proof fn law_views_of_steps(
    id: i64,
    token: String,
    key: String,
    user: User,
    wanted: FetchUserId,
    data: ModifyUser,
)
    ensures
        FetchUserId::Id(id)@ == FetchUserIdView::Id(id),
        FetchUserId::Token(token)@ == FetchUserIdView::Token(token@),
        (UserStep::ReadToken { token, key })@ == (UserStepView::ReadToken {
            token: token@,
            key: key@,
        }),
        (UserStep::ReadUser { id, key })@ == (UserStepView::ReadUser { id, key: key@ }),
        UserStep::Query(wanted)@ == UserStepView::Query(wanted@),
        UserStep::Done(user)@ == UserStepView::Done(user@),
        optional_user(Some(user)) == Some(user@),
        optional_user(None) is None,
        data.username is None <==> data@.username is None,
        data.username is Some ==> data@.username == Some(data.username->0@),
        data.avatar is None <==> data@.avatar is None,
        data.avatar is Some ==> data@.avatar == Some(data.avatar->0@),
{
}

} // verus!
