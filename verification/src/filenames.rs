//! Names of uploaded files.
use vstd::prelude::*;
use vstd::string::*;

verus! {

/// What is left of a file name when it is sanitized, for a Windows system or
/// for another one.
pub uninterp spec fn cleaned(name: Seq<char>, windows: bool) -> Seq<char>;

/// Whether a character may stand in a file name. Separators of paths, the
/// other characters that file systems reserve, and control characters may not.
pub open spec fn is_file_name_char(c: char) -> bool {
    &&& c != '/' && c != '\\' && c != '?' && c != '<' && c != '>' && c != ':' && c != '*' && c != '|'
        && c != '"'
    &&& !(c as u32 <= 0x1f)
    &&& !(0x80 <= c as u32 <= 0x9f)
}

/// `sanitize_filename::sanitize`: the named rest of `name`, by the rules of the
/// system that the program is compiled for. Its rules only leave characters
/// out, among them all that may not stand in a file name, and cut it after 255
/// bytes.
#[verifier::external_body]
pub(crate) fn sanitize(name: &str) -> (res: String)
    ensures
        res@ == cleaned(name@, false) || res@ == cleaned(name@, true),
        forall|i: int| 0 <= i < res@.len() ==> is_file_name_char(#[trigger] res@[i]),
        res@.len() <= 255,
{
    sanitize_filename::sanitize(name)
}

/// Where the last dot of a name stands, or -1.
pub open spec fn last_dot(name: Seq<char>) -> int
    decreases name.len(),
{
    if name.len() == 0 {
        -1
    } else if name.last() == '.' {
        name.len() - 1
    } else {
        last_dot(name.drop_last())
    }
}

/// A name up to its last dot.
pub open spec fn stem(name: Seq<char>) -> Seq<char> {
    if last_dot(name) < 0 {
        name
    } else {
        name.take(last_dot(name))
    }
}

/// A name from its last dot on.
pub open spec fn extension(name: Seq<char>) -> Seq<char> {
    if last_dot(name) < 0 {
        Seq::empty()
    } else {
        name.skip(last_dot(name))
    }
}

/// Splits a name at its last dot. The dot goes to the extension.
pub fn split_name(name: &str) -> (res: (String, String))
    ensures
        res.0@ == stem(name@),
        res.1@ == extension(name@),
{
    let len = name.unicode_len();
    let mut end: usize = len;
    assert(name@.take(len as int) =~= name@);
    while end > 0
        invariant
            end <= len,
            len == name@.len(),
            last_dot(name@.take(end as int)) == last_dot(name@),
        decreases end,
    {
        assert(name@.take(end as int).drop_last() =~= name@.take(end - 1));
        if name.get_char(end - 1) == '.' {
            let first = name.substring_char(0, end - 1);
            let rest = name.substring_char(end - 1, len);
            assert(first@ =~= stem(name@));
            assert(rest@ =~= extension(name@));
            return (first.to_owned(), rest.to_owned());
        }
        end = end - 1;
    }
    (name.to_owned(), String::new())
}

proof fn lemma_last_dot(name: Seq<char>)
    ensures
        -1 <= last_dot(name) < name.len(),
        last_dot(name) >= 0 ==> name[last_dot(name)] == '.',
        forall|i: int| last_dot(name) < i < name.len() ==> name[i] != '.',
    decreases name.len(),
{
    if name.len() > 0 && name.last() != '.' {
        lemma_last_dot(name.drop_last());
        assert forall|i: int| last_dot(name) < i < name.len() implies name[i] != '.' by {
            if i < name.len() - 1 {
                assert(name.drop_last()[i] == name[i]);
            }
        }
    }
}

/// Stem and extension together are the whole name. The extension is empty or
/// begins with a dot, and holds no other; without a dot there is none.
pub proof fn law_name_is_stem_and_extension(name: Seq<char>)
    ensures
        stem(name) + extension(name) == name,
        extension(name).len() > 0 ==> extension(name)[0] == '.',
        forall|i: int| 0 < i < extension(name).len() ==> extension(name)[i] != '.',
        extension(name).len() == 0 <==> !name.contains('.'),
{
    lemma_last_dot(name);
    assert(stem(name) + extension(name) =~= name);
    if last_dot(name) >= 0 {
        assert(name.contains(name[last_dot(name)]));
    }
}

} // verus!
