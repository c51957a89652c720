//! JSON values.
use crate::text::{
    decimal, is_digit, lemma_decimal, lemma_decimal_injective, lemma_same_up_to_a_mark,
};
use vstd::prelude::*;

verus! {

#[verifier::external_type_specification]
#[verifier::external_body]
pub struct ExValue(serde_json::Value);

/// The number that a JSON value is, where it is an integer that a `u64` holds.
pub uninterp spec fn unsigned_of(value: serde_json::Value) -> Option<u64>;

/// `serde_json::Value::as_u64`: the named number, and none for any other value.
#[verifier::external_body]
pub(crate) fn as_u64(value: &serde_json::Value) -> (res: Option<u64>)
    ensures
        res == unsigned_of(*value),
{
    value.as_u64()
}

/// The number that a JSON value is, where there is a value and it is one.
pub open spec fn optional_unsigned(value: Option<&serde_json::Value>) -> Option<u64> {
    match value {
        Some(v) => unsigned_of(*v),
        None => None,
    }
}

#[verifier::external_type_specification]
#[verifier::external_body]
pub struct ExJsonError(serde_json::Error);

/// The value that a text is the JSON of.
pub uninterp spec fn parsed(text: Seq<char>) -> Option<serde_json::Value>;

/// The JSON of a string.
pub uninterp spec fn quoted(text: Seq<char>) -> Seq<char>;

/// The number that a JSON value is, where it is an integer that an `i64` holds.
pub uninterp spec fn integer_of(value: serde_json::Value) -> Option<i64>;

/// The string that a JSON value is.
pub uninterp spec fn string_of(value: serde_json::Value) -> Option<Seq<char>>;

/// The elements of the array that a JSON value is.
pub uninterp spec fn elements_of(value: serde_json::Value) -> Option<Seq<serde_json::Value>>;

/// Whether a JSON value is null.
pub uninterp spec fn null_value(value: serde_json::Value) -> bool;

/// The numbers in decimal notation, with commas between them.
pub open spec fn comma_separated(ids: Seq<i64>) -> Seq<char>
    decreases ids.len(),
{
    if ids.len() == 0 {
        Seq::empty()
    } else if ids.len() == 1 {
        decimal(ids[0] as int)
    } else {
        comma_separated(ids.drop_last()) + ","@ + decimal(ids.last() as int)
    }
}

/// The JSON of a list of numbers.
pub open spec fn array_text(ids: Seq<i64>) -> Seq<char> {
    "["@ + comma_separated(ids) + "]"@
}

/// Whether a value is an array of these numbers.
pub open spec fn is_array_of(value: serde_json::Value, ids: Seq<i64>) -> bool {
    &&& !null_value(value)
    &&& elements_of(value) matches Some(elements)
    &&& elements.len() == ids.len()
    &&& forall|i: int|
        0 <= i < ids.len() ==> integer_of(#[trigger] elements[i]) == Some(ids[i])
}

/// Whether `text` is JSON of one of the forms that are written here: a number
/// in decimal notation, a string that was quoted, `null`, or an array of
/// numbers.
pub open spec fn is_written_json(text: Seq<char>) -> bool {
    ||| exists|n: i64| text == #[trigger] decimal(n as int)
    ||| exists|n: u64| text == #[trigger] decimal(n as int)
    ||| exists|s: Seq<char>| text == #[trigger] quoted(s)
    ||| text == "null"@
    ||| exists|ids: Seq<i64>| text == #[trigger] array_text(ids)
}

/// Whether `value` is what `text` says, where the text has one of those forms.
pub open spec fn is_said_by(value: serde_json::Value, text: Seq<char>) -> bool {
    &&& forall|n: i64| text == #[trigger] decimal(n as int) ==> integer_of(value) == Some(n)
    &&& forall|n: u64| text == #[trigger] decimal(n as int) ==> unsigned_of(value) == Some(n)
    &&& forall|s: Seq<char>| text == #[trigger] quoted(s) ==> string_of(value) == Some(s)
    &&& text == "null"@ ==> null_value(value)
    &&& forall|ids: Seq<i64>| text == #[trigger] array_text(ids) ==> is_array_of(value, ids)
}

/// `serde_json::from_str` to a `serde_json::Value`: the named value, or an
/// error where the text is not JSON. What is claimed beyond that is that what
/// is written as JSON is read as what it says: a number in decimal notation as
/// that number, a quoted string as that string, `null` as null, and an array of
/// numbers as those numbers.
#[verifier::external_body]
pub(crate) fn parse(text: &str) -> (res: Result<serde_json::Value, serde_json::Error>)
    ensures
        res is Ok <==> parsed(text@) is Some,
        res matches Ok(value) ==> parsed(text@) == Some(value),
        is_written_json(text@) ==> res is Ok,
        res matches Ok(value) ==> is_said_by(value, text@),
{
    serde_json::from_str(text)
}

/// The `Display` of a `serde_json::Value` made of a string: the named JSON.
#[verifier::external_body]
pub(crate) fn quote(text: &str) -> (res: String)
    ensures
        res@ == quoted(text@),
{
    serde_json::Value::from(text).to_string()
}

/// `serde_json::Value::as_i64`: the named number, and none for any other value.
#[verifier::external_body]
pub(crate) fn as_i64(value: &serde_json::Value) -> (res: Option<i64>)
    ensures
        res == integer_of(*value),
{
    value.as_i64()
}

/// `serde_json::Value::as_str`: the named string, and none for any other value.
#[verifier::external_body]
pub(crate) fn as_str(value: &serde_json::Value) -> (res: Option<&str>)
    ensures
        res is Some <==> string_of(*value) is Some,
        res matches Some(s) ==> string_of(*value) == Some(s@),
{
    value.as_str()
}

/// `serde_json::Value::as_array`: the named elements, and none for any other
/// value.
#[verifier::external_body]
pub(crate) fn as_array(value: &serde_json::Value) -> (res: Option<&Vec<serde_json::Value>>)
    ensures
        res is Some <==> elements_of(*value) is Some,
        res matches Some(v) ==> elements_of(*value) == Some(v@),
{
    value.as_array()
}

/// `serde_json::Value::is_null`.
#[verifier::external_body]
pub(crate) fn is_null(value: &serde_json::Value) -> (res: bool)
    ensures
        res == null_value(*value),
{
    value.is_null()
}

/// The JSON of a list of numbers stands in brackets. One number is its decimal
/// notation, and two lists one after the other have a comma between them.
pub proof fn law_lists_are_written_in_order(a: Seq<i64>, b: Seq<i64>, n: i64)
    ensures
        array_text(a) == "["@ + comma_separated(a) + "]"@,
        comma_separated(seq![n]) == decimal(n as int),
        comma_separated(a + Seq::empty()) == comma_separated(a),
        comma_separated(Seq::<i64>::empty()) == Seq::<char>::empty(),
        a.len() > 0 && b.len() > 0 ==> comma_separated(a + b) == comma_separated(a) + ","@
            + comma_separated(b),
    decreases b.len(),
{
    assert(a + Seq::empty() =~= a);
    if a.len() > 0 && b.len() > 0 {
        let all = a + b;
        assert(all.drop_last() =~= a + b.drop_last());
        assert(all.last() == b.last());
        if b.len() == 1 {
            assert(a + b.drop_last() =~= a);
        } else {
            law_lists_are_written_in_order(a, b.drop_last(), n);
            assert(comma_separated(all) =~= comma_separated(a) + ","@ + comma_separated(b));
        }
    }
}

proof fn lemma_first_number(ids: Seq<i64>)
    requires
        ids.len() >= 2,
    ensures
        comma_separated(ids) == decimal(ids[0] as int) + seq![','] + comma_separated(ids.skip(1)),
{
    reveal_strlit(",");
    law_lists_are_written_in_order(ids.take(1), ids.skip(1), ids[0]);
    assert(ids.take(1) =~= seq![ids[0]]);
    assert(ids.take(1) + ids.skip(1) =~= ids);
    assert(","@ =~= seq![',']);
}

proof fn lemma_no_comma_in_decimal(n: int)
    ensures
        !decimal(n).contains(','),
        decimal(n).len() >= 1,
{
    lemma_decimal(n);
    assert forall|i: int| 0 <= i < decimal(n).len() implies decimal(n)[i] != ',' by {
        assert(is_digit(decimal(n)[i]) || decimal(n)[i] == '-');
    }
}

proof fn lemma_numbers_injective(a: Seq<i64>, b: Seq<i64>)
    requires
        comma_separated(a) == comma_separated(b),
        a.len() <= b.len(),
    ensures
        a == b,
    decreases a.len(),
{
    if b.len() >= 1 {
        lemma_no_comma_in_decimal(b[0] as int);
    }
    if a.len() >= 1 {
        lemma_no_comma_in_decimal(a[0] as int);
    }
    if b.len() >= 2 {
        lemma_first_number(b);
        let text = comma_separated(b);
        assert(text[decimal(b[0] as int).len() as int] == ',');
        if a.len() == 1 {
            assert(decimal(a[0] as int).contains(','));
        }
    }
    if a.len() == 1 && b.len() == 1 {
        lemma_decimal_injective(a[0] as int, b[0] as int);
    }
    if a.len() >= 2 {
        lemma_first_number(a);
        lemma_same_up_to_a_mark(
            decimal(a[0] as int),
            decimal(b[0] as int),
            ',',
            comma_separated(a.skip(1)),
            comma_separated(b.skip(1)),
        );
        lemma_decimal_injective(a[0] as int, b[0] as int);
        lemma_numbers_injective(a.skip(1), b.skip(1));
        assert(a =~= seq![a[0]] + a.skip(1));
        assert(b =~= seq![b[0]] + b.skip(1));
    }
    assert(a =~= b);
}

/// Different lists of numbers have different JSON.
pub proof fn law_lists_are_told_apart(a: Seq<i64>, b: Seq<i64>)
    requires
        array_text(a) == array_text(b),
    ensures
        a == b,
{
    reveal_strlit("[");
    reveal_strlit("]");
    let left = comma_separated(a);
    let right = comma_separated(b);
    assert(array_text(a).len() == left.len() + 2 && array_text(b).len() == right.len() + 2);
    assert(array_text(a).subrange(1, left.len() as int + 1) =~= left);
    assert(array_text(b).subrange(1, right.len() as int + 1) =~= right);
    if a.len() <= b.len() {
        lemma_numbers_injective(a, b);
    } else {
        lemma_numbers_injective(b, a);
    }
}

/// The number that a value may be is that of the value, where there is one.
pub proof fn law_numbers_of_values(value: &serde_json::Value)
    ensures
        optional_unsigned(Some(value)) == unsigned_of(*value),
        optional_unsigned(None) is None,
{
}

} // verus!
