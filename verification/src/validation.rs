//! Rules for what users type in.
use vstd::prelude::*;

verus! {

/// Whether `c` is a control character.
pub open spec fn is_control(c: char) -> bool {
    c as u32 <= 0x1f || 0x7f <= c as u32 <= 0x9f
}

/// Whether a text is free of control characters.
pub open spec fn is_plain(value: Seq<char>) -> bool {
    forall|i: int| 0 <= i < value.len() ==> !is_control(#[trigger] value[i])
}

/// Whether a text has at least `min` and, where there is a maximum, at most
/// `max` characters.
pub open spec fn is_long_enough(value: Seq<char>, min: u64, max: Option<u64>) -> bool {
    min <= value.len() && (max matches Some(m) ==> value.len() <= m)
}

/// `validator::validate_length` on a text, with a least and perhaps a greatest
/// number of characters. It counts characters, not bytes.
#[verifier::external_body]
pub(crate) fn length_is_valid(value: &str, min: u64, max: Option<u64>) -> (res: bool)
    ensures
        res == is_long_enough(value@, min, max),
{
    validator::validate_length(value, Some(min), max, None)
}

/// `validator::validate_non_control_character`: whether no character of the
/// text is a control character (Unicode's general category Cc).
#[verifier::external_body]
pub(crate) fn characters_are_valid(value: &str) -> (res: bool)
    ensures
        res == is_plain(value@),
{
    validator::validate_non_control_character(value)
}

/// The rules that a text breaks.
#[derive(Debug, Clone, Copy, PartialEq, Eq, Structural)]
pub struct Problems {
    /// It is too short or too long
    pub length: bool,
    /// It holds a control character
    pub non_control_character: bool,
}

/// Checks a text for its length and for control characters.
pub fn validate_text(value: &str, min: u64, max: Option<u64>) -> (res: Result<(), Problems>)
    ensures
        res is Ok <==> is_long_enough(value@, min, max) && is_plain(value@),
        res matches Err(problems) ==> problems == (Problems {
            length: !is_long_enough(value@, min, max),
            non_control_character: !is_plain(value@),
        }),
{
    let length = !length_is_valid(value, min, max);
    let non_control_character = !characters_are_valid(value);
    if length || non_control_character {
        return Err(Problems { length, non_control_character });
    }
    Ok(())
}

/// A text passes if and only if it has as many characters as it may have and
/// none of them is a control character: a C0 control, a delete, or a C1 control.
pub proof fn law_what_passes(value: Seq<char>, min: u64, max: u64, i: int)
    ensures
        is_long_enough(value, min, Some(max)) <==> min <= value.len() <= max,
        is_long_enough(value, min, None) <==> min <= value.len(),
        is_plain(value) && 0 <= i < value.len() ==> value[i] as u32 >= 0x20 && !(0x7f
            <= value[i] as u32 <= 0x9f),
        !is_plain(value) ==> exists|k: int|
            0 <= k < value.len() && (#[trigger] value[k] as u32 <= 0x1f || 0x7f <= value[k] as u32
                <= 0x9f),
{
    if !is_plain(value) {
        let k = choose|k: int| 0 <= k < value.len() && is_control(#[trigger] value[k]);
        assert(value[k] as u32 <= 0x1f || 0x7f <= value[k] as u32 <= 0x9f);
    }
}

} // verus!
