//! Decimal notation and other pieces of text.
use vstd::prelude::*;
use vstd::string::*;

verus! {

/// The character of the digit `d`.
pub open spec fn digit(d: int) -> char {
    (48 + d) as char
}

/// The decimal digits of `n`, without leading zeros.
pub open spec fn digits(n: nat) -> Seq<char>
    decreases n,
{
    if n < 10 {
        seq![digit(n as int)]
    } else {
        digits(n / 10).push(digit((n % 10) as int))
    }
}

/// Decimal notation of `n`.
pub open spec fn decimal(n: int) -> Seq<char> {
    if n < 0 {
        seq!['-'] + digits((-n) as nat)
    } else {
        digits(n as nat)
    }
}

/// Whether `c` is one of the ten digits.
pub open spec fn is_digit(c: char) -> bool {
    '0' <= c <= '9'
}

fn digit_text(d: u64) -> (res: &'static str)
    requires
        d < 10,
    ensures
        res@ == seq![digit(d as int)],
{
    proof {
        reveal_strlit("0");
        reveal_strlit("1");
        reveal_strlit("2");
        reveal_strlit("3");
        reveal_strlit("4");
        reveal_strlit("5");
        reveal_strlit("6");
        reveal_strlit("7");
        reveal_strlit("8");
        reveal_strlit("9");
    }
    match d {
        0 => "0",
        1 => "1",
        2 => "2",
        3 => "3",
        4 => "4",
        5 => "5",
        6 => "6",
        7 => "7",
        8 => "8",
        _ => "9",
    }
}

/// Appends the digits of `n` to `out`.
pub fn append_unsigned(out: &mut String, n: u64)
    ensures
        final(out)@ == old(out)@ + digits(n as nat),
    decreases n,
{
    if n < 10 {
        out.append(digit_text(n));
    } else {
        append_unsigned(out, n / 10);
        out.append(digit_text(n % 10));
        assert(old(out)@ + digits(n as nat) =~= old(out)@ + digits((n / 10) as nat) + seq![
            digit((n % 10) as int),
        ]);
    }
}

/// Appends the decimal notation of `n` to `out`.
pub fn append_signed(out: &mut String, n: i64)
    ensures
        final(out)@ == old(out)@ + decimal(n as int),
{
    if n < 0 {
        let magnitude: u64 = if n == i64::MIN {
            9223372036854775808
        } else {
            (-n) as u64
        };
        proof {
            reveal_strlit("-");
        }
        out.append("-");
        append_unsigned(out, magnitude);
        assert(final(out)@ =~= old(out)@ + decimal(n as int));
    } else {
        append_unsigned(out, n as u64);
    }
}

/// The decimal notation of `n`.
pub fn signed_text(n: i64) -> (res: String)
    ensures
        res@ == decimal(n as int),
{
    let mut out = String::new();
    append_signed(&mut out, n);
    assert(out@ =~= decimal(n as int));
    out
}

/// The decimal notation of `n`.
pub fn unsigned_text(n: usize) -> (res: String)
    ensures
        res@ == decimal(n as int),
{
    let mut out = String::new();
    append_unsigned(&mut out, n as u64);
    assert(out@ =~= decimal(n as int));
    out
}

/// `prefix` followed by the decimal notation of `n`.
pub fn numbered(prefix: &str, n: i64) -> (res: String)
    ensures
        res@ == prefix@ + decimal(n as int),
{
    let mut out = prefix.to_owned();
    append_signed(&mut out, n);
    out
}

/// `prefix` followed by `rest`.
pub fn joined(prefix: &str, rest: &str) -> (res: String)
    ensures
        res@ == prefix@ + rest@,
{
    let mut out = prefix.to_owned();
    out.append(rest);
    out
}

/// The view of a text that may be absent.
pub open spec fn optional(text: Option<String>) -> Option<Seq<char>> {
    match text {
        Some(s) => Some(s@),
        None => None,
    }
}

/// A copy of a text that may be absent.
pub fn copy_optional(text: &Option<String>) -> (res: Option<String>)
    ensures
        res == *text,
{
    match text {
        Some(s) => Some(s.clone()),
        None => None,
    }
}

/// Every number has at least one digit, and digits only.
pub proof fn lemma_digits(n: nat)
    ensures
        digits(n).len() >= 1,
        forall|i: int| 0 <= i < digits(n).len() ==> is_digit(#[trigger] digits(n)[i]),
    decreases n,
{
    if n >= 10 {
        lemma_digits(n / 10);
    }
}

/// Different numbers have different digits.
pub proof fn lemma_digits_injective(a: nat, b: nat)
    requires
        digits(a) == digits(b),
    ensures
        a == b,
    decreases a,
{
    lemma_digits(a / 10);
    lemma_digits(b / 10);
    if a < 10 {
        if b >= 10 {
            assert(digits(b).len() >= 2);
        } else {
            assert(digits(a)[0] == digit(a as int));
            assert(digits(b)[0] == digit(b as int));
            assert(digit(a as int) as int == 48 + a && digit(b as int) as int == 48 + b);
        }
    } else if b < 10 {
        assert(digits(a).len() >= 2);
    } else {
        assert(digits(a).last() == digit((a % 10) as int));
        assert(digits(b).last() == digit((b % 10) as int));
        assert(digit((a % 10) as int) as int == 48 + a % 10);
        assert(digit((b % 10) as int) as int == 48 + b % 10);
        assert(digits(a).drop_last() =~= digits(a / 10));
        assert(digits(b).drop_last() =~= digits(b / 10));
        lemma_digits_injective(a / 10, b / 10);
    }
}

/// Decimal notation is not empty, and holds digits and a leading minus only.
pub proof fn lemma_decimal(n: int)
    ensures
        decimal(n).len() >= 1,
        forall|i: int|
            0 <= i < decimal(n).len() ==> is_digit(#[trigger] decimal(n)[i]) || decimal(n)[i]
                == '-',
{
    if n < 0 {
        lemma_digits((-n) as nat);
    } else {
        lemma_digits(n as nat);
    }
}

/// Different numbers have different decimal notations.
pub proof fn lemma_decimal_injective(a: int, b: int)
    requires
        decimal(a) == decimal(b),
    ensures
        a == b,
{
    if a < 0 && b < 0 {
        assert(decimal(a).skip(1) =~= digits((-a) as nat));
        assert(decimal(b).skip(1) =~= digits((-b) as nat));
        lemma_digits_injective((-a) as nat, (-b) as nat);
    } else if a >= 0 && b >= 0 {
        lemma_digits_injective(a as nat, b as nat);
    } else if a < 0 {
        lemma_digits(b as nat);
        assert(decimal(a)[0] == '-');
        assert(is_digit(decimal(b)[0]));
    } else {
        lemma_digits(a as nat);
        assert(decimal(b)[0] == '-');
        assert(is_digit(decimal(a)[0]));
    }
}

/// The number that a row of digits stands for.
pub open spec fn number_of(text: Seq<char>) -> int
    decreases text.len(),
{
    if text.len() == 0 {
        0
    } else {
        number_of(text.drop_last()) * 10 + (text.last() as int - '0' as int)
    }
}

proof fn lemma_digits_are_read_back(n: nat)
    ensures
        number_of(digits(n)) == n,
        digits(n)[0] == '0' ==> n == 0,
    decreases n,
{
    lemma_digits(n / 10);
    assert(forall|d: int| 0 <= d < 10 ==> #[trigger] digit(d) as int == 48 + d);
    if n < 10 {
        reveal_with_fuel(number_of, 2);
        assert(digits(n).drop_last() =~= Seq::empty());
        assert(digit(n as int) as int == 48 + n);
    } else {
        lemma_digits_are_read_back(n / 10);
        assert(digits(n).drop_last() =~= digits(n / 10));
        assert(digits(n).last() == digit((n % 10) as int));
        assert(digit((n % 10) as int) as int == 48 + n % 10);
    }
}

/// Decimal notation says the number: read digit by digit it is the number
/// again. A minus stands in front of negative numbers only, everything else is
/// a digit, and no number but 0 begins with a zero.
pub proof fn law_decimal_says_the_number(n: int)
    ensures
        n >= 0 ==> number_of(decimal(n)) == n && is_digit(decimal(n)[0]),
        n < 0 ==> decimal(n)[0] == '-' && number_of(decimal(n).skip(1)) == -n,
        n > 0 ==> decimal(n)[0] != '0',
        n < 0 ==> decimal(n).len() >= 2 && decimal(n)[1] != '0',
        decimal(n).len() >= 1,
        forall|i: int| 1 <= i < decimal(n).len() ==> is_digit(#[trigger] decimal(n)[i]),
{
    if n < 0 {
        lemma_digits((-n) as nat);
        lemma_digits_are_read_back((-n) as nat);
        assert(decimal(n).skip(1) =~= digits((-n) as nat));
        assert(decimal(n)[1] == digits((-n) as nat)[0]);
    } else {
        lemma_digits(n as nat);
        lemma_digits_are_read_back(n as nat);
    }
}

/// Two texts that go on with the same mark, and do not hold it before, are the
/// same up to the mark and after it.
pub proof fn lemma_same_up_to_a_mark(
    a: Seq<char>,
    b: Seq<char>,
    mark: char,
    after: Seq<char>,
    other: Seq<char>,
)
    requires
        a + seq![mark] + after == b + seq![mark] + other,
        !a.contains(mark),
        !b.contains(mark),
    ensures
        a == b,
        after == other,
{
    let left = a + seq![mark] + after;
    let right = b + seq![mark] + other;
    assert(left[a.len() as int] == mark);
    assert(right[b.len() as int] == mark);
    if a.len() < b.len() {
        assert(right[a.len() as int] == b[a.len() as int]);
    }
    if b.len() < a.len() {
        assert(left[b.len() as int] == a[b.len() as int]);
    }
    let len = a.len() as int;
    assert(a =~= left.take(len));
    assert(b =~= right.take(len));
    assert(after =~= left.skip(len + 1));
    assert(other =~= right.skip(len + 1));
}

/// The view of a text that may be absent is that text, where it is there.
pub proof fn law_views_of_texts(text: String)
    ensures
        optional(Some(text)) == Some(text@),
        optional(None) == None::<Seq<char>>,
{
}

} // verus!
