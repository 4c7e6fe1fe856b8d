//! Texts as sequences of characters, and the decimal text of numbers.

use vstd::prelude::*;
use vstd::string::*;

verus! {

/// The view of an optional text.
pub open spec fn text_view(text: Option<String>) -> Option<Seq<char>> {
    match text {
        Some(t) => Some(t@),
        None => None,
    }
}

/// The character that stands for the decimal digit `d`.
pub open spec fn digit_char(d: int) -> char {
    if d == 0 {
        '0'
    } else if d == 1 {
        '1'
    } else if d == 2 {
        '2'
    } else if d == 3 {
        '3'
    } else if d == 4 {
        '4'
    } else if d == 5 {
        '5'
    } else if d == 6 {
        '6'
    } else if d == 7 {
        '7'
    } else if d == 8 {
        '8'
    } else {
        '9'
    }
}

/// Whether `c` is one of the ten decimal digits.
pub open spec fn is_digit(c: char) -> bool {
    exists|d: int| 0 <= d <= 9 && c == #[trigger] digit_char(d)
}

/// The decimal text of `n`, without leading zeros.
pub open spec fn decimal_text(n: nat) -> Seq<char>
    decreases n,
{
    if n < 10 {
        seq![digit_char(n as int)]
    } else {
        decimal_text(n / 10).push(digit_char((n % 10) as int))
    }
}

/// The two digits of `n`, with a leading zero below ten.
pub open spec fn two_digit_text(n: int) -> Seq<char> {
    seq![digit_char(n / 10), digit_char(n % 10)]
}

/// The text of one decimal digit.
fn digit_str(d: u32) -> (r: &'static str)
    requires
        d <= 9,
    ensures
        r@ == seq![digit_char(d as int)],
{
    proof {
        reveal_strlit("0");
        reveal_strlit("1");
        reveal_strlit("2");
        reveal_strlit("3");
        reveal_strlit("4");
        reveal_strlit("5");
        reveal_strlit("6");
        reveal_strlit("7");
        reveal_strlit("8");
        reveal_strlit("9");
    }
    let r = if d == 0 {
        "0"
    } else if d == 1 {
        "1"
    } else if d == 2 {
        "2"
    } else if d == 3 {
        "3"
    } else if d == 4 {
        "4"
    } else if d == 5 {
        "5"
    } else if d == 6 {
        "6"
    } else if d == 7 {
        "7"
    } else if d == 8 {
        "8"
    } else {
        "9"
    };
    assert(r@ =~= seq![digit_char(d as int)]);
    r
}

/// The decimal text of `n`, as `{}` prints an unsigned number.
pub fn decimal(n: u32) -> (r: String)
    ensures
        r@ == decimal_text(n as nat),
    decreases n,
{
    if n < 10 {
        String::from_str(digit_str(n))
    } else {
        let mut r = decimal(n / 10);
        r.append(digit_str(n % 10));
        assert(r@ =~= decimal_text(n as nat));
        r
    }
}

/// Two digits that are written alike are the same digit.
pub proof fn lemma_digit_char_injective(a: int, b: int)
    requires
        0 <= a <= 9,
        0 <= b <= 9,
        digit_char(a) == digit_char(b),
    ensures
        a == b,
{
}

/// Two numbers below a hundred that are written alike in two digits are
/// the same number.
pub proof fn lemma_two_digit_injective(m: int, n: int)
    requires
        0 <= m < 100,
        0 <= n < 100,
        two_digit_text(m) == two_digit_text(n),
    ensures
        m == n,
{
    assert(two_digit_text(m)[0] == two_digit_text(n)[0]);
    assert(two_digit_text(m)[1] == two_digit_text(n)[1]);
    lemma_digit_char_injective(m / 10, n / 10);
    lemma_digit_char_injective(m % 10, n % 10);
}

/// The decimal text of a number has a digit for each power of ten that the
/// number reaches: at least one, and one more than the text of its tenth.
pub proof fn lemma_decimal_len(n: nat)
    ensures
        decimal_text(n).len() >= 1,
        n >= 10 ==> decimal_text(n).len() == decimal_text(n / 10).len() + 1,
    decreases n,
{
    if n >= 10 {
        lemma_decimal_len(n / 10);
    }
}

/// Two numbers with the same decimal text are the same number.
pub proof fn lemma_decimal_injective(m: nat, n: nat)
    requires
        decimal_text(m) == decimal_text(n),
    ensures
        m == n,
    decreases m,
{
    lemma_decimal_len(m);
    lemma_decimal_len(n);
    if m < 10 && n < 10 {
        assert(decimal_text(m)[0] == digit_char(m as int));
        assert(decimal_text(n)[0] == digit_char(n as int));
        lemma_digit_char_injective(m as int, n as int);
    } else if m >= 10 && n >= 10 {
        lemma_decimal_len(m / 10);
        lemma_decimal_len(n / 10);
        let head_m = decimal_text(m / 10);
        let head_n = decimal_text(n / 10);
        assert(decimal_text(m) == head_m.push(digit_char((m % 10) as int)));
        assert(decimal_text(n) == head_n.push(digit_char((n % 10) as int)));
        assert(head_m.len() == head_n.len());
        assert(decimal_text(m)[head_m.len() as int] == decimal_text(n)[head_n.len() as int]);
        lemma_digit_char_injective((m % 10) as int, (n % 10) as int);
        assert(head_m =~= decimal_text(m).drop_last());
        assert(head_n =~= decimal_text(n).drop_last());
        lemma_decimal_injective(m / 10, n / 10);
    } else if m < 10 {
        lemma_decimal_len(n / 10);
    } else {
        lemma_decimal_len(m / 10);
    }
}

/// Whether `c` is white space as Unicode has it, by the property
/// White_Space: the controls from tab to carriage return, the space, next
/// line, the no-break spaces, the spaces of fixed width, and the line and
/// paragraph separators.
pub open spec fn is_white_space(c: char) -> bool {
    let code = c as u32;
    (0x9 <= code <= 0xD) || code == 0x20 || code == 0x85 || code == 0xA0 || code == 0x1680 || (
    0x2000 <= code <= 0x200A) || code == 0x2028 || code == 0x2029 || code == 0x202F || code
        == 0x205F || code == 0x3000
}

/// The number of white-space characters that `text` starts with.
pub open spec fn leading_white_space(text: Seq<char>) -> nat
    decreases text.len(),
{
    if text.len() > 0 && is_white_space(text.first()) {
        1 + leading_white_space(text.drop_first())
    } else {
        0
    }
}

/// The number of white-space characters that `text` ends with.
pub open spec fn trailing_white_space(text: Seq<char>) -> nat
    decreases text.len(),
{
    if text.len() > 0 && is_white_space(text.last()) {
        1 + trailing_white_space(text.drop_last())
    } else {
        0
    }
}

/// `text` without the white space at its two ends.
pub open spec fn trimmed(text: Seq<char>) -> Seq<char> {
    let rest = text.skip(leading_white_space(text) as int);
    rest.take(rest.len() - trailing_white_space(rest))
}

/// Calls `str::trim`, which returns the part of the text that is left when
/// the white space at its start and at its end is cut off, white space
/// being what Unicode's property White_Space says. std names the property
/// and does not list it; the characters in `is_white_space` are those that
/// Unicode gives it.
#[verifier::external_body]
fn trim<'a>(text: &'a str) -> (r: &'a str)
    ensures
        r@ == trimmed(text@),
{
    text.trim()
}

/// A copy of `text` without the white space at its two ends.
pub fn trimmed_copy(text: &str) -> (r: String)
    ensures
        r@ == trimmed(text@),
{
    trim(text).to_owned()
}

/// The white space that a text starts with ends before its first other
/// character.
pub proof fn lemma_leading_white_space(text: Seq<char>)
    ensures
        leading_white_space(text) <= text.len(),
        forall|k: int| 0 <= k < leading_white_space(text) ==> is_white_space(#[trigger] text[k]),
        leading_white_space(text) < text.len() ==> !is_white_space(
            text[leading_white_space(text) as int],
        ),
    decreases text.len(),
{
    if text.len() > 0 && is_white_space(text.first()) {
        let rest = text.drop_first();
        lemma_leading_white_space(rest);
        assert forall|k: int| 0 <= k < leading_white_space(text) implies is_white_space(
            #[trigger] text[k],
        ) by {
            if k > 0 {
                assert(text[k] == rest[k - 1]);
            }
        }
        if leading_white_space(text) < text.len() {
            assert(text[leading_white_space(text) as int] == rest[leading_white_space(
                rest,
            ) as int]);
        }
    }
}

/// The white space that a text ends with starts after its last other
/// character.
pub proof fn lemma_trailing_white_space(text: Seq<char>)
    ensures
        trailing_white_space(text) <= text.len(),
        forall|k: int|
            text.len() - trailing_white_space(text) <= k < text.len() ==> is_white_space(
                #[trigger] text[k],
            ),
        trailing_white_space(text) < text.len() ==> !is_white_space(
            text[text.len() - trailing_white_space(text) - 1],
        ),
    decreases text.len(),
{
    if text.len() > 0 && is_white_space(text.last()) {
        let rest = text.drop_last();
        lemma_trailing_white_space(rest);
        assert forall|k: int|
            text.len() - trailing_white_space(text) <= k < text.len() implies is_white_space(
            #[trigger] text[k],
        ) by {
            if k < text.len() - 1 {
                assert(text[k] == rest[k]);
            }
        }
        if trailing_white_space(text) < text.len() {
            assert(text[text.len() - trailing_white_space(text) - 1] == rest[rest.len()
                - trailing_white_space(rest) - 1]);
        }
    }
}

/// What is left of a trimmed text is one piece of it: all that is cut off
/// before and after the piece is white space, and the piece neither starts
/// nor ends with white space.
pub proof fn lemma_trimmed_is_the_middle(text: Seq<char>)
    ensures
        exists|i: int, j: int|
            0 <= i <= j <= text.len() && trimmed(text) == #[trigger] text.subrange(i, j) && (
            forall|k: int| 0 <= k < i ==> is_white_space(#[trigger] text[k])) && (forall|k: int|
                j <= k < text.len() ==> is_white_space(#[trigger] text[k])),
        trimmed(text).len() > 0 ==> !is_white_space(trimmed(text).first()) && !is_white_space(
            trimmed(text).last(),
        ),
{
    let i = leading_white_space(text) as int;
    lemma_leading_white_space(text);
    let rest = text.skip(i);
    lemma_trailing_white_space(rest);
    let j = text.len() - trailing_white_space(rest);
    assert(trimmed(text) =~= text.subrange(i, j));
    assert forall|k: int| j <= k < text.len() implies is_white_space(#[trigger] text[k]) by {
        assert(text[k] == rest[k - i]);
    }
    if trimmed(text).len() > 0 {
        assert(trimmed(text).first() == text[i]);
        assert(trimmed(text).last() == rest[rest.len() - trailing_white_space(rest) - 1]);
    }
}

} // verus!
