//! What holds of the names of stored files: their shape, and that two
//! pictures share a name exactly when they are stored in the same second.

use vstd::prelude::*;
use crate::store::{filename_text, four_digit_text, public_url_text, year_text, Timestamp};
use crate::text::{
    decimal_text,
    is_digit,
    digit_char,
    lemma_decimal_injective,
    lemma_decimal_len,
    lemma_two_digit_injective,
    two_digit_text,
};

verus! {

/// Whether `name` reads `image_`, eight digits, an underscore, six digits
/// and `.png`.
pub open spec fn is_stored_name(name: Seq<char>) -> bool {
    &&& name.len() == 25
    &&& name.subrange(0, 6) == "image_"@
    &&& forall|i: int| 6 <= i < 14 ==> is_digit(#[trigger] name[i])
    &&& name[14] == '_'
    &&& forall|i: int| 15 <= i < 21 ==> is_digit(#[trigger] name[i])
    &&& name.subrange(21, 25) == ".png"@
}

/// What follows the year in the text of a second.
pub open spec fn after_year_text(moment: Timestamp) -> Seq<char> {
    two_digit_text(moment.month as int) + two_digit_text(moment.day as int) + seq!['_']
        + two_digit_text(moment.hour as int) + two_digit_text(moment.minute as int)
        + two_digit_text(moment.second as int)
}

/// The text of a second is the year's text and then eleven characters.
pub proof fn lemma_stamp_parts(moment: Timestamp)
    ensures
        moment.stamp_text() == year_text(moment.year as int) + after_year_text(moment),
        after_year_text(moment).len() == 11,
{
    assert(moment.stamp_text() =~= year_text(moment.year as int) + after_year_text(moment));
}

/// The two digits of a number below a hundred are digits.
pub proof fn lemma_two_digits_are_digits(n: int)
    requires
        0 <= n < 100,
    ensures
        two_digit_text(n).len() == 2,
        is_digit(two_digit_text(n)[0]),
        is_digit(two_digit_text(n)[1]),
{
    assert(two_digit_text(n)[0] == digit_char(n / 10));
    assert(two_digit_text(n)[1] == digit_char(n % 10));
}

/// In the years 0 to 9999 the name of a stored file reads `image_`, the
/// date in eight digits, an underscore, the time of day in six digits, and
/// `.png`.
pub proof fn lemma_filename_shape(moment: Timestamp)
    requires
        moment.is_valid(),
        0 <= moment.year <= 9999,
    ensures
        is_stored_name(filename_text(moment.stamp_text())),
{
    reveal_strlit("image_");
    reveal_strlit(".png");
    let year = moment.year as int;
    let name = filename_text(moment.stamp_text());
    lemma_stamp_parts(moment);
    lemma_two_digits_are_digits(year / 100);
    lemma_two_digits_are_digits(year % 100);
    lemma_two_digits_are_digits(moment.month as int);
    lemma_two_digits_are_digits(moment.day as int);
    lemma_two_digits_are_digits(moment.hour as int);
    lemma_two_digits_are_digits(moment.minute as int);
    lemma_two_digits_are_digits(moment.second as int);
    let digits = two_digit_text(year / 100) + two_digit_text(year % 100) + two_digit_text(
        moment.month as int,
    ) + two_digit_text(moment.day as int);
    let clock = two_digit_text(moment.hour as int) + two_digit_text(moment.minute as int)
        + two_digit_text(moment.second as int);
    assert(name =~= "image_"@ + digits + seq!['_'] + clock + ".png"@);
    assert(name.subrange(0, 6) =~= "image_"@);
    assert(name.subrange(21, 25) =~= ".png"@);
    assert forall|i: int| 6 <= i < 14 implies is_digit(#[trigger] name[i]) by {
        assert(name[i] == digits[i - 6]);
    }
    assert forall|i: int| 15 <= i < 21 implies is_digit(#[trigger] name[i]) by {
        assert(name[i] == clock[i - 15]);
    }
}

/// The public address of a stored file ends in the file's name, letter for
/// letter.
pub proof fn lemma_public_url_ends_in_filename(filename: Seq<char>)
    ensures
        public_url_text(filename).len() >= filename.len(),
        public_url_text(filename).subrange(
            public_url_text(filename).len() - filename.len(),
            public_url_text(filename).len() as int,
        ) == filename,
{
    let url = public_url_text(filename);
    assert(url.subrange(url.len() - filename.len(), url.len() as int) =~= filename);
}

/// Two numbers that are written alike in at least four digits are the same
/// number.
pub proof fn lemma_four_digit_injective(m: nat, n: nat)
    requires
        four_digit_text(m) == four_digit_text(n),
    ensures
        m == n,
{
    if m <= 9999 && n <= 9999 {
        let a = two_digit_text(m as int / 100);
        let b = two_digit_text(m as int % 100);
        let c = two_digit_text(n as int / 100);
        let d = two_digit_text(n as int % 100);
        assert(a =~= (a + b).subrange(0, 2));
        assert(c =~= (c + d).subrange(0, 2));
        assert(b =~= (a + b).subrange(2, 4));
        assert(d =~= (c + d).subrange(2, 4));
        lemma_two_digit_injective(m as int / 100, n as int / 100);
        lemma_two_digit_injective(m as int % 100, n as int % 100);
    } else if m > 9999 && n > 9999 {
        lemma_decimal_injective(m, n);
    } else if m > 9999 {
        lemma_long_number(m);
    } else {
        lemma_long_number(n);
    }
}

/// A number from ten thousand on is written in five digits or more.
pub proof fn lemma_long_number(n: nat)
    requires
        n > 9999,
    ensures
        decimal_text(n).len() >= 5,
{
    lemma_decimal_len(n);
    lemma_decimal_len(n / 10);
    lemma_decimal_len(n / 10 / 10);
    lemma_decimal_len(n / 10 / 10 / 10);
    lemma_decimal_len(n / 10 / 10 / 10 / 10);
}

/// Two years that are written alike are the same year.
pub proof fn lemma_year_text_injective(x: int, y: int)
    requires
        year_text(x) == year_text(y),
    ensures
        x == y,
{
    let first_x = year_text(x)[0];
    let first_y = year_text(y)[0];
    assert(first_x == first_y);
    if 0 <= x <= 9999 {
        assert(first_x == digit_char(x / 100 / 10));
    }
    if 0 <= y <= 9999 {
        assert(first_y == digit_char(y / 100 / 10));
    }
    if 0 <= x <= 9999 && 0 <= y <= 9999 {
        lemma_four_digit_injective(x as nat, y as nat);
    } else if x > 9999 && y > 9999 {
        assert(four_digit_text(x as nat) =~= year_text(x).subrange(1, year_text(x).len() as int));
        assert(four_digit_text(y as nat) =~= year_text(y).subrange(1, year_text(y).len() as int));
        lemma_four_digit_injective(x as nat, y as nat);
    } else if x < 0 && y < 0 {
        assert(four_digit_text((-x) as nat) =~= year_text(x).subrange(
            1,
            year_text(x).len() as int,
        ));
        assert(four_digit_text((-y) as nat) =~= year_text(y).subrange(
            1,
            year_text(y).len() as int,
        ));
        lemma_four_digit_injective((-x) as nat, (-y) as nat);
    }
}

/// Two file names that are alike were made of the same text, and so were
/// two public addresses.
pub proof fn lemma_name_determines_text(first: Seq<char>, second: Seq<char>)
    ensures
        filename_text(first) == filename_text(second) ==> first == second,
        public_url_text(first) == public_url_text(second) ==> first == second,
{
    if filename_text(first) == filename_text(second) {
        let name = filename_text(first);
        assert(name.len() == "image_"@.len() + first.len() + ".png"@.len());
        assert(name.len() == "image_"@.len() + second.len() + ".png"@.len());
        let start = "image_"@.len() as int;
        assert(first =~= filename_text(first).subrange(start, start + first.len()));
        assert(second =~= filename_text(second).subrange(start, start + second.len()));
    }
    if public_url_text(first) == public_url_text(second) {
        lemma_public_url_ends_in_filename(first);
        lemma_public_url_ends_in_filename(second);
        let url = public_url_text(first);
        assert(url.len() == "https://threads.dasm.asia/images/"@.len() + first.len());
        assert(url.len() == "https://threads.dasm.asia/images/"@.len() + second.len());
    }
}

/// Two seconds that read alike after the year agree in all but the year.
pub proof fn lemma_after_year_injective(first: Timestamp, second: Timestamp)
    requires
        first.is_valid(),
        second.is_valid(),
        after_year_text(first) == after_year_text(second),
    ensures
        first.month == second.month,
        first.day == second.day,
        first.hour == second.hour,
        first.minute == second.minute,
        first.second == second.second,
{
    let rest_a = after_year_text(first);
    let rest_b = after_year_text(second);
    assert(two_digit_text(first.month as int) =~= rest_a.subrange(0, 2));
    assert(two_digit_text(second.month as int) =~= rest_b.subrange(0, 2));
    lemma_two_digit_injective(first.month as int, second.month as int);
    assert(two_digit_text(first.day as int) =~= rest_a.subrange(2, 4));
    assert(two_digit_text(second.day as int) =~= rest_b.subrange(2, 4));
    lemma_two_digit_injective(first.day as int, second.day as int);
    assert(two_digit_text(first.hour as int) =~= rest_a.subrange(5, 7));
    assert(two_digit_text(second.hour as int) =~= rest_b.subrange(5, 7));
    lemma_two_digit_injective(first.hour as int, second.hour as int);
    assert(two_digit_text(first.minute as int) =~= rest_a.subrange(7, 9));
    assert(two_digit_text(second.minute as int) =~= rest_b.subrange(7, 9));
    lemma_two_digit_injective(first.minute as int, second.minute as int);
    assert(two_digit_text(first.second as int) =~= rest_a.subrange(9, 11));
    assert(two_digit_text(second.second as int) =~= rest_b.subrange(9, 11));
    lemma_two_digit_injective(first.second as int, second.second as int);
}

/// Two seconds that are written alike are the same second.
pub proof fn lemma_stamp_injective(first: Timestamp, second: Timestamp)
    requires
        first.is_valid(),
        second.is_valid(),
        first.stamp_text() == second.stamp_text(),
    ensures
        first == second,
{
    let stamp = first.stamp_text();
    lemma_stamp_parts(first);
    lemma_stamp_parts(second);
    let year_a = year_text(first.year as int);
    let year_b = year_text(second.year as int);
    let rest_a = after_year_text(first);
    let rest_b = after_year_text(second);
    assert(stamp.len() == year_a.len() + rest_a.len());
    assert(stamp.len() == year_b.len() + rest_b.len());
    assert(year_a =~= (year_a + rest_a).subrange(0, year_a.len() as int));
    assert(year_b =~= (year_b + rest_b).subrange(0, year_b.len() as int));
    assert(rest_a =~= (year_a + rest_a).subrange(year_a.len() as int, stamp.len() as int));
    assert(rest_b =~= (year_b + rest_b).subrange(year_b.len() as int, stamp.len() as int));
    lemma_year_text_injective(first.year as int, second.year as int);
    lemma_after_year_injective(first, second);
}

/// Two pictures get the same file name, and so the same public address,
/// exactly when they are stored in the same second: a later picture of
/// that second takes the place of the earlier one, and pictures of
/// different seconds never meet.
pub proof fn lemma_same_name_iff_same_second(first: Timestamp, second: Timestamp)
    requires
        first.is_valid(),
        second.is_valid(),
    ensures
        filename_text(first.stamp_text()) == filename_text(second.stamp_text()) <==> first
            == second,
        public_url_text(filename_text(first.stamp_text())) == public_url_text(
            filename_text(second.stamp_text()),
        ) <==> first == second,
{
    lemma_name_determines_text(first.stamp_text(), second.stamp_text());
    lemma_name_determines_text(
        filename_text(first.stamp_text()),
        filename_text(second.stamp_text()),
    );
    if first.stamp_text() == second.stamp_text() {
        lemma_stamp_injective(first, second);
    }
}

} // verus!
