//! What holds of the phrases that prompts start from: each is made of
//! exactly one word of each list, and the words can be read back from it.

use vstd::prelude::*;
use crate::prompt::{
    adjective_texts,
    base_prompt_text,
    style_texts,
    subject_texts,
    time_of_day_texts,
};

verus! {

/// Whether the character `c` does not occur in `text`.
pub open spec fn lacks(text: Seq<char>, c: char) -> bool {
    forall|i: int| 0 <= i < text.len() ==> #[trigger] text[i] != c
}

/// Two texts that are cut at the first `c` and are alike have like parts
/// before it and after it.
pub proof fn lemma_cut_at_first(
    c: char,
    before: Seq<char>,
    after: Seq<char>,
    before2: Seq<char>,
    after2: Seq<char>,
)
    requires
        lacks(before, c),
        lacks(before2, c),
        before + seq![c] + after == before2 + seq![c] + after2,
    ensures
        before == before2,
        after == after2,
{
    let whole = before + seq![c] + after;
    let whole2 = before2 + seq![c] + after2;
    assert(whole[before.len() as int] == c);
    assert(whole2[before2.len() as int] == c);
    if before.len() < before2.len() {
        assert(whole2[before.len() as int] == before2[before.len() as int]);
    }
    if before2.len() < before.len() {
        assert(whole[before2.len() as int] == before[before2.len() as int]);
    }
    assert(before =~= whole.subrange(0, before.len() as int));
    assert(before2 =~= whole2.subrange(0, before2.len() as int));
    assert(whole.len() == before.len() + 1 + after.len());
    assert(whole2.len() == before2.len() + 1 + after2.len());
    assert(after =~= whole.subrange(before.len() as int + 1, whole.len() as int));
    assert(after2 =~= whole2.subrange(before2.len() as int + 1, whole2.len() as int));
}

/// No adjective holds a space, and no two adjectives are alike.
pub proof fn lemma_adjectives(a: int, b: int)
    requires
        0 <= a < adjective_texts().len(),
        0 <= b < adjective_texts().len(),
    ensures
        lacks(adjective_texts()[a], ' '),
        adjective_texts()[a] == adjective_texts()[b] ==> a == b,
{
    reveal_strlit("beautiful");
    reveal_strlit("serene");
    reveal_strlit("mystical");
    reveal_strlit("vibrant");
    reveal_strlit("tranquil");
    reveal_strlit("majestic");
    reveal_strlit("ethereal");
    reveal_strlit("enigmatic");
    let texts = adjective_texts();
    if texts[a] == texts[b] {
        assert(texts[a].len() == texts[b].len());
        assert(texts[a][0] == texts[b][0]);
        assert(texts[a][1] == texts[b][1]);
    }
}

/// No subject holds a space, and no two subjects are alike.
pub proof fn lemma_subjects(a: int, b: int)
    requires
        0 <= a < subject_texts().len(),
        0 <= b < subject_texts().len(),
    ensures
        lacks(subject_texts()[a], ' '),
        subject_texts()[a] == subject_texts()[b] ==> a == b,
{
    reveal_strlit("forest");
    reveal_strlit("mountain");
    reveal_strlit("ocean");
    reveal_strlit("desert");
    reveal_strlit("waterfall");
    reveal_strlit("sky");
    reveal_strlit("galaxy");
    reveal_strlit("island");
    let texts = subject_texts();
    if texts[a] == texts[b] {
        assert(texts[a][0] == texts[b][0]);
    }
}

/// No time of day holds a comma, and no two times of day are alike.
pub proof fn lemma_times_of_day(a: int, b: int)
    requires
        0 <= a < time_of_day_texts().len(),
        0 <= b < time_of_day_texts().len(),
    ensures
        lacks(time_of_day_texts()[a], ','),
        time_of_day_texts()[a] == time_of_day_texts()[b] ==> a == b,
{
    reveal_strlit("at sunrise");
    reveal_strlit("at sunset");
    reveal_strlit("under the stars");
    reveal_strlit("during a storm");
    reveal_strlit("on a foggy morning");
    reveal_strlit("in autumn");
    let texts = time_of_day_texts();
    if texts[a] == texts[b] {
        assert(texts[a].len() == texts[b].len());
        assert(texts[a][0] == texts[b][0]);
    }
}

/// No two styles are alike.
pub proof fn lemma_styles(a: int, b: int)
    requires
        0 <= a < style_texts().len(),
        0 <= b < style_texts().len(),
        style_texts()[a] == style_texts()[b],
    ensures
        a == b,
{
    reveal_strlit("digital painting");
    reveal_strlit("photorealistic");
    reveal_strlit("abstract");
    reveal_strlit("impressionist");
    reveal_strlit("surreal");
    reveal_strlit("minimalist");
    reveal_strlit("fantasy");
    let texts = style_texts();
    assert(texts[a][0] == texts[b][0]);
    assert(texts[a][1] == texts[b][1]);
}

/// A phrase is its four words in the order of the template: after "A",
/// the adjective up to the first space, the subject up to the next, the
/// time of day up to the comma, and the style to the end.
pub proof fn lemma_phrase_parts(
    adjective: Seq<char>,
    subject: Seq<char>,
    time_of_day: Seq<char>,
    style: Seq<char>,
)
    ensures
        base_prompt_text(adjective, subject, time_of_day, style) == seq!['A', ' '] + (adjective
            + seq![' '] + (subject + seq![' '] + (time_of_day + seq![','] + (seq![' ']
            + style)))),
{
    reveal_strlit("A ");
    reveal_strlit(" ");
    reveal_strlit(", ");
    assert("A "@ =~= seq!['A', ' ']);
    assert(" "@ =~= seq![' ']);
    assert(", "@ =~= seq![',', ' ']);
    assert(base_prompt_text(adjective, subject, time_of_day, style) =~= seq!['A', ' '] + (
    adjective + seq![' '] + (subject + seq![' '] + (time_of_day + seq![','] + (seq![' ']
        + style)))));
}

/// A phrase holds exactly one word of each list: two choices of words that
/// make the same phrase are the same choice.
pub proof fn lemma_phrase_words_are_unique(
    a: int,
    s: int,
    t: int,
    y: int,
    a2: int,
    s2: int,
    t2: int,
    y2: int,
)
    requires
        0 <= a < adjective_texts().len(),
        0 <= a2 < adjective_texts().len(),
        0 <= s < subject_texts().len(),
        0 <= s2 < subject_texts().len(),
        0 <= t < time_of_day_texts().len(),
        0 <= t2 < time_of_day_texts().len(),
        0 <= y < style_texts().len(),
        0 <= y2 < style_texts().len(),
        base_prompt_text(
            adjective_texts()[a],
            subject_texts()[s],
            time_of_day_texts()[t],
            style_texts()[y],
        ) == base_prompt_text(
            adjective_texts()[a2],
            subject_texts()[s2],
            time_of_day_texts()[t2],
            style_texts()[y2],
        ),
    ensures
        a == a2,
        s == s2,
        t == t2,
        y == y2,
{
    let adjective = adjective_texts()[a];
    let subject = subject_texts()[s];
    let time_of_day = time_of_day_texts()[t];
    let style = style_texts()[y];
    let adjective2 = adjective_texts()[a2];
    let subject2 = subject_texts()[s2];
    let time_of_day2 = time_of_day_texts()[t2];
    let style2 = style_texts()[y2];
    lemma_phrase_parts(adjective, subject, time_of_day, style);
    lemma_phrase_parts(adjective2, subject2, time_of_day2, style2);
    let after_time = seq![' '] + style;
    let after_time2 = seq![' '] + style2;
    let after_subject = time_of_day + seq![','] + after_time;
    let after_subject2 = time_of_day2 + seq![','] + after_time2;
    let after_adjective = subject + seq![' '] + after_subject;
    let after_adjective2 = subject2 + seq![' '] + after_subject2;
    let after_a = adjective + seq![' '] + after_adjective;
    let after_a2 = adjective2 + seq![' '] + after_adjective2;
    let head = seq!['A', ' '];
    assert(after_a =~= (head + after_a).subrange(2, (head + after_a).len() as int));
    assert(after_a2 =~= (head + after_a2).subrange(2, (head + after_a2).len() as int));
    lemma_adjectives(a, a2);
    lemma_adjectives(a2, a);
    lemma_cut_at_first(' ', adjective, after_adjective, adjective2, after_adjective2);
    lemma_subjects(s, s2);
    lemma_subjects(s2, s);
    lemma_cut_at_first(' ', subject, after_subject, subject2, after_subject2);
    lemma_times_of_day(t, t2);
    lemma_times_of_day(t2, t);
    lemma_cut_at_first(',', time_of_day, after_time, time_of_day2, after_time2);
    assert(style =~= after_time.subrange(1, after_time.len() as int));
    assert(style2 =~= after_time2.subrange(1, after_time2.len() as int));
    lemma_styles(y, y2);
}

} // verus!
