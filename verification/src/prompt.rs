//! The prompt of a run: a phrase put together from four word lists, and the
//! richer text that the completion service makes of it.

use vstd::prelude::*;
use vstd::string::*;
use crate::http::{status_is_success, HttpOutcome};
use crate::json::{completion_content, completion_content_text};
use crate::text::{text_view, trimmed, trimmed_copy};

verus! {

/// The texts of a list of words.
pub open spec fn word_texts(words: Seq<&'static str>) -> Seq<Seq<char>> {
    Seq::new(words.len(), |i: int| words[i]@)
}

/// The adjectives a phrase may open with.
pub open spec fn adjective_texts() -> Seq<Seq<char>> {
    seq![
        "beautiful"@,
        "serene"@,
        "mystical"@,
        "vibrant"@,
        "tranquil"@,
        "majestic"@,
        "ethereal"@,
        "enigmatic"@,
    ]
}

/// The subjects a phrase may show.
pub open spec fn subject_texts() -> Seq<Seq<char>> {
    seq![
        "forest"@,
        "mountain"@,
        "ocean"@,
        "desert"@,
        "waterfall"@,
        "sky"@,
        "galaxy"@,
        "island"@,
    ]
}

/// The styles a phrase may ask for.
pub open spec fn style_texts() -> Seq<Seq<char>> {
    seq![
        "digital painting"@,
        "photorealistic"@,
        "abstract"@,
        "impressionist"@,
        "surreal"@,
        "minimalist"@,
        "fantasy"@,
    ]
}

/// The times of day a phrase may be set at.
pub open spec fn time_of_day_texts() -> Seq<Seq<char>> {
    seq![
        "at sunrise"@,
        "at sunset"@,
        "under the stars"@,
        "during a storm"@,
        "on a foggy morning"@,
        "in autumn"@,
    ]
}

/// The phrase made of one word of each kind: "A", the adjective, the subject
/// and the time of day, then a comma and the style.
pub open spec fn base_prompt_text(
    adjective: Seq<char>,
    subject: Seq<char>,
    time_of_day: Seq<char>,
    style: Seq<char>,
) -> Seq<char> {
    "A "@ + adjective + " "@ + subject + " "@ + time_of_day + ", "@ + style
}

/// Whether `prompt` is the phrase of one adjective, one subject, one time of
/// day and one style out of the four lists.
pub open spec fn is_base_prompt(prompt: Seq<char>) -> bool {
    exists|a: int, s: int, t: int, y: int|
        0 <= a < adjective_texts().len() && 0 <= s < subject_texts().len() && 0 <= t
            < time_of_day_texts().len() && 0 <= y < style_texts().len() && prompt
            == #[trigger] base_prompt_text(
            adjective_texts()[a],
            subject_texts()[s],
            time_of_day_texts()[t],
            style_texts()[y],
        )
}

/// The adjectives, in the order of `adjective_texts`.
pub fn adjectives() -> (r: Vec<&'static str>)
    ensures
        word_texts(r@) == adjective_texts(),
{
    let r = vec![
        "beautiful",
        "serene",
        "mystical",
        "vibrant",
        "tranquil",
        "majestic",
        "ethereal",
        "enigmatic",
    ];
    assert(word_texts(r@) =~= adjective_texts());
    r
}

/// The subjects, in the order of `subject_texts`.
pub fn subjects() -> (r: Vec<&'static str>)
    ensures
        word_texts(r@) == subject_texts(),
{
    let r = vec![
        "forest",
        "mountain",
        "ocean",
        "desert",
        "waterfall",
        "sky",
        "galaxy",
        "island",
    ];
    assert(word_texts(r@) =~= subject_texts());
    r
}

/// The styles, in the order of `style_texts`.
pub fn styles() -> (r: Vec<&'static str>)
    ensures
        word_texts(r@) == style_texts(),
{
    let r = vec![
        "digital painting",
        "photorealistic",
        "abstract",
        "impressionist",
        "surreal",
        "minimalist",
        "fantasy",
    ];
    assert(word_texts(r@) =~= style_texts());
    r
}

/// The times of day, in the order of `time_of_day_texts`.
pub fn times_of_day() -> (r: Vec<&'static str>)
    ensures
        word_texts(r@) == time_of_day_texts(),
{
    let r = vec![
        "at sunrise",
        "at sunset",
        "under the stars",
        "during a storm",
        "on a foggy morning",
        "in autumn",
    ];
    assert(word_texts(r@) =~= time_of_day_texts());
    r
}

/// Calls `choose` of rand's `SliceRandom` on the words, with the generator
/// of the calling thread. The choice is random, so the contract says only
/// what holds of every outcome: nothing comes out of an empty list, and
/// what comes out of another is one of its words. rand gives up only
/// where the system has no entropy for the generator.
#[verifier::external_body]
fn pick(words: &Vec<&'static str>) -> (r: Option<&'static str>)
    ensures
        match r {
            Some(word) => exists|i: int| 0 <= i < words@.len() && #[trigger] words@[i]@ == word@,
            None => words@.len() == 0,
        },
{
    rand::seq::SliceRandom::choose(words.as_slice(), &mut rand::thread_rng()).copied()
}

/// Puts the four words into the phrase.
pub fn base_prompt(adjective: &str, subject: &str, time_of_day: &str, style: &str) -> (r: String)
    ensures
        r@ == base_prompt_text(adjective@, subject@, time_of_day@, style@),
{
    let mut r = String::from_str("A ");
    r.append(adjective);
    r.append(" ");
    r.append(subject);
    r.append(" ");
    r.append(time_of_day);
    r.append(", ");
    r.append(style);
    r
}

/// One word of `words`, picked at random.
fn pick_word(words: &Vec<&'static str>) -> (r: &'static str)
    requires
        words@.len() > 0,
    ensures
        exists|i: int| 0 <= i < words@.len() && #[trigger] word_texts(words@)[i] == r@,
{
    let word = pick(words).unwrap();
    proof {
        let i = choose|i: int| 0 <= i < words@.len() && #[trigger] words@[i]@ == word@;
        assert(word_texts(words@)[i] == word@);
    }
    word
}

/// A phrase with one word picked at random from each of the four lists.
pub fn random_base_prompt() -> (r: String)
    ensures
        is_base_prompt(r@),
{
    let adjective_list = adjectives();
    let subject_list = subjects();
    let style_list = styles();
    let time_of_day_list = times_of_day();
    assert(word_texts(adjective_list@).len() == 8);
    assert(word_texts(subject_list@).len() == 8);
    assert(word_texts(style_list@).len() == 7);
    assert(word_texts(time_of_day_list@).len() == 6);
    let adjective = pick_word(&adjective_list);
    let subject = pick_word(&subject_list);
    let style = pick_word(&style_list);
    let time_of_day = pick_word(&time_of_day_list);
    let r = base_prompt(adjective, subject, time_of_day, style);
    proof {
        let a = choose|i: int|
            0 <= i < adjective_list@.len() && #[trigger] word_texts(adjective_list@)[i]
                == adjective@;
        let s = choose|i: int|
            0 <= i < subject_list@.len() && #[trigger] word_texts(subject_list@)[i] == subject@;
        let t = choose|i: int|
            0 <= i < time_of_day_list@.len() && #[trigger] word_texts(time_of_day_list@)[i]
                == time_of_day@;
        let y = choose|i: int|
            0 <= i < style_list@.len() && #[trigger] word_texts(style_list@)[i] == style@;
        assert(r@ == base_prompt_text(
            adjective_texts()[a],
            subject_texts()[s],
            time_of_day_texts()[t],
            style_texts()[y],
        ));
    }
    r
}

/// What is sent to the completion service to have a phrase enriched.
#[derive(Debug, PartialEq, Eq)]
pub struct CompletionRequest {
    pub url: String,
    pub model: String,
    pub system_message: String,
    pub user_message: String,
    /// The sampling temperature, in tenths.
    pub temperature_tenths: u32,
    /// The cap on the length of the completion, in tokens.
    pub max_tokens: u32,
}

/// The instruction that goes with every phrase.
pub open spec fn system_message_text() -> Seq<char> {
    "You are a creative assistant that enriches image prompts for art generation. Make the following prompt more detailed and vivid, suitable for generating images with DALLÂ·E."@
}

/// The message that carries the phrase `base`.
pub open spec fn user_message_text(base: Seq<char>) -> Seq<char> {
    "Please enrich this prompt for an image: '"@ + base + "'"@
}

/// The request that asks the completion service to enrich `base`.
pub fn completion_request(base: &str) -> (r: CompletionRequest)
    ensures
        r.url@ == "https://api.openai.com/v1/chat/completions"@,
        r.model@ == "gpt-4"@,
        r.system_message@ == system_message_text(),
        r.user_message@ == user_message_text(base@),
        r.temperature_tenths == 7,
        r.max_tokens == 60,
{
    let mut user_message = String::from_str("Please enrich this prompt for an image: '");
    user_message.append(base);
    user_message.append("'");
    CompletionRequest {
        url: String::from_str("https://api.openai.com/v1/chat/completions"),
        model: String::from_str("gpt-4"),
        system_message: String::from_str(
            "You are a creative assistant that enriches image prompts for art generation. Make the following prompt more detailed and vivid, suitable for generating images with DALLÂ·E.",
        ),
        user_message,
        temperature_tenths: 7,
        max_tokens: 60,
    }
}

/// The enriched prompt that a reply of the completion service holds: the
/// completion without the white space at its ends. `None` where the call
/// failed, the status is no success, or the reply holds no completion.
pub open spec fn enrichment_text(outcome: HttpOutcome) -> Option<Seq<char>> {
    match outcome.accepted_body() {
        None => None,
        Some(body) => match completion_content_text(body) {
            None => None,
            Some(content) => Some(trimmed(content)),
        },
    }
}

/// The prompt of a run: the enrichment where there is one, else the phrase.
pub open spec fn prompt_text(base: Seq<char>, enrichment: Option<Seq<char>>) -> Seq<char> {
    match enrichment {
        Some(text) => text,
        None => base,
    }
}

/// Reads the enriched prompt out of the outcome of the completion call.
pub fn enrichment(outcome: &HttpOutcome) -> (r: Option<String>)
    ensures
        text_view(r) == enrichment_text(*outcome),
{
    match outcome.body_if_success() {
        None => None,
        Some(body) => match completion_content(body.as_slice()) {
            None => None,
            Some(content) => Some(trimmed_copy(content.as_str())),
        },
    }
}

/// The prompt of a run, given the phrase and what the enrichment gave.
pub fn enriched_or_base(base: String, enrichment: Option<String>) -> (r: String)
    ensures
        r@ == prompt_text(base@, text_view(enrichment)),
{
    match enrichment {
        Some(text) => text,
        None => base,
    }
}

/// The prompt of a run, given the phrase and the outcome of the completion
/// call. The phrase comes back unchanged where the call failed, where the
/// status is no success, and where the reply holds no completion.
pub fn enriched_prompt(base: String, outcome: &HttpOutcome) -> (r: String)
    ensures
        r@ == prompt_text(base@, enrichment_text(*outcome)),
        *outcome is Failed ==> r@ == base@,
        *outcome is Replied && !status_is_success(outcome->status as int) ==> r@ == base@,
{
    let found = enrichment(outcome);
    enriched_or_base(base, found)
}

} // verus!
