//! Asking the image service for a picture of a prompt.

use vstd::prelude::*;
use vstd::string::*;
use crate::http::HttpOutcome;
use crate::json::{first_image_url, first_image_url_text};
use crate::text::text_view;

verus! {

/// What is sent to the image service.
#[derive(Debug, PartialEq, Eq)]
pub struct ImageRequest {
    pub url: String,
    pub prompt: String,
    /// How many pictures are asked for.
    pub count: u32,
    /// Width and height of the picture, as the service writes them.
    pub size: String,
}

/// The request for one picture of `prompt`, 1024 by 1024.
pub fn image_request(prompt: &str) -> (r: ImageRequest)
    ensures
        r.url@ == "https://api.openai.com/v1/images/generations"@,
        r.prompt@ == prompt@,
        r.count == 1,
        r.size@ == "1024x1024"@,
{
    ImageRequest {
        url: String::from_str("https://api.openai.com/v1/images/generations"),
        prompt: String::from_str(prompt),
        count: 1,
        size: String::from_str("1024x1024"),
    }
}

/// The address of the picture that a reply of the image service names: the
/// string at `data[0].url`. `None` where the call failed, the status is no
/// success, the body is no JSON, or no string stands there.
pub open spec fn generated_url_text(outcome: HttpOutcome) -> Option<Seq<char>> {
    match outcome.accepted_body() {
        None => None,
        Some(body) => first_image_url_text(body),
    }
}

/// Reads the address of the generated picture out of the outcome of the
/// call to the image service. A reply without an address gives `None`.
pub fn generated_image_url(outcome: &HttpOutcome) -> (r: Option<String>)
    ensures
        text_view(r) == generated_url_text(*outcome),
        outcome.accepted_body() is None ==> r is None,
        outcome.accepted_body() is Some && first_image_url_text(outcome.accepted_body()->Some_0)
            is None ==> r is None,
{
    match outcome.body_if_success() {
        None => None,
        Some(body) => first_image_url(body.as_slice()),
    }
}

} // verus!
