//! Publishing a post: two calls to the social service, the second of which
//! is made only with the container id that the first one returned.

use vstd::prelude::*;
use vstd::string::*;
use crate::http::{fields_text, is_success, status_is_success, FormCall, HttpOutcome};
use crate::json::{container_id, container_id_text, IdError};

verus! {

/// The account that posts, and the token that lets it.
#[derive(Debug, PartialEq, Eq)]
pub struct Account {
    pub user_id: String,
    pub access_token: String,
}

/// Why a publication stopped.
#[derive(Clone, Copy, Debug, PartialEq, Eq, Structural)]
pub enum PublishFailure {
    /// The call that creates the container got no reply.
    ContainerCallFailed,
    /// The service answered that call with a status outside 200 to 299.
    ContainerRefused { status: u16 },
    /// The reply to that call is no JSON document.
    ContainerReplyUnreadable,
    /// The reply to that call holds no text under `id`.
    ContainerIdMissing,
    /// The call that publishes the container got no reply.
    PublishCallFailed,
    /// The service answered that call with a status outside 200 to 299.
    PublishRefused { status: u16 },
}

/// The address at which the account `user_id` creates a container.
pub open spec fn container_url_text(user_id: Seq<char>) -> Seq<char> {
    "https://graph.threads.net/v1.0/"@ + user_id + "/threads"@
}

/// The address at which the account `user_id` publishes a container.
pub open spec fn publish_url_text(user_id: Seq<char>) -> Seq<char> {
    "https://graph.threads.net/v1.0/"@ + user_id + "/threads_publish"@
}

/// The form that creates a container for the picture at `image_url`.
pub open spec fn container_fields_text(image_url: Seq<char>, token: Seq<char>) -> Seq<
    (Seq<char>, Seq<char>),
> {
    seq![("media_type"@, "IMAGE"@), ("image_url"@, image_url), ("access_token"@, token)]
}

/// The form that publishes the container `id`.
pub open spec fn publish_fields_text(id: Seq<char>, token: Seq<char>) -> Seq<
    (Seq<char>, Seq<char>),
> {
    seq![("creation_id"@, id), ("access_token"@, token)]
}

/// What the reply to the first call yields: the container id, or the reason
/// why the publication stops there.
pub open spec fn container_step(outcome: HttpOutcome) -> Result<Seq<char>, PublishFailure> {
    match outcome {
        HttpOutcome::Failed => Err(PublishFailure::ContainerCallFailed),
        HttpOutcome::Replied { status, body } => if !status_is_success(status as int) {
            Err(PublishFailure::ContainerRefused { status })
        } else {
            match container_id_text(body@) {
                Ok(id) => Ok(id),
                Err(IdError::NotJson) => Err(PublishFailure::ContainerReplyUnreadable),
                Err(IdError::Missing) => Err(PublishFailure::ContainerIdMissing),
            }
        },
    }
}

/// What the reply to the second call says of the publication.
pub open spec fn publish_step(outcome: HttpOutcome) -> Result<(), PublishFailure> {
    match outcome {
        HttpOutcome::Failed => Err(PublishFailure::PublishCallFailed),
        HttpOutcome::Replied { status, body } => if status_is_success(status as int) {
            Ok(())
        } else {
            Err(PublishFailure::PublishRefused { status })
        },
    }
}

/// One field of a form.
fn pair(name: &str, value: &str) -> (r: (String, String))
    ensures
        r.0@ == name@,
        r.1@ == value@,
{
    (String::from_str(name), String::from_str(value))
}

/// The first call of a publication: it creates a container for the picture
/// at `image_url`.
pub fn container_call(account: &Account, image_url: &str) -> (r: FormCall)
    ensures
        r.url@ == container_url_text(account.user_id@),
        fields_text(r.fields@) == container_fields_text(image_url@, account.access_token@),
{
    let mut url = String::from_str("https://graph.threads.net/v1.0/");
    url.append(account.user_id.as_str());
    url.append("/threads");
    let mut fields: Vec<(String, String)> = Vec::new();
    fields.push(pair("media_type", "IMAGE"));
    fields.push(pair("image_url", image_url));
    fields.push(pair("access_token", account.access_token.as_str()));
    assert(fields_text(fields@) =~= container_fields_text(image_url@, account.access_token@));
    FormCall { url, fields }
}

/// The second call of a publication: it publishes the container `id`.
pub fn publish_call(account: &Account, id: &str) -> (r: FormCall)
    ensures
        r.url@ == publish_url_text(account.user_id@),
        fields_text(r.fields@) == publish_fields_text(id@, account.access_token@),
{
    let mut url = String::from_str("https://graph.threads.net/v1.0/");
    url.append(account.user_id.as_str());
    url.append("/threads_publish");
    let mut fields: Vec<(String, String)> = Vec::new();
    fields.push(pair("creation_id", id));
    fields.push(pair("access_token", account.access_token.as_str()));
    assert(fields_text(fields@) =~= publish_fields_text(id@, account.access_token@));
    FormCall { url, fields }
}

/// Decides what follows the first call. A reply with a success status and a
/// text under `id` leads to the second call, for that id; anything else
/// stops the publication, and the second call is not made.
pub fn after_container(account: &Account, outcome: &HttpOutcome) -> (r: Result<
    FormCall,
    PublishFailure,
>)
    ensures
        match r {
            Ok(call) => container_step(*outcome) is Ok && call.url@ == publish_url_text(
                account.user_id@,
            ) && fields_text(call.fields@) == publish_fields_text(
                container_step(*outcome)->Ok_0,
                account.access_token@,
            ),
            Err(failure) => container_step(*outcome) == Err::<Seq<char>, PublishFailure>(failure),
        },
{
    match outcome {
        HttpOutcome::Failed => Err(PublishFailure::ContainerCallFailed),
        HttpOutcome::Replied { status, body } => {
            if !is_success(*status) {
                Err(PublishFailure::ContainerRefused { status: *status })
            } else {
                match container_id(body.as_slice()) {
                    Ok(id) => Ok(publish_call(account, id.as_str())),
                    Err(IdError::NotJson) => Err(PublishFailure::ContainerReplyUnreadable),
                    Err(IdError::Missing) => Err(PublishFailure::ContainerIdMissing),
                }
            }
        },
    }
}

/// Decides how the publication ended, from the reply to the second call.
pub fn after_publish(outcome: &HttpOutcome) -> (r: Result<(), PublishFailure>)
    ensures
        r == publish_step(*outcome),
{
    match outcome {
        HttpOutcome::Failed => Err(PublishFailure::PublishCallFailed),
        HttpOutcome::Replied { status, body } => {
            if is_success(*status) {
                Ok(())
            } else {
                Err(PublishFailure::PublishRefused { status: *status })
            }
        },
    }
}

} // verus!
