use threads_bot::http::{FormCall, HttpOutcome};
use threads_bot::publish::{
    after_container, after_publish, container_call, publish_call, Account, PublishFailure,
};

fn account() -> Account {
    Account { user_id: "4242".to_string(), access_token: "SECRET-TOKEN".to_string() }
}

fn reply(status: u16, body: &str) -> HttpOutcome {
    HttpOutcome::Replied { status, body: body.as_bytes().to_vec() }
}

fn pairs(fields: &[(&str, &str)]) -> Vec<(String, String)> {
    fields.iter().map(|(k, v)| (k.to_string(), v.to_string())).collect()
}

#[test]
fn container_call_posts_the_picture() {
    let call = container_call(&account(), "https://threads.dasm.asia/images/a.png");
    assert_eq!(
        call,
        FormCall {
            url: "https://graph.threads.net/v1.0/4242/threads".to_string(),
            fields: pairs(&[
                ("media_type", "IMAGE"),
                ("image_url", "https://threads.dasm.asia/images/a.png"),
                ("access_token", "SECRET-TOKEN"),
            ]),
        }
    );
}

#[test]
fn publish_call_posts_the_container_id() {
    let call = publish_call(&account(), "1789");
    assert_eq!(
        call,
        FormCall {
            url: "https://graph.threads.net/v1.0/4242/threads_publish".to_string(),
            fields: pairs(&[("creation_id", "1789"), ("access_token", "SECRET-TOKEN")]),
        }
    );
}

#[test]
fn container_reply_with_id_leads_to_the_publish_call() {
    let next = after_container(&account(), &reply(200, r#"{"id":"1789"}"#));
    assert_eq!(next, Ok(publish_call(&account(), "1789")));
    let next = after_container(&account(), &reply(201, r#"{"id":" 1789 ","more":true}"#));
    assert_eq!(next, Ok(publish_call(&account(), " 1789 ")));
}

#[test]
fn failed_container_call_stops_the_publication() {
    assert_eq!(
        after_container(&account(), &HttpOutcome::Failed),
        Err(PublishFailure::ContainerCallFailed)
    );
}

#[test]
fn refused_container_call_stops_the_publication() {
    assert_eq!(
        after_container(&account(), &reply(400, r#"{"id":"1789"}"#)),
        Err(PublishFailure::ContainerRefused { status: 400 })
    );
    assert_eq!(
        after_container(&account(), &reply(199, r#"{"id":"1789"}"#)),
        Err(PublishFailure::ContainerRefused { status: 199 })
    );
    assert_eq!(
        after_container(&account(), &reply(300, "")),
        Err(PublishFailure::ContainerRefused { status: 300 })
    );
}

#[test]
fn unreadable_container_reply_stops_the_publication() {
    assert_eq!(
        after_container(&account(), &reply(200, "<html>")),
        Err(PublishFailure::ContainerReplyUnreadable)
    );
    assert_eq!(
        after_container(&account(), &reply(200, "")),
        Err(PublishFailure::ContainerReplyUnreadable)
    );
}

#[test]
fn container_reply_without_id_stops_the_publication() {
    for body in [r#"{}"#, r#"{"id":1789}"#, r#"{"id":null}"#, r#"["id"]"#, r#"{"data":{"id":"1"}}"#] {
        assert_eq!(
            after_container(&account(), &reply(200, body)),
            Err(PublishFailure::ContainerIdMissing),
            "{}",
            body
        );
    }
}

#[test]
fn publish_reply_decides_the_end() {
    assert_eq!(after_publish(&reply(200, r#"{"id":"99"}"#)), Ok(()));
    assert_eq!(after_publish(&reply(299, "")), Ok(()));
    assert_eq!(
        after_publish(&reply(403, "no")),
        Err(PublishFailure::PublishRefused { status: 403 })
    );
    assert_eq!(
        after_publish(&reply(500, "")),
        Err(PublishFailure::PublishRefused { status: 500 })
    );
    assert_eq!(after_publish(&HttpOutcome::Failed), Err(PublishFailure::PublishCallFailed));
}
