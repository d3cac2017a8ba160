//! What happens to one inbound telemetry message: whether it is relayed, which
//! snapshot is fetched for it, and which webhook posts carry the snapshot.
use crate::config::{opt_view, Config, WebhookTargets};
use crate::push::{base64_decoded, base64_of, push_body, push_body_of};
use crate::text::same_text;
use vstd::prelude::*;
use vstd::slice::slice_to_vec;

verus! {

#[verifier::external_type_specification]
#[verifier::external_body]
pub struct ExNumber(serde_json::Number);

/// The RF part of a telemetry record. Only `code` takes part in filtering; the
/// other fields are kept as they were received.
pub struct RfReading {
    pub code: String,
    pub bits: serde_json::Number,
    pub protocol: serde_json::Number,
    pub pulse: serde_json::Number,
}

/// A decoded telemetry record.
pub struct Telemetry {
    pub time: String,
    pub rf: RfReading,
}

/// A telemetry record with `code` passes the optional RF filter: there is no
/// filter, or the filter equals the code exactly.
pub open spec fn passes(filter: Option<Seq<char>>, code: Seq<char>) -> bool {
    match filter {
        None => true,
        Some(f) => f == code,
    }
}

/// Tells whether an RF code passes the optional filter, by exact comparison.
pub fn passes_filter(filter: &Option<String>, code: &String) -> (r: bool)
    ensures
        r == passes(opt_view(*filter), code@),
{
    match filter {
        None => true,
        Some(f) => same_text(f.as_str(), code.as_str()),
    }
}

/// The message triggers a snapshot: it decoded, and its code passes the filter.
pub open spec fn triggers(config: Config, decoded: Result<Telemetry, String>) -> bool {
    decoded matches Ok(t) && passes(opt_view(config.rf_code), t.rf.code@)
}

/// The camera URL to fetch a snapshot from for one inbound message, given what
/// decoding its payload gave; `None` when the message is dropped.
pub fn snapshot_to_fetch(config: &Config, decoded: &Result<Telemetry, String>) -> (r: Option<
    String,
>)
    ensures
        r is Some <==> triggers(*config, *decoded),
        r matches Some(u) ==> u@ == config.webhooks.camera_url@,
        decoded is Err ==> r is None,
        config.rf_code matches Some(f) && decoded matches Ok(t) && f@ != t.rf.code@ ==> r is None,
        config.rf_code is None && decoded is Ok ==> (r matches Some(u) && u@
            == config.webhooks.camera_url@),
{
    match decoded {
        Ok(t) => {
            if passes_filter(&config.rf_code, &t.rf.code) {
                Some(config.webhooks.camera_url.clone())
            } else {
                None
            }
        },
        Err(_) => None,
    }
}

/// A multipart post to the chat webhook: a text field and one file part.
pub struct ChatPost {
    pub url: String,
    /// Name of the text field.
    pub text_field: String,
    pub content: String,
    /// Name of the file part.
    pub file_field: String,
    pub file_name: String,
    pub mime: String,
    pub image: Vec<u8>,
}

/// A JSON post to the push-notification webhook.
pub struct PushPost {
    pub url: String,
    pub body: String,
}

/// One webhook request to make.
pub enum Post {
    Chat(ChatPost),
    Push(PushPost),
}

/// `p` posts `message` and `image` to the chat webhook at `url`.
pub open spec fn is_chat_post(p: Post, url: Seq<char>, message: Seq<char>, image: Seq<u8>) -> bool {
    &&& p matches Post::Chat(c)
    &&& c.url@ == url
    &&& c.text_field@ == "content"@
    &&& c.content@ == message
    &&& c.file_field@ == "files[0]"@
    &&& c.file_name@ == "files.jpg"@
    &&& c.mime@ == "image/jpeg"@
    &&& c.image@ == image
}

/// `p` posts `message` and `image` to the push webhook at `url`; the image is
/// recovered exactly by decoding the embedded base64 text.
pub open spec fn is_push_post(p: Post, url: Seq<char>, message: Seq<char>, image: Seq<u8>) -> bool {
    &&& p matches Post::Push(g)
    &&& g.url@ == url
    &&& g.body@ == push_body_of(message, base64_of(image))
    &&& base64_decoded(base64_of(image)) == Some(image)
}

/// Number of configured webhooks.
pub open spec fn target_count(targets: WebhookTargets) -> nat {
    (if targets.chat_url is Some {
        1nat
    } else {
        0nat
    }) + (if targets.push_url is Some {
        1nat
    } else {
        0nat
    })
}

/// The webhook posts for a fetched snapshot: the chat post first when a chat
/// webhook is configured, then the push post when a push webhook is. Both carry
/// the same message and the same image bytes. The list is made before any post
/// is sent, so each is attempted whatever became of the other.
pub fn posts_for_snapshot(targets: &WebhookTargets, image: &Vec<u8>) -> (r: Vec<Post>)
    requires
        image@.len() <= usize::MAX / 4,
    ensures
        r@.len() == target_count(*targets),
        targets.chat_url matches Some(u) ==> is_chat_post(
            r@[0],
            u@,
            targets.message@,
            image@,
        ),
        targets.push_url matches Some(u) ==> is_push_post(
            r@[r@.len() - 1],
            u@,
            targets.message@,
            image@,
        ),
{
    let mut posts: Vec<Post> = Vec::new();
    if let Some(url) = &targets.chat_url {
        let chat = ChatPost {
            url: url.clone(),
            text_field: String::from_str("content"),
            content: targets.message.clone(),
            file_field: String::from_str("files[0]"),
            file_name: String::from_str("files.jpg"),
            mime: String::from_str("image/jpeg"),
            image: slice_to_vec(image.as_slice()),
        };
        posts.push(Post::Chat(chat));
    }
    if let Some(url) = &targets.push_url {
        let body = push_body(targets.message.as_str(), image.as_slice());
        posts.push(Post::Push(PushPost { url: url.clone(), body }));
    }
    posts
}

/// The webhook posts after a snapshot fetch: none when the fetch failed,
/// otherwise those of `posts_for_snapshot`.
pub fn posts_after_fetch(targets: &WebhookTargets, fetched: &Result<Vec<u8>, String>) -> (r: Vec<
    Post,
>)
    requires
        fetched matches Ok(image) ==> image@.len() <= usize::MAX / 4,
    ensures
        fetched is Err ==> r@.len() == 0,
        fetched matches Ok(image) ==> {
            &&& r@.len() == target_count(*targets)
            &&& targets.chat_url matches Some(u) ==> is_chat_post(
                r@[0],
                u@,
                targets.message@,
                image@,
            )
            &&& targets.push_url matches Some(u) ==> is_push_post(
                r@[r@.len() - 1],
                u@,
                targets.message@,
                image@,
            )
        },
{
    match fetched {
        Ok(image) => posts_for_snapshot(targets, image),
        Err(_) => Vec::new(),
    }
}

/// The response statuses that count as delivered: 200 or 204 for the chat
/// webhook, only 200 for the push webhook.
pub open spec fn accepted(post: Post, status: u16) -> bool {
    match post {
        Post::Chat(_) => status == 200 || status == 204,
        Post::Push(_) => status == 200,
    }
}

/// Tells whether a webhook answered a post with a status that counts as
/// delivered.
pub fn delivered(post: &Post, status: u16) -> (r: bool)
    ensures
        r == accepted(*post, status),
{
    match post {
        Post::Chat(_) => status == 200 || status == 204,
        Post::Push(_) => status == 200,
    }
}

} // verus!
