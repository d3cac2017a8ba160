//! The JSON body posted to the push-notification webhook, with the snapshot
//! embedded twice as a base64 data URI.
use base64::Engine;
use vstd::prelude::*;

verus! {

/// The standard base64 text (RFC 4648 alphabet, with padding) of some bytes.
pub uninterp spec fn base64_of(bytes: Seq<u8>) -> Seq<char>;

/// What the standard base64 decoder gives back for a text, or `None` where it
/// reports an error.
pub uninterp spec fn base64_decoded(text: Seq<char>) -> Option<Seq<u8>>;

/// Relies on `base64::engine::general_purpose::STANDARD.encode`, which writes
/// four characters for each started group of three bytes and whose output the
/// same engine's `decode` turns back into the input. It panics only where that
/// length overflows `usize`.
#[verifier::external_body]
fn encode_base64(bytes: &[u8]) -> (r: String)
    requires
        bytes@.len() <= usize::MAX / 4,
    ensures
        r@ == base64_of(bytes@),
        r@.len() == 4 * ((bytes@.len() + 2) / 3),
        base64_decoded(r@) == Some(bytes@),
{
    base64::engine::general_purpose::STANDARD.encode(bytes)
}

/// Text of the body before the first embedded image.
pub open spec fn body_head() -> Seq<char> {
    "{\"message\": \"![](data:image/jpg;base64,"@
}

/// Text between the first embedded image and the title.
pub open spec fn body_before_title() -> Seq<char> {
    ")\", \"title\": \""@
}

/// Text between the title and the second embedded image.
pub open spec fn body_before_big_image() -> Seq<char> {
    "\", \"priority\": 5, \"extras\": {\"client::display\": {\"contentType\": \"text/markdown\"}, \"client::notification\": {\"bigImageUrl\": \"data:image/jpg;base64,"@
}

/// Text after the second embedded image.
pub open spec fn body_tail() -> Seq<char> {
    "\"}}}"@
}

/// The push body for a title and the base64 text of an image. The title is
/// placed as it is, without JSON escaping.
pub open spec fn push_body_of(message: Seq<char>, encoded: Seq<char>) -> Seq<char> {
    body_head() + encoded + body_before_title() + message + body_before_big_image() + encoded
        + body_tail()
}

/// Where the first copy of the image text starts in the push body.
pub open spec fn first_image_start() -> int {
    body_head().len() as int
}

/// Where the second copy of the image text starts in the push body.
pub open spec fn second_image_start(message: Seq<char>, encoded: Seq<char>) -> int {
    body_head().len() + encoded.len() + body_before_title().len() + message.len()
        + body_before_big_image().len() as int
}

/// Builds the JSON body for the push webhook: the image as a markdown embed in
/// the message, `message` as the title, priority 5, and the image again as the
/// notification's big image. Decoding the body at the two places where the
/// image is embedded gives back the image bytes exactly.
pub fn push_body(message: &str, image: &[u8]) -> (r: String)
    requires
        image@.len() <= usize::MAX / 4,
    ensures
        r@ == push_body_of(message@, base64_of(image@)),
        base64_decoded(base64_of(image@)) == Some(image@),
        base64_decoded(
            r@.subrange(first_image_start(), first_image_start() + base64_of(image@).len()),
        ) == Some(image@),
        base64_decoded(
            r@.subrange(
                second_image_start(message@, base64_of(image@)),
                second_image_start(message@, base64_of(image@)) + base64_of(image@).len(),
            ),
        ) == Some(image@),
{
    let encoded = encode_base64(image);
    let mut body = String::from_str("{\"message\": \"![](data:image/jpg;base64,");
    body.append(encoded.as_str());
    body.append(")\", \"title\": \"");
    body.append(message);
    body.append(
        "\", \"priority\": 5, \"extras\": {\"client::display\": {\"contentType\": \"text/markdown\"}, \"client::notification\": {\"bigImageUrl\": \"data:image/jpg;base64,",
    );
    body.append(encoded.as_str());
    body.append("\"}}}");
    proof {
        let e = base64_of(image@);
        let s1 = first_image_start();
        let s2 = second_image_start(message@, e);
        assert(body@.subrange(s1, s1 + e.len()) =~= e);
        assert(body@.subrange(s2, s2 + e.len()) =~= e);
    }
    body
}

} // verus!
