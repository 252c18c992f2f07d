//! The signed request that posts a summary.

use crate::text::starts_with;
use vstd::prelude::*;
use vstd::string::*;

verus! {

/// The four strings that sign a post: the application's key and secret, and the user's.
/// What they hold is nobody's business here: they are handed to the signer as they are.
#[derive(Clone, Debug, PartialEq, Eq)]
pub struct Credentials {
    pub app_key: String,
    pub app_secret: String,
    pub user_key: String,
    pub user_secret: String,
}

/// A request to be sent, as plain strings.
#[derive(Clone, Debug, PartialEq, Eq)]
pub struct PublishRequest {
    pub method: String,
    pub uri: String,
    pub content_type: String,
    pub authorization: String,
    pub body: String,
}

/// A request as plain values.
pub struct PublishView {
    pub method: Seq<char>,
    pub uri: Seq<char>,
    pub content_type: Seq<char>,
    pub authorization: Seq<char>,
    pub body: Seq<char>,
}

impl View for PublishRequest {
    type V = PublishView;

    open spec fn view(&self) -> PublishView {
        PublishView {
            method: self.method@,
            uri: self.uri@,
            content_type: self.content_type@,
            authorization: self.authorization@,
            body: self.body@,
        }
    }
}

/// Why no request could be made.
#[derive(Clone, Copy, Debug, PartialEq, Eq, Structural)]
pub enum PublishError {
    /// The text could not be written as a JSON string.
    Encoding,
}

/// Where a status is created.
pub open spec fn status_endpoint() -> Seq<char> {
    "https://api.twitter.com/2/tweets"@
}

/// The JSON object with the one member `text`, whose value is the given JSON string.
pub open spec fn status_body(literal: Seq<char>) -> Seq<char> {
    "{\"text\":"@ + literal + "}"@
}

/// The request that creates a status: a POST of a JSON body to the status endpoint,
/// under the given `Authorization` header.
pub open spec fn status_request(authorization: Seq<char>, literal: Seq<char>) -> PublishView {
    PublishView {
        method: "POST"@,
        uri: status_endpoint(),
        content_type: "application/json"@,
        authorization,
        body: status_body(literal),
    }
}

/// What every `Authorization` header of the signer starts with.
pub open spec fn oauth_scheme() -> Seq<char> {
    "OAuth "@
}

/// The JSON string that serde_json writes for a text: the text between double quotes,
/// escaped as serde_json escapes it.
pub uninterp spec fn json_string(text: Seq<char>) -> Seq<char>;

/// serde_json's error: carried to where it becomes a `PublishError`, never read.
#[verifier::external_type_specification]
#[verifier::external_body]
pub struct ExJsonError(serde_json::Error);

/// Calls `serde_json::to_string` on a string slice. Claimed, not proved: it returns
/// `Ok`, and the same for the same text. Of the two ways to fail that serde_json names,
/// an impl of `Serialize` that gives up and a map without string keys, a text has neither.
#[verifier::external_body]
fn to_json_string(text: &str) -> (r: Result<String, serde_json::Error>)
    ensures
        r is Ok,
        r matches Ok(s) ==> s@ == json_string(text@),
{
    serde_json::to_string(text)
}

/// Calls `oauth1_request::post` with an empty request, a token made of the four
/// credential strings, and the HMAC-SHA1 method. The signer stamps the header with the
/// time and a random nonce, so two calls differ. Claimed, not proved: the header starts
/// with `OAuth` and a space. No `?` in the URI: in a debug build the signer panics on it.
#[verifier::external_body]
fn sign_post(uri: &str, credentials: &Credentials) -> (header: String)
    requires
        !uri@.contains('?'),
    ensures
        starts_with(header@, oauth_scheme()),
{
    let token = oauth1_request::Token::from_parts(
        credentials.app_key.as_str(),
        credentials.app_secret.as_str(),
        credentials.user_key.as_str(),
        credentials.user_secret.as_str(),
    );
    oauth1_request::post(uri, &(), &token, oauth1_request::HmacSha1)
}

/// Puts a request together from a signed header and the text as a JSON string.
pub fn build_status_request(authorization: String, literal: String) -> (request: PublishRequest)
    ensures
        request@ == status_request(authorization@, literal@),
{
    let mut body: String = String::from_str("{\"text\":");
    body.append(literal.as_str());
    body.append("}");
    PublishRequest {
        method: String::from_str("POST"),
        uri: String::from_str("https://api.twitter.com/2/tweets"),
        content_type: String::from_str("application/json"),
        authorization,
        body,
    }
}

/// Makes the request, or gives up, by what the JSON writer returned: the request where
/// it wrote the text, and an error where it did not.
pub fn conclude_twit(
    authorization: String,
    encoded: Result<String, serde_json::Error>,
) -> (r: Result<PublishRequest, PublishError>)
    ensures
        match encoded {
            Ok(literal) => r matches Ok(request) && request@ == status_request(
                authorization@,
                literal@,
            ),
            Err(_) => r == Err::<PublishRequest, PublishError>(PublishError::Encoding),
        },
{
    match encoded {
        Ok(literal) => Ok(build_status_request(authorization, literal)),
        Err(_) => Err(PublishError::Encoding),
    }
}

/// The status endpoint has no query part.
proof fn lemma_endpoint_has_no_query()
    ensures
        !status_endpoint().contains('?'),
{
    reveal_strlit("https://api.twitter.com/2/tweets");
}

/// Makes the request that posts `text` as a status, signed with `credentials`.
/// There is a request for every text. Its header comes from the signer and differs
/// from call to call; all else is fixed by the text. The error arm is there for the
/// type of the JSON writer, which is claimed never to take it on a text.
pub fn compose_twit(text: &str, credentials: &Credentials) -> (r: Result<PublishRequest, PublishError>)
    ensures
        r matches Ok(request) && request@ == status_request(
            request.authorization@,
            json_string(text@),
        ) && starts_with(request.authorization@, oauth_scheme()),
{
    proof {
        lemma_endpoint_has_no_query();
    }
    let authorization = sign_post("https://api.twitter.com/2/tweets", credentials);
    conclude_twit(authorization, to_json_string(text))
}

} // verus!
