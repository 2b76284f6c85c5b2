//! The requests that the operations send, and the answer to one.

use crate::base64::{encode, encoding};
use crate::json::list_text;
use vstd::prelude::*;
use vstd::string::*;
use vstd::utf8::encode_utf8;

verus! {

/// The name under which the client announces itself.
pub const PACKAGE_NAME: &'static str = "mygpoclient";

/// The version under which the client announces itself.
pub const PACKAGE_VERSION: &'static str = "0.1.0";

/// The HTTP methods that the operations use.
#[derive(Debug, Clone, Copy, PartialEq, Eq, Structural)]
pub enum Method {
    Get,
    Put,
}

/// One HTTP request, ready for a transport.
#[derive(Debug, PartialEq, Eq)]
pub struct Request {
    pub method: Method,
    /// The full URL.
    pub url: String,
    /// The value of the `Authorization` header.
    pub authorization: String,
    /// The value of the `User-Agent` header.
    pub user_agent: String,
    /// The JSON text to send as the body, where the request has one.
    pub body: Option<Vec<u8>>,
    /// Whether the body of the answer is to be read. Where it is not, the
    /// exchange is complete as soon as the answer has begun to arrive.
    pub wants_body: bool,
}

/// A request as mathematical values.
pub struct RequestView {
    pub method: Method,
    pub url: Seq<char>,
    pub authorization: Seq<char>,
    pub user_agent: Seq<char>,
    pub body: Option<Seq<u8>>,
    pub wants_body: bool,
}

impl View for Request {
    type V = RequestView;

    open spec fn view(&self) -> RequestView {
        RequestView {
            method: self.method,
            url: self.url@,
            authorization: self.authorization@,
            user_agent: self.user_agent@,
            body: match self.body {
                Some(bytes) => Some(bytes@),
                None => None,
            },
            wants_body: self.wants_body,
        }
    }
}

/// What a transport hands back once an exchange is complete: the status of
/// the answer, and its body where the request wanted it (no bytes otherwise).
/// No operation looks at the status.
#[derive(Debug, PartialEq, Eq)]
pub struct Response {
    pub status: u16,
    pub body: Vec<u8>,
}

/// A user's name and password.
pub struct Credentials {
    pub username: Seq<char>,
    pub password: Seq<char>,
}

/// Where all of a user's subscriptions are found.
pub open spec fn all_subscriptions_url(username: Seq<char>) -> Seq<char> {
    "https://gpodder.net/subscriptions/"@ + username + ".json"@
}

/// Where the subscription list of one device is found.
pub open spec fn device_url(username: Seq<char>, device_id: Seq<char>) -> Seq<char> {
    "https://gpodder.net/subscriptions/"@ + username + "/"@ + device_id + ".json"@
}

/// The `Authorization` header of HTTP Basic authentication: the word `Basic`,
/// a space, and `username:password` in UTF-8 and then in Base64.
pub open spec fn basic_authorization(credentials: Credentials) -> Seq<char> {
    "Basic "@ + encoding(encode_utf8(credentials.username + ":"@ + credentials.password))
}

/// The `User-Agent` header: the package's name, a slash, and its version.
pub open spec fn user_agent() -> Seq<char> {
    PACKAGE_NAME@ + "/"@ + PACKAGE_VERSION@
}

/// A request to `url` with the headers that every request carries.
pub open spec fn request_to(
    method: Method,
    url: Seq<char>,
    credentials: Credentials,
    body: Option<Seq<u8>>,
    wants_body: bool,
) -> RequestView {
    RequestView {
        method,
        url,
        authorization: basic_authorization(credentials),
        user_agent: user_agent(),
        body,
        wants_body,
    }
}

/// The request that asks for all subscriptions of a user.
pub open spec fn all_subscriptions_request(credentials: Credentials) -> RequestView {
    request_to(Method::Get, all_subscriptions_url(credentials.username), credentials, None, true)
}

/// The request that asks for the subscription list of a device.
pub open spec fn device_list_request(credentials: Credentials, device_id: Seq<char>) -> RequestView {
    request_to(Method::Get, device_url(credentials.username, device_id), credentials, None, true)
}

/// The request that replaces the subscription list of a device by
/// `subscriptions`. The answer to it is not read.
pub open spec fn upload_request(
    credentials: Credentials,
    subscriptions: Seq<Seq<char>>,
    device_id: Seq<char>,
) -> RequestView {
    request_to(
        Method::Put,
        device_url(credentials.username, device_id),
        credentials,
        Some(list_text(subscriptions)),
        false,
    )
}

/// Asking for all subscriptions is a GET without a body to the user's URL,
/// with the user's credentials in the `Authorization` header.
pub proof fn lemma_all_subscriptions_request(credentials: Credentials)
    ensures
        all_subscriptions_request(credentials).method == Method::Get,
        all_subscriptions_request(credentials).url == "https://gpodder.net/subscriptions/"@
            + credentials.username + ".json"@,
        all_subscriptions_request(credentials).authorization == "Basic "@ + encoding(
            encode_utf8(credentials.username + ":"@ + credentials.password),
        ),
        all_subscriptions_request(credentials).user_agent == user_agent(),
        all_subscriptions_request(credentials).body is None,
        all_subscriptions_request(credentials).wants_body,
{
}

/// Fetching and uploading the list of a device go to the same URL with the
/// same headers. The requests differ in the method and in the body alone;
/// beyond that, only the fetch waits for the body of the answer.
pub proof fn lemma_device_requests_agree(
    credentials: Credentials,
    subscriptions: Seq<Seq<char>>,
    device_id: Seq<char>,
)
    ensures
        ({
            let fetch = device_list_request(credentials, device_id);
            let upload = upload_request(credentials, subscriptions, device_id);
            &&& fetch.url == "https://gpodder.net/subscriptions/"@ + credentials.username + "/"@
                + device_id + ".json"@
            &&& upload.url == fetch.url
            &&& upload.authorization == fetch.authorization
            &&& upload.user_agent == fetch.user_agent
            &&& fetch.method == Method::Get
            &&& upload.method == Method::Put
            &&& fetch.body is None
            &&& upload.body == Some(list_text(subscriptions))
            &&& fetch.wants_body
            &&& !upload.wants_body
        }),
{
}

/// Builds the `Authorization` header.
pub fn authorization_header(username: &str, password: &str) -> (header: String)
    ensures
        header@ == basic_authorization(Credentials { username: username@, password: password@ }),
{
    let mut pair = String::from_str(username);
    pair.append(":");
    pair.append(password);
    let encoded = encode(pair.as_str().as_bytes());
    let mut header = String::from_str("Basic ");
    header.append(encoded.as_str());
    header
}

/// Builds the `User-Agent` header.
pub fn user_agent_header() -> (header: String)
    ensures
        header@ == user_agent(),
{
    let mut header = String::from_str(PACKAGE_NAME);
    header.append("/");
    header.append(PACKAGE_VERSION);
    header
}

/// Builds the URL of all subscriptions.
pub fn all_subscriptions_location(username: &str) -> (url: String)
    ensures
        url@ == all_subscriptions_url(username@),
{
    let mut url = String::from_str("https://gpodder.net/subscriptions/");
    url.append(username);
    url.append(".json");
    url
}

/// Builds the URL of a device's subscription list.
pub fn device_location(username: &str, device_id: &str) -> (url: String)
    ensures
        url@ == device_url(username@, device_id@),
{
    let mut url = String::from_str("https://gpodder.net/subscriptions/");
    url.append(username);
    url.append("/");
    url.append(device_id);
    url.append(".json");
    url
}

} // verus!
