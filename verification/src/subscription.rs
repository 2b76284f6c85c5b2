//! Subscriptions, and the three operations on them.

use crate::client::Client;
use crate::decode::{
    decode_device_list, decode_subscriptions, device_list_of_body, lemma_texts_of_list_value,
    subscriptions_of_body,
};
use crate::error::{DecodeError, Error};
use crate::json::{encode_list, list_text, parsed};
use crate::request::{
    all_subscriptions_location, all_subscriptions_request, authorization_header, device_list_request,
    device_location, request_to, upload_request, user_agent_header, Method, Request, Response,
};
use vstd::prelude::*;

verus! {

/// A podcast subscription, as the service describes it.
#[derive(Debug, PartialEq, Eq)]
pub struct Subscription {
    pub url: String,
    pub title: String,
    pub description: String,
    pub subscribers: u64,
    pub subscribers_last_week: u64,
    pub logo_url: Option<String>,
    pub scaled_logo_url: Option<String>,
    pub website: Option<String>,
    pub mygpo_link: String,
}

/// A subscription as mathematical values.
pub struct SubscriptionView {
    pub url: Seq<char>,
    pub title: Seq<char>,
    pub description: Seq<char>,
    pub subscribers: u64,
    pub subscribers_last_week: u64,
    pub logo_url: Option<Seq<char>>,
    pub scaled_logo_url: Option<Seq<char>>,
    pub website: Option<Seq<char>>,
    pub mygpo_link: Seq<char>,
}

/// The characters of a string that may be absent.
pub open spec fn optional_text(text: Option<String>) -> Option<Seq<char>> {
    match text {
        Some(s) => Some(s@),
        None => None,
    }
}

impl View for Subscription {
    type V = SubscriptionView;

    open spec fn view(&self) -> SubscriptionView {
        SubscriptionView {
            url: self.url@,
            title: self.title@,
            description: self.description@,
            subscribers: self.subscribers,
            subscribers_last_week: self.subscribers_last_week,
            logo_url: optional_text(self.logo_url),
            scaled_logo_url: optional_text(self.scaled_logo_url),
            website: optional_text(self.website),
            mygpo_link: self.mygpo_link@,
        }
    }
}

impl DeepView for Subscription {
    type V = SubscriptionView;

    open spec fn deep_view(&self) -> SubscriptionView {
        self@
    }
}

/// The outcome of an operation with its value taken as mathematics.
pub open spec fn outcome_view<T: DeepView, E>(outcome: Result<T, Error<E>>) -> Result<
    T::V,
    Error<E>,
> {
    match outcome {
        Ok(value) => Ok(value.deep_view()),
        Err(error) => Err(error),
    }
}

/// What asking for all subscriptions comes to, given what the transport handed
/// back: the transport's error as it is, or else what the body decodes to. The
/// status plays no part.
pub open spec fn subscriptions_result<E>(exchange: Result<Response, E>) -> Result<
    Seq<SubscriptionView>,
    Error<E>,
> {
    match exchange {
        Err(error) => Err(Error::Transport(error)),
        Ok(response) => match subscriptions_of_body(response.body@) {
            Ok(list) => Ok(list),
            Err(error) => Err(Error::Decode(error)),
        },
    }
}

/// What asking for a device's list comes to, given what the transport handed
/// back.
pub open spec fn device_list_result<E>(exchange: Result<Response, E>) -> Result<
    Seq<Seq<char>>,
    Error<E>,
> {
    match exchange {
        Err(error) => Err(Error::Transport(error)),
        Ok(response) => match device_list_of_body(response.body@) {
            Ok(list) => Ok(list),
            Err(error) => Err(Error::Decode(error)),
        },
    }
}

/// What an upload comes to, given what the transport handed back: success as
/// soon as the exchange was completed, whatever the answer says.
pub open spec fn upload_result<E>(exchange: Result<Response, E>) -> Result<(), Error<E>> {
    match exchange {
        Err(error) => Err(Error::Transport(error)),
        Ok(_) => Ok(()),
    }
}

/// A failure of the transport comes out of every operation as that failure,
/// and never as a failure to decode.
pub proof fn lemma_transport_failure<E>(error: E)
    ensures
        subscriptions_result(Err::<Response, E>(error)) == Err::<Seq<SubscriptionView>, Error<E>>(
            Error::Transport(error),
        ),
        device_list_result(Err::<Response, E>(error)) == Err::<Seq<Seq<char>>, Error<E>>(
            Error::Transport(error),
        ),
        upload_result(Err::<Response, E>(error)) == Err::<(), Error<E>>(Error::Transport(error)),
{
}

/// An answer whose body is no JSON text, or holds anything but an array, makes
/// both fetching operations fail to decode: none of them returns a list, not
/// even an empty one.
pub proof fn lemma_bad_body_fails<E>(response: Response)
    requires
        parsed(response.body@) is None || !(parsed(response.body@)->Some_0 is Array),
    ensures
        parsed(response.body@) is None ==> subscriptions_result(Ok::<Response, E>(response))
            == Err::<Seq<SubscriptionView>, Error<E>>(Error::Decode(DecodeError::Syntax))
            && device_list_result(Ok::<Response, E>(response)) == Err::<
            Seq<Seq<char>>,
            Error<E>,
        >(Error::Decode(DecodeError::Syntax)),
        parsed(response.body@) is Some ==> subscriptions_result(Ok::<Response, E>(response))
            == Err::<Seq<SubscriptionView>, Error<E>>(Error::Decode(DecodeError::Shape))
            && device_list_result(Ok::<Response, E>(response)) == Err::<
            Seq<Seq<char>>,
            Error<E>,
        >(Error::Decode(DecodeError::Shape)),
{
}

/// Two answers with the same body come to the same, whatever their status.
pub proof fn lemma_status_plays_no_part<E>(first: Response, second: Response)
    requires
        first.body@ == second.body@,
    ensures
        subscriptions_result(Ok::<Response, E>(first)) == subscriptions_result(
            Ok::<Response, E>(second),
        ),
        device_list_result(Ok::<Response, E>(first)) == device_list_result(
            Ok::<Response, E>(second),
        ),
        upload_result(Ok::<Response, E>(first)) == upload_result(Ok::<Response, E>(second)),
{
}

/// An upload succeeds on every answer, whatever its status and body.
pub proof fn lemma_upload_ignores_answer<E>(response: Response)
    ensures
        upload_result(Ok::<Response, E>(response)) == Ok::<(), Error<E>>(()),
{
}

/// Turns what the transport handed back into the subscriptions asked for.
pub fn read_subscriptions<E>(exchange: Result<Response, E>) -> (outcome: Result<
    Vec<Subscription>,
    Error<E>,
>)
    ensures
        outcome_view(outcome) == subscriptions_result(exchange),
{
    match exchange {
        Err(error) => Err(Error::Transport(error)),
        Ok(response) => match decode_subscriptions(response.body.as_slice()) {
            Ok(list) => Ok(list),
            Err(error) => Err(Error::Decode(error)),
        },
    }
}

/// Turns what the transport handed back into the device's list.
pub fn read_device_list<E>(exchange: Result<Response, E>) -> (outcome: Result<
    Vec<String>,
    Error<E>,
>)
    ensures
        outcome_view(outcome) == device_list_result(exchange),
{
    match exchange {
        Err(error) => Err(Error::Transport(error)),
        Ok(response) => match decode_device_list(response.body.as_slice()) {
            Ok(list) => Ok(list),
            Err(error) => Err(Error::Decode(error)),
        },
    }
}

/// Turns what the transport handed back into the outcome of an upload.
pub fn read_upload<E>(exchange: Result<Response, E>) -> (outcome: Result<(), Error<E>>)
    ensures
        outcome == upload_result(exchange),
{
    match exchange {
        Err(error) => Err(Error::Transport(error)),
        Ok(_) => Ok(()),
    }
}

impl Client {
    /// Builds a request with the headers that every request carries.
    fn request(
        &self,
        method: Method,
        url: String,
        body: Option<Vec<u8>>,
        wants_body: bool,
    ) -> (request: Request)
        ensures
            request@ == request_to(
                method,
                url@,
                self@,
                match body {
                    Some(bytes) => Some(bytes@),
                    None => None,
                },
                wants_body,
            ),
    {
        Request {
            method,
            url,
            authorization: authorization_header(self.username(), self.password()),
            user_agent: user_agent_header(),
            body,
            wants_body,
        }
    }

    /// The request that `get_all_subscriptions` sends.
    pub fn all_subscriptions_request(&self) -> (request: Request)
        ensures
            request@ == all_subscriptions_request(self@),
    {
        self.request(Method::Get, all_subscriptions_location(self.username()), None, true)
    }

    /// The request that `get_subscriptions` sends.
    pub fn device_list_request(&self, device_id: &str) -> (request: Request)
        ensures
            request@ == device_list_request(self@, device_id@),
    {
        self.request(Method::Get, device_location(self.username(), device_id), None, true)
    }

    /// The request that `put_subscriptions` sends. Its body, read as a response
    /// body, decodes to `subscriptions` again.
    pub fn upload_request(&self, subscriptions: &[String], device_id: &str) -> (request: Request)
        ensures
            request@ == upload_request(self@, subscriptions.deep_view(), device_id@),
            request.body matches Some(body) && device_list_of_body(body@) == Ok::<
                Seq<Seq<char>>,
                DecodeError,
            >(subscriptions.deep_view()),
    {
        let body = encode_list(subscriptions);
        proof {
            lemma_texts_of_list_value(subscriptions.deep_view());
        }
        self.request(Method::Put, device_location(self.username(), device_id), Some(body), false)
    }

    /// Fetches all subscriptions of the user. The transport is called once,
    /// with a GET for the user's subscriptions; the outcome is the transport's
    /// error, or else what the body of its answer decodes to.
    pub fn get_all_subscriptions<E, F: FnOnce(Request) -> Result<Response, E>>(
        &self,
        transport: F,
    ) -> (outcome: Result<Vec<Subscription>, Error<E>>)
        requires
            forall|request: Request|
                request@ == all_subscriptions_request(self@) ==> call_requires(
                    transport,
                    (request,),
                ),
        ensures
            exists|request: Request, exchange: Result<Response, E>|
                request@ == all_subscriptions_request(self@) && #[trigger] call_ensures(
                    transport,
                    (request,),
                    exchange,
                ) && outcome_view(outcome) == subscriptions_result(exchange),
    {
        let request = self.all_subscriptions_request();
        let exchange = transport(request);
        read_subscriptions(exchange)
    }

    /// Fetches the subscription list of a device. The transport is called
    /// once, with a GET for the device's list; the outcome is the transport's
    /// error, or else what the body of its answer decodes to.
    pub fn get_subscriptions<E, F: FnOnce(Request) -> Result<Response, E>>(
        &self,
        device_id: &str,
        transport: F,
    ) -> (outcome: Result<Vec<String>, Error<E>>)
        requires
            forall|request: Request|
                request@ == device_list_request(self@, device_id@) ==> call_requires(
                    transport,
                    (request,),
                ),
        ensures
            exists|request: Request, exchange: Result<Response, E>|
                request@ == device_list_request(self@, device_id@) && #[trigger] call_ensures(
                    transport,
                    (request,),
                    exchange,
                ) && outcome_view(outcome) == device_list_result(exchange),
    {
        let request = self.device_list_request(device_id);
        let exchange = transport(request);
        read_device_list(exchange)
    }

    /// Replaces the subscription list of a device. The transport is called
    /// once, with a PUT whose body is `subscriptions` as a JSON array: a text
    /// that, read as the body of an answer, gives `subscriptions` again. The
    /// outcome is the transport's error, or else success.
    pub fn put_subscriptions<E, F: FnOnce(Request) -> Result<Response, E>>(
        &self,
        subscriptions: &[String],
        device_id: &str,
        transport: F,
    ) -> (outcome: Result<(), Error<E>>)
        requires
            forall|request: Request|
                request@ == upload_request(self@, subscriptions.deep_view(), device_id@)
                    ==> call_requires(transport, (request,)),
        ensures
            exists|request: Request, exchange: Result<Response, E>|
                request@ == upload_request(self@, subscriptions.deep_view(), device_id@)
                    && #[trigger] call_ensures(transport, (request,), exchange) && outcome
                    == upload_result(exchange),
            device_list_of_body(list_text(subscriptions.deep_view())) == Ok::<
                Seq<Seq<char>>,
                DecodeError,
            >(subscriptions.deep_view()),
    {
        let request = self.upload_request(subscriptions, device_id);
        let exchange = transport(request);
        read_upload(exchange)
    }
}

} // verus!
