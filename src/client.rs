use vstd::prelude::*;

use crate::error::ApiError;
use crate::payload::ResourcePayload;
use crate::request::{collection_url, item_url, join_collection, join_item};

verus! {

#[verifier::external_type_specification]
#[verifier::external_body]
pub struct ExClient(reqwest::Client);

#[verifier::external_type_specification]
#[verifier::external_body]
pub struct ExClientBuilder(reqwest::ClientBuilder);

#[verifier::external_type_specification]
#[verifier::external_body]
pub struct ExReqwestError(reqwest::Error);

/// Relies on `reqwest::Client::builder`: a builder with default settings.
pub assume_specification[ reqwest::Client::builder ]() -> reqwest::ClientBuilder;

/// Relies on `reqwest::ClientBuilder::build`: reports a client that cannot be
/// set up (TLS backend, resolver) as an error instead of panicking.
pub assume_specification[ reqwest::ClientBuilder::build ](
    b: reqwest::ClientBuilder,
) -> Result<reqwest::Client, reqwest::Error>;

/// Relies on reqwest's `Display` for its error: the text of the failure.
#[verifier::external_body]
fn describe_error(e: &reqwest::Error) -> (r: String) {
    e.to_string()
}

/// The HTTP method of a planned request.
#[derive(Debug, Clone, Copy, PartialEq, Eq)]
pub enum Method {
    Get,
    Post,
    Put,
    Delete,
}

/// One HTTP request, ready to be sent: its method, its full URL and, for
/// create and replace, the payload to send as its JSON body.
#[derive(Debug)]
pub struct Request<'a> {
    pub method: Method,
    pub url: String,
    pub body: Option<&'a ResourcePayload>,
}

/// The transport handle: one reusable HTTP client and the base URL that every
/// request starts with. It does not change once built.
pub struct ApiClient {
    client: reqwest::Client,
    base_url: String,
}

impl ApiClient {
    pub closed spec fn spec_base_url(&self) -> Seq<char> {
        self.base_url@
    }

    /// Builds a handle with a fresh HTTP client. Nothing is sent; the only
    /// failure is a client that cannot be set up on this machine.
    pub fn new(base_url: &str) -> (r: Result<ApiClient, ApiError>)
        ensures
            r is Ok ==> r->Ok_0.spec_base_url() == base_url@,
            r is Err ==> r->Err_0 is Transport,
    {
        match reqwest::Client::builder().build() {
            Ok(client) => Ok(ApiClient { client, base_url: base_url.to_owned() }),
            Err(e) => Err(ApiError::Transport(describe_error(&e))),
        }
    }

    /// The HTTP client that carries out the planned requests.
    pub fn client(&self) -> &reqwest::Client {
        &self.client
    }

    /// The base URL that every request starts with.
    pub fn base_url(&self) -> (r: &str)
        ensures
            r@ == self.spec_base_url(),
    {
        self.base_url.as_str()
    }

    /// GET `{base}/{resource}/1`, with no body.
    pub fn read(&self, resource: &str) -> (r: Request<'static>)
        ensures
            r.method == Method::Get,
            r.url@ == item_url(self.spec_base_url(), resource@),
            r.body is None,
    {
        Request { method: Method::Get, url: join_item(self.base_url.as_str(), resource), body: None }
    }

    /// POST `{base}/{resource}`, whose body is `payload` itself.
    pub fn create<'a>(&self, resource: &str, payload: &'a ResourcePayload) -> (r: Request<'a>)
        ensures
            r.method == Method::Post,
            r.url@ == collection_url(self.spec_base_url(), resource@),
            r.body == Some(payload),
    {
        Request {
            method: Method::Post,
            url: join_collection(self.base_url.as_str(), resource),
            body: Some(payload),
        }
    }

    /// PUT `{base}/{resource}/1`, whose body is `payload` itself.
    pub fn replace<'a>(&self, resource: &str, payload: &'a ResourcePayload) -> (r: Request<'a>)
        ensures
            r.method == Method::Put,
            r.url@ == item_url(self.spec_base_url(), resource@),
            r.body == Some(payload),
    {
        Request {
            method: Method::Put,
            url: join_item(self.base_url.as_str(), resource),
            body: Some(payload),
        }
    }

    /// DELETE `{base}/{resource}/1`, with no body.
    pub fn remove(&self, resource: &str) -> (r: Request<'static>)
        ensures
            r.method == Method::Delete,
            r.url@ == item_url(self.spec_base_url(), resource@),
            r.body is None,
    {
        Request { method: Method::Delete, url: join_item(self.base_url.as_str(), resource), body: None }
    }
}

} // verus!
