//! The embedding provider's settings.
use vstd::prelude::*;

verus! {

/// The request timeout of the provider's client, in seconds.
pub const REQUEST_TIMEOUT_SECS: u64 = 30;

/// The HTTP client of the provider, with its request timeout.
#[derive(Debug)]
pub struct Client {
    pub timeout_secs: u64,
}

impl Client {
    pub fn new() -> (r: Self)
        ensures
            r.timeout_secs == REQUEST_TIMEOUT_SECS,
    {
        Client { timeout_secs: REQUEST_TIMEOUT_SECS }
    }

    pub fn builder() -> (r: ClientBuilder)
        ensures
            r.timeout_secs == REQUEST_TIMEOUT_SECS,
    {
        ClientBuilder { timeout_secs: REQUEST_TIMEOUT_SECS }
    }
}

/// Builds a `Client`.
#[derive(Debug)]
pub struct ClientBuilder {
    pub timeout_secs: u64,
}

impl ClientBuilder {
    pub fn timeout(self, secs: u64) -> (r: Self)
        ensures
            r.timeout_secs == secs,
    {
        ClientBuilder { timeout_secs: secs }
    }

    pub fn build(self) -> (r: Client)
        ensures
            r.timeout_secs == self.timeout_secs,
    {
        Client { timeout_secs: self.timeout_secs }
    }
}

/// Settings of the text-embedding provider: model name, client, and
/// optional API key.
#[derive(Debug)]
pub struct GoogleEmbeddingDriver {
    model: String,
    client: Client,
    api_key: Option<String>,
}

impl GoogleEmbeddingDriver {
    pub closed spec fn model_view(&self) -> Seq<char> {
        self.model@
    }

    pub closed spec fn api_key_view(&self) -> Option<Seq<char>> {
        match self.api_key {
            Some(k) => Some(k@),
            None => None,
        }
    }

    pub closed spec fn timeout_view(&self) -> u64 {
        self.client.timeout_secs
    }

    /// A driver of `model`, its client timing out after 30 seconds.
    pub fn new(model: &str, api_key: Option<&str>) -> (r: Self)
        ensures
            r.model_view() == model@,
            r.api_key_view() == crate::search::opt_str_view(api_key),
            r.timeout_view() == REQUEST_TIMEOUT_SECS,
    {
        let client = Client::builder().timeout(REQUEST_TIMEOUT_SECS).build();
        let key = match api_key {
            Some(k) => Some(String::from_str(k)),
            None => None,
        };
        GoogleEmbeddingDriver { model: String::from_str(model), client, api_key: key }
    }

    /// The model name.
    pub fn model(&self) -> (r: &str)
        ensures
            r@ == self.model_view(),
    {
        self.model.as_str()
    }

    /// The API key, if one is set.
    pub fn api_key(&self) -> (r: Option<&str>)
        ensures
            crate::search::opt_str_view(r) == self.api_key_view(),
    {
        match &self.api_key {
            Some(k) => Some(k.as_str()),
            None => None,
        }
    }
}

/// A driver of `model` with the given API key.
pub fn get_embedding_driver(model: &str, api_key: Option<&str>) -> (r: GoogleEmbeddingDriver)
    ensures
        r.model_view() == model@,
        r.api_key_view() == crate::search::opt_str_view(api_key),
        r.timeout_view() == REQUEST_TIMEOUT_SECS,
{
    GoogleEmbeddingDriver::new(model, api_key)
}

} // verus!
