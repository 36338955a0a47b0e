//! The HTTP client of `reqwest` that the library carries, and how the
//! library builds one.

use reqwest::header::{HeaderMap, HeaderValue, ACCEPT, USER_AGENT};
use vstd::prelude::*;

use crate::client::{is_header_value, HttpSettings};

verus! {

/// The asynchronous HTTP client of `reqwest`, carried as is.
#[verifier::external_type_specification]
#[verifier::external_body]
pub struct ExHttpClient(reqwest::Client);

/// `<reqwest::Client as Clone>::clone`. The client is a shared handle (an
/// `Arc`) on one connection pool; the clone is a handle on the same pool,
/// which is what the equality below states.
pub assume_specification[ <reqwest::Client as core::clone::Clone>::clone ](c: &reqwest::Client) -> (r: reqwest::Client)
    ensures
        r == *c,
;

/// An HTTP client together with the configuration that the library built it
/// with, if the library built it. The fields are private to this module: a
/// handle with a configuration comes only from [`default_http_client`],
/// which builds the client from exactly that configuration, and a handle on
/// a client supplied from outside ([`HttpHandle::supplied`]) has none.
#[derive(Debug)]
pub struct HttpHandle {
    client: reqwest::Client,
    built_with: Option<HttpSettings>,
}

impl HttpHandle {
    /// The client.
    pub closed spec fn spec_client(&self) -> reqwest::Client {
        self.client
    }

    /// The configuration the library built the client with; `None` for a
    /// supplied client.
    pub closed spec fn spec_built_with(&self) -> Option<HttpSettings> {
        self.built_with
    }

    /// A handle on a client supplied from outside.
    pub fn supplied(client: reqwest::Client) -> (r: HttpHandle)
        ensures
            r.spec_client() == client,
            r.spec_built_with() is None,
    {
        HttpHandle { client, built_with: None }
    }

    /// The client.
    pub fn client(&self) -> (r: &reqwest::Client)
        ensures
            *r == self.spec_client(),
    {
        &self.client
    }

    /// The configuration the library built the client with, if it did.
    pub fn built_with(&self) -> (r: &Option<HttpSettings>)
        ensures
            *r == self.spec_built_with(),
    {
        &self.built_with
    }
}

impl Clone for HttpHandle {
    /// A handle on the same client with the same configuration.
    fn clone(&self) -> (r: Self)
        ensures
            r == *self,
    {
        HttpHandle {
            client: self.client.clone(),
            built_with: match &self.built_with {
                Some(st) => Some(st.clone()),
                None => None,
            },
        }
    }
}

/// Builds a `reqwest::Client` with `settings.timeout` as its total request
/// timeout and with `settings.accept` and `settings.user_agent` as the values
/// of its `Accept` and `User-Agent` default headers (`HeaderMap::new`,
/// `HeaderValue::from_str`, `HeaderMap::insert`, `Client::builder`,
/// `ClientBuilder::timeout`, `ClientBuilder::default_headers`,
/// `ClientBuilder::build`), and returns it in a handle that records those
/// settings. Whether the build succeeds depends on the machine (TLS
/// backend, resolver configuration), so that is left open.
/// `HeaderValue::from_str` accepts exactly the header values that the
/// `requires` admits, so its `unwrap` does not fire.
#[verifier::external_body]
pub(crate) fn default_http_client(settings: HttpSettings) -> (r: Result<HttpHandle, reqwest::Error>)
    requires
        is_header_value(settings.accept@),
        is_header_value(settings.user_agent@),
    ensures
        r matches Ok(h) ==> h.spec_built_with() == Some(settings),
{
    let mut headers = HeaderMap::new();
    headers.insert(ACCEPT, HeaderValue::from_str(&settings.accept).unwrap());
    headers.insert(USER_AGENT, HeaderValue::from_str(&settings.user_agent).unwrap());
    match reqwest::Client::builder().timeout(settings.timeout).default_headers(headers).build() {
        Ok(c) => Ok(HttpHandle { client: c, built_with: Some(settings) }),
        Err(e) => Err(e),
    }
}

} // verus!
