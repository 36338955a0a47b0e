//! The client handle and its builder.

use core::time::Duration;

use vstd::prelude::*;

use crate::http::{default_http_client, HttpHandle};
use crate::text::{lemma_trim_end_char_shape, trim_end_char, trim_end_matches_char};
use crate::{DEFAULT_BASE_URL, VERSION};

verus! {

broadcast use vstd::string::group_string_axioms;

/// The value of `Duration::from_secs(secs)`.
pub uninterp spec fn duration_of_secs(secs: u64) -> Duration;

/// `Duration::from_secs`: the duration of `secs` whole seconds.
#[verifier::external_body]
fn duration_from_secs(secs: u64) -> (d: Duration)
    ensures
        d == duration_of_secs(secs),
{
    Duration::from_secs(secs)
}

/// Seconds of the default request timeout.
pub const DEFAULT_TIMEOUT_SECS: u64 = 30;

/// Default request timeout (30 seconds).
pub fn default_timeout() -> (d: Duration)
    ensures
        d == duration_of_secs(DEFAULT_TIMEOUT_SECS),
{
    duration_from_secs(DEFAULT_TIMEOUT_SECS)
}

/// Media type the client asks for in the `Accept` header.
pub const ACCEPT_JSON: &'static str = "application/json";

/// Prefix of the `User-Agent` header; the crate version follows it.
pub const USER_AGENT_PREFIX: &'static str = "unirate-rust/";

/// Whether `s` may stand as an HTTP header value: only tab and the
/// characters from space upwards, except DEL.
pub open spec fn is_header_value(s: Seq<char>) -> bool {
    forall|i: int| 0 <= i < s.len() ==> s[i] == '\t' || (s[i] as u32 >= 32 && s[i] as u32 != 127)
}

/// The `User-Agent` value of every request: `unirate-rust/<version>`.
pub open spec fn user_agent_spec() -> Seq<char> {
    USER_AGENT_PREFIX@ + VERSION@
}

/// Builds the `User-Agent` header value.
pub fn user_agent() -> (r: String)
    ensures
        r@ == user_agent_spec(),
        is_header_value(r@),
{
    let mut out = String::from_str(USER_AGENT_PREFIX);
    out.append(VERSION);
    proof {
        reveal_strlit("unirate-rust/");
        reveal_strlit("0.1.0");
    }
    out
}

/// How a client built here is configured: its total request timeout and
/// the values of its `Accept` and `User-Agent` default headers.
#[derive(Debug)]
pub struct HttpSettings {
    /// Total request timeout.
    pub timeout: Duration,
    /// Value of the `Accept` default header.
    pub accept: String,
    /// Value of the `User-Agent` default header.
    pub user_agent: String,
}

impl Clone for HttpSettings {
    /// The same timeout and header values.
    fn clone(&self) -> (r: Self)
        ensures
            r == *self,
    {
        HttpSettings {
            timeout: self.timeout,
            accept: self.accept.clone(),
            user_agent: self.user_agent.clone(),
        }
    }
}

/// `s` is the configuration that a client built with the request timeout
/// `timeout` gets: that timeout, `Accept: application/json` and
/// `User-Agent: unirate-rust/<version>`.
pub open spec fn is_built_settings(s: HttpSettings, timeout: Duration) -> bool {
    &&& s.timeout == timeout
    &&& s.accept@ == ACCEPT_JSON@
    &&& s.user_agent@ == user_agent_spec()
}

/// Async client for the UniRate API.
///
/// Construct it with [`UniRateClient::new`] for the common case, or with
/// [`UniRateClient::builder`] to customize the timeout, the base URL or the
/// underlying `reqwest::Client`.
#[derive(Debug)]
pub struct UniRateClient {
    pub(crate) api_key: String,
    pub(crate) base_url: String,
    pub(crate) http: HttpHandle,
    pub(crate) settings: Option<HttpSettings>,
}

impl UniRateClient {
    /// The base URL never ends with `/`, so that appending an endpoint path
    /// (which starts with `/`) gives a single slash between them.
    #[verifier::type_invariant]
    spec fn base_url_trimmed(&self) -> bool {
        self.base_url@.len() == 0 || self.base_url@.last() != '/'
    }

    /// The API key, as a sequence of characters.
    pub closed spec fn spec_api_key(&self) -> Seq<char> {
        self.api_key@
    }

    /// The base URL, as a sequence of characters.
    pub closed spec fn spec_base_url(&self) -> Seq<char> {
        self.base_url@
    }

    /// The HTTP client that requests go through.
    pub closed spec fn spec_http(&self) -> reqwest::Client {
        self.http.spec_client()
    }

    /// The configuration that the library built the HTTP client with, if it
    /// built it; `None` for a client supplied from outside. Only a client
    /// built by the library can carry one (see [`HttpHandle`]).
    pub closed spec fn spec_built_with(&self) -> Option<HttpSettings> {
        self.http.spec_built_with()
    }

    /// How the HTTP client was configured when the library built it; `None`
    /// for a client supplied with [`ClientBuilder::http_client`].
    pub closed spec fn spec_settings(&self) -> Option<HttpSettings> {
        self.settings
    }

    /// Creates a client with default settings: base URL
    /// `https://api.unirateapi.com`, 30-second timeout. Fails only where the
    /// HTTP client itself cannot be built on this machine.
    pub fn new(api_key: &str) -> (r: Result<UniRateClient, reqwest::Error>)
        ensures
            r matches Ok(c) ==> {
                &&& c.spec_api_key() == api_key@
                &&& c.spec_base_url() == trim_end_char(DEFAULT_BASE_URL@, '/')
                &&& c.spec_settings() matches Some(s)
                &&& is_built_settings(s, duration_of_secs(DEFAULT_TIMEOUT_SECS))
                &&& c.spec_built_with() == c.spec_settings()
            },
    {
        ClientBuilder::new(api_key).build()
    }

    /// Begins a [`ClientBuilder`].
    pub fn builder(api_key: &str) -> (r: ClientBuilder)
        ensures
            r.spec_api_key() == api_key@,
            r.spec_base_url() == DEFAULT_BASE_URL@,
            r.spec_timeout() == duration_of_secs(DEFAULT_TIMEOUT_SECS),
            r.spec_http() is None,
    {
        ClientBuilder::new(api_key)
    }

    /// The API key in use.
    pub fn api_key(&self) -> (r: &str)
        ensures
            r@ == self.spec_api_key(),
    {
        self.api_key.as_str()
    }

    /// The base URL in use (never ends with `/`).
    pub fn base_url(&self) -> (r: &str)
        ensures
            r@ == self.spec_base_url(),
            r@.len() == 0 || r@.last() != '/',
    {
        proof {
            use_type_invariant(self);
        }
        self.base_url.as_str()
    }

    /// The underlying HTTP client that requests are sent with.
    pub fn http(&self) -> (r: &reqwest::Client)
        ensures
            *r == self.spec_http(),
    {
        self.http.client()
    }

    /// How the HTTP client was configured when the library built it; `None`
    /// for a supplied client.
    pub fn http_settings(&self) -> (r: &Option<HttpSettings>)
        ensures
            *r == self.spec_settings(),
    {
        &self.settings
    }
}

impl Clone for UniRateClient {
    /// A client with the same key, base URL and HTTP client (a handle on the
    /// same connection pool).
    fn clone(&self) -> (r: Self)
        ensures
            r == *self,
    {
        proof {
            use_type_invariant(self);
        }
        UniRateClient {
            api_key: self.api_key.clone(),
            base_url: self.base_url.clone(),
            http: self.http.clone(),
            settings: match &self.settings {
                Some(st) => Some(st.clone()),
                None => None,
            },
        }
    }
}

/// Builder for [`UniRateClient`]: sets a custom timeout, base URL or HTTP client.
#[derive(Debug)]
pub struct ClientBuilder {
    pub(crate) api_key: String,
    pub(crate) base_url: String,
    pub(crate) timeout: Duration,
    pub(crate) http: Option<reqwest::Client>,
}

impl ClientBuilder {
    /// The API key, as a sequence of characters.
    pub closed spec fn spec_api_key(&self) -> Seq<char> {
        self.api_key@
    }

    /// The base URL as set, as a sequence of characters.
    pub closed spec fn spec_base_url(&self) -> Seq<char> {
        self.base_url@
    }

    /// The request timeout that a built-in HTTP client gets.
    pub closed spec fn spec_timeout(&self) -> Duration {
        self.timeout
    }

    /// The supplied HTTP client, if any.
    pub closed spec fn spec_http(&self) -> Option<reqwest::Client> {
        self.http
    }

    /// Starts a builder with the given API key, the default base URL and the
    /// default timeout.
    pub fn new(api_key: &str) -> (r: ClientBuilder)
        ensures
            r.spec_api_key() == api_key@,
            r.spec_base_url() == DEFAULT_BASE_URL@,
            r.spec_timeout() == duration_of_secs(DEFAULT_TIMEOUT_SECS),
            r.spec_http() is None,
    {
        ClientBuilder {
            api_key: String::from_str(api_key),
            base_url: String::from_str(DEFAULT_BASE_URL),
            timeout: default_timeout(),
            http: None,
        }
    }

    /// Overrides the base URL.
    pub fn base_url(self, url: &str) -> (r: ClientBuilder)
        ensures
            r.spec_base_url() == url@,
            r.spec_api_key() == self.spec_api_key(),
            r.spec_timeout() == self.spec_timeout(),
            r.spec_http() == self.spec_http(),
    {
        ClientBuilder { base_url: String::from_str(url), ..self }
    }

    /// Overrides the request timeout. Ignored when an HTTP client is supplied
    /// with [`ClientBuilder::http_client`].
    pub fn timeout(self, timeout: Duration) -> (r: ClientBuilder)
        ensures
            r.spec_timeout() == timeout,
            r.spec_api_key() == self.spec_api_key(),
            r.spec_base_url() == self.spec_base_url(),
            r.spec_http() == self.spec_http(),
    {
        ClientBuilder { timeout, ..self }
    }

    /// Supplies a pre-configured HTTP client. When set, the timeout is
    /// ignored: configure it on the supplied client instead.
    pub fn http_client(self, http: reqwest::Client) -> (r: ClientBuilder)
        ensures
            r.spec_http() == Some(http),
            r.spec_api_key() == self.spec_api_key(),
            r.spec_base_url() == self.spec_base_url(),
            r.spec_timeout() == self.spec_timeout(),
    {
        ClientBuilder { http: Some(http), ..self }
    }

    /// Produces the [`UniRateClient`]. The base URL loses its trailing slashes so
    /// that joining it with an endpoint path gives a single `/`. With a
    /// supplied HTTP client this always succeeds and uses that client as is;
    /// otherwise a client with the builder's timeout and the `Accept` and
    /// `User-Agent` default headers is built, which only the machine can make
    /// fail, and the client records that configuration.
    pub fn build(self) -> (r: Result<UniRateClient, reqwest::Error>)
        ensures
            r matches Ok(c) ==> {
                &&& c.spec_api_key() == self.spec_api_key()
                &&& c.spec_base_url() == trim_end_char(self.spec_base_url(), '/')
            },
            self.spec_http() matches Some(h) ==> r matches Ok(c) && c.spec_http() == h && c.spec_settings() is None
                && c.spec_built_with() is None,
            self.spec_http() is None ==> (r matches Ok(c) ==> c.spec_settings() matches Some(s) && is_built_settings(
                s,
                self.spec_timeout(),
            ) && c.spec_built_with() == c.spec_settings()),
    {
        let supplied = match &self.http {
            Some(h) => Some(h.clone()),
            None => None,
        };
        match supplied {
            Some(h) => self.finish(Ok(h), None),
            None => {
                let settings = HttpSettings {
                    timeout: self.timeout,
                    accept: String::from_str(ACCEPT_JSON),
                    user_agent: user_agent(),
                };
                proof {
                    reveal_strlit("application/json");
                }
                match default_http_client(settings) {
                    Ok(handle) => {
                        let recorded = match handle.built_with() {
                            Some(st) => Some(st.clone()),
                            None => None,
                        };
                        Ok(self.assemble(handle, recorded))
                    },
                    Err(e) => Err(e),
                }
            },
        }
    }

    /// The client with this builder's key, its base URL without trailing
    /// slashes, the HTTP handle `http` and the recorded configuration
    /// `settings`.
    fn assemble(self, http: HttpHandle, settings: Option<HttpSettings>) -> (c: UniRateClient)
        ensures
            c.spec_api_key() == self.spec_api_key(),
            c.spec_base_url() == trim_end_char(self.spec_base_url(), '/'),
            c.spec_http() == http.spec_client(),
            c.spec_built_with() == http.spec_built_with(),
            c.spec_settings() == settings,
    {
        let base_url = trim_end_matches_char(self.base_url.as_str(), '/');
        proof {
            lemma_trim_end_char_shape(self.base_url@, '/');
        }
        UniRateClient { api_key: self.api_key, base_url, http, settings }
    }

    /// Produces the [`UniRateClient`] from this builder's API key and base URL
    /// (trailing slashes removed), `http`, the outcome of obtaining the HTTP
    /// client, and `settings`, how that client was configured (`None` for a
    /// supplied one): a client gives a client that sends through it, an
    /// error is handed back as is.
    pub fn finish(
        self,
        http: Result<reqwest::Client, reqwest::Error>,
        settings: Option<HttpSettings>,
    ) -> (r: Result<UniRateClient, reqwest::Error>)
        ensures
            match http {
                Ok(h) => r matches Ok(c) && {
                    &&& c.spec_api_key() == self.spec_api_key()
                    &&& c.spec_base_url() == trim_end_char(self.spec_base_url(), '/')
                    &&& c.spec_http() == h
                    &&& c.spec_settings() == settings
                    &&& c.spec_built_with() is None
                },
                Err(e) => r == Err::<UniRateClient, reqwest::Error>(e),
            },
    {
        match http {
            Ok(h) => Ok(self.assemble(HttpHandle::supplied(h), settings)),
            Err(e) => Err(e),
        }
    }
}

} // verus!
