//! Client configuration: defaults, validation of the base URL, and the
//! settings every call of a client shares.

use vstd::prelude::*;
use vstd::utf8::encode_utf8;
use crate::auth::{Auth, header_value_accepts, valid_header_text};
use crate::error::{Error, ErrorKind};
use crate::headers::{HeaderList, with_header};
use crate::retry::{Delay, RetryConfig};
use crate::text::{bytes_to_vec, natural_chars, natural_text, push_chars, same_text};
use crate::transport::{BodySnippetConfig, RequestContext, TransportConfig};
use crate::url::{BaseUrl, base_url_problem, endpoint, last_nonempty, push_segments, pop_if_empty, raw_segments};

verus! {

/// The settings of a client under construction.
pub struct ClientBuilder {
    pub base_url: BaseUrl,
    pub auth: Auth,
    pub default_headers: HeaderList,
    pub transport: TransportConfig,
    pub retry: RetryConfig,
    pub body_snippet: BodySnippetConfig,
}

/// The decimal text of an integer, with a `-` before a negative one.
pub open spec fn integer_text(n: int) -> Seq<char> {
    if n < 0 {
        seq!['-'] + natural_text((-n) as nat)
    } else {
        natural_text(n as nat)
    }
}

/// The decimal text of `n`.
pub fn integer_string(n: i64) -> (r: String)
    ensures
        r@ == integer_text(n as int),
{
    let mut s = String::new();
    if n < 0 {
        let magnitude: u64 = if n == i64::MIN {
            0x8000_0000_0000_0000u64
        } else {
            (-n) as u64
        };
        let digits = natural_chars(magnitude as u128);
        s.append("-");
        proof {
            reveal_strlit("-");
        }
        push_chars(&mut s, &digits);
        assert(s@ =~= seq!['-'] + natural_text((-n) as nat));
    } else {
        let digits = natural_chars(n as u128);
        push_chars(&mut s, &digits);
        assert(s@ =~= natural_text(n as nat));
    }
    s
}

impl ClientBuilder {
    /// A builder for a client of the service at `base_url`, with the default
    /// settings: no credentials, `accept: application/json`, a 30 s timeout
    /// and a 10 s connect timeout, three retries from 200 ms up to 2 s, and
    /// snippets of up to 4096 bytes.
    pub fn new(base_url: BaseUrl) -> (r: Result<ClientBuilder, Error>)
        ensures
            match base_url_problem(base_url) {
                Some(m) => r matches Err(Error::InvalidConfig { message }) && message@ == m,
                None => r matches Ok(b) && b.base_url == base_url && b.auth is Anonymous
                    && b.default_headers@ == with_header(
                    Seq::empty(),
                    "accept"@,
                    encode_utf8("application/json"@),
                ) && b.transport.timeout.total_nanos() == 30_000_000_000
                    && b.transport.connect_timeout.total_nanos() == 10_000_000_000
                    && b.retry.max_retries == 3 && b.retry.base_delay.total_nanos() == 200_000_000
                    && b.retry.max_delay.total_nanos() == 2_000_000_000 && b.body_snippet.enabled
                    && b.body_snippet.byte_limit == 4096 && b.retry.wf() && b.transport.timeout.wf()
                    && b.transport.connect_timeout.wf(),
            },
    {
        match base_url.check() {
            Ok(()) => {},
            Err(e) => return Err(e),
        }
        let mut default_headers = HeaderList::new();
        default_headers.insert(
            String::from_str("accept"),
            bytes_to_vec("application/json".as_bytes()),
        );
        Ok(
            ClientBuilder {
                base_url,
                auth: Auth::none(),
                default_headers,
                transport: TransportConfig {
                    timeout: Delay::from_secs(30),
                    connect_timeout: Delay::from_secs(10),
                },
                retry: RetryConfig {
                    max_retries: 3,
                    base_delay: Delay::from_millis(200),
                    max_delay: Delay::from_secs(2),
                },
                body_snippet: BodySnippetConfig { enabled: true, byte_limit: 4096 },
            },
        )
    }

    pub fn auth(self, auth: Auth) -> (r: ClientBuilder)
        ensures
            r == (ClientBuilder { auth, ..self }),
    {
        ClientBuilder { auth, ..self }
    }

    /// Sets a default header, replacing any earlier value of it.
    pub fn default_header(self, name: String, value: Vec<u8>) -> (r: ClientBuilder)
        ensures
            r.default_headers@ == with_header(self.default_headers@, name@, value@),
            r.base_url == self.base_url,
            r.auth == self.auth,
            r.transport == self.transport,
            r.retry == self.retry,
            r.body_snippet == self.body_snippet,
    {
        let mut headers = self.default_headers;
        headers.insert(name, value);
        ClientBuilder { default_headers: headers, ..self }
    }

    /// Replaces all default headers.
    pub fn default_headers(self, headers: HeaderList) -> (r: ClientBuilder)
        ensures
            r == (ClientBuilder { default_headers: headers, ..self }),
    {
        ClientBuilder { default_headers: headers, ..self }
    }

    /// Sets the `user-agent` default header; fails for a value that cannot
    /// stand in a header.
    pub fn user_agent(self, user_agent: &str) -> (r: Result<ClientBuilder, Error>)
        ensures
            valid_header_text(user_agent@) ==> (r matches Ok(b) && b.default_headers@
                == with_header(self.default_headers@, "user-agent"@, encode_utf8(user_agent@))
                && b.retry == self.retry && b.transport == self.transport && b.body_snippet
                == self.body_snippet && b.base_url == self.base_url),
            !valid_header_text(user_agent@) ==> (r matches Err(e) && e.kind_spec()
                == ErrorKind::InvalidConfig),
    {
        if !header_value_accepts(user_agent) {
            return Err(
                Error::invalid_config(String::from_str("invalid user agent: failed to parse header value")),
            );
        }
        Ok(self.default_header(String::from_str("user-agent"), bytes_to_vec(user_agent.as_bytes())))
    }

    /// Sets the `x-grafana-org-id` default header to the decimal text of
    /// `org_id`.
    pub fn org_id(self, org_id: i64) -> (r: Result<ClientBuilder, Error>)
        ensures
            valid_header_text(integer_text(org_id as int)) ==> (r matches Ok(b)
                && b.default_headers@ == with_header(
                self.default_headers@,
                "x-grafana-org-id"@,
                encode_utf8(integer_text(org_id as int)),
            ) && b.retry == self.retry && b.transport == self.transport && b.body_snippet
                == self.body_snippet && b.base_url == self.base_url),
            !valid_header_text(integer_text(org_id as int)) ==> (r matches Err(e)
                && e.kind_spec() == ErrorKind::InvalidConfig),
    {
        let text = integer_string(org_id);
        if !header_value_accepts(text.as_str()) {
            return Err(Error::invalid_config(String::from_str("invalid org id: failed to parse header value")));
        }
        Ok(self.default_header(String::from_str("x-grafana-org-id"), bytes_to_vec(text.as_str().as_bytes())))
    }

    pub fn timeout(self, timeout: Delay) -> (r: ClientBuilder)
        ensures
            r == (ClientBuilder { transport: TransportConfig { timeout, ..self.transport }, ..self }),
    {
        ClientBuilder { transport: TransportConfig { timeout, ..self.transport }, ..self }
    }

    pub fn connect_timeout(self, timeout: Delay) -> (r: ClientBuilder)
        ensures
            r == (ClientBuilder {
                transport: TransportConfig { connect_timeout: timeout, ..self.transport },
                ..self
            }),
    {
        ClientBuilder { transport: TransportConfig { connect_timeout: timeout, ..self.transport }, ..self }
    }

    pub fn max_retries(self, max_retries: usize) -> (r: ClientBuilder)
        ensures
            r == (ClientBuilder { retry: RetryConfig { max_retries, ..self.retry }, ..self }),
    {
        ClientBuilder { retry: RetryConfig { max_retries, ..self.retry }, ..self }
    }

    pub fn retry_base_delay(self, delay: Delay) -> (r: ClientBuilder)
        ensures
            r == (ClientBuilder { retry: RetryConfig { base_delay: delay, ..self.retry }, ..self }),
    {
        ClientBuilder { retry: RetryConfig { base_delay: delay, ..self.retry }, ..self }
    }

    pub fn retry_max_delay(self, delay: Delay) -> (r: ClientBuilder)
        ensures
            r == (ClientBuilder { retry: RetryConfig { max_delay: delay, ..self.retry }, ..self }),
    {
        ClientBuilder { retry: RetryConfig { max_delay: delay, ..self.retry }, ..self }
    }

    pub fn capture_body_snippet(self, enabled: bool) -> (r: ClientBuilder)
        ensures
            r == (ClientBuilder {
                body_snippet: BodySnippetConfig { enabled, ..self.body_snippet },
                ..self
            }),
    {
        ClientBuilder { body_snippet: BodySnippetConfig { enabled, ..self.body_snippet }, ..self }
    }

    pub fn body_snippet_limit(self, byte_limit: usize) -> (r: ClientBuilder)
        ensures
            r == (ClientBuilder {
                body_snippet: BodySnippetConfig { byte_limit, ..self.body_snippet },
                ..self
            }),
    {
        ClientBuilder { body_snippet: BodySnippetConfig { byte_limit, ..self.body_snippet }, ..self }
    }

    /// The URL the API lives under: the base URL itself when its last
    /// non-empty segment is `api`, else the base URL with `api` appended.
    /// Fails when the base URL is not usable as a base.
    pub fn api_base_url(&self) -> (r: Result<BaseUrl, Error>)
        ensures
            match base_url_problem(self.base_url) {
                Some(m) => r matches Err(Error::InvalidConfig { message }) && message@ == m,
                None => {
                    let p = self.base_url.path_model()->0;
                    if last_nonempty(p) == Some("api"@) {
                        r matches Ok(u) && u.path_model() == Some(p)
                    } else {
                        match push_segments(
                            self.base_url.origin@,
                            pop_if_empty(p),
                            raw_segments(seq!["api"]),
                        ) {
                            Some(q) => r matches Ok(u) && u.path_model() == Some(q),
                            None => r is Err,
                        }
                    }
                },
            },
    {
        match self.base_url.check() {
            Ok(()) => {},
            Err(e) => return Err(e),
        }
        let is_api = match &self.base_url.segments {
            Some(v) => last_nonempty_is_api(v),
            None => false,
        };
        if is_api {
            return Ok(self.base_url.copy());
        }
        let segs: [&str; 1] = ["api"];
        let slice = segs.as_slice();
        assert(slice@ =~= seq!["api"]);
        endpoint(&self.base_url, slice)
    }

    /// The shared settings of calls under `api_base`.
    pub fn context<'a>(&'a self, api_base: &'a BaseUrl) -> (r: RequestContext<'a>)
        ensures
            r.base_url == api_base,
            r.auth == &self.auth,
            r.default_headers == &self.default_headers,
            r.retry == &self.retry,
            r.body_snippet == &self.body_snippet,
    {
        RequestContext {
            base_url: api_base,
            auth: &self.auth,
            default_headers: &self.default_headers,
            retry: &self.retry,
            body_snippet: &self.body_snippet,
        }
    }
}

fn last_nonempty_is_api(v: &Vec<String>) -> (r: bool)
    ensures
        r == (last_nonempty(crate::url::string_views(v@)) == Some("api"@)),
{
    let ghost p = crate::url::string_views(v@);
    let mut i: usize = v.len();
    assert(p.take(i as int) =~= p);
    while i > 0
        invariant
            p == crate::url::string_views(v@),
            i <= v@.len(),
            last_nonempty(p) == last_nonempty(p.take(i as int)),
        decreases i,
    {
        assert(p.take(i as int).last() == v@[i - 1]@);
        assert(p.take(i as int).drop_last() =~= p.take(i - 1));
        if v[i - 1].as_str().unicode_len() > 0 {
            return same_text(v[i - 1].as_str(), "api");
        }
        i -= 1;
    }
    false
}

} // verus!
