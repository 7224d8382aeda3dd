use vstd::prelude::*;
use reqwest::header::HeaderValue;
use crate::cache::{DEFAULT_LIFETIME_SECS, KeyView, ResponseCache, lookup_spec};
use crate::header::{header_value, is_header_text};
use crate::limiter::RateLimiter;
use crate::region::{Region, region_code};
use crate::registry::{
    GLOBAL_SCOPE,
    RateLimiterRegistry,
    acquire_spec,
    configure_spec,
    header_view,
};
use crate::request::RequestKey;
use crate::status::{ConfigurationError, ProtocolError, is_success, is_success_status};

verus! {

/// Name of the request header that carries the API key.
pub const TOKEN_HEADER: &'static str = "X-Riot-Token";

/// Response header with the quota of the whole application.
pub const APP_RATE_LIMIT_HEADER: &'static str = "X-App-Rate-Limit";

/// Response header with the quota of the method that was called.
pub const METHOD_RATE_LIMIT_HEADER: &'static str = "X-Method-Rate-Limit";

/// The absolute URL of `endpoint` on the host of a region.
pub open spec fn url_of(r: Region, short: bool, endpoint: Seq<char>) -> Seq<char> {
    "https://"@ + region_code(r, short) + ".api.riotgames.com"@ + endpoint
}

/// The abstract cache of a client: its lifetime in seconds and its entries.
pub type CacheView = Option<(u64, Map<KeyView, (Seq<u8>, u64)>)>;

/// What a lookup in an optional cache returns.
pub open spec fn cached_body(c: CacheView, k: KeyView, now: u64) -> Option<Seq<u8>> {
    match c {
        None => None,
        Some((lifetime, m)) => lookup_spec(m, lifetime, k, now),
    }
}

/// An optional cache after `body` was stored under `k` at `now`.
pub open spec fn cache_stored(c: CacheView, k: KeyView, body: Seq<u8>, now: u64) -> CacheView {
    match c {
        None => None,
        Some((lifetime, m)) => Some((lifetime, m.insert(k, (body, now)))),
    }
}

/// The rate-limit scope that a request still has to clear.
#[derive(Clone, Copy, Debug, PartialEq, Eq, Structural)]
pub enum Stage {
    Global,
    Endpoint,
}

/// What the caller does next with a request on its way out.
#[derive(Debug, PartialEq, Eq)]
pub enum Step {
    /// Wait this many milliseconds, then ask again at the stage given.
    Wait(Stage, u64),
    /// Use this fresh body from the cache; nothing is sent.
    Cached(Vec<u8>),
    /// Send the request.
    Send,
}

/// How a response that fits the protocol turned out.
#[derive(Debug, PartialEq, Eq)]
pub enum Outcome {
    /// A success: the body to decode into the requested value.
    Success(Vec<u8>),
    /// A failure: the body to decode as the provider's error report.
    Failure(Vec<u8>),
}

/// The state a client keeps for the lifetime of the process: its region,
/// the API key as a header value, the limiters learned per scope and an
/// optional cache of successful bodies.
pub struct Client {
    region: Region,
    token: HeaderValue,
    limits: RateLimiterRegistry,
    cache: Option<ResponseCache>,
}

impl Client {
    pub closed spec fn wf(&self) -> bool {
        &&& self.limits.wf()
        &&& match self.cache {
            Some(c) => c.wf(),
            None => true,
        }
    }

    pub closed spec fn spec_region(&self) -> Region {
        self.region
    }

    /// The limiters per configured scope.
    pub closed spec fn limits_view(&self) -> Map<Seq<char>, Seq<RateLimiter>> {
        self.limits@
    }

    pub closed spec fn cache_view(&self) -> CacheView {
        match self.cache {
            Some(c) => Some((c.spec_lifetime_secs(), c@)),
            None => None,
        }
    }

    fn build(api_key: String, region: Region, cache: Option<ResponseCache>) -> (r: Result<
        Client,
        ConfigurationError,
    >)
        requires
            match cache {
                Some(c) => c.wf(),
                None => true,
            },
        ensures
            r is Ok <==> is_header_text(api_key@),
            r is Err ==> r == Err::<Client, ConfigurationError>(ConfigurationError::InvalidApiKey),
            r is Ok ==> {
                let c = r->Ok_0;
                &&& c.wf()
                &&& c.spec_region() == region
                &&& c.limits_view() == Map::<Seq<char>, Seq<RateLimiter>>::empty()
                &&& c.cache == cache
            },
    {
        match header_value(api_key.as_str()) {
            Ok(token) => Ok(Client { region, token, limits: RateLimiterRegistry::new(), cache }),
            Err(_) => Err(ConfigurationError::InvalidApiKey),
        }
    }

    /// A client without a cache. The key must be usable as a header value.
    pub fn new(api_key: String, region: Region) -> (r: Result<Client, ConfigurationError>)
        ensures
            r is Ok <==> is_header_text(api_key@),
            r is Err ==> r == Err::<Client, ConfigurationError>(ConfigurationError::InvalidApiKey),
            r is Ok ==> {
                let c = r->Ok_0;
                &&& c.wf()
                &&& c.spec_region() == region
                &&& c.limits_view() == Map::<Seq<char>, Seq<RateLimiter>>::empty()
                &&& c.cache_view() is None
            },
    {
        Client::build(api_key, region, None)
    }

    /// A client that caches successful bodies for `lifetime_secs` seconds,
    /// or for the default lifetime when none is given.
    pub fn with_cache(api_key: String, region: Region, lifetime_secs: Option<u64>) -> (r: Result<
        Client,
        ConfigurationError,
    >)
        ensures
            r is Ok <==> is_header_text(api_key@),
            r is Err ==> r == Err::<Client, ConfigurationError>(ConfigurationError::InvalidApiKey),
            r is Ok ==> {
                let c = r->Ok_0;
                &&& c.wf()
                &&& c.spec_region() == region
                &&& c.limits_view() == Map::<Seq<char>, Seq<RateLimiter>>::empty()
                &&& c.cache_view() == Some(
                    (
                        match lifetime_secs {
                            Some(l) => l,
                            None => DEFAULT_LIFETIME_SECS,
                        },
                        Map::<KeyView, (Seq<u8>, u64)>::empty(),
                    ),
                )
            },
    {
        let lifetime = match lifetime_secs {
            Some(l) => l,
            None => DEFAULT_LIFETIME_SECS,
        };
        Client::build(api_key, region, Some(ResponseCache::new(lifetime)))
    }

    pub fn region(&self) -> (r: Region)
        ensures
            r == self.spec_region(),
    {
        self.region
    }

    /// The API key, as the value of the token header of every request.
    pub fn api_token(&self) -> &HeaderValue {
        &self.token
    }

    /// The absolute URL of `endpoint`, on the host named by the short or
    /// the long code of the client's region.
    pub fn url(&self, endpoint: &str, short_region: bool) -> (r: String)
        ensures
            r@ == url_of(self.spec_region(), short_region, endpoint@),
    {
        let mut s = String::from_str("https://");
        s.append(self.region.code(short_region));
        s.append(".api.riotgames.com");
        s.append(endpoint);
        s
    }

    /// Moves a request through its checks before it is sent: the global
    /// scope first (from `Stage::Global`), then the endpoint's own scope,
    /// then the cache. A scope that does not clear yields how long to wait
    /// and the stage to resume at, having taken nothing from that scope; a
    /// scope already cleared is not consulted again. Once both clear, a
    /// fresh cached body is returned in place of sending.
    pub fn next_step(&mut self, stage: Stage, scope: &str, key: &RequestKey, now: u64) -> (r: Step)
        requires
            old(self).wf(),
        ensures
            final(self).wf(),
            final(self).spec_region() == old(self).spec_region(),
            final(self).cache_view() == old(self).cache_view(),
            ({
                let (m1, w1) = if stage == Stage::Global {
                    acquire_spec(old(self).limits_view(), GLOBAL_SCOPE@, now)
                } else {
                    (old(self).limits_view(), 0nat)
                };
                let (m2, w2) = acquire_spec(m1, scope@, now);
                if w1 > 0 {
                    final(self).limits_view() == m1 && r == Step::Wait(Stage::Global, w1 as u64)
                } else if w2 > 0 {
                    final(self).limits_view() == m2 && r == Step::Wait(Stage::Endpoint, w2 as u64)
                } else {
                    &&& final(self).limits_view() == m2
                    &&& match cached_body(old(self).cache_view(), key@, now) {
                        Some(b) => r is Cached && r->Cached_0@ == b,
                        None => r == Step::Send,
                    }
                }
            }),
    {
        if stage == Stage::Global {
            let w = self.limits.acquire(GLOBAL_SCOPE, now);
            if w > 0 {
                return Step::Wait(Stage::Global, w);
            }
        }
        let w = self.limits.acquire(scope, now);
        if w > 0 {
            return Step::Wait(Stage::Endpoint, w);
        }
        match &self.cache {
            None => Step::Send,
            Some(c) => match c.lookup(key, now) {
                Some(b) => Step::Cached(b),
                None => Step::Send,
            },
        }
    }

    /// Takes in the response to a sent request: offers the app-wide quota
    /// header to the global scope and the method quota header to the
    /// endpoint's scope, then classifies the status. A success body is
    /// stored in the cache under the request's key and handed back for
    /// decoding; any other body is handed back as a failure to report. A
    /// quota header that does not parse ends the request with a protocol
    /// error; a missing one is no error.
    pub fn handle_response(
        &mut self,
        key: RequestKey,
        scope: &str,
        status: u16,
        app_limit: &Option<Vec<u8>>,
        method_limit: &Option<Vec<u8>>,
        body: Vec<u8>,
        now: u64,
    ) -> (r: Result<Outcome, ProtocolError>)
        requires
            old(self).wf(),
        ensures
            final(self).wf(),
            final(self).spec_region() == old(self).spec_region(),
            ({
                let (m1, r1) = configure_spec(
                    old(self).limits_view(),
                    GLOBAL_SCOPE@,
                    header_view(*app_limit),
                    now,
                );
                let (m2, r2) = configure_spec(m1, scope@, header_view(*method_limit), now);
                if r1 is Err {
                    &&& final(self).limits_view() == m1
                    &&& final(self).cache_view() == old(self).cache_view()
                    &&& r == Err::<Outcome, ProtocolError>(ProtocolError::MalformedQuota)
                } else if r2 is Err {
                    &&& final(self).limits_view() == m2
                    &&& final(self).cache_view() == old(self).cache_view()
                    &&& r == Err::<Outcome, ProtocolError>(ProtocolError::MalformedQuota)
                } else if is_success_status(status) {
                    &&& final(self).limits_view() == m2
                    &&& final(self).cache_view() == cache_stored(
                        old(self).cache_view(),
                        key@,
                        body@,
                        now,
                    )
                    &&& r is Ok && r->Ok_0 is Success && r->Ok_0->Success_0@ == body@
                } else {
                    &&& final(self).limits_view() == m2
                    &&& final(self).cache_view() == old(self).cache_view()
                    &&& r is Ok && r->Ok_0 is Failure && r->Ok_0->Failure_0@ == body@
                }
            }),
    {
        if self.limits.configure(GLOBAL_SCOPE, app_limit, now).is_err() {
            return Err(ProtocolError::MalformedQuota);
        }
        if self.limits.configure(scope, method_limit, now).is_err() {
            return Err(ProtocolError::MalformedQuota);
        }
        if is_success(status) {
            match self.cache.take() {
                None => Ok(Outcome::Success(body)),
                Some(mut c) => {
                    let stored = c.store(key, body, now);
                    self.cache = Some(c);
                    Ok(Outcome::Success(stored))
                },
            }
        } else {
            Ok(Outcome::Failure(body))
        }
    }
}

} // verus!
