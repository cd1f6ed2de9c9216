//! The token cache of one region and the exchange that fills it.
//!
//! The manager never talks to the network. It says whether the cached token
//! may be used or which request has to be made, and it reads the reply to
//! that request once the host program has it.

use crate::clock::unix_seconds;
use crate::config::env::{missing_session_report, session_in, EnvManager};
use crate::config::jwt::{JwtInfo, TOKEN_SAFETY_MARGIN_SECS};
use crate::config::region::Region;
use crate::error::LogidError;
use crate::text::{decimal, join3, lowercase_of, write_decimal};
use vstd::prelude::*;
use vstd::string::StringExecFns;

verus! {

/// The lifetime that a fresh token is taken to have, in seconds. The token
/// endpoint does not say how long its tokens last.
pub const NOMINAL_TOKEN_LIFETIME_SECS: u64 = 3600;

/// The name of the cookie that carries the session credential.
pub const SESSION_COOKIE: &'static str = "CAS_SESSION";

/// The header of the reply in which the token endpoint sends the token.
pub const TOKEN_HEADER: &'static str = "x-jwt-token";

/// The variable that names the proxy for secure connections.
pub const SECURE_PROXY_VARIABLE: &'static str = "HTTPS_PROXY";

/// The variable that names the proxy for plain connections.
pub const PLAIN_PROXY_VARIABLE: &'static str = "HTTP_PROXY";

/// The request that exchanges a session credential for a token: a `GET`
/// without a body.
#[derive(Debug)]
pub struct AuthRequest {
    /// The token endpoint.
    pub url: String,
    /// The value of the `Cookie` header.
    pub cookie: String,
}

/// What came back from the token endpoint.
#[derive(Debug)]
pub struct AuthReply {
    /// The HTTP status.
    pub status: u16,
    /// The body, kept for diagnostics.
    pub body: String,
    /// The value of the token header, where the reply has one that is text.
    pub token: Option<String>,
}

/// What to do to get a token.
#[derive(Debug)]
pub enum TokenStep {
    /// Use this token, which is the cached one; no request is to be made.
    Reuse(String),
    /// Make this request, and hand the reply to the manager.
    Fetch(AuthRequest),
}

/// A proxy that the host program may route its requests through.
#[derive(Debug)]
pub struct ProxyCandidate {
    /// Whether the proxy is the one for secure connections.
    pub secure: bool,
    /// The address of the proxy.
    pub url: String,
}

/// Whether an HTTP status reports success.
pub open spec fn success(status: int) -> bool {
    200 <= status <= 299
}

/// Whether a call for a token is answered from the cache: only when no
/// refresh is forced and the cache holds a token that is still usable.
pub open spec fn reusable(cache: Option<JwtInfo>, force_refresh: bool, now: int) -> bool {
    !force_refresh && cache is Some && cache->0.usable_at(now)
}

/// How many requests a call for a token makes: one, unless it is answered
/// from the cache.
pub open spec fn fetches(cache: Option<JwtInfo>, force_refresh: bool, now: int) -> nat {
    if reusable(cache, force_refresh, now) {
        0
    } else {
        1
    }
}

/// The cache after a call for a token. A call that is answered from the
/// cache leaves it alone; a fetched token replaces what was cached, whole; a
/// failed fetch leaves the cache alone.
pub open spec fn cache_after(
    cache: Option<JwtInfo>,
    force_refresh: bool,
    now: int,
    fetched: Option<JwtInfo>,
) -> Option<JwtInfo> {
    if reusable(cache, force_refresh, now) {
        cache
    } else {
        match fetched {
            Some(info) => Some(info),
            None => cache,
        }
    }
}

/// The value of the `Cookie` header for a session credential.
pub open spec fn session_cookie(credential: Seq<char>) -> Seq<char> {
    SESSION_COOKIE@ + "="@ + credential
}

/// The report on a reply whose status is no success: the status, then the
/// body.
pub open spec fn refused_report(status: int, body: Seq<char>) -> Seq<char> {
    "HTTP "@ + decimal(status as nat) + ": "@ + body
}

/// The report on a reply that succeeded without a token.
pub open spec fn missing_token_report() -> Seq<char> {
    "响应头中没有 JWT 令牌"@
}

/// Whether an HTTP status reports success: every status from 200 to 299.
pub fn is_success(status: u16) -> (ok: bool)
    ensures
        ok == success(status as int),
{
    200 <= status && status <= 299
}

/// Writes the report on a reply whose status is no success.
pub fn write_refused_report(status: u16, body: &str) -> (report: String)
    ensures
        report@ == refused_report(status as int, body@),
{
    let code = write_decimal(status);
    join3("HTTP ", code.as_str(), ": ").concat(body)
}

/// Reads the reply of the token endpoint, taken at the second `now`. Success
/// takes a status from 200 to 299 and a token in the reply's header; the
/// token then gets the nominal lifetime, whatever the reply says.
pub fn read_auth_reply(reply: AuthReply, now: u64) -> (outcome: Result<JwtInfo, LogidError>)
    ensures
        if !success(reply.status as int) {
            outcome matches Err(LogidError::AuthenticationFailed(report)) && report@
                == refused_report(reply.status as int, reply.body@)
        } else if reply.token is None {
            outcome matches Err(LogidError::AuthenticationFailed(report)) && report@
                == missing_token_report()
        } else {
            outcome matches Ok(info) && info.token == reply.token->0 && info.expires_at
                == JwtInfo::expiry(now as int, NOMINAL_TOKEN_LIFETIME_SECS as int)
        },
{
    if !is_success(reply.status) {
        return Err(
            LogidError::AuthenticationFailed(write_refused_report(reply.status, reply.body.as_str())),
        );
    }
    match reply.token {
        Some(token) => Ok(JwtInfo::issued_at(token, now, NOMINAL_TOKEN_LIFETIME_SECS)),
        None => Err(LogidError::AuthenticationFailed(String::from_str("响应头中没有 JWT 令牌"))),
    }
}

/// Whether a manager and a result are what becomes of a manager that takes
/// the outcome of a request for a token at the second `now`. A reply with a
/// success status and a token fills the cache and hands the token out; every
/// other reply, and an error of the transport, leaves the cache as it was and
/// is an error.
pub open spec fn accepted(
    before: AuthManager,
    exchange: Result<AuthReply, LogidError>,
    now: int,
    after: AuthManager,
    token: Result<String, LogidError>,
) -> bool {
    &&& after.spec_region() == before.spec_region()
    &&& after.session() == before.session()
    &&& after.endpoint() == before.endpoint()
    &&& match exchange {
        Err(error) => after.cache() == before.cache() && token == Err::<String, LogidError>(error),
        Ok(reply) => if success(reply.status as int) && reply.token is Some {
            &&& token == Ok::<String, LogidError>(reply.token->0)
            &&& after.cache() matches Some(info)
            &&& info.token == reply.token->0
            &&& info.expires_at == JwtInfo::expiry(now, NOMINAL_TOKEN_LIFETIME_SECS as int)
        } else {
            &&& after.cache() == before.cache()
            &&& token matches Err(LogidError::AuthenticationFailed(report))
            &&& report@ == if success(reply.status as int) {
                missing_token_report()
            } else {
                refused_report(reply.status as int, reply.body@)
            }
        },
    }
}

/// The token cache of one region, with what it takes to fill it.
#[derive(Debug)]
pub struct AuthManager {
    region: Region,
    jwt_cache: Option<JwtInfo>,
    cas_session: String,
    auth_url: String,
}

impl AuthManager {
    /// The region whose tokens the manager holds.
    pub closed spec fn spec_region(&self) -> Region {
        self.region
    }

    /// The cached token, if there is one.
    pub closed spec fn cache(&self) -> Option<JwtInfo> {
        self.jwt_cache
    }

    /// The session credential.
    pub closed spec fn session(&self) -> Seq<char> {
        self.cas_session@
    }

    /// The token endpoint.
    pub closed spec fn endpoint(&self) -> Seq<char> {
        self.auth_url@
    }

    /// A manager for a region, with the credential that the environment
    /// holds for it and an empty cache. An unknown region and a missing
    /// credential are errors.
    pub fn new(region: &str, env: &EnvManager) -> (manager: Result<Self, LogidError>)
        ensures
            match Region::of_key(lowercase_of(region@)) {
                None => manager matches Err(LogidError::UnsupportedRegion(name)) && name@
                    == region@,
                Some(known) => match session_in(env@, known) {
                    None => manager matches Err(LogidError::MissingCredentials(report))
                        && report@ == missing_session_report(known),
                    Some(credential) => manager matches Ok(made) && made.spec_region() == known
                        && made.cache() is None && made.session() == credential
                        && made.endpoint() == known.auth_endpoint(),
                },
            },
    {
        let known = match Region::from_str(region) {
            Some(known) => known,
            None => {
                return Err(LogidError::UnsupportedRegion(String::from_str(region)));
            },
        };
        let cas_session = match env.get_cas_session(known) {
            Ok(credential) => credential,
            Err(error) => {
                return Err(error);
            },
        };
        Ok(
            AuthManager {
                region: known,
                jwt_cache: None,
                cas_session,
                auth_url: String::from_str(known.auth_url()),
            },
        )
    }

    /// The request that fetches a token for this region: the session
    /// credential travels as a cookie.
    pub fn auth_request(&self) -> (request: AuthRequest)
        ensures
            request.url@ == self.endpoint(),
            request.cookie@ == session_cookie(self.session()),
    {
        AuthRequest {
            url: self.auth_url.clone(),
            cookie: join3(SESSION_COOKIE, "=", self.cas_session.as_str()),
        }
    }

    /// Answers a call for a token at the second `now`. The cached token is
    /// handed out when no refresh is forced and the token is still usable;
    /// in every other case the token has to be fetched.
    pub fn get_jwt_token(&self, force_refresh: bool, now: u64) -> (step: TokenStep)
        ensures
            match step {
                TokenStep::Reuse(token) => reusable(self.cache(), force_refresh, now as int)
                    && token == self.cache()->0.token,
                TokenStep::Fetch(request) => !reusable(self.cache(), force_refresh, now as int)
                    && request.url@ == self.endpoint() && request.cookie@ == session_cookie(
                    self.session(),
                ),
            },
            force_refresh ==> step is Fetch,
            step is Fetch <==> fetches(self.cache(), force_refresh, now as int) == 1,
    {
        if !force_refresh {
            if let Some(info) = &self.jwt_cache {
                if info.is_valid_at(now) {
                    return TokenStep::Reuse(info.token.clone());
                }
            }
        }
        TokenStep::Fetch(self.auth_request())
    }

    /// Answers a call for a fresh token: the token is always fetched.
    pub fn refresh_token(&self, now: u64) -> (step: TokenStep)
        ensures
            step matches TokenStep::Fetch(request) && request.url@ == self.endpoint()
                && request.cookie@ == session_cookie(self.session()),
    {
        self.get_jwt_token(true, now)
    }

    /// Takes the outcome of a fetch. A token replaces what was cached and is
    /// handed out; an error leaves the cache as it was and is handed on
    /// unchanged.
    pub fn store_fetched(&mut self, fetched: Result<JwtInfo, LogidError>) -> (token: Result<
        String,
        LogidError,
    >)
        ensures
            final(self).spec_region() == old(self).spec_region(),
            final(self).session() == old(self).session(),
            final(self).endpoint() == old(self).endpoint(),
            match fetched {
                Ok(info) => final(self).cache() == Some(info) && token == Ok::<String, LogidError>(
                    info.token,
                ),
                Err(error) => final(self).cache() == old(self).cache() && token == Err::<
                    String,
                    LogidError,
                >(error),
            },
    {
        match fetched {
            Ok(info) => {
                let token = info.token.clone();
                self.jwt_cache = Some(info);
                Ok(token)
            },
            Err(error) => Err(error),
        }
    }

    /// Takes what the request for a token came to, at the second `now`: the
    /// reply of the token endpoint, or the error of the transport. See
    /// [`read_auth_reply`] for how a reply is read and
    /// [`AuthManager::store_fetched`] for what becomes of the cache.
    pub fn accept_auth_reply(&mut self, exchange: Result<AuthReply, LogidError>, now: u64) -> (token:
        Result<String, LogidError>)
        ensures
            accepted(*old(self), exchange, now as int, *final(self), token),
    {
        match exchange {
            Ok(reply) => {
                let fetched = read_auth_reply(reply, now);
                self.store_fetched(fetched)
            },
            Err(error) => Err(error),
        }
    }

    /// Whether the cache holds a token that may be handed out at the second
    /// `now`.
    pub fn is_token_valid_at(&self, now: u64) -> (valid: bool)
        ensures
            valid == reusable(self.cache(), false, now as int),
    {
        match &self.jwt_cache {
            Some(info) => info.is_valid_at(now),
            None => false,
        }
    }

    /// Whether the cache holds a token that may be handed out now.
    pub fn is_token_valid(&self) -> (valid: bool)
        ensures
            valid ==> self.cache() is Some,
            exists|now: u64| valid == reusable(self.cache(), false, now as int),
    {
        let now = unix_seconds();
        self.is_token_valid_at(now)
    }

    /// The region whose tokens the manager holds.
    pub fn region(&self) -> (region: Region)
        ensures
            region == self.spec_region(),
    {
        self.region
    }

    /// The key of the region whose tokens the manager holds.
    pub fn region_str(&self) -> (key: &'static str)
        ensures
            key@ == self.spec_region().key(),
    {
        self.region.as_str()
    }
}

/// The proxies that the environment names, in the order in which they are
/// to be tried: the one for secure connections before the plain one. A
/// variable that is not set, or set to the empty text, names none.
pub open spec fn proxies_in(env: Map<Seq<char>, Seq<char>>) -> Seq<(bool, Seq<char>)> {
    let secure = if env.contains_key(SECURE_PROXY_VARIABLE@) && env[SECURE_PROXY_VARIABLE@].len()
        > 0 {
        seq![(true, env[SECURE_PROXY_VARIABLE@])]
    } else {
        Seq::empty()
    };
    let plain = if env.contains_key(PLAIN_PROXY_VARIABLE@) && env[PLAIN_PROXY_VARIABLE@].len() > 0 {
        seq![(false, env[PLAIN_PROXY_VARIABLE@])]
    } else {
        Seq::empty()
    };
    secure + plain
}

/// The contents of a list of proxies, in order.
pub open spec fn proxy_views(list: Seq<ProxyCandidate>) -> Seq<(bool, Seq<char>)> {
    Seq::new(list.len(), |i: int| (list[i].secure, list[i].url@))
}

/// The proxies that the environment names, in the order in which the host
/// program is to try them; it uses the first that it can set up.
pub fn proxy_candidates(env: &EnvManager) -> (candidates: Vec<ProxyCandidate>)
    ensures
        proxy_views(candidates@) == proxies_in(env@),
{
    let mut candidates: Vec<ProxyCandidate> = Vec::new();
    if let Some(url) = env.get_env(SECURE_PROXY_VARIABLE) {
        if !url.as_str().is_empty() {
            candidates.push(ProxyCandidate { secure: true, url });
        }
    }
    if let Some(url) = env.get_env(PLAIN_PROXY_VARIABLE) {
        if !url.as_str().is_empty() {
            candidates.push(ProxyCandidate { secure: false, url });
        }
    }
    assert(proxy_views(candidates@) =~= proxies_in(env@));
    candidates
}

/// Two calls for a token, one after the other and neither forced, where the
/// first fetch, if there is one, brings a token that is still usable at the
/// second call: together they make one request at most. They make exactly
/// one where the cache holds no token that is usable at the first call, and
/// none where it holds a token that is usable at both.
pub proof fn lemma_token_reused(cache: Option<JwtInfo>, first: int, second: int, fetched: JwtInfo)
    requires
        first <= second,
        fetched.usable_at(second),
    ensures
        ({
            let between = cache_after(cache, false, first, Some(fetched));
            let total = fetches(cache, false, first) + fetches(between, false, second);
            &&& total <= 1
            &&& !reusable(cache, false, first) ==> total == 1 && between == Some(fetched)
            &&& reusable(cache, false, second) ==> total == 0 && between == cache
        }),
{
}

/// Two calls for a token, neither forced, the second less than the nominal
/// lifetime short of the safety margin after the first, on a cache that has
/// no token to hand out at the first: the first call makes a request, the
/// token of a reply that succeeds is cached and handed out, and the second
/// call hands the same token out without a request. One request in all.
/// The expiry of the token has to be a second that can be written down.
pub proof fn lemma_two_calls_one_request(
    before: AuthManager,
    reply: AuthReply,
    first: int,
    after: AuthManager,
    token: Result<String, LogidError>,
    second: int,
)
    requires
        !reusable(before.cache(), false, first),
        success(reply.status as int),
        reply.token is Some,
        accepted(before, Ok(reply), first, after, token),
        0 <= first <= second,
        second < first + NOMINAL_TOKEN_LIFETIME_SECS - TOKEN_SAFETY_MARGIN_SECS,
        first + NOMINAL_TOKEN_LIFETIME_SECS <= u64::MAX,
    ensures
        fetches(before.cache(), false, first) == 1,
        token == Ok::<String, LogidError>(reply.token->0),
        reusable(after.cache(), false, second),
        after.cache()->0.token == reply.token->0,
        fetches(after.cache(), false, second) == 0,
        fetches(before.cache(), false, first) + fetches(after.cache(), false, second) == 1,
{
}

/// A forced call for a token makes a request, whatever the cache holds, and
/// the token it fetches replaces what was cached.
pub proof fn lemma_forced_refresh_fetches(cache: Option<JwtInfo>, now: int, fetched: JwtInfo)
    ensures
        fetches(cache, true, now) == 1,
        cache_after(cache, true, now, Some(fetched)) == Some(fetched),
{
}

} // verus!
