//! The client of one region's log service.
//!
//! A query runs in steps. The client says which request is due: none for a
//! region without a log endpoint, the request for a token where the cache
//! has none to hand out, else the query itself. The host program makes the
//! request and hands the reply back.

use crate::auth::manager::{
    accepted, reusable, session_cookie, AuthManager, AuthReply, AuthRequest, TokenStep,
};
use crate::clock::utc_timestamp;
use crate::config::filter::{all_compile, chosen_patterns, create_message_filters, refuses};
use crate::config::region::{RegionConfig, RegionConfigView};
use crate::error::LogidError;
use crate::json::{json_error_text, json_fields, json_parsed, parse_json};
use crate::log_query::extract::{extract_messages, messages_of};
use crate::log_query::response::{
    meta_in, response_meta, response_tag_infos, tag_infos_in,
};
use crate::log_query::types::{
    message_views, DetailedLogResult, ExtractedLogMessage, LogData, LogItem, LogMeta,
    LogQueryRequest, LogQueryRequestView, LogQueryResponse, TimeRange,
};
use crate::redaction::{patterns_of, redact, redacted};
use crate::text::{clone_string_slice, clone_strings, texts};
use vstd::prelude::*;
use vstd::string::StringExecFns;

verus! {

/// How many minutes the log service is asked to scan.
pub const SCAN_SPAN_MINUTES: i32 = 10;

/// The header of a query that carries the token.
pub const QUERY_TOKEN_HEADER: &'static str = "X-Jwt-Token";

/// A query, ready to be sent: a `POST` of the body as JSON, the token in
/// the header [`QUERY_TOKEN_HEADER`].
#[derive(Debug)]
pub struct QueryCall {
    /// The log endpoint.
    pub url: String,
    /// The bearer token.
    pub token: String,
    /// The body.
    pub body: LogQueryRequest,
}

/// What came back from the log endpoint.
#[derive(Debug)]
pub struct HttpReply {
    /// The HTTP status.
    pub status: u16,
    /// The body.
    pub body: String,
}

/// The request that is due for a query.
#[derive(Debug)]
pub enum QueryStep {
    /// None: the query cannot be made.
    Refused(LogidError),
    /// The request for a token; the query follows once the token is there.
    Authenticate(AuthRequest),
    /// The query itself.
    Send(QueryCall),
}

/// The body of a query for a log id in a region.
pub open spec fn query_body(logid: Seq<char>, psm_list: Seq<Seq<char>>, config: RegionConfigView) -> LogQueryRequestView {
    LogQueryRequestView {
        logid,
        psm_list,
        scan_span_in_min: SCAN_SPAN_MINUTES as int,
        vregion: config.vregion,
    }
}

/// The report on an answer without a payload.
pub open spec fn no_data_report() -> Seq<char> {
    "响应中没有数据内容"@
}

/// A payload without items.
pub fn empty_payload() -> (data: LogData)
    ensures
        data.items@ == Seq::<LogItem>::empty(),
        data.meta is None,
        data.tag_infos is None,
{
    LogData { items: Vec::new(), meta: None, tag_infos: None }
}

/// The client of one region's log service.
#[derive(Debug)]
pub struct LogQueryClient {
    auth_manager: AuthManager,
    region_config: RegionConfig,
    message_filters: Vec<regex::Regex>,
}

impl LogQueryClient {
    /// The token cache of the client.
    pub closed spec fn auth(&self) -> AuthManager {
        self.auth_manager
    }

    /// What is wired for the client's region.
    pub closed spec fn config(&self) -> RegionConfigView {
        self.region_config@
    }

    /// The compiled redaction patterns of the client, in the order in which
    /// they are applied.
    pub closed spec fn filters(&self) -> Seq<regex::Regex> {
        self.message_filters@
    }

    /// The redaction patterns of the client, in the order in which they are
    /// applied.
    pub open spec fn patterns(&self) -> Seq<Seq<char>> {
        patterns_of(self.filters())
    }

    /// The key of the client's region.
    pub open spec fn region_key(&self) -> Seq<char> {
        self.auth().spec_region().key()
    }

    /// A client for a region, given the text of the redaction configuration
    /// if there is one. The patterns are compiled here, once; a malformed
    /// configuration is an error, and so is a pattern that cannot be
    /// compiled: the error then reports the first such pattern.
    pub fn new(auth_manager: AuthManager, region_config: RegionConfig, filter_config: Option<&str>) -> (client:
        Result<Self, LogidError>)
        ensures
            match chosen_patterns(
                match filter_config {
                    Some(text) => Some(text@),
                    None => None,
                },
            ) {
                None => client matches Err(LogidError::JsonParseError(_)),
                Some(patterns) => {
                    &&& client is Ok <==> all_compile(patterns)
                    &&& client matches Ok(made) ==> made.auth() == auth_manager && made.config()
                        == region_config@ && made.patterns() == patterns
                    &&& client matches Err(error) ==> refuses(patterns, error)
                },
            },
    {
        match create_message_filters(filter_config) {
            Ok(message_filters) => Ok(LogQueryClient { auth_manager, region_config, message_filters }),
            Err(error) => Err(error),
        }
    }

    /// The query for a log id with a token.
    pub fn query_call(&self, logid: &str, psm_list: &[String], token: String) -> (call: QueryCall)
        ensures
            call.url@ == self.config().log_service_url,
            call.token == token,
            call.body@ == query_body(logid@, texts(psm_list@), self.config()),
    {
        QueryCall {
            url: self.region_config.log_service_url.clone(),
            token,
            body: LogQueryRequest::new(
                logid.to_owned(),
                clone_string_slice(psm_list),
                SCAN_SPAN_MINUTES,
                self.region_config.vregion.clone(),
            ),
        }
    }

    /// Begins a query at the second `now`. A region without a log endpoint
    /// is refused before any request is made. Else the query is sent with
    /// the cached token where that may be handed out, and the token is
    /// fetched first where it may not.
    pub fn query_logs(&self, logid: &str, psm_list: &[String], now: u64) -> (step: QueryStep)
        ensures
            begins(*self, logid@, texts(psm_list@), now as int, step),
            !self.config().configured ==> step is Refused,
    {
        if !self.region_config.is_configured() {
            return QueryStep::Refused(
                LogidError::RegionNotConfigured(String::from_str(self.auth_manager.region_str())),
            );
        }
        match self.auth_manager.get_jwt_token(false, now) {
            TokenStep::Reuse(token) => QueryStep::Send(self.query_call(logid, psm_list, token)),
            TokenStep::Fetch(request) => QueryStep::Authenticate(request),
        }
    }

    /// Takes what the request for a token came to, at the second `now`, and
    /// gives the query that follows. The cache takes the token as
    /// [`AuthManager::accept_auth_reply`] says; where no token was had, the
    /// error of the fetch is handed on as it is and no query follows.
    pub fn accept_auth_reply(
        &mut self,
        exchange: Result<AuthReply, LogidError>,
        logid: &str,
        psm_list: &[String],
        now: u64,
    ) -> (call: Result<QueryCall, LogidError>)
        ensures
            resumes(*old(self), exchange, logid@, texts(psm_list@), now as int, *final(self), call),
    {
        let token = self.auth_manager.accept_auth_reply(exchange, now);
        let ghost outcome = token;
        let call = match token {
            Ok(fresh) => Ok(self.query_call(logid, psm_list, fresh)),
            Err(cause) => Err(cause),
        };
        assert(accepted(old(self).auth(), exchange, now as int, self.auth(), outcome));
        call
    }

    /// Reads the status of the log endpoint's reply: every status outside
    /// 200 to 299 fails the query, with the region, the status and the body.
    pub fn check_reply(&self, reply: &HttpReply) -> (checked: Result<(), LogidError>)
        ensures
            if crate::auth::manager::success(reply.status as int) {
                checked is Ok
            } else {
                checked matches Err(LogidError::QueryFailed(region, detail)) && region@
                    == self.region_key() && detail@ == crate::auth::manager::refused_report(
                    reply.status as int,
                    reply.body@,
                )
            },
    {
        if crate::auth::manager::is_success(reply.status) {
            Ok(())
        } else {
            Err(
                LogidError::QueryFailed(
                    String::from_str(self.auth_manager.region_str()),
                    crate::auth::manager::write_refused_report(reply.status, reply.body.as_str()),
                ),
            )
        }
    }

    /// Reads the reply of the log endpoint: a status outside 200 to 299
    /// fails the query as [`LogQueryClient::check_reply`] says, and a body
    /// that is no JSON document counts as a failure of the transport.
    pub fn read_reply(&self, reply: &HttpReply) -> (answer: Result<serde_json::Value, LogidError>)
        ensures
            if !crate::auth::manager::success(reply.status as int) {
                answer matches Err(LogidError::QueryFailed(region, detail)) && region@
                    == self.region_key() && detail@ == crate::auth::manager::refused_report(
                    reply.status as int,
                    reply.body@,
                )
            } else {
                match json_parsed(reply.body@) {
                    Some(document) => answer == Ok::<serde_json::Value, LogidError>(document),
                    None => answer matches Err(LogidError::NetworkError(_)),
                }
            },
    {
        match self.check_reply(reply) {
            Ok(()) => {},
            Err(error) => {
                return Err(error);
            },
        }
        match parse_json(reply.body.as_str()) {
            Ok(document) => Ok(document),
            Err(error) => Err(LogidError::NetworkError(json_error_text(&error))),
        }
    }

    /// Puts the normalised answer together from the answer as it came, what
    /// decoding its payload came to, and the time it was taken. An answer
    /// without items has nothing to decode and gets the empty payload; a
    /// payload that does not decode fails the query, with the reason.
    pub fn normalise(
        &self,
        answer: &serde_json::Value,
        decoded: Option<Result<LogData, String>>,
        timestamp: String,
    ) -> (response: Result<LogQueryResponse, LogidError>)
        ensures
            match decoded {
                Some(Err(reason)) => response matches Err(LogidError::QueryFailed(region, detail))
                    && region@ == self.region_key() && detail@ == reason@,
                Some(Ok(data)) => response matches Ok(made) && made.data == Some(data)
                    && self.describes(*answer, made) && made.timestamp == timestamp,
                None => response matches Ok(made) && made.data matches Some(data) && data.items@
                    == Seq::<LogItem>::empty() && data.meta is None && data.tag_infos is None
                    && self.describes(*answer, made) && made.timestamp == timestamp,
            },
    {
        let data = match decoded {
            Some(Ok(data)) => data,
            Some(Err(reason)) => {
                return Err(self.malformed_payload(reason.as_str()));
            },
            None => empty_payload(),
        };
        Ok(self.build_response(answer, data, timestamp))
    }

    /// Whether a normalised answer says of itself what the answer as it
    /// came and the client's region say: the members `meta` and `tag_infos`
    /// of the top of the answer, the key of the region and its name.
    pub open spec fn describes(&self, answer: serde_json::Value, response: LogQueryResponse) -> bool {
        &&& response.meta == meta_in(json_fields(answer))
        &&& match response.tag_infos {
            Some(list) => tag_infos_in(json_fields(answer)) == Some(list@),
            None => tag_infos_in(json_fields(answer)) is None,
        }
        &&& response.region@ == self.region_key()
        &&& response.region_display_name@ == self.auth().spec_region().shown_name()
    }

    /// The error for a payload that does not decode into the expected
    /// shape: the query failed, in this region, for the reason given.
    pub fn malformed_payload(&self, reason: &str) -> (error: LogidError)
        ensures
            error matches LogidError::QueryFailed(region, detail) && region@ == self.region_key()
                && detail@ == reason@,
    {
        LogidError::QueryFailed(
            String::from_str(self.auth_manager.region_str()),
            String::from_str(reason),
        )
    }

    /// Puts the normalised answer together from the answer as it came, its
    /// decoded payload and the time it was taken. The members `meta` and
    /// `tag_infos` come from the top of the answer, wherever the payload
    /// stood.
    pub fn build_response(&self, answer: &serde_json::Value, data: LogData, timestamp: String) -> (response:
        LogQueryResponse)
        ensures
            response.data == Some(data),
            response.timestamp == timestamp,
            self.describes(*answer, response),
    {
        LogQueryResponse {
            data: Some(data),
            meta: response_meta(answer),
            tag_infos: response_tag_infos(answer),
            timestamp,
            region: String::from_str(self.auth_manager.region_str()),
            region_display_name: String::from_str(self.auth_manager.region().display_name()),
        }
    }

    /// Puts the normalised answer together as [`LogQueryClient::normalise`]
    /// does, with the present time as the time it was taken. A clock that is
    /// too far from the epoch for its time to be written is an error.
    pub fn normalise_now(&self, answer: &serde_json::Value, decoded: Option<Result<LogData, String>>) -> (response:
        Result<LogQueryResponse, LogidError>)
        ensures
            response matches Err(LogidError::InternalError(_)) || match decoded {
                Some(Err(reason)) => response matches Err(LogidError::QueryFailed(region, detail))
                    && region@ == self.region_key() && detail@ == reason@,
                Some(Ok(data)) => response matches Ok(made) && made.data == Some(data)
                    && self.describes(*answer, made),
                None => response matches Ok(made) && made.data matches Some(data) && data.items@
                    == Seq::<LogItem>::empty() && data.meta is None && data.tag_infos is None
                    && self.describes(*answer, made),
            },
    {
        match utc_timestamp() {
            Some(timestamp) => self.normalise(answer, decoded, timestamp),
            None => Err(LogidError::InternalError(String::from_str("系统时钟超出可表示的时间范围"))),
        }
    }

    /// Makes the result for the caller from a normalised answer and what
    /// decoding the answer's top-level member `meta` came to, `None` where
    /// the answer has no such member. The result holds the messages of the
    /// payload, redacted, the count of its items, and what the answer says
    /// about the search: the top-level `meta` wherever the items stood, and
    /// the payload's own only where the top of the answer has none. An
    /// answer without a payload fails the query, and so does a `meta` that
    /// does not decode.
    pub fn get_log_details(
        &self,
        logid: &str,
        response: LogQueryResponse,
        top_meta: Option<Result<LogMeta, String>>,
    ) -> (details: Result<DetailedLogResult, LogidError>)
        ensures
            details_of(*self, logid@, response, top_meta, details),
    {
        let data = match response.data {
            Some(data) => data,
            None => {
                return Err(
                    LogidError::QueryFailed(
                        String::from_str(self.auth_manager.region_str()),
                        String::from_str("响应中没有数据内容"),
                    ),
                );
            },
        };
        let attached = if response.meta.is_some() {
            top_meta
        } else {
            None
        };
        let meta = match attached {
            Some(Ok(meta)) => Some(meta),
            Some(Err(reason)) => {
                return Err(self.malformed_payload(reason.as_str()));
            },
            None => data.meta,
        };
        let messages = extract_messages(&self.message_filters, &data.items);
        let total_items = data.items.len();
        let mut scan_time_range: Option<Vec<TimeRange>> = None;
        let mut level_list: Option<Vec<String>> = None;
        if let Some(found) = &meta {
            if let Some(ranges) = &found.scan_time_range {
                scan_time_range = Some(clone_ranges(ranges));
            }
            if let Some(list) = &found.level_list {
                level_list = Some(clone_strings(list));
            }
        }
        Ok(
            DetailedLogResult {
                logid: logid.to_owned(),
                messages,
                meta,
                tag_infos: response.tag_infos,
                total_items,
                scan_time_range,
                level_list,
                timestamp: response.timestamp,
                region: response.region,
                region_display_name: response.region_display_name,
            },
        )
    }

    /// Extracts the messages of a payload: for every item, for every line
    /// of it that has message text, one message with each of the line's
    /// texts redacted and kept as it came.
    pub fn extract_log_messages(&self, data: &LogData) -> (messages: Vec<ExtractedLogMessage>)
        ensures
            message_views(messages@) == messages_of(self.filters(), data.items@),
    {
        extract_messages(&self.message_filters, &data.items)
    }

    /// Redacts a message with the patterns of the client.
    pub fn filter_message_content(&self, message: &str) -> (filtered: String)
        ensures
            filtered@ == redacted(self.filters(), message@),
    {
        redact(&self.message_filters, message)
    }

    /// The key of the client's region.
    pub fn region(&self) -> (key: &str)
        ensures
            key@ == self.region_key(),
    {
        self.auth_manager.region_str()
    }

    /// What is wired for the client's region.
    pub fn region_config(&self) -> (config: &RegionConfig)
        ensures
            config@ == self.config(),
    {
        &self.region_config
    }

    /// The token cache of the client.
    pub fn auth_manager(&self) -> (manager: &AuthManager)
        ensures
            *manager == self.auth(),
    {
        &self.auth_manager
    }
}

/// Whether a step is the one that begins a query of a client at the second
/// `now`. A region without a log endpoint is refused; else the query goes
/// out with the cached token where that may be handed out, and the token is
/// asked for where it may not.
pub open spec fn begins(
    client: LogQueryClient,
    logid: Seq<char>,
    psm_list: Seq<Seq<char>>,
    now: int,
    step: QueryStep,
) -> bool {
    match step {
        QueryStep::Refused(error) => {
            &&& !client.config().configured
            &&& error matches LogidError::RegionNotConfigured(region)
            &&& region@ == client.region_key()
        },
        QueryStep::Authenticate(request) => {
            &&& client.config().configured
            &&& !reusable(client.auth().cache(), false, now)
            &&& request.url@ == client.auth().endpoint()
            &&& request.cookie@ == session_cookie(client.auth().session())
        },
        QueryStep::Send(call) => {
            &&& client.config().configured
            &&& reusable(client.auth().cache(), false, now)
            &&& call.url@ == client.config().log_service_url
            &&& call.token == client.auth().cache()->0.token
            &&& call.body@ == query_body(logid, psm_list, client.config())
        },
    }
}

/// Whether a client and a result are what becomes of a client that takes
/// the outcome of a request for a token at the second `now`: the cache
/// takes the outcome as [`accepted`] says, a token gives the query that
/// goes out with it, and the error of a failed fetch is handed on unchanged.
pub open spec fn resumes(
    before: LogQueryClient,
    exchange: Result<AuthReply, LogidError>,
    logid: Seq<char>,
    psm_list: Seq<Seq<char>>,
    now: int,
    after: LogQueryClient,
    call: Result<QueryCall, LogidError>,
) -> bool {
    &&& after.config() == before.config()
    &&& after.filters() == before.filters()
    &&& exists|token: Result<String, LogidError>|
        {
            &&& #[trigger] accepted(before.auth(), exchange, now, after.auth(), token)
            &&& match token {
                Ok(fresh) => {
                    &&& call matches Ok(query)
                    &&& query.url@ == before.config().log_service_url
                    &&& query.token == fresh
                    &&& query.body@ == query_body(logid, psm_list, before.config())
                },
                Err(cause) => call == Err::<QueryCall, LogidError>(cause),
            }
        }
}

/// What of the decoded top-level `meta` counts: what was handed in where
/// the answer has a member `meta`, nothing where it has none.
pub open spec fn attached_meta(response: LogQueryResponse, top_meta: Option<Result<LogMeta, String>>) -> Option<
    Result<LogMeta, String>,
> {
    if response.meta is Some {
        top_meta
    } else {
        None
    }
}

/// Whether a result is the one that a client makes of a normalised answer
/// and its decoded top-level `meta`: a failure for an answer without a
/// payload and for a `meta` that did not decode, else the messages of the
/// payload, redacted with the client's patterns, the count of its items and
/// what the answer says about the search. The top-level `meta` is attached
/// wherever the items stood; the payload's own `meta` stands in only where
/// the top of the answer has none.
pub open spec fn details_of(
    client: LogQueryClient,
    logid: Seq<char>,
    response: LogQueryResponse,
    top_meta: Option<Result<LogMeta, String>>,
    details: Result<DetailedLogResult, LogidError>,
) -> bool {
    match response.data {
        None => {
            &&& details matches Err(LogidError::QueryFailed(region, detail))
            &&& region@ == client.region_key()
            &&& detail@ == no_data_report()
        },
        Some(data) => match attached_meta(response, top_meta) {
            Some(Err(reason)) => {
                &&& details matches Err(LogidError::QueryFailed(region, detail))
                &&& region@ == client.region_key()
                &&& detail@ == reason@
            },
            Some(Ok(meta)) => {
                &&& details matches Ok(result)
                &&& carries(client, logid, response, data, result)
                &&& says(result, Some(meta))
            },
            None => {
                &&& details matches Ok(result)
                &&& carries(client, logid, response, data, result)
                &&& says(result, data.meta)
            },
        },
    }
}

/// Whether a result carries what the payload and the normalised answer
/// give it: the messages, the count of items, the tags of the top of the
/// answer, the time and the region.
pub open spec fn carries(
    client: LogQueryClient,
    logid: Seq<char>,
    response: LogQueryResponse,
    data: LogData,
    result: DetailedLogResult,
) -> bool {
    &&& result.logid@ == logid
    &&& message_views(result.messages@) == messages_of(client.filters(), data.items@)
    &&& result.total_items == data.items@.len()
    &&& result.tag_infos == response.tag_infos
    &&& result.timestamp == response.timestamp
    &&& result.region == response.region
    &&& result.region_display_name == response.region_display_name
}

/// Whether a result says about the search what a `meta` says: the `meta`
/// itself, and beside it the scanned stretches of time and the severities
/// that it holds.
pub open spec fn says(result: DetailedLogResult, meta: Option<LogMeta>) -> bool {
    &&& result.meta == meta
    &&& range_list(result.scan_time_range) == range_list(scan_ranges(meta))
    &&& level_texts(result.level_list) == level_texts(levels(meta))
}

/// The stretches of time that a `meta` says were scanned.
pub open spec fn scan_ranges(meta: Option<LogMeta>) -> Option<Vec<TimeRange>> {
    match meta {
        Some(found) => found.scan_time_range,
        None => None,
    }
}

/// The severities that a `meta` says occur.
pub open spec fn levels(meta: Option<LogMeta>) -> Option<Vec<String>> {
    match meta {
        Some(found) => found.level_list,
        None => None,
    }
}

/// The contents of an optional list of stretches of time.
pub open spec fn range_list(list: Option<Vec<TimeRange>>) -> Option<Seq<TimeRange>> {
    match list {
        Some(found) => Some(found@),
        None => None,
    }
}

/// The texts of an optional list of strings.
pub open spec fn level_texts(list: Option<Vec<String>>) -> Option<Seq<Seq<char>>> {
    match list {
        Some(found) => Some(texts(found@)),
        None => None,
    }
}

/// Copies a list of stretches of time.
pub fn clone_ranges(ranges: &Vec<TimeRange>) -> (copy: Vec<TimeRange>)
    ensures
        copy@ == ranges@,
{
    let mut copy: Vec<TimeRange> = Vec::new();
    let mut i: usize = 0;
    while i < ranges.len()
        invariant
            i <= ranges.len(),
            copy@ == ranges@.take(i as int),
        decreases ranges.len() - i,
    {
        let range = TimeRange { start: ranges[i].start, end: ranges[i].end };
        copy.push(range);
        assert(ranges@.take(i + 1) =~= ranges@.take(i as int).push(ranges@[i as int]));
        i += 1;
    }
    assert(ranges@.take(ranges.len() as int) =~= ranges@);
    copy
}

} // verus!
