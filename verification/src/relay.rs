//! One request through the relay: what is asked of the upstream, and what
//! goes back to the caller.

use crate::headers::{relay_headers, relayed, values_named, Field, Header};
use crate::query::{
    form_pairs, is_query_mark, lookup, param, params, parse_query, query_of, query_part,
};
use vstd::prelude::*;

verus! {

/// The port on the loopback address at which the relay listens.
pub const PORT: u16 = 3000;

/// The user agent that the relay gives where a caller's headers name none.
pub const USER_AGENT: &'static str =
    "Mozilla/5.0 (Windows NT 10.0; rv:91.0) Gecko/20100101 Firefox/110.0";

/// The query parameter that names the upstream host.
pub const HOST_PARAM: &'static str = "host";

/// The scheme of every upstream request, whatever scheme the caller used.
pub const SCHEME: &'static str = "https://";

/// The status of the answer to a request that names no host.
pub const BAD_REQUEST: u16 = 400;

/// The status of the answer to a request whose upstream exchange failed.
pub const BAD_GATEWAY: u16 = 502;

/// A request as the relay received it: the method, the request target (path
/// and query string, as on the request line) and the headers.
#[derive(Debug, PartialEq, Eq)]
pub struct Request {
    pub method: String,
    pub uri: String,
    pub headers: Vec<Header>,
}

/// The request that the relay makes of the upstream.
#[derive(Debug, PartialEq, Eq)]
pub struct Outbound {
    pub method: String,
    pub url: String,
    pub headers: Vec<Header>,
}

/// A response that the relay sends to its caller.
#[derive(Debug, PartialEq, Eq)]
pub struct Response {
    pub status: u16,
    pub headers: Vec<Header>,
    pub body: Vec<u8>,
}

/// What the relay does with a request.
#[derive(Debug, PartialEq, Eq)]
pub enum Step {
    /// Answer at once, without any upstream exchange.
    Reply(Response),
    /// Make this request of the upstream and relay its outcome.
    Forward(Outbound),
}

/// How the upstream exchange ended.
#[derive(Debug, PartialEq, Eq)]
pub enum Upstream {
    /// No response was had: the request could not be built or sent, the
    /// chain of redirects was too long, or the body could not be read whole.
    Failed,
    /// The upstream answered, and its body was read to the end.
    Answered { status: u16, headers: Vec<Field>, body: Vec<u8> },
}

/// What a [`Request`] holds, as mathematical values.
pub struct RequestModel {
    pub method: Seq<char>,
    pub uri: Seq<char>,
    pub headers: Seq<(Seq<char>, Seq<u8>)>,
}

/// What an [`Outbound`] request holds, as mathematical values.
pub struct OutboundModel {
    pub method: Seq<char>,
    pub url: Seq<char>,
    pub headers: Seq<(Seq<char>, Seq<u8>)>,
}

/// What a [`Response`] holds, as mathematical values.
pub struct ResponseModel {
    pub status: u16,
    pub headers: Seq<(Seq<char>, Seq<u8>)>,
    pub body: Seq<u8>,
}

/// A [`Step`] over the models of its parts.
pub enum StepModel {
    Reply(ResponseModel),
    Forward(OutboundModel),
}

/// An [`Upstream`] outcome over the models of its parts.
pub enum UpstreamModel {
    Failed,
    Answered { status: u16, headers: Seq<(Option<Seq<char>>, Seq<u8>)>, body: Seq<u8> },
}

impl View for Request {
    type V = RequestModel;

    open spec fn view(&self) -> RequestModel {
        RequestModel { method: self.method@, uri: self.uri@, headers: self.headers.deep_view() }
    }
}

impl View for Outbound {
    type V = OutboundModel;

    open spec fn view(&self) -> OutboundModel {
        OutboundModel { method: self.method@, url: self.url@, headers: self.headers.deep_view() }
    }
}

impl View for Response {
    type V = ResponseModel;

    open spec fn view(&self) -> ResponseModel {
        ResponseModel { status: self.status, headers: self.headers.deep_view(), body: self.body@ }
    }
}

impl View for Step {
    type V = StepModel;

    open spec fn view(&self) -> StepModel {
        match self {
            Step::Reply(response) => StepModel::Reply(response@),
            Step::Forward(outbound) => StepModel::Forward(outbound@),
        }
    }
}

impl View for Upstream {
    type V = UpstreamModel;

    open spec fn view(&self) -> UpstreamModel {
        match self {
            Upstream::Failed => UpstreamModel::Failed,
            Upstream::Answered { status, headers, body } => UpstreamModel::Answered {
                status: *status,
                headers: headers.deep_view(),
                body: body@,
            },
        }
    }
}

/// A response of the relay's own: the status, no header, an empty body.
pub open spec fn bare(status: u16) -> ResponseModel {
    ResponseModel { status, headers: Seq::empty(), body: Seq::empty() }
}

/// The upstream address of a request target: the scheme, the host, then
/// the target as it came, its whole query string included.
pub open spec fn target(host: Seq<char>, uri: Seq<char>) -> Seq<char> {
    SCHEME@ + host + uri
}

/// What is done with a request whose query string holds `pairs`.
pub open spec fn planned(request: RequestModel, pairs: Seq<(Seq<char>, Seq<char>)>) -> StepModel {
    match param(pairs, HOST_PARAM@) {
        Some(host) => StepModel::Forward(
            OutboundModel {
                method: request.method,
                url: target(host, request.uri),
                headers: request.headers,
            },
        ),
        None => StepModel::Reply(bare(BAD_REQUEST)),
    }
}

/// The host that a request target names: the value of its `host`
/// parameter. A target without a query string names none.
pub open spec fn host_named(uri: Seq<char>) -> Option<Seq<char>> {
    match query_part(uri) {
        Some(query) => param(form_pairs(query), HOST_PARAM@),
        None => None,
    }
}

/// What is done with a request. A target without a query string has no
/// parameters.
pub open spec fn plan_of(request: RequestModel) -> StepModel {
    match query_part(request.uri) {
        Some(query) => planned(request, form_pairs(query)),
        None => planned(request, Seq::empty()),
    }
}

/// What goes back to the caller after the upstream exchange.
pub open spec fn relay_of(outcome: UpstreamModel) -> ResponseModel {
    match outcome {
        UpstreamModel::Failed => bare(BAD_GATEWAY),
        UpstreamModel::Answered { status, headers, body } => ResponseModel {
            status,
            headers: relayed(headers),
            body,
        },
    }
}

/// A response with a status and nothing else.
pub fn bare_response(status: u16) -> (response: Response)
    ensures
        response@ == bare(status),
{
    let response = Response { status, headers: Vec::new(), body: Vec::new() };
    assert(response.headers.deep_view() =~= Seq::empty());
    response
}

/// Builds the upstream address for a host and a request target.
pub fn target_url(host: &str, uri: &str) -> (url: String)
    ensures
        url@ == target(host@, uri@),
{
    let mut url = String::from_str(SCHEME);
    url.append(host);
    url.append(uri);
    url
}

/// Decides on a request whose query string was parsed into `pairs`.
pub fn plan_parsed(request: Request, pairs: &Vec<(String, String)>) -> (step: Step)
    ensures
        step@ == planned(request@, pairs.deep_view()),
{
    match lookup(pairs, HOST_PARAM) {
        Some(host) => {
            let url = target_url(host.as_str(), request.uri.as_str());
            Step::Forward(Outbound { method: request.method, url, headers: request.headers })
        },
        None => Step::Reply(bare_response(BAD_REQUEST)),
    }
}

/// Decides on a request: forward it to the host that its query names, or
/// refuse it.
pub fn plan(request: Request) -> (step: Step)
    ensures
        step@ == plan_of(request@),
        host_named(request.uri@) is None ==> step@ == StepModel::Reply(bare(BAD_REQUEST)),
        host_named(request.uri@) matches Some(host) ==> step@ == StepModel::Forward(
            OutboundModel {
                method: request.method@,
                url: SCHEME@ + host + request.uri@,
                headers: request.headers.deep_view(),
            },
        ),
{
    let pairs = match query_of(request.uri.as_str()) {
        Some(query) => parse_query(query),
        None => Vec::new(),
    };
    proof {
        assert(query_part(request.uri@) is None ==> pairs.deep_view() =~= Seq::empty());
        lemma_missing_host_refused(request@);
        lemma_named_host_forwarded(request@);
    }
    plan_parsed(request, &pairs)
}

/// Builds the response to the caller from the outcome of the upstream
/// exchange.
pub fn relay(outcome: Upstream) -> (response: Response)
    ensures
        response@ == relay_of(outcome@),
        outcome is Failed ==> response@ == bare(BAD_GATEWAY),
        outcome matches Upstream::Answered { status, headers, body } ==> {
            &&& response.status == status
            &&& response.headers.deep_view() == relayed(headers.deep_view())
            &&& response.body@ == body@
        },
{
    match outcome {
        Upstream::Failed => bare_response(BAD_GATEWAY),
        Upstream::Answered { status, headers, body } => Response {
            status,
            headers: relay_headers(headers),
            body,
        },
    }
}

/// A request that names no host is refused with status 400, an empty body
/// and no header at all, so with none of the cross-origin headers.
pub proof fn lemma_missing_host_refused(request: RequestModel)
    ensures
        host_named(request.uri) is None ==> plan_of(request) == StepModel::Reply(
            bare(BAD_REQUEST),
        ),
        bare(BAD_REQUEST).status == 400,
        bare(BAD_REQUEST).body.len() == 0,
        bare(BAD_REQUEST).headers.len() == 0,
        forall|name: Seq<char>| #[trigger]
            values_named(bare(BAD_REQUEST).headers, name).len() == 0,
{
    assert(params(Seq::empty()) =~= Map::empty());
}

/// A request that names a host is forwarded to it over HTTPS, with the
/// method and the headers as they came and the request target at the end
/// of the address, the `host` parameter still in its query string.
pub proof fn lemma_named_host_forwarded(request: RequestModel)
    ensures
        host_named(request.uri) matches Some(host) ==> plan_of(request) == StepModel::Forward(
            OutboundModel {
                method: request.method,
                url: SCHEME@ + host + request.uri,
                headers: request.headers,
            },
        ),
{
}

/// A request target without `?` names no host.
pub proof fn lemma_no_query_names_no_host(uri: Seq<char>)
    requires
        !uri.contains('?'),
    ensures
        host_named(uri) is None,
{
    if exists|i: int| is_query_mark(uri, i) {
        let i = choose|i: int| is_query_mark(uri, i);
        assert(uri.contains(uri[i]));
    }
}

/// The status and the body of an upstream response go back as they came.
pub proof fn lemma_status_and_body_unchanged(
    status: u16,
    headers: Seq<(Option<Seq<char>>, Seq<u8>)>,
    body: Seq<u8>,
)
    ensures
        relay_of(UpstreamModel::Answered { status, headers, body }).status == status,
        relay_of(UpstreamModel::Answered { status, headers, body }).body == body,
        relay_of(UpstreamModel::Answered { status, headers, body }).headers == relayed(headers),
{
}

} // verus!
