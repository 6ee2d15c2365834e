//! The dispatcher: it resolves the proxy configuration, builds the HTTP
//! client, selects a strategy from the logical provider name, and normalizes
//! every outcome of the provider exchange into the result envelope.
//!
//! The one network exchange itself is the caller's side: `dispatch_begin`
//! hands back the prepared call, the caller performs the POST and reads the
//! response, and `dispatch_finish` interprets what came back.

use vstd::prelude::*;
use vstd::string::StringExecFns;
use crate::envelope::{AiProxyRequest, AiProxyResponse, envelope_wf, outcome_envelope};
use crate::httpc::{
    proxy_accepts, proxy_for_all_schemes, new_client_builder, builder_with_proxy, build_client,
};
use crate::json::{json_text, parse_json, parsed_json};
use crate::strategy::{
    Provider, WireRequest, build_wire_request, extract_content, extraction_failure_message,
    label_str, provider_content, provider_label, provider_of_name, spec_provider_of, wire_matches,
};
use crate::text::{decimal_text, u16_decimal};

verus! {

/// A failure before any provider logic runs: the proxy URL did not parse, or
/// the HTTP client could not be built. It is surfaced as a hard failure of
/// the dispatch call itself, not as an envelope.
pub enum PreflightError {
    /// The proxy URL was rejected; carries the parser's diagnostic.
    Proxy(String),
    /// The HTTP client could not be constructed; carries the cause.
    ClientBuild(String),
}

/// The message a preflight failure surfaces to the caller.
pub open spec fn preflight_message(e: PreflightError) -> Seq<char> {
    match e {
        PreflightError::Proxy(cause) => "Failed to set proxy: "@ + cause@,
        PreflightError::ClientBuild(cause) => cause@,
    }
}

impl PreflightError {
    /// Renders the failure for the caller.
    pub fn message(&self) -> (m: String)
        ensures
            m@ == preflight_message(*self),
    {
        match self {
            PreflightError::Proxy(cause) => {
                let mut m = "Failed to set proxy: ".to_owned();
                m.append(cause.as_str());
                m
            },
            PreflightError::ClientBuild(cause) => cause.clone(),
        }
    }
}

/// One provider call, ready to run: POST `wire.body_text` to `wire.url` with
/// the client, setting `Authorization` to `wire.auth_header` when present.
pub struct PreparedCall {
    pub provider: Provider,
    pub client: reqwest::Client,
    pub wire: WireRequest,
}

/// What the first half of a dispatch decided: an unsupported provider name
/// is rejected with a finished envelope and no network call; a supported one
/// yields a prepared call.
pub enum DispatchStep {
    Rejected(AiProxyResponse),
    Call(PreparedCall),
}

/// The diagnostic for a provider name that matches no strategy.
pub open spec fn unsupported_message(name: Seq<char>) -> Seq<char> {
    "Unsupported provider: "@ + name
}

fn unsupported_envelope(name: &String) -> (e: AiProxyResponse)
    ensures
        envelope_wf(e),
        !e.success,
        e.error matches Some(m) && m@ == unsupported_message(name@),
{
    let mut m = "Unsupported provider: ".to_owned();
    m.append(name.as_str());
    outcome_envelope(Err(m))
}

/// Resolves the proxy, builds the client, and selects the strategy.
///
/// A malformed proxy URL fails here, before any provider logic, and it is
/// the only rejected input: an unknown provider name is not a preflight
/// failure but a `Rejected` envelope, on the same normalization path as a
/// provider failure.
pub fn dispatch_begin(req: &AiProxyRequest) -> (r: Result<DispatchStep, PreflightError>)
    ensures
        (r matches Err(e) && e is Proxy) <==> (req.proxy_url matches Some(u) && !proxy_accepts(
            u@,
        )),
        r matches Ok(step) ==> match spec_provider_of(req.provider@) {
            Some(p) => {
                &&& step matches DispatchStep::Call(call)
                &&& call.provider == p
                &&& wire_matches(p, *req, call.wire)
                &&& call.wire.body_text@ == json_text(call.wire.body)
            },
            None => {
                &&& step matches DispatchStep::Rejected(e)
                &&& envelope_wf(e)
                &&& !e.success
                &&& (e.error matches Some(m) && m@ == unsupported_message(req.provider@))
            },
        },
{
    let mut builder = new_client_builder();
    match &req.proxy_url {
        Some(url) => {
            match proxy_for_all_schemes(url.as_str()) {
                Ok(proxy) => {
                    builder = builder_with_proxy(builder, proxy);
                },
                Err(cause) => {
                    return Err(PreflightError::Proxy(cause));
                },
            }
        },
        None => {},
    }
    let client = match build_client(builder) {
        Ok(c) => c,
        Err(cause) => {
            return Err(PreflightError::ClientBuild(cause));
        },
    };
    match provider_of_name(req.provider.as_str()) {
        Some(p) => {
            let wire = build_wire_request(p, req);
            Ok(DispatchStep::Call(PreparedCall { provider: p, client, wire }))
        },
        None => Ok(DispatchStep::Rejected(unsupported_envelope(&req.provider))),
    }
}

/// What the caller's side of the network exchange came back with: a
/// transport-level failure (DNS, TLS, connection, timeout), or a response's
/// status with its body text — the body `Err` when it could not be read.
pub enum HttpEvent {
    Transport(String),
    Response { status: u16, body: Result<String, String> },
}

/// The 2xx statuses.
pub open spec fn success_status(status: u16) -> bool {
    200 <= status < 300
}

/// The diagnostic for a transport-level failure.
pub open spec fn transport_failure_message(p: Provider, cause: Seq<char>) -> Seq<char> {
    provider_label(p) + " request failed: "@ + cause
}

/// The diagnostic for a non-2xx status: the numeric status and the raw body
/// text, or a placeholder when the body could not be read.
pub open spec fn http_error_message(p: Provider, status: u16, body: Result<String, String>) -> Seq<
    char,
> {
    provider_label(p) + " API error "@ + decimal_text(status as int) + ": "@ + (match body {
        Ok(t) => t@,
        Err(_) => "Unknown error"@,
    })
}

/// The prefix of the diagnostic for a response that could not be read or
/// parsed as JSON; the rest is the parser's own message.
pub open spec fn parse_failure_prefix(p: Provider) -> Seq<char> {
    "Failed to parse "@ + provider_label(p) + " response: "@
}

/// How a strategy outcome corresponds to what the exchange came back with:
/// the single shared failure policy over every path — transport failure,
/// non-2xx status, unreadable or malformed body, missing content — and the
/// extracted content on the one success path.
pub open spec fn outcome_matches_event(
    p: Provider,
    event: HttpEvent,
    r: Result<Seq<char>, Seq<char>>,
) -> bool {
    match event {
        HttpEvent::Transport(cause) => r matches Err(m) && m == transport_failure_message(
            p,
            cause@,
        ),
        HttpEvent::Response { status, body } => {
            if !success_status(status) {
                r matches Err(m) && m == http_error_message(p, status, body)
            } else {
                match body {
                    Err(cause) => r matches Err(m) && m == parse_failure_prefix(p) + cause@,
                    Ok(text) => match parsed_json(text@) {
                        None => r matches Err(m) && (exists|rest: Seq<char>|
                            m == parse_failure_prefix(p) + rest),
                        Some(doc) => match provider_content(p, doc) {
                            Some(t) => r matches Ok(c) && c == t,
                            None => r matches Err(m) && m == extraction_failure_message(p, doc),
                        },
                    },
                }
            }
        },
    }
}

/// The outcome a strategy-level result denotes, at the character level.
pub open spec fn outcome_view(r: Result<String, String>) -> Result<Seq<char>, Seq<char>> {
    match r {
        Ok(s) => Ok(s@),
        Err(m) => Err(m@),
    }
}

/// The outcome an envelope reports, at the character level.
pub open spec fn envelope_outcome(e: AiProxyResponse) -> Result<Seq<char>, Seq<char>> {
    if e.success {
        Ok(e.content->Some_0@)
    } else {
        Err(e.error->Some_0@)
    }
}

fn transport_message(p: Provider, cause: &String) -> (m: String)
    ensures
        m@ == transport_failure_message(p, cause@),
{
    let mut m = label_str(p).to_owned();
    m.append(" request failed: ");
    m.append(cause.as_str());
    proof {
        assert(m@ =~= transport_failure_message(p, cause@));
    }
    m
}

fn status_message(p: Provider, status: u16, body: &Result<String, String>) -> (m: String)
    ensures
        m@ == http_error_message(p, status, *body),
{
    let mut m = label_str(p).to_owned();
    m.append(" API error ");
    let digits = u16_decimal(status);
    m.append(digits.as_str());
    m.append(": ");
    match body {
        Ok(t) => m.append(t.as_str()),
        Err(_) => m.append("Unknown error"),
    }
    proof {
        assert(m@ =~= http_error_message(p, status, *body));
    }
    m
}

fn parse_message(p: Provider, cause: &String) -> (m: String)
    ensures
        m@ == parse_failure_prefix(p) + cause@,
{
    let mut m = "Failed to parse ".to_owned();
    m.append(label_str(p));
    m.append(" response: ");
    m.append(cause.as_str());
    proof {
        assert(m@ =~= parse_failure_prefix(p) + cause@);
    }
    m
}

/// The selected strategy's outcome for what the exchange came back with: the
/// extracted content, or the diagnostic the shared failure policy assigns.
pub fn provider_outcome(p: Provider, event: HttpEvent) -> (r: Result<String, String>)
    ensures
        outcome_matches_event(p, event, outcome_view(r)),
{
    match event {
        HttpEvent::Transport(cause) => Err(transport_message(p, &cause)),
        HttpEvent::Response { status, body } => {
            if !(200 <= status && status < 300) {
                Err(status_message(p, status, &body))
            } else {
                match body {
                    Err(cause) => Err(parse_message(p, &cause)),
                    Ok(text) => match parse_json(text.as_str()) {
                        Err(cause) => Err(parse_message(p, &cause)),
                        Ok(doc) => extract_content(p, &doc),
                    },
                }
            }
        },
    }
}

/// Normalizes what the exchange came back with into the result envelope:
/// strategy success with text `T` becomes `{success: true, content: T}`,
/// every failure becomes `{success: false, error: M}` with that path's
/// diagnostic.
pub fn dispatch_finish(p: Provider, event: HttpEvent) -> (e: AiProxyResponse)
    ensures
        envelope_wf(e),
        outcome_matches_event(p, event, envelope_outcome(e)),
{
    let outcome = provider_outcome(p, event);
    outcome_envelope(outcome)
}

} // verus!
