//! The caller-facing data model: the dispatch request, and the normalized
//! result envelope returned regardless of which provider served the request.

use vstd::prelude::*;

verus! {

/// The request a caller hands to the dispatcher. The provider name selects a
/// strategy; the key, prompt and model are opaque strings that are only
/// forwarded; the proxy URL, when given, is applied to the HTTP client.
pub struct AiProxyRequest {
    pub provider: String,
    pub api_key: String,
    pub prompt: String,
    pub model: String,
    pub proxy_url: Option<String>,
}

/// The normalized outcome of one dispatch: on success `content` carries the
/// extracted text, on failure `error` carries a human-readable diagnostic.
pub struct AiProxyResponse {
    pub success: bool,
    pub content: Option<String>,
    pub error: Option<String>,
}

/// Exactly one of `content`/`error` is present, and it corresponds to
/// `success` — never both, never neither.
pub open spec fn envelope_wf(e: AiProxyResponse) -> bool {
    &&& e.content is Some || e.error is Some
    &&& !(e.content is Some && e.error is Some)
    &&& e.success <==> e.content is Some
}

/// Wraps a strategy outcome into the envelope: success with text `t` becomes
/// `{success: true, content: t}`, failure with message `m` becomes
/// `{success: false, error: m}`.
pub fn outcome_envelope(outcome: Result<String, String>) -> (e: AiProxyResponse)
    ensures
        envelope_wf(e),
        outcome matches Ok(t) ==> e.success && (e.content matches Some(c) && c == t),
        outcome matches Err(m) ==> !e.success && (e.error matches Some(d) && d == m),
{
    match outcome {
        Ok(content) => AiProxyResponse { success: true, content: Some(content), error: None },
        Err(message) => AiProxyResponse { success: false, content: None, error: Some(message) },
    }
}

} // verus!
