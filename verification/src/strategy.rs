//! The provider strategies: one variant per supported service, each owning
//! request-body construction, endpoint and auth placement, and
//! response-content extraction.

use vstd::prelude::*;
use vstd::string::StringExecFns;
use crate::envelope::AiProxyRequest;
use crate::json::{
    JsonValue, spec_member, spec_text, member_of, element_of, text_of, member, element, text,
    json_text, to_json_text,
};
use crate::text::str_eq;

verus! {

/// The closed set of supported providers.
#[derive(Clone, Copy, PartialEq, Eq, Structural, Debug)]
pub enum Provider {
    Qwen,
    Gemini,
    Chatgpt,
}

/// The provider a logical name selects: an exact match on one of the three
/// known names, anything else selecting none.
pub open spec fn spec_provider_of(name: Seq<char>) -> Option<Provider> {
    if name == "qwen"@ {
        Some(Provider::Qwen)
    } else if name == "gemini"@ {
        Some(Provider::Gemini)
    } else if name == "chatgpt"@ {
        Some(Provider::Chatgpt)
    } else {
        None
    }
}

/// Selects a strategy from a logical provider name.
pub fn provider_of_name(name: &str) -> (r: Option<Provider>)
    ensures
        r == spec_provider_of(name@),
{
    if str_eq(name, "qwen") {
        Some(Provider::Qwen)
    } else if str_eq(name, "gemini") {
        Some(Provider::Gemini)
    } else if str_eq(name, "chatgpt") {
        Some(Provider::Chatgpt)
    } else {
        None
    }
}

/// The label under which a provider appears in diagnostics.
pub open spec fn provider_label(p: Provider) -> Seq<char> {
    match p {
        Provider::Qwen => "Qwen"@,
        Provider::Gemini => "Gemini"@,
        Provider::Chatgpt => "ChatGPT"@,
    }
}

/// The diagnostic label of a provider.
pub fn label_str(p: Provider) -> (r: &'static str)
    ensures
        r@ == provider_label(p),
{
    match p {
        Provider::Qwen => "Qwen",
        Provider::Gemini => "Gemini",
        Provider::Chatgpt => "ChatGPT",
    }
}

/// One wire request, ready to be sent: the URL to POST to, the value of the
/// `Authorization` header when the provider takes one, the JSON body and its
/// serialized text.
pub struct WireRequest {
    pub url: String,
    pub auth_header: Option<String>,
    pub body: JsonValue,
    pub body_text: String,
}

pub open spec fn qwen_endpoint() -> Seq<char> {
    "https://dashscope.aliyuncs.com/api/v1/services/aigc/text-generation/generation"@
}

pub open spec fn chatgpt_endpoint() -> Seq<char> {
    "https://api.openai.com/v1/chat/completions"@
}

/// Gemini's endpoint embeds the model name and the API key in the URL — the
/// key travels as a query parameter, not as a header.
pub open spec fn gemini_endpoint(model: Seq<char>, key: Seq<char>) -> Seq<char> {
    "https://generativelanguage.googleapis.com/v1beta/models/"@ + model
        + ":generateContent?key="@ + key
}

/// The `Authorization` header value for the bearer-token providers.
pub open spec fn bearer_value(key: Seq<char>) -> Seq<char> {
    "Bearer "@ + key
}

/// One `{role: "user", content: prompt}` message object.
pub open spec fn is_user_message(j: JsonValue, prompt: Seq<char>) -> bool {
    &&& j matches JsonValue::Obj(ps)
    &&& ps@.len() == 2
    &&& ps@[0].0@ == "role"@
    &&& spec_text(ps@[0].1) == Some("user"@)
    &&& ps@[1].0@ == "content"@
    &&& spec_text(ps@[1].1) == Some(prompt)
}

/// Qwen's body: `{model, input: {messages: [user message]}, parameters:
/// {result_format: "message"}}`.
pub open spec fn is_qwen_body(b: JsonValue, model: Seq<char>, prompt: Seq<char>) -> bool {
    &&& b matches JsonValue::Obj(top)
    &&& top@.len() == 3
    &&& top@[0].0@ == "model"@
    &&& spec_text(top@[0].1) == Some(model)
    &&& top@[1].0@ == "input"@
    &&& (top@[1].1 matches JsonValue::Obj(input) && {
        &&& input@.len() == 1
        &&& input@[0].0@ == "messages"@
        &&& (input@[0].1 matches JsonValue::Arr(msgs) && msgs@.len() == 1 && is_user_message(
            msgs@[0],
            prompt,
        ))
    })
    &&& top@[2].0@ == "parameters"@
    &&& (top@[2].1 matches JsonValue::Obj(params) && {
        &&& params@.len() == 1
        &&& params@[0].0@ == "result_format"@
        &&& spec_text(params@[0].1) == Some("message"@)
    })
}

/// Gemini's body: `{contents: [{parts: [{text: prompt}]}]}`.
pub open spec fn is_gemini_body(b: JsonValue, prompt: Seq<char>) -> bool {
    &&& b matches JsonValue::Obj(top)
    &&& top@.len() == 1
    &&& top@[0].0@ == "contents"@
    &&& (top@[0].1 matches JsonValue::Arr(contents) && contents@.len() == 1 && (
    contents@[0] matches JsonValue::Obj(content) && {
        &&& content@.len() == 1
        &&& content@[0].0@ == "parts"@
        &&& (content@[0].1 matches JsonValue::Arr(parts) && parts@.len() == 1 && (
        parts@[0] matches JsonValue::Obj(part) && {
            &&& part@.len() == 1
            &&& part@[0].0@ == "text"@
            &&& spec_text(part@[0].1) == Some(prompt)
        }))
    }))
}

/// ChatGPT's body: `{model, messages: [user message], stream: false}` —
/// streaming is explicitly disabled.
pub open spec fn is_chatgpt_body(b: JsonValue, model: Seq<char>, prompt: Seq<char>) -> bool {
    &&& b matches JsonValue::Obj(top)
    &&& top@.len() == 3
    &&& top@[0].0@ == "model"@
    &&& spec_text(top@[0].1) == Some(model)
    &&& top@[1].0@ == "messages"@
    &&& (top@[1].1 matches JsonValue::Arr(msgs) && msgs@.len() == 1 && is_user_message(
        msgs@[0],
        prompt,
    ))
    &&& top@[2].0@ == "stream"@
    &&& top@[2].1 == JsonValue::Bool(false)
}

/// How a wire request realizes a provider's strategy for one request: the
/// provider's endpoint, its auth placement, and its exact body shape.
pub open spec fn wire_matches(p: Provider, req: AiProxyRequest, w: WireRequest) -> bool {
    match p {
        Provider::Qwen => {
            &&& w.url@ == qwen_endpoint()
            &&& (w.auth_header matches Some(h) && h@ == bearer_value(req.api_key@))
            &&& is_qwen_body(w.body, req.model@, req.prompt@)
        },
        Provider::Gemini => {
            &&& w.url@ == gemini_endpoint(req.model@, req.api_key@)
            &&& w.auth_header is None
            &&& is_gemini_body(w.body, req.prompt@)
        },
        Provider::Chatgpt => {
            &&& w.url@ == chatgpt_endpoint()
            &&& (w.auth_header matches Some(h) && h@ == bearer_value(req.api_key@))
            &&& is_chatgpt_body(w.body, req.model@, req.prompt@)
        },
    }
}

fn user_message(prompt: &String) -> (m: JsonValue)
    ensures
        is_user_message(m, prompt@),
{
    let mut pairs: Vec<(String, JsonValue)> = Vec::new();
    pairs.push(("role".to_owned(), JsonValue::Str("user".to_owned())));
    pairs.push(("content".to_owned(), JsonValue::Str(prompt.clone())));
    JsonValue::Obj(pairs)
}

fn qwen_body(model: &String, prompt: &String) -> (b: JsonValue)
    ensures
        is_qwen_body(b, model@, prompt@),
{
    let mut messages: Vec<JsonValue> = Vec::new();
    messages.push(user_message(prompt));
    let mut input: Vec<(String, JsonValue)> = Vec::new();
    input.push(("messages".to_owned(), JsonValue::Arr(messages)));
    let mut params: Vec<(String, JsonValue)> = Vec::new();
    params.push(("result_format".to_owned(), JsonValue::Str("message".to_owned())));
    let mut top: Vec<(String, JsonValue)> = Vec::new();
    top.push(("model".to_owned(), JsonValue::Str(model.clone())));
    top.push(("input".to_owned(), JsonValue::Obj(input)));
    top.push(("parameters".to_owned(), JsonValue::Obj(params)));
    JsonValue::Obj(top)
}

fn gemini_body(prompt: &String) -> (b: JsonValue)
    ensures
        is_gemini_body(b, prompt@),
{
    let mut part: Vec<(String, JsonValue)> = Vec::new();
    part.push(("text".to_owned(), JsonValue::Str(prompt.clone())));
    let mut parts: Vec<JsonValue> = Vec::new();
    parts.push(JsonValue::Obj(part));
    let mut content: Vec<(String, JsonValue)> = Vec::new();
    content.push(("parts".to_owned(), JsonValue::Arr(parts)));
    let mut contents: Vec<JsonValue> = Vec::new();
    contents.push(JsonValue::Obj(content));
    let mut top: Vec<(String, JsonValue)> = Vec::new();
    top.push(("contents".to_owned(), JsonValue::Arr(contents)));
    JsonValue::Obj(top)
}

fn chatgpt_body(model: &String, prompt: &String) -> (b: JsonValue)
    ensures
        is_chatgpt_body(b, model@, prompt@),
{
    let mut messages: Vec<JsonValue> = Vec::new();
    messages.push(user_message(prompt));
    let mut top: Vec<(String, JsonValue)> = Vec::new();
    top.push(("model".to_owned(), JsonValue::Str(model.clone())));
    top.push(("messages".to_owned(), JsonValue::Arr(messages)));
    top.push(("stream".to_owned(), JsonValue::Bool(false)));
    JsonValue::Obj(top)
}

fn gemini_request_url(model: &String, key: &String) -> (u: String)
    ensures
        u@ == gemini_endpoint(model@, key@),
{
    let mut u = "https://generativelanguage.googleapis.com/v1beta/models/".to_owned();
    u.append(model.as_str());
    u.append(":generateContent?key=");
    u.append(key.as_str());
    proof {
        assert(u@ =~= gemini_endpoint(model@, key@));
    }
    u
}

fn bearer_header(key: &String) -> (h: String)
    ensures
        h@ == bearer_value(key@),
{
    let mut h = "Bearer ".to_owned();
    h.append(key.as_str());
    h
}

/// Builds the selected provider's wire request for one caller request; the
/// body text is the body's serialized form.
pub fn build_wire_request(p: Provider, req: &AiProxyRequest) -> (w: WireRequest)
    ensures
        wire_matches(p, *req, w),
        w.body_text@ == json_text(w.body),
{
    let url: String;
    let auth_header: Option<String>;
    let body: JsonValue;
    match p {
        Provider::Qwen => {
            url =
            "https://dashscope.aliyuncs.com/api/v1/services/aigc/text-generation/generation".to_owned();
            auth_header = Some(bearer_header(&req.api_key));
            body = qwen_body(&req.model, &req.prompt);
        },
        Provider::Gemini => {
            url = gemini_request_url(&req.model, &req.api_key);
            auth_header = None;
            body = gemini_body(&req.prompt);
        },
        Provider::Chatgpt => {
            url = "https://api.openai.com/v1/chat/completions".to_owned();
            auth_header = Some(bearer_header(&req.api_key));
            body = chatgpt_body(&req.model, &req.prompt);
        },
    }
    let body_text = to_json_text(&body);
    WireRequest { url, auth_header, body, body_text }
}

// ---------------------------------------------------------------------------
// Response-content extraction.
// ---------------------------------------------------------------------------

/// Qwen's first extraction attempt: `output.choices[0].message.content`.
pub open spec fn qwen_choice_content(j: JsonValue) -> Option<Seq<char>> {
    text_of(
        member_of(
            member_of(element_of(member_of(spec_member(j, "output"@), "choices"@), 0), "message"@),
            "content"@,
        ),
    )
}

/// Qwen's fallback extraction attempt: `output.text`.
pub open spec fn qwen_fallback_content(j: JsonValue) -> Option<Seq<char>> {
    text_of(member_of(spec_member(j, "output"@), "text"@))
}

/// The content Qwen's strategy extracts: the first attempt when it yields a
/// string, else the fallback.
pub open spec fn qwen_content(j: JsonValue) -> Option<Seq<char>> {
    if qwen_choice_content(j) is Some {
        qwen_choice_content(j)
    } else {
        qwen_fallback_content(j)
    }
}

/// Gemini's parts array: `candidates[0].content.parts`, when it is an array.
pub open spec fn gemini_parts(j: JsonValue) -> Option<Seq<JsonValue>> {
    match member_of(member_of(element_of(spec_member(j, "candidates"@), 0), "content"@), "parts"@) {
        Some(JsonValue::Arr(items)) => Some(items@),
        _ => None,
    }
}

/// The text one part contributes: its `text` member when that is a string,
/// else nothing.
pub open spec fn part_text(j: JsonValue) -> Seq<char> {
    match text_of(spec_member(j, "text"@)) {
        Some(t) => t,
        None => Seq::empty(),
    }
}

/// The concatenation, in array order, of every part's text.
pub open spec fn parts_text(parts: Seq<JsonValue>) -> Seq<char>
    decreases parts.len(),
{
    if parts.len() == 0 {
        Seq::empty()
    } else {
        parts_text(parts.drop_last()) + part_text(parts.last())
    }
}

/// The content Gemini's strategy extracts: the concatenated part texts of
/// the first candidate, when the parts exist and the concatenation is not
/// empty.
pub open spec fn gemini_content(j: JsonValue) -> Option<Seq<char>> {
    match gemini_parts(j) {
        Some(parts) => if parts_text(parts).len() > 0 {
            Some(parts_text(parts))
        } else {
            None
        },
        None => None,
    }
}

/// The content ChatGPT's strategy extracts: `choices[0].message.content`.
pub open spec fn chatgpt_content(j: JsonValue) -> Option<Seq<char>> {
    text_of(
        member_of(
            member_of(element_of(spec_member(j, "choices"@), 0), "message"@),
            "content"@,
        ),
    )
}

/// The content a provider's strategy extracts from a parsed response body.
pub open spec fn provider_content(p: Provider, j: JsonValue) -> Option<Seq<char>> {
    match p {
        Provider::Qwen => qwen_content(j),
        Provider::Gemini => gemini_content(j),
        Provider::Chatgpt => chatgpt_content(j),
    }
}

/// The diagnostic a provider's strategy gives when a parsed response yields
/// no content: Gemini tells a missing parts array apart from an empty
/// concatenation; the other two have a single "no content" diagnostic.
pub open spec fn extraction_failure_message(p: Provider, j: JsonValue) -> Seq<char> {
    match p {
        Provider::Qwen => "No content in Qwen response"@,
        Provider::Gemini => if gemini_parts(j) is None {
            "No parts in Gemini response"@
        } else {
            "No content in Gemini response"@
        },
        Provider::Chatgpt => "No content in ChatGPT response"@,
    }
}

/// `member`, lifted to an optional borrowed document.
fn member_opt<'a>(o: Option<&'a JsonValue>, key: &str) -> (r: Option<&'a JsonValue>)
    ensures
        match r {
            Some(v) => member_of(deref_opt(o), key@) == Some(*v),
            None => member_of(deref_opt(o), key@) is None,
        },
{
    match o {
        Some(j) => member(j, key),
        None => None,
    }
}

/// `element`, lifted to an optional borrowed document.
fn element_opt<'a>(o: Option<&'a JsonValue>, i: usize) -> (r: Option<&'a JsonValue>)
    ensures
        match r {
            Some(v) => element_of(deref_opt(o), i as int) == Some(*v),
            None => element_of(deref_opt(o), i as int) is None,
        },
{
    match o {
        Some(j) => element(j, i),
        None => None,
    }
}

/// `text`, lifted to an optional borrowed document.
fn text_opt<'a>(o: Option<&'a JsonValue>) -> (r: Option<&'a String>)
    ensures
        match r {
            Some(s) => text_of(deref_opt(o)) == Some(s@),
            None => text_of(deref_opt(o)) is None,
        },
{
    match o {
        Some(j) => text(j),
        None => None,
    }
}

/// The document an optional borrow denotes.
pub open spec fn deref_opt(o: Option<&JsonValue>) -> Option<JsonValue> {
    match o {
        Some(j) => Some(*j),
        None => None,
    }
}

/// Extracts Qwen's content from a parsed response body, or fails with the
/// "no content" diagnostic.
pub fn extract_qwen(j: &JsonValue) -> (r: Result<String, String>)
    ensures
        match qwen_content(*j) {
            Some(t) => r matches Ok(s) && s@ == t,
            None => r matches Err(e) && e@ == "No content in Qwen response"@,
        },
{
    let output = member(j, "output");
    let choice = text_opt(
        member_opt(
            member_opt(element_opt(member_opt(output, "choices"), 0), "message"),
            "content",
        ),
    );
    match choice {
        Some(s) => Ok(s.clone()),
        None => match text_opt(member_opt(output, "text")) {
            Some(s) => Ok(s.clone()),
            None => Err("No content in Qwen response".to_owned()),
        },
    }
}

/// Extracts Gemini's content from a parsed response body: the concatenation
/// of the first candidate's part texts; fails when the parts array is
/// missing, or when the concatenation comes out empty.
pub fn extract_gemini(j: &JsonValue) -> (r: Result<String, String>)
    ensures
        match gemini_parts(*j) {
            None => r matches Err(e) && e@ == "No parts in Gemini response"@,
            Some(parts) => if parts_text(parts).len() == 0 {
                r matches Err(e) && e@ == "No content in Gemini response"@
            } else {
                r matches Ok(s) && s@ == parts_text(parts)
            },
        },
{
    let parts_value = member_opt(
        member_opt(element_opt(member(j, "candidates"), 0), "content"),
        "parts",
    );
    let items: &Vec<JsonValue> = match parts_value {
        Some(JsonValue::Arr(items)) => items,
        _ => {
            return Err("No parts in Gemini response".to_owned());
        },
    };
    let mut full_text = String::new();
    let n = items.len();
    let mut i: usize = 0;
    proof {
        assert(items@.take(0) =~= Seq::<JsonValue>::empty());
    }
    while i < n
        invariant
            n == items@.len(),
            i <= n,
            gemini_parts(*j) == Some(items@),
            full_text@ == parts_text(items@.take(i as int)),
        decreases n - i,
    {
        match text_opt(member(&items[i], "text")) {
            Some(t) => {
                full_text.append(t.as_str());
            },
            None => {},
        }
        proof {
            assert(items@.take(i as int + 1).drop_last() =~= items@.take(i as int));
            assert(items@.take(i as int + 1).last() == items@[i as int]);
            assert(full_text@ =~= parts_text(items@.take(i as int + 1)));
        }
        i = i + 1;
    }
    proof {
        assert(items@.take(n as int) =~= items@);
    }
    if full_text.as_str().is_empty() {
        Err("No content in Gemini response".to_owned())
    } else {
        Ok(full_text)
    }
}

/// Extracts ChatGPT's content from a parsed response body, or fails with the
/// "no content" diagnostic.
pub fn extract_chatgpt(j: &JsonValue) -> (r: Result<String, String>)
    ensures
        match chatgpt_content(*j) {
            Some(t) => r matches Ok(s) && s@ == t,
            None => r matches Err(e) && e@ == "No content in ChatGPT response"@,
        },
{
    let content = text_opt(
        member_opt(
            member_opt(element_opt(member(j, "choices"), 0), "message"),
            "content",
        ),
    );
    match content {
        Some(s) => Ok(s.clone()),
        None => Err("No content in ChatGPT response".to_owned()),
    }
}

/// Extracts the selected provider's content from a parsed response body; on
/// failure the diagnostic is that provider's extraction-failure message.
pub fn extract_content(p: Provider, j: &JsonValue) -> (r: Result<String, String>)
    ensures
        match provider_content(p, *j) {
            Some(t) => r matches Ok(s) && s@ == t,
            None => r matches Err(e) && e@ == extraction_failure_message(p, *j),
        },
{
    match p {
        Provider::Qwen => extract_qwen(j),
        Provider::Gemini => extract_gemini(j),
        Provider::Chatgpt => extract_chatgpt(j),
    }
}

} // verus!
