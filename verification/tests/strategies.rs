use ai_proxy::json::JsonValue;
use ai_proxy::strategy::{
    extract_chatgpt, extract_gemini, extract_qwen, provider_of_name, Provider,
};
use ai_proxy::text::u16_decimal;

fn s(text: &str) -> String {
    text.to_string()
}

fn obj(pairs: Vec<(&str, JsonValue)>) -> JsonValue {
    JsonValue::Obj(pairs.into_iter().map(|(k, v)| (s(k), v)).collect())
}

fn qwen_choice_response(content: &str) -> JsonValue {
    obj(vec![(
        "output",
        obj(vec![(
            "choices",
            JsonValue::Arr(vec![obj(vec![(
                "message",
                obj(vec![("content", JsonValue::Str(s(content)))]),
            )])]),
        )]),
    )])
}

fn gemini_response(parts: Vec<JsonValue>) -> JsonValue {
    obj(vec![(
        "candidates",
        JsonValue::Arr(vec![obj(vec![(
            "content",
            obj(vec![("parts", JsonValue::Arr(parts))]),
        )])]),
    )])
}

#[test]
fn provider_names_select_exactly() {
    assert_eq!(provider_of_name("qwen"), Some(Provider::Qwen));
    assert_eq!(provider_of_name("gemini"), Some(Provider::Gemini));
    assert_eq!(provider_of_name("chatgpt"), Some(Provider::Chatgpt));
    assert_eq!(provider_of_name("llama"), None);
    assert_eq!(provider_of_name("Qwen"), None);
    assert_eq!(provider_of_name(""), None);
}

#[test]
fn qwen_extracts_choice_content() {
    let doc = qwen_choice_response("hi");
    assert_eq!(extract_qwen(&doc), Ok(s("hi")));
}

#[test]
fn qwen_falls_back_to_output_text() {
    let doc = obj(vec![("output", obj(vec![("text", JsonValue::Str(s("hi2")))]))]);
    assert_eq!(extract_qwen(&doc), Ok(s("hi2")));
}

#[test]
fn qwen_prefers_choice_content_over_fallback() {
    let doc = obj(vec![(
        "output",
        obj(vec![
            (
                "choices",
                JsonValue::Arr(vec![obj(vec![(
                    "message",
                    obj(vec![("content", JsonValue::Str(s("first")))]),
                )])]),
            ),
            ("text", JsonValue::Str(s("second"))),
        ]),
    )]);
    assert_eq!(extract_qwen(&doc), Ok(s("first")));
}

#[test]
fn qwen_without_either_path_reports_no_content() {
    let doc = obj(vec![("output", obj(vec![("status", JsonValue::Str(s("done")))]))]);
    assert_eq!(extract_qwen(&doc), Err(s("No content in Qwen response")));
}

#[test]
fn qwen_non_string_content_reports_no_content() {
    let doc = obj(vec![("output", obj(vec![("text", JsonValue::Other)]))]);
    assert_eq!(extract_qwen(&doc), Err(s("No content in Qwen response")));
}

#[test]
fn gemini_concatenates_part_texts_in_order() {
    let doc = gemini_response(vec![
        obj(vec![("text", JsonValue::Str(s("a")))]),
        obj(vec![("text", JsonValue::Str(s("b")))]),
    ]);
    assert_eq!(extract_gemini(&doc), Ok(s("ab")));
}

#[test]
fn gemini_skips_parts_without_text() {
    let doc = gemini_response(vec![
        obj(vec![("text", JsonValue::Str(s("a")))]),
        obj(vec![("inlineData", JsonValue::Other)]),
        obj(vec![("text", JsonValue::Str(s("b")))]),
    ]);
    assert_eq!(extract_gemini(&doc), Ok(s("ab")));
}

#[test]
fn gemini_empty_parts_reports_no_content() {
    let doc = gemini_response(vec![]);
    assert_eq!(extract_gemini(&doc), Err(s("No content in Gemini response")));
}

#[test]
fn gemini_missing_parts_reports_no_parts() {
    let doc = obj(vec![("candidates", JsonValue::Arr(vec![obj(vec![])]))]);
    assert_eq!(extract_gemini(&doc), Err(s("No parts in Gemini response")));
}

#[test]
fn chatgpt_extracts_choice_content() {
    let doc = obj(vec![(
        "choices",
        JsonValue::Arr(vec![obj(vec![(
            "message",
            obj(vec![("content", JsonValue::Str(s("ok")))]),
        )])]),
    )]);
    assert_eq!(extract_chatgpt(&doc), Ok(s("ok")));
}

#[test]
fn chatgpt_missing_content_reports_no_content() {
    let doc = obj(vec![("choices", JsonValue::Arr(vec![]))]);
    assert_eq!(extract_chatgpt(&doc), Err(s("No content in ChatGPT response")));
}

#[test]
fn status_codes_render_in_decimal() {
    assert_eq!(u16_decimal(0), s("0"));
    assert_eq!(u16_decimal(7), s("7"));
    assert_eq!(u16_decimal(10), s("10"));
    assert_eq!(u16_decimal(401), s("401"));
    assert_eq!(u16_decimal(65535), s("65535"));
}
