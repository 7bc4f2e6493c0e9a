use auto_gpt::call_request::{
    bearer_token, completion_call, completion_request, completion_result, first_choice,
    gpt_models, request_headers, ApiError, Method, Reply, API_KEY_VARIABLE, AUTHORIZATION,
    COMPLETION_URL, CONTENT_TYPE, JSON_CONTENT, TEMPERATURE_MILLI,
};
use auto_gpt::llm::{APIChoice, APIResponse, Message, Role};

fn envelope(contents: &[&str]) -> APIResponse {
    APIResponse {
        choices: contents
            .iter()
            .map(|content| APIChoice {
                message: Message::new(Role::Assistant, content.to_string()),
            })
            .collect(),
    }
}

fn user_message() -> Message {
    Message {
        role: "user".to_string(),
        content: "This is a test please give me short response".to_string(),
    }
}

#[test]
fn constants_name_the_endpoint_and_the_key() {
    assert_eq!(COMPLETION_URL, "https://api.openai.com/v1/chat/completions");
    assert_eq!(API_KEY_VARIABLE, "OPEN_AI_KEY");
    assert_eq!(TEMPERATURE_MILLI, 100);
    assert_eq!(AUTHORIZATION, "authorization");
    assert_eq!(CONTENT_TYPE, "content-type");
    assert_eq!(JSON_CONTENT, "application/json");
}

#[test]
fn bearer_token_prefixes_the_key() {
    assert_eq!(bearer_token("sk-123"), "Bearer sk-123");
    assert_eq!(bearer_token(""), "Bearer ");
}

#[test]
fn headers_carry_authorization_then_content_type() {
    let headers = request_headers("sk-123").expect("a plain key is accepted");
    assert_eq!(headers.len(), 2);
    assert_eq!(headers[0].name, "authorization");
    assert_eq!(headers[0].value, "Bearer sk-123");
    assert_eq!(headers[1].name, "content-type");
    assert_eq!(headers[1].value, "application/json");
    assert_eq!(headers.iter().filter(|h| h.name == AUTHORIZATION).count(), 1);
    assert_eq!(headers.iter().filter(|h| h.name == CONTENT_TYPE).count(), 1);
}

#[test]
fn headers_agree_with_the_http_library() {
    let headers = request_headers("sk-123").expect("a plain key is accepted");
    for header in headers.iter() {
        let value = reqwest::header::HeaderValue::from_str(&header.value).expect("valid value");
        assert_eq!(value.to_str().ok(), Some(header.value.as_str()));
        assert!(reqwest::header::HeaderName::from_bytes(header.name.as_bytes()).is_ok());
    }
}

#[test]
fn header_names_are_those_of_the_http_library() {
    assert_eq!(AUTHORIZATION, reqwest::header::AUTHORIZATION.as_str());
    assert_eq!(CONTENT_TYPE, reqwest::header::CONTENT_TYPE.as_str());
    let headers = request_headers("sk-123").expect("a plain key is accepted");
    assert_eq!(headers[0].name, reqwest::header::AUTHORIZATION.as_str());
    assert_eq!(headers[1].name, reqwest::header::CONTENT_TYPE.as_str());
}

#[test]
fn key_with_a_line_break_is_refused() {
    assert_eq!(request_headers("sk-1\n23").err(), Some(ApiError::InvalidHeader));
    assert_eq!(request_headers("sk-123\r\n").err(), Some(ApiError::InvalidHeader));
}

#[test]
fn key_with_a_control_character_is_refused() {
    assert_eq!(request_headers("\u{0}").err(), Some(ApiError::InvalidHeader));
    assert_eq!(request_headers("a\u{1f}b").err(), Some(ApiError::InvalidHeader));
    assert_eq!(request_headers("a\u{7f}b").err(), Some(ApiError::InvalidHeader));
}

#[test]
fn key_with_a_tab_or_beyond_ascii_is_accepted() {
    assert!(request_headers("a\tb").is_ok());
    assert!(request_headers("cl\u{e9}").is_ok());
    assert!(request_headers("\u{80}").is_ok());
    assert!(request_headers("~ ").is_ok());
    assert!(request_headers("").is_ok());
}

#[test]
fn models_are_listed_in_order() {
    assert_eq!(gpt_models(), vec!["gpt-3.5-turbo", "gpt-4"]);
}

#[test]
fn request_takes_the_first_model_and_keeps_the_messages() {
    let request = completion_request(vec![user_message(), Message::new(Role::System, "s".to_string())]);
    assert_eq!(request.model, "gpt-3.5-turbo");
    assert_eq!(request.temperature_milli, 100);
    assert_eq!(request.messages.len(), 2);
    assert_eq!(request.messages[0].role, "user");
    assert_eq!(request.messages[0].content, "This is a test please give me short response");
    assert_eq!(request.messages[1].role, "system");
    assert_eq!(request.messages[1].content, "s");
}

#[test]
fn call_is_a_post_to_the_endpoint() {
    let call = completion_call("sk-123", vec![user_message()]).expect("a plain key is accepted");
    assert_eq!(call.method, Method::Post);
    assert_eq!(call.url, "https://api.openai.com/v1/chat/completions");
    assert_eq!(call.headers.len(), 2);
    assert_eq!(call.headers[0].value, "Bearer sk-123");
    assert_eq!(call.body.model, "gpt-3.5-turbo");
    assert_eq!(call.body.messages.len(), 1);
    assert_eq!(call.body.messages[0].content, "This is a test please give me short response");
}

#[test]
fn call_with_a_bad_key_is_refused() {
    let call = completion_call("bad\nkey", vec![user_message()]);
    assert_eq!(call.err(), Some(ApiError::InvalidHeader));
}

#[test]
fn first_choice_is_returned_verbatim() {
    let response = envelope(&["  Hello,\n world \u{1F600}\t", "second"]);
    assert_eq!(first_choice(&response), Ok("  Hello,\n world \u{1F600}\t".to_string()));
}

#[test]
fn first_choice_may_be_empty_text() {
    let response = envelope(&[""]);
    assert_eq!(first_choice(&response), Ok(String::new()));
}

#[test]
fn envelope_without_choices_is_a_decode_error() {
    let response = envelope(&[]);
    assert_eq!(first_choice(&response), Err(ApiError::Decode));
    assert_eq!(completion_result(Reply::Decoded(envelope(&[]))), Err(ApiError::Decode));
}

#[test]
fn reply_outcomes_map_to_their_errors() {
    assert_eq!(completion_result(Reply::Unreachable), Err(ApiError::Transport));
    assert_eq!(completion_result(Reply::Undecodable), Err(ApiError::Decode));
    assert_eq!(
        completion_result(Reply::Decoded(envelope(&["answer", "other"]))),
        Ok("answer".to_string())
    );
}
