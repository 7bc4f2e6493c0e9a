use auto_gpt::call_request::ApiError;
use auto_gpt::cli::Color;
use auto_gpt::general::{
    ai_task_begin, ai_task_decode, decode_outcome, extend_ai_functions, function_message,
    TaskRequest, TaskStep, FIRST_FAILURE_NOTICE, UNREACHABLE_NOTICE,
};
use auto_gpt::llm::Message;
use std::cell::Cell;

fn convert_user_input_to_goal(_user_request: &str) -> &'static str {
    "fn convert_user_input_to_goal(_user_request: &str) {\n    /// Input: Takes in a user request\n    /// Function: Converts user request into a short summarized goal\n    /// Output: Prints goal. All outputs start with \"build a website that ...\"\n    println!(OUTPUT)\n}"
}

fn echo_input(_input: &str) -> &'static str {
    "fn f()"
}

fn run_task<T: Fn(&Vec<Message>) -> Result<String, ApiError>>(
    context: &str,
    transport: T,
) -> (Result<String, ApiError>, usize) {
    let (mut request, _status) =
        ai_task_begin(context, "Managing Agent", "Defining user requirements", echo_input);
    let mut calls = 0;
    loop {
        let outcome = transport(&request.messages());
        calls += 1;
        match request.settle(outcome) {
            TaskStep::Finished(text) => return (Ok(text), calls),
            TaskStep::Retry(again, _reason) => request = again,
            TaskStep::Failed(error) => return (Err(error), calls),
        }
    }
}

#[test]
fn test_extending_ai_function() {
    let message = extend_ai_functions(convert_user_input_to_goal, "dummy variable");

    assert_eq!(message.role, "system".to_string());
    assert_eq!(message.content.starts_with("FUNCTION"), true)
}

#[test]
fn extended_message_has_the_exact_text() {
    let message = extend_ai_functions(echo_input, "dummy variable");
    assert_eq!(
        message.content,
        "FUNCTION fn f()\n    INSTRUCTION: You are a function printer. You ONLY print the results of functions with NO commentary. Here is the function input: dummy variable\n    Please print out what the function will return.\n    "
    );
}

#[test]
fn function_message_wraps_empty_parts() {
    let message = function_message("", "");
    assert_eq!(message.role, "system");
    assert_eq!(
        message.content,
        "FUNCTION \n    INSTRUCTION: You are a function printer. You ONLY print the results of functions with NO commentary. Here is the function input: \n    Please print out what the function will return.\n    "
    );
}

#[test]
fn function_message_keeps_unicode_input() {
    let message = function_message("fn g()", "caf\u{e9} \u{1F600}");
    assert!(message.content.starts_with("FUNCTION fn g()\n    INSTRUCTION: "));
    assert!(message.content.contains("function input: caf\u{e9} \u{1F600}\n    Please"));
}

#[test]
fn task_begins_with_one_system_message_and_a_status_line() {
    let (request, status) = ai_task_begin(
        "Build me a webserver for making stock price api requests.",
        "Managing Agent",
        "Defining user requirements",
        convert_user_input_to_goal,
    );
    assert!(!request.retried);
    let messages = request.messages();
    assert_eq!(messages.len(), 1);
    assert_eq!(messages[0].role, "system");
    assert!(messages[0].content.starts_with("FUNCTION fn convert_user_input_to_goal"));
    assert!(messages[0]
        .content
        .contains("Build me a webserver for making stock price api requests."));
    assert_eq!(status.len(), 2);
    assert_eq!(status[0].color, Color::Green);
    assert_eq!(status[0].text, "Agent: Managing Agent: ");
    assert_eq!(status[1].color, Color::Cyan);
    assert_eq!(status[1].text, "Defining user requirements\n");
}

#[test]
fn task_returns_the_first_answer_without_a_retry() {
    let (result, calls) = run_task("ctx", |_messages| Ok("first".to_string()));
    assert_eq!(result, Ok("first".to_string()));
    assert_eq!(calls, 1);
}

#[test]
fn task_retries_once_after_a_transport_failure() {
    let seen = Cell::new(0);
    let (result, calls) = run_task("ctx", |messages| {
        assert_eq!(messages.len(), 1);
        assert_eq!(messages[0].role, "system");
        seen.set(seen.get() + 1);
        if seen.get() == 1 {
            Err(ApiError::Transport)
        } else {
            Ok("the success payload".to_string())
        }
    });
    assert_eq!(result, Ok("the success payload".to_string()));
    assert_eq!(calls, 2);
}

#[test]
fn task_retry_sends_the_identical_message() {
    let (request, _status) = ai_task_begin("ctx", "Agent", "Working", echo_input);
    let before = request.messages();
    match request.settle(Err(ApiError::Decode)) {
        TaskStep::Retry(again, reason) => {
            assert_eq!(reason, ApiError::Decode);
            assert!(again.retried);
            let after = again.messages();
            assert_eq!(after.len(), 1);
            assert_eq!(after[0].role, before[0].role);
            assert_eq!(after[0].content, before[0].content);
        }
        other => panic!("expected a retry, got {:?}", other),
    }
}

#[test]
fn task_gives_up_after_the_second_failure() {
    let (result, calls) = run_task("ctx", |_messages| Err(ApiError::Transport));
    assert_eq!(result, Err(ApiError::Transport));
    assert_eq!(calls, 2);
}

#[test]
fn task_reports_the_reason_of_the_second_failure() {
    let seen = Cell::new(0);
    let (result, calls) = run_task("ctx", |_messages| {
        seen.set(seen.get() + 1);
        if seen.get() == 1 {
            Err(ApiError::Transport)
        } else {
            Err(ApiError::Decode)
        }
    });
    assert_eq!(result, Err(ApiError::Decode));
    assert_eq!(calls, 2);
}

#[test]
fn settled_retry_accepts_an_answer() {
    let request = TaskRequest { message: function_message("t", "i"), retried: true };
    match request.settle(Ok("done".to_string())) {
        TaskStep::Finished(text) => assert_eq!(text, "done"),
        other => panic!("expected an answer, got {:?}", other),
    }
}

#[test]
fn notices_have_their_wording() {
    assert_eq!(FIRST_FAILURE_NOTICE, "First failure to call openai | ");
    assert_eq!(UNREACHABLE_NOTICE, "Openai unreachable");
}

#[test]
fn decoder_reads_a_field() {
    let decoded = ai_task_decode("{\"a\":1}").expect("a JSON document");
    assert_eq!(decoded.get("a").and_then(|a| a.as_i64()), Some(1));
    assert_eq!(decoded.as_object().map(|fields| fields.len()), Some(1));
}

#[test]
fn decoder_fails_on_a_truncated_document() {
    let decoded = ai_task_decode("{\"a\":");
    assert!(decoded.is_err());
}

#[test]
fn decoder_fails_on_empty_and_trailing_text() {
    assert!(ai_task_decode("").is_err());
    assert!(ai_task_decode("{\"a\":1} x").is_err());
    assert!(ai_task_decode("not json").is_err());
}

#[test]
fn decoder_reads_other_shapes() {
    let list = ai_task_decode(" [1, \"two\", null] ").expect("a JSON document");
    assert_eq!(list.as_array().map(|items| items.len()), Some(3));
    assert_eq!(list.get(1).and_then(|item| item.as_str()), Some("two"));
    let text = ai_task_decode("\"plain\"").expect("a JSON document");
    assert_eq!(text.as_str(), Some("plain"));
}

#[test]
fn decoder_gives_the_document_of_the_whole_text() {
    let text = "{\"a\":1,\"b\":[true,null,\"x\"],\"c\":{\"d\":-2}}";
    let decoded = ai_task_decode(text).expect("a JSON document");
    let expected = serde_json::from_str::<serde_json::Value>(text).expect("a JSON document");
    assert_eq!(decoded, expected);
    assert_eq!(decoded.get("c").and_then(|c| c.get("d")).and_then(|d| d.as_i64()), Some(-2));
    assert_eq!(ai_task_decode(text).ok(), Some(expected));
    assert_ne!(ai_task_decode("{\"a\":2}").ok(), ai_task_decode("{\"a\":1}").ok());
    assert_ne!(ai_task_decode("null").ok(), ai_task_decode("{\"a\":1}").ok());
}

#[test]
fn decoder_keeps_the_cause_of_a_refusal() {
    let refusal = ai_task_decode("{\"a\":").expect_err("a truncated document");
    let expected = serde_json::from_str::<serde_json::Value>("{\"a\":").unwrap_err();
    assert_eq!(refusal.cause.line(), expected.line());
    assert_eq!(refusal.cause.column(), expected.column());
    assert_eq!(refusal.cause.to_string(), expected.to_string());
    assert!(refusal.cause.is_eof());
}

#[test]
fn decode_outcome_keeps_the_cause() {
    let cause = serde_json::from_str::<serde_json::Value>("{").unwrap_err();
    let line = cause.line();
    let column = cause.column();
    match decode_outcome(Err(cause)) {
        Err(error) => {
            assert_eq!(error.cause.line(), line);
            assert_eq!(error.cause.column(), column);
            assert!(error.cause.is_eof());
        }
        Ok(document) => panic!("expected a failure, got {:?}", document),
    }
    let document = serde_json::Value::Bool(true);
    assert_eq!(decode_outcome(Ok(document)).ok(), Some(serde_json::Value::Bool(true)));
}
