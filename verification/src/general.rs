//! Task requests: the instruction prompt that wraps a function description,
//! the retry policy around a completion call, and the decoding of an answer.

use crate::call_request::ApiError;
use crate::cli::{agent_message_views, PrintCommand, Span};
use crate::llm::{Message, MessageView, Role};
use vstd::prelude::*;

verus! {

/// The marker every instruction text opens with.
pub const PROMPT_HEAD: &'static str = "FUNCTION ";

/// What stands between the function description and the input.
pub const PROMPT_INSTRUCTION: &'static str =
    "\n    INSTRUCTION: You are a function printer. You ONLY print the results of functions with NO commentary. Here is the function input: ";

/// What closes the instruction text.
pub const PROMPT_TAIL: &'static str =
    "\n    Please print out what the function will return.\n    ";

/// The instruction text that asks for the output of the function described
/// by `template` on `input`, and for nothing else.
pub open spec fn function_prompt(template: Seq<char>, input: Seq<char>) -> Seq<char> {
    PROMPT_HEAD@ + template + PROMPT_INSTRUCTION@ + input + PROMPT_TAIL@
}

/// The message that carries the instruction text: it speaks for the system.
pub open spec fn function_message_view(template: Seq<char>, input: Seq<char>) -> MessageView {
    MessageView { role: "system"@, content: function_prompt(template, input) }
}

/// Every instruction text begins with the marker `FUNCTION`, whatever the
/// function description and the input are.
pub proof fn lemma_prompt_starts_with_marker(template: Seq<char>, input: Seq<char>)
    ensures
        function_prompt(template, input).len() >= 8,
        function_prompt(template, input).subrange(0, 8) == "FUNCTION"@,
{
    reveal_strlit("FUNCTION ");
    reveal_strlit("FUNCTION");
    assert(function_prompt(template, input).subrange(0, 8) =~= "FUNCTION"@);
}

/// Wraps a function description and its input into the system message that
/// is sent to the model.
pub fn function_message(template: &str, func_input: &str) -> (message: Message)
    ensures
        message@ == function_message_view(template@, func_input@),
        message.well_formed(),
{
    let mut content = String::from_str(PROMPT_HEAD);
    content.append(template);
    content.append(PROMPT_INSTRUCTION);
    content.append(func_input);
    content.append(PROMPT_TAIL);
    Message::new(Role::System, content)
}

/// Asks `ai_func` for the description that belongs to `func_input` and
/// wraps both into the system message that is sent to the model.
pub fn extend_ai_functions<F: Fn(&str) -> &'static str>(ai_func: F, func_input: &str) -> (message:
    Message)
    requires
        call_requires(ai_func, (func_input,)),
    ensures
        exists|template: &'static str|
            call_ensures(ai_func, (func_input,), template) && message@ == function_message_view(
                template@,
                func_input@,
            ),
{
    let ai_function_str = ai_func(func_input);
    function_message(ai_function_str, func_input)
}

/// Written before the reason when the first call of a task fails.
pub const FIRST_FAILURE_NOTICE: &'static str = "First failure to call openai | ";

/// Said when the second call of a task fails too.
pub const UNREACHABLE_NOTICE: &'static str = "Openai unreachable";

/// A task request under way: the one message it sends, and whether its
/// single retry has been spent.
#[derive(Debug)]
pub struct TaskRequest {
    pub message: Message,
    pub retried: bool,
}

/// A [`TaskRequest`] as mathematical text.
pub struct TaskRequestView {
    pub message: MessageView,
    pub retried: bool,
}

impl View for TaskRequest {
    type V = TaskRequestView;

    open spec fn view(&self) -> TaskRequestView {
        TaskRequestView { message: self.message@, retried: self.retried }
    }
}

/// What to do after a completion call has come back.
#[derive(Debug)]
pub enum TaskStep {
    /// The task is done: this is its answer.
    Finished(String),
    /// The call failed for the given reason: report it and call once more
    /// with the request handed back.
    Retry(TaskRequest, ApiError),
    /// The retry failed too, for the given reason: give up for good.
    Failed(ApiError),
}

/// A [`TaskStep`] as mathematical text.
pub enum TaskStepView {
    Finished(Seq<char>),
    Retry(TaskRequestView, ApiError),
    Failed(ApiError),
}

impl View for TaskStep {
    type V = TaskStepView;

    open spec fn view(&self) -> TaskStepView {
        match self {
            TaskStep::Finished(text) => TaskStepView::Finished(text@),
            TaskStep::Retry(request, error) => TaskStepView::Retry(request@, *error),
            TaskStep::Failed(error) => TaskStepView::Failed(*error),
        }
    }
}

/// The retry policy: an answer ends the task; a failure is retried once,
/// with the same message and whatever the failure was; a second failure is
/// final.
pub open spec fn task_step(request: TaskRequestView, outcome: Result<Seq<char>, ApiError>)
    -> TaskStepView {
    match outcome {
        Ok(text) => TaskStepView::Finished(text),
        Err(error) => if request.retried {
            TaskStepView::Failed(error)
        } else {
            TaskStepView::Retry(
                TaskRequestView { message: request.message, retried: true },
                error,
            )
        },
    }
}

/// The result of a whole task, given what its first call brings and what a
/// second call would bring.
pub open spec fn task_result(
    first: Result<Seq<char>, ApiError>,
    second: Result<Seq<char>, ApiError>,
) -> Result<Seq<char>, ApiError> {
    match first {
        Ok(text) => Ok(text),
        Err(_) => second,
    }
}

/// A fresh task makes at most two calls, both with the same message, and
/// ends with the first answer it gets: when the first call fails, the task
/// ends as the second call does.
pub proof fn lemma_retry_once(
    request: TaskRequestView,
    first: Result<Seq<char>, ApiError>,
    second: Result<Seq<char>, ApiError>,
)
    requires
        !request.retried,
    ensures
        match task_step(request, first) {
            TaskStepView::Finished(text) => task_result(first, second) == Ok::<
                Seq<char>,
                ApiError,
            >(text),
            TaskStepView::Retry(again, reason) => {
                &&& first == Err::<Seq<char>, ApiError>(reason)
                &&& again.message == request.message
                &&& match task_step(again, second) {
                    TaskStepView::Finished(text) => task_result(first, second) == Ok::<
                        Seq<char>,
                        ApiError,
                    >(text),
                    TaskStepView::Retry(_, _) => false,
                    TaskStepView::Failed(error) => task_result(first, second) == Err::<
                        Seq<char>,
                        ApiError,
                    >(error),
                }
            },
            TaskStepView::Failed(_) => false,
        },
{
}

impl TaskRequest {
    /// The messages of the completion call: the one system message.
    pub fn messages(&self) -> (messages: Vec<Message>)
        ensures
            messages.deep_view() == seq![self.message@],
    {
        let mut messages: Vec<Message> = Vec::new();
        messages.push(self.message.clone());
        assert(messages.deep_view() =~= seq![self.message@]);
        messages
    }

    /// Decides how the task goes on after a completion call came back with
    /// `outcome`.
    pub fn settle(self, outcome: Result<String, ApiError>) -> (step: TaskStep)
        ensures
            step@ == task_step(
                self@,
                match outcome {
                    Ok(text) => Ok(text@),
                    Err(error) => Err(error),
                },
            ),
            step matches TaskStep::Retry(again, _) ==> again.message == self.message,
    {
        match outcome {
            Ok(text) => TaskStep::Finished(text),
            Err(error) => if self.retried {
                TaskStep::Failed(error)
            } else {
                TaskStep::Retry(TaskRequest { message: self.message, retried: true }, error)
            },
        }
    }
}

/// Opens a task: builds the system message for `msg_context` with the
/// description that `function_pass` gives for it, and lays out the status
/// line that announces the call.
pub fn ai_task_begin<F: Fn(&str) -> &'static str>(
    msg_context: &str,
    agent_position: &str,
    agent_operation: &str,
    function_pass: F,
) -> (begun: (TaskRequest, Vec<Span>))
    requires
        call_requires(function_pass, (msg_context,)),
    ensures
        !begun.0.retried,
        exists|template: &'static str|
            call_ensures(function_pass, (msg_context,), template) && begun.0.message@
                == function_message_view(template@, msg_context@),
        begun.1.deep_view() == agent_message_views(
            PrintCommand::AICall,
            agent_position@,
            agent_operation@,
        ),
{
    let extended_msg = extend_ai_functions(function_pass, msg_context);
    let status = PrintCommand::AICall.agent_message(agent_position, agent_operation);
    (TaskRequest { message: extended_msg, retried: false }, status)
}

/// Trusted: `serde_json::Value`, a decoded JSON document. The library hands
/// it through and looks at nothing in it.
#[verifier::external_type_specification]
#[verifier::external_body]
pub struct ExJsonValue(serde_json::Value);

/// Trusted: `serde_json::Error`, the account of a text that could not be
/// decoded. The library hands it through and looks at nothing in it.
#[verifier::external_type_specification]
#[verifier::external_body]
pub struct ExJsonError(serde_json::Error);

/// Trusted: what `serde_json::from_str`, at the document type
/// `serde_json::Value`, makes of `text`: the document it decodes, or its
/// account of why the text is no document. Only the text decides that.
pub uninterp spec fn json_decoding(text: Seq<char>) -> Result<
    serde_json::Value,
    serde_json::Error,
>;

/// Whether `text` is one JSON document.
pub open spec fn json_decodes(text: Seq<char>) -> bool {
    json_decoding(text) is Ok
}

/// Trusted: `serde_json::from_str` at the document type `serde_json::Value`.
/// What it returns depends on the whole text and on nothing else; nothing
/// more is claimed of the document or of the error.
#[verifier::external_body]
fn parse_json(text: &str) -> (parsed: Result<serde_json::Value, serde_json::Error>)
    ensures
        parsed == json_decoding(text@),
{
    serde_json::from_str::<serde_json::Value>(text)
}

/// An answer that is not a JSON document.
#[derive(Debug)]
pub struct DecodeError {
    /// What the JSON library found wrong.
    pub cause: serde_json::Error,
}

/// What a decoding attempt comes to: the document as it was decoded, or
/// the failure with its cause.
pub open spec fn decoded_outcome(parsed: Result<serde_json::Value, serde_json::Error>) -> Result<
    serde_json::Value,
    DecodeError,
> {
    match parsed {
        Ok(document) => Ok(document),
        Err(cause) => Err(DecodeError { cause }),
    }
}

/// Settles a decoding attempt: the document as it was decoded, or the
/// failure with its cause. A failure never turns into a document.
pub fn decode_outcome(parsed: Result<serde_json::Value, serde_json::Error>) -> (decoded: Result<
    serde_json::Value,
    DecodeError,
>)
    ensures
        decoded == decoded_outcome(parsed),
{
    match parsed {
        Ok(document) => Ok(document),
        Err(cause) => Err(DecodeError { cause }),
    }
}

/// Decodes the answer of a task as a JSON document: the document that the
/// JSON library gives for the whole of `raw`, or its refusal of `raw`.
pub fn ai_task_decode(raw: &str) -> (decoded: Result<serde_json::Value, DecodeError>)
    ensures
        decoded == decoded_outcome(json_decoding(raw@)),
        decoded is Ok == json_decodes(raw@),
{
    decode_outcome(parse_json(raw))
}

} // verus!
