//! The completion client without its network: what is sent to the endpoint
//! and what is made of the reply.

use crate::llm::{APIResponse, ChatCompletion, ChatCompletionView, Message};
use vstd::prelude::*;
use vstd::utf8::{encode_scalar, encode_utf8};

verus! {

/// Where completion requests are posted.
pub const COMPLETION_URL: &'static str = "https://api.openai.com/v1/chat/completions";

/// The environment variable that holds the API key.
pub const API_KEY_VARIABLE: &'static str = "OPEN_AI_KEY";

/// Sampling temperature of every request, in thousandths: 0.1.
pub const TEMPERATURE_MILLI: u32 = 100;

/// The name of the header that carries the bearer token.
pub const AUTHORIZATION: &'static str = "authorization";

/// The name of the header that declares the body's format.
pub const CONTENT_TYPE: &'static str = "content-type";

/// The format of every request body.
pub const JSON_CONTENT: &'static str = "application/json";

/// Why a completion call gave no answer.
#[derive(Clone, Copy, Debug, PartialEq, Eq, Structural)]
pub enum ApiError {
    /// The API key cannot be written into a header.
    InvalidHeader,
    /// The request did not reach the endpoint or no response came back.
    Transport,
    /// The response body is not a completion envelope with a first choice.
    Decode,
}

/// One request header.
#[derive(Debug)]
pub struct Header {
    pub name: String,
    pub value: String,
}

/// A [`Header`] as mathematical text.
pub struct HeaderView {
    pub name: Seq<char>,
    pub value: Seq<char>,
}

impl View for Header {
    type V = HeaderView;

    open spec fn view(&self) -> HeaderView {
        HeaderView { name: self.name@, value: self.value@ }
    }
}

impl DeepView for Header {
    type V = HeaderView;

    open spec fn deep_view(&self) -> HeaderView {
        self@
    }
}

/// A byte that may stand in a header value: anything but the control
/// characters, with the tab allowed.
pub open spec fn header_byte_ok(b: u8) -> bool {
    (b >= 32 && b != 127) || b == 9
}

/// Every byte of the UTF-8 form of `text` may stand in a header value.
pub open spec fn header_value_ok(text: Seq<char>) -> bool {
    forall|i: int| 0 <= i < encode_utf8(text).len() ==> header_byte_ok(#[trigger] encode_utf8(text)[i])
}

/// The same condition, character by character.
pub open spec fn header_char_ok(c: char) -> bool {
    (c as u32 >= 32 && c as u32 != 127) || c as u32 == 9
}

/// Trusted: `reqwest::header::HeaderValue::from_str`, asked only whether it
/// accepts `value`. It walks the bytes of the string and refuses it at the
/// first byte that is below 32 and not the tab, or that is 127; any other
/// string it accepts.
#[verifier::external_body]
fn header_value_accepts(value: &str) -> (accepted: bool)
    ensures
        accepted == header_value_ok(value@),
{
    reqwest::header::HeaderValue::from_str(value).is_ok()
}

proof fn lemma_low_scalar_byte(v: u32)
    by (bit_vector)
    requires
        v <= 0x7F,
    ensures
        (v & 0x7F) as u8 == v,
{
}

proof fn lemma_high_bytes(y: u8)
    by (bit_vector)
    ensures
        0x80u8 | y >= 0x80,
        0xC0u8 | y >= 0x80,
        0xE0u8 | y >= 0x80,
        0xF0u8 | y >= 0x80,
{
}

/// The bytes that encode one character are all allowed exactly when the
/// character is.
proof fn lemma_scalar_bytes(c: char)
    ensures
        encode_scalar(c as u32).len() >= 1,
        header_char_ok(c) <==> forall|i: int|
            0 <= i < encode_scalar(c as u32).len() ==> header_byte_ok(
                #[trigger] encode_scalar(c as u32)[i],
            ),
{
    let v = c as u32;
    let bytes = encode_scalar(v);
    if v <= 0x7F {
        lemma_low_scalar_byte(v);
        assert(bytes[0] == v);
    } else {
        lemma_high_bytes(((v >> 6) & 0x1F) as u8);
        lemma_high_bytes(((v >> 12) & 0x0F) as u8);
        lemma_high_bytes(((v >> 18) & 0x7) as u8);
        lemma_high_bytes((v & 0x3F) as u8);
        lemma_high_bytes(((v >> 6) & 0x3F) as u8);
        lemma_high_bytes(((v >> 12) & 0x3F) as u8);
        assert forall|i: int| 0 <= i < bytes.len() implies header_byte_ok(#[trigger] bytes[i]) by {
            assert(bytes[i] >= 0x80);
        }
    }
}

/// A text may stand in a header value exactly when each of its characters
/// may: characters outside ASCII always, ASCII ones unless they are control
/// characters other than the tab.
pub proof fn lemma_header_value_by_chars(text: Seq<char>)
    ensures
        header_value_ok(text) <==> forall|i: int|
            0 <= i < text.len() ==> header_char_ok(#[trigger] text[i]),
    decreases text.len(),
{
    if text.len() > 0 {
        let head = encode_scalar(text[0] as u32);
        let rest = text.drop_first();
        let tail = encode_utf8(rest);
        let bytes = encode_utf8(text);
        assert(bytes == head + tail);
        lemma_scalar_bytes(text[0]);
        lemma_header_value_by_chars(rest);
        if header_value_ok(text) {
            assert forall|i: int| 0 <= i < head.len() implies header_byte_ok(#[trigger] head[i]) by {
                assert(bytes[i] == head[i]);
            }
            assert forall|i: int| 0 <= i < tail.len() implies header_byte_ok(#[trigger] tail[i]) by {
                assert(bytes[head.len() + i] == tail[i]);
            }
            assert forall|i: int| 0 <= i < text.len() implies header_char_ok(#[trigger] text[i]) by {
                if i > 0 {
                    assert(rest[i - 1] == text[i]);
                }
            }
        }
        if forall|i: int| 0 <= i < text.len() ==> header_char_ok(#[trigger] text[i]) {
            assert(header_char_ok(text[0]));
            assert forall|i: int| 0 <= i < rest.len() implies header_char_ok(#[trigger] rest[i]) by {
                assert(rest[i] == text[i + 1]);
            }
            assert forall|i: int| 0 <= i < bytes.len() implies header_byte_ok(#[trigger] bytes[i]) by {
                if i < head.len() {
                    assert(bytes[i] == head[i]);
                } else {
                    assert(bytes[i] == tail[i - head.len()]);
                }
            }
        }
    }
}

/// The authorization value that carries `key`.
pub open spec fn bearer_text(key: Seq<char>) -> Seq<char> {
    "Bearer "@ + key
}

/// Builds the authorization value for `api_key`.
pub fn bearer_token(api_key: &str) -> (token: String)
    ensures
        token@ == bearer_text(api_key@),
{
    let mut token = String::from_str("Bearer ");
    token.append(api_key);
    token
}

/// The two headers of a completion request made with `key`, in the order
/// they are set.
pub open spec fn request_header_views(key: Seq<char>) -> Seq<HeaderView> {
    seq![
        HeaderView { name: AUTHORIZATION@, value: bearer_text(key) },
        HeaderView { name: CONTENT_TYPE@, value: JSON_CONTENT@ },
    ]
}

/// How many of `headers` are named `name`.
pub open spec fn count_named(headers: Seq<HeaderView>, name: Seq<char>) -> nat
    decreases headers.len(),
{
    if headers.len() == 0 {
        0
    } else {
        count_named(headers.drop_last(), name) + if headers.last().name == name {
            1nat
        } else {
            0nat
        }
    }
}

/// The content type of every request may stand in a header as it is.
pub proof fn lemma_json_content_ok()
    ensures
        header_value_ok(JSON_CONTENT@),
{
    reveal_strlit("application/json");
    lemma_header_value_by_chars(JSON_CONTENT@);
}

/// A key is accepted exactly when each of its characters may stand in a
/// header value: the fixed prefix never stands in the way.
pub proof fn lemma_bearer_ok_by_key(key: Seq<char>)
    ensures
        header_value_ok(bearer_text(key)) <==> forall|i: int|
            0 <= i < key.len() ==> header_char_ok(#[trigger] key[i]),
{
    reveal_strlit("Bearer ");
    let prefix = "Bearer "@;
    let token = bearer_text(key);
    lemma_header_value_by_chars(token);
    if forall|i: int| 0 <= i < token.len() ==> header_char_ok(#[trigger] token[i]) {
        assert forall|i: int| 0 <= i < key.len() implies header_char_ok(#[trigger] key[i]) by {
            assert(token[prefix.len() + i] == key[i]);
        }
    }
    if forall|i: int| 0 <= i < key.len() ==> header_char_ok(#[trigger] key[i]) {
        assert forall|i: int| 0 <= i < token.len() implies header_char_ok(#[trigger] token[i]) by {
            if i >= prefix.len() {
                assert(token[i] == key[i - prefix.len()]);
            }
        }
    }
}

/// Every request carries exactly one authorization header and exactly one
/// content-type header.
pub proof fn lemma_one_header_of_each(key: Seq<char>)
    ensures
        request_header_views(key).len() == 2,
        count_named(request_header_views(key), AUTHORIZATION@) == 1,
        count_named(request_header_views(key), CONTENT_TYPE@) == 1,
{
    reveal_strlit("authorization");
    reveal_strlit("content-type");
    assert(AUTHORIZATION@.len() != CONTENT_TYPE@.len());
    let headers = request_header_views(key);
    let front = headers.drop_last();
    assert(front.len() == 1);
    assert(front.drop_last().len() == 0);
    assert(front.last() == headers[0]);
    reveal_with_fuel(count_named, 3);
}

/// The headers of a completion request: the bearer authorization made from
/// `api_key`, then the JSON content type. Fails when, and only when, the
/// key cannot be written into a header value.
pub fn request_headers(api_key: &str) -> (headers: Result<Vec<Header>, ApiError>)
    ensures
        match headers {
            Ok(list) => {
                &&& header_value_ok(bearer_text(api_key@))
                &&& list.deep_view() == request_header_views(api_key@)
                &&& forall|i: int| 0 <= i < list.len() ==> header_value_ok(#[trigger] list[i].value@)
            },
            Err(error) => error == ApiError::InvalidHeader && !header_value_ok(
                bearer_text(api_key@),
            ),
        },
{
    let token = bearer_token(api_key);
    if !header_value_accepts(token.as_str()) {
        return Err(ApiError::InvalidHeader);
    }
    proof {
        lemma_json_content_ok();
    }
    let mut list: Vec<Header> = Vec::new();
    list.push(Header { name: AUTHORIZATION.to_owned(), value: token });
    list.push(Header { name: CONTENT_TYPE.to_owned(), value: JSON_CONTENT.to_owned() });
    assert(list.deep_view() =~= request_header_views(api_key@));
    Ok(list)
}

/// The model names this client knows, the one it uses first.
pub fn gpt_models() -> (models: Vec<&'static str>)
    ensures
        models@.len() == 2,
        models@[0]@ == "gpt-3.5-turbo"@,
        models@[1]@ == "gpt-4"@,
{
    let mut models: Vec<&'static str> = Vec::new();
    models.push("gpt-3.5-turbo");
    models.push("gpt-4");
    models
}

/// The request body that asks for a completion of `messages`.
pub open spec fn completion_request_view(messages: Seq<Message>) -> ChatCompletionView {
    ChatCompletionView {
        model: "gpt-3.5-turbo"@,
        messages: Seq::new(messages.len(), |i: int| messages[i]@),
        temperature_milli: 100,
    }
}

/// Builds the request body for `messages`: the first known model, the
/// messages in their order, and the fixed low temperature.
pub fn completion_request(messages: Vec<Message>) -> (request: ChatCompletion)
    requires
        messages@.len() > 0,
    ensures
        request@ == completion_request_view(messages@),
        request.messages == messages,
        request.well_formed(),
{
    let models = gpt_models();
    let request = ChatCompletion {
        model: models[0].to_owned(),
        messages,
        temperature_milli: TEMPERATURE_MILLI,
    };
    assert(request@.messages =~= completion_request_view(messages@).messages);
    request
}

/// How a request is put to a server.
#[derive(Clone, Copy, Debug, PartialEq, Eq, Structural)]
pub enum Method {
    Get,
    Post,
}

/// Everything the transport needs for one completion call.
#[derive(Debug)]
pub struct CompletionCall {
    pub method: Method,
    pub url: &'static str,
    pub headers: Vec<Header>,
    pub body: ChatCompletion,
}

/// Prepares the completion call for `messages` under `api_key`: a POST of
/// the request body to the completion endpoint with the two fixed headers.
/// Fails when, and only when, the key cannot be written into a header.
pub fn completion_call(api_key: &str, messages: Vec<Message>) -> (call: Result<
    CompletionCall,
    ApiError,
>)
    requires
        messages@.len() > 0,
    ensures
        match call {
            Ok(call) => {
                &&& header_value_ok(bearer_text(api_key@))
                &&& call.method == Method::Post
                &&& call.url@ == COMPLETION_URL@
                &&& call.headers.deep_view() == request_header_views(api_key@)
                &&& forall|i: int|
                    0 <= i < call.headers.len() ==> header_value_ok(
                        #[trigger] call.headers[i].value@,
                    )
                &&& call.body@ == completion_request_view(messages@)
                &&& call.body.messages == messages
                &&& call.body.well_formed()
            },
            Err(error) => error == ApiError::InvalidHeader && !header_value_ok(
                bearer_text(api_key@),
            ),
        },
{
    match request_headers(api_key) {
        Ok(headers) => Ok(
            CompletionCall {
                method: Method::Post,
                url: COMPLETION_URL,
                headers,
                body: completion_request(messages),
            },
        ),
        Err(error) => Err(error),
    }
}

/// What the transport brought back from one call.
#[derive(Debug)]
pub enum Reply {
    /// The request failed on the way or no response arrived.
    Unreachable,
    /// A response arrived whose body is not a completion envelope.
    Undecodable,
    /// A response arrived and its body was decoded.
    Decoded(APIResponse),
}

/// The answer carried by an envelope: the content of its first choice,
/// untouched. An envelope without choices carries none.
pub open spec fn first_choice_text(response: APIResponse) -> Result<Seq<char>, ApiError> {
    if response.choices@.len() > 0 {
        Ok(response.choices@[0].message.content@)
    } else {
        Err(ApiError::Decode)
    }
}

/// The outcome of a completion call, given what the transport brought back.
pub open spec fn reply_text(reply: Reply) -> Result<Seq<char>, ApiError> {
    match reply {
        Reply::Unreachable => Err(ApiError::Transport),
        Reply::Undecodable => Err(ApiError::Decode),
        Reply::Decoded(response) => first_choice_text(response),
    }
}

/// Takes the answer out of a decoded envelope: the content of the first
/// choice, character for character. An envelope without choices is a
/// decoding failure.
pub fn first_choice(response: &APIResponse) -> (text: Result<String, ApiError>)
    ensures
        match text {
            Ok(content) => first_choice_text(*response) == Ok::<Seq<char>, ApiError>(content@),
            Err(error) => first_choice_text(*response) == Err::<Seq<char>, ApiError>(error),
        },
{
    if response.choices.len() == 0 {
        return Err(ApiError::Decode);
    }
    Ok(response.choices[0].message.content.clone())
}

/// Turns what the transport brought back into the result of the call.
pub fn completion_result(reply: Reply) -> (text: Result<String, ApiError>)
    ensures
        match text {
            Ok(content) => reply_text(reply) == Ok::<Seq<char>, ApiError>(content@),
            Err(error) => reply_text(reply) == Err::<Seq<char>, ApiError>(error),
        },
{
    match reply {
        Reply::Unreachable => Err(ApiError::Transport),
        Reply::Undecodable => Err(ApiError::Decode),
        Reply::Decoded(response) => first_choice(&response),
    }
}

} // verus!
