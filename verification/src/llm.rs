//! The records exchanged with the chat-completion endpoint.

use vstd::prelude::*;

verus! {

/// Who a message speaks for in a conversation.
#[derive(Clone, Copy, Debug, PartialEq, Eq, Structural)]
pub enum Role {
    System,
    User,
    Assistant,
}

/// The tag that stands for `role` on the wire.
pub open spec fn role_tag(role: Role) -> Seq<char> {
    match role {
        Role::System => "system"@,
        Role::User => "user"@,
        Role::Assistant => "assistant"@,
    }
}

/// The role that `tag` stands for, if it is one of the three wire tags.
pub open spec fn role_of_tag(tag: Seq<char>) -> Option<Role> {
    if tag == "system"@ {
        Some(Role::System)
    } else if tag == "user"@ {
        Some(Role::User)
    } else if tag == "assistant"@ {
        Some(Role::Assistant)
    } else {
        None
    }
}

impl Role {
    /// The wire tag of this role.
    pub fn as_str(&self) -> (tag: &'static str)
        ensures
            tag@ == role_tag(*self),
    {
        match self {
            Role::System => "system",
            Role::User => "user",
            Role::Assistant => "assistant",
        }
    }

    /// Reads a wire tag back into a role; `None` for any other text.
    pub fn from_tag(tag: &str) -> (role: Option<Role>)
        ensures
            role == role_of_tag(tag@),
    {
        let owned = tag.to_owned();
        if owned == "system".to_owned() {
            Some(Role::System)
        } else if owned == "user".to_owned() {
            Some(Role::User)
        } else if owned == "assistant".to_owned() {
            Some(Role::Assistant)
        } else {
            None
        }
    }
}

/// The three wire tags are distinct, so a tag names at most one role and
/// every role is read back from its own tag.
pub proof fn lemma_role_tag_round_trip(role: Role)
    ensures
        role_of_tag(role_tag(role)) == Some(role),
{
    reveal_strlit("system");
    reveal_strlit("user");
    reveal_strlit("assistant");
    assert("system"@.len() == 6);
    assert("user"@.len() == 4);
    assert("assistant"@.len() == 9);
}

/// One entry of a conversation.
#[derive(Debug)]
pub struct Message {
    pub role: String,
    pub content: String,
}

/// What a [`Message`] says, as mathematical text.
pub struct MessageView {
    pub role: Seq<char>,
    pub content: Seq<char>,
}

impl View for Message {
    type V = MessageView;

    open spec fn view(&self) -> MessageView {
        MessageView { role: self.role@, content: self.content@ }
    }
}

impl DeepView for Message {
    type V = MessageView;

    open spec fn deep_view(&self) -> MessageView {
        self@
    }
}

impl Clone for Message {
    fn clone(&self) -> (copy: Self)
        ensures
            copy == *self,
    {
        Message { role: self.role.clone(), content: self.content.clone() }
    }
}

impl Message {
    /// A message is well formed when its tag is one of the three wire tags.
    pub open spec fn well_formed(&self) -> bool {
        role_of_tag(self.role@) is Some
    }

    /// A message spoken by `role`.
    pub fn new(role: Role, content: String) -> (message: Message)
        ensures
            message.role@ == role_tag(role),
            message.content == content,
            message.well_formed(),
    {
        proof {
            lemma_role_tag_round_trip(role);
        }
        Message { role: role.as_str().to_owned(), content }
    }

    /// The role this message is tagged with; `None` when the message is not
    /// well formed.
    pub fn role(&self) -> (role: Option<Role>)
        ensures
            role == role_of_tag(self.role@),
    {
        Role::from_tag(self.role.as_str())
    }
}

/// The body of a chat-completion request. The sampling temperature is kept
/// in thousandths so that it stays an exact integer.
#[derive(Debug)]
pub struct ChatCompletion {
    pub model: String,
    pub messages: Vec<Message>,
    pub temperature_milli: u32,
}

/// A [`ChatCompletion`] as mathematical text.
pub struct ChatCompletionView {
    pub model: Seq<char>,
    pub messages: Seq<MessageView>,
    pub temperature_milli: nat,
}

impl ChatCompletion {
    /// A request is well formed when it carries at least one message.
    pub open spec fn well_formed(&self) -> bool {
        self.messages@.len() > 0
    }
}

impl View for ChatCompletion {
    type V = ChatCompletionView;

    open spec fn view(&self) -> ChatCompletionView {
        ChatCompletionView {
            model: self.model@,
            messages: self.messages.deep_view(),
            temperature_milli: self.temperature_milli as nat,
        }
    }
}

/// One candidate answer of the endpoint.
#[derive(Debug)]
pub struct APIChoice {
    pub message: Message,
}

/// The decoded response envelope: the candidate answers in the order the
/// endpoint gave them.
#[derive(Debug)]
pub struct APIResponse {
    pub choices: Vec<APIChoice>,
}

} // verus!
