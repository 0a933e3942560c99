//! A chat message as the gateway shows it: a role and a text.

use vstd::prelude::*;
use crate::outside::{message_role, message_text, role_of, text_of};

verus! {

/// Who speaks in a chat message.
#[derive(Clone, Copy, Debug, PartialEq, Eq, Structural)]
pub enum Role {
    User,
    Assistant,
    Tool,
    System,
    Function,
}

impl Role {
    /// The name under which the role is shown.
    pub open spec fn name(self) -> Seq<char> {
        match self {
            Role::User => "user"@,
            Role::Assistant => "assistant"@,
            Role::Tool => "tool"@,
            Role::System => "system"@,
            Role::Function => "function"@,
        }
    }

    /// Whether a message of this role shows its text. Tool and function
    /// messages never do.
    pub open spec fn shows_text(self) -> bool {
        self is User || self is Assistant || self is System
    }

    pub fn as_str(&self) -> (name: &'static str)
        ensures
            name@ == self.name(),
    {
        match self {
            Role::User => "user",
            Role::Assistant => "assistant",
            Role::Tool => "tool",
            Role::System => "system",
            Role::Function => "function",
        }
    }
}

#[derive(Clone, Debug)]
pub struct ChatCompletionMessage {
    pub role: String,
    pub content: String,
}

/// The text that a message of `role` shows, given the plain text of its
/// content where the content is plain text.
pub open spec fn shown_text(role: Role, text: Option<Seq<char>>) -> Seq<char> {
    match text {
        Some(t) if role.shows_text() => t,
        _ => Seq::empty(),
    }
}

impl ChatCompletionMessage {
    /// The message of `role` whose content has the plain text `text`, or is
    /// not plain text where `text` is `None`.
    pub fn of_role(role: Role, text: Option<String>) -> (out: ChatCompletionMessage)
        ensures
            out.role@ == role.name(),
            out.content@ == shown_text(
                role,
                match text {
                    Some(t) => Some(t@),
                    None => None,
                },
            ),
    {
        let content = match role {
            Role::User | Role::Assistant | Role::System => match text {
                Some(t) => t,
                None => String::new(),
            },
            Role::Tool | Role::Function => String::new(),
        };
        ChatCompletionMessage { role: role.as_str().to_owned(), content }
    }

    /// The view of a request message of the model client: its role's name, and
    /// its content where that is plain text. Content in parts, absent content,
    /// and the content of tool and function messages show as the empty text.
    pub fn from(x: async_openai_alt::types::ChatCompletionRequestMessage) -> (out:
        ChatCompletionMessage)
        ensures
            out.role@ == message_role(x).name(),
            out.content@ == shown_text(message_role(x), message_text(x)),
    {
        let role = role_of(&x);
        Self::of_role(role, text_of(x))
    }
}

} // verus!
