//! The chat-completions client's shapes: the prompt messages of that wire
//! protocol, the response headers and error bodies the backend may attach,
//! and the client's error taxonomy.

use vstd::prelude::*;
use vstd::string::StringExecFns;

use crate::items::{clone_content, MessageContext};

verus! {

/// One prompt message of the chat-completions protocol.
#[derive(Debug)]
pub enum Message {
    User { content: Vec<MessageContext> },
    Function { name: String, content: Vec<MessageContext> },
    Assistant { content: Vec<MessageContext> },
}

/// The mathematical value of a [`Message`].
#[verifier::ext_equal]
pub ghost enum MessageView {
    User { content: Seq<MessageContext> },
    Function { name: Seq<char>, content: Seq<MessageContext> },
    Assistant { content: Seq<MessageContext> },
}

impl View for Message {
    type V = MessageView;

    open spec fn view(&self) -> MessageView {
        match self {
            Message::User { content } => MessageView::User { content: content@ },
            Message::Function { name, content } => MessageView::Function {
                name: name@,
                content: content@,
            },
            Message::Assistant { content } => MessageView::Assistant { content: content@ },
        }
    }
}

impl DeepView for Message {
    type V = MessageView;

    open spec fn deep_view(&self) -> MessageView {
        self.view()
    }
}

impl Clone for Message {
    fn clone(&self) -> (res: Self)
        ensures
            res@ == self@,
    {
        match self {
            Message::User { content } => Message::User { content: clone_content(content) },
            Message::Function { name, content } => Message::Function {
                name: name.clone(),
                content: clone_content(content),
            },
            Message::Assistant { content } => Message::Assistant {
                content: clone_content(content),
            },
        }
    }
}

/// Whether a request may be sent to this endpoint at all: the client only
/// speaks plain or secured HTTP, and refuses anything else as
/// [`ClientError::InvalidEndpoint`] before any network activity.
pub fn endpoint_is_valid(url: &str) -> (r: bool)
    ensures
        r == ({
            ||| (url@.len() >= "https://"@.len() && url@.subrange(0, "https://"@.len() as int)
                == "https://"@)
            ||| (url@.len() >= "http://"@.len() && url@.subrange(0, "http://"@.len() as int)
                == "http://"@)
        }),
{
    crate::strutil::str_starts_with(url, "https://") || crate::strutil::str_starts_with(
        url,
        "http://",
    )
}

/// The rate-limiting headers a backend response carries, when present.
#[derive(Debug)]
pub struct APIResponseHeaders {
    pub retry_after: Option<u64>,
    pub reset: Option<u64>,
    pub rate_limit: Option<u64>,
    pub limit: Option<u64>,
    pub extra_other: Vec<(String, String)>,
}

/// The error body a backend may answer with.
#[derive(Debug)]
pub struct APIError {
    pub message: String,
    pub err_type: String,
    pub code: i32,
}

/// The token accounting a backend reports for one exchange.
#[derive(Clone, Copy, Debug, PartialEq, Eq, Structural)]
pub struct APIUsage {
    pub prompt_tokens: Option<u64>,
    pub completion_tokens: Option<u64>,
    pub total_tokens: Option<u64>,
}

/// Why a client call failed.
#[derive(Debug)]
pub enum ClientError {
    NotFound(String),
    InvalidInput(String),
    /// An I/O operation failed; the rendered message is kept.
    IoError(String),
    IndexOutOfBounds,
    ToolNotFound,
    InvalidEndpoint,
    InvalidPrompt,
    NetworkError,
    InvalidResponse,
    UnknownError,
}

/// The rendered message of each client error.
pub open spec fn spec_client_error_message(e: ClientError) -> Seq<char> {
    match e {
        ClientError::NotFound(msg) => "NotFound: "@ + msg@,
        ClientError::InvalidInput(msg) => "InvalidInput: "@ + msg@,
        ClientError::IoError(msg) => "IoError: "@ + msg@,
        ClientError::IndexOutOfBounds => "Index out of bounds"@,
        ClientError::ToolNotFound => "Tool not found"@,
        ClientError::InvalidEndpoint => "Invalid endpoint"@,
        ClientError::InvalidPrompt => "Invalid prompt"@,
        ClientError::NetworkError => "Network error"@,
        ClientError::InvalidResponse => "Invalid response"@,
        ClientError::UnknownError => "Unknown error"@,
    }
}

impl ClientError {
    /// A short diagnostic line for the caller.
    pub fn to_message(&self) -> (r: String)
        ensures
            r@ == spec_client_error_message(*self),
    {
        match self {
            ClientError::NotFound(msg) => {
                let mut r = String::from_str("NotFound: ");
                r.append(msg.as_str());
                r
            },
            ClientError::InvalidInput(msg) => {
                let mut r = String::from_str("InvalidInput: ");
                r.append(msg.as_str());
                r
            },
            ClientError::IoError(msg) => {
                let mut r = String::from_str("IoError: ");
                r.append(msg.as_str());
                r
            },
            ClientError::IndexOutOfBounds => String::from_str("Index out of bounds"),
            ClientError::ToolNotFound => String::from_str("Tool not found"),
            ClientError::InvalidEndpoint => String::from_str("Invalid endpoint"),
            ClientError::InvalidPrompt => String::from_str("Invalid prompt"),
            ClientError::NetworkError => String::from_str("Network error"),
            ClientError::InvalidResponse => String::from_str("Invalid response"),
            ClientError::UnknownError => String::from_str("Unknown error"),
        }
    }
}

} // verus!
