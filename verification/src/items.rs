//! The provider-agnostic shapes of a conversation: roles, message content
//! parts, and the tagged union of items a channel's log can hold.

use vstd::prelude::*;

verus! {

/// Who produced an entry of the conversation.
#[derive(Clone, Copy, Debug, PartialEq, Eq, Structural)]
pub enum Role {
    User,
    Bot,
    System,
    Tool,
    Developer,
    Assistant,
}

/// An image reference carried inside a message: a URL or data URL, with an
/// optional requested detail level (`"low"` or `"high"`).
#[derive(Debug)]
pub struct MessageImage {
    pub url: String,
    pub detail: Option<String>,
}

impl Clone for MessageImage {
    fn clone(&self) -> (res: Self)
        ensures
            res == *self,
    {
        MessageImage {
            url: self.url.clone(),
            detail: match &self.detail {
                Some(d) => Some(d.clone()),
                None => None,
            },
        }
    }
}

/// One ordered part of a message body: plain text or an image reference.
#[derive(Debug)]
pub enum MessageContext {
    Text(String),
    Image(MessageImage),
}

impl Clone for MessageContext {
    fn clone(&self) -> (res: Self)
        ensures
            res == *self,
    {
        match self {
            MessageContext::Text(t) => MessageContext::Text(t.clone()),
            MessageContext::Image(img) => MessageContext::Image(img.clone()),
        }
    }
}

/// Whether a tool reported success or failure for one call.
#[derive(Clone, Copy, Debug, PartialEq, Eq, Structural)]
pub enum ToolStatus {
    Success,
    Failure,
}

/// One entry of a channel's conversation log.
///
/// Only `Message` items survive a merge back into the canonical log;
/// `ToolCall`, `ToolResult` and `ReasoningNote` items are scoped to a single
/// orchestration run.
#[derive(Debug)]
pub enum ConversationItem {
    Message { role: Role, content: Vec<MessageContext> },
    ToolCall { call_id: String, tool_name: String, arguments: String },
    ToolResult { call_id: String, output: String, status: ToolStatus },
    ReasoningNote { text: String },
}

/// The mathematical value of a [`ConversationItem`]: the same shape with the
/// message body abstracted to a sequence, so that two items are equal exactly
/// when they carry the same data.
pub ghost enum ItemView {
    Message { role: Role, content: Seq<MessageContext> },
    ToolCall { call_id: String, tool_name: String, arguments: String },
    ToolResult { call_id: String, output: String, status: ToolStatus },
    ReasoningNote { text: String },
}

impl ItemView {
    /// True of exactly the `Message` items: the ones a merge keeps.
    pub open spec fn is_message(self) -> bool {
        self is Message
    }
}

impl View for ConversationItem {
    type V = ItemView;

    open spec fn view(&self) -> ItemView {
        match self {
            ConversationItem::Message { role, content } => ItemView::Message {
                role: *role,
                content: content@,
            },
            ConversationItem::ToolCall { call_id, tool_name, arguments } => ItemView::ToolCall {
                call_id: *call_id,
                tool_name: *tool_name,
                arguments: *arguments,
            },
            ConversationItem::ToolResult { call_id, output, status } => ItemView::ToolResult {
                call_id: *call_id,
                output: *output,
                status: *status,
            },
            ConversationItem::ReasoningNote { text } => ItemView::ReasoningNote { text: *text },
        }
    }
}

impl DeepView for ConversationItem {
    type V = ItemView;

    open spec fn deep_view(&self) -> ItemView {
        self.view()
    }
}

impl ConversationItem {
    /// Executable test matching [`ItemView::is_message`].
    pub fn check_is_message(&self) -> (r: bool)
        ensures
            r == self@.is_message(),
    {
        match self {
            ConversationItem::Message { .. } => true,
            _ => false,
        }
    }
}

impl Clone for ConversationItem {
    fn clone(&self) -> (res: Self)
        ensures
            res@ == self@,
    {
        match self {
            ConversationItem::Message { role, content } => ConversationItem::Message {
                role: *role,
                content: clone_content(content),
            },
            ConversationItem::ToolCall { call_id, tool_name, arguments } => {
                ConversationItem::ToolCall {
                    call_id: call_id.clone(),
                    tool_name: tool_name.clone(),
                    arguments: arguments.clone(),
                }
            },
            ConversationItem::ToolResult { call_id, output, status } => {
                ConversationItem::ToolResult {
                    call_id: call_id.clone(),
                    output: output.clone(),
                    status: *status,
                }
            },
            ConversationItem::ReasoningNote { text } => ConversationItem::ReasoningNote {
                text: text.clone(),
            },
        }
    }
}

/// An element-exact copy of a message body.
pub fn clone_content(content: &Vec<MessageContext>) -> (res: Vec<MessageContext>)
    ensures
        res@ == content@,
{
    let mut res: Vec<MessageContext> = Vec::new();
    let n = content.len();
    for i in 0..n
        invariant
            n == content@.len(),
            res@ == content@.subrange(0, i as int),
    {
        res.push(content[i].clone());
        assert(res@ =~= content@.subrange(0, i + 1 as int));
    }
    assert(res@ =~= content@);
    res
}

/// A view-exact copy of a sequence of conversation items.
pub fn clone_items(items: &Vec<ConversationItem>) -> (res: Vec<ConversationItem>)
    ensures
        res.deep_view() == items.deep_view(),
{
    let mut res: Vec<ConversationItem> = Vec::new();
    let n = items.len();
    for i in 0..n
        invariant
            n == items@.len(),
            res@.len() == i,
            forall|j: int| 0 <= j < i ==> res@[j]@ == items@[j]@,
    {
        res.push(items[i].clone());
    }
    assert(res.deep_view() =~= items.deep_view());
    res
}

} // verus!
