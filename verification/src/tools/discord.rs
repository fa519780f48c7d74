//! The descriptors of the chat-platform tools: their names, descriptions
//! and argument schemas, as advertised to the model. Executing them means
//! calling the platform's API, which happens at the process edge; the
//! runtime resolves and schedules them through these descriptors alone.

use vstd::prelude::*;
use vstd::string::StringExecFns;

verus! {

/// Adds or removes reactions on platform messages.
#[derive(Debug)]
pub struct DiscordToolReaction;

impl DiscordToolReaction {
    pub fn new() -> (r: DiscordToolReaction) {
        DiscordToolReaction {  }
    }

    /// The name the registry resolves this tool under.
    pub fn name(&self) -> (r: String)
        ensures
            r@ == "discord-tool-reaction"@,
    {
        String::from_str("discord-tool-reaction")
    }

    /// The description advertised to the model.
    pub fn description(&self) -> (r: String)
        ensures
            r@ == "Add or remove reactions on Discord messages."@,
    {
        String::from_str("Add or remove reactions on Discord messages.")
    }

    /// The JSON schema of the accepted arguments.
    pub fn json_schema(&self) -> (r: String)
        ensures
            r@ == "{\"type\":\"object\",\"properties\":{\"action\":{\"type\":\"string\",\"description\":\"The action to perform: 'add' or 'remove'.\",\"enum\":[\"add\",\"remove\"]},\"channel_id\":{\"type\":\"string\",\"description\":\"ID of the target channel.\"},\"message_id\":{\"type\":\"string\",\"description\":\"ID of the target message.\"},\"reaction\":{\"type\":\"string\",\"description\":\"Emoji for reactions: Unicode or custom emoji ID.\"}},\"required\":[\"action\",\"channel_id\",\"message_id\",\"reaction\"]}"@,
    {
        String::from_str(
            "{\"type\":\"object\",\"properties\":{\"action\":{\"type\":\"string\",\"description\":\"The action to perform: 'add' or 'remove'.\",\"enum\":[\"add\",\"remove\"]},\"channel_id\":{\"type\":\"string\",\"description\":\"ID of the target channel.\"},\"message_id\":{\"type\":\"string\",\"description\":\"ID of the target message.\"},\"reaction\":{\"type\":\"string\",\"description\":\"Emoji for reactions: Unicode or custom emoji ID.\"}},\"required\":[\"action\",\"channel_id\",\"message_id\",\"reaction\"]}",
        )
    }
}

/// Creates threads from a message or directly under a channel.
#[derive(Debug)]
pub struct DiscordToolThread;

impl DiscordToolThread {
    pub fn new() -> (r: DiscordToolThread) {
        DiscordToolThread {  }
    }

    /// The name the registry resolves this tool under.
    pub fn name(&self) -> (r: String)
        ensures
            r@ == "discord-tool-thread"@,
    {
        String::from_str("discord-tool-thread")
    }

    /// The description advertised to the model.
    pub fn description(&self) -> (r: String)
        ensures
            r@ == "Create Discord threads from a message or directly under a channel."@,
    {
        String::from_str("Create Discord threads from a message or directly under a channel.")
    }

    /// The JSON schema of the accepted arguments.
    pub fn json_schema(&self) -> (r: String)
        ensures
            r@ == "{\"type\":\"object\",\"properties\":{\"channel_id\":{\"type\":\"string\",\"description\":\"ID of the channel to create the thread in.\"},\"message_id\":{\"type\":\"string\",\"description\":\"Optional ID of the message to start the thread from.\"},\"name\":{\"type\":\"string\",\"description\":\"Name of the new thread.\"}},\"required\":[\"channel_id\",\"name\"]}"@,
    {
        String::from_str(
            "{\"type\":\"object\",\"properties\":{\"channel_id\":{\"type\":\"string\",\"description\":\"ID of the channel to create the thread in.\"},\"message_id\":{\"type\":\"string\",\"description\":\"Optional ID of the message to start the thread from.\"},\"name\":{\"type\":\"string\",\"description\":\"Name of the new thread.\"}},\"required\":[\"channel_id\",\"name\"]}",
        )
    }
}

/// Sends a message to a channel, optionally as a reply.
#[derive(Debug)]
pub struct DiscordToolSendMessage;

impl DiscordToolSendMessage {
    pub fn new() -> (r: DiscordToolSendMessage) {
        DiscordToolSendMessage {  }
    }

    /// The name the registry resolves this tool under.
    pub fn name(&self) -> (r: String)
        ensures
            r@ == "discord-tool-send-message"@,
    {
        String::from_str("discord-tool-send-message")
    }

    /// The description advertised to the model.
    pub fn description(&self) -> (r: String)
        ensures
            r@ == "Send a message to a Discord channel, optionally as a reply."@,
    {
        String::from_str("Send a message to a Discord channel, optionally as a reply.")
    }

    /// The JSON schema of the accepted arguments.
    pub fn json_schema(&self) -> (r: String)
        ensures
            r@ == "{\"type\":\"object\",\"properties\":{\"channel_id\":{\"type\":\"string\",\"description\":\"ID of the channel to send the message to.\"},\"content\":{\"type\":\"string\",\"description\":\"Text of the message.\"},\"reply_message_id\":{\"type\":\"string\",\"description\":\"Optional ID of the message to reply to.\"}},\"required\":[\"channel_id\",\"content\"]}"@,
    {
        String::from_str(
            "{\"type\":\"object\",\"properties\":{\"channel_id\":{\"type\":\"string\",\"description\":\"ID of the channel to send the message to.\"},\"content\":{\"type\":\"string\",\"description\":\"Text of the message.\"},\"reply_message_id\":{\"type\":\"string\",\"description\":\"Optional ID of the message to reply to.\"}},\"required\":[\"channel_id\",\"content\"]}",
        )
    }
}

/// Edits an existing platform message, usually one the persona sent.
#[derive(Debug)]
pub struct DiscordToolEditMessage;

impl DiscordToolEditMessage {
    pub fn new() -> (r: DiscordToolEditMessage) {
        DiscordToolEditMessage {  }
    }

    /// The name the registry resolves this tool under.
    pub fn name(&self) -> (r: String)
        ensures
            r@ == "discord-tool-edit-message"@,
    {
        String::from_str("discord-tool-edit-message")
    }

    /// The description advertised to the model.
    pub fn description(&self) -> (r: String)
        ensures
            r@ == "Edit an existing Discord message (usually one sent by the bot)."@,
    {
        String::from_str("Edit an existing Discord message (usually one sent by the bot).")
    }

    /// The JSON schema of the accepted arguments.
    pub fn json_schema(&self) -> (r: String)
        ensures
            r@ == "{\"type\":\"object\",\"properties\":{\"channel_id\":{\"type\":\"string\",\"description\":\"ID of the channel holding the message.\"},\"message_id\":{\"type\":\"string\",\"description\":\"ID of the message to edit.\"},\"content\":{\"type\":\"string\",\"description\":\"New text of the message.\"}},\"required\":[\"channel_id\",\"message_id\",\"content\"]}"@,
    {
        String::from_str(
            "{\"type\":\"object\",\"properties\":{\"channel_id\":{\"type\":\"string\",\"description\":\"ID of the channel holding the message.\"},\"message_id\":{\"type\":\"string\",\"description\":\"ID of the message to edit.\"},\"content\":{\"type\":\"string\",\"description\":\"New text of the message.\"}},\"required\":[\"channel_id\",\"message_id\",\"content\"]}",
        )
    }
}

/// Fetches a single platform message by channel and message id.
#[derive(Debug)]
pub struct DiscordToolFetchMessage;

impl DiscordToolFetchMessage {
    pub fn new() -> (r: DiscordToolFetchMessage) {
        DiscordToolFetchMessage {  }
    }

    /// The name the registry resolves this tool under.
    pub fn name(&self) -> (r: String)
        ensures
            r@ == "discord-tool-fetch-message"@,
    {
        String::from_str("discord-tool-fetch-message")
    }

    /// The description advertised to the model.
    pub fn description(&self) -> (r: String)
        ensures
            r@ == "Fetch a single Discord message by channel_id and message_id."@,
    {
        String::from_str("Fetch a single Discord message by channel_id and message_id.")
    }

    /// The JSON schema of the accepted arguments.
    pub fn json_schema(&self) -> (r: String)
        ensures
            r@ == "{\"type\":\"object\",\"properties\":{\"channel_id\":{\"type\":\"string\",\"description\":\"ID of the channel holding the message.\"},\"message_id\":{\"type\":\"string\",\"description\":\"ID of the message to fetch.\"}},\"required\":[\"channel_id\",\"message_id\"]}"@,
    {
        String::from_str(
            "{\"type\":\"object\",\"properties\":{\"channel_id\":{\"type\":\"string\",\"description\":\"ID of the channel holding the message.\"},\"message_id\":{\"type\":\"string\",\"description\":\"ID of the message to fetch.\"}},\"required\":[\"channel_id\",\"message_id\"]}",
        )
    }
}

/// Searches recent messages of a channel by keyword.
#[derive(Debug)]
pub struct DiscordToolSearchMessages;

impl DiscordToolSearchMessages {
    pub fn new() -> (r: DiscordToolSearchMessages) {
        DiscordToolSearchMessages {  }
    }

    /// The name the registry resolves this tool under.
    pub fn name(&self) -> (r: String)
        ensures
            r@ == "discord-tool-search-messages"@,
    {
        String::from_str("discord-tool-search-messages")
    }

    /// The description advertised to the model.
    pub fn description(&self) -> (r: String)
        ensures
            r@ == "Search recent messages in a specific channel by keyword (simple local filter)."@,
    {
        String::from_str(
            "Search recent messages in a specific channel by keyword (simple local filter).",
        )
    }

    /// The JSON schema of the accepted arguments.
    pub fn json_schema(&self) -> (r: String)
        ensures
            r@ == "{\"type\":\"object\",\"properties\":{\"channel_id\":{\"type\":\"string\",\"description\":\"ID of the channel to search.\"},\"keyword\":{\"type\":\"string\",\"description\":\"Keyword to filter messages by.\"},\"limit\":{\"type\":\"string\",\"description\":\"How many recent messages to inspect.\"}},\"required\":[\"channel_id\",\"keyword\"]}"@,
    {
        String::from_str(
            "{\"type\":\"object\",\"properties\":{\"channel_id\":{\"type\":\"string\",\"description\":\"ID of the channel to search.\"},\"keyword\":{\"type\":\"string\",\"description\":\"Keyword to filter messages by.\"},\"limit\":{\"type\":\"string\",\"description\":\"How many recent messages to inspect.\"}},\"required\":[\"channel_id\",\"keyword\"]}",
        )
    }
}

} // verus!
