//! The command surface of a channel: the settings a command can flip, the
//! commands themselves, and the reply each one produces.

use vstd::prelude::*;
use vstd::string::StringExecFns;

verus! {

/// A channel's switches and limits.
#[derive(Clone, Copy, Debug, PartialEq, Eq, Structural)]
pub struct ChannelSettings {
    /// Whether the persona acts in the channel at all.
    pub enable: bool,
    /// How many messages the channel's log retains.
    pub entry_limit: usize,
    /// Whether scheduled events fire.
    pub schedule: bool,
    /// Whether the persona replies to replies.
    pub reply: bool,
    /// Whether the persona reacts to mentions.
    pub mention: bool,
    /// Whether the persona may speak unprompted.
    pub auto_ai: bool,
    /// Whether the persona reads messages at all.
    pub read: bool,
}

/// The largest entry limit a command may set.
pub const ENTRY_LIMIT_MAX: usize = 8192;

impl ChannelSettings {
    /// The switches a fresh channel starts with.
    pub fn new() -> (r: ChannelSettings)
        ensures
            r == (ChannelSettings {
                enable: false,
                entry_limit: 4096,
                schedule: false,
                reply: true,
                mention: true,
                auto_ai: false,
                read: true,
            }),
    {
        ChannelSettings {
            enable: false,
            entry_limit: 4096,
            schedule: false,
            reply: true,
            mention: true,
            auto_ai: false,
            read: true,
        }
    }
}

/// One administrative command addressed to a channel.
#[derive(Clone, Copy, Debug, PartialEq, Eq, Structural)]
pub enum Command {
    Enable(bool),
    EntryLimit(usize),
    Schedule(bool),
    Reply(bool),
    Mention(bool),
    AutoAI(bool),
    Read(bool),
}

/// What the runtime hands back for one event or command.
#[derive(Debug)]
pub enum Response {
    /// The final reply text.
    Text(String),
    /// The request was taken and is in flight.
    Processing,
    /// A progress line while a run is thinking.
    Thinking(String),
}

/// The settings after one command: every command overwrites its one field,
/// except an entry limit above [`ENTRY_LIMIT_MAX`], which changes nothing.
pub open spec fn spec_apply_command(s: ChannelSettings, c: Command) -> ChannelSettings {
    match c {
        Command::Enable(v) => ChannelSettings { enable: v, ..s },
        Command::EntryLimit(v) => if v <= ENTRY_LIMIT_MAX {
            ChannelSettings { entry_limit: v, ..s }
        } else {
            s
        },
        Command::Schedule(v) => ChannelSettings { schedule: v, ..s },
        Command::Reply(v) => ChannelSettings { reply: v, ..s },
        Command::Mention(v) => ChannelSettings { mention: v, ..s },
        Command::AutoAI(v) => ChannelSettings { auto_ai: v, ..s },
        Command::Read(v) => ChannelSettings { read: v, ..s },
    }
}

/// The reply's wording for a switched flag.
pub open spec fn spec_flag_word(v: bool) -> Seq<char> {
    if v {
        "enabled"@
    } else {
        "disabled"@
    }
}

/// Applies one command to a channel's settings and words the reply: the
/// changed switch is reported with its new state, and a refused entry limit
/// is reported as too large.
pub fn apply_command(settings: &mut ChannelSettings, ch_name: &str, command: Command) -> (r:
    Response)
    ensures
        *final(settings) == spec_apply_command(*old(settings), command),
        r matches Response::Text(t) ==> match command {
            Command::Enable(v) => t@ == "Channel "@ + ch_name@ + " is now "@ + spec_flag_word(v),
            Command::EntryLimit(v) => if v <= ENTRY_LIMIT_MAX {
                t@ == "Entry limit of channel "@ + ch_name@ + " is now set"@
            } else {
                t@ == "Failed to set entry limit of channel "@ + ch_name@ + ": the limit is too large"@
            },
            Command::Schedule(v) => t@ == "Schedule of channel "@ + ch_name@ + " is now "@
                + spec_flag_word(v),
            Command::Reply(v) => t@ == "Reply of channel "@ + ch_name@ + " is now "@
                + spec_flag_word(v),
            Command::Mention(v) => t@ == "Mention of channel "@ + ch_name@ + " is now "@
                + spec_flag_word(v),
            Command::AutoAI(v) => t@ == "AutoAI of channel "@ + ch_name@ + " is now "@
                + spec_flag_word(v),
            Command::Read(v) => t@ == "Read of channel "@ + ch_name@ + " is now "@ + spec_flag_word(
                v,
            ),
        },
        r is Text,
{
    match command {
        Command::Enable(v) => {
            settings.enable = v;
            let mut t = String::from_str("Channel ");
            t.append(ch_name);
            t.append(" is now ");
            t.append(flag_word(v));
            Response::Text(t)
        },
        Command::EntryLimit(v) => {
            if v <= ENTRY_LIMIT_MAX {
                settings.entry_limit = v;
                let mut t = String::from_str("Entry limit of channel ");
                t.append(ch_name);
                t.append(" is now set");
                Response::Text(t)
            } else {
                let mut t = String::from_str("Failed to set entry limit of channel ");
                t.append(ch_name);
                t.append(": the limit is too large");
                Response::Text(t)
            }
        },
        Command::Schedule(v) => {
            settings.schedule = v;
            let mut t = String::from_str("Schedule of channel ");
            t.append(ch_name);
            t.append(" is now ");
            t.append(flag_word(v));
            Response::Text(t)
        },
        Command::Reply(v) => {
            settings.reply = v;
            let mut t = String::from_str("Reply of channel ");
            t.append(ch_name);
            t.append(" is now ");
            t.append(flag_word(v));
            Response::Text(t)
        },
        Command::Mention(v) => {
            settings.mention = v;
            let mut t = String::from_str("Mention of channel ");
            t.append(ch_name);
            t.append(" is now ");
            t.append(flag_word(v));
            Response::Text(t)
        },
        Command::AutoAI(v) => {
            settings.auto_ai = v;
            let mut t = String::from_str("AutoAI of channel ");
            t.append(ch_name);
            t.append(" is now ");
            t.append(flag_word(v));
            Response::Text(t)
        },
        Command::Read(v) => {
            settings.read = v;
            let mut t = String::from_str("Read of channel ");
            t.append(ch_name);
            t.append(" is now ");
            t.append(flag_word(v));
            Response::Text(t)
        },
    }
}

/// The wording of a switched flag.
pub fn flag_word(v: bool) -> (r: &'static str)
    ensures
        r@ == spec_flag_word(v),
{
    if v {
        "enabled"
    } else {
        "disabled"
    }
}

} // verus!
