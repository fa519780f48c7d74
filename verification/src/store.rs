//! The process-wide registry of per-channel conversation logs, with lazy
//! creation on first reference. A run snapshots a channel's log, works on the
//! copy, and merges only the `Message` items of its delta back; nothing here
//! ever hands out a long-lived reference into the canonical log.

use vstd::prelude::*;

use crate::context::{clamp_to_capacity, messages_only, Context};
use crate::items::{clone_items, ConversationItem, ItemView};

verus! {

/// How many items a channel's log retains by default.
pub const PROMPT_ENTRY_LIMIT: usize = 64;

/// The canonical state of one channel: its log, whether the persona is
/// enabled there, and an optional override of the system prompt.
pub struct ChannelRecord {
    pub context: Context,
    pub enabled: bool,
    pub system_prompt: Option<String>,
}

impl ChannelRecord {
    /// A fresh channel: empty log at the default capacity, disabled, no
    /// prompt override.
    pub fn new() -> (r: ChannelRecord)
        ensures
            r.context@ == Seq::<ItemView>::empty(),
            r.context.cap() == PROMPT_ENTRY_LIMIT,
            r.context.wf(),
            r.enabled == false,
            r.system_prompt is None,
    {
        ChannelRecord { context: Context::new(PROMPT_ENTRY_LIMIT), enabled: false, system_prompt: None }
    }
}

/// All channels' canonical logs, keyed by channel identifier. Channels are
/// created on first reference and live for the process lifetime.
pub struct ContextStore {
    channels: vstd::hash_map::HashMapWithView<u64, ChannelRecord>,
}

impl View for ContextStore {
    type V = Map<u64, ChannelRecord>;

    closed spec fn view(&self) -> Map<u64, ChannelRecord> {
        self.channels@
    }
}

impl ContextStore {
    /// The log of `ch` as a sequence of item views; an absent channel reads
    /// as empty.
    pub open spec fn ctx_of(&self, ch: u64) -> Seq<ItemView> {
        if self@.contains_key(ch) {
            self@[ch].context@
        } else {
            Seq::empty()
        }
    }

    /// The capacity that governs `ch`: the stored one, or the default a
    /// fresh channel would get.
    pub open spec fn cap_of(&self, ch: u64) -> nat {
        if self@.contains_key(ch) {
            self@[ch].context.cap()
        } else {
            PROMPT_ENTRY_LIMIT as nat
        }
    }

    /// Whether the persona is enabled in `ch`; an absent channel reads as
    /// disabled.
    pub open spec fn enabled_of(&self, ch: u64) -> bool {
        self@.contains_key(ch) && self@[ch].enabled
    }

    /// Every stored log respects its capacity.
    pub open spec fn wf(&self) -> bool {
        forall|ch: u64| self@.contains_key(ch) ==> (#[trigger] self@[ch]).context.wf()
    }

    /// An empty store.
    pub fn new() -> (r: ContextStore)
        ensures
            r@ == Map::<u64, ChannelRecord>::empty(),
            r.wf(),
    {
        ContextStore { channels: vstd::hash_map::HashMapWithView::new() }
    }

    /// Appends `items` to the log of `ch`, creating the channel if absent;
    /// the oldest items are evicted first when the log would overflow.
    pub fn append(&mut self, ch: u64, items: Vec<ConversationItem>)
        requires
            old(self).wf(),
        ensures
            final(self).wf(),
            final(self).ctx_of(ch) == clamp_to_capacity(
                old(self).ctx_of(ch) + items.deep_view(),
                old(self).cap_of(ch),
            ),
            final(self).cap_of(ch) == old(self).cap_of(ch),
            final(self).enabled_of(ch) == old(self).enabled_of(ch),
            forall|other: u64| other != ch ==> final(self)@.contains_key(other) == old(
                self,
            )@.contains_key(other) && (final(self)@.contains_key(other) ==> final(self)@[other]
                == old(self)@[other]),
    {
        let mut rec = match self.channels.remove(&ch) {
            Some(r) => r,
            None => ChannelRecord::new(),
        };
        rec.context.append_items(items);
        self.channels.insert(ch, rec);
    }

    /// A structural copy of the log of `ch`, observed at a single instant;
    /// the channel is created if absent. The copy's capacity is raised so a
    /// working copy never evicts during a run.
    pub fn snapshot(&mut self, ch: u64) -> (r: Context)
        requires
            old(self).wf(),
        ensures
            final(self).wf(),
            r@ == old(self).ctx_of(ch),
            r.cap() == usize::MAX,
            r.wf(),
            final(self).ctx_of(ch) == old(self).ctx_of(ch),
            final(self).cap_of(ch) == old(self).cap_of(ch),
            final(self).enabled_of(ch) == old(self).enabled_of(ch),
            forall|other: u64| other != ch ==> final(self)@.contains_key(other) == old(
                self,
            )@.contains_key(other) && (final(self)@.contains_key(other) ==> final(self)@[other]
                == old(self)@[other]),
    {
        let rec = match self.channels.remove(&ch) {
            Some(r) => r,
            None => ChannelRecord::new(),
        };
        let copy = rec.context.working_copy();
        self.channels.insert(ch, rec);
        copy
    }

    /// Merges a working copy's delta into the canonical log of `ch`: only
    /// the `Message` items are appended, in their relative order; the channel
    /// is created if absent.
    pub fn merge_messages_only(&mut self, ch: u64, delta: &Vec<ConversationItem>)
        requires
            old(self).wf(),
        ensures
            final(self).wf(),
            final(self).ctx_of(ch) == clamp_to_capacity(
                old(self).ctx_of(ch) + messages_only(delta.deep_view()),
                old(self).cap_of(ch),
            ),
            final(self).cap_of(ch) == old(self).cap_of(ch),
            final(self).enabled_of(ch) == old(self).enabled_of(ch),
            forall|other: u64| other != ch ==> final(self)@.contains_key(other) == old(
                self,
            )@.contains_key(other) && (final(self)@.contains_key(other) ==> final(self)@[other]
                == old(self)@[other]),
    {
        let mut rec = match self.channels.remove(&ch) {
            Some(r) => r,
            None => ChannelRecord::new(),
        };
        rec.context.merge_messages_only(delta);
        self.channels.insert(ch, rec);
    }

    /// A structural copy of the log's items, observed at a single instant,
    /// without touching the store: the working copy one orchestration run
    /// mutates locally. An absent channel reads as empty.
    pub fn working_items(&self, ch: u64) -> (r: Vec<ConversationItem>)
        ensures
            r.deep_view() == self.ctx_of(ch),
    {
        match self.channels.get(&ch) {
            Some(rec) => clone_items(rec.context.entries()),
            None => {
                let r: Vec<ConversationItem> = Vec::new();
                proof {
                    assert(r.deep_view() =~= Seq::<ItemView>::empty());
                }
                r
            },
        }
    }

    /// Whether the channel was ever referenced.
    pub fn has_channel(&self, ch: u64) -> (r: bool)
        ensures
            r == self@.contains_key(ch),
    {
        self.channels.contains_key(&ch)
    }

    /// Whether the persona is enabled in `ch`.
    pub fn is_enabled(&self, ch: u64) -> (r: bool)
        ensures
            r == self.enabled_of(ch),
    {
        match self.channels.get(&ch) {
            Some(rec) => rec.enabled,
            None => false,
        }
    }

    /// Enables or disables the persona in `ch`, creating the channel if
    /// absent; the log itself is untouched.
    pub fn set_enabled(&mut self, ch: u64, enabled: bool)
        requires
            old(self).wf(),
        ensures
            final(self).wf(),
            final(self).enabled_of(ch) == enabled,
            final(self).ctx_of(ch) == old(self).ctx_of(ch),
            final(self).cap_of(ch) == old(self).cap_of(ch),
            forall|other: u64| other != ch ==> final(self)@.contains_key(other) == old(
                self,
            )@.contains_key(other) && (final(self)@.contains_key(other) ==> final(self)@[other]
                == old(self)@[other]),
    {
        let mut rec = match self.channels.remove(&ch) {
            Some(r) => r,
            None => ChannelRecord::new(),
        };
        rec.enabled = enabled;
        self.channels.insert(ch, rec);
    }

    /// Empties the log of `ch`; an absent channel stays absent.
    pub fn clear(&mut self, ch: u64)
        requires
            old(self).wf(),
        ensures
            final(self).wf(),
            final(self).ctx_of(ch) == Seq::<ItemView>::empty(),
            final(self).cap_of(ch) == old(self).cap_of(ch),
            final(self).enabled_of(ch) == old(self).enabled_of(ch),
            forall|other: u64| other != ch ==> final(self)@.contains_key(other) == old(
                self,
            )@.contains_key(other) && (final(self)@.contains_key(other) ==> final(self)@[other]
                == old(self)@[other]),
    {
        match self.channels.remove(&ch) {
            Some(mut rec) => {
                rec.context.clear();
                self.channels.insert(ch, rec);
            },
            None => {},
        }
    }

    /// Sets or clears the per-channel override of the system prompt,
    /// creating the channel if absent.
    pub fn set_system_prompt(&mut self, ch: u64, prompt: Option<String>)
        requires
            old(self).wf(),
        ensures
            final(self).wf(),
            final(self)@.contains_key(ch),
            final(self)@[ch].system_prompt == prompt,
            final(self).ctx_of(ch) == old(self).ctx_of(ch),
            final(self).cap_of(ch) == old(self).cap_of(ch),
            final(self).enabled_of(ch) == old(self).enabled_of(ch),
            forall|other: u64| other != ch ==> final(self)@.contains_key(other) == old(
                self,
            )@.contains_key(other) && (final(self)@.contains_key(other) ==> final(self)@[other]
                == old(self)@[other]),
    {
        let mut rec = match self.channels.remove(&ch) {
            Some(r) => r,
            None => ChannelRecord::new(),
        };
        rec.system_prompt = prompt;
        self.channels.insert(ch, rec);
    }

    /// The per-channel override of the system prompt, if one is set.
    pub fn system_prompt(&self, ch: u64) -> (r: Option<&String>)
        ensures
            match r {
                Some(p) => self@.contains_key(ch) && self@[ch].system_prompt == Some(*p),
                None => !self@.contains_key(ch) || self@[ch].system_prompt is None,
            },
    {
        match self.channels.get(&ch) {
            Some(rec) => {
                match &rec.system_prompt {
                    Some(p) => Some(p),
                    None => None,
                }
            },
            None => None,
        }
    }
}

} // verus!
