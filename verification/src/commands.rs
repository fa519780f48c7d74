//! The administrative command surface's decisions: flipping a channel's
//! enabled flag with the right wording, and forcibly adjusting a user's
//! rate line. Registering the commands with the platform and answering the
//! interactions happen at the process edge.

use vstd::prelude::*;
use vstd::string::StringExecFns;

use crate::store::ContextStore;

verus! {

/// The reply for an enable/disable command: `already` says whether the
/// channel was in that state before.
pub open spec fn spec_toggle_message(enable: bool, already: bool) -> Seq<char> {
    if already {
        if enable {
            "Info: AI is already enabled"@
        } else {
            "Info: AI is already disabled"@
        }
    } else {
        if enable {
            "Info: AI is enabled"@
        } else {
            "Info: AI is disabled"@
        }
    }
}

/// Enables or disables the persona in a channel and words the reply. The
/// returned flag says whether anything changed and the configuration must
/// be saved; asking for the state a referenced channel already has changes
/// nothing.
pub fn set_channel_enabled(store: &mut ContextStore, ch: u64, enable: bool) -> (r: (String, bool))
    requires
        old(store).wf(),
    ensures
        final(store).wf(),
        final(store).enabled_of(ch) == enable,
        final(store).ctx_of(ch) == old(store).ctx_of(ch),
        final(store).cap_of(ch) == old(store).cap_of(ch),
        (old(store)@.contains_key(ch) && old(store).enabled_of(ch) == enable) ==> (r.1 == false
            && r.0@ == spec_toggle_message(enable, true) && *final(store) == *old(store)),
        !(old(store)@.contains_key(ch) && old(store).enabled_of(ch) == enable) ==> (r.1 == true
            && r.0@ == spec_toggle_message(enable, false)),
{
    if store.has_channel(ch) && store.is_enabled(ch) == enable {
        let message = if enable {
            String::from_str("Info: AI is already enabled")
        } else {
            String::from_str("Info: AI is already disabled")
        };
        return (message, false);
    }
    store.set_enabled(ch, enable);
    let message = if enable {
        String::from_str("Info: AI is enabled")
    } else {
        String::from_str("Info: AI is disabled")
    };
    (message, true)
}

/// An administrator's forcible adjustment of a user's rate line: `0` makes
/// the user unlimited, a negative step resets the line to now, and a
/// positive step consumes that many rate units on top of the line (raised
/// to now first when it had drained).
pub fn apply_rate_adjust(rate_limit: u64, timestamp: u64, user_line: i64, sec_per_rate: u64) -> (r:
    u64)
    requires
        user_line > 0 ==> (if rate_limit < timestamp {
            timestamp
        } else {
            rate_limit
        }) + user_line * sec_per_rate <= u64::MAX,
    ensures
        user_line == 0 ==> r == 0,
        user_line < 0 ==> r == timestamp,
        user_line > 0 ==> r == (if rate_limit < timestamp {
            timestamp
        } else {
            rate_limit
        }) + user_line * sec_per_rate,
{
    if user_line == 0 {
        0
    } else if user_line < 0 {
        timestamp
    } else {
        let base = if rate_limit < timestamp {
            timestamp
        } else {
            rate_limit
        };
        base + (user_line as u64) * sec_per_rate
    }
}

} // verus!
