//! The admission decision taken before any model call: the channel must
//! have the persona enabled, and the user's rate line must admit the
//! request. Nothing is invoked and nothing is charged for a refused turn.

use vstd::prelude::*;
use vstd::string::StringExecFns;

use crate::agent::AIModel;
use crate::ratelimit::{spec_rate_decision, RateDecision};
use crate::strutil::{spec_u64_digits, u64_to_string};

verus! {

/// Whether the persona is enabled in one channel.
#[derive(Clone, Copy, Debug, PartialEq, Eq, Structural)]
pub struct ChConf {
    pub enable: bool,
}

/// One user's settings: the future instant the user's usage debt clears
/// (`0` meaning unlimited) and the model the user selected.
#[derive(Clone, Copy, Debug, PartialEq, Eq, Structural)]
pub struct PerUserConfig {
    pub rate_limit: u64,
    pub model: AIModel,
}

impl Default for PerUserConfig {
    /// A fresh user: rate-limited from the first request, on the default
    /// model.
    fn default() -> (r: Self)
        ensures
            r == (PerUserConfig { rate_limit: 1u64, model: AIModel::MO4Mini }),
    {
        PerUserConfig { rate_limit: 1, model: AIModel::MO4Mini }
    }
}

/// Whether a mentioned turn may proceed, and at what cost.
#[derive(Debug)]
pub enum Admission {
    /// Proceed; the caller stores the user's new rate line.
    Proceed { new_rate_line: u64 },
    /// Refused; the message explains why, and nothing was charged.
    Refused { message: String },
}

/// The refusal a disabled channel answers with.
pub open spec fn spec_disabled_message() -> Seq<char> {
    "Err: AI is disabled in this channel"@
}

/// The refusal a rate-limited user answers with: it carries the positive
/// wait, in seconds.
pub open spec fn spec_rate_message(retry_after: u64) -> Seq<char> {
    "Err: rate limit - try again after "@ + spec_u64_digits(retry_after) + "s"@
}

/// Decides one mentioned turn before any model call: a disabled channel
/// refuses outright; otherwise the rate limiter decides, a rejection is
/// worded with its positive wait and leaves the line untouched, and an
/// admission carries the user's new line.
pub fn admit_request(conf: Option<&ChConf>, rate_line: u64, now: u64, window: u64, add: u64) -> (r:
    Admission)
    requires
        now + window <= u64::MAX,
        now + add <= u64::MAX,
        rate_line + add <= u64::MAX,
    ensures
        (conf is None || !conf->0.enable) ==> (r matches Admission::Refused { message } && message@
            == spec_disabled_message()),
        (conf matches Some(c) && c.enable) ==> match spec_rate_decision(
            rate_line,
            now,
            window,
            add,
        ) {
            RateDecision::Allow { new_rate_line } => r == (Admission::Proceed { new_rate_line }),
            RateDecision::Reject { retry_after } => (r matches Admission::Refused { message }
                && message@ == spec_rate_message(retry_after)),
        },
{
    let enabled = match conf {
        Some(c) => c.enable,
        None => false,
    };
    if !enabled {
        return Admission::Refused {
            message: String::from_str("Err: AI is disabled in this channel"),
        };
    }
    match crate::ratelimit::check_rate(rate_line, now, window, add) {
        RateDecision::Allow { new_rate_line } => Admission::Proceed { new_rate_line },
        RateDecision::Reject { retry_after } => {
            let mut message = String::from_str("Err: rate limit - try again after ");
            let digits = u64_to_string(retry_after);
            message.append(digits.as_str());
            message.append("s");
            Admission::Refused { message }
        },
    }
}

} // verus!
