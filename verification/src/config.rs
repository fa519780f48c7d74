//! Startup configuration and the model catalogue of the single-shot
//! deployment: which models exist, their relative rate cost, and the
//! read-only constants the rate limiter and the web side run with.

use vstd::prelude::*;
use vstd::string::StringExecFns;

use crate::strutil::str_eq;

verus! {

/// The models offered by this deployment.
#[derive(Clone, Copy, Debug, PartialEq, Eq, Structural)]
pub enum Models {
    Gpt5Mini,
    Gpt5Nano,
    Gpt5dot1,
    O4Mini,
    O3,
    Gpt5dot1CodexMini,
}

/// The wire name of each model of the catalogue.
pub open spec fn spec_models_name(m: Models) -> Seq<char> {
    match m {
        Models::Gpt5Mini => "gpt-5-mini"@,
        Models::Gpt5Nano => "gpt-5-nano"@,
        Models::Gpt5dot1 => "gpt-5.1"@,
        Models::O4Mini => "o4-mini"@,
        Models::O3 => "o3"@,
        Models::Gpt5dot1CodexMini => "gpt-5.1-codex-mini"@,
    }
}

/// The rate cost of each model of the catalogue.
pub open spec fn spec_models_rate_cost(m: Models) -> u64 {
    match m {
        Models::Gpt5Mini => 1,
        Models::Gpt5Nano => 2,
        Models::Gpt5dot1 => 6,
        Models::O4Mini => 3,
        Models::O3 => 6,
        Models::Gpt5dot1CodexMini => 2,
    }
}

impl Models {
    /// Every model of the catalogue, in its fixed order.
    pub fn list() -> (r: Vec<Models>)
        ensures
            r@ == seq![
                Models::Gpt5Mini,
                Models::Gpt5Nano,
                Models::Gpt5dot1,
                Models::O4Mini,
                Models::O3,
                Models::Gpt5dot1CodexMini,
            ],
    {
        let mut r: Vec<Models> = Vec::new();
        r.push(Models::Gpt5Mini);
        r.push(Models::Gpt5Nano);
        r.push(Models::Gpt5dot1);
        r.push(Models::O4Mini);
        r.push(Models::O3);
        r.push(Models::Gpt5dot1CodexMini);
        proof {
            assert(r@ =~= seq![
                Models::Gpt5Mini,
                Models::Gpt5Nano,
                Models::Gpt5dot1,
                Models::O4Mini,
                Models::O3,
                Models::Gpt5dot1CodexMini,
            ]);
        }
        r
    }

    /// The relative expense the rate limiter charges for this model.
    pub fn rate_cost(&self) -> (r: u64)
        ensures
            r == spec_models_rate_cost(*self),
    {
        match self {
            Models::Gpt5Mini => 1,
            Models::Gpt5Nano => 2,
            Models::Gpt5dot1 => 6,
            Models::O4Mini => 3,
            Models::O3 => 6,
            Models::Gpt5dot1CodexMini => 2,
        }
    }

    /// The name this model is requested under on the wire.
    pub fn model_name(&self) -> (r: String)
        ensures
            r@ == spec_models_name(*self),
    {
        match self {
            Models::Gpt5Mini => String::from_str("gpt-5-mini"),
            Models::Gpt5Nano => String::from_str("gpt-5-nano"),
            Models::Gpt5dot1 => String::from_str("gpt-5.1"),
            Models::O4Mini => String::from_str("o4-mini"),
            Models::O3 => String::from_str("o3"),
            Models::Gpt5dot1CodexMini => String::from_str("gpt-5.1-codex-mini"),
        }
    }

    /// Resolves a wire name; an unknown one falls back to the cheapest
    /// nano model, as the command surface always accepts a name.
    pub fn from_name(name: &str) -> (r: Models)
        ensures
            forall|m: Models| name@ == spec_models_name(m) ==> r == m,
            (forall|m: Models| name@ != spec_models_name(m)) ==> r == Models::Gpt5Nano,
    {
        proof {
            reveal_strlit("gpt-5-mini");
            reveal_strlit("gpt-5-nano");
            reveal_strlit("gpt-5.1");
            reveal_strlit("o4-mini");
            reveal_strlit("o3");
            reveal_strlit("gpt-5.1-codex-mini");
            assert("gpt-5-mini"@.len() == 10);
            assert("gpt-5-nano"@.len() == 10);
            assert("gpt-5.1"@.len() == 7);
            assert("o4-mini"@.len() == 7);
            assert("o3"@.len() == 2);
            assert("gpt-5.1-codex-mini"@.len() == 18);
            assert("gpt-5-mini"@[6] == 'm' && "gpt-5-nano"@[6] == 'n');
            assert("gpt-5.1"@[0] == 'g' && "o4-mini"@[0] == 'o');
            assert(spec_models_name(Models::Gpt5Mini) == "gpt-5-mini"@);
            assert(spec_models_name(Models::Gpt5Nano) == "gpt-5-nano"@);
            assert(spec_models_name(Models::Gpt5dot1) == "gpt-5.1"@);
            assert(spec_models_name(Models::O4Mini) == "o4-mini"@);
            assert(spec_models_name(Models::O3) == "o3"@);
            assert(spec_models_name(Models::Gpt5dot1CodexMini) == "gpt-5.1-codex-mini"@);
        }
        if str_eq(name, "gpt-5-mini") {
            Models::Gpt5Mini
        } else if str_eq(name, "gpt-5-nano") {
            Models::Gpt5Nano
        } else if str_eq(name, "gpt-5.1") {
            Models::Gpt5dot1
        } else if str_eq(name, "o4-mini") {
            Models::O4Mini
        } else if str_eq(name, "o3") {
            Models::O3
        } else if str_eq(name, "gpt-5.1-codex-mini") {
            Models::Gpt5dot1CodexMini
        } else {
            Models::Gpt5Nano
        }
    }
}

/// The read-only configuration the runtime starts with. Secrets and the
/// system prompt are read at the process edge and handed in as plain values;
/// the limits and addresses are fixed at build time.
#[derive(Debug)]
pub struct Config {
    pub discord_token: String,
    pub openai_api_key: String,
    pub system_prompt: String,
    pub rale_limit_window_size: u64,
    pub rate_limit_sec_per_cost: u64,
    pub web_server_host: [u8; 4],
    pub web_server_local_ip: [u8; 4],
    pub web_server_port: u16,
    pub admin_users: Vec<u64>,
}

impl Config {
    /// Builds the configuration from the values read at the edge, filling in
    /// the fixed limits and addresses.
    pub fn new(discord_token: String, openai_api_key: String, system_prompt: String) -> (r: Config)
        ensures
            r.discord_token == discord_token,
            r.openai_api_key == openai_api_key,
            r.system_prompt == system_prompt,
            r.rale_limit_window_size == 16200,
            r.rate_limit_sec_per_cost == 900,
            r.web_server_port == 96,
            r.admin_users@ == seq![855371530270408725u64],
    {
        let mut admin_users: Vec<u64> = Vec::new();
        admin_users.push(855371530270408725);
        proof {
            assert(admin_users@ =~= seq![855371530270408725u64]);
        }
        Config {
            discord_token,
            openai_api_key,
            system_prompt,
            rale_limit_window_size: 16200,
            rate_limit_sec_per_cost: 900,
            web_server_host: [0, 0, 0, 0],
            web_server_local_ip: [192, 168, 0, 26],
            web_server_port: 96,
            admin_users,
        }
    }
}

} // verus!
