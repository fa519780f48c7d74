//! The deployment's settings as plain values. Reading them from a file is
//! the process edge's job; the runtime only carries them.

use vstd::prelude::*;

verus! {

/// How the main model is reached and sized.
#[derive(Debug)]
pub struct ModelSettings {
    pub model_generate_max_tokens: usize,
    pub main_model_endpoint: String,
    pub main_model_api_key: String,
    pub model_name: String,
}

/// The standing instruction given to the persona for every turn.
#[derive(Debug)]
pub struct PromptSettings {
    pub ask_developer_prompt: String,
}

} // verus!
