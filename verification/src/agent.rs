//! The selectable chat models: their wire names, user-facing descriptions
//! and relative rate cost, plus the shape of one inbound platform message.

use vstd::prelude::*;
use vstd::string::StringExecFns;

use crate::strutil::str_eq;

verus! {

/// One inbound message as the platform gateway hands it over: plain values
/// only, with attachments already reduced to their URLs.
#[derive(Debug)]
pub struct InputMessage {
    pub content: String,
    pub name: String,
    pub message_id: String,
    pub reply_msg: Option<String>,
    pub user_id: String,
    pub attached_files: Vec<String>,
}

/// The chat models a user can select.
#[derive(Clone, Copy, Debug, PartialEq, Eq, Structural)]
pub enum AIModel {
    MO4Mini,
    MO4MiniDeepResearch,
    MO3,
    M4dot1Nano,
    M4dot1Mini,
    M4dot1,
    Gemini2dot5Flash,
}

/// The wire name of each model.
pub open spec fn spec_model_name(m: AIModel) -> Seq<char> {
    match m {
        AIModel::MO4Mini => "o4-mini"@,
        AIModel::MO4MiniDeepResearch => "o4-mini-deep-research"@,
        AIModel::MO3 => "o3"@,
        AIModel::M4dot1Nano => "gpt-4.1-nano"@,
        AIModel::M4dot1Mini => "gpt-4.1-mini"@,
        AIModel::M4dot1 => "gpt-4.1"@,
        AIModel::Gemini2dot5Flash => "gemini-2.5-flash"@,
    }
}

/// The user-facing description of each model.
pub open spec fn spec_model_discription(m: AIModel) -> Seq<char> {
    match m {
        AIModel::MO4Mini => "o4-mini: strong at math and coding"@,
        AIModel::MO4MiniDeepResearch => "o4-mini-deep-research: good at deep research"@,
        AIModel::MO3 => "o3: the strongest general model"@,
        AIModel::M4dot1Nano => "gpt-4.1-nano: fastest responses"@,
        AIModel::M4dot1Mini => "gpt-4.1-mini: fast responses"@,
        AIModel::M4dot1 => "gpt-4.1: general purpose"@,
        AIModel::Gemini2dot5Flash => "gemini-2.5-flash: fast single-shot model"@,
    }
}

/// The relative rate cost of each model.
pub open spec fn spec_sec_per_rate(m: AIModel) -> usize {
    match m {
        AIModel::MO4Mini => 4,
        AIModel::MO4MiniDeepResearch => 20,
        AIModel::MO3 => 10,
        AIModel::M4dot1Nano => 1,
        AIModel::M4dot1Mini => 2,
        AIModel::M4dot1 => 10,
        AIModel::Gemini2dot5Flash => 3,
    }
}

impl AIModel {
    /// The name this model is requested under on the wire.
    pub fn to_model_name(&self) -> (r: String)
        ensures
            r@ == spec_model_name(*self),
    {
        match self {
            AIModel::MO4Mini => String::from_str("o4-mini"),
            AIModel::MO4MiniDeepResearch => String::from_str("o4-mini-deep-research"),
            AIModel::MO3 => String::from_str("o3"),
            AIModel::M4dot1Nano => String::from_str("gpt-4.1-nano"),
            AIModel::M4dot1Mini => String::from_str("gpt-4.1-mini"),
            AIModel::M4dot1 => String::from_str("gpt-4.1"),
            AIModel::Gemini2dot5Flash => String::from_str("gemini-2.5-flash"),
        }
    }

    /// A short description shown when a user picks a model.
    pub fn to_model_discription(&self) -> (r: String)
        ensures
            r@ == spec_model_discription(*self),
    {
        match self {
            AIModel::MO4Mini => String::from_str("o4-mini: strong at math and coding"),
            AIModel::MO4MiniDeepResearch => String::from_str(
                "o4-mini-deep-research: good at deep research",
            ),
            AIModel::MO3 => String::from_str("o3: the strongest general model"),
            AIModel::M4dot1Nano => String::from_str("gpt-4.1-nano: fastest responses"),
            AIModel::M4dot1Mini => String::from_str("gpt-4.1-mini: fast responses"),
            AIModel::M4dot1 => String::from_str("gpt-4.1: general purpose"),
            AIModel::Gemini2dot5Flash => String::from_str("gemini-2.5-flash: fast single-shot model"),
        }
    }

    /// How many cost units one request with this model consumes.
    pub fn to_sec_per_rate(&self) -> (r: usize)
        ensures
            r == spec_sec_per_rate(*self),
    {
        match self {
            AIModel::MO4Mini => 4,
            AIModel::MO4MiniDeepResearch => 20,
            AIModel::MO3 => 10,
            AIModel::M4dot1Nano => 1,
            AIModel::M4dot1Mini => 2,
            AIModel::M4dot1 => 10,
            AIModel::Gemini2dot5Flash => 3,
        }
    }

    /// Resolves a wire name back to the model; an unknown name is rejected
    /// with a diagnostic naming it.
    pub fn from_model_name(model_name: &str) -> (r: Result<AIModel, String>)
        ensures
            forall|m: AIModel| model_name@ == spec_model_name(m) ==> r == Ok::<AIModel, String>(m),
            (forall|m: AIModel| model_name@ != spec_model_name(m)) ==> (r matches Err(e) && e@
                == "Unknown model name: "@ + model_name@),
    {
        proof {
            reveal_strlit("o4-mini");
            reveal_strlit("o4-mini-deep-research");
            reveal_strlit("o3");
            reveal_strlit("gpt-4.1-nano");
            reveal_strlit("gpt-4.1-mini");
            reveal_strlit("gpt-4.1");
            reveal_strlit("gemini-2.5-flash");
            assert("o4-mini"@.len() == 7);
            assert("o4-mini-deep-research"@.len() == 21);
            assert("o3"@.len() == 2);
            assert("gpt-4.1-nano"@.len() == 12);
            assert("gpt-4.1-mini"@.len() == 12);
            assert("gpt-4.1"@.len() == 7);
            assert("gemini-2.5-flash"@.len() == 16);
            assert("o4-mini"@[0] == 'o' && "gpt-4.1"@[0] == 'g');
            assert("gpt-4.1-nano"@[8] == 'n' && "gpt-4.1-mini"@[8] == 'm');
            assert(spec_model_name(AIModel::MO4Mini) == "o4-mini"@);
            assert(spec_model_name(AIModel::MO4MiniDeepResearch) == "o4-mini-deep-research"@);
            assert(spec_model_name(AIModel::MO3) == "o3"@);
            assert(spec_model_name(AIModel::M4dot1Nano) == "gpt-4.1-nano"@);
            assert(spec_model_name(AIModel::M4dot1Mini) == "gpt-4.1-mini"@);
            assert(spec_model_name(AIModel::M4dot1) == "gpt-4.1"@);
            assert(spec_model_name(AIModel::Gemini2dot5Flash) == "gemini-2.5-flash"@);
        }
        if str_eq(model_name, "o4-mini") {
            Ok(AIModel::MO4Mini)
        } else if str_eq(model_name, "o4-mini-deep-research") {
            Ok(AIModel::MO4MiniDeepResearch)
        } else if str_eq(model_name, "o3") {
            Ok(AIModel::MO3)
        } else if str_eq(model_name, "gpt-4.1-nano") {
            Ok(AIModel::M4dot1Nano)
        } else if str_eq(model_name, "gpt-4.1-mini") {
            Ok(AIModel::M4dot1Mini)
        } else if str_eq(model_name, "gpt-4.1") {
            Ok(AIModel::M4dot1)
        } else if str_eq(model_name, "gemini-2.5-flash") {
            Ok(AIModel::Gemini2dot5Flash)
        } else {
            let mut e = String::from_str("Unknown model name: ");
            e.append(model_name);
            Err(e)
        }
    }
}

impl Default for AIModel {
    /// The model a fresh user profile starts with.
    fn default() -> (r: Self)
        ensures
            r == AIModel::MO4Mini,
    {
        AIModel::MO4Mini
    }
}


/// What masking spoiler spans leaves of a text. Every `||…||` span is
/// replaced by the fixed marker; the result depends on the text alone.
pub uninterp spec fn spoiler_masked(s: Seq<char>) -> Seq<char>;

/// Relies on regex::Regex::replace_all with the fixed pattern
/// `(\|\|.*?\|\|)`: every spoiler span becomes the literal marker
/// `||<spoiler_msg>||`.
#[verifier::external_body]
fn mask_spoilers(s: &str) -> (r: String)
    ensures
        r@ == spoiler_masked(s@),
{
    let re = regex::Regex::new(r"(\|\|.*?\|\|)").unwrap();
    re.replace_all(s, "||<spoiler_msg>||").to_string()
}

/// What masking user mentions leaves of a text. Every `<@digits>` mention
/// is replaced by a neutral handle; the result depends on the text alone.
pub uninterp spec fn mentions_masked(s: Seq<char>) -> Seq<char>;

/// Relies on regex::Regex::replace_all with the fixed pattern `<@(\d+)>`:
/// every raw mention becomes the literal `@user`.
#[verifier::external_body]
fn mask_mentions(s: &str) -> (r: String)
    ensures
        r@ == mentions_masked(s@),
{
    let re = regex::Regex::new(r"<@(\d+)>").unwrap();
    re.replace_all(s, "@user").to_string()
}

/// What stripping the detail flag leaves of a text. The result depends on
/// the text alone.
pub uninterp spec fn hidetail_removed(s: Seq<char>) -> Seq<char>;

/// Relies on str::replace: every occurrence of the flag word `!hidetail`
/// is removed.
#[verifier::external_body]
fn remove_hidetail(s: &str) -> (r: String)
    ensures
        r@ == hidetail_removed(s@),
{
    s.replace("!hidetail", "")
}

/// The sanitized body of one inbound message: spoiler spans and raw
/// mentions masked, and — when the author asked for high image detail with
/// the flag word — that flag stripped.
pub open spec fn spec_prepared_body(content: Seq<char>) -> Seq<char> {
    let masked = mentions_masked(spoiler_masked(content));
    if crate::strutil::spec_contains(masked, "!hidetail"@) {
        hidetail_removed(masked)
    } else {
        masked
    }
}

/// The image detail level one prepared turn requests: the flag word forces
/// high detail, else the caller's default stands.
pub open spec fn spec_prepared_detail(content: Seq<char>, viw_image_detail: u8) -> u8 {
    if crate::strutil::spec_contains(mentions_masked(spoiler_masked(content)), "!hidetail"@) {
        255
    } else {
        viw_image_detail
    }
}

/// Prepares one inbound message as the user-role conversation item the
/// orchestration run starts from: the body is sanitized, a metadata header
/// names the message, author and replied-to text, and — unless image
/// detail is off — each attached image follows as its own part, tagged
/// `low` or `high` where those levels are requested.
pub fn prepare_user_prompt(message: &InputMessage, viw_image_detail: u8, image_urls: &Vec<String>)
    -> (r: Vec<crate::items::ConversationItem>)
    ensures
        ({
            let body = spec_prepared_body(message.content@);
            let flag = spec_prepared_detail(message.content@, viw_image_detail);
            let reply = match message.reply_msg {
                Some(m) => m@,
                None => "none"@,
            };
            let meta = "[META]msg_id:"@ + message.message_id@ + ",user_name:"@ + message.name@
                + ",replay_msg:"@ + reply + ";\n"@ + body;
            &&& r.deep_view().len() == 1
            &&& r.deep_view()[0] matches crate::items::ItemView::Message { role, content }
                && role == crate::items::Role::User && content.len() == (if flag == 0 {
                1int
            } else {
                1int + image_urls@.len()
            }) && (content[0] matches crate::items::MessageContext::Text(t) && t@ == meta) && (
            forall|i: int|
                1 <= i < content.len() ==> ((#[trigger] content[i])
                    matches crate::items::MessageContext::Image(img) && img.url@
                    == image_urls.deep_view()[i - 1] && (match img.detail {
                    Some(d) => (flag == 1 && d@ == "low"@) || (flag == 255 && d@ == "high"@),
                    None => flag != 1 && flag != 255,
                })))
        }),
{
    let masked = mask_spoilers(message.content.as_str());
    let masked = mask_mentions(masked.as_str());
    let hid = crate::strutil::str_contains(masked.as_str(), "!hidetail");
    let body = if hid {
        remove_hidetail(masked.as_str())
    } else {
        masked
    };
    let flag: u8 = if hid {
        255
    } else {
        viw_image_detail
    };
    let mut meta = String::from_str("[META]msg_id:");
    meta.append(message.message_id.as_str());
    meta.append(",user_name:");
    meta.append(message.name.as_str());
    meta.append(",replay_msg:");
    match &message.reply_msg {
        Some(m) => meta.append(m.as_str()),
        None => meta.append("none"),
    }
    meta.append(";\n");
    meta.append(body.as_str());
    let ghost metaview = meta@;
    let mut content: Vec<crate::items::MessageContext> = Vec::new();
    content.push(crate::items::MessageContext::Text(meta));
    if flag != 0 {
        let n = image_urls.len();
        for i in 0..n
            invariant
                n == image_urls@.len(),
                flag != 0,
                content@.len() == 1 + i,
                content@[0] matches crate::items::MessageContext::Text(t) && t@ == metaview,
                forall|j: int|
                    1 <= j < content@.len() ==> ((#[trigger] content@[j])
                        matches crate::items::MessageContext::Image(img) && img.url@
                        == image_urls.deep_view()[j - 1] && (match img.detail {
                        Some(d) => (flag == 1 && d@ == "low"@) || (flag == 255 && d@ == "high"@),
                        None => flag != 1 && flag != 255,
                    })),
        {
            let detail: Option<String> = if flag == 1 {
                Some(String::from_str("low"))
            } else if flag == 255 {
                Some(String::from_str("high"))
            } else {
                None
            };
            content.push(
                crate::items::MessageContext::Image(
                    crate::items::MessageImage { url: image_urls[i].clone(), detail },
                ),
            );
        }
    }
    let mut r: Vec<crate::items::ConversationItem> = Vec::new();
    r.push(crate::items::ConversationItem::Message { role: crate::items::Role::User, content });
    proof {
        assert(r.deep_view().len() == 1);
    }
    r
}

} // verus!
