//! Decisions taken while ingesting one platform message: which attachments
//! count as images, and the header line that names the author and the
//! replied-to message before the text itself.

use vstd::prelude::*;
use vstd::string::StringExecFns;

use crate::strutil::{str_ends_with, str_starts_with};

verus! {

/// Whether one attachment is treated as an image: by its content type when
/// the platform supplied one, else by its file extension.
pub open spec fn spec_is_image_attachment(content_type: Option<Seq<char>>, filename: Seq<char>) -> bool {
    match content_type {
        Some(ct) => ct.len() >= "image/"@.len() && ct.subrange(0, "image/"@.len() as int)
            == "image/"@,
        None => spec_has_suffix(filename, ".png"@) || spec_has_suffix(filename, ".jpg"@)
            || spec_has_suffix(filename, ".jpeg"@) || spec_has_suffix(filename, ".webp"@),
    }
}

/// Whether `s` ends with `suffix`.
pub open spec fn spec_has_suffix(s: Seq<char>, suffix: Seq<char>) -> bool {
    s.len() >= suffix.len() && s.subrange(s.len() - suffix.len(), s.len() as int) == suffix
}

/// Decides whether one attachment is an image; see
/// [`spec_is_image_attachment`].
pub fn is_image_attachment(content_type: Option<&String>, filename: &str) -> (r: bool)
    ensures
        r == spec_is_image_attachment(
            match content_type {
                Some(ct) => Some(ct@),
                None => None,
            },
            filename@,
        ),
{
    match content_type {
        Some(ct) => str_starts_with(ct.as_str(), "image/"),
        None => str_ends_with(filename, ".png") || str_ends_with(filename, ".jpg")
            || str_ends_with(filename, ".jpeg") || str_ends_with(filename, ".webp"),
    }
}

/// The header prepended to one ingested message: author, display name,
/// message id and the replied-to id, then the text on its own line.
pub fn message_header(
    author: &str,
    display_name: &str,
    msg_id: &str,
    reply_to: Option<&String>,
    content: &str,
) -> (r: String)
    ensures
        r@ == "user: "@ + author@ + ", display_name: "@ + display_name@ + ", msg_id: "@ + msg_id@
            + ", replay_to: "@ + (match reply_to {
            Some(m) => m@,
            None => "None"@,
        }) + "\n"@ + content@,
{
    let mut r = String::from_str("user: ");
    r.append(author);
    r.append(", display_name: ");
    r.append(display_name);
    r.append(", msg_id: ");
    r.append(msg_id);
    r.append(", replay_to: ");
    match reply_to {
        Some(m) => r.append(m.as_str()),
        None => r.append("None"),
    }
    r.append("\n");
    r.append(content);
    r
}


/// The system prompt one turn runs with: the standing prompt plus the
/// channel's identity, so the model knows where it is speaking.
pub fn system_prompt_for_channel(base: &str, channel_id: u64, channel_name: &str) -> (r: String)
    ensures
        r@ == base@ + "\n current channel_id: "@ + crate::strutil::spec_u64_digits(channel_id)
            + ", channel_name: "@ + channel_name@,
{
    let mut r = String::from_str(base);
    r.append("\n current channel_id: ");
    let digits = crate::strutil::u64_to_string(channel_id);
    r.append(digits.as_str());
    r.append(", channel_name: ");
    r.append(channel_name);
    r
}

} // verus!
