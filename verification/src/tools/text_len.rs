//! A tool that reports the length of a piece of text.

use vstd::prelude::*;
use vstd::string::StringExecFns;

use crate::strutil::{spec_u64_digits, str_byte_len, u64_to_string, utf8_len};
use crate::tools::{spec_lookup, ToolArgs};

verus! {

/// Computes the length of the input text.
#[derive(Debug)]
pub struct TextLengthTool;

/// What one invocation returns for the given fields: the byte length of
/// the `text` field as a small JSON document, or the missing-parameter
/// message.
pub open spec fn spec_text_len_run(args: Seq<(Seq<char>, Seq<char>)>) -> Result<
    Seq<char>,
    Seq<char>,
> {
    match spec_lookup(args, "text"@) {
        Some(t) => Ok("{\"length\":"@ + spec_u64_digits(utf8_len(t) as u64) + "}"@),
        None => Err("Missing 'text' parameter"@),
    }
}

impl TextLengthTool {
    pub fn new() -> (r: Self) {
        TextLengthTool
    }

    /// The name the registry resolves this tool under.
    pub fn name(&self) -> (r: String)
        ensures
            r@ == "text_length_tool"@,
    {
        String::from_str("text_length_tool")
    }

    /// The description advertised to the model.
    pub fn description(&self) -> (r: String)
        ensures
            r@ == "Returns the length of the input text."@,
    {
        String::from_str("Returns the length of the input text.")
    }

    /// The JSON schema of the accepted arguments.
    pub fn parameters_schema(&self) -> (r: String)
        ensures
            r@ == "{\"type\":\"object\",\"properties\":{\"text\":{\"type\":\"string\",\"description\":\"Input text to calculate its length\"}},\"required\":[\"text\"]}"@,
    {
        String::from_str(
            "{\"type\":\"object\",\"properties\":{\"text\":{\"type\":\"string\",\"description\":\"Input text to calculate its length\"}},\"required\":[\"text\"]}",
        )
    }

    /// Runs the tool on parsed arguments; see [`spec_text_len_run`].
    pub fn run(&self, args: &ToolArgs) -> (r: Result<String, String>)
        ensures
            r matches Ok(o) ==> spec_text_len_run(args@) matches Ok(s) && o@ == s,
            r matches Err(e) ==> spec_text_len_run(args@) matches Err(s) && e@ == s,
    {
        match args.get("text") {
            Some(t) => {
                let n = str_byte_len(t.as_str());
                let mut out = String::from_str("{\"length\":");
                let digits = u64_to_string(n as u64);
                out.append(digits.as_str());
                out.append("}");
                Ok(out)
            },
            None => Err(String::from_str("Missing 'text' parameter")),
        }
    }
}

} // verus!
