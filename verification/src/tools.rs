//! The tools the model can invoke, and the argument shape they share: a
//! tool call's JSON arguments are parsed once, at the edge of the registry,
//! into a flat list of string fields, and every executor works on that.

pub mod discord;
pub mod get_time;
pub mod latex;
pub mod memory;
pub mod text_len;
pub mod web_scraper;
pub mod www_search;

use vstd::prelude::*;

verus! {

/// The read-only facts of the outside world a tool execution may consult.
#[derive(Clone, Copy, Debug)]
pub struct ToolContext {
    /// Seconds since the Unix epoch at the start of the run.
    pub now_unix: i64,
}

/// The first value bound to `key` in a list of fields, if any.
pub open spec fn spec_lookup(pairs: Seq<(Seq<char>, Seq<char>)>, key: Seq<char>) -> Option<
    Seq<char>,
>
    decreases pairs.len(),
{
    if pairs.len() == 0 {
        None
    } else if pairs.first().0 == key {
        Some(pairs.first().1)
    } else {
        spec_lookup(pairs.drop_first(), key)
    }
}

/// One tool call's arguments: the object's fields, each rendered to a
/// string (a non-string value keeps its JSON text), in key order.
#[derive(Debug)]
pub struct ToolArgs {
    pub fields: Vec<(String, String)>,
}

impl View for ToolArgs {
    type V = Seq<(Seq<char>, Seq<char>)>;

    open spec fn view(&self) -> Seq<(Seq<char>, Seq<char>)> {
        self.fields.deep_view()
    }
}

impl ToolArgs {
    /// Arguments with no fields at all.
    pub fn empty() -> (r: ToolArgs)
        ensures
            r@ == Seq::<(Seq<char>, Seq<char>)>::empty(),
    {
        let r = ToolArgs { fields: Vec::new() };
        proof {
            assert(r@ =~= Seq::<(Seq<char>, Seq<char>)>::empty());
        }
        r
    }

    /// The value of `key`, if the object carried it.
    pub fn get(&self, key: &str) -> (r: Option<&String>)
        ensures
            match r {
                Some(v) => spec_lookup(self@, key@) == Some(v@),
                None => spec_lookup(self@, key@) is None,
            },
    {
        let n = self.fields.len();
        proof {
            assert(self@.skip(0) =~= self@);
        }
        for i in 0..n
            invariant
                n == self.fields@.len(),
                spec_lookup(self@, key@) == spec_lookup(self@.skip(i as int), key@),
        {
            proof {
                assert(self@.skip(i as int).first() == self@[i as int]);
                assert(self@.skip(i as int).drop_first() =~= self@.skip(i + 1));
            }
            if crate::strutil::str_eq(self.fields[i].0.as_str(), key) {
                return Some(&self.fields[i].1);
            }
        }
        proof {
            assert(self@.skip(n as int) =~= Seq::<(Seq<char>, Seq<char>)>::empty());
        }
        None
    }
}

/// What parsing a tool call's JSON arguments yields: the object's fields in
/// key order with non-string values rendered to their JSON text, or the
/// parser's message. The result depends on the text alone.
pub uninterp spec fn json_object_pairs(s: Seq<char>) -> Result<
    Seq<(Seq<char>, Seq<char>)>,
    Seq<char>,
>;

/// Relies on serde_json: `from_str` parses the text, a JSON object's fields
/// come out of its map in key order, and `Value::to_string` renders a
/// non-string value back to JSON text.
#[verifier::external_body]
pub fn parse_tool_args(s: &str) -> (r: Result<ToolArgs, String>)
    ensures
        r matches Ok(args) ==> (json_object_pairs(s@) matches Ok(p) && args@ == p),
        r matches Err(e) ==> (json_object_pairs(s@) matches Err(m) && e@ == m),
{
    match serde_json::from_str::<serde_json::Value>(s) {
        Ok(serde_json::Value::Object(map)) => {
            let fields = map
                .into_iter()
                .map(|(k, v)| match v {
                    serde_json::Value::String(sv) => (k, sv),
                    other => (k, other.to_string()),
                })
                .collect();
            Ok(ToolArgs { fields })
        },
        Ok(_) => Err("tool arguments are not a JSON object".to_string()),
        Err(e) => Err(e.to_string()),
    }
}

} // verus!
