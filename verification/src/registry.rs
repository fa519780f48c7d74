//! The tool registry: the orchestration loop resolves a requested tool name
//! here and executes it. An unknown name is a contract mismatch between
//! what was advertised and what is registered, and is reported as such —
//! never as a tool-level error the model could retry.

use vstd::prelude::*;
use vstd::string::StringExecFns;

use crate::brain::tools::memory::{spec_memory_run, MemoryTool};
use crate::strutil::str_eq;
use crate::tools::get_time::{spec_clock_run, GetTime};
use crate::tools::text_len::{spec_text_len_run, TextLengthTool};
use crate::tools::{json_object_pairs, parse_tool_args, ToolContext};

verus! {

/// What the registry advertises of one tool.
#[derive(Debug)]
pub struct ToolDescriptor {
    pub name: String,
    pub description: String,
    pub parameters_schema: String,
}

/// A tool the runtime can execute itself, together with its state.
#[derive(Debug)]
pub enum BuiltinTool {
    Clock(GetTime),
    TextLength(TextLengthTool),
    Memory(MemoryTool),
}

/// One registered tool.
#[derive(Debug)]
pub struct ToolEntry {
    pub descriptor: ToolDescriptor,
    pub executor: BuiltinTool,
}

/// The registered tools, resolved by name.
#[derive(Debug)]
pub struct ToolRegistry {
    entries: Vec<ToolEntry>,
}

/// What executing one requested call yields: a verdict on the name, then
/// the tool's own success or failure text.
#[derive(Debug)]
pub enum ToolExecOutcome {
    /// No tool of that name is registered: a fatal contract mismatch.
    NotFound,
    /// The tool ran; its own failures come back as the error text.
    Ran(Result<String, String>),
}

impl ToolRegistry {
    /// The advertised names, in registration order.
    pub closed spec fn names(&self) -> Seq<Seq<char>> {
        self.entries.deep_view().map_values(|e: ToolEntryView| e.name)
    }

    /// Whether a tool of this name is registered.
    pub open spec fn has_tool(&self, name: Seq<char>) -> bool {
        self.names().contains(name)
    }

    /// The memories of all registered memory tools are well-formed.
    pub closed spec fn wf(&self) -> bool {
        forall|i: int|
            0 <= i < self.entries@.len() ==> match (#[trigger] self.entries@[i]).executor {
                BuiltinTool::Memory(m) => m.wf(),
                _ => true,
            }
    }

    /// An empty registry.
    pub fn new() -> (r: ToolRegistry)
        ensures
            r.names() == Seq::<Seq<char>>::empty(),
            r.wf(),
    {
        let r = ToolRegistry { entries: Vec::new() };
        proof {
            assert(r.names() =~= Seq::<Seq<char>>::empty());
        }
        r
    }

    /// Registers one tool under the given descriptor.
    pub fn register(&mut self, descriptor: ToolDescriptor, executor: BuiltinTool)
        requires
            old(self).wf(),
            match executor {
                BuiltinTool::Memory(m) => m.wf(),
                _ => true,
            },
        ensures
            final(self).wf(),
            final(self).names() == old(self).names().push(descriptor.name@),
    {
        let ghost pre = self.names();
        self.entries.push(ToolEntry { descriptor, executor });
        proof {
            assert(self.names() =~= pre.push(self.entries@.last().descriptor.name@));
            assert forall|i: int| 0 <= i < self.entries@.len() implies match (
            #[trigger] self.entries@[i]).executor {
                BuiltinTool::Memory(m) => m.wf(),
                _ => true,
            } by {
                if i < self.entries@.len() - 1 {
                    assert(self.entries@[i] == old(self).entries@[i]);
                }
            }
        }
    }

    /// The registered descriptors, for building a request's tool
    /// declarations.
    pub fn descriptors(&self) -> (r: &Vec<ToolEntry>)
        ensures
            r.deep_view().map_values(|e: ToolEntryView| e.name) == self.names(),
    {
        &self.entries
    }

    /// Resolves `name` and executes the call on its parsed arguments. An
    /// unregistered name is `NotFound`; arguments that fail to parse as a
    /// JSON object are a tool-level error fed back to the model; otherwise
    /// the first entry of that name runs, its outcome and its state
    /// afterwards are exactly [`spec_builtin_run`] of its executor, and
    /// every other entry is untouched.
    pub fn execute(&mut self, name: &str, args_json: &str, ctx: &ToolContext) -> (r:
        ToolExecOutcome)
        requires
            old(self).wf(),
        ensures
            final(self).wf(),
            final(self).names() == old(self).names(),
            r is NotFound <==> !old(self).has_tool(name@),
            !old(self).has_tool(name@) ==> final(self)@ == old(self)@,
            old(self).has_tool(name@) ==> (json_object_pairs(args_json@) matches Err(m) ==> (
            r matches ToolExecOutcome::Ran(res) && res matches Err(e) && e@ == m && final(self)@
                == old(self)@)),
            old(self).has_tool(name@) ==> (json_object_pairs(args_json@) matches Ok(pairs) ==> ({
                let i = spec_resolve_index(old(self)@, name@);
                let stepped = spec_builtin_run(old(self)@[i].executor, pairs, ctx.now_unix);
                r matches ToolExecOutcome::Ran(out) && spec_result_is(out, stepped.1)
                    && final(self)@ == spec_registry_step(old(self)@, name@, pairs, ctx.now_unix)
            })),
    {
        let ghost prenames = self.names();
        let n = self.entries.len();
        proof {
            assert(prenames.take(0) =~= Seq::<Seq<char>>::empty());
        }
        for i in 0..n
            invariant
                old(self).wf(),
                n == self.entries@.len(),
                self == old(self),
                prenames == self.names(),
                forall|j: int| 0 <= j < i ==> prenames[j] != name@,
        {
            proof {
                assert(self.names()[i as int] == self.entries@[i as int].descriptor.name@);
            }
            if str_eq(self.entries[i].descriptor.name.as_str(), name) {
                proof {
                    assert forall|j: int| 0 <= j < i implies (#[trigger] old(self)@[j]).name
                        != name@ by {
                        assert(prenames[j] == old(self)@[j].name);
                    }
                    assert(old(self)@[i as int].name == name@);
                    lemma_resolve_at(old(self)@, i as int, name@);
                }
                let args = match parse_tool_args(args_json) {
                    Ok(a) => a,
                    Err(e) => {
                        return ToolExecOutcome::Ran(Err(e));
                    },
                };
                let entry = self.entries.remove(i);
                let ToolEntry { descriptor, executor } = entry;
                let ghost pre_exec = executor@;
                let (executor, outcome) = match executor {
                    BuiltinTool::Clock(t) => {
                        let o = t.run(&args, ctx);
                        (BuiltinTool::Clock(t), o)
                    },
                    BuiltinTool::TextLength(t) => {
                        let o = t.run(&args);
                        (BuiltinTool::TextLength(t), o)
                    },
                    BuiltinTool::Memory(mut t) => {
                        let o = t.run(&args);
                        (BuiltinTool::Memory(t), o)
                    },
                };
                proof {
                    assert(spec_result_is(
                        outcome,
                        spec_builtin_run(pre_exec, args@, ctx.now_unix).1,
                    ));
                    assert(executor@ == spec_builtin_run(pre_exec, args@, ctx.now_unix).0);
                }
                self.entries.insert(i, ToolEntry { descriptor, executor });
                proof {
                    assert(self.names() =~= prenames);
                    assert(self@ =~~= old(self)@.update(
                        i as int,
                        ToolEntryView {
                            name: old(self)@[i as int].name,
                            executor: spec_builtin_run(pre_exec, args@, ctx.now_unix).0,
                        },
                    ));
                    assert forall|j: int| 0 <= j < self.entries@.len() implies match (
                    #[trigger] self.entries@[j]).executor {
                        BuiltinTool::Memory(m) => m.wf(),
                        _ => true,
                    } by {
                        if j != i {
                            assert(self.entries@[j] == old(self).entries@[j]);
                        }
                    }
                }
                return ToolExecOutcome::Ran(outcome);
            }
        }
        proof {
            assert forall|k: int| 0 <= k < prenames.len() implies prenames[k] != name@ by {}
            assert(!prenames.contains(name@));
        }
        ToolExecOutcome::NotFound
    }
}

/// The ghost shape of one executor: which tool it is, and — for the
/// stateful memory — its stored pairs.
#[verifier::ext_equal]
pub ghost enum BuiltinToolView {
    Clock,
    TextLength,
    Memory(Seq<(Seq<char>, Seq<char>)>),
}

impl View for BuiltinTool {
    type V = BuiltinToolView;

    open spec fn view(&self) -> BuiltinToolView {
        match self {
            BuiltinTool::Clock(_) => BuiltinToolView::Clock,
            BuiltinTool::TextLength(_) => BuiltinToolView::TextLength,
            BuiltinTool::Memory(m) => BuiltinToolView::Memory(m@),
        }
    }
}

/// The ghost shape of one registered tool: its advertised name and its
/// executor's state.
#[verifier::ext_equal]
pub ghost struct ToolEntryView {
    pub name: Seq<char>,
    pub executor: BuiltinToolView,
}

impl View for ToolEntry {
    type V = ToolEntryView;

    open spec fn view(&self) -> ToolEntryView {
        ToolEntryView { name: self.descriptor.name@, executor: self.executor@ }
    }
}

/// The position of the first entry resolving `name`.
pub open spec fn spec_resolve_index(entries: Seq<ToolEntryView>, name: Seq<char>) -> int
    decreases entries.len(),
{
    if entries.len() == 0 {
        0
    } else if entries.first().name == name {
        0
    } else {
        1 + spec_resolve_index(entries.drop_first(), name)
    }
}

/// Whether an executable result carries exactly this specified outcome.
pub open spec fn spec_result_is(r: Result<String, String>, v: Result<Seq<char>, Seq<char>>) -> bool {
    match r {
        Ok(o) => v matches Ok(w) && o@ == w,
        Err(e) => v matches Err(w) && e@ == w,
    }
}

/// What running one executor on parsed fields does: the executor's state
/// afterwards and its reported outcome — the clock and length tools are
/// stateless, the memory steps by [`spec_memory_run`].
pub open spec fn spec_builtin_run(
    exec: BuiltinToolView,
    args: Seq<(Seq<char>, Seq<char>)>,
    now_unix: i64,
) -> (BuiltinToolView, Result<Seq<char>, Seq<char>>) {
    match exec {
        BuiltinToolView::Clock => (BuiltinToolView::Clock, spec_clock_run(args, now_unix)),
        BuiltinToolView::TextLength => (BuiltinToolView::TextLength, spec_text_len_run(args)),
        BuiltinToolView::Memory(mem) => {
            let (mem2, res) = spec_memory_run(mem, args);
            (BuiltinToolView::Memory(mem2), res)
        },
    }
}

/// A registry's entries after one resolved call: the first entry named
/// `name` stepped by [`spec_builtin_run`], every other entry untouched.
pub open spec fn spec_registry_step(
    reg: Seq<ToolEntryView>,
    name: Seq<char>,
    pairs: Seq<(Seq<char>, Seq<char>)>,
    now_unix: i64,
) -> Seq<ToolEntryView> {
    let i = spec_resolve_index(reg, name);
    reg.update(
        i,
        ToolEntryView {
            name: reg[i].name,
            executor: spec_builtin_run(reg[i].executor, pairs, now_unix).0,
        },
    )
}

/// `spec_resolve_index` names the position of the first match.
proof fn lemma_resolve_at(entries: Seq<ToolEntryView>, i: int, name: Seq<char>)
    requires
        0 <= i < entries.len(),
        entries[i].name == name,
        forall|j: int| 0 <= j < i ==> (#[trigger] entries[j]).name != name,
    ensures
        spec_resolve_index(entries, name) == i,
    decreases entries.len(),
{
    if i > 0 {
        assert(entries[0].name != name);
        assert(entries.first().name != name);
        assert forall|j: int| 0 <= j < i - 1 implies (#[trigger] entries.drop_first()[j]).name
            != name by {
            assert(entries.drop_first()[j] == entries[j + 1]);
        }
        assert(entries.drop_first()[i - 1] == entries[i]);
        lemma_resolve_at(entries.drop_first(), i - 1, name);
    }
}

impl DeepView for ToolEntry {
    type V = ToolEntryView;

    open spec fn deep_view(&self) -> ToolEntryView {
        self.view()
    }
}

impl View for ToolRegistry {
    type V = Seq<ToolEntryView>;

    closed spec fn view(&self) -> Seq<ToolEntryView> {
        self.entries.deep_view()
    }
}

/// A registry with the three tools the runtime executes itself: the clock,
/// the text-length tool, and a fresh memory.
pub fn builtin_registry() -> (r: ToolRegistry)
    ensures
        r.wf(),
        r.names() == seq!["get-location-time"@, "text_length_tool"@, "memory_tool"@],
{
    let mut r = ToolRegistry::new();
    let clock = GetTime::new();
    let clock_descriptor = ToolDescriptor {
        name: clock.name(),
        description: clock.description(),
        parameters_schema: clock.json_schema(),
    };
    r.register(clock_descriptor, BuiltinTool::Clock(clock));
    let text_len = TextLengthTool::new();
    let text_len_descriptor = ToolDescriptor {
        name: text_len.name(),
        description: text_len.description(),
        parameters_schema: text_len.parameters_schema(),
    };
    r.register(text_len_descriptor, BuiltinTool::TextLength(text_len));
    let memory = MemoryTool::new();
    let memory_descriptor = ToolDescriptor {
        name: memory_tool_name(),
        description: memory_tool_description(),
        parameters_schema: memory_tool_schema(),
    };
    r.register(memory_descriptor, BuiltinTool::Memory(memory));
    proof {
        assert(r.names() =~= seq!["get-location-time"@, "text_length_tool"@, "memory_tool"@]);
    }
    r
}

/// The name the memory tool is resolved under.
pub fn memory_tool_name() -> (r: String)
    ensures
        r@ == "memory_tool"@,
{
    String::from_str("memory_tool")
}

/// The description the memory tool advertises.
pub fn memory_tool_description() -> (r: String)
    ensures
        r@ == "Stores, retrieves, and clears memory as key-value pairs (maximum 100 keys). Use 'add' to add/update a key-value pair, 'get' to retrieve a stored value (or all pairs if key is omitted), 'get_keys' to retrieve the list of current keys, and 'clear' to erase all memory."@,
{
    String::from_str(
        "Stores, retrieves, and clears memory as key-value pairs (maximum 100 keys). Use 'add' to add/update a key-value pair, 'get' to retrieve a stored value (or all pairs if key is omitted), 'get_keys' to retrieve the list of current keys, and 'clear' to erase all memory.",
    )
}

/// The JSON schema the memory tool advertises.
pub fn memory_tool_schema() -> (r: String)
    ensures
        r@ == "{\"type\":\"object\",\"properties\":{\"action\":{\"type\":\"string\",\"enum\":[\"add\",\"get\",\"get_keys\",\"clear\"],\"description\":\"The memory action to perform.\"},\"key\":{\"type\":\"string\",\"description\":\"The key to store under or look up.\"},\"value\":{\"type\":\"string\",\"description\":\"The value to store (required for 'add').\"}},\"required\":[\"action\"]}"@,
{
    String::from_str(
        "{\"type\":\"object\",\"properties\":{\"action\":{\"type\":\"string\",\"enum\":[\"add\",\"get\",\"get_keys\",\"clear\"],\"description\":\"The memory action to perform.\"},\"key\":{\"type\":\"string\",\"description\":\"The key to store under or look up.\"},\"value\":{\"type\":\"string\",\"description\":\"The value to store (required for 'add').\"}},\"required\":[\"action\"]}",
    )
}

} // verus!
