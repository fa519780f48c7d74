//! The single-shot provider family. Its backend answers one request with a
//! list of output parts and has no native multi-step primitive: after the
//! model requests function calls, the caller must re-issue the request with
//! the outputs appended. This module holds that internal loop as a state
//! machine — the transport performs each request and hands the decoded
//! parts back — bounded to [`SINGLE_SHOT_MAX_STEPS`] requests.

use vstd::prelude::*;
use vstd::string::StringExecFns;

use crate::items::{ConversationItem, ItemView, MessageContext, Role};
use crate::registry::{spec_registry_step, ToolExecOutcome, ToolRegistry};
use crate::strutil::{spec_join, trimmed_of};
use crate::tools::{json_object_pairs, ToolContext};

verus! {

/// How many requests one run may issue before giving up and returning
/// whatever text has accumulated.
pub const SINGLE_SHOT_MAX_STEPS: usize = 10;

/// The role a content block is tagged with on the wire.
#[derive(Clone, Copy, Debug, PartialEq, Eq, Structural)]
pub enum GRole {
    User,
    Model,
}

/// One requested function call: the function's name and its arguments as
/// JSON text.
#[derive(Debug)]
pub struct GFunctionCall {
    pub name: String,
    pub args_json: String,
}

impl Clone for GFunctionCall {
    fn clone(&self) -> (res: Self)
        ensures
            res == *self,
    {
        GFunctionCall { name: self.name.clone(), args_json: self.args_json.clone() }
    }
}

/// One function's output, handed back to the backend.
#[derive(Debug)]
pub struct GFunctionResponse {
    pub name: String,
    pub output: String,
}

impl View for GFunctionResponse {
    type V = (Seq<char>, Seq<char>);

    open spec fn view(&self) -> (Seq<char>, Seq<char>) {
        (self.name@, self.output@)
    }
}

impl DeepView for GFunctionResponse {
    type V = (Seq<char>, Seq<char>);

    open spec fn deep_view(&self) -> (Seq<char>, Seq<char>) {
        self.view()
    }
}

/// One output or input part: text, a function call, or a function response.
#[derive(Debug)]
pub struct GPart {
    pub text: Option<String>,
    pub function_call: Option<GFunctionCall>,
    pub function_response: Option<GFunctionResponse>,
}

/// The mathematical value of a [`GPart`].
#[verifier::ext_equal]
pub ghost struct GPartView {
    pub text: Option<Seq<char>>,
    pub function_call: Option<(Seq<char>, Seq<char>)>,
    pub function_response: Option<(Seq<char>, Seq<char>)>,
}

impl View for GPart {
    type V = GPartView;

    open spec fn view(&self) -> GPartView {
        GPartView {
            text: match &self.text {
                Some(t) => Some(t@),
                None => None,
            },
            function_call: match &self.function_call {
                Some(c) => Some((c.name@, c.args_json@)),
                None => None,
            },
            function_response: match &self.function_response {
                Some(fr) => Some((fr.name@, fr.output@)),
                None => None,
            },
        }
    }
}

impl DeepView for GPart {
    type V = GPartView;

    open spec fn deep_view(&self) -> GPartView {
        self.view()
    }
}

impl GPart {
    /// A plain text part.
    pub fn text_part(text: String) -> (r: GPart)
        ensures
            r@ == (GPartView { text: Some(text@), function_call: None, function_response: None }),
    {
        GPart { text: Some(text), function_call: None, function_response: None }
    }

    /// A part carrying one function call.
    pub fn call_part(call: GFunctionCall) -> (r: GPart)
        ensures
            r@ == (GPartView {
                text: None,
                function_call: Some((call.name@, call.args_json@)),
                function_response: None,
            }),
    {
        GPart { text: None, function_call: Some(call), function_response: None }
    }

    /// A part carrying one function's output.
    pub fn response_part(response: GFunctionResponse) -> (r: GPart)
        ensures
            r@ == (GPartView {
                text: None,
                function_call: None,
                function_response: Some((response.name@, response.output@)),
            }),
    {
        GPart { text: None, function_call: None, function_response: Some(response) }
    }
}

/// One content block of a request or response.
#[derive(Debug)]
pub struct GContent {
    pub role: Option<GRole>,
    pub parts: Vec<GPart>,
}

/// The mathematical value of a [`GContent`].
#[verifier::ext_equal]
pub ghost struct GContentView {
    pub role: Option<GRole>,
    pub parts: Seq<GPartView>,
}

impl View for GContent {
    type V = GContentView;

    open spec fn view(&self) -> GContentView {
        GContentView { role: self.role, parts: self.parts.deep_view() }
    }
}

impl DeepView for GContent {
    type V = GContentView;

    open spec fn deep_view(&self) -> GContentView {
        self.view()
    }
}

/// The text of a message body rendered for this family: text parts joined
/// as they stand, each image reference on its own line as `[image] url`.
pub open spec fn spec_content_text(content: Seq<MessageContext>) -> Seq<char>
    decreases content.len(),
{
    if content.len() == 0 {
        Seq::empty()
    } else {
        let prefix = spec_content_text(content.drop_last());
        match content.last() {
            MessageContext::Text(t) => prefix + t@,
            MessageContext::Image(img) => (if prefix.len() > 0 {
                prefix + "\n"@
            } else {
                prefix
            }) + "[image] "@ + img.url@,
        }
    }
}

/// Renders a message body; see [`spec_content_text`].
pub fn content_to_text(content: &Vec<MessageContext>) -> (r: String)
    ensures
        r@ == spec_content_text(content@),
{
    let mut r = String::new();
    let n = content.len();
    for i in 0..n
        invariant
            n == content@.len(),
            r@ == spec_content_text(content@.take(i as int)),
    {
        proof {
            assert(content@.take(i + 1).drop_last() =~= content@.take(i as int));
            assert(content@.take(i + 1).last() == content@[i as int]);
        }
        match &content[i] {
            MessageContext::Text(t) => {
                r.append(t.as_str());
            },
            MessageContext::Image(img) => {
                if r.unicode_len() > 0 {
                    r.append("\n");
                }
                r.append("[image] ");
                r.append(img.url.as_str());
            },
        }
    }
    proof {
        assert(content@.take(n as int) =~= content@);
    }
    r
}

/// What converting a conversation for this family yields: the system
/// messages' texts (the non-blank ones, joined later into the dedicated
/// system-instruction block) and one content block per user or assistant
/// message. Other roles and non-message items are protocol detail of the
/// other family and are not replayed here.
pub open spec fn spec_convert(items: Seq<ItemView>) -> (Seq<Seq<char>>, Seq<GContentView>)
    decreases items.len(),
{
    if items.len() == 0 {
        (Seq::empty(), Seq::empty())
    } else {
        let (sys, contents) = spec_convert(items.drop_last());
        match items.last() {
            ItemView::Message { role, content } => {
                if role == Role::System {
                    if trimmed_of(spec_content_text(content)).len() > 0 {
                        (sys.push(spec_content_text(content)), contents)
                    } else {
                        (sys, contents)
                    }
                } else if role == Role::User {
                    (
                        sys,
                        contents.push(
                            GContentView {
                                role: Some(GRole::User),
                                parts: seq![
                                    GPartView {
                                        text: Some(spec_content_text(content)),
                                        function_call: None,
                                        function_response: None,
                                    },
                                ],
                            },
                        ),
                    )
                } else if role == Role::Assistant {
                    (
                        sys,
                        contents.push(
                            GContentView {
                                role: Some(GRole::Model),
                                parts: seq![
                                    GPartView {
                                        text: Some(spec_content_text(content)),
                                        function_call: None,
                                        function_response: None,
                                    },
                                ],
                            },
                        ),
                    )
                } else {
                    (sys, contents)
                }
            },
            _ => (sys, contents),
        }
    }
}

/// Converts a conversation into this family's request shape; see
/// [`spec_convert`]. The system instruction is the non-blank system texts
/// joined with newlines, or nothing when there were none.
pub fn convert_context(items: &Vec<ConversationItem>) -> (r: (Option<String>, Vec<GContent>))
    ensures
        ({
            let (sys, contents) = spec_convert(items.deep_view());
            &&& r.1.deep_view() == contents
            &&& (sys.len() == 0 ==> r.0 is None)
            &&& (sys.len() > 0 ==> (r.0 matches Some(s) && s@ == spec_join(sys, "\n"@)))
        }),
{
    let mut sys_parts: Vec<String> = Vec::new();
    let mut contents: Vec<GContent> = Vec::new();
    let n = items.len();
    proof {
        assert(items.deep_view().take(0) =~= Seq::<ItemView>::empty());
        assert(sys_parts.deep_view() =~= Seq::<Seq<char>>::empty());
        assert(contents.deep_view() =~= Seq::<GContentView>::empty());
    }
    for i in 0..n
        invariant
            n == items@.len(),
            sys_parts.deep_view() == spec_convert(items.deep_view().take(i as int)).0,
            contents.deep_view() == spec_convert(items.deep_view().take(i as int)).1,
    {
        let ghost prefix = items.deep_view().take(i as int);
        proof {
            assert(items.deep_view().take(i + 1).drop_last() =~= prefix);
            assert(items.deep_view().take(i + 1).last() == items.deep_view()[i as int]);
        }
        let ghost presys = sys_parts.deep_view();
        let ghost precontents = contents.deep_view();
        match &items[i] {
            ConversationItem::Message { role, content } => {
                proof {
                    assert(items.deep_view()[i as int] == (ItemView::Message {
                        role: *role,
                        content: content@,
                    }));
                }
                if *role == Role::System {
                    let text = content_to_text(content);
                    if text.as_str().trim().unicode_len() > 0 {
                        sys_parts.push(text);
                        proof {
                            assert(sys_parts.deep_view() =~= presys.push(
                                spec_content_text(content@),
                            ));
                        }
                    }
                } else if *role == Role::User {
                    let text = content_to_text(content);
                    let mut parts: Vec<GPart> = Vec::new();
                    parts.push(GPart::text_part(text));
                    contents.push(GContent { role: Some(GRole::User), parts });
                    proof {
                        assert(contents.deep_view() =~~= precontents.push(
                            GContentView {
                                role: Some(GRole::User),
                                parts: seq![
                                    GPartView {
                                        text: Some(spec_content_text(content@)),
                                        function_call: None,
                                        function_response: None,
                                    },
                                ],
                            },
                        ));
                    }
                } else if *role == Role::Assistant {
                    let text = content_to_text(content);
                    let mut parts: Vec<GPart> = Vec::new();
                    parts.push(GPart::text_part(text));
                    contents.push(GContent { role: Some(GRole::Model), parts });
                    proof {
                        assert(contents.deep_view() =~~= precontents.push(
                            GContentView {
                                role: Some(GRole::Model),
                                parts: seq![
                                    GPartView {
                                        text: Some(spec_content_text(content@)),
                                        function_call: None,
                                        function_response: None,
                                    },
                                ],
                            },
                        ));
                    }
                }
            },
            _ => {},
        }
    }
    proof {
        assert(items.deep_view().take(n as int) =~= items.deep_view());
    }
    let system_instruction = if sys_parts.len() == 0 {
        None
    } else {
        Some(crate::strutil::join_with(&sys_parts, "\n"))
    };
    (system_instruction, contents)
}

/// The concatenated text of a response's parts.
pub open spec fn spec_texts_of(parts: Seq<GPartView>) -> Seq<char>
    decreases parts.len(),
{
    if parts.len() == 0 {
        Seq::empty()
    } else {
        spec_texts_of(parts.drop_last()) + match parts.last().text {
            Some(t) => t,
            None => Seq::empty(),
        }
    }
}

/// The function calls of a response's parts, in order.
pub open spec fn spec_calls_of(parts: Seq<GPartView>) -> Seq<(Seq<char>, Seq<char>)>
    decreases parts.len(),
{
    let rest = if parts.len() == 0 {
        Seq::empty()
    } else {
        spec_calls_of(parts.drop_last())
    };
    if parts.len() == 0 {
        rest
    } else {
        match parts.last().function_call {
            Some(c) => rest.push(c),
            None => rest,
        }
    }
}

/// One run against the single-shot backend: the converted conversation, the
/// extra content gathered while stepping, the accumulated answer text, and
/// the step budget.
pub struct SingleShotRun {
    system_instruction: Option<String>,
    contents: Vec<GContent>,
    accumulated: String,
    steps_used: usize,
    done: bool,
}

impl SingleShotRun {
    /// The content blocks the next request must carry.
    pub closed spec fn contents_view(&self) -> Seq<GContentView> {
        self.contents.deep_view()
    }

    /// The answer text accumulated so far.
    pub closed spec fn text(&self) -> Seq<char> {
        self.accumulated@
    }

    /// How many requests were issued so far.
    pub closed spec fn steps(&self) -> nat {
        self.steps_used as nat
    }

    /// Whether the run has reached a final answer.
    pub closed spec fn is_done(&self) -> bool {
        self.done
    }

    /// The system instruction, as converted from the conversation.
    pub closed spec fn system_view(&self) -> Option<Seq<char>> {
        match &self.system_instruction {
            Some(s) => Some(s@),
            None => None,
        }
    }

    /// Starts a run from a conversation snapshot.
    pub fn start(items: &Vec<ConversationItem>) -> (r: SingleShotRun)
        ensures
            ({
                let (sys, contents) = spec_convert(items.deep_view());
                &&& r.contents_view() == contents
                &&& (sys.len() == 0 ==> r.system_view() is None)
                &&& (sys.len() > 0 ==> r.system_view() == Some(spec_join(sys, "\n"@)))
            }),
            r.text() == Seq::<char>::empty(),
            r.steps() == 0,
            !r.is_done(),
    {
        let (system_instruction, contents) = convert_context(items);
        SingleShotRun {
            system_instruction,
            contents,
            accumulated: String::new(),
            steps_used: 0,
            done: false,
        }
    }

    /// Whether another request may be issued.
    pub fn can_continue(&self) -> (r: bool)
        ensures
            r == (!self.is_done() && self.steps() < SINGLE_SHOT_MAX_STEPS),
    {
        !self.done && self.steps_used < SINGLE_SHOT_MAX_STEPS
    }

    /// The content blocks of the next request.
    pub fn request_contents(&self) -> (r: &Vec<GContent>)
        ensures
            r.deep_view() == self.contents_view(),
    {
        &self.contents
    }

    /// The system-instruction block of every request, if any.
    pub fn system_instruction(&self) -> (r: &Option<String>)
        ensures
            r matches Some(s) ==> self.system_view() == Some(s@),
            r is None ==> self.system_view() is None,
    {
        &self.system_instruction
    }

    /// Takes one response's parts: text parts extend the answer and are kept
    /// as a model content block, each function call is kept as its own model
    /// block, and the calls come back for execution. With no calls — or with
    /// the step budget now exhausted — the run is done.
    pub fn absorb_response(&mut self, parts: &Vec<GPart>) -> (calls: Vec<GFunctionCall>)
        requires
            !old(self).is_done(),
            old(self).steps() < SINGLE_SHOT_MAX_STEPS,
        ensures
            final(self).steps() == old(self).steps() + 1,
            final(self).text() == old(self).text() + spec_texts_of(parts.deep_view()),
            calls@.len() == spec_calls_of(parts.deep_view()).len(),
            forall|k: int|
                0 <= k < calls@.len() ==> ((#[trigger] calls@[k]).name@, calls@[k].args_json@)
                    == spec_calls_of(parts.deep_view())[k],
            final(self).is_done() == (spec_calls_of(parts.deep_view()).len() == 0
                || final(self).steps() == SINGLE_SHOT_MAX_STEPS),
            final(self).system_view() == old(self).system_view(),
            final(self).contents_view() == old(self).contents_view() + (
            if spec_texts_of(parts.deep_view()).len() > 0 {
                seq![
                    GContentView {
                        role: Some(GRole::Model),
                        parts: seq![
                            GPartView {
                                text: Some(spec_texts_of(parts.deep_view())),
                                function_call: None,
                                function_response: None,
                            },
                        ],
                    },
                ]
            } else {
                Seq::empty()
            }) + spec_calls_of(parts.deep_view()).map_values(
                |c: (Seq<char>, Seq<char>)|
                    GContentView {
                        role: Some(GRole::Model),
                        parts: seq![
                            GPartView { text: None, function_call: Some(c), function_response: None },
                        ],
                    },
            ),
    {
        let ghost pv = parts.deep_view();
        let mut step_text = String::new();
        let mut calls: Vec<GFunctionCall> = Vec::new();
        let n = parts.len();
        for i in 0..n
            invariant
                n == parts@.len(),
                pv == parts.deep_view(),
                step_text@ == spec_texts_of(pv.take(i as int)),
                calls@.len() == spec_calls_of(pv.take(i as int)).len(),
                forall|k: int|
                    0 <= k < calls@.len() ==> ((#[trigger] calls@[k]).name@, calls@[k].args_json@)
                        == spec_calls_of(pv.take(i as int))[k],
        {
            proof {
                assert(pv.take(i + 1).drop_last() =~= pv.take(i as int));
                assert(pv.take(i + 1).last() == pv[i as int]);
            }
            match &parts[i].text {
                Some(t) => {
                    step_text.append(t.as_str());
                },
                None => {},
            }
            match &parts[i].function_call {
                Some(c) => {
                    calls.push(c.clone());
                },
                None => {},
            }
        }
        proof {
            assert(pv.take(n as int) =~= pv);
        }
        self.steps_used = self.steps_used + 1;
        let ghost precontents = self.contents.deep_view();
        if step_text.unicode_len() > 0 {
            self.accumulated.append(step_text.as_str());
            let mut tparts: Vec<GPart> = Vec::new();
            tparts.push(GPart::text_part(step_text));
            self.contents.push(GContent { role: Some(GRole::Model), parts: tparts });
        } else {
            self.accumulated.append(step_text.as_str());
        }
        let ghost after_text = self.contents.deep_view();
        let m = calls.len();
        for i in 0..m
            invariant
                m == calls@.len(),
                calls@.len() == spec_calls_of(pv).len(),
                forall|k: int|
                    0 <= k < calls@.len() ==> ((#[trigger] calls@[k]).name@, calls@[k].args_json@)
                        == spec_calls_of(pv)[k],
                self.contents.deep_view() == after_text + spec_calls_of(pv).take(
                    i as int,
                ).map_values(
                    |c: (Seq<char>, Seq<char>)|
                        GContentView {
                            role: Some(GRole::Model),
                            parts: seq![
                                GPartView {
                                    text: None,
                                    function_call: Some(c),
                                    function_response: None,
                                },
                            ],
                        },
                ),
                self.system_instruction == old(self).system_instruction,
                self.accumulated@ == old(self).accumulated@ + spec_texts_of(pv),
                self.steps_used == old(self).steps_used + 1,
                self.done == old(self).done,
        {
            let ghost prevc = self.contents.deep_view();
            let mut cparts: Vec<GPart> = Vec::new();
            cparts.push(GPart::call_part(calls[i].clone()));
            self.contents.push(GContent { role: Some(GRole::Model), parts: cparts });
            proof {
                let f = |c: (Seq<char>, Seq<char>)|
                    GContentView {
                        role: Some(GRole::Model),
                        parts: seq![
                            GPartView { text: None, function_call: Some(c), function_response: None },
                        ],
                    };
                assert(self.contents.deep_view() =~~= prevc.push(
                    f((calls@[i as int].name@, calls@[i as int].args_json@)),
                ));
                assert(spec_calls_of(pv).take(i + 1).map_values(f) =~~= spec_calls_of(pv).take(
                    i as int,
                ).map_values(f).push(f(spec_calls_of(pv)[i as int])));
                assert(self.contents.deep_view() =~~= after_text + spec_calls_of(pv).take(
                    i + 1,
                ).map_values(f));
            }
        }
        if calls.len() == 0 || self.steps_used == SINGLE_SHOT_MAX_STEPS {
            self.done = true;
        }
        proof {
            let f = |c: (Seq<char>, Seq<char>)|
                GContentView {
                    role: Some(GRole::Model),
                    parts: seq![
                        GPartView { text: None, function_call: Some(c), function_response: None },
                    ],
                };
            assert(spec_calls_of(pv).take(spec_calls_of(pv).len() as int) =~= spec_calls_of(pv));
            if spec_texts_of(pv).len() > 0 {
                assert(after_text =~~= precontents + seq![
                    GContentView {
                        role: Some(GRole::Model),
                        parts: seq![
                            GPartView {
                                text: Some(spec_texts_of(pv)),
                                function_call: None,
                                function_response: None,
                            },
                        ],
                    },
                ]);
            } else {
                assert(after_text =~= precontents + Seq::<GContentView>::empty());
            }
            assert(self.contents.deep_view() =~~= after_text + spec_calls_of(pv).map_values(f));
        }
        calls
    }

    /// Hands the functions' outputs back: each becomes one user content
    /// block carrying a function response, appended in order.
    pub fn provide_tool_results(&mut self, results: Vec<GFunctionResponse>)
        ensures
            final(self).contents_view() == old(self).contents_view() + results.deep_view().map_values(
                |p: (Seq<char>, Seq<char>)|
                    GContentView {
                        role: Some(GRole::User),
                        parts: seq![
                            GPartView { text: None, function_call: None, function_response: Some(p) },
                        ],
                    },
            ),
            final(self).text() == old(self).text(),
            final(self).steps() == old(self).steps(),
            final(self).is_done() == old(self).is_done(),
            final(self).system_view() == old(self).system_view(),
    {
        let ghost rv = results.deep_view();
        let ghost pre = self.contents.deep_view();
        let mut results = results;
        let n = results.len();
        let mut i: usize = 0;
        while i < n
            invariant
                n == rv.len(),
                results@.len() == n - i,
                forall|k: int| 0 <= k < results@.len() ==> results@[k]@ == rv[i + k],
                self.contents.deep_view() == pre + rv.take(i as int).map_values(
                    |p: (Seq<char>, Seq<char>)|
                        GContentView {
                            role: Some(GRole::User),
                            parts: seq![
                                GPartView {
                                    text: None,
                                    function_call: None,
                                    function_response: Some(p),
                                },
                            ],
                        },
                ),
                self.system_instruction == old(self).system_instruction,
                self.accumulated == old(self).accumulated,
                self.steps_used == old(self).steps_used,
                self.done == old(self).done,
            decreases n - i,
        {
            let ghost prevc = self.contents.deep_view();
            let fr = results.remove(0);
            let ghost frv = fr@;
            let mut rparts: Vec<GPart> = Vec::new();
            rparts.push(GPart::response_part(fr));
            self.contents.push(GContent { role: Some(GRole::User), parts: rparts });
            proof {
                let f = |p: (Seq<char>, Seq<char>)|
                    GContentView {
                        role: Some(GRole::User),
                        parts: seq![
                            GPartView { text: None, function_call: None, function_response: Some(p) },
                        ],
                    };
                assert(frv == rv[i as int]);
                assert(self.contents.deep_view() =~~= prevc.push(f(frv)));
                assert(rv.take(i + 1).map_values(f) =~~= rv.take(i as int).map_values(f).push(
                    f(rv[i as int]),
                ));
                assert(self.contents.deep_view() =~~= pre + rv.take(i + 1).map_values(f));
                assert forall|k: int| 0 <= k < results@.len() implies results@[k]@ == rv[i + 1
                    + k] by {}
            }
            i = i + 1;
        }
        proof {
            assert(rv.take(n as int) =~= rv);
        }
    }

    /// The run's answer: the accumulated text, or a placeholder when only
    /// whitespace came back.
    pub fn final_text(&self) -> (r: String)
        ensures
            trimmed_of(self.text()).len() == 0 ==> r@ == "(no output)"@,
            trimmed_of(self.text()).len() > 0 ==> r@ == self.text(),
            self.text().len() == 0 ==> r@ == "(no output)"@,
    {
        if self.accumulated.as_str().trim().unicode_len() == 0 {
            String::from_str("(no output)")
        } else {
            self.accumulated.clone()
        }
    }
}


/// The single-shot backend's responses, consumed one per request.
#[derive(Debug)]
pub struct PartsFeed {
    responses: Vec<Vec<GPart>>,
}

impl PartsFeed {
    /// The responses not yet consumed, in order.
    pub closed spec fn remaining(&self) -> Seq<Seq<GPartView>> {
        Seq::new(self.responses@.len(), |i: int| self.responses@[i].deep_view())
    }

    /// A feed that will serve these responses in order.
    pub fn new(responses: Vec<Vec<GPart>>) -> (r: PartsFeed)
        ensures
            r.remaining() == Seq::new(responses@.len(), |i: int| responses@[i].deep_view()),
    {
        PartsFeed { responses }
    }

    /// Takes the next response, if one is left.
    pub fn next(&mut self) -> (r: Option<Vec<GPart>>)
        ensures
            old(self).remaining().len() == 0 ==> r is None && final(self).remaining() == old(
                self,
            ).remaining(),
            old(self).remaining().len() > 0 ==> (r matches Some(parts) && parts.deep_view() == old(
                self,
            ).remaining().first() && final(self).remaining() == old(
                self,
            ).remaining().drop_first()),
    {
        if self.responses.len() == 0 {
            None
        } else {
            let parts = self.responses.remove(0);
            proof {
                assert(self.remaining() =~= old(self).remaining().drop_first());
            }
            Some(parts)
        }
    }
}

/// Whether a response feed is one tool round trip: the first response
/// carries exactly one function call, the second none.
pub open spec fn spec_single_call_round(feed: Seq<Seq<GPartView>>) -> bool {
    feed.len() >= 2 && spec_calls_of(feed[0]).len() == 1 && spec_calls_of(feed[1]).len() == 0
}

/// Drives one whole run against the single-shot backend's responses,
/// executing each requested function through the registry between requests
/// and handing its output — or, for a tool that ran and failed, its error
/// text — back before the next request. A function name the registry does
/// not know is a contract mismatch and aborts the run fatally; no other
/// model would fix it. At most [`SINGLE_SHOT_MAX_STEPS`] responses are
/// consumed, and the run then returns whatever text has accumulated.
pub fn run_single_shot(
    items: &Vec<ConversationItem>,
    feed: &mut PartsFeed,
    registry: &mut ToolRegistry,
    tctx: &ToolContext,
) -> (r: Result<String, String>)
    requires
        old(registry).wf(),
    ensures
        final(registry).wf(),
        final(registry).names() == old(registry).names(),
        old(feed).remaining().len() - final(feed).remaining().len() <= SINGLE_SHOT_MAX_STEPS,
        old(feed).remaining().len() == 0 ==> (r matches Ok(t) && t@ == "(no output)"@),
        (old(feed).remaining().len() > 0 && spec_calls_of(old(feed).remaining()[0]).len() == 0)
            ==> (r matches Ok(t) && final(feed).remaining() == old(feed).remaining().drop_first()
            && (if trimmed_of(spec_texts_of(old(feed).remaining()[0])).len() == 0 {
            t@ == "(no output)"@
        } else {
            t@ == spec_texts_of(old(feed).remaining()[0])
        })),
        r matches Err(e) ==> "Tool not found: "@.len() <= e@.len() && e@.subrange(
            0,
            "Tool not found: "@.len() as int,
        ) == "Tool not found: "@ && !final(registry).has_tool(
            e@.skip("Tool not found: "@.len() as int),
        ),
        spec_single_call_round(old(feed).remaining()) ==> ({
            let call = spec_calls_of(old(feed).remaining()[0])[0];
            old(registry).has_tool(call.0) ==> (json_object_pairs(call.1) matches Ok(pairs) ==> ({
                let texts = spec_texts_of(old(feed).remaining()[0]) + spec_texts_of(
                    old(feed).remaining()[1],
                );
                r matches Ok(t) && final(registry)@ == spec_registry_step(
                    old(registry)@,
                    call.0,
                    pairs,
                    tctx.now_unix,
                ) && final(feed).remaining() == old(feed).remaining().skip(2) && (
                if trimmed_of(texts).len() == 0 {
                    t@ == "(no output)"@
                } else {
                    t@ == texts
                })
            }))
        }),
{
    let ghost fv0 = feed.remaining();
    let mut run = SingleShotRun::start(items);
    let mut consumed: usize = 0;
    loop
        invariant
            registry.wf(),
            registry.names() == old(registry).names(),
            fv0 == old(feed).remaining(),
            consumed == run.steps(),
            consumed <= fv0.len(),
            feed.remaining() == fv0.skip(consumed as int),
            feed.remaining().len() == fv0.len() - consumed,
            run.steps() <= SINGLE_SHOT_MAX_STEPS,
            consumed == 0 ==> run.text() == Seq::<char>::empty() && !run.is_done(),
            (fv0.len() > 0 && spec_calls_of(fv0[0]).len() == 0 && consumed >= 1) ==> (consumed == 1
                && run.is_done() && run.text() == spec_texts_of(fv0[0])),
            (spec_single_call_round(fv0) && old(registry).has_tool(spec_calls_of(fv0[0])[0].0))
                ==> (json_object_pairs(spec_calls_of(fv0[0])[0].1) matches Ok(pairs) ==> ({
                &&& (consumed == 0 ==> registry@ == old(registry)@)
                &&& (consumed >= 1 ==> registry@ == spec_registry_step(
                    old(registry)@,
                    spec_calls_of(fv0[0])[0].0,
                    pairs,
                    tctx.now_unix,
                ))
                &&& (consumed == 1 ==> !run.is_done() && run.text() == spec_texts_of(fv0[0]))
                &&& (consumed >= 2 ==> consumed == 2 && run.is_done() && run.text()
                    == spec_texts_of(fv0[0]) + spec_texts_of(fv0[1]))
            })),
        ensures
            fv0.len() > 0 ==> consumed >= 1,
            (spec_single_call_round(fv0) && old(registry).has_tool(spec_calls_of(fv0[0])[0].0))
                ==> (json_object_pairs(spec_calls_of(fv0[0])[0].1) matches Ok(pairs) ==> consumed
                != 1),
        decreases SINGLE_SHOT_MAX_STEPS - run.steps(),
    {
        if !run.can_continue() {
            break ;
        }
        let parts = match feed.next() {
            Some(p) => p,
            None => {
                break ;
            },
        };
        proof {
            assert(parts.deep_view() == fv0.skip(consumed as int).first());
            assert(fv0.skip(consumed as int).first() == fv0[consumed as int]);
            assert(fv0.skip(consumed as int).drop_first() =~= fv0.skip(consumed + 1));
        }
        let ghost pre_consumed = consumed as int;
        let calls = run.absorb_response(&parts);
        consumed = consumed + 1;
        let mut results: Vec<GFunctionResponse> = Vec::new();
        let c = calls.len();
        proof {
            if fv0.len() > 0 && spec_calls_of(fv0[0]).len() == 0 {
                assert(pre_consumed == 0);
                assert(c == 0);
            }
            if spec_single_call_round(fv0) && old(registry).has_tool(
                spec_calls_of(fv0[0])[0].0,
            ) && json_object_pairs(spec_calls_of(fv0[0])[0].1) is Ok {
                if pre_consumed == 0 {
                    assert(c == 1);
                    assert((calls@[0].name@, calls@[0].args_json@) == spec_calls_of(fv0[0])[0]);
                } else {
                    assert(pre_consumed == 1);
                    assert(c == 0);
                }
            }
        }
        for q in 0..c
            invariant
                c == calls@.len(),
                registry.wf(),
                registry.names() == old(registry).names(),
                fv0 == old(feed).remaining(),
                feed.remaining() == fv0.skip(consumed as int),
                feed.remaining().len() == fv0.len() - consumed,
                1 <= consumed <= fv0.len(),
                consumed <= SINGLE_SHOT_MAX_STEPS,
                (fv0.len() > 0 && spec_calls_of(fv0[0]).len() == 0) ==> c == 0,
                (spec_single_call_round(fv0) && old(registry).has_tool(
                    spec_calls_of(fv0[0])[0].0,
                )) ==> (json_object_pairs(spec_calls_of(fv0[0])[0].1) matches Ok(pairs) ==> ({
                    &&& ((consumed == 1 && c == 1 && (calls@[0].name@, calls@[0].args_json@)
                        == spec_calls_of(fv0[0])[0]) || (consumed == 2 && c == 0))
                    &&& (if consumed == 1 && q == 0 {
                        registry@ == old(registry)@
                    } else {
                        registry@ == spec_registry_step(
                            old(registry)@,
                            spec_calls_of(fv0[0])[0].0,
                            pairs,
                            tctx.now_unix,
                        )
                    })
                })),
        {
            let output = match registry.execute(
                calls[q].name.as_str(),
                calls[q].args_json.as_str(),
                tctx,
            ) {
                ToolExecOutcome::Ran(Ok(output)) => output,
                ToolExecOutcome::Ran(Err(e)) => {
                    let mut out = String::from_str("Error: ");
                    out.append(e.as_str());
                    out
                },
                ToolExecOutcome::NotFound => {
                    let mut e = String::from_str("Tool not found: ");
                    e.append(calls[q].name.as_str());
                    proof {
                        reveal_strlit("Tool not found: ");
                        assert(e@.subrange(0, "Tool not found: "@.len() as int)
                            =~= "Tool not found: "@);
                        assert(e@.skip("Tool not found: "@.len() as int) =~= calls@[q as int].name@);
                    }
                    return Err(e);
                },
            };
            results.push(GFunctionResponse { name: calls[q].name.clone(), output });
        }
        run.provide_tool_results(results);
    }
    proof {
        if fv0.len() > 0 && spec_calls_of(fv0[0]).len() == 0 {
            assert(fv0.skip(1) =~= fv0.drop_first());
        }
    }
    Ok(run.final_text())
}

} // verus!
