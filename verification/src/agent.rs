//! The agent loop as a state machine.
//!
//! A run alternates between asking the model, asking the user and running
//! tools.  `AgentSession` makes every
//! decision of the loop; the caller performs the requested `Action` and
//! hands back what happened as an `Event`.

use vstd::prelude::*;

use crate::hitl::{HitlDecision, HitlDecisionView};
use crate::llm::{
    assistant_message, duplicate_calls, text_message, tool_message, ChatResponse,
    ChatResponseView, Message, MessageView, Role, ToolCall, ToolCallView,
};
use crate::plan::{
    build_system_prompt, fresh_plan, protocol_text, reflection_head, reflection_tail, system_prompt,
    PlanState, PlanView,
};
use crate::json::{
    json_error_text, json_parses, json_pretty, json_tree_of, parse_json_tree, pretty_json_text, JsonTree,
    JsonValue,
};
use crate::text::{clone_string, concat, concat3, join, join_spec};
use crate::tools::{find_tool, ToolKind, ToolRegistry};

verus! {

/// Where a run stands.
#[derive(Clone, Copy, PartialEq, Eq, Debug, Structural)]
pub enum Stage {
    /// Waiting for the model's answer within an iteration.
    AwaitingReply,
    /// Waiting for the user's verdict on proposed tool calls.
    AwaitingDecision,
    /// Waiting for a tool's result.
    RunningTool,
    /// Out of iterations; waiting for the model's closing summary.
    AwaitingSummary,
    /// The run has ended.
    Finished,
}

/// What the caller must do next.
#[derive(Debug)]
pub enum Action {
    /// Send the history to the model, with the tool definitions or without.
    CallLlm { with_tools: bool },
    /// Show the pending tool calls to the user and ask for a decision.
    AskHuman { iteration: u64 },
    /// Run this tool on these arguments (their text, and the JSON value
    /// read from it) in this workspace.
    RunTool { tool: ToolKind, arguments: String, args: JsonTree, workspace: String },
    /// The run ended with this answer.
    Finish(String),
    /// The run failed with this error.
    Fail(String),
}

pub enum ActionView {
    CallLlm { with_tools: bool },
    AskHuman { iteration: nat },
    RunTool { tool: ToolKind, arguments: Seq<char>, args: JsonValue, workspace: Seq<char> },
    Finish(Seq<char>),
    Fail(Seq<char>),
}

impl View for Action {
    type V = ActionView;

    open spec fn view(&self) -> ActionView {
        match self {
            Action::CallLlm { with_tools } => ActionView::CallLlm { with_tools: *with_tools },
            Action::AskHuman { iteration } => ActionView::AskHuman { iteration: *iteration as nat },
            Action::RunTool { tool, arguments, args, workspace } => ActionView::RunTool {
                tool: *tool,
                arguments: arguments@,
                args: args@,
                workspace: workspace@,
            },
            Action::Finish(s) => ActionView::Finish(s@),
            Action::Fail(s) => ActionView::Fail(s@),
        }
    }
}

/// What happened when the caller performed an action.
#[derive(Debug)]
pub enum Event {
    LlmReplied(ChatResponse),
    LlmFailed(String),
    Decided(HitlDecision),
    ToolSucceeded(String),
    ToolFailed(String),
}

pub enum EventView {
    LlmReplied(ChatResponseView),
    LlmFailed(Seq<char>),
    Decided(HitlDecisionView),
    ToolSucceeded(Seq<char>),
    ToolFailed(Seq<char>),
}

impl View for Event {
    type V = EventView;

    open spec fn view(&self) -> EventView {
        match self {
            Event::LlmReplied(r) => EventView::LlmReplied(r@),
            Event::LlmFailed(m) => EventView::LlmFailed(m@),
            Event::Decided(d) => EventView::Decided(d@),
            Event::ToolSucceeded(o) => EventView::ToolSucceeded(o@),
            Event::ToolFailed(m) => EventView::ToolFailed(m@),
        }
    }
}

/// The events a stage can receive.
pub open spec fn expects(stage: Stage, e: EventView) -> bool {
    match stage {
        Stage::AwaitingReply | Stage::AwaitingSummary => e is LlmReplied || e is LlmFailed,
        Stage::AwaitingDecision => e is Decided,
        Stage::RunningTool => e is ToolSucceeded || e is ToolFailed,
        Stage::Finished => false,
    }
}

/// The state of one run of the agent.
pub struct AgentSession {
    plan: PlanState,
    history: Vec<Message>,
    tools: ToolRegistry,
    workspace: String,
    max_iterations: u32,
    auto_mode: bool,
    iteration: u64,
    stage: Stage,
    pending: Vec<ToolCall>,
    next_call: usize,
}

pub struct SessionView {
    pub plan: PlanView,
    pub history: Seq<MessageView>,
    pub tools: Seq<ToolKind>,
    pub workspace: Seq<char>,
    pub max_iterations: nat,
    pub auto_mode: bool,
    pub iteration: nat,
    pub stage: Stage,
    pub pending: Seq<ToolCallView>,
    pub next_call: nat,
}

impl View for AgentSession {
    type V = SessionView;

    closed spec fn view(&self) -> SessionView {
        SessionView {
            plan: self.plan@,
            history: self.history.deep_view(),
            tools: self.tools@,
            workspace: self.workspace@,
            max_iterations: self.max_iterations as nat,
            auto_mode: self.auto_mode,
            iteration: self.iteration as nat,
            stage: self.stage,
            pending: self.pending.deep_view(),
            next_call: self.next_call as nat,
        }
    }
}

// ---------------------------------------------------------------------------
// The fixed texts of the loop
// ---------------------------------------------------------------------------

pub open spec fn task_message(task: Seq<char>) -> Seq<char> {
    "Task: "@ + task + "\n\nBegin with Phase 1 \u{2014} explore the codebase and produce a plan."@
}

pub open spec fn rejection_message(feedback: Option<Seq<char>>) -> Seq<char> {
    match feedback {
        Some(fb) => "User rejected the proposed action. Feedback: "@ + fb
            + "\nPlease propose a different approach."@,
        None => "User rejected the proposed action. Please propose a different approach."@,
    }
}

pub open spec fn out_of_iterations_message() -> Seq<char> {
    "Maximum iterations reached. Provide a summary of what was accomplished and what remains."@
}

pub open spec fn quit_answer() -> Seq<char> {
    "Agent terminated by user."@
}

pub open spec fn empty_reply_error() -> Seq<char> {
    "LLM returned neither content nor tool calls"@
}

pub open spec fn unknown_tool_message(name: Seq<char>) -> Seq<char> {
    "Unknown tool: "@ + name
}

pub open spec fn tool_error_message(error: Seq<char>) -> Seq<char> {
    "Error: "@ + error
}

pub open spec fn summary_answer(summary: Option<Seq<char>>) -> Seq<char> {
    "MAX_ITERATIONS_REACHED. "@ + match summary {
        Some(s) => s,
        None => "No summary available."@,
    }
}

// ---------------------------------------------------------------------------
// The transition function
// ---------------------------------------------------------------------------

/// Starts iteration `s.iteration`, or asks for the closing summary when
/// the iterations are used up.
pub open spec fn open_iteration(s: SessionView) -> (SessionView, ActionView) {
    if s.iteration > s.max_iterations {
        (
            SessionView {
                history: s.history.push(text_message(Role::User, out_of_iterations_message())),
                stage: Stage::AwaitingSummary,
                pending: Seq::empty(),
                next_call: 0,
                ..s
            },
            ActionView::CallLlm { with_tools: false },
        )
    } else {
        (
            SessionView {
                history: s.history.update(
                    0,
                    text_message(Role::System, system_prompt(s.plan, s.workspace)),
                ),
                stage: Stage::AwaitingReply,
                pending: Seq::empty(),
                next_call: 0,
                ..s
            },
            ActionView::CallLlm { with_tools: true },
        )
    }
}

/// The state once the current tool call has been answered with `result`
/// and the plan state has become `plan`.
pub open spec fn answered(s: SessionView, result: Seq<char>, plan: PlanView) -> SessionView {
    let call = s.pending[s.next_call as int];
    SessionView {
        plan,
        history: s.history.push(tool_message(call.id, call.name, result)),
        next_call: s.next_call + 1,
        ..s
    }
}

/// The plan state after a tool call named `name` turned out to name no
/// registered tool.
pub open spec fn unknown_tool_plan(plan: PlanView, name: Seq<char>) -> PlanView {
    PlanView { last_error: Some(unknown_tool_message(name)), reflection_needed: true, ..plan }
}

/// Takes up the next pending tool call: its arguments must parse as JSON
/// (else the run fails with the parser's error); a call naming a
/// registered tool runs it; a call naming none is answered with an error
/// and the next call is taken up.  When all calls of the batch have been
/// answered, the next iteration begins.
pub open spec fn advance(s: SessionView) -> (SessionView, ActionView)
    decreases s.pending.len() - s.next_call,
{
    if s.next_call >= s.pending.len() {
        open_iteration(SessionView { iteration: s.iteration + 1, ..s })
    } else {
        let call = s.pending[s.next_call as int];
        if !json_parses(call.arguments) {
            (finished(s), ActionView::Fail(json_error_text(call.arguments)))
        } else {
            match find_tool(s.tools, call.name) {
                Some(k) => (
                    SessionView { stage: Stage::RunningTool, ..s },
                    ActionView::RunTool {
                        tool: k,
                        arguments: call.arguments,
                        args: json_tree_of(call.arguments),
                        workspace: s.workspace,
                    },
                ),
                None => advance(
                    answered(s, unknown_tool_message(call.name), unknown_tool_plan(s.plan, call.name)),
                ),
            }
        }
    }
}

/// Records the result of the current tool call and moves on.
pub open spec fn record_result(
    s: SessionView,
    result: Seq<char>,
    plan: PlanView,
) -> (SessionView, ActionView) {
    advance(answered(s, result, plan))
}

pub open spec fn finished(s: SessionView) -> SessionView {
    SessionView { stage: Stage::Finished, ..s }
}

/// The initial state and first action of a run on `task`.
pub open spec fn start_spec(
    tools: Seq<ToolKind>,
    workspace: Seq<char>,
    max_iterations: nat,
    auto_mode: bool,
    task: Seq<char>,
) -> (SessionView, ActionView) {
    let plan = fresh_plan(task);
    open_iteration(
        SessionView {
            plan,
            history: seq![
                text_message(Role::System, system_prompt(plan, workspace)),
                text_message(Role::User, task_message(task)),
            ],
            tools,
            workspace,
            max_iterations,
            auto_mode,
            iteration: 1,
            stage: Stage::AwaitingReply,
            pending: Seq::empty(),
            next_call: 0,
        },
    )
}

/// One step of the loop: the next state and action after event `e`.
pub open spec fn transition(s: SessionView, e: EventView) -> (SessionView, ActionView) {
    match e {
        EventView::LlmReplied(r) => {
            if s.stage == Stage::AwaitingSummary {
                (finished(s), ActionView::Finish(summary_answer(r.content)))
            } else if r.tool_calls.len() > 0 {
                let t = SessionView {
                    history: s.history.push(assistant_message(r.content, Some(r.tool_calls))),
                    pending: r.tool_calls,
                    next_call: 0,
                    ..s
                };
                if s.auto_mode {
                    advance(t)
                } else {
                    (
                        SessionView { stage: Stage::AwaitingDecision, ..t },
                        ActionView::AskHuman { iteration: s.iteration },
                    )
                }
            } else {
                match r.content {
                    Some(c) => (
                        finished(
                            SessionView {
                                history: s.history.push(assistant_message(Some(c), None)),
                                ..s
                            },
                        ),
                        ActionView::Finish(c),
                    ),
                    None => (finished(s), ActionView::Fail(empty_reply_error())),
                }
            }
        },
        EventView::LlmFailed(m) => (finished(s), ActionView::Fail(m)),
        EventView::Decided(d) => match d {
            HitlDecisionView::Approve => advance(s),
            HitlDecisionView::Reject(fb) => open_iteration(
                SessionView {
                    plan: PlanView { reflection_needed: true, ..s.plan },
                    history: s.history.push(text_message(Role::User, rejection_message(fb))),
                    iteration: s.iteration + 1,
                    ..s
                },
            ),
            HitlDecisionView::Quit => (finished(s), ActionView::Finish(quit_answer())),
        },
        EventView::ToolSucceeded(out) => record_result(
            s,
            out,
            PlanView { last_error: None, reflection_needed: false, ..s.plan },
        ),
        EventView::ToolFailed(m) => record_result(
            s,
            tool_error_message(m),
            PlanView {
                last_error: Some(tool_error_message(m)),
                reflection_needed: true,
                ..s.plan
            },
        ),
    }
}

// ---------------------------------------------------------------------------
// Well-formedness
// ---------------------------------------------------------------------------

/// In the current batch, the assistant turn that proposed `s.pending`
/// stands just before one tool message per call already handled, in order.
pub open spec fn batch_answered(history: Seq<MessageView>, pending: Seq<ToolCallView>, k: nat) -> bool {
    let a = history.len() - 1 - k;
    &&& 1 <= a
    &&& history[a].role == Role::Assistant
    &&& history[a].tool_calls == Some(pending)
    &&& forall|j: int|
        0 <= j < k ==> {
            let m = #[trigger] history[a + 1 + j];
            &&& m.role == Role::Tool
            &&& m.tool_call_id == Some(pending[j].id)
            &&& m.name == Some(pending[j].name)
        }
}

pub open spec fn in_batch(stage: Stage) -> bool {
    stage == Stage::AwaitingDecision || stage == Stage::RunningTool
}

/// What holds of every state a run can reach.
pub open spec fn session_wf(s: SessionView) -> bool {
    &&& s.history.len() >= 2
    &&& s.history[0].role == Role::System
    &&& (s.plan.last_error is Some ==> s.plan.reflection_needed)
    &&& 1 <= s.iteration <= s.max_iterations + 1
    &&& s.max_iterations <= u32::MAX
    &&& (s.stage == Stage::AwaitingSummary ==> s.iteration == s.max_iterations + 1)
    &&& (s.stage == Stage::AwaitingReply || in_batch(s.stage) ==> s.iteration <= s.max_iterations)
    &&& s.next_call <= s.pending.len()
    &&& (in_batch(s.stage) ==> {
        &&& s.pending.len() > 0
        &&& batch_answered(s.history, s.pending, s.next_call)
        &&& (s.stage == Stage::AwaitingDecision ==> s.next_call == 0)
        &&& (s.stage == Stage::RunningTool ==> s.next_call < s.pending.len())
    })
}

/// What holds while the calls of a batch are being taken up: the first
/// `next_call` calls are answered, and the iteration is within bounds.
pub open spec fn batch_ready(s: SessionView) -> bool {
    &&& s.history.len() >= 2
    &&& s.history[0].role == Role::System
    &&& (s.plan.last_error is Some ==> s.plan.reflection_needed)
    &&& 1 <= s.iteration <= s.max_iterations
    &&& s.max_iterations <= u32::MAX
    &&& s.pending.len() > 0
    &&& s.next_call <= s.pending.len()
    &&& batch_answered(s.history, s.pending, s.next_call)
}

/// `t` and `a` are what opening an iteration gives: with the tools, a fresh
/// system prompt and an iteration within bounds; without them, the request
/// for a summary.
pub open spec fn opened(t: SessionView, a: ActionView) -> bool {
    &&& a is CallLlm
    &&& (a == ActionView::CallLlm { with_tools: true }) ==> {
        &&& t.stage == Stage::AwaitingReply
        &&& t.history[0] == text_message(Role::System, system_prompt(t.plan, t.workspace))
        &&& t.iteration <= t.max_iterations
    }
    &&& (a == ActionView::CallLlm { with_tools: false }) ==> {
        &&& t.stage == Stage::AwaitingSummary
        &&& t.history.last() == text_message(Role::User, out_of_iterations_message())
    }
}

// ---------------------------------------------------------------------------
// Well-formedness is kept
// ---------------------------------------------------------------------------

proof fn lemma_open_iteration(s: SessionView)
    requires
        s.history.len() >= 2,
        s.history[0].role == Role::System,
        s.plan.last_error is Some ==> s.plan.reflection_needed,
        1 <= s.iteration <= s.max_iterations + 1,
        s.max_iterations <= u32::MAX,
    ensures
        session_wf(open_iteration(s).0),
        opened(open_iteration(s).0, open_iteration(s).1),
        open_iteration(s).0.iteration == s.iteration,
        open_iteration(s).0.history.len() >= s.history.len(),
        forall|i: int|
            1 <= i < s.history.len() ==> #[trigger] open_iteration(s).0.history[i] == s.history[i],
{
}

proof fn lemma_answered_ready(s: SessionView, result: Seq<char>, plan: PlanView)
    requires
        batch_ready(s),
        s.next_call < s.pending.len(),
        plan.last_error is Some ==> plan.reflection_needed,
    ensures
        batch_ready(answered(s, result, plan)),
        answered(s, result, plan).history.len() - answered(s, result, plan).next_call
            == s.history.len() - s.next_call,
{
    let t = answered(s, result, plan);
    let k = s.next_call;
    let a = s.history.len() - 1 - k;
    assert(t.history.len() - 1 - t.next_call == a);
    assert forall|j: int| 0 <= j < t.next_call implies {
        let m = #[trigger] t.history[a + 1 + j];
        &&& m.role == Role::Tool
        &&& m.tool_call_id == Some(t.pending[j].id)
        &&& m.name == Some(t.pending[j].name)
    } by {
        if j < k {
            assert(t.history[a + 1 + j] == s.history[a + 1 + j]);
        } else {
            assert(a + 1 + j == s.history.len());
        }
    }
}

/// What taking up the calls of a batch gives: a well-formed state that
/// keeps the earlier history, and either a failure, a tool to run (within
/// the same iteration), or the opening of the next iteration once every
/// call of the batch has its answer.
proof fn lemma_advance(s: SessionView)
    requires
        batch_ready(s),
    ensures
        ({
            let (t, a) = advance(s);
            &&& session_wf(t)
            &&& t.max_iterations == s.max_iterations
            &&& t.workspace == s.workspace
            &&& t.auto_mode == s.auto_mode
            &&& t.history.len() >= s.history.len()
            &&& forall|i: int| 1 <= i < s.history.len() ==> #[trigger] t.history[i] == s.history[i]
            &&& a is Fail || a is RunTool || a is CallLlm
            &&& (a is Fail ==> t.stage == Stage::Finished)
            &&& (a matches ActionView::RunTool { workspace, .. } ==> workspace == s.workspace)
            &&& (a is RunTool ==> {
                &&& t.stage == Stage::RunningTool
                &&& t.iteration == s.iteration
                &&& t.pending == s.pending
                &&& s.next_call <= t.next_call
            })
            &&& (a is CallLlm ==> {
                &&& t.iteration == s.iteration + 1
                &&& opened(t, a)
                &&& batch_answered(
                    t.history.take(s.history.len() - s.next_call + s.pending.len()),
                    s.pending,
                    s.pending.len(),
                )
            })
        }),
    decreases s.pending.len() - s.next_call,
{
    if s.next_call >= s.pending.len() {
        let u = SessionView { iteration: s.iteration + 1, ..s };
        lemma_open_iteration(u);
        let t = open_iteration(u).0;
        let h = t.history.take(s.history.len() - s.next_call + s.pending.len());
        let a = s.history.len() - 1 - s.next_call;
        assert(h.len() == s.history.len());
        assert forall|j: int| 0 <= j < s.pending.len() implies {
            let m = #[trigger] h[a + 1 + j];
            &&& m.role == Role::Tool
            &&& m.tool_call_id == Some(s.pending[j].id)
            &&& m.name == Some(s.pending[j].name)
        } by {
            assert(h[a + 1 + j] == s.history[a + 1 + j]);
        }
        assert(h[a] == s.history[a]);
    } else {
        let call = s.pending[s.next_call as int];
        if json_parses(call.arguments) && find_tool(s.tools, call.name) is None {
            let u = answered(s, unknown_tool_message(call.name), unknown_tool_plan(s.plan, call.name));
            lemma_answered_ready(s, unknown_tool_message(call.name), unknown_tool_plan(s.plan, call.name));
            lemma_advance(u);
            let t = advance(u).0;
            assert forall|i: int| 1 <= i < s.history.len() implies #[trigger] t.history[i]
                == s.history[i] by {
                assert(u.history[i] == s.history[i]);
            }
        }
    }
}

/// The facts about one step that the laws below rest on.
proof fn lemma_transition_shape(s: SessionView, e: EventView)
    requires
        session_wf(s),
        expects(s.stage, e),
    ensures
        ({
            let (t, a) = transition(s, e);
            &&& session_wf(t)
            &&& t.max_iterations == s.max_iterations
            &&& t.workspace == s.workspace
            &&& t.auto_mode == s.auto_mode
            &&& t.history.len() >= s.history.len()
            &&& (a is CallLlm ==> t.iteration == s.iteration + 1 && opened(t, a))
            &&& (a is RunTool ==> t.stage == Stage::RunningTool && t.iteration == s.iteration
                && s.stage != Stage::AwaitingSummary)
            &&& (a matches ActionView::RunTool { workspace, .. } ==> workspace == s.workspace)
            &&& (a is RunTool && s.stage == Stage::RunningTool ==> t.pending == s.pending
                && t.next_call > s.next_call)
            &&& (a is AskHuman ==> t.stage == Stage::AwaitingDecision && t.iteration
                == s.iteration && s.stage == Stage::AwaitingReply && !s.auto_mode)
            &&& (t.stage == Stage::Finished || a is CallLlm || a is RunTool || a is AskHuman)
        }),
{
    match e {
        EventView::LlmReplied(r) => {
            if s.stage != Stage::AwaitingSummary && r.tool_calls.len() > 0 {
                let t = SessionView {
                    history: s.history.push(assistant_message(r.content, Some(r.tool_calls))),
                    pending: r.tool_calls,
                    next_call: 0,
                    ..s
                };
                assert(batch_answered(t.history, t.pending, 0));
                if s.auto_mode {
                    lemma_advance(t);
                }
            }
        },
        EventView::Decided(d) => match d {
            HitlDecisionView::Approve => {
                lemma_advance(s);
            },
            HitlDecisionView::Reject(fb) => {
                lemma_open_iteration(
                    SessionView {
                        plan: PlanView { reflection_needed: true, ..s.plan },
                        history: s.history.push(text_message(Role::User, rejection_message(fb))),
                        iteration: s.iteration + 1,
                        ..s
                    },
                );
            },
            HitlDecisionView::Quit => {},
        },
        EventView::ToolSucceeded(out) => {
            let plan = PlanView { last_error: None, reflection_needed: false, ..s.plan };
            lemma_answered_ready(s, out, plan);
            lemma_advance(answered(s, out, plan));
        },
        EventView::ToolFailed(m) => {
            let plan = PlanView {
                last_error: Some(tool_error_message(m)),
                reflection_needed: true,
                ..s.plan
            };
            lemma_answered_ready(s, tool_error_message(m), plan);
            lemma_advance(answered(s, tool_error_message(m), plan));
        },
        _ => {},
    }
}

/// Every state a run reaches from a well-formed state is well formed: the
/// history starts with the system prompt, a recorded error always comes
/// with a pending reflection, the iteration count stays within its bound,
/// and every tool call of the current batch that was handled has its
/// answer in the history, in order.
pub proof fn lemma_transition_wf(s: SessionView, e: EventView)
    requires
        session_wf(s),
        expects(s.stage, e),
    ensures
        session_wf(transition(s, e).0),
{
    lemma_transition_shape(s, e);
}

/// A run starts in a well-formed state.
pub proof fn lemma_start_wf(
    tools: Seq<ToolKind>,
    workspace: Seq<char>,
    max_iterations: nat,
    auto_mode: bool,
    task: Seq<char>,
)
    requires
        max_iterations <= u32::MAX,
    ensures
        session_wf(start_spec(tools, workspace, max_iterations, auto_mode, task).0),
{
}

// ---------------------------------------------------------------------------
// Laws of the loop
// ---------------------------------------------------------------------------

pub open spec fn iterations_left(s: SessionView) -> int {
    s.max_iterations + 1 - s.iteration
}

pub open spec fn stage_rank(stage: Stage) -> int {
    match stage {
        Stage::AwaitingReply => 3,
        Stage::AwaitingDecision => 2,
        Stage::RunningTool => 1,
        Stage::AwaitingSummary | Stage::Finished => 0,
    }
}

pub open spec fn calls_left(s: SessionView) -> int {
    s.pending.len() - s.next_call
}

/// `t` is strictly closer to the end of the run than `s`, in the
/// lexicographic order of (iterations left, stage, tool calls left), all of
/// which are natural numbers in a well-formed state.
pub open spec fn closer_to_end(t: SessionView, s: SessionView) -> bool {
    ||| iterations_left(t) < iterations_left(s)
    ||| (iterations_left(t) == iterations_left(s) && stage_rank(t.stage) < stage_rank(s.stage))
    ||| (iterations_left(t) == iterations_left(s) && stage_rank(t.stage) == stage_rank(s.stage)
        && calls_left(t) < calls_left(s))
}

/// Every step either ends the run or brings it strictly closer to its end
/// in a well-founded order, whatever the model, the user and the tools
/// answer: a run always terminates.
pub proof fn lemma_step_progress(s: SessionView, e: EventView)
    requires
        session_wf(s),
        expects(s.stage, e),
    ensures
        transition(s, e).0.stage == Stage::Finished || closer_to_end(transition(s, e).0, s),
        iterations_left(transition(s, e).0) >= 0,
        calls_left(transition(s, e).0) >= 0,
{
    lemma_transition_shape(s, e);
}

/// The model is offered the tools only when a new iteration opens: each
/// such request comes with an iteration number one higher than before and
/// never above the maximum, so a run makes at most `max_iterations` of them.
pub proof fn lemma_tool_requests_bounded(s: SessionView, e: EventView)
    requires
        session_wf(s),
        expects(s.stage, e),
        transition(s, e).1 == (ActionView::CallLlm { with_tools: true }),
    ensures
        transition(s, e).0.iteration == s.iteration + 1,
        transition(s, e).0.iteration <= s.max_iterations,
        transition(s, e).0.stage == Stage::AwaitingReply,
{
    lemma_transition_shape(s, e);
}

/// A run opens with a request that offers the tools in iteration 1, or,
/// when no iteration is allowed, with the request for a summary.
pub proof fn lemma_start_request(
    tools: Seq<ToolKind>,
    workspace: Seq<char>,
    max_iterations: nat,
    auto_mode: bool,
    task: Seq<char>,
)
    ensures
        ({
            let (t, a) = start_spec(tools, workspace, max_iterations, auto_mode, task);
            &&& t.iteration == 1
            &&& a == ActionView::CallLlm { with_tools: max_iterations >= 1 }
            &&& t.plan == fresh_plan(task)
            &&& t.history[1] == text_message(Role::User, task_message(task))
        }),
{
}

/// When the iterations are used up the model is asked once, without the
/// tools, for a summary, and its answer ends the run.
pub proof fn lemma_summary_ends_run(s: SessionView, e: EventView)
    requires
        session_wf(s),
        expects(s.stage, e),
    ensures
        transition(s, e).1 == (ActionView::CallLlm { with_tools: false }) ==> {
            &&& transition(s, e).0.stage == Stage::AwaitingSummary
            &&& transition(s, e).0.history.last() == text_message(
                Role::User,
                out_of_iterations_message(),
            )
        },
        s.stage == Stage::AwaitingSummary ==> transition(s, e).0.stage == Stage::Finished,
        (s.stage == Stage::AwaitingSummary && e is LlmReplied) ==> transition(s, e).1
            == ActionView::Finish(summary_answer(e->LlmReplied_0.content)),
{
    lemma_transition_shape(s, e);
}

/// Outside automatic mode no tool runs without the user's approval: a tool
/// is started only right after an `Approve` of its batch, or after the
/// previous tool of the same batch has returned.
pub proof fn lemma_tools_run_only_after_approval(s: SessionView, e: EventView)
    requires
        session_wf(s),
        expects(s.stage, e),
        !s.auto_mode,
    ensures
        transition(s, e).1 is RunTool ==> (s.stage == Stage::RunningTool || (s.stage
            == Stage::AwaitingDecision && e == EventView::Decided(HitlDecisionView::Approve))),
{
}

/// When the last call of a batch has returned and the next request to the
/// model opens, its system prompt reflects that outcome: a failure is named
/// in a reflection section, and a success leaves no reflection section.
pub proof fn lemma_last_outcome_sets_prompt(s: SessionView, e: EventView)
    requires
        session_wf(s),
        s.stage == Stage::RunningTool,
        s.next_call + 1 == s.pending.len(),
        e is ToolSucceeded || e is ToolFailed,
        transition(s, e).1 == (ActionView::CallLlm { with_tools: true }),
    ensures
        ({
            let t = transition(s, e).0;
            t.history[0] == text_message(
                Role::System,
                protocol_text() + t.plan.objective + "\nWorkspace: "@ + t.workspace + match e {
                    EventView::ToolFailed(m) => reflection_head() + tool_error_message(m)
                        + reflection_tail(),
                    _ => Seq::empty(),
                },
            )
        }),
{
    let t = transition(s, e).0;
    if let EventView::ToolFailed(m) = e {
        assert(protocol_text() + t.plan.objective + "\nWorkspace: "@ + t.workspace + (
        reflection_head() + tool_error_message(m) + reflection_tail()) =~= protocol_text()
            + t.plan.objective + "\nWorkspace: "@ + t.workspace + reflection_head()
            + tool_error_message(m) + reflection_tail());
    } else {
        assert(protocol_text() + t.plan.objective + "\nWorkspace: "@ + t.workspace
            + Seq::<char>::empty() =~= protocol_text() + t.plan.objective + "\nWorkspace: "@
            + t.workspace);
    }
}

/// When the last call of a batch names no registered tool and the next
/// request to the model opens, its system prompt names that error in a
/// reflection section.
pub proof fn lemma_unknown_last_call_prompts_reflection(s: SessionView)
    requires
        batch_ready(s),
        s.next_call + 1 == s.pending.len(),
        json_parses(s.pending[s.next_call as int].arguments),
        find_tool(s.tools, s.pending[s.next_call as int].name) is None,
        advance(s).1 == (ActionView::CallLlm { with_tools: true }),
    ensures
        ({
            let t = advance(s).0;
            t.history[0] == text_message(
                Role::System,
                protocol_text() + t.plan.objective + "\nWorkspace: "@ + t.workspace
                    + reflection_head() + unknown_tool_message(s.pending[s.next_call as int].name)
                    + reflection_tail(),
            )
        }),
{
    let t = advance(s).0;
    let name = s.pending[s.next_call as int].name;
    let u = answered(s, unknown_tool_message(name), unknown_tool_plan(s.plan, name));
    assert(advance(u) == advance(s));
    assert(u.next_call >= u.pending.len());
    assert(protocol_text() + t.plan.objective + "\nWorkspace: "@ + t.workspace + (
    reflection_head() + unknown_tool_message(name) + reflection_tail()) =~= protocol_text()
        + t.plan.objective + "\nWorkspace: "@ + t.workspace + reflection_head()
        + unknown_tool_message(name) + reflection_tail());
}

/// In automatic mode the user is never asked.
pub proof fn lemma_auto_mode_never_asks(s: SessionView, e: EventView)
    requires
        session_wf(s),
        expects(s.stage, e),
        s.auto_mode,
    ensures
        !(transition(s, e).1 is AskHuman),
{
    lemma_transition_shape(s, e);
}

/// Outside automatic mode, every batch of tool calls the model proposes is
/// first shown to the user, with the iteration it belongs to.
pub proof fn lemma_proposals_go_to_user(s: SessionView, r: ChatResponseView)
    requires
        session_wf(s),
        !s.auto_mode,
        s.stage == Stage::AwaitingReply,
        r.tool_calls.len() > 0,
    ensures
        transition(s, EventView::LlmReplied(r)).1 == (ActionView::AskHuman { iteration: s.iteration }),
        transition(s, EventView::LlmReplied(r)).0.pending == r.tool_calls,
{
}

/// Quitting at the approval prompt ends the run with "Agent terminated by user."
/// and runs no tool.
pub proof fn lemma_quit_ends_run(s: SessionView)
    ensures
        transition(s, EventView::Decided(HitlDecisionView::Quit)).1 == ActionView::Finish(
            quit_answer(),
        ),
        transition(s, EventView::Decided(HitlDecisionView::Quit)).0.stage == Stage::Finished,
{
}

/// Rejecting the proposal runs none of its tools: the rejection (with the
/// user's feedback) is told to the model, reflection is requested, and the
/// next iteration begins.
pub proof fn lemma_rejection_replans(s: SessionView, feedback: Option<Seq<char>>)
    requires
        session_wf(s),
        s.stage == Stage::AwaitingDecision,
    ensures
        ({
            let (t, a) = transition(s, EventView::Decided(HitlDecisionView::Reject(feedback)));
            &&& a is CallLlm
            &&& t.plan.reflection_needed
            &&& t.iteration == s.iteration + 1
            &&& t.history[s.history.len() as int] == text_message(
                Role::User,
                rejection_message(feedback),
            )
            &&& t.history.len() >= s.history.len() + 1
        }),
{
}

/// Whenever the model is offered the tools, the history opens with the
/// system prompt built from the current plan state.
pub proof fn lemma_prompt_is_current(s: SessionView, e: EventView)
    requires
        session_wf(s),
        expects(s.stage, e),
        transition(s, e).1 == (ActionView::CallLlm { with_tools: true }),
    ensures
        transition(s, e).0.history[0] == text_message(
            Role::System,
            system_prompt(transition(s, e).0.plan, transition(s, e).0.workspace),
        ),
{
    lemma_transition_shape(s, e);
}

/// A tool's outcome is the answer to its call: a success is answered with
/// its output and clears the recorded error and the reflection request; a
/// failure is answered with `Error: ` and its message, which becomes the
/// recorded error, with reflection requested.  The run then moves on to the
/// next call of the batch.
pub proof fn lemma_tool_outcome_recorded(s: SessionView, e: EventView)
    requires
        session_wf(s),
        s.stage == Stage::RunningTool,
        e is ToolSucceeded || e is ToolFailed,
    ensures
        ({
            let call = s.pending[s.next_call as int];
            let answer = match e {
                EventView::ToolSucceeded(out) => out,
                _ => tool_error_message(e->ToolFailed_0),
            };
            let plan = if e is ToolSucceeded {
                PlanView { last_error: None, reflection_needed: false, ..s.plan }
            } else {
                PlanView { last_error: Some(answer), reflection_needed: true, ..s.plan }
            };
            &&& transition(s, e) == advance(answered(s, answer, plan))
            &&& transition(s, e).0.history[s.history.len() as int] == tool_message(
                call.id,
                call.name,
                answer,
            )
        }),
{
    let answer = match e {
        EventView::ToolSucceeded(out) => out,
        _ => tool_error_message(e->ToolFailed_0),
    };
    let plan = if e is ToolSucceeded {
        PlanView { last_error: None, reflection_needed: false, ..s.plan }
    } else {
        PlanView { last_error: Some(answer), reflection_needed: true, ..s.plan }
    };
    let u = answered(s, answer, plan);
    lemma_answered_ready(s, answer, plan);
    lemma_advance(u);
    assert(advance(u).0.history[s.history.len() as int] == u.history[s.history.len() as int]);
}

/// A call whose arguments do not parse as JSON ends the run with the
/// parser's error, and no tool runs for it.
pub proof fn lemma_invalid_arguments_fail(s: SessionView)
    requires
        batch_ready(s),
        s.next_call < s.pending.len(),
        !json_parses(s.pending[s.next_call as int].arguments),
    ensures
        advance(s).1 == ActionView::Fail(json_error_text(s.pending[s.next_call as int].arguments)),
        advance(s).0.stage == Stage::Finished,
{
}

/// A call with JSON arguments that names a registered tool runs that tool
/// on exactly those arguments (their text and the value read from it); one that names no registered tool is
/// answered with `Unknown tool: ` and its name, which becomes the recorded
/// error, and the next call is taken up.
pub proof fn lemma_valid_call_dispatched(s: SessionView)
    requires
        batch_ready(s),
        s.next_call < s.pending.len(),
        json_parses(s.pending[s.next_call as int].arguments),
    ensures
        ({
            let call = s.pending[s.next_call as int];
            match find_tool(s.tools, call.name) {
                Some(k) => advance(s) == (
                    SessionView { stage: Stage::RunningTool, ..s },
                    ActionView::RunTool {
                        tool: k,
                        arguments: call.arguments,
                        args: json_tree_of(call.arguments),
                        workspace: s.workspace,
                    },
                ),
                None => {
                    &&& advance(s) == advance(
                        answered(
                            s,
                            unknown_tool_message(call.name),
                            unknown_tool_plan(s.plan, call.name),
                        ),
                    )
                    &&& advance(s).0.history[s.history.len() as int] == tool_message(
                        call.id,
                        call.name,
                        unknown_tool_message(call.name),
                    )
                },
            }
        }),
{
    let call = s.pending[s.next_call as int];
    if find_tool(s.tools, call.name) is None {
        let u = answered(s, unknown_tool_message(call.name), unknown_tool_plan(s.plan, call.name));
        lemma_answered_ready(s, unknown_tool_message(call.name), unknown_tool_plan(s.plan, call.name));
        lemma_advance(u);
        assert(advance(u).0.history[s.history.len() as int] == u.history[s.history.len() as int]);
    }
}

/// When a batch of tool calls is done, each call has exactly one answer in
/// the history, right after the turn that proposed the batch and in the
/// order of the calls.
pub proof fn lemma_batch_completes_in_order(s: SessionView, e: EventView)
    requires
        session_wf(s),
        s.stage == Stage::RunningTool,
        e is ToolSucceeded || e is ToolFailed,
        transition(s, e).1 is CallLlm,
    ensures
        batch_answered(
            transition(s, e).0.history.take(s.history.len() - s.next_call + s.pending.len()),
            s.pending,
            s.pending.len(),
        ),
{
    let answer = match e {
        EventView::ToolSucceeded(out) => out,
        _ => tool_error_message(e->ToolFailed_0),
    };
    let plan = if e is ToolSucceeded {
        PlanView { last_error: None, reflection_needed: false, ..s.plan }
    } else {
        PlanView { last_error: Some(answer), reflection_needed: true, ..s.plan }
    };
    lemma_answered_ready(s, answer, plan);
    lemma_advance(answered(s, answer, plan));
}

// ---------------------------------------------------------------------------
// Laws of whole runs
// ---------------------------------------------------------------------------

/// Whether a run in state `s` can take `events` one after another.
pub open spec fn fits(s: SessionView, events: Seq<EventView>) -> bool
    decreases events.len(),
{
    events.len() == 0 || (expects(s.stage, events[0]) && fits(
        transition(s, events[0]).0,
        events.drop_first(),
    ))
}

/// How many times a run in state `s` asks the model while taking `events`.
pub open spec fn model_calls(s: SessionView, events: Seq<EventView>) -> nat
    decreases events.len(),
{
    if events.len() == 0 {
        0
    } else {
        let (t, a) = transition(s, events[0]);
        (if a is CallLlm {
            1nat
        } else {
            0nat
        }) + model_calls(t, events.drop_first())
    }
}

/// How many more times a run in state `s` can ask the model.
pub open spec fn call_budget(s: SessionView) -> int {
    if s.stage == Stage::Finished || s.stage == Stage::AwaitingSummary {
        0
    } else {
        iterations_left(s)
    }
}

proof fn lemma_model_calls_within_budget(s: SessionView, events: Seq<EventView>)
    requires
        session_wf(s),
        fits(s, events),
    ensures
        model_calls(s, events) <= call_budget(s),
    decreases events.len(),
{
    if events.len() > 0 {
        let e = events[0];
        lemma_transition_shape(s, e);
        lemma_model_calls_within_budget(transition(s, e).0, events.drop_first());
    }
}

/// A run asks the model at most `max_iterations + 1` times, counting the
/// first request: once per iteration, and once more for the summary.
pub proof fn lemma_model_calls_bounded(
    tools: Seq<ToolKind>,
    workspace: Seq<char>,
    max_iterations: nat,
    auto_mode: bool,
    task: Seq<char>,
    events: Seq<EventView>,
)
    requires
        max_iterations <= u32::MAX,
        fits(start_spec(tools, workspace, max_iterations, auto_mode, task).0, events),
    ensures
        start_spec(tools, workspace, max_iterations, auto_mode, task).1 is CallLlm,
        1 + model_calls(start_spec(tools, workspace, max_iterations, auto_mode, task).0, events)
            <= max_iterations + 1,
{
    let s = start_spec(tools, workspace, max_iterations, auto_mode, task).0;
    lemma_start_wf(tools, workspace, max_iterations, auto_mode, task);
    lemma_model_calls_within_budget(s, events);
}

/// Whether, in a run in state `s` taking `events`, every tool that runs
/// does so under an approval: `approved` holds when the user has approved
/// the current batch and only tools of that batch have run since.
pub open spec fn runs_only_approved(s: SessionView, events: Seq<EventView>, approved: bool) -> bool
    decreases events.len(),
{
    if events.len() == 0 {
        true
    } else {
        let e = events[0];
        let (t, a) = transition(s, e);
        let now = if e is Decided {
            e == EventView::Decided(HitlDecisionView::Approve)
        } else {
            approved
        };
        &&& (a is RunTool ==> now)
        &&& runs_only_approved(t, events.drop_first(), now && a is RunTool)
    }
}

proof fn lemma_runs_only_approved(s: SessionView, events: Seq<EventView>, approved: bool)
    requires
        session_wf(s),
        !s.auto_mode,
        fits(s, events),
        s.stage == Stage::RunningTool ==> approved,
    ensures
        runs_only_approved(s, events, approved),
    decreases events.len(),
{
    if events.len() > 0 {
        let e = events[0];
        let (t, a) = transition(s, e);
        let now = if e is Decided {
            e == EventView::Decided(HitlDecisionView::Approve)
        } else {
            approved
        };
        lemma_transition_shape(s, e);
        lemma_tools_run_only_after_approval(s, e);
        if a is CallLlm {
            assert(a == ActionView::CallLlm { with_tools: true } || a == ActionView::CallLlm {
                with_tools: false,
            });
        }
        assert(t.stage == Stage::RunningTool ==> a is RunTool);
        lemma_runs_only_approved(t, events.drop_first(), now && a is RunTool);
    }
}

/// Outside automatic mode, in any run, a tool runs only under the user's
/// approval: each tool that runs comes right after an `Approve` of its
/// batch, or right after another tool of that same batch.
pub proof fn lemma_run_tools_only_approved(
    tools: Seq<ToolKind>,
    workspace: Seq<char>,
    max_iterations: nat,
    task: Seq<char>,
    events: Seq<EventView>,
)
    requires
        max_iterations <= u32::MAX,
        fits(start_spec(tools, workspace, max_iterations, false, task).0, events),
    ensures
        runs_only_approved(start_spec(tools, workspace, max_iterations, false, task).0, events, false),
{
    lemma_start_wf(tools, workspace, max_iterations, false, task);
    lemma_runs_only_approved(start_spec(tools, workspace, max_iterations, false, task).0, events, false);
}

/// Whether, in a run in state `s` taking `events`, every tool runs in the
/// workspace `workspace`.
pub open spec fn tools_run_in(s: SessionView, events: Seq<EventView>, workspace: Seq<char>) -> bool
    decreases events.len(),
{
    if events.len() == 0 {
        true
    } else {
        let (t, a) = transition(s, events[0]);
        &&& (a matches ActionView::RunTool { workspace: w, .. } ==> w == workspace)
        &&& tools_run_in(t, events.drop_first(), workspace)
    }
}

proof fn lemma_tools_run_in(s: SessionView, events: Seq<EventView>)
    requires
        session_wf(s),
        fits(s, events),
    ensures
        tools_run_in(s, events, s.workspace),
    decreases events.len(),
{
    if events.len() > 0 {
        lemma_transition_shape(s, events[0]);
        lemma_tools_run_in(transition(s, events[0]).0, events.drop_first());
    }
}

/// In any run, every tool runs in the workspace the run was started with.
pub proof fn lemma_run_tools_use_workspace(
    tools: Seq<ToolKind>,
    workspace: Seq<char>,
    max_iterations: nat,
    auto_mode: bool,
    task: Seq<char>,
    events: Seq<EventView>,
)
    requires
        max_iterations <= u32::MAX,
        fits(start_spec(tools, workspace, max_iterations, auto_mode, task).0, events),
    ensures
        tools_run_in(start_spec(tools, workspace, max_iterations, auto_mode, task).0, events, workspace),
{
    lemma_start_wf(tools, workspace, max_iterations, auto_mode, task);
    lemma_tools_run_in(start_spec(tools, workspace, max_iterations, auto_mode, task).0, events);
}

// ---------------------------------------------------------------------------
// Showing a proposal
// ---------------------------------------------------------------------------

pub open spec fn call_block(call: ToolCallView, shown_arguments: Seq<char>) -> Seq<char> {
    "  Tool: "@ + call.name + "\n  Args: "@ + shown_arguments
}

/// How arguments are shown: pretty-printed by `serde_json` when they parse
/// as JSON, as given otherwise.
pub open spec fn shown_arguments(arguments: Seq<char>) -> Seq<char> {
    if json_parses(arguments) {
        json_pretty(arguments)
    } else {
        arguments
    }
}

/// The proposal text for `calls`: one block per call, separated by `---`
/// lines.
pub open spec fn proposal_text(calls: Seq<ToolCallView>) -> Seq<char> {
    join_spec(
        Seq::new(calls.len(), |i: int| call_block(calls[i], shown_arguments(calls[i].arguments))),
        "\n---\n"@,
    )
}

/// The proposal text shown at the approval prompt: one block per call naming the tool
/// and its arguments (pretty-printed when they are JSON), separated by
/// `---` lines.
pub fn format_tool_calls(calls: &Vec<ToolCall>) -> (out: String)
    ensures
        out@ == proposal_text(calls.deep_view()),
{
    let ghost cv = calls.deep_view();
    let mut blocks: Vec<String> = Vec::new();
    let mut i: usize = 0;
    while i < calls.len()
        invariant
            i <= calls.len(),
            cv == calls.deep_view(),
            blocks@.len() == i,
            forall|j: int|
                0 <= j < i ==> #[trigger] blocks@[j]@ == call_block(
                    cv[j],
                    shown_arguments(cv[j].arguments),
                ),
        decreases calls.len() - i,
    {
        let call = &calls[i];
        let args = match pretty_json_text(call.arguments.as_str()) {
            Some(p) => p,
            None => call.arguments.clone(),
        };
        let block = concat3(
            "  Tool: ",
            call.name.as_str(),
            concat("\n  Args: ", args.as_str()).as_str(),
        );
        assert(block@ =~= call_block(cv[i as int], shown_arguments(cv[i as int].arguments)));
        blocks.push(block);
        i = i + 1;
    }
    let out = join(&blocks, "\n---\n");
    assert(blocks@.map_values(|b: String| b@) =~= Seq::new(
        cv.len(),
        |j: int| call_block(cv[j], shown_arguments(cv[j].arguments)),
    ));
    out
}

impl AgentSession {
    pub closed spec fn wf(&self) -> bool {
        session_wf(self@)
    }

    /// Starts a run on `task`: a fresh plan, a history holding the system
    /// prompt and the task, and the first request to the model.
    pub fn start(
        tools: &ToolRegistry,
        workspace: &str,
        max_iterations: u32,
        auto_mode: bool,
        task: &str,
    ) -> (res: (AgentSession, Action))
        ensures
            res.0.wf(),
            (res.0@, res.1@) == start_spec(tools@, workspace@, max_iterations as nat, auto_mode, task@),
    {
        let plan = PlanState::new(task);
        let prompt = build_system_prompt(&plan, workspace);
        let mut history: Vec<Message> = Vec::new();
        history.push(Message::system(prompt.as_str()));
        let intro = concat3(
            "Task: ",
            task,
            "\n\nBegin with Phase 1 \u{2014} explore the codebase and produce a plan.",
        );
        history.push(Message::user(intro.as_str()));
        let mut session = AgentSession {
            plan,
            history,
            tools: tools.duplicate(),
            workspace: workspace.to_owned(),
            max_iterations,
            auto_mode,
            iteration: 1,
            stage: Stage::AwaitingReply,
            pending: Vec::new(),
            next_call: 0,
        };
        let ghost s0 = session@;
        assert(s0.history =~= seq![
            text_message(Role::System, system_prompt(fresh_plan(task@), workspace@)),
            text_message(Role::User, task_message(task@)),
        ]);
        assert(s0.pending =~= Seq::<ToolCallView>::empty());
        let a = session.open_iteration();
        proof {
            lemma_start_wf(tools@, workspace@, max_iterations as nat, auto_mode, task@);
        }
        (session, a)
    }

    /// The messages to send to the model.
    pub fn history(&self) -> (h: &Vec<Message>)
        ensures
            h.deep_view() == self@.history,
    {
        &self.history
    }

    /// The tool calls awaiting the user's decision or being run.
    pub fn pending_calls(&self) -> (p: &Vec<ToolCall>)
        ensures
            p.deep_view() == self@.pending,
    {
        &self.pending
    }

    /// The plan state.
    pub fn plan(&self) -> (p: &PlanState)
        ensures
            p@ == self@.plan,
    {
        &self.plan
    }

    /// Where the run stands.
    pub fn stage(&self) -> (st: Stage)
        ensures
            st == self@.stage,
    {
        self.stage
    }

    /// Whether `event` is one the session can take now.
    pub fn accepts(&self, event: &Event) -> (b: bool)
        ensures
            b == expects(self@.stage, event@),
    {
        match self.stage {
            Stage::AwaitingReply | Stage::AwaitingSummary => match event {
                Event::LlmReplied(_) | Event::LlmFailed(_) => true,
                _ => false,
            },
            Stage::AwaitingDecision => match event {
                Event::Decided(_) => true,
                _ => false,
            },
            Stage::RunningTool => match event {
                Event::ToolSucceeded(_) | Event::ToolFailed(_) => true,
                _ => false,
            },
            Stage::Finished => false,
        }
    }

    fn push_message(&mut self, m: Message)
        ensures
            final(self)@ == (SessionView { history: old(self)@.history.push(m@), ..old(self)@ }),
    {
        let ghost mv = m@;
        let ghost before = self.history.deep_view();
        self.history.push(m);
        assert(self.history.deep_view() =~= before.push(mv));
    }

    fn open_iteration(&mut self) -> (a: Action)
        requires
            old(self)@.history.len() >= 1,
        ensures
            (final(self)@, a@) == open_iteration(old(self)@),
    {
        if self.iteration > self.max_iterations as u64 {
            self.push_message(
                Message::user(
                    "Maximum iterations reached. Provide a summary of what was accomplished and what remains.",
                ),
            );
            self.stage = Stage::AwaitingSummary;
            self.pending = Vec::new();
            self.next_call = 0;
            assert(self@.pending =~= Seq::<ToolCallView>::empty());
            Action::CallLlm { with_tools: false }
        } else {
            let prompt = build_system_prompt(&self.plan, self.workspace.as_str());
            let m = Message::system(prompt.as_str());
            let ghost mv = m@;
            let ghost before = self.history.deep_view();
            self.history.set(0, m);
            assert(self.history.deep_view() =~= before.update(0, mv));
            self.stage = Stage::AwaitingReply;
            self.pending = Vec::new();
            self.next_call = 0;
            assert(self@.pending =~= Seq::<ToolCallView>::empty());
            Action::CallLlm { with_tools: true }
        }
    }

    fn answer(&mut self, result: String, plan: PlanState)
        requires
            old(self)@.next_call < old(self)@.pending.len(),
        ensures
            final(self)@ == answered(old(self)@, result@, plan@),
    {
        let id = self.pending[self.next_call].id.clone();
        let name = self.pending[self.next_call].name.clone();
        assert(self.next_call < self.pending.len());
        let next = self.next_call + 1;
        self.plan = plan;
        self.push_message(Message::tool(id.as_str(), name.as_str(), result.as_str()));
        self.next_call = next;
    }

    fn advance(&mut self) -> (a: Action)
        requires
            batch_ready(old(self)@),
        ensures
            (final(self)@, a@) == advance(old(self)@),
    {
        let ghost target = advance(self@);
        loop
            invariant
                batch_ready(self@),
                advance(self@) == target,
                target == advance(old(self)@),
            decreases self@.pending.len() - self@.next_call,
        {
            let ghost pre = self@;
            if self.next_call >= self.pending.len() {
                self.iteration = self.iteration + 1;
                let a = self.open_iteration();
                assert(advance(pre) == open_iteration(SessionView { iteration: pre.iteration + 1, ..pre }));
                return a;
            }
            let ghost call = pre.pending[pre.next_call as int];
            assert(self.pending[self.next_call as int]@ == call);
            let args = match parse_json_tree(self.pending[self.next_call].arguments.as_str()) {
                Err(m) => {
                    self.stage = Stage::Finished;
                    assert(advance(pre) == (finished(pre), ActionView::Fail(json_error_text(call.arguments))));
                    return Action::Fail(m);
                },
                Ok(t) => t,
            };
            match self.tools.find_by_name(self.pending[self.next_call].name.as_str()) {
                Some(k) => {
                    self.stage = Stage::RunningTool;
                    let arguments = self.pending[self.next_call].arguments.clone();
                    assert(advance(pre) == (
                        SessionView { stage: Stage::RunningTool, ..pre },
                        ActionView::RunTool {
                            tool: k,
                            arguments: call.arguments,
                            args: json_tree_of(call.arguments),
                            workspace: pre.workspace,
                        },
                    ));
                    let workspace = clone_string(&self.workspace);
                    return Action::RunTool { tool: k, arguments, args, workspace };
                },
                None => {
                    let msg = concat("Unknown tool: ", self.pending[self.next_call].name.as_str());
                    let mut plan = self.plan.duplicate();
                    plan.last_error = Some(msg.clone());
                    plan.reflection_needed = true;
                    assert(plan@ == unknown_tool_plan(pre.plan, call.name));
                    proof {
                        lemma_answered_ready(self@, msg@, plan@);
                    }
                    self.answer(msg, plan);
                    assert(advance(pre) == advance(self@));
                },
            }
        }
    }

    fn record_result(&mut self, result: String, plan: PlanState) -> (a: Action)
        requires
            batch_ready(old(self)@),
            old(self)@.next_call < old(self)@.pending.len(),
            plan@.last_error is Some ==> plan@.reflection_needed,
        ensures
            (final(self)@, a@) == record_result(old(self)@, result@, plan@),
    {
        proof {
            lemma_answered_ready(self@, result@, plan@);
        }
        self.answer(result, plan);
        self.advance()
    }

    /// Takes the outcome of the last action and decides the next one.
    pub fn step(&mut self, event: Event) -> (a: Action)
        requires
            old(self).wf(),
            expects(old(self)@.stage, event@),
        ensures
            final(self).wf(),
            (final(self)@, a@) == transition(old(self)@, event@),
    {
        proof {
            lemma_transition_wf(self@, event@);
        }
        let ghost ev = event@;
        match event {
            Event::LlmReplied(r) => {
                if self.stage == Stage::AwaitingSummary {
                    self.stage = Stage::Finished;
                    let summary = match r.content {
                        Some(c) => c,
                        None => String::from_str("No summary available."),
                    };
                    Action::Finish(concat("MAX_ITERATIONS_REACHED. ", summary.as_str()))
                } else if r.tool_calls.len() > 0 {
                    let ChatResponse { content, tool_calls, finish_reason: _ } = r;
                    let pending = duplicate_calls(&tool_calls);
                    self.push_message(Message::assistant(content, Some(tool_calls)));
                    self.pending = pending;
                    self.next_call = 0;
                    if self.auto_mode {
                        self.advance()
                    } else {
                        self.stage = Stage::AwaitingDecision;
                        Action::AskHuman { iteration: self.iteration }
                    }
                } else {
                    match r.content {
                        Some(c) => {
                            let answer = c.clone();
                            self.push_message(Message::assistant(Some(c), None));
                            self.stage = Stage::Finished;
                            Action::Finish(answer)
                        },
                        None => {
                            self.stage = Stage::Finished;
                            Action::Fail(
                                String::from_str("LLM returned neither content nor tool calls"),
                            )
                        },
                    }
                }
            },
            Event::LlmFailed(m) => {
                self.stage = Stage::Finished;
                Action::Fail(m)
            },
            Event::Decided(d) => match d {
                HitlDecision::Approve => self.advance(),
                HitlDecision::Reject(feedback) => {
                    let msg = match feedback {
                        Some(fb) => concat3(
                            "User rejected the proposed action. Feedback: ",
                            fb.as_str(),
                            "\nPlease propose a different approach.",
                        ),
                        None => String::from_str(
                            "User rejected the proposed action. Please propose a different approach.",
                        ),
                    };
                    self.push_message(Message::user(msg.as_str()));
                    self.plan.reflection_needed = true;
                    self.iteration = self.iteration + 1;
                    self.open_iteration()
                },
                HitlDecision::Quit => {
                    self.stage = Stage::Finished;
                    Action::Finish(String::from_str("Agent terminated by user."))
                },
            },
            Event::ToolSucceeded(out) => {
                let mut plan = self.plan.duplicate();
                plan.last_error = None;
                plan.reflection_needed = false;
                self.record_result(out, plan)
            },
            Event::ToolFailed(m) => {
                let msg = concat("Error: ", m.as_str());
                let mut plan = self.plan.duplicate();
                plan.last_error = Some(msg.clone());
                plan.reflection_needed = true;
                self.record_result(msg, plan)
            },
        }
    }
}

} // verus!
