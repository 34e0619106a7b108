//! The agent's plan state and the system prompt built from it.

use vstd::prelude::*;

use crate::text::clone_opt_string;
use vstd::string::StringExecFns;

verus! {

/// What the agent is working on, the last failure it saw, and whether the
/// next turn must reflect on that failure.
#[derive(Debug)]
pub struct PlanState {
    pub current_objective: String,
    pub last_error: Option<String>,
    pub reflection_needed: bool,
}

pub struct PlanView {
    pub objective: Seq<char>,
    pub last_error: Option<Seq<char>>,
    pub reflection_needed: bool,
}

impl View for PlanState {
    type V = PlanView;

    open spec fn view(&self) -> PlanView {
        PlanView {
            objective: self.current_objective@,
            last_error: self.last_error.deep_view(),
            reflection_needed: self.reflection_needed,
        }
    }
}

/// A fresh plan for `objective`: no error seen, no reflection pending.
pub open spec fn fresh_plan(objective: Seq<char>) -> PlanView {
    PlanView { objective, last_error: None, reflection_needed: false }
}

impl PlanState {
    pub fn new(objective: &str) -> (p: PlanState)
        ensures
            p@ == fresh_plan(objective@),
    {
        PlanState {
            current_objective: objective.to_owned(),
            last_error: None,
            reflection_needed: false,
        }
    }

    /// A copy of this plan state.
    pub fn duplicate(&self) -> (p: PlanState)
        ensures
            p@ == self@,
    {
        PlanState {
            current_objective: self.current_objective.clone(),
            last_error: clone_opt_string(&self.last_error),
            reflection_needed: self.reflection_needed,
        }
    }
}

/// The fixed protocol that opens every system prompt.
pub open spec fn protocol_text() -> Seq<char> {
    "You are an expert software architect. Follow this protocol strictly:\n\nPHASE 1: ANALYSIS & PLANNING\n1. Explore the codebase: use list_files and search_code to understand structure.\n2. Read relevant files to understand the current implementation.\n3. Produce a structured plan.\n\nPHASE 2: EXECUTION & VERIFICATION\n1. Execute one step at a time using the appropriate tools.\n2. After EVERY write_file, run test_verify to ensure correctness.\n3. On failure: analyze the error, identify the root cause, propose a fix.\nNEVER attempt the same failing approach twice.\n4. Do NOT use bash_exec to run tests \u{2014} always use test_verify.\n\nPHASE 3: FINAL REVIEW\n1. Run the full test suite with test_verify.\n2. Summarize all changes made.\n3. Do NOT call any more tools after the summary.\n\nCurrent objective: "@
}

pub open spec fn reflection_head() -> Seq<char> {
    "\n\nREFLECTION REQUIRED \u{2014} Last error: "@
}

pub open spec fn reflection_tail() -> Seq<char> {
    "\nAnalyze the error above. Identify the root cause. Propose a different approach. Do NOT repeat the same failing action."@
}

/// The reflection section: present exactly when reflection is needed, and
/// naming the last error (or "Unknown" when none was recorded).
pub open spec fn reflection_section(plan: PlanView) -> Seq<char> {
    if plan.reflection_needed {
        reflection_head() + match plan.last_error {
            Some(e) => e,
            None => "Unknown"@,
        } + reflection_tail()
    } else {
        Seq::empty()
    }
}

/// The system prompt for a plan state and a workspace.
pub open spec fn system_prompt(plan: PlanView, workspace: Seq<char>) -> Seq<char> {
    protocol_text() + plan.objective + "\nWorkspace: "@ + workspace + reflection_section(plan)
}

/// Builds the system prompt: the three-phase protocol, the current
/// objective, the workspace, and the reflection section when needed.
pub fn build_system_prompt(plan: &PlanState, workspace: &str) -> (p: String)
    ensures
        p@ == system_prompt(plan@, workspace@),
{
    let mut p = String::from_str(
        "You are an expert software architect. Follow this protocol strictly:\n\nPHASE 1: ANALYSIS & PLANNING\n1. Explore the codebase: use list_files and search_code to understand structure.\n2. Read relevant files to understand the current implementation.\n3. Produce a structured plan.\n\nPHASE 2: EXECUTION & VERIFICATION\n1. Execute one step at a time using the appropriate tools.\n2. After EVERY write_file, run test_verify to ensure correctness.\n3. On failure: analyze the error, identify the root cause, propose a fix.\nNEVER attempt the same failing approach twice.\n4. Do NOT use bash_exec to run tests \u{2014} always use test_verify.\n\nPHASE 3: FINAL REVIEW\n1. Run the full test suite with test_verify.\n2. Summarize all changes made.\n3. Do NOT call any more tools after the summary.\n\nCurrent objective: ",
    );
    p.append(plan.current_objective.as_str());
    p.append("\nWorkspace: ");
    p.append(workspace);
    if plan.reflection_needed {
        p.append("\n\nREFLECTION REQUIRED \u{2014} Last error: ");
        match &plan.last_error {
            Some(e) => p.append(e.as_str()),
            None => p.append("Unknown"),
        }
        p.append(
            "\nAnalyze the error above. Identify the root cause. Propose a different approach. Do NOT repeat the same failing action.",
        );
    }
    p
}

} // verus!
