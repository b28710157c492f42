//! The `update_plan` tool: argument checks, the reply text, and the reminder
//! appended when a plan of three or more items is closed without any step
//! that verifies the work.
use vstd::prelude::*;

use crate::text::{
    concat2, contains, contains_seq, join, join_strings, lemma_contains_through, lemma_join_holds_part,
    lowercase, to_lowercase, to_owned,
};

verus! {

/// The state of one plan step.
#[derive(Clone, Copy, Debug, PartialEq, Eq, Structural)]
pub enum StepStatus {
    Pending,
    InProgress,
    Completed,
}

/// One item of a plan: its text and its state.
#[derive(Debug)]
pub struct PlanItemArg {
    pub step: String,
    pub status: StepStatus,
}

/// The arguments of an `update_plan` call.
#[derive(Debug)]
pub struct UpdatePlanArgs {
    pub explanation: Option<String>,
    pub plan: Vec<PlanItemArg>,
}

/// What a tool call carries: function-style arguments, or anything else.
#[derive(Debug)]
pub enum ToolPayload {
    Function { arguments: String },
    Other,
}

/// The collaboration mode of the current turn.
#[derive(Clone, Copy, Debug, PartialEq, Eq, Structural)]
pub enum ModeKind {
    Plan,
    Other,
}

/// An error handed back to the model as the tool's answer.
#[derive(Debug)]
pub enum FunctionCallError {
    RespondToModel(String),
}

/// The payload of a function call's output.
#[derive(Debug)]
pub struct FunctionCallOutputPayload {
    pub text: String,
    pub success: Option<bool>,
}

/// An item answered back to the model.
#[derive(Debug)]
pub enum ResponseInputItem {
    FunctionCallOutput { call_id: String, output: FunctionCallOutputPayload },
}

/// The `update_plan` tool.
pub struct PlanHandler;

/// The output of one `update_plan` call.
pub struct PlanToolOutput {
    /// Appended to the reply when a plan of three or more items is closed with no verification step.
    note: String,
}

pub open spec fn plan_updated_text() -> Seq<char> {
    "Plan updated"@
}

pub open spec fn verify_note_text() -> Seq<char> {
    "\n\nNOTE: you just marked a 3+ item plan fully done and none of the items was a verification step. Before you write your final summary, run the project's build/typecheck/tests (or a focused smoke check) to confirm the work actually runs, and re-read the user's original request: every requirement must be implemented for real — no stubs, placeholders or 'demo only' pieces. Reopen anything partial as a plan item. Do not claim it works without verifying."@
}

/// The text names a step that verifies the work.
pub open spec fn mentions_verification_spec(text: Seq<char>) -> bool {
    ||| contains_seq(text, "verif"@)
    ||| contains_seq(text, "test"@)
    ||| contains_seq(text, "build"@)
    ||| contains_seq(text, "typecheck"@)
    ||| contains_seq(text, "smoke"@)
    ||| contains_seq(text, "run the app"@)
    ||| contains_seq(text, "check"@)
}

/// The plan has three or more items and every one of them is completed.
pub open spec fn closes_long_plan(plan: Seq<PlanItemArg>) -> bool {
    &&& plan.len() >= 3
    &&& forall|i: int| 0 <= i < plan.len() ==> plan[i].status == StepStatus::Completed
}

/// The lowercased steps of the plan, joined by single spaces.
pub open spec fn lowered_plan_text(plan: Seq<PlanItemArg>) -> Seq<char> {
    join(plan.map_values(|item: PlanItemArg| lowercase(item.step@)), " "@)
}

/// The reminder for a plan, given the lowercased text of its steps.
pub open spec fn note_for_text(plan: Seq<PlanItemArg>, text: Seq<char>) -> Seq<char> {
    if closes_long_plan(plan) && !mentions_verification_spec(text) {
        verify_note_text()
    } else {
        Seq::empty()
    }
}

/// The reminder appended after a plan update.
pub open spec fn verify_note(plan: Seq<PlanItemArg>) -> Seq<char> {
    note_for_text(plan, lowered_plan_text(plan))
}

/// The reminder is appended exactly when a plan of three or more items is
/// closed with every item completed and no step (lowercased) names
/// verification, a test, a build, a type check, a smoke check or running
/// the app; it is then the fixed note, and in every other case nothing.
pub proof fn lemma_note_only_for_unverified_closed_plans(plan: Seq<PlanItemArg>)
    ensures
        verify_note(plan) == verify_note_text() <==> closes_long_plan(plan)
            && !mentions_verification_spec(lowered_plan_text(plan)),
        verify_note(plan).len() == 0 <==> !(closes_long_plan(plan)
            && !mentions_verification_spec(lowered_plan_text(plan))),
{
    reveal_strlit(
        "\n\nNOTE: you just marked a 3+ item plan fully done and none of the items was a verification step. Before you write your final summary, run the project's build/typecheck/tests (or a focused smoke check) to confirm the work actually runs, and re-read the user's original request: every requirement must be implemented for real — no stubs, placeholders or 'demo only' pieces. Reopen anything partial as a plan item. Do not claim it works without verifying.",
    );
    assert(verify_note_text().len() > 0);
}

/// The reminder depends on the step texts only through their lowercase
/// forms: two plans of the same length, with the same states and steps
/// that lowercase alike, get the same reminder.
pub proof fn lemma_note_depends_on_lowercased_steps(plan: Seq<PlanItemArg>, other: Seq<PlanItemArg>)
    requires
        plan.len() == other.len(),
        forall|i: int|
            0 <= i < plan.len() ==> (#[trigger] plan[i]).status == other[i].status && lowercase(
                plan[i].step@,
            ) == lowercase(other[i].step@),
    ensures
        verify_note(plan) == verify_note(other),
{
    assert(plan.map_values(|item: PlanItemArg| lowercase(item.step@)) =~= other.map_values(
        |item: PlanItemArg| lowercase(item.step@),
    ));
    assert(closes_long_plan(plan) == closes_long_plan(other)) by {
        if closes_long_plan(plan) {
            assert forall|i: int| 0 <= i < other.len() implies other[i].status
                == StepStatus::Completed by {
                assert(plan[i].status == other[i].status);
            }
        }
        if closes_long_plan(other) {
            assert forall|i: int| 0 <= i < plan.len() implies plan[i].status
                == StepStatus::Completed by {
                assert(plan[i].status == other[i].status);
            }
        }
    }
}

/// Every step's lowercased text stands whole in the searched text.
pub proof fn lemma_lowered_text_holds_every_step(plan: Seq<PlanItemArg>, i: int) -> (o: int)
    requires
        0 <= i < plan.len(),
    ensures
        0 <= o,
        o + lowercase(plan[i].step@).len() <= lowered_plan_text(plan).len(),
        lowered_plan_text(plan).subrange(o, o + lowercase(plan[i].step@).len()) == lowercase(
            plan[i].step@,
        ),
        contains_seq(lowered_plan_text(plan), lowercase(plan[i].step@)),
{
    let parts = plan.map_values(|item: PlanItemArg| lowercase(item.step@));
    let o = lemma_join_holds_part(parts, " "@, i);
    let t = lowered_plan_text(plan);
    let p = lowercase(plan[i].step@);
    assert(t.subrange(o, o + p.len()) == p);
    assert(t.subrange(o, o + p.len()) == t.subrange(o, o + p.len()));
    o
}

/// Every step counts: when any one step, lowercased, names verification, a
/// test, a build, a type check, a smoke check, running the app or a check,
/// no reminder is appended, whatever the other steps say.
pub proof fn lemma_every_step_counts(plan: Seq<PlanItemArg>, i: int)
    requires
        0 <= i < plan.len(),
        mentions_verification_spec(lowercase(plan[i].step@)),
    ensures
        verify_note(plan).len() == 0,
{
    let o = lemma_lowered_text_holds_every_step(plan, i);
    let piece = lowercase(plan[i].step@);
    let text = lowered_plan_text(plan);
    if contains_seq(piece, "verif"@) {
        lemma_contains_through(piece, text, o, "verif"@);
    }
    if contains_seq(piece, "test"@) {
        lemma_contains_through(piece, text, o, "test"@);
    }
    if contains_seq(piece, "build"@) {
        lemma_contains_through(piece, text, o, "build"@);
    }
    if contains_seq(piece, "typecheck"@) {
        lemma_contains_through(piece, text, o, "typecheck"@);
    }
    if contains_seq(piece, "smoke"@) {
        lemma_contains_through(piece, text, o, "smoke"@);
    }
    if contains_seq(piece, "run the app"@) {
        lemma_contains_through(piece, text, o, "run the app"@);
    }
    if contains_seq(piece, "check"@) {
        lemma_contains_through(piece, text, o, "check"@);
    }
    assert(mentions_verification_spec(text));
}

/// Whether the (lowercased) text names a verification step.
pub fn mentions_verification(text: &str) -> (r: bool)
    ensures
        r == mentions_verification_spec(text@),
{
    contains(text, "verif") || contains(text, "test") || contains(text, "build") || contains(
        text,
        "typecheck",
    ) || contains(text, "smoke") || contains(text, "run the app") || contains(text, "check")
}

/// Whether the plan has three or more items, all completed.
pub fn plan_fully_done(plan: &[PlanItemArg]) -> (r: bool)
    ensures
        r == closes_long_plan(plan@),
{
    if plan.len() < 3 {
        return false;
    }
    let mut i: usize = 0;
    while i < plan.len()
        invariant
            i <= plan.len(),
            forall|j: int| 0 <= j < i ==> plan@[j].status == StepStatus::Completed,
        decreases plan.len() - i,
    {
        match plan[i].status {
            StepStatus::Completed => {},
            _ => {
                return false;
            },
        }
        i = i + 1;
    }
    true
}

/// The reminder for a plan whose steps, lowercased and joined by spaces, read `text`.
pub fn note_for_plan_text(plan: &[PlanItemArg], text: &str) -> (r: String)
    ensures
        r@ == note_for_text(plan@, text@),
{
    if !plan_fully_done(plan) {
        return String::new();
    }
    if mentions_verification(text) {
        String::new()
    } else {
        to_owned(
            "\n\nNOTE: you just marked a 3+ item plan fully done and none of the items was a verification step. Before you write your final summary, run the project's build/typecheck/tests (or a focused smoke check) to confirm the work actually runs, and re-read the user's original request: every requirement must be implemented for real — no stubs, placeholders or 'demo only' pieces. Reopen anything partial as a plan item. Do not claim it works without verifying.",
        )
    }
}

/// The lowercased steps of the plan joined by single spaces.
pub fn lowered_steps_text(plan: &[PlanItemArg]) -> (r: String)
    ensures
        r@ == lowered_plan_text(plan@),
{
    let mut parts: Vec<String> = Vec::new();
    let mut i: usize = 0;
    while i < plan.len()
        invariant
            i <= plan.len(),
            parts@.len() == i,
            forall|j: int|
                0 <= j < i ==> #[trigger] parts@[j]@ == lowercase(plan@[j].step@),
        decreases plan.len() - i,
    {
        parts.push(to_lowercase(plan[i].step.as_str()));
        i = i + 1;
    }
    let r = join_strings(&parts, " ");
    assert(parts@.map_values(|p: String| p@) =~= plan@.map_values(
        |item: PlanItemArg| lowercase(item.step@),
    ));
    r
}

/// The reminder to append after a plan update: the fixed note when the plan
/// has three or more items, all completed, and no step text (lowercased)
/// names verification, building, testing or checking; empty otherwise.
pub fn localcode_verify_note(plan: &[PlanItemArg]) -> (r: String)
    ensures
        r@ == verify_note(plan@),
{
    if !plan_fully_done(plan) {
        return String::new();
    }
    let text = lowered_steps_text(plan);
    note_for_plan_text(plan, text.as_str())
}

impl PlanToolOutput {
    pub closed spec fn note_view(&self) -> Seq<char> {
        self.note@
    }

    /// The output of a plan update whose plan is `plan`.
    pub fn for_plan(plan: &[PlanItemArg]) -> (r: PlanToolOutput)
        ensures
            r.note_view() == verify_note(plan@),
    {
        PlanToolOutput { note: localcode_verify_note(plan) }
    }

    /// The text logged for the call: "Plan updated" followed by the note.
    pub fn log_output(&self) -> (r: String)
        ensures
            r@ == plan_updated_text() + self.note_view(),
    {
        concat2("Plan updated", self.note.as_str())
    }

    /// A plan update is always logged as a success.
    pub fn success_for_logging(&self) -> (r: bool)
        ensures
            r,
    {
        true
    }

    /// The answer handed back to the model for call `call_id`.
    pub fn to_response_item(&self, call_id: &str) -> (r: ResponseInputItem)
        ensures
            r matches ResponseInputItem::FunctionCallOutput { call_id: id, output } && id@
                == call_id@ && output.text@ == plan_updated_text() + self.note_view()
                && output.success == Some(true),
    {
        let text = self.log_output();
        ResponseInputItem::FunctionCallOutput {
            call_id: to_owned(call_id),
            output: FunctionCallOutputPayload { text, success: Some(true) },
        }
    }
}

pub open spec fn unsupported_payload_text() -> Seq<char> {
    "update_plan handler received unsupported payload"@
}

pub open spec fn plan_mode_text() -> Seq<char> {
    "update_plan is a TODO/checklist tool and is not allowed in Plan mode"@
}

pub open spec fn parse_failure_text(e: Seq<char>) -> Seq<char> {
    "failed to parse function arguments: "@ + e
}

impl PlanHandler {
    /// The name under which the tool is offered.
    pub fn tool_name(&self) -> (r: String)
        ensures
            r@ == "update_plan"@,
    {
        to_owned("update_plan")
    }

    /// The tool is one of the built-in control tools.
    pub fn is_builtin_control_tool(&self) -> (r: bool)
        ensures
            r,
    {
        true
    }

    /// The checks made before the arguments are parsed: the payload must be a
    /// function call, and the turn must not be in Plan mode. Returns the raw
    /// arguments when both hold.
    pub fn call_arguments(&self, payload: &ToolPayload, mode: ModeKind) -> (r: Result<
        String,
        FunctionCallError,
    >)
        ensures
            match payload {
                ToolPayload::Function { arguments } => if mode == ModeKind::Plan {
                    r matches Err(FunctionCallError::RespondToModel(m)) && m@ == plan_mode_text()
                } else {
                    r matches Ok(a) && a@ == arguments@
                },
                ToolPayload::Other => r matches Err(FunctionCallError::RespondToModel(m)) && m@
                    == unsupported_payload_text(),
            },
    {
        match payload {
            ToolPayload::Function { arguments } => {
                match mode {
                    ModeKind::Plan => Err(
                        FunctionCallError::RespondToModel(
                            to_owned(
                                "update_plan is a TODO/checklist tool and is not allowed in Plan mode",
                            ),
                        ),
                    ),
                    ModeKind::Other => Ok(to_owned(arguments.as_str())),
                }
            },
            ToolPayload::Other => Err(
                FunctionCallError::RespondToModel(
                    to_owned("update_plan handler received unsupported payload"),
                ),
            ),
        }
    }

    /// The outcome of a call once its arguments were parsed: a parse error
    /// (with the parser's message) is answered to the model; parsed
    /// arguments give the tool output, whose note is computed from the plan.
    pub fn handle_call(&self, parsed: &Result<UpdatePlanArgs, String>) -> (r: Result<
        PlanToolOutput,
        FunctionCallError,
    >)
        ensures
            match parsed {
                Ok(args) => r matches Ok(out) && out.note_view() == verify_note(args.plan@),
                Err(e) => r matches Err(FunctionCallError::RespondToModel(m)) && m@
                    == parse_failure_text(e@),
            },
    {
        match parsed {
            Ok(args) => Ok(PlanToolOutput::for_plan(args.plan.as_slice())),
            Err(e) => Err(
                FunctionCallError::RespondToModel(
                    concat2("failed to parse function arguments: ", e.as_str()),
                ),
            ),
        }
    }
}

} // verus!
