use localcode::plan::{
    localcode_verify_note, mentions_verification, note_for_plan_text, FunctionCallError, ModeKind,
    PlanHandler, PlanItemArg, PlanToolOutput, ResponseInputItem, StepStatus, ToolPayload,
    UpdatePlanArgs,
};

const NOTE: &str = "\n\nNOTE: you just marked a 3+ item plan fully done and none of the items was a verification step. Before you write your final summary, run the project's build/typecheck/tests (or a focused smoke check) to confirm the work actually runs, and re-read the user's original request: every requirement must be implemented for real — no stubs, placeholders or 'demo only' pieces. Reopen anything partial as a plan item. Do not claim it works without verifying.";

fn item(step: &str, status: StepStatus) -> PlanItemArg {
    PlanItemArg { step: step.to_string(), status }
}

fn done(steps: &[&str]) -> Vec<PlanItemArg> {
    steps.iter().map(|s| item(s, StepStatus::Completed)).collect()
}

#[test]
fn note_for_closed_plan_without_verification() {
    let plan = done(&["Write parser", "Add docs", "Refactor module"]);
    assert_eq!(localcode_verify_note(&plan), NOTE);
}

#[test]
fn no_note_for_short_plan() {
    let plan = done(&["Write parser", "Add docs"]);
    assert_eq!(localcode_verify_note(&plan), "");
}

#[test]
fn no_note_for_empty_plan() {
    assert_eq!(localcode_verify_note(&[]), "");
}

#[test]
fn no_note_while_an_item_is_open() {
    let mut plan = done(&["Write parser", "Add docs", "Refactor module"]);
    plan[1].status = StepStatus::InProgress;
    assert_eq!(localcode_verify_note(&plan), "");
    plan[1].status = StepStatus::Pending;
    assert_eq!(localcode_verify_note(&plan), "");
}

#[test]
fn no_note_when_a_step_verifies() {
    for step in [
        "Verify output",
        "Run the TESTS",
        "Build release",
        "Typecheck",
        "Smoke run",
        "Run the app",
        "Check results",
    ] {
        let plan = done(&["Write parser", "Add docs", step]);
        assert_eq!(localcode_verify_note(&plan), "", "step {step:?}");
    }
}

#[test]
fn steps_are_lowercased_before_matching() {
    // "TEST" only matches "test" once lowercased.
    let plan = done(&["Write parser", "Add docs", "TEST everything"]);
    assert_eq!(localcode_verify_note(&plan), "");
}

#[test]
fn keyword_may_span_two_steps() {
    // Steps are joined by one space: "run the" + "app" reads "run the app".
    let plan = done(&["Write parser", "run the", "app"]);
    assert_eq!(localcode_verify_note(&plan), "");
}

#[test]
fn mentions_verification_on_given_text() {
    assert!(mentions_verification("we checked it"));
    assert!(mentions_verification("verification"));
    assert!(!mentions_verification("write the parser"));
    assert!(!mentions_verification("run theapp"));
    assert!(!mentions_verification(""));
}

#[test]
fn note_from_given_lowered_text() {
    let plan = done(&["a", "b", "c"]);
    assert_eq!(note_for_plan_text(&plan, "a b c"), NOTE);
    assert_eq!(note_for_plan_text(&plan, "a smoke c"), "");
    let short = done(&["a", "b"]);
    assert_eq!(note_for_plan_text(&short, "a b"), "");
}

#[test]
fn log_output_appends_note() {
    let plain = PlanToolOutput::for_plan(&done(&["a", "b"]));
    assert_eq!(plain.log_output(), "Plan updated");
    let noted = PlanToolOutput::for_plan(&done(&["a", "b", "c"]));
    assert_eq!(noted.log_output(), format!("Plan updated{NOTE}"));
    assert!(noted.success_for_logging());
}

#[test]
fn response_item_carries_call_id_and_text() {
    let out = PlanToolOutput::for_plan(&done(&["a", "b"]));
    match out.to_response_item("call-7") {
        ResponseInputItem::FunctionCallOutput { call_id, output } => {
            assert_eq!(call_id, "call-7");
            assert_eq!(output.text, "Plan updated");
            assert_eq!(output.success, Some(true));
        }
    }
}

fn message(e: FunctionCallError) -> String {
    match e {
        FunctionCallError::RespondToModel(m) => m,
    }
}

#[test]
fn call_arguments_accepts_function_payload() {
    let h = PlanHandler;
    let payload = ToolPayload::Function { arguments: "{\"plan\":[]}".to_string() };
    assert_eq!(h.call_arguments(&payload, ModeKind::Other).unwrap(), "{\"plan\":[]}");
}

#[test]
fn call_arguments_refuses_other_payload() {
    let h = PlanHandler;
    let e = h.call_arguments(&ToolPayload::Other, ModeKind::Other).unwrap_err();
    assert_eq!(message(e), "update_plan handler received unsupported payload");
    // The payload is checked before the mode.
    let e = h.call_arguments(&ToolPayload::Other, ModeKind::Plan).unwrap_err();
    assert_eq!(message(e), "update_plan handler received unsupported payload");
}

#[test]
fn call_arguments_refuses_plan_mode() {
    let h = PlanHandler;
    let payload = ToolPayload::Function { arguments: "{}".to_string() };
    let e = h.call_arguments(&payload, ModeKind::Plan).unwrap_err();
    assert_eq!(message(e), "update_plan is a TODO/checklist tool and is not allowed in Plan mode");
}

#[test]
fn handle_call_reports_parse_error() {
    let h = PlanHandler;
    let e = h.handle_call(&Err("expected value at line 1 column 1".to_string())).err().unwrap();
    assert_eq!(message(e), "failed to parse function arguments: expected value at line 1 column 1");
}

#[test]
fn handle_call_computes_note() {
    let h = PlanHandler;
    let args = UpdatePlanArgs { explanation: None, plan: done(&["a", "b", "c"]) };
    let out = h.handle_call(&Ok(args)).ok().unwrap();
    assert_eq!(out.log_output(), format!("Plan updated{NOTE}"));
}

#[test]
fn handler_identity() {
    let h = PlanHandler;
    assert_eq!(h.tool_name(), "update_plan");
    assert!(h.is_builtin_control_tool());
}

#[test]
fn letter_case_of_steps_does_not_change_the_note() {
    let lower = done(&["write parser", "add docs", "refactor module"]);
    let mixed = done(&["Write PARSER", "Add Docs", "REFACTOR module"]);
    assert_eq!(localcode_verify_note(&lower), localcode_verify_note(&mixed));
    let lower = done(&["write parser", "add docs", "run tests"]);
    let mixed = done(&["Write PARSER", "Add Docs", "Run TESTS"]);
    assert_eq!(localcode_verify_note(&lower), localcode_verify_note(&mixed));
}
