use metis_agent::action::{ActionError, Direction, InputOp};
use metis_agent::task_loop::{
    build_prompt, combine_context, split_response, ExecutionLoopState, LoopAction, LoopError,
    PlannerReply, MAX_ITERATIONS, SETTLE_DELAY_MS,
};

fn fresh() -> ExecutionLoopState {
    ExecutionLoopState::new("log in".to_string(), "base".to_string(), String::new())
}

#[test]
fn interrupted_iteration_ends_at_once() {
    let state = fresh();
    assert_eq!(state.begin_iteration(true), LoopAction::Finish(Err(LoopError::Interrupted)));
    assert_eq!(state.begin_iteration(false), LoopAction::DescribeScreen);
}

#[test]
fn capture_and_planner_failures_end_the_loop() {
    let mut state = fresh();
    assert_eq!(
        state.on_screen(Err("no monitor".to_string())),
        LoopAction::Finish(Err(LoopError::Capture("no monitor".to_string())))
    );
    assert_eq!(
        state.on_reply(Err("timeout".to_string())),
        LoopAction::Finish(Err(LoopError::Planner("timeout".to_string())))
    );
    assert_eq!(state.history_log, "");
    assert_eq!(
        state.on_performed(Err("device gone".to_string())),
        LoopAction::Finish(Err(LoopError::Input("device gone".to_string())))
    );
    assert_eq!(state.iteration, 0);
}

#[test]
fn reply_is_split_parsed_and_logged() {
    let mut state = fresh();
    let action = state.on_reply(Ok("<think>press it</think>click:(125,265)".to_string()));
    assert_eq!(
        action,
        LoopAction::Perform(vec![InputOp::MoveTo(125, 265), InputOp::Button(Direction::Click)])
    );
    assert_eq!(state.history_log, "<think>press it</think>click:(125,265)");
    let done = state.on_reply(Ok("<think>all good</think>done:'Login successful.'".to_string()));
    assert_eq!(done, LoopAction::Finish(Ok("Login successful.".to_string())));
    assert_eq!(
        state.history_log,
        "<think>press it</think>click:(125,265)<think>all good</think>done:'Login successful.'"
    );
}

#[test]
fn malformed_replies_end_the_loop_with_their_error() {
    let mut state = fresh();
    assert_eq!(
        state.on_reply(Ok("<think>hm</think>tap_down:'ab'".to_string())),
        LoopAction::Finish(Err(LoopError::Action(ActionError::UnknownKey)))
    );
    assert_eq!(
        state.on_reply(Ok("<think>hm</think>   ".to_string())),
        LoopAction::Finish(Err(LoopError::NoAction))
    );
    assert_eq!(
        state.on_reply(Ok("  \n ".to_string())),
        LoopAction::Finish(Err(LoopError::EmptyResponse))
    );
    assert_eq!(
        state.on_reply(Ok("fly:(1,2)".to_string())),
        LoopAction::Finish(Err(LoopError::Action(ActionError::UnknownTag)))
    );
}

#[test]
fn response_without_delimiter_is_all_action() {
    assert_eq!(
        split_response("  scroll:-5 \n"),
        Ok(PlannerReply { thought: String::new(), action: "scroll:-5".to_string() })
    );
    assert_eq!(
        split_response("<think> look </think> type:'a' "),
        Ok(PlannerReply { thought: "look".to_string(), action: "type:'a'".to_string() })
    );
    assert_eq!(
        split_response("oops</think>done:'x'"),
        Ok(PlannerReply { thought: String::new(), action: "done:'x'".to_string() })
    );
    assert_eq!(
        split_response("</think>a:b</think>c"),
        Ok(PlannerReply { thought: String::new(), action: "a:b</think>c".to_string() })
    );
    assert_eq!(split_response("<think>x</think>"), Err(LoopError::NoAction));
    assert_eq!(split_response(""), Err(LoopError::EmptyResponse));
}

#[test]
fn hundredth_action_triggers_the_safety_break() {
    let mut state = fresh();
    for done in 1..MAX_ITERATIONS {
        assert_eq!(state.on_performed(Ok(())), LoopAction::Settle(SETTLE_DELAY_MS));
        assert_eq!(state.iteration, done);
    }
    assert_eq!(state.iteration, 99);
    assert_eq!(state.on_performed(Ok(())), LoopAction::Finish(Err(LoopError::SafetyBreak)));
    assert_eq!(state.iteration, 100);
    assert_eq!(SETTLE_DELAY_MS, 500);
    assert_eq!(MAX_ITERATIONS, 100);
}

#[test]
fn counter_does_not_wrap() {
    let mut state = fresh();
    state.iteration = u32::MAX;
    assert_eq!(state.on_performed(Ok(())), LoopAction::Finish(Err(LoopError::SafetyBreak)));
    assert_eq!(state.iteration, u32::MAX);
}

#[test]
fn context_names_screen_and_history() {
    assert_eq!(
        combine_context("id,class\n1,Button", ""),
        "--- Current Screen State ---\nid,class\n1,Button\n\n--- No Relevant Historical Actions Found ---\n"
    );
    assert_eq!(
        combine_context("S", "H"),
        "--- Current Screen State ---\nS\n\n--- Relevant Historical Actions ---\nH"
    );
}

#[test]
fn prompt_holds_instruction_transcript_and_context() {
    let prompt = build_prompt("log in", "click:(1,2)", "CONTEXT");
    assert!(prompt.starts_with("The command given to you was: log in\n\nPrevious actions: click:(1,2)\n\n"));
    assert!(prompt.contains("\n\nCONTEXT\n\nBased on this information"));
    assert!(prompt.contains("* `done:'completion message'`"));
    assert!(prompt.ends_with("Your Response:"));
    let state = ExecutionLoopState::new("log in".to_string(), "base".to_string(), "H".to_string());
    assert_eq!(
        state.on_screen(Ok("S".to_string())),
        LoopAction::AskPlanner(build_prompt("log in", "", &combine_context("S", "H")))
    );
}

#[test]
fn every_ending_has_its_own_words() {
    assert_eq!(LoopError::Interrupted.message(), "Action interrupted by user.");
    assert_eq!(LoopError::SafetyBreak.message(), "Loop safety break triggered.");
    assert_eq!(LoopError::NoAction.message(), "The planner returned thought but no action.");
    assert_eq!(LoopError::EmptyResponse.message(), "The planner returned an empty response.");
    assert_eq!(
        LoopError::Capture("no monitor".to_string()).message(),
        "Failed to get current screen CSV: no monitor"
    );
    assert_eq!(
        LoopError::Planner("timeout".to_string()).message(),
        "Error getting planner response: timeout"
    );
    assert_eq!(
        LoopError::Input("device gone".to_string()).message(),
        "Error executing action: device gone"
    );
    assert_eq!(
        LoopError::Action(ActionError::UnknownKey).message(),
        "Error executing action: Unknown or unsupported key"
    );
    assert_eq!(ActionError::PatternRejected.message(), "The coordinate pattern was rejected");
    assert_eq!(ActionError::InvalidNumber.message(), "A coordinate is not a 32-bit integer");
}
