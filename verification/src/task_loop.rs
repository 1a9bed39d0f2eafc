//! The decisions of the action loop. The loop itself waits on the screen, on
//! the planner and on the input devices; after each of these it asks here
//! what to do next.

use crate::action::{
    do_action, ops_view, step_of, ActionError, ActionStep, InputOp, InputOpModel, StepModel,
};
use crate::text::{chars_of, find, find_first, slice_of, string_of, trim, trimmed};
use vstd::prelude::*;
use vstd::string::StringExecFns;

verus! {

/// The number of actions after which the loop is broken off.
pub const MAX_ITERATIONS: u32 = 100;

/// How long the screen is left to settle after an action, in milliseconds.
pub const SETTLE_DELAY_MS: u64 = 500;

/// Why the loop ended without a completion message.
#[derive(Clone, Debug, PartialEq, Eq)]
pub enum LoopError {
    /// The operator asked to stop.
    Interrupted,
    /// The screen could not be described.
    Capture(String),
    /// The planner could not be reached or refused.
    Planner(String),
    /// The planner's response ends with its thought.
    NoAction,
    /// The planner's response is empty.
    EmptyResponse,
    /// The action line was not understood.
    Action(ActionError),
    /// An input operation failed.
    Input(String),
    /// The ceiling on the number of actions was reached.
    SafetyBreak,
}

/// The mathematical value of a [`LoopError`].
pub ghost enum LoopErrorModel {
    Interrupted,
    Capture(Seq<char>),
    Planner(Seq<char>),
    NoAction,
    EmptyResponse,
    Action(ActionError),
    Input(Seq<char>),
    SafetyBreak,
}

impl View for LoopError {
    type V = LoopErrorModel;

    open spec fn view(&self) -> LoopErrorModel {
        match *self {
            LoopError::Interrupted => LoopErrorModel::Interrupted,
            LoopError::Capture(e) => LoopErrorModel::Capture(e@),
            LoopError::Planner(e) => LoopErrorModel::Planner(e@),
            LoopError::NoAction => LoopErrorModel::NoAction,
            LoopError::EmptyResponse => LoopErrorModel::EmptyResponse,
            LoopError::Action(e) => LoopErrorModel::Action(e),
            LoopError::Input(e) => LoopErrorModel::Input(e@),
            LoopError::SafetyBreak => LoopErrorModel::SafetyBreak,
        }
    }
}

impl LoopErrorModel {
    /// What the error says to the operator. Each kind of ending has words
    /// of its own.
    pub open spec fn message_text(self) -> Seq<char> {
        match self {
            LoopErrorModel::Interrupted => "Action interrupted by user."@,
            LoopErrorModel::Capture(e) => "Failed to get current screen CSV: "@ + e,
            LoopErrorModel::Planner(e) => "Error getting planner response: "@ + e,
            LoopErrorModel::NoAction => "The planner returned thought but no action."@,
            LoopErrorModel::EmptyResponse => "The planner returned an empty response."@,
            LoopErrorModel::Action(e) => "Error executing action: "@ + e.message_text(),
            LoopErrorModel::Input(e) => "Error executing action: "@ + e,
            LoopErrorModel::SafetyBreak => "Loop safety break triggered."@,
        }
    }
}

impl LoopError {
    /// What the error says to the operator.
    pub fn message(&self) -> (r: String)
        ensures
            r@ == self@.message_text(),
    {
        match self {
            LoopError::Interrupted => "Action interrupted by user.".to_owned(),
            LoopError::Capture(e) => {
                let mut s = "Failed to get current screen CSV: ".to_owned();
                s.append(e.as_str());
                s
            },
            LoopError::Planner(e) => {
                let mut s = "Error getting planner response: ".to_owned();
                s.append(e.as_str());
                s
            },
            LoopError::NoAction => "The planner returned thought but no action.".to_owned(),
            LoopError::EmptyResponse => "The planner returned an empty response.".to_owned(),
            LoopError::Action(e) => {
                let mut s = "Error executing action: ".to_owned();
                s.append(e.message().as_str());
                s
            },
            LoopError::Input(e) => {
                let mut s = "Error executing action: ".to_owned();
                s.append(e.as_str());
                s
            },
            LoopError::SafetyBreak => "Loop safety break triggered.".to_owned(),
        }
    }
}

/// What the loop does next.
#[derive(Debug, PartialEq, Eq)]
pub enum LoopAction {
    /// Capture the screen and have it described.
    DescribeScreen,
    /// Send this prompt to the planner.
    AskPlanner(String),
    /// Issue these input operations, in order.
    Perform(Vec<InputOp>),
    /// Wait this many milliseconds, then begin the next iteration.
    Settle(u64),
    /// Return: the completion message, or why there is none.
    Finish(Result<String, LoopError>),
}

/// The mathematical value of a [`LoopAction`].
pub ghost enum LoopActionModel {
    DescribeScreen,
    AskPlanner(Seq<char>),
    Perform(Seq<InputOpModel>),
    Settle(u64),
    Finish(Result<Seq<char>, LoopErrorModel>),
}

impl View for LoopAction {
    type V = LoopActionModel;

    open spec fn view(&self) -> LoopActionModel {
        match *self {
            LoopAction::DescribeScreen => LoopActionModel::DescribeScreen,
            LoopAction::AskPlanner(p) => LoopActionModel::AskPlanner(p@),
            LoopAction::Perform(ops) => LoopActionModel::Perform(ops_view(ops@)),
            LoopAction::Settle(ms) => LoopActionModel::Settle(ms),
            LoopAction::Finish(Ok(m)) => LoopActionModel::Finish(Ok(m@)),
            LoopAction::Finish(Err(e)) => LoopActionModel::Finish(Err(e@)),
        }
    }
}

impl LoopActionModel {
    /// The input operations that an action issues: those of `Perform`, and
    /// none for every other action.
    pub open spec fn issued_ops(self) -> Seq<InputOpModel> {
        match self {
            LoopActionModel::Perform(ops) => ops,
            _ => Seq::empty(),
        }
    }
}

/// The token that closes the planner's thought.
pub open spec fn close_tag() -> Seq<char> {
    "</think>"@
}

/// The token that opens the planner's thought.
pub open spec fn open_tag() -> Seq<char> {
    "<think>"@
}

/// The action line of a response: what follows the first closing token,
/// trimmed; without such a token, the whole response, trimmed. An empty
/// action line is an error.
pub open spec fn action_text(response: Seq<char>) -> Result<Seq<char>, LoopErrorModel> {
    match find_first(response, close_tag()) {
        Some(k) => {
            let line = trimmed(response.subrange(k + close_tag().len(), response.len() as int));
            if line.len() == 0 {
                Err(LoopErrorModel::NoAction)
            } else {
                Ok(line)
            }
        },
        None => {
            let line = trimmed(response);
            if line.len() == 0 {
                Err(LoopErrorModel::EmptyResponse)
            } else {
                Ok(line)
            }
        },
    }
}

/// The thought of a response: what stands between the first opening token
/// and the first closing token, trimmed; empty when either is missing or
/// they come in the wrong order.
pub open spec fn thought_text(response: Seq<char>) -> Seq<char> {
    match (find_first(response, open_tag()), find_first(response, close_tag())) {
        (Some(j), Some(k)) => if j + open_tag().len() <= k {
            trimmed(response.subrange(j + open_tag().len(), k))
        } else {
            Seq::empty()
        },
        _ => Seq::empty(),
    }
}

/// A planner response, split.
#[derive(Clone, Debug, PartialEq, Eq)]
pub struct PlannerReply {
    pub thought: String,
    pub action: String,
}

/// Splits a planner response into thought and action line.
pub fn split_response(response: &str) -> (r: Result<PlannerReply, LoopError>)
    ensures
        match r {
            Ok(reply) => action_text(response@) == Ok::<Seq<char>, LoopErrorModel>(reply.action@)
                && reply.thought@ == thought_text(response@),
            Err(e) => action_text(response@) == Err::<Seq<char>, LoopErrorModel>(e@),
        },
{
    let text = chars_of(response);
    let close = chars_of("</think>");
    let open = chars_of("<think>");
    proof {
        crate::text::lemma_find_from(text@, close@, 0);
        crate::text::lemma_find_from(text@, open@, 0);
    }
    match find(&text, &close) {
        Some(k) => {
            let line = trim(&slice_of(&text, k + close.len(), text.len()));
            if line.len() == 0 {
                return Err(LoopError::NoAction);
            }
            let thought = match find(&text, &open) {
                Some(j) => if j <= k && open.len() <= k - j {
                    let inner = trim(&slice_of(&text, j + open.len(), k));
                    let s = string_of(&inner, 0, inner.len());
                    assert(s@ =~= inner@);
                    s
                } else {
                    String::new()
                },
                None => String::new(),
            };
            let action = string_of(&line, 0, line.len());
            assert(action@ =~= line@);
            Ok(PlannerReply { thought, action })
        },
        None => {
            let line = trim(&text);
            if line.len() == 0 {
                return Err(LoopError::EmptyResponse);
            }
            let action = string_of(&line, 0, line.len());
            assert(action@ =~= line@);
            Ok(PlannerReply { thought: String::new(), action })
        },
    }
}

/// The description of the screen followed by the history that goes with the
/// instruction, each under its heading.
pub open spec fn combined_context(screen: Seq<char>, history: Seq<char>) -> Seq<char> {
    "--- Current Screen State ---\n"@ + screen + "\n\n"@ + if history.len() > 0 {
        "--- Relevant Historical Actions ---\n"@ + history
    } else {
        "--- No Relevant Historical Actions Found ---\n"@
    }
}

/// The rules of the action language, as the planner is told them.
pub open spec fn prompt_rules() -> Seq<char> {
    "Based on this information, perform the following steps:\n"@
        + "1. First, explain your reasoning and the intended action in one to three sentences, enclosed within <think></think> tags. Refer to element details (id, class, content or coordinates) from the screen state.\n"@
        + "2. Immediately after the closing </think> tag, give the single next action command in the exact format below.\n\n"@
        + "Valid action commands and their value formats:\n"@
        + "* `click:(x,y)` - Click at the absolute pixel coordinates (x, y), for instance the centre of an element's bounding box.\n"@
        + "* `click_down:(x,y)` - Press and hold the left mouse button at (x, y).\n"@
        + "* `click_up:nil` - Release the held left mouse button. The value must be exactly `nil`.\n"@
        + "* `drag:(x,y)` - Move the mouse to (x, y) while the button is held down (use after `click_down`).\n"@
        + "* `tap:'key'` - Press and release a key. The key name or character is enclosed in single quotes: 'a', '1', 'Enter', 'Shift', 'Control', 'Alt', 'Escape', 'Backspace', 'Tab', 'Space', 'F5'.\n"@
        + "* `tap_down:'key'` - Press and hold a named key such as 'Shift', 'Control' or 'Alt'.\n"@
        + "* `tap_up:'key'` - Release a held named key.\n"@
        + "* `scroll:amount` - Scroll vertically by the integer `amount`. Positive values scroll down, negative values scroll up.\n"@
        + "* `type:'text to type'` - Type the characters between the single quotes exactly.\n"@
        + "* `done:'completion message'` - Stop and report the outcome.\n\n"@
        + "Your Response:"@
}

/// The prompt for the planner: the instruction, the transcript of its
/// earlier responses, the context, and the rules of the action language.
pub open spec fn prompt_text(instruction: Seq<char>, transcript: Seq<char>, context: Seq<char>) -> Seq<
    char,
> {
    "The command given to you was: "@ + instruction + "\n\nPrevious actions: "@ + transcript
        + "\n\nBelow is the current screen state (as CSV data) and, where there is any, relevant historical actions:\n\n"@
        + context + "\n\n"@ + prompt_rules()
}

fn rules_text() -> (s: String)
    ensures
        s@ == prompt_rules(),
{
    let mut s = String::new();
    s.append("Based on this information, perform the following steps:\n");
    s.append(
        "1. First, explain your reasoning and the intended action in one to three sentences, enclosed within <think></think> tags. Refer to element details (id, class, content or coordinates) from the screen state.\n",
    );
    s.append(
        "2. Immediately after the closing </think> tag, give the single next action command in the exact format below.\n\n",
    );
    s.append("Valid action commands and their value formats:\n");
    s.append(
        "* `click:(x,y)` - Click at the absolute pixel coordinates (x, y), for instance the centre of an element's bounding box.\n",
    );
    s.append("* `click_down:(x,y)` - Press and hold the left mouse button at (x, y).\n");
    s.append(
        "* `click_up:nil` - Release the held left mouse button. The value must be exactly `nil`.\n",
    );
    s.append(
        "* `drag:(x,y)` - Move the mouse to (x, y) while the button is held down (use after `click_down`).\n",
    );
    s.append(
        "* `tap:'key'` - Press and release a key. The key name or character is enclosed in single quotes: 'a', '1', 'Enter', 'Shift', 'Control', 'Alt', 'Escape', 'Backspace', 'Tab', 'Space', 'F5'.\n",
    );
    s.append("* `tap_down:'key'` - Press and hold a named key such as 'Shift', 'Control' or 'Alt'.\n");
    s.append("* `tap_up:'key'` - Release a held named key.\n");
    s.append(
        "* `scroll:amount` - Scroll vertically by the integer `amount`. Positive values scroll down, negative values scroll up.\n",
    );
    s.append("* `type:'text to type'` - Type the characters between the single quotes exactly.\n");
    s.append("* `done:'completion message'` - Stop and report the outcome.\n\n");
    s.append("Your Response:");
    assert(s@ =~= prompt_rules());
    s
}

/// Lays the screen description and the history out under their headings.
pub fn combine_context(screen: &str, history: &str) -> (s: String)
    ensures
        s@ == combined_context(screen@, history@),
{
    let mut s = String::new();
    s.append("--- Current Screen State ---\n");
    s.append(screen);
    s.append("\n\n");
    if !history.is_empty() {
        s.append("--- Relevant Historical Actions ---\n");
        s.append(history);
    } else {
        s.append("--- No Relevant Historical Actions Found ---\n");
    }
    assert(s@ =~= combined_context(screen@, history@));
    s
}

/// Assembles the prompt for the planner.
pub fn build_prompt(instruction: &str, transcript: &str, context: &str) -> (s: String)
    ensures
        s@ == prompt_text(instruction@, transcript@, context@),
{
    let mut s = String::new();
    s.append("The command given to you was: ");
    s.append(instruction);
    s.append("\n\nPrevious actions: ");
    s.append(transcript);
    s.append(
        "\n\nBelow is the current screen state (as CSV data) and, where there is any, relevant historical actions:\n\n",
    );
    s.append(context);
    s.append("\n\n");
    let rules = rules_text();
    s.append(rules.as_str());
    assert(s@ =~= prompt_text(instruction@, transcript@, context@));
    s
}

/// The state that one run of the loop owns.
pub struct ExecutionLoopState {
    pub instruction: String,
    pub history_log: String,
    pub iteration: u32,
    pub base_folder: String,
    pub historical_context: String,
}

/// The mathematical value of an [`ExecutionLoopState`].
pub ghost struct LoopModel {
    pub instruction: Seq<char>,
    pub history_log: Seq<char>,
    pub iteration: u32,
    pub base_folder: Seq<char>,
    pub historical_context: Seq<char>,
}

impl View for ExecutionLoopState {
    type V = LoopModel;

    open spec fn view(&self) -> LoopModel {
        LoopModel {
            instruction: self.instruction@,
            history_log: self.history_log@,
            iteration: self.iteration,
            base_folder: self.base_folder@,
            historical_context: self.historical_context@,
        }
    }
}

/// What a result with a text on either side stands for.
pub open spec fn text_result(r: Result<String, String>) -> Result<Seq<char>, Seq<char>> {
    match r {
        Ok(t) => Ok(t@),
        Err(e) => Err(e@),
    }
}

/// What the outcome of issuing input operations stands for.
pub open spec fn input_result(r: Result<(), String>) -> Result<(), Seq<char>> {
    match r {
        Ok(_) => Ok(()),
        Err(e) => Err(e@),
    }
}

impl LoopModel {
    /// The first decision of an iteration: a set flag ends the loop before
    /// anything is done; otherwise the screen is described.
    pub open spec fn begun(interrupted: bool) -> LoopActionModel {
        if interrupted {
            LoopActionModel::Finish(Err(LoopErrorModel::Interrupted))
        } else {
            LoopActionModel::DescribeScreen
        }
    }

    /// With the screen described, the planner is asked; a failed capture
    /// ends the loop.
    pub open spec fn screen_seen(self, screen: Result<Seq<char>, Seq<char>>) -> LoopActionModel {
        match screen {
            Ok(description) => LoopActionModel::AskPlanner(
                prompt_text(
                    self.instruction,
                    self.history_log,
                    combined_context(description, self.historical_context),
                ),
            ),
            Err(e) => LoopActionModel::Finish(Err(LoopErrorModel::Capture(e))),
        }
    }

    /// The decision that a planner response leads to, whatever the state.
    pub open spec fn reply_action(reply: Result<Seq<char>, Seq<char>>) -> LoopActionModel {
        match reply {
            Err(e) => LoopActionModel::Finish(Err(LoopErrorModel::Planner(e))),
            Ok(response) => match action_text(response) {
                Err(e) => LoopActionModel::Finish(Err(e)),
                Ok(line) => match step_of(line) {
                    Err(e) => LoopActionModel::Finish(Err(LoopErrorModel::Action(e))),
                    Ok(StepModel::Finish(message)) => LoopActionModel::Finish(Ok(message)),
                    Ok(StepModel::Perform(ops)) => LoopActionModel::Perform(ops),
                },
            },
        }
    }

    /// The state after a planner response: the response joins the
    /// transcript; a failure leaves the state as it is.
    pub open spec fn replied(self, reply: Result<Seq<char>, Seq<char>>) -> LoopModel {
        match reply {
            Ok(response) => LoopModel { history_log: self.history_log + response, ..self },
            Err(_) => self,
        }
    }

    /// The iteration counter after one more action.
    pub open spec fn next_iteration(self) -> u32 {
        if self.iteration < u32::MAX {
            (self.iteration + 1) as u32
        } else {
            self.iteration
        }
    }

    /// The state after the input operations were issued: a success counts
    /// as one more action.
    pub open spec fn performed(self, outcome: Result<(), Seq<char>>) -> LoopModel {
        match outcome {
            Ok(_) => LoopModel { iteration: self.next_iteration(), ..self },
            Err(_) => self,
        }
    }

    /// The decision after the input operations were issued: a failure ends
    /// the loop, and so does the action that reaches the ceiling; otherwise
    /// the screen is left to settle.
    pub open spec fn performed_action(self, outcome: Result<(), Seq<char>>) -> LoopActionModel {
        match outcome {
            Err(e) => LoopActionModel::Finish(Err(LoopErrorModel::Input(e))),
            Ok(_) => if self.next_iteration() >= MAX_ITERATIONS {
                LoopActionModel::Finish(Err(LoopErrorModel::SafetyBreak))
            } else {
                LoopActionModel::Settle(SETTLE_DELAY_MS)
            },
        }
    }

    /// The state after `n` more actions were carried out.
    pub open spec fn after_actions(self, n: nat) -> LoopModel
        decreases n,
    {
        if n == 0 {
            self
        } else {
            self.after_actions((n - 1) as nat).performed(Ok(()))
        }
    }
}

impl ExecutionLoopState {
    /// The state of a loop about to run `instruction`.
    pub fn new(instruction: String, base_folder: String, historical_context: String) -> (r: Self)
        ensures
            r@ == (LoopModel {
                instruction: instruction@,
                history_log: Seq::empty(),
                iteration: 0,
                base_folder: base_folder@,
                historical_context: historical_context@,
            }),
    {
        ExecutionLoopState {
            instruction,
            history_log: String::new(),
            iteration: 0,
            base_folder,
            historical_context,
        }
    }

    /// Begins an iteration, given the interruption flag as it stands.
    pub fn begin_iteration(&self, interrupted: bool) -> (r: LoopAction)
        ensures
            r@ == LoopModel::begun(interrupted),
    {
        if interrupted {
            LoopAction::Finish(Err(LoopError::Interrupted))
        } else {
            LoopAction::DescribeScreen
        }
    }

    /// Takes the description of the screen, or the failure to get one.
    pub fn on_screen(&self, screen: Result<String, String>) -> (r: LoopAction)
        ensures
            r@ == self@.screen_seen(text_result(screen)),
    {
        match screen {
            Ok(description) => {
                let context = combine_context(
                    description.as_str(),
                    self.historical_context.as_str(),
                );
                LoopAction::AskPlanner(
                    build_prompt(
                        self.instruction.as_str(),
                        self.history_log.as_str(),
                        context.as_str(),
                    ),
                )
            },
            Err(e) => LoopAction::Finish(Err(LoopError::Capture(e))),
        }
    }

    /// Takes the planner's response, or the failure to get one.
    pub fn on_reply(&mut self, reply: Result<String, String>) -> (r: LoopAction)
        ensures
            final(self)@ == old(self)@.replied(text_result(reply)),
            r@ == LoopModel::reply_action(text_result(reply)),
    {
        match reply {
            Err(e) => LoopAction::Finish(Err(LoopError::Planner(e))),
            Ok(response) => {
                self.history_log.append(response.as_str());
                match split_response(response.as_str()) {
                    Err(e) => LoopAction::Finish(Err(e)),
                    Ok(parts) => match do_action(parts.action.as_str()) {
                        Err(e) => LoopAction::Finish(Err(LoopError::Action(e))),
                        Ok(ActionStep::Finish(message)) => LoopAction::Finish(Ok(message)),
                        Ok(ActionStep::Perform(ops)) => LoopAction::Perform(ops),
                    },
                }
            },
        }
    }

    /// Takes the outcome of the input operations.
    pub fn on_performed(&mut self, outcome: Result<(), String>) -> (r: LoopAction)
        ensures
            final(self)@ == old(self)@.performed(input_result(outcome)),
            r@ == old(self)@.performed_action(input_result(outcome)),
    {
        match outcome {
            Err(e) => LoopAction::Finish(Err(LoopError::Input(e))),
            Ok(_) => {
                if self.iteration < u32::MAX {
                    self.iteration = self.iteration + 1;
                }
                if self.iteration >= MAX_ITERATIONS {
                    LoopAction::Finish(Err(LoopError::SafetyBreak))
                } else {
                    LoopAction::Settle(SETTLE_DELAY_MS)
                }
            },
        }
    }
}

/// An iteration that begins with the flag set ends the loop as interrupted
/// and issues no input operation.
pub proof fn lemma_interrupted_iteration_does_nothing()
    ensures
        LoopModel::begun(true) == LoopActionModel::Finish(Err(LoopErrorModel::Interrupted)),
        LoopModel::begun(true).issued_ops() == Seq::<InputOpModel>::empty(),
{
}

/// Only a planner response that parses as a command other than `done`
/// issues input operations; every failure on the way issues none.
pub proof fn lemma_only_commands_issue_ops(
    state: LoopModel,
    screen: Result<Seq<char>, Seq<char>>,
    reply: Result<Seq<char>, Seq<char>>,
    outcome: Result<(), Seq<char>>,
)
    ensures
        state.screen_seen(screen).issued_ops().len() == 0,
        state.performed_action(outcome).issued_ops().len() == 0,
        LoopModel::reply_action(reply).issued_ops().len() > 0 ==> reply is Ok && action_text(
            reply->Ok_0,
        ) is Ok && step_of(action_text(reply->Ok_0)->Ok_0) is Ok,
{
}

/// The action that brings the counter to the ceiling ends the loop with the
/// safety break, whatever it did.
pub proof fn lemma_ceiling_breaks_loop(state: LoopModel)
    requires
        state.iteration + 1 >= MAX_ITERATIONS,
    ensures
        state.performed_action(Ok(())) == LoopActionModel::Finish(
            Err(LoopErrorModel::SafetyBreak),
        ),
{
}

/// Counting from a fresh state, every action before the hundredth lets the
/// loop go on and the hundredth breaks it off.
pub proof fn lemma_loop_runs_at_most_the_ceiling(state: LoopModel, n: nat)
    requires
        state.iteration == 0,
        n < MAX_ITERATIONS,
    ensures
        state.after_actions(n).iteration == n,
        n + 1 < MAX_ITERATIONS ==> state.after_actions(n).performed_action(Ok(()))
            == LoopActionModel::Settle(SETTLE_DELAY_MS),
        n + 1 == MAX_ITERATIONS ==> state.after_actions(n).performed_action(Ok(()))
            == LoopActionModel::Finish(Err(LoopErrorModel::SafetyBreak)),
    decreases n,
{
    if n > 0 {
        lemma_loop_runs_at_most_the_ceiling(state, (n - 1) as nat);
    }
}

} // verus!
