use vstd::prelude::*;
use crate::model::{CloseBehavior, PromptMode};

verus! {

/// The prompt mode chosen in a list of ("once per connection", "every connection"):
/// the second entry gives every connection, anything else once per connection.
pub open spec fn prompt_mode_for(index: Option<usize>) -> PromptMode {
    if index == Some(1usize) {
        PromptMode::EveryConnection
    } else {
        PromptMode::OncePerConnection
    }
}

/// The prompt mode for the selected entry of the prompt list, as [`prompt_mode_for`] says.
pub fn prompt_mode_from_index(index: Option<usize>) -> (r: PromptMode)
    ensures
        r == prompt_mode_for(index),
{
    match index {
        Some(1) => PromptMode::EveryConnection,
        _ => PromptMode::OncePerConnection,
    }
}

/// The entry of the prompt list that shows `mode`.
pub fn prompt_mode_index(mode: PromptMode) -> (r: usize)
    ensures
        mode == PromptMode::OncePerConnection ==> r == 0,
        mode == PromptMode::EveryConnection ==> r == 1,
{
    match mode {
        PromptMode::OncePerConnection => 0,
        PromptMode::EveryConnection => 1,
    }
}

/// The close behaviour chosen in a list of ("ask once per startup", "always minimize",
/// "always quit"): the second and third entries give theirs, anything else asks.
pub open spec fn close_behavior_for(index: Option<usize>) -> CloseBehavior {
    if index == Some(1usize) {
        CloseBehavior::AlwaysMinimize
    } else if index == Some(2usize) {
        CloseBehavior::AlwaysQuit
    } else {
        CloseBehavior::AskOncePerStartup
    }
}

/// The close behaviour for the selected entry, as [`close_behavior_for`] says.
pub fn close_behavior_from_index(index: Option<usize>) -> (r: CloseBehavior)
    ensures
        r == close_behavior_for(index),
{
    match index {
        Some(1) => CloseBehavior::AlwaysMinimize,
        Some(2) => CloseBehavior::AlwaysQuit,
        _ => CloseBehavior::AskOncePerStartup,
    }
}

/// The entry of the close-behaviour list that shows `behavior`.
pub fn close_behavior_index(behavior: CloseBehavior) -> (r: usize)
    ensures
        behavior == CloseBehavior::AskOncePerStartup ==> r == 0,
        behavior == CloseBehavior::AlwaysMinimize ==> r == 1,
        behavior == CloseBehavior::AlwaysQuit ==> r == 2,
{
    match behavior {
        CloseBehavior::AskOncePerStartup => 0,
        CloseBehavior::AlwaysMinimize => 1,
        CloseBehavior::AlwaysQuit => 2,
    }
}

/// Showing a setting and reading back the shown entry gives the setting again.
pub proof fn lemma_settings_round_trip(mode: PromptMode, behavior: CloseBehavior)
    ensures
        prompt_mode_for(Some(if mode == PromptMode::OncePerConnection { 0usize } else { 1usize }))
            == mode,
        close_behavior_for(Some(match behavior {
            CloseBehavior::AskOncePerStartup => 0usize,
            CloseBehavior::AlwaysMinimize => 1usize,
            CloseBehavior::AlwaysQuit => 2usize,
        })) == behavior,
{
}

/// What closing the management window does.
#[derive(Debug, Clone, Copy, PartialEq, Eq, Structural)]
pub enum CloseAction {
    Minimize,
    Quit,
}

/// How a close request is to be handled.
#[derive(Debug, Clone, Copy, PartialEq, Eq, Structural)]
pub enum CloseDecision {
    /// Carry out this action.
    Act(CloseAction),
    /// Ask the user, then call [`close_choice`] with the answer.
    Ask,
}

/// The handling of a close request under `behavior`, given the choice remembered since
/// startup: the fixed behaviours act at once; "ask once per startup" reuses a remembered
/// choice and asks only when there is none.
pub open spec fn close_decision_for(behavior: CloseBehavior, remembered: Option<CloseAction>) -> CloseDecision {
    match behavior {
        CloseBehavior::AlwaysMinimize => CloseDecision::Act(CloseAction::Minimize),
        CloseBehavior::AlwaysQuit => CloseDecision::Act(CloseAction::Quit),
        CloseBehavior::AskOncePerStartup => match remembered {
            Some(a) => CloseDecision::Act(a),
            None => CloseDecision::Ask,
        },
    }
}

/// Decides a close request as [`close_decision_for`] says.
pub fn close_decision(behavior: CloseBehavior, remembered: Option<CloseAction>) -> (r: CloseDecision)
    ensures
        r == close_decision_for(behavior, remembered),
{
    match behavior {
        CloseBehavior::AlwaysMinimize => CloseDecision::Act(CloseAction::Minimize),
        CloseBehavior::AlwaysQuit => CloseDecision::Act(CloseAction::Quit),
        CloseBehavior::AskOncePerStartup => match remembered {
            Some(a) => CloseDecision::Act(a),
            None => CloseDecision::Ask,
        },
    }
}

/// The user's answer to "quit?": yes quits, no minimises, a dismissed question (`None`)
/// leaves the window as it is.
pub fn close_choice(answer: Option<bool>) -> (r: Option<CloseAction>)
    ensures
        answer == Some(true) ==> r == Some(CloseAction::Quit),
        answer == Some(false) ==> r == Some(CloseAction::Minimize),
        answer is None ==> r is None,
{
    match answer {
        Some(true) => Some(CloseAction::Quit),
        Some(false) => Some(CloseAction::Minimize),
        None => None,
    }
}

/// Under "ask once per startup" the question is put at most once: after the answer is
/// remembered, every later close request acts on it without asking.
pub proof fn lemma_close_question_asked_once(answer: CloseAction)
    ensures
        close_decision_for(CloseBehavior::AskOncePerStartup, None) == CloseDecision::Ask,
        close_decision_for(CloseBehavior::AskOncePerStartup, Some(answer)) == CloseDecision::Act(answer),
{
}

} // verus!
