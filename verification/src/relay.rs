//! What the supervisor does with one log record.

use crate::action::{Action, ExecuteShellCommandPayload};
use crate::codec::{directory_after, handle_listd_log};
use crate::dispatch::{
    action_lines, handle_action, handle_log, program_of, record_lines, shown_text, status_after,
    CommandStatus, LogLine, StatusRecord,
};
use crate::level::{level_found, LEVEL_PATTERN};
use crate::pattern::regex_captures;
use crate::player::PlayerCache;
use vstd::prelude::*;

verus! {

/// What is left for the caller to do once a record has been handled.
#[derive(Debug)]
pub enum Outcome {
    /// Nothing: the record carried a control message, which is dealt with.
    Done,
    /// Run the program, and hand its outcome to `handle_shell_result`.
    Run(ExecuteShellCommandPayload),
    /// Show the record to the operator.
    Show(LogLine),
}

/// What `handle_record` returns for a record that carried `action`.
pub open spec fn action_outcome(action: Action, outcome: Outcome) -> bool {
    match program_of(action) {
        Some(program) => outcome == Outcome::Run(program),
        None => outcome == Outcome::Done,
    }
}

/// What `handle_record` returns for a record `log` that carried no control
/// message.
pub open spec fn shown_outcome(log: Seq<char>, outcome: Outcome) -> bool {
    match outcome {
        Outcome::Show(shown) => {
            &&& shown.level == level_found(regex_captures(LEVEL_PATTERN@, log))
            &&& shown.text@ == shown_text(log)
        },
        _ => false,
    }
}

/// Handles one record of the child's output. `action` is the control message
/// that the record carries, decoded by the caller; `None` where it carries
/// none.
///
/// Every record is searched for an answer to a `listd` query first. A control
/// message is then dispatched, and the record is neither shown nor taken for
/// the output of an armed command. Any other record goes the ordinary way.
pub fn handle_record(
    outgoing: &mut Vec<String>,
    log: &str,
    action: Option<Action>,
    command_status: &mut CommandStatus,
    cache: &mut PlayerCache,
) -> (outcome: Outcome)
    ensures
        final(cache)@ == directory_after(old(cache)@, log@),
        match action {
            Some(action) => {
                &&& final(outgoing).deep_view() == old(outgoing).deep_view() + action_lines(
                    action,
                    final(cache)@,
                )
                &&& final(command_status)@ == status_after(action, old(command_status)@)
                &&& action_outcome(action, outcome)
            },
            None => {
                &&& final(outgoing).deep_view() == old(outgoing).deep_view() + record_lines(
                    log@,
                    old(command_status)@,
                )
                &&& final(command_status)@ == (StatusRecord {
                    waiting: false,
                    ..old(command_status)@
                })
                &&& shown_outcome(log@, outcome)
            },
        },
{
    handle_listd_log(log, cache);
    match action {
        Some(action) => {
            match handle_action(outgoing, action, command_status, cache) {
                Some(program) => Outcome::Run(program),
                None => Outcome::Done,
            }
        },
        None => Outcome::Show(handle_log(outgoing, log, command_status)),
    }
}

} // verus!
