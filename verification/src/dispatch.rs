//! Dispatch of control messages into outgoing commands, and the single-slot
//! correlation between a command and the record that answers it.

use crate::action::{
    Action, ExecuteCommandPayload, ExecuteShellCommandPayload, GetPlayerPayload,
};
use crate::chunk::{
    chunk_at, chunk_count, chunk_of, chunk_texts, count_chunks, lemma_chunk_lengths,
    lemma_chunks_reassemble, CHUNK_SIZE,
};
use crate::json::object_json;
use crate::level::{get_log_level, level_found, LogLevel, LEVEL_PATTERN};
use crate::notify::{custom_handler, notification_lines};
use crate::outgoing::{execute_command, line};
use crate::pattern::regex_captures;
use crate::player::{PlayerCache, PlayerRecord};
use crate::reply::{
    player_event, player_json, result_event, result_json, result_members, script_event,
    script_event_text, shell_error_event, shell_error_json, shell_event, shell_json,
    PLAYER_CHANNEL,
};
use crate::text::{decimal, decimal_text, join, joined, strip_prefix, trim, trimmed, without_prefix};
use vstd::prelude::*;
use vstd::string::*;

verus! {

/// Channel on which the output of a command goes back to the child.
pub const RESULT_CHANNEL: &'static str = "bds_enhancer:result";

/// Channel on which the output of a program goes back to the child.
pub const SHELL_CHANNEL: &'static str = "bds_enhancer:shell_result";

/// What the child writes in front of a record while it keeps no log file.
pub const NO_LOG_FILE: &'static str = "NO LOG FILE! - ";

/// The one command, if any, whose output the next record is taken to be.
#[derive(Debug)]
pub struct CommandStatus {
    pub waiting: bool,
    pub command: String,
    pub scriptevent: String,
}

/// What a `CommandStatus` holds, as plain values.
pub struct StatusRecord {
    pub waiting: bool,
    pub command: Seq<char>,
    pub scriptevent: Seq<char>,
}

impl View for CommandStatus {
    type V = StatusRecord;

    open spec fn view(&self) -> StatusRecord {
        StatusRecord {
            waiting: self.waiting,
            command: self.command@,
            scriptevent: self.scriptevent@,
        }
    }
}

/// A record as it is to be shown to the operator.
#[derive(Debug)]
pub struct LogLine {
    pub level: LogLevel,
    pub text: String,
}

/// The `transfer` command of the child.
pub open spec fn transfer_command(player: Seq<char>, host: Seq<char>, port: u16) -> Seq<char> {
    "transfer "@ + player + " "@ + host + " "@ + decimal(port as nat)
}

/// The `kick` command of the child.
pub open spec fn kick_command(player: Seq<char>, reason: Seq<char>) -> Seq<char> {
    "kick "@ + player + " "@ + reason
}

/// The lines that `action` adds to the queue, given the directory of players.
/// A program asked for by `ExecuteShell` adds its lines once it has run.
pub open spec fn action_lines(
    action: Action,
    players: Map<Seq<char>, PlayerRecord>,
) -> Seq<Seq<char>> {
    match action {
        Action::Reload => seq![line("reload"@)],
        Action::Stop => seq![line("stop"@)],
        Action::Transfer(arg) => seq![line(transfer_command(arg.player@, arg.host@, arg.port))],
        Action::Kick(arg) => seq![line(kick_command(arg.player@, arg.reason@))],
        Action::Execute(arg) => seq![line(arg.command@)],
        Action::GetPlayer(arg) => if players.contains_key(arg.name@) {
            seq![line(player_event(players[arg.name@]))]
        } else {
            Seq::empty()
        },
        Action::ExecuteShell(arg) => Seq::empty(),
    }
}

/// The correlation state that `action` leaves behind: an `Execute` that asks
/// for its result arms it, in place of whatever was armed; nothing else
/// touches it.
pub open spec fn status_after(action: Action, before: StatusRecord) -> StatusRecord {
    match action {
        Action::Execute(arg) => if arg.result {
            StatusRecord { waiting: true, command: arg.command@, scriptevent: RESULT_CHANNEL@ }
        } else {
            before
        },
        _ => before,
    }
}

/// The program that `action` asks the caller to run.
pub open spec fn program_of(action: Action) -> Option<ExecuteShellCommandPayload> {
    match action {
        Action::ExecuteShell(arg) => Some(arg),
        _ => None,
    }
}

/// The lines that carry `text` as the output of `command`, one per chunk, in
/// ascending order of the chunks.
pub open spec fn result_lines(
    channel: Seq<char>,
    command: Seq<char>,
    text: Seq<char>,
) -> Seq<Seq<char>> {
    Seq::new(chunk_count(text.len()), |i: int| line(result_event(channel, command, text, i)))
}

/// The program and its arguments as one text.
pub open spec fn program_text(request: ExecuteShellCommandPayload) -> Seq<char> {
    request.main_command@ + " "@ + joined(request.args.deep_view(), " "@)
}

/// The lines that carry `text` as the output of the program `command`, one
/// per chunk, in ascending order of the chunks.
pub open spec fn shell_output_lines(command: Seq<char>, text: Seq<char>) -> Seq<Seq<char>> {
    Seq::new(chunk_count(text.len()), |i: int| line(shell_event(command, text, i)))
}

/// The lines that answer a program once it has run: its trimmed output in
/// chunks, or, where it could not be run and the request asked for word of
/// it, one line with the cause.
pub open spec fn shell_lines(
    request: ExecuteShellCommandPayload,
    outcome: Result<String, String>,
) -> Seq<Seq<char>> {
    match outcome {
        Ok(output) => shell_output_lines(program_text(request), trimmed(output@)),
        Err(cause) => if request.result {
            seq![line(shell_error_event(program_text(request), cause@))]
        } else {
            Seq::empty()
        },
    }
}

/// The text of a record as it is shown: without the note of a missing log
/// file.
pub open spec fn shown_text(log: Seq<char>) -> Seq<char> {
    without_prefix(log, NO_LOG_FILE@)
}

/// The lines that a record outside the action path adds to the queue: the
/// whole text of the record as the output of the armed command, if one is
/// armed, then the notifications for the record.
pub open spec fn record_lines(log: Seq<char>, before: StatusRecord) -> Seq<Seq<char>> {
    let reply = if before.waiting {
        result_lines(before.scriptevent, before.command, log)
    } else {
        Seq::empty()
    };
    reply + notification_lines(log)
}

/// A request for a player whom the directory does not know adds nothing to
/// the queue and leaves the correlation state as it is.
pub proof fn lemma_stranger_is_silent(
    request: GetPlayerPayload,
    players: Map<Seq<char>, PlayerRecord>,
    before: StatusRecord,
)
    requires
        !players.contains_key(request.name@),
    ensures
        action_lines(Action::GetPlayer(request), players) == Seq::<Seq<char>>::empty(),
        status_after(Action::GetPlayer(request), before) == before,
        program_of(Action::GetPlayer(request)) is None,
{
}

/// At most one command is armed at any time: an `Execute` that asks for its
/// result, dispatched while another is armed, takes its place.
pub proof fn lemma_second_arming_replaces_first(
    first: ExecuteCommandPayload,
    second: ExecuteCommandPayload,
    before: StatusRecord,
)
    requires
        second.result,
    ensures
        status_after(Action::Execute(second), status_after(Action::Execute(first), before))
            == status_after(Action::Execute(second), before),
        status_after(Action::Execute(second), before) == (StatusRecord {
            waiting: true,
            command: second.command@,
            scriptevent: RESULT_CHANNEL@,
        }),
{
}

/// An answer of at most `CHUNK_SIZE` characters goes out as one reply, which
/// carries the whole text, the index 0 and the end marker.
pub proof fn lemma_short_answer_is_one_reply(
    channel: Seq<char>,
    command: Seq<char>,
    text: Seq<char>,
)
    requires
        text.len() <= CHUNK_SIZE,
    ensures
        result_lines(channel, command, text) == seq![
            line(script_event(channel, object_json(result_members(command, text, 0, true)))),
        ],
{
    assert(chunk_at(text, 0) =~= text);
    assert(result_lines(channel, command, text) =~= seq![
        line(script_event(channel, object_json(result_members(command, text, 0, true)))),
    ]);
}

/// An armed command is answered by the next record and by no later one: the
/// record behind the one that answered adds nothing but its notifications.
pub proof fn lemma_answered_once(first: Seq<char>, second: Seq<char>, armed: StatusRecord)
    requires
        armed.waiting,
    ensures
        record_lines(first, armed) == result_lines(armed.scriptevent, armed.command, first)
            + notification_lines(first),
        record_lines(second, StatusRecord { waiting: false, ..armed }) == notification_lines(
            second,
        ),
{
    assert(Seq::<Seq<char>>::empty() + notification_lines(second) =~= notification_lines(second));
}

/// The answer to an armed command is the record and nothing else: there is
/// one reply for each chunk of the record's text, reply `index` carries chunk
/// `index` with that index and, on the last one only, the end marker, and the
/// chunks joined in ascending order are the text of the record.
pub proof fn lemma_answer_is_the_record(
    channel: Seq<char>,
    command: Seq<char>,
    log: Seq<char>,
    index: int,
)
    requires
        0 <= index < chunk_count(log.len()),
    ensures
        result_lines(channel, command, log).len() == chunk_count(log.len()),
        result_lines(channel, command, log)[index] == line(
            script_event(
                channel,
                object_json(
                    result_members(
                        command,
                        chunk_at(log, index),
                        index as nat,
                        index == chunk_count(log.len()) - 1,
                    ),
                ),
            ),
        ),
        chunk_at(log, index).len() <= CHUNK_SIZE,
        chunk_texts(log).flatten() == log,
{
    lemma_chunk_lengths(log, index);
    lemma_chunks_reassemble(log);
}

impl CommandStatus {
    /// The state in which no command waits for its output.
    pub fn new() -> (status: Self)
        ensures
            status@ == (StatusRecord {
                waiting: false,
                command: Seq::empty(),
                scriptevent: Seq::empty(),
            }),
    {
        CommandStatus { waiting: false, command: String::new(), scriptevent: String::new() }
    }
}

/// The program and its arguments as one text.
pub fn program_line(request: &ExecuteShellCommandPayload) -> (text: String)
    ensures
        text@ == program_text(*request),
{
    let mut text = request.main_command.clone();
    text.append(" ");
    let arguments = join(&request.args, " ");
    text.append(arguments.as_str());
    text
}

/// Queues `text` as the output of `command`: one reply per chunk, in
/// ascending order of the chunks.
pub fn send_result(outgoing: &mut Vec<String>, channel: &str, command: &str, text: &str)
    ensures
        final(outgoing).deep_view() == old(outgoing).deep_view() + result_lines(
            channel@,
            command@,
            text@,
        ),
{
    let total: usize = count_chunks(text.unicode_len());
    let mut index: usize = 0;
    while index < total
        invariant
            index <= total,
            total == chunk_count(text@.len()),
            outgoing.deep_view() == old(outgoing).deep_view() + result_lines(
                channel@,
                command@,
                text@,
            ).take(index as int),
        decreases total - index,
    {
        let chunk = chunk_of(text, index);
        let body = result_json(command, &chunk);
        execute_command(outgoing, script_event_text(channel, body.as_str()));
        proof {
            let lines = result_lines(channel@, command@, text@);
            assert(lines.take(index + 1) =~= lines.take(index as int).push(lines[index as int]));
            assert(outgoing.deep_view() =~= old(outgoing).deep_view() + lines.take(
                index + 1,
            ));
        }
        index = index + 1;
    }
    proof {
        let lines = result_lines(channel@, command@, text@);
        assert(lines.take(index as int) =~= lines);
    }
}

/// Queues `text` as the output of the program `command`: one reply per
/// chunk, in ascending order of the chunks.
pub fn send_shell_output(outgoing: &mut Vec<String>, command: &str, text: &str)
    ensures
        final(outgoing).deep_view() == old(outgoing).deep_view() + shell_output_lines(
            command@,
            text@,
        ),
{
    let total: usize = count_chunks(text.unicode_len());
    let mut index: usize = 0;
    while index < total
        invariant
            index <= total,
            total == chunk_count(text@.len()),
            outgoing.deep_view() == old(outgoing).deep_view() + shell_output_lines(
                command@,
                text@,
            ).take(index as int),
        decreases total - index,
    {
        let chunk = chunk_of(text, index);
        let body = shell_json(command, &chunk);
        execute_command(outgoing, script_event_text(SHELL_CHANNEL, body.as_str()));
        proof {
            let lines = shell_output_lines(command@, text@);
            assert(lines.take(index + 1) =~= lines.take(index as int).push(lines[index as int]));
            assert(outgoing.deep_view() =~= old(outgoing).deep_view() + lines.take(
                index + 1,
            ));
        }
        index = index + 1;
    }
    proof {
        let lines = shell_output_lines(command@, text@);
        assert(lines.take(index as int) =~= lines);
    }
}

/// Turns one control message into outgoing commands and correlation state.
///
/// Returns the program that the caller has to run, where the message asks
/// for one; its outcome goes to `handle_shell_result`.
pub fn handle_action(
    outgoing: &mut Vec<String>,
    action: Action,
    command_status: &mut CommandStatus,
    cache: &PlayerCache,
) -> (program: Option<ExecuteShellCommandPayload>)
    ensures
        final(outgoing).deep_view() == old(outgoing).deep_view() + action_lines(
            action,
            cache@,
        ),
        final(command_status)@ == status_after(action, old(command_status)@),
        program == program_of(action),
{
    let ghost queued = outgoing.deep_view();
    let program = match action {
        Action::Transfer(arg) => {
            let mut command = String::from_str("transfer ");
            command.append(arg.player.as_str());
            command.append(" ");
            command.append(arg.host.as_str());
            command.append(" ");
            command.append(decimal_text(arg.port).as_str());
            execute_command(outgoing, command);
            None
        },
        Action::Kick(arg) => {
            let mut command = String::from_str("kick ");
            command.append(arg.player.as_str());
            command.append(" ");
            command.append(arg.reason.as_str());
            execute_command(outgoing, command);
            None
        },
        Action::Reload => {
            execute_command(outgoing, String::from_str("reload"));
            None
        },
        Action::Stop => {
            execute_command(outgoing, String::from_str("stop"));
            None
        },
        Action::Execute(arg) => {
            if arg.result {
                command_status.waiting = true;
                command_status.command = arg.command.clone();
                command_status.scriptevent = String::from_str(RESULT_CHANNEL);
            }
            execute_command(outgoing, arg.command);
            None
        },
        Action::GetPlayer(arg) => {
            match cache.get_player_info(&arg) {
                Some(player) => {
                    let json_data = player_json(player);
                    execute_command(
                        outgoing,
                        script_event_text(PLAYER_CHANNEL, json_data.as_str()),
                    );
                },
                None => {},
            }
            None
        },
        Action::ExecuteShell(arg) => Some(arg),
    };
    assert(outgoing.deep_view() =~= queued + action_lines(action, cache@));
    program
}

/// Queues the answer to a program that `handle_action` asked the caller to
/// run: `Ok` with what the program wrote, `Err` with the reason why it could
/// not be run.
pub fn handle_shell_result(
    outgoing: &mut Vec<String>,
    request: &ExecuteShellCommandPayload,
    outcome: Result<String, String>,
)
    ensures
        final(outgoing).deep_view() == old(outgoing).deep_view() + shell_lines(
            *request,
            outcome,
        ),
{
    let command = program_line(request);
    match outcome {
        Ok(output) => {
            send_shell_output(outgoing, command.as_str(), trim(output.as_str()));
        },
        Err(cause) => {
            if request.result {
                let body = shell_error_json(command.as_str(), cause.as_str());
                execute_command(outgoing, script_event_text(SHELL_CHANNEL, body.as_str()));
            }
            assert(outgoing.deep_view() =~= old(outgoing).deep_view() + shell_lines(
                *request,
                outcome,
            ));
        },
    }
}

/// Handles a record that carries no control message: answers the armed
/// command with the text of the record, if one is armed, disarms, queues the
/// notifications for the record, and returns the record as it is to be
/// shown.
pub fn handle_log(
    outgoing: &mut Vec<String>,
    log: &str,
    command_status: &mut CommandStatus,
) -> (shown: LogLine)
    ensures
        shown.level == level_found(regex_captures(LEVEL_PATTERN@, log@)),
        shown.text@ == shown_text(log@),
        final(outgoing).deep_view() == old(outgoing).deep_view() + record_lines(
            log@,
            old(command_status)@,
        ),
        final(command_status)@ == (StatusRecord { waiting: false, ..old(command_status)@ }),
{
    let level = get_log_level(log);
    let text = match strip_prefix(log, NO_LOG_FILE) {
        Some(rest) => rest,
        None => log,
    };
    let ghost queued = outgoing.deep_view();
    if command_status.waiting {
        send_result(
            outgoing,
            command_status.scriptevent.as_str(),
            command_status.command.as_str(),
            log,
        );
        command_status.waiting = false;
    }
    custom_handler(log, outgoing);
    assert(outgoing.deep_view() =~= queued + record_lines(log@, old(command_status)@));
    LogLine { level, text: String::from_str(text) }
}

} // verus!
