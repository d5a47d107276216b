//! Notifications that tell the child of a player who connected or spawned.

use crate::outgoing::{execute_command, line};
use crate::pattern::{capture, captured, captures, regex_captures};
use vstd::prelude::*;
use vstd::string::*;

verus! {

/// A record that tells of a player connecting: the name is caught by the
/// first group, the xuid by the second.
pub const JOIN_PATTERN: &'static str = r"Player connected: (?P<player>.+), xuid: (?P<xuid>\d+)";

/// A record that tells of a player spawning: the name is caught by the first
/// group, the xuid by the second, the profile id by the third.
pub const SPAWN_PATTERN: &'static str =
    r"Player Spawned: (?P<player>.+) xuid: (?P<xuid>\d+), pfid: (?P<pfid>.+)";

/// The command that tells the child of a player who connected.
pub open spec fn join_event(found: Option<Seq<Option<Seq<char>>>>) -> Option<Seq<char>> {
    match (captured(found, 1), captured(found, 2)) {
        (Some(player), Some(xuid)) => Some("scriptevent system:on_join "@ + player + "|"@ + xuid),
        _ => None,
    }
}

/// The command that tells the child of a player who spawned.
pub open spec fn spawn_event(found: Option<Seq<Option<Seq<char>>>>) -> Option<Seq<char>> {
    match (captured(found, 1), captured(found, 2), captured(found, 3)) {
        (Some(player), Some(xuid), Some(pfid)) => Some(
            "scriptevent system:on_spawn "@ + player + "|"@ + xuid + "|"@ + pfid,
        ),
        _ => None,
    }
}

/// The one notification that a record gives rise to: that of a join where
/// the record tells of one, else that of a spawn.
pub open spec fn notification(
    join: Option<Seq<Option<Seq<char>>>>,
    spawn: Option<Seq<Option<Seq<char>>>>,
) -> Option<Seq<char>> {
    match join_event(join) {
        Some(command) => Some(command),
        None => spawn_event(spawn),
    }
}

/// The lines that the notifications for the record `log` add to the queue.
pub open spec fn notification_lines(log: Seq<char>) -> Seq<Seq<char>> {
    match notification(regex_captures(JOIN_PATTERN@, log), regex_captures(SPAWN_PATTERN@, log)) {
        Some(command) => seq![line(command)],
        None => Seq::empty(),
    }
}

/// The command that tells the child of a player who connected, from what a
/// search for `JOIN_PATTERN` found.
pub fn join_notification(found: &Option<Vec<Option<String>>>) -> (command: Option<String>)
    ensures
        command.deep_view() == join_event(found.deep_view()),
{
    match (capture(found, 1), capture(found, 2)) {
        (Some(player), Some(xuid)) => {
            let mut command = String::from_str("scriptevent system:on_join ");
            command.append(player);
            command.append("|");
            command.append(xuid);
            Some(command)
        },
        _ => None,
    }
}

/// The command that tells the child of a player who spawned, from what a
/// search for `SPAWN_PATTERN` found.
pub fn spawn_notification(found: &Option<Vec<Option<String>>>) -> (command: Option<String>)
    ensures
        command.deep_view() == spawn_event(found.deep_view()),
{
    match (capture(found, 1), capture(found, 2), capture(found, 3)) {
        (Some(player), Some(xuid), Some(pfid)) => {
            let mut command = String::from_str("scriptevent system:on_spawn ");
            command.append(player);
            command.append("|");
            command.append(xuid);
            command.append("|");
            command.append(pfid);
            Some(command)
        },
        _ => None,
    }
}

/// Queues the notification for a record that tells of a player connecting
/// or, failing that, spawning.
pub fn custom_handler(log: &str, outgoing: &mut Vec<String>)
    ensures
        final(outgoing).deep_view() == old(outgoing).deep_view() + notification_lines(log@),
{
    let join = captures(JOIN_PATTERN, log);
    match join_notification(&join) {
        Some(command) => {
            execute_command(outgoing, command);
        },
        None => {
            let spawn = captures(SPAWN_PATTERN, log);
            match spawn_notification(&spawn) {
                Some(command) => {
                    execute_command(outgoing, command);
                },
                None => {},
            }
        },
    }
    assert(outgoing.deep_view() =~= old(outgoing).deep_view() + notification_lines(log@));
}

} // verus!
