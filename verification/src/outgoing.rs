//! The queue of commands on their way to the child process.
//!
//! Commands are appended in the order in which they are to be sent; the
//! caller writes them to the child's input and empties the queue.

use crate::player::{PlayerCache, PlayerRecord};
use crate::reply::{player_event, player_fields_json, script_event_text, PLAYER_CHANNEL};
use vstd::prelude::*;
use vstd::string::*;

verus! {

/// A command as it stands in the queue: closed by a line feed.
pub open spec fn line(command: Seq<char>) -> Seq<char> {
    command + "\n"@
}

/// Appends `command`, closed by a line feed, to the queue of outgoing
/// commands.
pub fn execute_command(outgoing: &mut Vec<String>, command: String)
    ensures
        final(outgoing).deep_view() == old(outgoing).deep_view().push(line(command@)),
{
    let mut item = command;
    item.append("\n");
    outgoing.push(item);
    assert(outgoing.deep_view() =~= old(outgoing).deep_view().push(line(command@)));
}

/// Queues the description of a player: a JSON object with the name, the
/// device and the xuid, sent on the channel for player descriptions.
pub fn send_to_scriptevent(player: &str, xuid: &str, device_id: &str, outgoing: &mut Vec<String>)
    ensures
        final(outgoing).deep_view() == old(outgoing).deep_view().push(
            line(player_event(PlayerRecord { name: player@, device_id: device_id@, xuid: xuid@ })),
        ),
{
    let body = player_fields_json(player, device_id, xuid);
    execute_command(outgoing, script_event_text(PLAYER_CHANNEL, body.as_str()));
}

/// Queues the description of the player filed under `name`, and says whether
/// there was one.
pub fn get_player_info_and_send(
    name: &str,
    cache: &PlayerCache,
    outgoing: &mut Vec<String>,
) -> (found: bool)
    ensures
        found == cache@.contains_key(name@),
        final(outgoing).deep_view() == if found {
            old(outgoing).deep_view().push(line(player_event(cache@[name@])))
        } else {
            old(outgoing).deep_view()
        },
{
    match cache.lookup(name) {
        Some(player_info) => {
            send_to_scriptevent(
                player_info.name.as_str(),
                player_info.xuid.as_str(),
                player_info.device_id.as_str(),
                outgoing,
            );
            true
        },
        None => false,
    }
}

} // verus!
