//! Wire format of the replies that go back to the child process.

use crate::chunk::{chunk_at, is_last_chunk, Chunk};
use crate::json::{
    dump_object, insert_count, insert_flag, insert_text, new_object, object_json, object_members,
    text_object_json, text_object_to_string, Member,
};
use crate::player::{PlayerInfo, PlayerRecord};
use vstd::prelude::*;
use vstd::string::*;

verus! {

/// Channel on which the description of a player goes back to the child.
pub const PLAYER_CHANNEL: &'static str = "system:playerinfo";

/// A `scriptevent` command that carries `body` on `channel`.
pub open spec fn script_event(channel: Seq<char>, body: Seq<char>) -> Seq<char> {
    "scriptevent "@ + channel + " "@ + body
}

/// Members of the object that carries one chunk of a command's output.
pub open spec fn result_members(
    command: Seq<char>,
    message: Seq<char>,
    count: nat,
    end: bool,
) -> Seq<(Seq<char>, Member)> {
    seq![
        ("command"@, Member::Text(command)),
        ("result_message"@, Member::Text(message)),
        ("count"@, Member::Count(count)),
        ("end"@, Member::Flag(end)),
    ]
}

/// Members of the object that carries one chunk of a program's output.
pub open spec fn shell_members(
    command: Seq<char>,
    message: Seq<char>,
    count: nat,
    end: bool,
) -> Seq<(Seq<char>, Member)> {
    result_members(command, message, count, end).push(("err"@, Member::Flag(false)))
}

/// Members of the object that reports why a program could not be run.
pub open spec fn shell_error_members(
    command: Seq<char>,
    cause: Seq<char>,
) -> Seq<(Seq<char>, Member)> {
    seq![
        ("command"@, Member::Text(command)),
        ("result_message"@, Member::Text("Error: "@ + cause)),
        ("err"@, Member::Flag(true)),
    ]
}

/// Members of the object that describes a player.
pub open spec fn player_members(player: PlayerRecord) -> Seq<(Seq<char>, Seq<char>)> {
    seq![("name"@, player.name), ("deviceId"@, player.device_id), ("xuid"@, player.xuid)]
}

/// The command that carries chunk `index` of a command's output.
pub open spec fn result_event(
    channel: Seq<char>,
    command: Seq<char>,
    text: Seq<char>,
    index: int,
) -> Seq<char> {
    script_event(
        channel,
        object_json(
            result_members(
                command,
                chunk_at(text, index),
                index as nat,
                is_last_chunk(text.len(), index),
            ),
        ),
    )
}

/// The command that carries chunk `index` of a program's output.
pub open spec fn shell_event(command: Seq<char>, text: Seq<char>, index: int) -> Seq<char> {
    script_event(
        "bds_enhancer:shell_result"@,
        object_json(
            shell_members(
                command,
                chunk_at(text, index),
                index as nat,
                is_last_chunk(text.len(), index),
            ),
        ),
    )
}

/// The command that reports why a program could not be run.
pub open spec fn shell_error_event(command: Seq<char>, cause: Seq<char>) -> Seq<char> {
    script_event("bds_enhancer:shell_result"@, object_json(shell_error_members(command, cause)))
}

/// The command that describes a player.
pub open spec fn player_event(player: PlayerRecord) -> Seq<char> {
    script_event(PLAYER_CHANNEL@, text_object_json(player_members(player)))
}

proof fn lemma_keys_differ()
    ensures
        "command"@ != "result_message"@,
        "command"@ != "count"@,
        "command"@ != "end"@,
        "command"@ != "err"@,
        "result_message"@ != "count"@,
        "result_message"@ != "end"@,
        "result_message"@ != "err"@,
        "count"@ != "end"@,
        "count"@ != "err"@,
        "end"@ != "err"@,
{
    reveal_strlit("command");
    reveal_strlit("result_message");
    reveal_strlit("count");
    reveal_strlit("end");
    reveal_strlit("err");
    assert("command"@.len() == 7);
    assert("result_message"@.len() == 14);
    assert("count"@.len() == 5);
    assert("end"@.len() == 3);
    assert("err"@.len() == 3);
    assert("end"@[1] != "err"@[1]);
}

/// A `scriptevent` command that carries `body` on `channel`.
pub fn script_event_text(channel: &str, body: &str) -> (text: String)
    ensures
        text@ == script_event(channel@, body@),
{
    let mut text = String::from_str("scriptevent ");
    text.append(channel);
    text.append(" ");
    text.append(body);
    text
}

/// The object that carries `chunk` of the output of `command`, as JSON text.
pub fn result_json(command: &str, chunk: &Chunk) -> (text: String)
    ensures
        text@ == object_json(
            result_members(command@, chunk.text@, chunk.count as nat, chunk.end),
        ),
{
    proof {
        lemma_keys_differ();
    }
    let mut object = new_object();
    insert_text(&mut object, "command", command);
    insert_text(&mut object, "result_message", chunk.text.as_str());
    insert_count(&mut object, "count", chunk.count);
    insert_flag(&mut object, "end", chunk.end);
    assert(object_members(object) =~= result_members(
        command@,
        chunk.text@,
        chunk.count as nat,
        chunk.end,
    ));
    dump_object(object)
}

/// The object that carries `chunk` of the output of the program `command`,
/// as JSON text.
pub fn shell_json(command: &str, chunk: &Chunk) -> (text: String)
    ensures
        text@ == object_json(shell_members(command@, chunk.text@, chunk.count as nat, chunk.end)),
{
    proof {
        lemma_keys_differ();
    }
    let mut object = new_object();
    insert_text(&mut object, "command", command);
    insert_text(&mut object, "result_message", chunk.text.as_str());
    insert_count(&mut object, "count", chunk.count);
    insert_flag(&mut object, "end", chunk.end);
    insert_flag(&mut object, "err", false);
    assert(object_members(object) =~= shell_members(
        command@,
        chunk.text@,
        chunk.count as nat,
        chunk.end,
    ));
    dump_object(object)
}

/// The object that reports why the program `command` could not be run, as
/// JSON text.
pub fn shell_error_json(command: &str, cause: &str) -> (text: String)
    ensures
        text@ == object_json(shell_error_members(command@, cause@)),
{
    proof {
        lemma_keys_differ();
    }
    let mut message = String::from_str("Error: ");
    message.append(cause);
    let mut object = new_object();
    insert_text(&mut object, "command", command);
    insert_text(&mut object, "result_message", message.as_str());
    insert_flag(&mut object, "err", true);
    assert(object_members(object) =~= shell_error_members(command@, cause@));
    dump_object(object)
}

/// The object that describes the player with the given name, device and
/// xuid, as JSON text.
pub fn player_fields_json(name: &str, device_id: &str, xuid: &str) -> (text: String)
    ensures
        text@ == text_object_json(
            player_members(PlayerRecord { name: name@, device_id: device_id@, xuid: xuid@ }),
        ),
{
    let mut members: Vec<(String, String)> = Vec::new();
    members.push((String::from_str("name"), String::from_str(name)));
    members.push((String::from_str("deviceId"), String::from_str(device_id)));
    members.push((String::from_str("xuid"), String::from_str(xuid)));
    assert(members.deep_view() =~= player_members(
        PlayerRecord { name: name@, device_id: device_id@, xuid: xuid@ },
    ));
    text_object_to_string(&members)
}

/// The object that describes `player`, as JSON text.
pub fn player_json(player: &PlayerInfo) -> (text: String)
    ensures
        text@ == text_object_json(player_members(player@)),
{
    player_fields_json(player.name.as_str(), player.device_id.as_str(), player.xuid.as_str())
}

} // verus!
