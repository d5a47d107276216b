//! Detection of the messages that the child embeds in its log records:
//! control messages, and the answer to a `listd` query.

use crate::json::{json_member_items, json_member_text, member_items, member_text};
use crate::pattern::{capture, captured, captures, regex_captures};
use crate::player::{PlayerCache, PlayerRecord};
use crate::text::{after_marker, same, text_after};
use vstd::prelude::*;
use vstd::string::*;

verus! {

/// A record that carries a control message: the JSON object is caught by the
/// first group.
pub const ACTION_PATTERN: &'static str = r".*\[Scripting\] bds_enhancer:(?P<json>\{.*\})";

/// What stands in a record in front of the answer to a query.
pub const LIST_MARKER: &'static str = "*###";

/// One entry of the answer to a `listd` query, as it was read: a field is
/// `None` where the entry lacks it or holds something other than a string.
#[derive(Debug, PartialEq, Eq)]
pub struct ListedPlayer {
    pub name: Option<String>,
    pub device_session_id: Option<String>,
    pub xuid: Option<String>,
}

/// What a `ListedPlayer` holds, as plain texts.
pub struct ListedRecord {
    pub name: Option<Seq<char>>,
    pub device_session_id: Option<Seq<char>>,
    pub xuid: Option<Seq<char>>,
}

impl View for ListedPlayer {
    type V = ListedRecord;

    open spec fn view(&self) -> ListedRecord {
        ListedRecord {
            name: self.name.deep_view(),
            device_session_id: self.device_session_id.deep_view(),
            xuid: self.xuid.deep_view(),
        }
    }
}

/// The text of a field, or the empty text where the field is missing.
pub open spec fn text_or_empty(field: Option<Seq<char>>) -> Seq<char> {
    match field {
        Some(text) => text,
        None => Seq::empty(),
    }
}

/// The directory entry that a listed player becomes.
pub open spec fn player_of(entry: ListedRecord) -> PlayerRecord {
    PlayerRecord {
        name: text_or_empty(entry.name),
        device_id: text_or_empty(entry.device_session_id),
        xuid: text_or_empty(entry.xuid),
    }
}

/// The directory after the entries have been filed one by one, in order, each
/// under its name and in place of any earlier entry for that name.
pub open spec fn with_players(
    directory: Map<Seq<char>, PlayerRecord>,
    entries: Seq<ListedRecord>,
) -> Map<Seq<char>, PlayerRecord>
    decreases entries.len(),
{
    if entries.len() == 0 {
        directory
    } else {
        let player = player_of(entries.last());
        with_players(directory, entries.drop_last()).insert(player.name, player)
    }
}

/// The directory after an answer to a query: the entries are filed where the
/// answer is one to `listd`; any other answer leaves the directory as it is.
pub open spec fn listing_update(
    directory: Map<Seq<char>, PlayerRecord>,
    command: Option<Seq<char>>,
    entries: Seq<ListedRecord>,
) -> Map<Seq<char>, PlayerRecord> {
    if command == Some("listd"@) {
        with_players(directory, entries)
    } else {
        directory
    }
}

/// A name under which no entry of a listing is filed is as unknown after the
/// listing as it was before.
pub proof fn lemma_unlisted_stays_unknown(
    directory: Map<Seq<char>, PlayerRecord>,
    entries: Seq<ListedRecord>,
    name: Seq<char>,
)
    requires
        !directory.contains_key(name),
        forall|i: int| 0 <= i < entries.len() ==> player_of(#[trigger] entries[i]).name != name,
    ensures
        !with_players(directory, entries).contains_key(name),
    decreases entries.len(),
{
    if entries.len() > 0 {
        lemma_unlisted_stays_unknown(directory, entries.drop_last(), name);
    }
}

/// The entry that the JSON text `item` spells.
pub open spec fn listed_entry(item: Seq<char>) -> ListedRecord {
    ListedRecord {
        name: json_member_text(item, "name"@),
        device_session_id: json_member_text(item, "deviceSessionId"@),
        xuid: json_member_text(item, "xuid"@),
    }
}

/// The entries under `result` in the JSON text `document`; none where it
/// holds no array there.
pub open spec fn listed_entries(document: Seq<char>) -> Seq<ListedRecord> {
    match json_member_items(document, "result"@) {
        Some(items) => items.map_values(|item: Seq<char>| listed_entry(item)),
        None => Seq::empty(),
    }
}

/// The directory after the record `log` has been searched for an answer to a
/// `listd` query.
pub open spec fn directory_after(
    directory: Map<Seq<char>, PlayerRecord>,
    log: Seq<char>,
) -> Map<Seq<char>, PlayerRecord> {
    match after_marker(log, LIST_MARKER@) {
        Some(document) => listing_update(
            directory,
            json_member_text(document, "command"@),
            listed_entries(document),
        ),
        None => directory,
    }
}

/// The JSON text of the control message that the record `log` carries, if it
/// carries one.
pub fn extract_action_json(log: &str) -> (json: Option<String>)
    ensures
        json.deep_view() == captured(regex_captures(ACTION_PATTERN@, log@), 1),
{
    let found = captures(ACTION_PATTERN, log);
    match capture(&found, 1) {
        Some(json) => Some(String::from_str(json)),
        None => None,
    }
}

/// The text of a field, or the empty text where the field is missing.
fn field_text(field: &Option<String>) -> (text: &str)
    ensures
        text@ == text_or_empty(field.deep_view()),
{
    match field {
        Some(text) => text.as_str(),
        None => {
            proof {
                reveal_strlit("");
            }
            assert(""@ =~= Seq::<char>::empty());
            ""
        },
    }
}

/// Files the entries of an answer to a query in the directory, where the
/// answer is one to `listd`.
pub fn record_listing(
    cache: &mut PlayerCache,
    command: &Option<String>,
    entries: &Vec<ListedPlayer>,
)
    ensures
        final(cache)@ == listing_update(
            old(cache)@,
            command.deep_view(),
            entries@.map_values(|entry: ListedPlayer| entry@),
        ),
{
    let ghost listed = entries@.map_values(|entry: ListedPlayer| entry@);
    let wanted = match command {
        Some(name) => same(name.as_str(), "listd"),
        None => false,
    };
    if wanted {
        let mut k: usize = 0;
        while k < entries.len()
            invariant
                k <= entries@.len(),
                listed == entries@.map_values(|entry: ListedPlayer| entry@),
                cache@ == with_players(old(cache)@, listed.take(k as int)),
            decreases entries@.len() - k,
        {
            let entry = &entries[k];
            proof {
                assert(listed.take(k + 1).drop_last() =~= listed.take(k as int));
                assert(listed.take(k + 1).last() == entry@);
            }
            cache.add_player(
                field_text(&entry.name),
                field_text(&entry.device_session_id),
                field_text(&entry.xuid),
            );
            k = k + 1;
        }
        assert(listed.take(k as int) =~= listed);
    }
}

/// Reads the entries under `result` in the JSON text `document`.
fn read_entries(document: &str) -> (entries: Vec<ListedPlayer>)
    ensures
        entries@.map_values(|entry: ListedPlayer| entry@) == listed_entries(document@),
{
    let mut entries: Vec<ListedPlayer> = Vec::new();
    match member_items(document, "result") {
        Some(items) => {
            let mut k: usize = 0;
            while k < items.len()
                invariant
                    k <= items@.len(),
                    entries@.len() == k,
                    forall|j: int|
                        0 <= j < k ==> (#[trigger] entries@[j])@ == listed_entry(items@[j]@),
                decreases items@.len() - k,
            {
                let item = items[k].as_str();
                entries.push(
                    ListedPlayer {
                        name: member_text(item, "name"),
                        device_session_id: member_text(item, "deviceSessionId"),
                        xuid: member_text(item, "xuid"),
                    },
                );
                k = k + 1;
            }
            assert(entries@.map_values(|entry: ListedPlayer| entry@) =~= listed_entries(
                document@,
            ));
        },
        None => {
            assert(entries@.map_values(|entry: ListedPlayer| entry@) =~= listed_entries(
                document@,
            ));
        },
    }
    entries
}

/// Searches the record `log` for an answer to a `listd` query, and files the
/// players that it lists in the directory.
pub fn handle_listd_log(log: &str, cache: &mut PlayerCache)
    ensures
        final(cache)@ == directory_after(old(cache)@, log@),
{
    match text_after(log, LIST_MARKER) {
        Some(log_after_prefix) => {
            let command = member_text(log_after_prefix, "command");
            let entries = read_entries(log_after_prefix);
            record_listing(cache, &command, &entries);
        },
        None => {},
    }
}

} // verus!
