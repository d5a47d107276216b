use bds_enhancer::action::{Action, GetPlayerPayload};
use bds_enhancer::dispatch::{handle_action, CommandStatus};
use bds_enhancer::notify::{custom_handler, join_notification, spawn_notification};
use bds_enhancer::outgoing::{execute_command, get_player_info_and_send, send_to_scriptevent};
use bds_enhancer::player::PlayerCache;

fn notified(log: &str) -> Vec<String> {
    let mut queue = Vec::new();
    custom_handler(log, &mut queue);
    queue
}

#[test]
fn command_is_queued_with_a_line_feed() {
    let mut queue = vec!["first\n".to_string()];
    execute_command(&mut queue, "say hello".to_string());
    execute_command(&mut queue, String::new());
    assert_eq!(queue, vec!["first\n", "say hello\n", "\n"]);
}

#[test]
fn join_is_announced_with_name_and_xuid() {
    assert_eq!(
        notified("Player connected: Alice, xuid: 123"),
        vec!["scriptevent system:on_join Alice|123\n"]
    );
}

#[test]
fn join_is_found_inside_a_record() {
    assert_eq!(
        notified("[2024-05-01 10:00:00:000 INFO] Player connected: Big Bob, xuid: 2535400000000000"),
        vec!["scriptevent system:on_join Big Bob|2535400000000000\n"]
    );
}

#[test]
fn spawn_is_announced_with_name_xuid_and_profile() {
    assert_eq!(
        notified("[2024-05-01 10:00:00:000 INFO] Player Spawned: Alice xuid: 123, pfid: abc-def"),
        vec!["scriptevent system:on_spawn Alice|123|abc-def\n"]
    );
}

#[test]
fn join_wins_over_spawn() {
    assert_eq!(
        notified("Player Spawned: A xuid: 1, pfid: Player connected: B, xuid: 2"),
        vec!["scriptevent system:on_join B|2\n"]
    );
}

#[test]
fn other_records_are_not_announced() {
    assert!(notified("Server started.").is_empty());
    assert!(notified("Player connected: Alice, xuid: none").is_empty());
    assert!(notified("Player disconnected: Alice, xuid: 123").is_empty());
    assert!(notified("").is_empty());
}

#[test]
fn notification_needs_every_group() {
    let found = Some(vec![Some("whole".to_string()), Some("Alice".to_string()), Some("7".to_string())]);
    assert_eq!(join_notification(&found), Some("scriptevent system:on_join Alice|7".to_string()));
    assert_eq!(spawn_notification(&found), None);
    let spawned = Some(vec![
        Some("whole".to_string()),
        Some("Alice".to_string()),
        Some("7".to_string()),
        Some("p".to_string()),
    ]);
    assert_eq!(
        spawn_notification(&spawned),
        Some("scriptevent system:on_spawn Alice|7|p".to_string())
    );
    let partial = Some(vec![Some("whole".to_string()), None, Some("7".to_string())]);
    assert_eq!(join_notification(&partial), None);
    assert_eq!(join_notification(&None), None);
    assert_eq!(spawn_notification(&None), None);
}

#[test]
fn player_description_is_a_json_object() {
    let mut queue = Vec::new();
    send_to_scriptevent("Alice", "123", "dev-1", &mut queue);
    assert_eq!(
        queue,
        vec!["scriptevent system:playerinfo {\"deviceId\":\"dev-1\",\"name\":\"Alice\",\"xuid\":\"123\"}\n"]
    );
}

#[test]
fn player_description_can_be_read_back() {
    let mut queue = Vec::new();
    send_to_scriptevent("Al\"ice", "1\\23", "dev\n1", &mut queue);
    assert_eq!(queue.len(), 1);
    let body = queue[0]
        .strip_prefix("scriptevent system:playerinfo ")
        .and_then(|rest| rest.strip_suffix("\n"))
        .expect("a player description");
    let read: serde_json::Value = serde_json::from_str(body).expect("a JSON object");
    assert_eq!(read.as_object().map(|object| object.len()), Some(3));
    assert_eq!(read["name"].as_str(), Some("Al\"ice"));
    assert_eq!(read["xuid"].as_str(), Some("1\\23"));
    assert_eq!(read["deviceId"].as_str(), Some("dev\n1"));
}

#[test]
fn known_player_is_described_and_stranger_is_not() {
    let mut cache = PlayerCache::new();
    cache.add_player("Alice", "dev", "123");
    let mut queue = Vec::new();
    assert!(get_player_info_and_send("Alice", &cache, &mut queue));
    assert!(!get_player_info_and_send("Bob", &cache, &mut queue));
    assert_eq!(
        queue,
        vec!["scriptevent system:playerinfo {\"deviceId\":\"dev\",\"name\":\"Alice\",\"xuid\":\"123\"}\n"]
    );
}

#[test]
fn both_ways_to_describe_a_player_agree() {
    let mut cache = PlayerCache::new();
    cache.add_player("Alice", "dev", "123");
    let mut direct = Vec::new();
    assert!(get_player_info_and_send("Alice", &cache, &mut direct));
    let mut asked = Vec::new();
    let mut status = CommandStatus::new();
    let action = Action::GetPlayer(GetPlayerPayload { name: "Alice".to_string() });
    assert_eq!(handle_action(&mut asked, action, &mut status, &cache), None);
    assert_eq!(direct, asked);
}
