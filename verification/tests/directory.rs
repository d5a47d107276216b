use bds_enhancer::action::GetPlayerPayload;
use bds_enhancer::codec::{handle_listd_log, record_listing, ListedPlayer};
use bds_enhancer::player::{PlayerCache, PlayerInfo};

fn info(name: &str, device_id: &str, xuid: &str) -> PlayerInfo {
    PlayerInfo { name: name.to_string(), device_id: device_id.to_string(), xuid: xuid.to_string() }
}

#[test]
fn new_directory_knows_nobody() {
    let cache = PlayerCache::new();
    assert_eq!(cache.lookup("Alice"), None);
    assert_eq!(cache.lookup(""), None);
}

#[test]
fn lookup_returns_what_was_added() {
    let mut cache = PlayerCache::new();
    cache.add_player("Alice", "device-1", "1001");
    assert_eq!(cache.lookup("Alice"), Some(&info("Alice", "device-1", "1001")));
    let wanted = GetPlayerPayload { name: "Alice".to_string() };
    assert_eq!(cache.get_player_info(&wanted), Some(&info("Alice", "device-1", "1001")));
}

#[test]
fn second_entry_for_a_name_replaces_the_first() {
    let mut cache = PlayerCache::new();
    cache.add_player("Alice", "device-1", "1001");
    cache.add_player("Alice", "device-2", "2002");
    assert_eq!(cache.lookup("Alice"), Some(&info("Alice", "device-2", "2002")));
}

#[test]
fn lookup_is_exact_and_case_sensitive() {
    let mut cache = PlayerCache::new();
    cache.add_player("Alice", "device-1", "1001");
    assert_eq!(cache.lookup("alice"), None);
    assert_eq!(cache.lookup("Alice "), None);
    assert_eq!(cache.lookup("Alic"), None);
}

#[test]
fn entries_do_not_disturb_each_other() {
    let mut cache = PlayerCache::new();
    cache.add_player("Alice", "device-1", "1001");
    cache.add_player("Bob", "device-2", "2002");
    assert_eq!(cache.lookup("Alice"), Some(&info("Alice", "device-1", "1001")));
    assert_eq!(cache.lookup("Bob"), Some(&info("Bob", "device-2", "2002")));
}

#[test]
fn listd_answer_with_two_players_gives_two_entries() {
    let mut cache = PlayerCache::new();
    let log = "[2024-05-01 10:00:00:000 INFO] *###{\"command\":\"listd\",\"result\":[\
        {\"name\":\"Alice\",\"deviceSessionId\":\"d-1\",\"xuid\":\"1001\"},\
        {\"name\":\"Bob\",\"deviceSessionId\":\"d-2\",\"xuid\":\"2002\"}]}";
    handle_listd_log(log, &mut cache);
    assert_eq!(cache.lookup("Alice"), Some(&info("Alice", "d-1", "1001")));
    assert_eq!(cache.lookup("Bob"), Some(&info("Bob", "d-2", "2002")));
    assert_eq!(cache.lookup("Carol"), None);
}

#[test]
fn listd_entry_without_a_field_gets_the_empty_text() {
    let mut cache = PlayerCache::new();
    let log = "*### {\"command\":\"listd\",\"result\":[{\"name\":\"Alice\",\"xuid\":7},{\"xuid\":\"9\"}]}";
    handle_listd_log(log, &mut cache);
    assert_eq!(cache.lookup("Alice"), Some(&info("Alice", "", "")));
    assert_eq!(cache.lookup(""), Some(&info("", "", "9")));
}

#[test]
fn listd_answer_refreshes_an_entry() {
    let mut cache = PlayerCache::new();
    cache.add_player("Alice", "old", "1");
    handle_listd_log(
        "*###{\"command\":\"listd\",\"result\":[{\"name\":\"Alice\",\"deviceSessionId\":\"new\",\"xuid\":\"2\"}]}",
        &mut cache,
    );
    assert_eq!(cache.lookup("Alice"), Some(&info("Alice", "new", "2")));
}

#[test]
fn other_answers_leave_the_directory_alone() {
    let mut cache = PlayerCache::new();
    handle_listd_log("*###{\"command\":\"list\",\"result\":[{\"name\":\"Alice\"}]}", &mut cache);
    handle_listd_log("*###{\"result\":[{\"name\":\"Alice\"}]}", &mut cache);
    handle_listd_log("*###not json", &mut cache);
    handle_listd_log("{\"command\":\"listd\",\"result\":[{\"name\":\"Alice\"}]}", &mut cache);
    handle_listd_log("*###{\"command\":\"listd\",\"result\":[{\"name\":\"Alice\"}]}*###", &mut cache);
    assert_eq!(cache.lookup("Alice"), None);
}

#[test]
fn listd_answer_without_an_array_lists_nobody() {
    let mut cache = PlayerCache::new();
    cache.add_player("Alice", "d", "1");
    handle_listd_log("*###{\"command\":\"listd\",\"result\":\"none\"}", &mut cache);
    handle_listd_log("*###{\"command\":\"listd\"}", &mut cache);
    assert_eq!(cache.lookup("Alice"), Some(&info("Alice", "d", "1")));
}

#[test]
fn only_the_first_marker_counts() {
    let mut cache = PlayerCache::new();
    handle_listd_log(
        "x*###{\"command\":\"listd\",\"result\":[{\"name\":\"*###\",\"xuid\":\"5\"}]}",
        &mut cache,
    );
    assert_eq!(cache.lookup("*###"), Some(&info("*###", "", "5")));
}

#[test]
fn listing_is_filed_in_order() {
    let mut cache = PlayerCache::new();
    let entries = vec![
        ListedPlayer {
            name: Some("Alice".to_string()),
            device_session_id: Some("first".to_string()),
            xuid: None,
        },
        ListedPlayer {
            name: Some("Alice".to_string()),
            device_session_id: None,
            xuid: Some("second".to_string()),
        },
    ];
    record_listing(&mut cache, &Some("listd".to_string()), &entries);
    assert_eq!(cache.lookup("Alice"), Some(&info("Alice", "", "second")));
}

#[test]
fn listing_of_another_command_is_ignored() {
    let mut cache = PlayerCache::new();
    let entries = vec![ListedPlayer { name: Some("Alice".to_string()), device_session_id: None, xuid: None }];
    record_listing(&mut cache, &Some("list".to_string()), &entries);
    record_listing(&mut cache, &None, &entries);
    assert_eq!(cache.lookup("Alice"), None);
}
