use claudima::peer::find_mentioned_peers;
use claudima::signals::{generate_scan_message, ScanMode, Signal, SignalStatus, SignalsStore};

#[test]
fn test_find_mentioned_peers() {
    let peers = vec!["clauscout_bot".to_string(), "clauoracle_bot".to_string()];

    let mentions = find_mentioned_peers("Hey @clauscout_bot check this", &peers);
    assert_eq!(mentions, vec!["clauscout_bot"]);

    let mentions = find_mentioned_peers("@clauscout_bot @clauoracle_bot discuss", &peers);
    assert_eq!(mentions.len(), 2);

    let mentions = find_mentioned_peers("No mentions here", &peers);
    assert!(mentions.is_empty());

    let mentions = find_mentioned_peers("Hey @ClauScout_Bot", &peers);
    assert_eq!(mentions, vec!["clauscout_bot"]);
}

#[test]
fn test_scan_mode_rotation() {
    let mut mode = ScanMode::Discover;
    assert_eq!(mode.next(), ScanMode::DeepDive);
    mode = mode.next();
    assert_eq!(mode.next(), ScanMode::Validate);
}

#[test]
fn mentions_keep_the_order_of_the_peer_list() {
    let peers = vec!["b_bot".to_string(), "a_bot".to_string(), "C_Bot".to_string()];
    assert_eq!(
        find_mentioned_peers("@a_bot then @c_bot then @B_BOT", &peers),
        vec!["b_bot", "a_bot", "C_Bot"]
    );
    assert!(find_mentioned_peers("a_bot without the sign", &peers).is_empty());
    assert!(find_mentioned_peers("", &peers).is_empty());
    assert!(find_mentioned_peers("@a_bot", &vec![]).is_empty());
}

#[test]
fn the_mode_ring_has_five_modes() {
    let ring = [
        ScanMode::Discover,
        ScanMode::DeepDive,
        ScanMode::Validate,
        ScanMode::Plan,
        ScanMode::FollowUp,
    ];
    for (i, mode) in ring.iter().enumerate() {
        assert_eq!(mode.next(), ring[(i + 1) % 5]);
    }
    assert_eq!(ScanMode::DeepDive.label(), "DEEP_DIVE");
    assert_eq!(ScanMode::FollowUp.label(), "FOLLOW_UP");
    assert!(ScanMode::Discover.instructions().contains("DISCOVER MODE"));
    assert!(ScanMode::Plan.instructions().contains("PLAN MODE"));
}

fn signal(id: &str, title: &str, status: SignalStatus, notes: &str, tags: &[&str]) -> Signal {
    Signal {
        id: id.to_string(),
        title: title.to_string(),
        status,
        notes: notes.to_string(),
        detected_at: "2024-01-01T00:00:00Z".to_string(),
        updated_at: "2024-01-02T00:00:00Z".to_string(),
        tags: tags.iter().map(|t| t.to_string()).collect(),
    }
}

fn store(signals: Vec<Signal>) -> SignalsStore {
    let mut s = SignalsStore::initial();
    s.signals = signals;
    s
}

#[test]
fn focus_topics_are_used_in_turn_and_wrap_around() {
    let mut s = SignalsStore::initial();
    assert_eq!(s.focus_topics.len(), 5);
    assert_eq!(s.get_and_advance_focus(), Some("AI agents and automation".to_string()));
    assert_eq!(s.get_and_advance_focus(), Some("Developer tools and APIs".to_string()));
    s.focus_index = 4;
    assert_eq!(s.get_and_advance_focus(), Some("Content and media tools".to_string()));
    assert_eq!(s.focus_index, 0);

    s.focus_topics.clear();
    assert_eq!(s.get_and_advance_focus(), None);
    assert_eq!(s.focus_index, 0);
}

#[test]
fn modes_advance_from_discovery() {
    let mut s = SignalsStore::initial();
    s.current_mode = None;
    assert_eq!(s.get_and_advance_mode(), ScanMode::Discover);
    assert_eq!(s.current_mode, Some(ScanMode::DeepDive));
    assert_eq!(s.get_and_advance_mode(), ScanMode::DeepDive);
    assert_eq!(s.current_mode, Some(ScanMode::Validate));
}

#[test]
fn signals_are_selected_by_status() {
    let s = store(vec![
        signal("a", "A", SignalStatus::Detected, "", &[]),
        signal("b", "B", SignalStatus::Dropped, "", &[]),
        signal("c", "C", SignalStatus::Detected, "", &[]),
        signal("d", "D", SignalStatus::Shipped, "", &[]),
        signal("e", "E", SignalStatus::Building, "", &[]),
    ]);
    let detected: Vec<&str> = s.by_status(SignalStatus::Detected).iter().map(|x| x.id.as_str()).collect();
    assert_eq!(detected, vec!["a", "c"]);
    assert!(s.by_status(SignalStatus::Validated).is_empty());
    let active: Vec<&str> = s.active().iter().map(|x| x.id.as_str()).collect();
    assert_eq!(active, vec!["a", "c", "e"]);
}

#[test]
fn prompt_lists_the_active_signals() {
    assert_eq!(
        store(vec![]).format_for_prompt(),
        "No signals being tracked yet. Start by discovering new opportunities!"
    );
    assert_eq!(
        store(vec![signal("x", "X", SignalStatus::Dropped, "n", &[])]).format_for_prompt(),
        "No signals being tracked yet. Start by discovering new opportunities!"
    );
    let s = store(vec![
        signal("sig_1", "First", SignalStatus::Researching, "one\r\ntwo\nthree\nfour", &["ai", "tools"]),
        signal("sig_2", "Gone", SignalStatus::Shipped, "n", &[]),
        signal("sig_3", "Third", SignalStatus::Actionable, "", &[]),
    ]);
    assert_eq!(
        s.format_for_prompt(),
        "## Currently Tracked Signals\n\n### First [RESEARCHING]\n**ID:** sig_1\n**Tags:** ai, tools\n**Notes:** one two three\n\n### Third [ACTIONABLE]\n**ID:** sig_3\n**Tags:** none\n**Notes:** \n\n"
    );
}

#[test]
fn scan_message_rotates_mode_and_focus() {
    let mut s = SignalsStore::initial();
    let first = generate_scan_message(&mut s);
    assert!(first.starts_with("[SCAN] Scheduled research scan.\n\n## Current Mode: DISCOVER\n\n"));
    assert!(first.contains("\n\n🎯 **Focus topic this scan:** AI agents and automation\n\n\n---\n\nNo signals being tracked yet."));
    assert!(first.ends_with("Share your findings with @peer_bot after researching."));
    assert_eq!(s.current_mode, Some(ScanMode::DeepDive));
    assert_eq!(s.focus_index, 1);

    let second = generate_scan_message(&mut s);
    assert!(second.contains("## Current Mode: DEEP_DIVE"));
    assert!(!second.contains("Focus topic"));
    assert!(second.contains("Update the signal notes with your findings.\n\n\n---\n\n"));
    assert_eq!(s.current_mode, Some(ScanMode::Validate));
    assert_eq!(s.focus_index, 2);
}

fn peer_message(message_id: i64, timestamp: &str) -> claudima::peer::PeerMessage {
    claudima::peer::PeerMessage {
        message_id,
        chat_id: -1,
        from_bot: "scout".to_string(),
        to_bot: "oracle".to_string(),
        text: format!("message {message_id}"),
        timestamp: timestamp.to_string(),
        reply_to_message_id: None,
    }
}

#[test]
fn peer_messages_are_arranged_by_time() {
    let received = vec![
        peer_message(1, "2024-01-15 10:31"),
        peer_message(2, "2024-01-15 10:30"),
        peer_message(3, "2024-01-15 10:31"),
        peer_message(4, "2024-01-14 23:59"),
        peer_message(5, "2024-01-15 10:30"),
    ];
    let ids: Vec<i64> = claudima::peer::by_time(&received).iter().map(|m| m.message_id).collect();
    assert_eq!(ids, vec![4, 2, 5, 1, 3]);
    let arranged = claudima::peer::by_time(&received);
    assert_eq!(arranged[0].text, "message 4");
    assert_eq!(arranged[0].timestamp, "2024-01-14 23:59");
    assert!(claudima::peer::by_time(&vec![]).is_empty());
}

#[test]
fn positions_are_arranged_by_their_keys() {
    let keys: Vec<Vec<char>> =
        ["b", "a", "", "ab", "a", "B", "é"].iter().map(|s| s.chars().collect()).collect();
    assert_eq!(claudima::order::text_order(&keys), vec![2, 5, 1, 4, 3, 0, 6]);
    assert_eq!(claudima::order::text_order(&vec![]), Vec::<usize>::new());
    assert_eq!(claudima::order::instant_order(&vec![5, -1, 5, 0, i64::MIN, i64::MAX]), vec![4, 1, 3, 0, 2, 5]);

    let mut expected: Vec<String> = keys.iter().map(|k| k.iter().collect()).collect();
    expected.sort();
    let arranged: Vec<String> = claudima::order::text_order(&keys)
        .into_iter()
        .map(|at| keys[at].iter().collect())
        .collect();
    assert_eq!(arranged, expected);
}
