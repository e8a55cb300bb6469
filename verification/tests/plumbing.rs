use claudima::bridge::{launch_arguments, read_session_id, OUTPUT_SCHEMA};
use claudima::claude::{api_failure, first_text, Error, Model, Role};
use claudima::config::{Config, ConfigFile};
use claudima::engine::{
    batch_payload, default_reply_to, first_image_of, format_messages, requesting_user,
    restoration_payload, ChatbotConfig, PendingBatch, TrustedUser,
};
use claudima::import::{
    import_first_name, parse_timestamp, parse_user_id, TextContent, TextEntity,
};
use claudima::intake::{
    chatbot_config, display_name, media_type_of, membership_change, parse_args, pick_largest,
    route_message, system_message, takes_edit, takes_post, Carries, ChatKind, ChatStatus,
    MemberEvent, Route,
};
use claudima::logbook::{clip, log_message, record_field, Level, LogBuffer, LogMessage};
use claudima::media::truncate;
use claudima::message::ChatMessage;
use claudima::peer::{is_for, message_file_name};
use claudima::prompt::system_prompt;
use claudima::signals::{SignalStatus, SignalsStore};
use claudima::tools::get_tool_definitions;
use std::collections::HashMap;

fn msg(id: i64, chat_id: i64, user_id: i64, username: &str, text: &str) -> ChatMessage {
    ChatMessage {
        message_id: id,
        chat_id,
        user_id,
        username: username.to_string(),
        timestamp: "10:00".to_string(),
        text: text.to_string(),
        reply_to: None,
        image: None,
        voice_transcription: None,
        documents: vec![],
    }
}

const NOTHING: Carries = Carries { text: false, image: false, voice: false, document: false };
const TEXT: Carries = Carries { text: true, image: false, voice: false, document: false };

#[test]
fn messages_are_routed_by_chat_and_sender() {
    assert_eq!(route_message(ChatKind::Private, false, true, false, true, TEXT), Route::Ignore);
    assert_eq!(route_message(ChatKind::Private, true, true, false, false, NOTHING), Route::Direct);
    assert_eq!(route_message(ChatKind::Private, true, false, false, true, TEXT), Route::Deny { notify: true });
    assert_eq!(route_message(ChatKind::Private, true, false, true, true, TEXT), Route::Deny { notify: false });
    assert_eq!(route_message(ChatKind::Group, true, false, false, true, TEXT), Route::Moderate);
    assert_eq!(route_message(ChatKind::Group, true, true, false, false, TEXT), Route::Ignore);
    assert_eq!(route_message(ChatKind::Group, true, true, false, true, NOTHING), Route::Ignore);
    for carries in [
        Carries { image: true, ..NOTHING },
        Carries { voice: true, ..NOTHING },
        Carries { document: true, ..NOTHING },
    ] {
        assert_eq!(route_message(ChatKind::Group, true, false, false, true, carries), Route::Moderate);
    }
    assert_eq!(route_message(ChatKind::Other, true, true, false, true, TEXT), Route::Ignore);

    assert!(takes_post(true, true, false));
    assert!(takes_post(true, false, true));
    assert!(!takes_post(true, false, false));
    assert!(!takes_post(false, true, true));
    assert!(takes_edit(ChatKind::Group, true, true));
    assert!(!takes_edit(ChatKind::Private, true, true));
    assert!(!takes_edit(ChatKind::Group, false, true));
    assert!(!takes_edit(ChatKind::Group, true, false));
}

#[test]
fn status_changes_become_member_events() {
    for new in [ChatStatus::Owner, ChatStatus::Administrator, ChatStatus::Member] {
        assert_eq!(membership_change(ChatStatus::Left, new), Some(MemberEvent::Joined));
        assert_eq!(membership_change(ChatStatus::Banned, new), Some(MemberEvent::Joined));
        assert_eq!(membership_change(ChatStatus::Member, new), None);
        assert_eq!(membership_change(ChatStatus::Restricted, new), None);
    }
    for old in [ChatStatus::Owner, ChatStatus::Administrator, ChatStatus::Member, ChatStatus::Restricted, ChatStatus::Left, ChatStatus::Banned] {
        assert_eq!(membership_change(old, ChatStatus::Left), Some(MemberEvent::Left));
        assert_eq!(membership_change(old, ChatStatus::Banned), Some(MemberEvent::Banned));
        assert_eq!(membership_change(old, ChatStatus::Restricted), None);
    }
}

#[test]
fn senders_photos_and_media_types() {
    assert_eq!(display_name(Some("ann"), Some("Ann")), "ann");
    assert_eq!(display_name(None, Some("Ann")), "Ann");
    assert_eq!(display_name(None, None), "unknown");

    assert_eq!(media_type_of("photos/file_1.jpg"), "image/jpeg");
    assert_eq!(media_type_of("photos/file_1.jpeg"), "image/jpeg");
    assert_eq!(media_type_of("photos/file_1.png"), "image/png");
    assert_eq!(media_type_of("photos/file_1.webp"), "image/webp");
    assert_eq!(media_type_of("photos/file_1.gif"), "image/jpeg");
    assert_eq!(media_type_of("png"), "image/jpeg");
    assert_eq!(media_type_of(""), "image/jpeg");

    assert_eq!(pick_largest(&vec![]), None);
    assert_eq!(pick_largest(&vec![(1, 1)]), Some(0));
    assert_eq!(pick_largest(&vec![(90, 90), (320, 320), (800, 800)]), Some(2));
    assert_eq!(pick_largest(&vec![(800, 800), (90, 90)]), Some(0));
    assert_eq!(pick_largest(&vec![(4, 4), (2, 8), (8, 2), (1, 1)]), Some(2));
    assert_eq!(pick_largest(&vec![(u32::MAX, u32::MAX), (u32::MAX, u32::MAX - 1)]), Some(0));
}

fn args(list: &[&str]) -> Vec<String> {
    list.iter().map(|s| s.to_string()).collect()
}

#[test]
fn the_command_line_names_the_configuration() {
    let inv = parse_args(&args(&["bot"])).unwrap();
    assert_eq!(inv.config_path, "claudima.json");
    assert_eq!(inv.system_message, None);
    assert!(inv.unknown.is_empty());

    let inv = parse_args(&args(&["bot", "my.json", "--message", "hello there", "-x", "other.json"])).unwrap();
    assert_eq!(inv.config_path, "other.json");
    assert_eq!(inv.system_message, Some("hello there".to_string()));
    assert_eq!(inv.unknown, vec!["-x"]);

    let inv = parse_args(&args(&["bot", "-m", "-m", "-m", "last"])).unwrap();
    assert_eq!(inv.system_message, Some("last".to_string()));
    assert_eq!(inv.config_path, "claudima.json");

    assert_eq!(
        parse_args(&args(&["bot", "c.json", "--message"])).unwrap_err(),
        "Error: --message requires an argument"
    );
    assert_eq!(parse_args(&args(&["bot", "-m"])).unwrap_err(), "Error: --message requires an argument");
    assert_eq!(parse_args(&vec![]).unwrap().config_path, "claudima.json");
    assert_eq!(parse_args(&args(&["bot", ""])).unwrap().config_path, "");
}

fn config() -> Config {
    let file = ConfigFile {
        owner_ids: vec![11, 12],
        trusted_dm_users: vec![5],
        peer_bots: vec!["Scout".to_string()],
        telegram_bot_token: "1:x".to_string(),
        openrouter_api_key: String::new(),
        gemini_api_key: String::new(),
        allowed_groups: vec![-100],
        primary_chat_id: None,
        trusted_channels: vec![],
        spam_patterns: vec![],
        safe_patterns: vec![],
        max_strikes: 3,
        dry_run: false,
        log_chat_id: None,
        data_dir: Some("data".to_string()),
        whisper_model_path: None,
        tts_endpoint: Some("http://tts".to_string()),
        personality: None,
        scan_interval_minutes: 15,
    };
    match Config::load("c.json", file) {
        Ok(c) => c,
        Err(e) => panic!("{}", e.describe()),
    }
}

#[test]
fn the_chatbot_is_configured_from_the_bot() {
    let c = config();
    let mut trusted = HashMap::new();
    trusted.insert(5, Some("five".to_string()));
    let chatbot = chatbot_config(&c, 999, Some("the_bot".to_string()), Some("boss".to_string()), trusted);
    assert_eq!(chatbot.primary_chat_id, -100);
    assert_eq!(chatbot.bot_user_id, 999);
    assert_eq!(chatbot.bot_username, Some("the_bot".to_string()));
    let owner = chatbot.owner.unwrap();
    assert_eq!(owner.id, 11);
    assert_eq!(owner.username, Some("boss".to_string()));
    assert_eq!(chatbot.trusted_dm_users.get(&5), Some(&Some("five".to_string())));
    assert_eq!(chatbot.config_path, Some("c.json".to_string()));
    assert_eq!(chatbot.debounce_ms, 1000);
    assert_eq!(chatbot.data_dir, Some("data".to_string()));
    assert_eq!(chatbot.gemini_api_key, None);
    assert_eq!(chatbot.tts_endpoint, Some("http://tts".to_string()));
    assert_eq!(chatbot.scan_interval_minutes, 15);
    assert_eq!(chatbot.peer_bots, vec!["scout"]);

    let standard = ChatbotConfig::default();
    assert_eq!(standard.debounce_ms, 1000);
    assert!(standard.owner.is_none());
    assert!(standard.trusted_dm_users.is_empty());

    let note = system_message("restarted".to_string(), "2024-01-15 10:00".to_string());
    assert_eq!(
        note.format(),
        "<msg id=\"0\" chat=\"0\" user=\"0\" name=\"system\" time=\"2024-01-15 10:00\">restarted</msg>"
    );
}

#[test]
fn batches_are_presented_with_their_first_image() {
    let mut pending = PendingBatch::new();
    assert_eq!(pending.len(), 0);
    assert!(pending.take().is_empty());
    pending.push(msg(1, -5, 100, "ann", "one"));
    pending.push(msg(2, -5, 0, "system", "two"));
    assert_eq!(pending.len(), 2);
    let mut batch = pending.take();
    assert_eq!(pending.len(), 0);
    assert_eq!(batch.len(), 2);
    assert_eq!(batch[0].text, "one");

    assert_eq!(
        format_messages(&batch),
        "New messages:\n\n<msg id=\"1\" chat=\"-5\" user=\"100\" name=\"ann\" time=\"10:00\">one</msg>\n<msg id=\"2\" chat=\"-5\" user=\"0\" name=\"system\" time=\"10:00\">two</msg>\n"
    );
    assert_eq!(format_messages(&vec![]), "New messages:\n\n");
    assert_eq!(batch_payload(&batch), format_messages(&batch));
    assert_eq!(first_image_of(&batch), None);
    assert_eq!(default_reply_to(&batch), Some((2, -5)));
    assert_eq!(requesting_user(&batch), Some((100, -5)));
    assert_eq!(default_reply_to(&vec![]), None);
    assert_eq!(requesting_user(&vec![]), None);
    assert_eq!(requesting_user(&vec![msg(2, 0, 0, "system", "scan")]), None);

    batch.push(msg(3, -6, 101, "bob", "three"));
    batch[1].image = Some((vec![1], "image/png".to_string()));
    batch[2].image = Some((vec![2], "image/jpeg".to_string()));
    assert_eq!(first_image_of(&batch), Some(1));
    assert_eq!(
        batch_payload(&batch),
        format!("{}\n\nImage from system (msg 2):", format_messages(&batch))
    );
    assert_eq!(default_reply_to(&batch), Some((3, -6)));
    assert_eq!(requesting_user(&batch), Some((101, -6)));
}

#[test]
fn the_restoration_carries_memory_and_recent_messages() {
    let recent = vec![msg(1, -5, 100, "ann", "one"), msg(2, -5, 101, "bob", "two")];
    assert_eq!(
        restoration_payload(Some("notes"), &recent),
        "Context was compacted.\n\n## Your Persistent Memory (memories/README.md)\n\nnotes\n\n## Recent Messages (2 messages)\n\n<msg id=\"1\" chat=\"-5\" user=\"100\" name=\"ann\" time=\"10:00\">one</msg>\n<msg id=\"2\" chat=\"-5\" user=\"101\" name=\"bob\" time=\"10:00\">two</msg>"
    );
    assert_eq!(
        restoration_payload(None, &recent[..1].to_vec()),
        "Context was compacted.\n\n## Recent Messages (1 messages)\n\n<msg id=\"1\" chat=\"-5\" user=\"100\" name=\"ann\" time=\"10:00\">one</msg>"
    );
    assert_eq!(
        restoration_payload(Some("notes"), &vec![]),
        "Context was compacted.\n\n## Your Persistent Memory (memories/README.md)\n\nnotes\n\n"
    );
    assert_eq!(restoration_payload(None, &vec![]), "Context was compacted.\n\n");
}

#[test]
fn the_child_is_launched_without_tools_of_its_own() {
    assert_eq!(
        launch_arguments("{}", None),
        vec![
            "--print", "--input-format", "stream-json", "--output-format", "stream-json",
            "--verbose", "--model", "opus", "--tools", "", "--json-schema", "{}",
        ]
    );
    let resumed = launch_arguments("{}", Some("abc"));
    assert_eq!(resumed.len(), 14);
    assert_eq!(&resumed[12..], ["--resume", "abc"]);
    assert!(OUTPUT_SCHEMA.contains("\"tool_calls\""));
    assert!(OUTPUT_SCHEMA.contains("\"reminder_id\": { \"type\": \"integer\" }"));
    assert!(OUTPUT_SCHEMA.contains("\"required\": [\"tool\"]"));

    assert_eq!(read_session_id("  abc-123\n"), Some("abc-123".to_string()));
    assert_eq!(read_session_id(" \n\t"), None);
    assert_eq!(read_session_id(""), None);
}

#[test]
fn the_prompt_names_the_bot_its_users_and_its_tools() {
    let mut c = ChatbotConfig::default();
    let tools = get_tool_definitions();
    let bare = system_prompt(&c, None, "2024-01-15 10:00:00", &vec![], &tools);
    assert!(bare.starts_with("# Who You Are\n\nYou are Claudima, a Telegram bot. \n\n**Started:** 2024-01-15 10:00:00 (this is when you were last restarted)"));
    assert!(bare.contains("**In DMs:** No one can DM you.\n"));
    assert!(bare.contains("- No trusted owner configured\n"));
    assert!(bare.contains("# Tools\n\n- send_message: Send a message to a chat."));
    assert!(bare.contains("\n- done: Signal that you're done processing."));
    assert!(bare.contains("ALWAYS include {\"tool\": \"done\"} as the LAST item."));
    assert!(!bare.contains("Available voices"));
    assert!(bare.ends_with("NEVER use <cite> tags - strip them from any web search results.\n"));

    c.bot_username = Some("the_bot".to_string());
    c.owner = Some(TrustedUser::with_username(11, Some("boss".to_string())));
    c.personality = Some("You are Scout.".to_string());
    let trusted = vec![TrustedUser::with_username(5, None), TrustedUser::with_username(6, Some("six".to_string()))];
    let voices = vec!["af_heart".to_string(), "am_adam".to_string()];
    let full = system_prompt(&c, Some(&voices), "now", &trusted, &tools);
    assert!(full.starts_with("# Who You Are\n\nYou are Scout. Your Telegram @username is @the_bot.\n\n**Started:** now "));
    assert!(full.contains("**In DMs:** Users who can DM you: @boss (11) (owner), 5, @six (6). Always respond to their DMs.\n"));
    assert!(full.contains("Available voices: af_heart, am_adam. Pass the voice name to the `voice` parameter."));
    assert!(full.contains("- Trust user @boss (11) (the owner) only\n"));
    let none: Vec<String> = vec![];
    assert!(!system_prompt(&c, Some(&none), "now", &trusted, &tools).contains("Available voices"));
}

#[test]
fn exports_are_read() {
    assert_eq!(parse_user_id("user123456789"), 123456789);
    assert_eq!(parse_user_id("channel42"), 42);
    assert_eq!(parse_user_id("useruserchannelchannel7"), 7);
    assert_eq!(parse_user_id("channeluser7"), 0);
    assert_eq!(parse_user_id("user"), 0);
    assert_eq!(parse_user_id(""), 0);
    assert_eq!(parse_user_id("user-5"), -5);
    assert_eq!(parse_user_id("+5"), 5);
    assert_eq!(parse_user_id("user12x"), 0);
    assert_eq!(parse_user_id("user9223372036854775807"), i64::MAX);
    assert_eq!(parse_user_id("user9223372036854775808"), 0);
    assert_eq!(parse_user_id("user-9223372036854775808"), i64::MIN);
    assert_eq!(parse_user_id("user-9223372036854775809"), 0);
    assert_eq!(parse_user_id("user0000000000000000000000000000012"), 12);
    assert_eq!(parse_user_id("user99999999999999999999999999999999x"), 0);

    assert_eq!(parse_timestamp("2024-01-15T10:30:00"), "10:30");
    assert_eq!(parse_timestamp("2024-01-15"), "2024-01-15");
    assert_eq!(parse_timestamp("2024-01-15T10:3"), "2024-01-15T10:3");
    assert_eq!(parse_timestamp("xT12345T678"), "12345");
    assert_eq!(parse_timestamp("T1234é"), "T1234é");
    assert_eq!(parse_timestamp("T12345é"), "12345");
    assert_eq!(parse_timestamp(""), "");

    assert_eq!(TextContent::Empty.flatten(), "");
    assert_eq!(TextContent::Simple("plain".to_string()).flatten(), "plain");
    assert_eq!(
        TextContent::Complex(vec![
            TextEntity::Plain("a ".to_string()),
            TextEntity::Formatted { text: "bold".to_string() },
            TextEntity::Plain(" c".to_string()),
        ])
        .flatten(),
        "a bold c"
    );
    assert_eq!(import_first_name(7, Some("ann"), Some("Ann")), "Ann");
    assert_eq!(import_first_name(7, Some("ann"), None), "ann");
    assert_eq!(import_first_name(-7, None, None), "User-7");
}

#[test]
fn the_log_is_mirrored_in_batches() {
    assert!(matches!(log_message(Level::Error, "boom".to_string()), Some(LogMessage::Urgent(t)) if t == "❌ boom"));
    assert!(matches!(log_message(Level::Warn, "hm".to_string()), Some(LogMessage::Urgent(t)) if t == "⚠️ hm"));
    assert!(matches!(log_message(Level::Info, "ok".to_string()), Some(LogMessage::Info(t)) if t == "ok"));
    assert!(log_message(Level::Debug, "x".to_string()).is_none());
    assert!(log_message(Level::Trace, "x".to_string()).is_none());

    assert_eq!(clip("short"), "short");
    assert_eq!(clip(&"a".repeat(4000)), "a".repeat(4000));
    assert_eq!(clip(&"a".repeat(4001)), format!("{}...", "a".repeat(4000)));
    assert_eq!(clip(&"é".repeat(2001)), format!("{}...", "é".repeat(2001)));
    assert_eq!(clip(&"é".repeat(4001)), format!("{}...", "é".repeat(4000)));

    let mut buffer = LogBuffer::new();
    assert_eq!(buffer.flush(), None);
    assert_eq!(buffer.push("one".to_string()), None);
    assert_eq!(buffer.push("two".to_string()), None);
    assert_eq!(buffer.flush(), Some("one\ntwo".to_string()));
    assert_eq!(buffer.flush(), None);
    for i in 0..49 {
        assert_eq!(buffer.push(format!("line {i}")), None);
    }
    let sent = buffer.push("last".to_string()).unwrap();
    assert!(sent.starts_with("line 0\nline 1\n"));
    assert!(sent.ends_with("line 48\nlast"));
    assert_eq!(buffer.flush(), None);

    let mut text = String::new();
    record_field(&mut text, "user", "7");
    assert_eq!(text, "user = 7");
    record_field(&mut text, "chat", "-5");
    assert_eq!(text, "user = 7, chat = -5");
    record_field(&mut text, "message", "hello");
    assert_eq!(text, "hello");
    record_field(&mut text, "extra", "1");
    assert_eq!(text, "hello, extra = 1");
}

#[test]
fn peer_files_are_addressed_by_name() {
    assert_eq!(message_file_name(1700000000123, "scout", "oracle"), "1700000000123_scout_to_oracle.json");
    assert_eq!(message_file_name(0, "", ""), "0__to_.json");
    assert!(is_for("1700000000123_scout_to_oracle.json", "oracle"));
    assert!(is_for("1700000000123_scout_to_oracle.json", "@Oracle"));
    assert!(is_for("1_a_to_Oracle.json.json", "oracle"));
    assert!(!is_for("1700000000123_scout_to_oracle.json", "scout"));
    assert!(!is_for("1700000000123_scout_to_oracle.txt", "oracle"));
    assert!(!is_for("1_a_to_b_to_oracle.json", "oracle"));
    assert!(!is_for("oracle.json", "oracle"));
    assert!(!is_for("", ""));
    assert!(is_for("1_a_to_.json", ""));
}

#[test]
fn signals_are_added_and_updated() {
    let mut store = SignalsStore::initial();
    let id = store.add_signal_at(
        "Title".to_string(),
        "notes".to_string(),
        vec!["ai".to_string()],
        "2024-01-15T10:30:00Z".to_string(),
        1705314600123,
    );
    assert_eq!(id, "sig_1705314600123");
    assert_eq!(store.signals.len(), 1);
    assert_eq!(store.signals[0].id, "sig_1705314600123");
    assert_eq!(store.signals[0].status, SignalStatus::Detected);
    assert_eq!(store.signals[0].detected_at, "2024-01-15T10:30:00Z");
    assert_eq!(store.signals[0].updated_at, "2024-01-15T10:30:00Z");

    assert!(store.update_status_at(&id, SignalStatus::Validated, "later".to_string()));
    assert_eq!(store.signals[0].status, SignalStatus::Validated);
    assert_eq!(store.signals[0].updated_at, "later");
    assert_eq!(store.signals[0].detected_at, "2024-01-15T10:30:00Z");
    assert!(store.update_notes_at(&id, "new notes".to_string(), "latest".to_string()));
    assert_eq!(store.signals[0].notes, "new notes");
    assert_eq!(store.signals[0].updated_at, "latest");
    assert!(!store.update_status_at("sig_0", SignalStatus::Dropped, "x".to_string()));
    assert!(!store.update_notes_at("sig_0", "n".to_string(), "x".to_string()));
    assert_eq!(store.signals[0].status, SignalStatus::Validated);

    let added = store.add_signal("Now".to_string(), "n".to_string(), vec![]);
    assert!(added.starts_with("sig_"));
    assert_eq!(store.signals.len(), 2);
    assert_eq!(store.signals[1].updated_at, store.signals[1].detected_at);
    assert_eq!(store.signals[1].detected_at.len(), 20);
    assert!(store.update_status(&added, SignalStatus::Shipped));
    assert!(store.update_notes(&added, "done".to_string()));
    assert!(!store.update_status("missing", SignalStatus::Shipped));
    assert_eq!(SignalStatus::Researching.label(), "RESEARCHING");
}

#[test]
fn api_values_are_named() {
    assert_eq!(Role::User.as_str(), "user");
    assert_eq!(Role::Assistant.as_str(), "assistant");
    assert_eq!(Model::Haiku.as_str(), "haiku-4-5-20251001");
    assert_eq!(Model::Sonnet.as_str(), "sonnet-4-5-20250929");
    assert_eq!(Error::Http("refused".to_string()).describe(), "HTTP error: refused");
    assert_eq!(Error::Api("500: oops".to_string()).describe(), "API error: 500: oops");
    assert_eq!(Error::Parse("eof".to_string()).describe(), "Parse error: eof");
    assert_eq!(Error::Empty.describe(), "Empty response");
    assert_eq!(api_failure("429 Too Many Requests", "slow down").describe(), "API error: 429 Too Many Requests: slow down");
    assert_eq!(first_text(vec!["a".to_string(), "b".to_string()]).unwrap(), "a");
    assert!(matches!(first_text(vec![]), Err(Error::Empty)));
}

#[test]
fn transcriptions_are_shortened_for_the_log() {
    assert_eq!(truncate("", 0), "");
    assert_eq!(truncate("hello", 5), "hello");
    assert_eq!(truncate("héllo", 3), "hé...");
    assert_eq!(truncate("héllo", 0), "...");
}
