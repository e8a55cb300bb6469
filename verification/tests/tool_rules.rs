use claudima::archive::{
    check_query, get_recent_by_tokens, render_rows, Cell, Member, MemberFilter, MemberStatus,
};
use claudima::bridge::{
    check_tools, format_tool_results, on_startup_frame, seed_message, session_changed,
    tool_calls_of, Handshake, OutputFrame, RawToolCall, ToolResult, TurnReader, TurnStep,
};
use claudima::context::ContextBuffer;
use claudima::engine::{
    check_owner_dm_authorization, format_trusted_user, ChatbotConfig, TrustedUser,
};
use claudima::memory::{check_memory_path, edit_once, number_lines, search_file, FilesRead};
use claudima::message::ChatMessage;
use claudima::surface::{
    audit_line, conclude_tool, feedback_record, photo_sent_text, plan_tool, reminder_missing_text,
    trusted_added_text, trusted_removed_text, Plan,
};
use claudima::tools::{get_tool_definitions, ParamKind, ToolCall};

const NOW: i64 = 1_700_000_000;

fn raw(tool: &str) -> RawToolCall {
    RawToolCall {
        tool: tool.to_string(),
        chat_id: None,
        text: None,
        reply_to_message_id: None,
        user_id: None,
        message_id: None,
        emoji: None,
        last_n: None,
        from_date: None,
        to_date: None,
        username: None,
        limit: None,
        query: None,
        duration_minutes: None,
        days_inactive: None,
        filter: None,
        file_path: None,
        caption: None,
        voice: None,
        path: None,
        content: None,
        old_string: None,
        new_string: None,
        pattern: None,
        description: None,
        severity: None,
        url: None,
        sql: None,
        message: None,
        trigger_at: None,
        repeat_cron: None,
        reminder_id: None,
    }
}

fn config() -> ChatbotConfig {
    let mut c = ChatbotConfig::default();
    c.owner = Some(TrustedUser::with_username(1, Some("boss".to_string())));
    c.data_dir = Some("data".to_string());
    c.config_path = Some("claudima.json".to_string());
    c.gemini_api_key = Some("key".to_string());
    c.tts_endpoint = Some("http://localhost:8880".to_string());
    c
}

fn plan(call: ToolCall) -> Result<Plan, String> {
    plan_with(call, &ContextBuffer::new(), &FilesRead::new(), &config(), None, None)
}

fn plan_with(
    call: ToolCall,
    context: &ContextBuffer,
    files: &FilesRead,
    config: &ChatbotConfig,
    reply: Option<(i64, i64)>,
    requester: Option<(i64, i64)>,
) -> Result<Plan, String> {
    plan_tool(call, context, files, config, reply, requester, NOW)
}

fn refusal(call: ToolCall) -> String {
    match plan(call) {
        Ok(p) => panic!("planned {p:?}"),
        Err(why) => why,
    }
}

#[test]
fn tool_definitions_are_the_vocabulary() {
    let tools = get_tool_definitions();
    assert_eq!(tools.len(), 28);
    let names: Vec<&str> = tools.iter().map(|t| t.name.as_str()).collect();
    assert_eq!(
        names,
        vec![
            "send_message", "get_user_info", "query", "add_reaction", "delete_message",
            "mute_user", "ban_user", "kick_user", "get_chat_admins", "get_members",
            "import_members", "send_photo", "send_voice", "create_memory", "read_memory",
            "edit_memory", "list_memories", "search_memories", "delete_memory", "report_bug",
            "youtube_info", "noop", "set_reminder", "list_reminders", "cancel_reminder",
            "add_trusted_user", "remove_trusted_user", "done",
        ]
    );
    let send = &tools[0];
    assert_eq!(send.parameters.len(), 3);
    assert_eq!(send.parameters[0].name, "chat_id");
    assert_eq!(send.parameters[0].kind, ParamKind::Integer);
    assert!(send.parameters[0].required);
    assert_eq!(send.parameters[1].name, "text");
    assert_eq!(send.parameters[1].kind, ParamKind::Text);
    assert!(send.parameters[1].required);
    assert_eq!(send.parameters[2].name, "reply_to_message_id");
    assert!(!send.parameters[2].required);
    assert!(tools[27].parameters.is_empty());
    assert!(tools.iter().all(|t| !t.description.is_empty()));
}

#[test]
fn every_tool_translates_exactly_when_its_required_parameters_are_there() {
    for tool in get_tool_definitions() {
        let mut full = raw(&tool.name);
        full.chat_id = Some(-5);
        full.text = Some("t".to_string());
        full.user_id = Some(7);
        full.message_id = Some(8);
        full.emoji = Some("e".to_string());
        full.duration_minutes = Some(5);
        full.file_path = Some("f".to_string());
        full.path = Some("p".to_string());
        full.content = Some("c".to_string());
        full.old_string = Some("o".to_string());
        full.new_string = Some("n".to_string());
        full.pattern = Some("x".to_string());
        full.description = Some("d".to_string());
        full.url = Some("u".to_string());
        full.sql = Some("s".to_string());
        full.message = Some("m".to_string());
        full.trigger_at = Some("+1h".to_string());
        full.reminder_id = Some(3);
        assert!(full.to_tool_call().is_some(), "{} with every field", tool.name);

        let has_required = tool.parameters.iter().any(|p| p.required);
        assert_eq!(raw(&tool.name).to_tool_call().is_some(), !has_required, "{} bare", tool.name);
    }
    assert!(raw("web_search").to_tool_call().is_none());
    assert!(raw("").to_tool_call().is_none());
    assert!(raw("Send_Message").to_tool_call().is_none());
}

#[test]
fn translation_moves_the_fields() {
    let mut r = raw("send_message");
    r.chat_id = Some(-12345);
    r.text = Some("hi!".to_string());
    assert!(matches!(
        r.to_tool_call(),
        Some(ToolCall::SendMessage { chat_id: -12345, ref text, reply_to_message_id: None }) if text == "hi!"
    ));
    r.text = None;
    assert!(r.to_tool_call().is_none());

    let mut r = raw("send_photo");
    r.chat_id = Some(1);
    r.text = Some("a cat".to_string());
    r.caption = Some("look".to_string());
    r.reply_to_message_id = Some(4);
    assert!(matches!(
        r.to_tool_call(),
        Some(ToolCall::SendPhoto { chat_id: 1, ref prompt, caption: Some(ref c), reply_to_message_id: Some(4) })
            if prompt == "a cat" && c == "look"
    ));

    let mut r = raw("mute_user");
    r.chat_id = Some(1);
    r.user_id = Some(2);
    assert!(r.to_tool_call().is_none());
    r.duration_minutes = Some(30);
    assert!(matches!(
        r.to_tool_call(),
        Some(ToolCall::MuteUser { chat_id: 1, user_id: 2, duration_minutes: 30 })
    ));

    assert!(matches!(raw("done").to_tool_call(), Some(ToolCall::Done)));
    assert!(matches!(raw("noop").to_tool_call(), Some(ToolCall::Noop)));
    assert!(ToolCall::Done.done());
    assert!(!ToolCall::Noop.done());
}

#[test]
fn dropped_intents_keep_the_positions_of_the_others() {
    let mut good = raw("cancel_reminder");
    good.reminder_id = Some(5);
    let calls = tool_calls_of(&vec![raw("unknown"), raw("done"), raw("cancel_reminder"), good]);
    let ids: Vec<&str> = calls.iter().map(|c| c.id.as_str()).collect();
    assert_eq!(ids, vec!["tool_1", "tool_3"]);
    assert!(matches!(calls[1].call, ToolCall::CancelReminder { reminder_id: 5 }));
    assert!(tool_calls_of(&vec![]).is_empty());
}

#[test]
fn the_session_opens_only_with_the_sentinel() {
    assert!(check_tools(&vec![]).is_ok());
    assert!(check_tools(&vec!["StructuredOutput".to_string()]).is_ok());
    assert_eq!(
        check_tools(&vec!["StructuredOutput".to_string(), "Bash".to_string()]),
        Err("Security violation".to_string())
    );
    let opened = on_startup_frame(OutputFrame::System {
        tools: vec!["StructuredOutput".to_string()],
        session_id: Some("abc".to_string()),
    });
    assert!(matches!(opened, Handshake::Opened { session_id: Some(ref s) } if s == "abc"));
    let refused = on_startup_frame(OutputFrame::System { tools: vec!["Write".to_string()], session_id: None });
    assert!(matches!(refused, Handshake::Refused(ref e) if e == "Security violation"));
    assert!(matches!(on_startup_frame(OutputFrame::Other), Handshake::Waiting));
    assert!(matches!(
        on_startup_frame(OutputFrame::Assistant { truncated_content_length: None }),
        Handshake::Waiting
    ));
    assert_eq!(seed_message("prompt", false), "prompt");
    assert_eq!(seed_message("prompt", true), "Session resumed. Ready for new messages.");
}

#[test]
fn session_ids_are_recorded_when_they_change() {
    let a = Some("a".to_string());
    let b = Some("b".to_string());
    assert!(session_changed(&None, &a));
    assert!(session_changed(&a, &b));
    assert!(!session_changed(&a, &a));
    assert!(!session_changed(&a, &None));
    assert!(!session_changed(&None, &None));
}

#[test]
fn a_turn_is_compacted_when_any_frame_says_so() {
    let mut reader = TurnReader::new();
    assert!(matches!(reader.on_frame(OutputFrame::Other), TurnStep::Pending));
    assert!(matches!(
        reader.on_frame(OutputFrame::Assistant { truncated_content_length: None }),
        TurnStep::Pending
    ));
    assert!(matches!(
        reader.on_frame(OutputFrame::Assistant { truncated_content_length: Some(10) }),
        TurnStep::Pending
    ));
    assert!(matches!(
        reader.on_frame(OutputFrame::System { tools: vec![], session_id: None }),
        TurnStep::Pending
    ));
    let step = reader.on_frame(OutputFrame::Result {
        tool_calls: Some(vec![raw("done")]),
        session_id: Some("s".to_string()),
    });
    match step {
        TurnStep::Complete { response, session_id } => {
            assert!(response.compacted);
            assert_eq!(response.tool_calls.len(), 1);
            assert_eq!(session_id, Some("s".to_string()));
        }
        TurnStep::Pending => panic!("the result frame ends the turn"),
    }

    let mut plain = TurnReader::new();
    match plain.on_frame(OutputFrame::Result { tool_calls: None, session_id: None }) {
        TurnStep::Complete { response, session_id } => {
            assert!(!response.compacted);
            assert!(response.tool_calls.is_empty());
            assert_eq!(session_id, None);
        }
        TurnStep::Pending => panic!("the result frame ends the turn"),
    }
}

#[test]
fn tool_results_are_listed_with_their_ids() {
    let results = vec![
        ToolResult { tool_use_id: "tool_0".to_string(), content: Some("3 row(s)".to_string()), is_error: false, image: None },
        ToolResult { tool_use_id: "tool_1".to_string(), content: Some("error: no".to_string()), is_error: true, image: None },
        ToolResult { tool_use_id: "tool_2".to_string(), content: None, is_error: false, image: None },
    ];
    assert_eq!(
        format_tool_results(&results),
        "Tool results:\n- tool_0: 3 row(s)\n- tool_1: error: no (ERROR)\n- tool_2: \n"
    );
    assert_eq!(format_tool_results(&vec![]), "Tool results:\n");
}

#[test]
fn unsafe_paths_are_refused() {
    assert_eq!(check_memory_path("users/a.md"), Ok(()));
    assert_eq!(check_memory_path("a..b"), Err("Path cannot contain '..'".to_string()));
    assert_eq!(check_memory_path("../etc/passwd"), Err("Path cannot contain '..'".to_string()));
    assert_eq!(check_memory_path("/../x"), Err("Path cannot contain '..'".to_string()));
    assert_eq!(check_memory_path("/etc/passwd"), Err("Path must be relative".to_string()));
    assert_eq!(check_memory_path("\\windows"), Err("Path must be relative".to_string()));
    assert_eq!(check_memory_path(""), Err("Path cannot be empty".to_string()));
    assert_eq!(check_memory_path("."), Ok(()));

    for path in ["..", "a/../b", "/abs", "\\abs", ""] {
        let p = path.to_string();
        for call in [
            ToolCall::CreateMemory { path: p.clone(), content: "c".to_string() },
            ToolCall::ReadMemory { path: p.clone() },
            ToolCall::ListMemories { path: Some(p.clone()) },
            ToolCall::SearchMemories { pattern: "x".to_string(), path: Some(p.clone()) },
            ToolCall::DeleteMemory { path: p.clone() },
        ] {
            assert!(plan(call).is_err(), "{path:?}");
        }
    }
    assert!(matches!(plan(ToolCall::ListMemories { path: None }), Ok(Plan::ListMemories { path: None })));

    let mut no_dir = config();
    no_dir.data_dir = None;
    let r = plan_with(ToolCall::ReadMemory { path: "a.md".to_string() }, &ContextBuffer::new(), &FilesRead::new(), &no_dir, None, None);
    assert_eq!(r.unwrap_err(), "No data_dir configured - memories disabled");
}

#[test]
fn edits_are_gated_on_a_read() {
    let edit = || ToolCall::EditMemory {
        path: "users/a.md".to_string(),
        old_string: "old".to_string(),
        new_string: "new".to_string(),
    };
    assert_eq!(refusal(edit()), "Must read_memory('users/a.md') before editing");

    let mut files = FilesRead::new();
    assert!(!files.contains("users/a.md"));
    files.insert("users/b.md");
    let r = plan_with(edit(), &ContextBuffer::new(), &files, &config(), None, None);
    assert_eq!(r.unwrap_err(), "Must read_memory('users/a.md') before editing");
    files.insert("users/a.md");
    assert!(files.contains("users/a.md"));
    assert!(files.contains("users/b.md"));
    let r = plan_with(edit(), &ContextBuffer::new(), &files, &config(), None, None);
    assert!(matches!(r, Ok(Plan::EditMemory { .. })));
}

#[test]
fn edits_replace_exactly_one_occurrence() {
    assert_eq!(edit_once("a b c", "b", "X"), Ok("a X c".to_string()));
    assert_eq!(edit_once("abc", "abc", ""), Ok("".to_string()));
    assert_eq!(edit_once("héllo wörld", "wörld", "you"), Ok("héllo you".to_string()));
    assert_eq!(
        edit_once("a b c", "z", "X"),
        Err("old_string not found in file. Make sure it matches exactly.".to_string())
    );
    assert_eq!(
        edit_once("a b a b a", "a", "X"),
        Err("old_string found 3 times. Must be unique.".to_string())
    );
    assert_eq!(edit_once("aaa", "aa", "X"), Ok("Xa".to_string()));
    assert_eq!(edit_once("aaaa", "aa", "X"), Err("old_string found 2 times. Must be unique.".to_string()));
    assert_eq!(edit_once("", "", "new"), Ok("new".to_string()));
    assert_eq!(edit_once("ab", "", "X"), Err("old_string found 3 times. Must be unique.".to_string()));
}

#[test]
fn files_are_shown_with_line_numbers() {
    assert_eq!(number_lines("first\nsecond\r\nthird"), "    1→first\n    2→second\n    3→third");
    assert_eq!(number_lines("only\n"), "    1→only");
    assert_eq!(number_lines(""), "");
    assert_eq!(number_lines("\n\n"), "    1→\n    2→");
    let many = "x\n".repeat(100000);
    let shown = number_lines(&many);
    assert!(shown.starts_with("    1→x\n    2→x\n"));
    assert!(shown.ends_with("\n99999→x\n100000→x"));
}

#[test]
fn searches_list_matching_lines() {
    assert_eq!(
        search_file("users/a.md", "likes rust\nhates mornings\nrust again", "rust"),
        vec!["users/a.md:1:likes rust", "users/a.md:3:rust again"]
    );
    assert!(search_file("f", "abc", "z").is_empty());
    assert_eq!(search_file("f", "a\n\nb", ""), vec!["f:1:a", "f:2:", "f:3:b"]);
}

#[test]
fn only_read_only_queries_pass() {
    assert_eq!(check_query("SELECT * FROM messages"), Ok(()));
    assert_eq!(check_query("  select count(*) from users  "), Ok(()));
    assert_eq!(check_query("\n\tSeLeCt 1"), Ok(()));
    assert_eq!(
        check_query("INSERT INTO messages VALUES (1,2,3,'a','b','c',NULL,NULL,NULL)"),
        Err("Only SELECT queries are allowed".to_string())
    );
    assert_eq!(
        check_query("SELECT * FROM messages; DROP TABLE messages"),
        Err("Query contains forbidden keyword: DROP".to_string())
    );
    assert_eq!(check_query(""), Err("Only SELECT queries are allowed".to_string()));
    assert_eq!(check_query("PRAGMA table_info(users)"), Err("Only SELECT queries are allowed".to_string()));
    for (word, sql) in [
        ("INSERT", "select 1; insert into t values (1)"),
        ("UPDATE", "SELECT last_updated FROM t"),
        ("DELETE", "select 1; Delete from t"),
        ("DROP", "select 'dropped'"),
        ("ALTER", "select 1; alter table t"),
        ("CREATE", "select created_at from reminders"),
        ("ATTACH", "select 1; attach database 'x' as y"),
        ("DETACH", "select 1; detach database y"),
    ] {
        assert_eq!(check_query(sql), Err(format!("Query contains forbidden keyword: {word}")), "{sql}");
    }
    assert_eq!(
        check_query("select 1; update t; insert into t"),
        Err("Query contains forbidden keyword: INSERT".to_string())
    );
    assert_eq!(refusal(ToolCall::Query { sql: "drop table users".to_string() }), "Only SELECT queries are allowed");
    assert!(matches!(plan(ToolCall::Query { sql: " select 1 ".to_string() }), Ok(Plan::Query { ref sql }) if sql == " select 1 "));
}

#[test]
fn rows_are_shown_with_their_columns() {
    let names = vec!["id".to_string(), "text".to_string(), "data".to_string()];
    assert_eq!(render_rows(&names, &vec![]), "No results");
    let rows = vec![
        vec![Cell::Integer(-7), Cell::Text("hello".to_string()), Cell::Blob(12)],
        vec![Cell::Null, Cell::Real("1.5".to_string()), Cell::Unreadable],
        vec![Cell::Integer(1)],
    ];
    assert_eq!(
        render_rows(&names, &rows),
        "3 row(s):\nid: -7 | text: hello | data: <blob 12 bytes>\nid: NULL | text: 1.5 | data: ?\nid: 1 | text: ? | data: ?"
    );
    let long = "é".repeat(101);
    let exact = "é".repeat(100);
    assert_eq!(
        render_rows(&vec!["t".to_string()], &vec![vec![Cell::Text(long)], vec![Cell::Text(exact.clone())]]),
        format!("2 row(s):\nt: {exact}...\nt: {exact}")
    );
}

#[test]
fn at_most_a_hundred_rows_are_shown() {
    let names = vec!["n".to_string()];
    let rows = |n: i64| (0..n).map(|i| vec![Cell::Integer(i)]).collect::<Vec<_>>();
    let hundred = render_rows(&names, &rows(100));
    assert!(hundred.starts_with("100 row(s):\nn: 0\n"));
    assert!(hundred.ends_with("\nn: 99"));
    let more = render_rows(&names, &rows(101));
    assert!(more.starts_with("100 row(s):\nn: 0\n"));
    assert!(more.ends_with("\nn: 99\n... (truncated, showing first 100 rows)"));
    assert!(!more.contains("n: 100"));
}

fn msg(id: i64, text: &str) -> ChatMessage {
    ChatMessage {
        message_id: id,
        chat_id: -1,
        user_id: 1,
        username: "u".to_string(),
        timestamp: "t".to_string(),
        text: text.to_string(),
        reply_to: None,
        image: None,
        voice_transcription: None,
        documents: vec![],
    }
}

#[test]
fn recent_messages_fit_the_token_budget() {
    // every rendering is 59 characters long
    let newest_first = || vec![msg(5, "aaaa"), msg(4, "bbbb"), msg(3, "cccc"), msg(2, "dddd")];
    assert_eq!(newest_first()[0].format().chars().count(), 59);
    let ids = |v: Vec<ChatMessage>| v.iter().map(|m| m.message_id).collect::<Vec<_>>();
    assert_eq!(ids(get_recent_by_tokens(newest_first(), 1000)), vec![2, 3, 4, 5]);
    assert_eq!(ids(get_recent_by_tokens(newest_first(), 59)), vec![2, 3, 4, 5]);
    assert_eq!(ids(get_recent_by_tokens(newest_first(), 58)), vec![3, 4, 5]);
    assert_eq!(ids(get_recent_by_tokens(newest_first(), 30)), vec![4, 5]);
    assert_eq!(ids(get_recent_by_tokens(newest_first(), 44)), vec![4, 5]);
    assert_eq!(ids(get_recent_by_tokens(newest_first(), 45)), vec![3, 4, 5]);
    assert_eq!(ids(get_recent_by_tokens(newest_first(), 29)), vec![5]);
    assert_eq!(ids(get_recent_by_tokens(newest_first(), 15)), vec![5]);
    assert!(get_recent_by_tokens(newest_first(), 14).is_empty());
    assert!(get_recent_by_tokens(newest_first(), 0).is_empty());
    assert!(get_recent_by_tokens(vec![], 10).is_empty());
    assert!(get_recent_by_tokens(vec![], 0).is_empty());
    assert_eq!(ids(get_recent_by_tokens(newest_first(), usize::MAX)), vec![2, 3, 4, 5]);
}

#[test]
fn the_token_budget_counts_characters() {
    // 59 characters in 63 bytes
    let accented = msg(7, "\u{e9}\u{e9}\u{e9}\u{e9}");
    assert_eq!(accented.format().chars().count(), 59);
    assert_eq!(accented.format().len(), 63);
    let kept = get_recent_by_tokens(vec![accented.duplicate(), msg(6, "bbbb")], 15);
    assert_eq!(kept.len(), 1);
    assert_eq!(kept[0].message_id, 7);
    let kept = get_recent_by_tokens(vec![accented.duplicate(), msg(6, "bbbb")], 30);
    assert_eq!(kept.iter().map(|m| m.message_id).collect::<Vec<_>>(), vec![6, 7]);
    assert!(get_recent_by_tokens(vec![accented], 14).is_empty());
}

#[test]
fn a_message_that_alone_exceeds_the_budget_is_not_replayed() {
    let long = msg(9, &"x".repeat(500));
    assert!(get_recent_by_tokens(vec![long.duplicate()], 100).is_empty());
    assert!(get_recent_by_tokens(vec![long.duplicate(), msg(8, "aaaa")], 100).is_empty());
    assert!(get_recent_by_tokens(vec![msg(8, "aaaa"), long.duplicate()], 100).is_empty());
    let kept = get_recent_by_tokens(vec![msg(10, "aaaa"), long], 100);
    assert_eq!(kept.iter().map(|m| m.message_id).collect::<Vec<_>>(), vec![10]);
}

fn stamped(id: i64, timestamp: &str) -> ChatMessage {
    ChatMessage { timestamp: timestamp.to_string(), ..msg(id, "aaaa") }
}

#[test]
fn recent_messages_are_the_newest_by_timestamp_and_id() {
    let ids = |v: Vec<ChatMessage>| v.iter().map(|m| m.message_id).collect::<Vec<_>>();
    let archive = || {
        vec![
            stamped(3, "2024-01-15 10:31"),
            stamped(9, "2024-01-14 23:59"),
            stamped(1, "2024-01-15 10:32"),
            stamped(4, "2024-01-15 10:31"),
            stamped(2, "2024-01-15 10:30"),
        ]
    };
    assert_eq!(ids(claudima::archive::oldest_first(archive())), vec![9, 2, 3, 4, 1]);
    assert_eq!(ids(get_recent_by_tokens(archive(), 10_000)), vec![9, 2, 3, 4, 1]);
    let size = archive()[0].format().chars().count();
    assert_eq!(size % 4, 2);
    assert_eq!(ids(get_recent_by_tokens(archive(), size / 4 + 1)), vec![1]);
    assert!(get_recent_by_tokens(archive(), size / 4).is_empty());
    assert_eq!(ids(get_recent_by_tokens(archive(), 3 * size / 4 + 1)), vec![3, 4, 1]);
    assert_eq!(ids(get_recent_by_tokens(archive(), 3 * size / 4)), vec![4, 1]);
    assert!(claudima::archive::newer(&stamped(4, "b"), &stamped(9, "a")));
    assert!(claudima::archive::newer(&stamped(4, "a"), &stamped(3, "a")));
    assert!(!claudima::archive::newer(&stamped(3, "a"), &stamped(3, "a")));
    assert_eq!(ids(claudima::archive::newest_within(archive(), size / 4 + 1)), vec![2]);
}

fn member(status: MemberStatus, last: Option<&str>) -> Member {
    Member {
        user_id: 1,
        username: None,
        first_name: "n".to_string(),
        join_date: "2024-01-01 00:00".to_string(),
        last_message_date: last.map(|s| s.to_string()),
        message_count: 0,
        status,
    }
}

#[test]
fn members_are_selected_by_filter() {
    assert_eq!(MemberStatus::from_str("left"), MemberStatus::Left);
    assert_eq!(MemberStatus::from_str("banned"), MemberStatus::Banned);
    assert_eq!(MemberStatus::from_str("member"), MemberStatus::Member);
    assert_eq!(MemberStatus::from_str("anything"), MemberStatus::Member);
    assert_eq!(MemberStatus::Banned.as_str(), "banned");

    assert_eq!(MemberFilter::parse(None), MemberFilter::All);
    assert_eq!(MemberFilter::parse(Some("bogus")), MemberFilter::All);
    assert_eq!(MemberFilter::parse(Some("never_posted")), MemberFilter::NeverPosted);
    assert_eq!(MemberFilter::parse(Some("inactive")), MemberFilter::Inactive);

    let cutoff = "2024-03-01 00:00";
    let old = member(MemberStatus::Member, Some("2024-02-29 23:59"));
    let fresh = member(MemberStatus::Member, Some("2024-03-01 00:00"));
    let silent = member(MemberStatus::Member, None);
    let gone = member(MemberStatus::Left, None);
    assert!(MemberFilter::Inactive.matches(&old, cutoff));
    assert!(!MemberFilter::Inactive.matches(&fresh, cutoff));
    assert!(MemberFilter::Inactive.matches(&silent, cutoff));
    assert!(!MemberFilter::Inactive.matches(&gone, cutoff));
    assert!(MemberFilter::Active.matches(&fresh, cutoff));
    assert!(!MemberFilter::Active.matches(&silent, cutoff));
    assert!(MemberFilter::NeverPosted.matches(&silent, cutoff));
    assert!(MemberFilter::Left.matches(&gone, cutoff));
    assert!(!MemberFilter::Banned.matches(&gone, cutoff));
    assert!(MemberFilter::All.matches(&gone, cutoff));
    assert!(MemberFilter::Inactive.statement().contains("last_message_date < ?2"));
    assert!(MemberFilter::All.statement().starts_with("SELECT * FROM users ORDER BY"));

    assert!(matches!(
        plan(ToolCall::GetMembers { filter: None, days_inactive: None, limit: None }),
        Ok(Plan::GetMembers { filter: MemberFilter::All, days_inactive: 30, limit: 50 })
    ));
    assert!(matches!(
        plan(ToolCall::GetMembers { filter: Some("banned".to_string()), days_inactive: Some(7), limit: Some(3) }),
        Ok(Plan::GetMembers { filter: MemberFilter::Banned, days_inactive: 7, limit: 3 })
    ));
}

#[test]
fn replies_are_threaded_to_the_last_message_of_the_chat() {
    let send = |chat_id, reply| ToolCall::SendMessage { chat_id, text: "t".to_string(), reply_to_message_id: reply };
    let reply_of = |r: Result<Plan, String>| match r {
        Ok(Plan::SendMessage { reply_to, .. }) => reply_to,
        other => panic!("{other:?}"),
    };
    let empty = ContextBuffer::new();
    let files = FilesRead::new();
    let c = config();
    assert_eq!(reply_of(plan_with(send(-5, None), &empty, &files, &c, Some((9, -5)), None)), Some(9));
    assert_eq!(reply_of(plan_with(send(-6, None), &empty, &files, &c, Some((9, -5)), None)), None);
    assert_eq!(reply_of(plan_with(send(-5, None), &empty, &files, &c, None, None)), None);
    assert_eq!(reply_of(plan_with(send(-5, Some(3)), &empty, &files, &c, Some((9, -5)), None)), None);

    let mut context = ContextBuffer::new();
    let mut known = msg(3, "x");
    known.chat_id = -5;
    context.add_message(known);
    assert_eq!(reply_of(plan_with(send(-5, Some(3)), &context, &files, &c, Some((9, -5)), None)), Some(3));
    assert_eq!(reply_of(plan_with(send(-6, Some(3)), &context, &files, &c, Some((9, -6)), None)), None);

    let photo = plan_with(
        ToolCall::SendPhoto { chat_id: -5, prompt: "p".to_string(), caption: None, reply_to_message_id: None },
        &empty, &files, &c, Some((9, -5)), None,
    );
    assert!(matches!(photo, Ok(Plan::SendPhoto { reply_to: Some(9), .. })));
    let voice = plan_with(
        ToolCall::SendVoice { chat_id: -5, text: "p".to_string(), voice: None, reply_to_message_id: Some(77) },
        &empty, &files, &c, Some((9, -5)), None,
    );
    assert!(matches!(voice, Ok(Plan::SendVoice { reply_to: Some(77), .. })));
}

#[test]
fn only_the_owner_in_private_manages_trust() {
    let c = config();
    assert_eq!(check_owner_dm_authorization(&c, Some(1), Some(1)), Ok(()));
    assert_eq!(
        check_owner_dm_authorization(&c, Some(2), Some(2)),
        Err("Only the owner can manage trusted users".to_string())
    );
    assert_eq!(
        check_owner_dm_authorization(&c, Some(1), Some(-5)),
        Err("This command only works in DM with the bot".to_string())
    );
    assert_eq!(check_owner_dm_authorization(&c, None, Some(1)), Err("Cannot determine requesting user".to_string()));
    assert_eq!(check_owner_dm_authorization(&c, Some(1), None), Err("Cannot determine chat".to_string()));
    assert_eq!(
        check_owner_dm_authorization(&ChatbotConfig::default(), Some(1), Some(1)),
        Err("No owner configured".to_string())
    );

    let add = |c: &ChatbotConfig, user_id, requester| {
        plan_with(ToolCall::AddTrustedUser { user_id }, &ContextBuffer::new(), &FilesRead::new(), c, None, requester)
    };
    let remove = |c: &ChatbotConfig, user_id, requester| {
        plan_with(ToolCall::RemoveTrustedUser { user_id }, &ContextBuffer::new(), &FilesRead::new(), c, None, requester)
    };
    assert!(matches!(add(&c, 7, Some((1, 1))), Ok(Plan::AddTrustedUser { user_id: 7 })));
    assert_eq!(add(&c, 7, Some((2, 2))).unwrap_err(), "Only the owner can manage trusted users");
    assert_eq!(add(&c, 7, Some((1, -5))).unwrap_err(), "This command only works in DM with the bot");
    assert_eq!(add(&c, 7, None).unwrap_err(), "Cannot determine requesting user");
    assert_eq!(add(&c, 1, Some((1, 1))).unwrap_err(), "Owner is already trusted by default");
    assert_eq!(remove(&c, 7, Some((1, 1))).unwrap_err(), "User 7 is not in trusted list");

    let mut listed = config();
    listed.trusted_dm_users.insert(7, None);
    assert_eq!(add(&listed, 7, Some((1, 1))).unwrap_err(), "User 7 is already in trusted list");
    assert!(matches!(remove(&listed, 7, Some((1, 1))), Ok(Plan::RemoveTrustedUser { user_id: 7 })));

    let mut no_path = config();
    no_path.config_path = None;
    assert_eq!(add(&no_path, 7, Some((1, 1))).unwrap_err(), "Config path not set");
}

#[test]
fn intents_are_planned_with_defaults_and_limits() {
    for (given, minutes) in [(0, 1), (-5, 1), (1, 1), (30, 30), (1440, 1440), (1441, 1440), (i64::MAX, 1440)] {
        let r = plan(ToolCall::MuteUser { chat_id: 1, user_id: 2, duration_minutes: given });
        assert!(matches!(r, Ok(Plan::MuteUser { chat_id: 1, user_id: 2, minutes: m }) if m == minutes));
    }
    assert!(matches!(plan(ToolCall::GetUserInfo { user_id: Some(5), username: Some("x".to_string()) }), Ok(Plan::UserInfoById { user_id: 5 })));
    assert!(matches!(plan(ToolCall::GetUserInfo { user_id: None, username: Some("x".to_string()) }), Ok(Plan::UserInfoByName { ref username }) if username == "x"));
    assert_eq!(refusal(ToolCall::GetUserInfo { user_id: None, username: None }), "get_user_info requires user_id or username");
    assert!(matches!(plan(ToolCall::Noop), Ok(Plan::Nothing)));
    assert!(matches!(plan(ToolCall::Done), Ok(Plan::Nothing)));
    assert_eq!(refusal(ToolCall::ParseError { message: "bad json".to_string() }), "bad json");

    let mut bare = ChatbotConfig::default();
    bare.owner = None;
    let with = |call| plan_with(call, &ContextBuffer::new(), &FilesRead::new(), &bare, None, None);
    assert_eq!(
        with(ToolCall::SendPhoto { chat_id: 1, prompt: "p".to_string(), caption: None, reply_to_message_id: None }).unwrap_err(),
        "Gemini API key not configured"
    );
    assert_eq!(
        with(ToolCall::SendVoice { chat_id: 1, text: "p".to_string(), voice: None, reply_to_message_id: None }).unwrap_err(),
        "TTS endpoint not configured"
    );
    assert_eq!(with(ToolCall::ImportMembers { file_path: "f".to_string() }).unwrap_err(), "No data_dir configured - import disabled");
    assert_eq!(
        with(ToolCall::ReportBug { description: "d".to_string(), severity: None }).unwrap_err(),
        "No data_dir configured"
    );
}

#[test]
fn reminders_are_planned_with_their_trigger_time() {
    let set = |trigger_at: &str, repeat_cron: Option<&str>| {
        plan(ToolCall::SetReminder {
            chat_id: -5,
            message: "standup".to_string(),
            trigger_at: trigger_at.to_string(),
            repeat_cron: repeat_cron.map(|s| s.to_string()),
        })
    };
    assert!(matches!(set("+30m", None), Ok(Plan::SetReminder { trigger_at, repeat_cron: None, .. }) if trigger_at == NOW + 1800));
    assert!(matches!(
        set("2030-06-15 14:30", Some("0 0 9 * * * *")),
        Ok(Plan::SetReminder { trigger_at: 1907764200, repeat_cron: Some(ref c), .. }) if c == "0 0 9 * * * *"
    ));
    assert_eq!(set("+30x", None).unwrap_err(), "Unknown unit 'x'. Use m/h/d/w");
    assert!(set("+1h", Some("invalid")).unwrap_err().starts_with("Invalid cron: "));
    assert!(set("tomorrow", None).unwrap_err().starts_with("Invalid date format: "));
}

#[test]
fn outcomes_fold_into_results() {
    let ok = conclude_tool("tool_0".to_string(), Ok(Some("rows".to_string())), None);
    assert_eq!(ok.tool_use_id, "tool_0");
    assert_eq!(ok.content, Some("rows".to_string()));
    assert!(!ok.is_error);
    assert!(ok.image.is_none());

    let quiet = conclude_tool("tool_1".to_string(), Ok(None), Some((vec![9], "image/png".to_string())));
    assert_eq!(quiet.content, None);
    assert_eq!(quiet.image, Some((vec![9], "image/png".to_string())));

    let failed = conclude_tool("tool_2".to_string(), Err("boom".to_string()), Some((vec![9], "image/png".to_string())));
    assert_eq!(failed.content, Some("error: boom".to_string()));
    assert!(failed.is_error);
    assert!(failed.image.is_none());
}

#[test]
fn administrative_actions_are_reported_to_the_owner() {
    assert_eq!(
        audit_line(&Plan::DeleteMessage { chat_id: -5, message_id: 9 }),
        Some("🗑️ Deleted message 9 in chat -5".to_string())
    );
    assert_eq!(
        audit_line(&Plan::MuteUser { chat_id: -5, user_id: 7, minutes: 15 }),
        Some("🔇 Muted user 7 for 15 min in chat -5".to_string())
    );
    assert_eq!(audit_line(&Plan::BanUser { chat_id: -5, user_id: 7 }), Some("🚫 Banned user 7 from chat -5".to_string()));
    assert_eq!(audit_line(&Plan::KickUser { chat_id: -5, user_id: 7 }), Some("👢 Kicked user 7 from chat -5".to_string()));
    assert_eq!(audit_line(&Plan::Nothing), None);
    assert_eq!(audit_line(&Plan::GetChatAdmins { chat_id: 1 }), None);
}

#[test]
fn results_are_worded_for_the_reasoner() {
    assert_eq!(photo_sent_text("a cat"), "Image generated and sent (prompt: a cat)");
    assert_eq!(
        trusted_added_text(7, Some("ann")),
        "Added user 7 (@ann) to trusted DM users. They can now DM the bot."
    );
    assert_eq!(trusted_added_text(7, None), "Added user 7 to trusted DM users. They can now DM the bot.");
    assert_eq!(trusted_removed_text(7), "Removed user 7 from trusted DM users.");
    assert_eq!(reminder_missing_text(12), "Reminder #12 not found or already cancelled");
    assert_eq!(
        feedback_record("2024-01-15 10:30:00 UTC", None, "tool failed"),
        "\n---\n[2024-01-15 10:30:00 UTC] severity=medium\ntool failed\n"
    );
    assert_eq!(
        feedback_record("t", Some("high"), "d"),
        "\n---\n[t] severity=high\nd\n"
    );
    assert_eq!(format_trusted_user(5, Some("ann")), "@ann (5)");
    assert_eq!(format_trusted_user(-5, None), "-5");
    assert_eq!(TrustedUser::with_username(5, Some("ann".to_string())).display(), "@ann (5)");
    assert_eq!(TrustedUser::with_username(5, None).display(), "5");
}

#[test]
fn a_trust_change_can_be_taken_back() {
    let mut trusted: std::collections::HashMap<i64, Option<String>> = std::collections::HashMap::new();
    trusted.insert(7, Some("seven".to_string()));
    let before = trusted.clone();

    let previous = claudima::surface::set_trusted(&mut trusted, 9, Some(None));
    assert_eq!(previous, None);
    assert_eq!(trusted.get(&9), Some(&None));
    claudima::surface::set_trusted(&mut trusted, 9, previous);
    assert_eq!(trusted, before);

    let previous = claudima::surface::set_trusted(&mut trusted, 7, None);
    assert_eq!(previous, Some(Some("seven".to_string())));
    assert!(trusted.is_empty());
    claudima::surface::set_trusted(&mut trusted, 7, previous);
    assert_eq!(trusted, before);

    let previous = claudima::surface::set_trusted(&mut trusted, 7, Some(Some("other".to_string())));
    assert_eq!(previous, Some(Some("seven".to_string())));
    assert_eq!(trusted.get(&7), Some(&Some("other".to_string())));
}

#[test]
fn test_get_tool_definitions() {
    let tools = get_tool_definitions();
    assert_eq!(tools.len(), 28);
    assert_eq!(tools[0].name, "send_message");
    assert_eq!(tools[1].name, "get_user_info");
    assert_eq!(tools[2].name, "query");
    assert_eq!(tools[3].name, "add_reaction");
    assert_eq!(tools[4].name, "delete_message");
    assert_eq!(tools[5].name, "mute_user");
    assert_eq!(tools[6].name, "ban_user");
    assert_eq!(tools[7].name, "kick_user");
    assert_eq!(tools[8].name, "get_chat_admins");
    assert_eq!(tools[9].name, "get_members");
    assert_eq!(tools[10].name, "import_members");
    assert_eq!(tools[11].name, "send_photo");
    assert_eq!(tools[12].name, "send_voice");
    assert_eq!(tools[13].name, "create_memory");
    assert_eq!(tools[14].name, "read_memory");
    assert_eq!(tools[15].name, "edit_memory");
    assert_eq!(tools[16].name, "list_memories");
    assert_eq!(tools[17].name, "search_memories");
    assert_eq!(tools[18].name, "delete_memory");
    assert_eq!(tools[19].name, "report_bug");
    assert_eq!(tools[20].name, "youtube_info");
    assert_eq!(tools[21].name, "noop");
    assert_eq!(tools[22].name, "set_reminder");
    assert_eq!(tools[23].name, "list_reminders");
    assert_eq!(tools[24].name, "cancel_reminder");
    assert_eq!(tools[25].name, "add_trusted_user");
    assert_eq!(tools[26].name, "remove_trusted_user");
    assert_eq!(tools[27].name, "done");
}

#[test]
fn test_query_rejects_insert() {
    let result = check_query("INSERT INTO messages VALUES (1,2,3,'a','b','c',NULL,NULL,NULL)");
    assert!(result.is_err());
}

#[test]
fn test_query_rejects_drop() {
    let result = check_query("SELECT * FROM messages; DROP TABLE messages");
    assert!(result.is_err());
}

#[test]
fn directories_are_listed_in_order() {
    let entries = vec![
        ("users".to_string(), true),
        ("README.md".to_string(), false),
        ("notes".to_string(), true),
        ("alpha.md".to_string(), false),
    ];
    assert_eq!(claudima::memory::listing(&entries), "README.md\nalpha.md\nnotes/\nusers/");
    assert_eq!(claudima::memory::listing(&vec![]), "");
    assert_eq!(claudima::memory::listing(&vec![("a".to_string(), true), ("a.md".to_string(), false)]), "a.md\na/");
}

#[test]
fn a_search_answers_its_matches_or_that_there_is_none() {
    assert_eq!(claudima::memory::search_answer(&vec![]), "No matches found");
    let matches = search_file("users/a.md", "likes rust\nhates mornings\nrust again", "rust");
    assert_eq!(
        claudima::memory::search_answer(&matches),
        "users/a.md:1:likes rust\nusers/a.md:3:rust again"
    );
}

#[test]
fn tools_and_parameters_are_described() {
    let tools = get_tool_definitions();
    assert_eq!(
        tools[0].description,
        "Send a message to a chat. Use the chat_id from the message you're responding to."
    );
    assert_eq!(tools[0].description, claudima::wording::SEND_MESSAGE);
    assert_eq!(
        tools[0].parameters[0].description,
        "Target chat ID (use the chat_id from the incoming message)"
    );
    assert_eq!(tools[0].parameters[1].description, "The message text to send");
    assert_eq!(tools[0].parameters[2].description, "Optional message ID to reply to");
    assert_eq!(tools[1].parameters[0].description, "The user ID to look up");
    assert_eq!(
        tools[21].description,
        "Do nothing - use this to acknowledge a system message or notification without taking any action."
    );
    assert_eq!(tools[22].parameters[1].description, "The message to send when the reminder triggers");
    assert_eq!(tools[27].description, claudima::wording::DONE);
    assert!(tools.iter().all(|t| t.parameters.iter().all(|p| !p.description.is_empty())));
}
