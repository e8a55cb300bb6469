use claudima::clock::{days_before, format_instant, from_rfc3339, instant_or, to_rfc3339, Pattern};
use claudima::config::{check_token, Config, ConfigError, ConfigFile};
use claudima::debounce::Debouncer;
use claudima::moderation::{
    classification_prompt, enforce, parse_classification, prefilter, Classification,
    PrefilterResult, StrikeLedger,
};
use claudima::reminders::{
    next_cron_trigger, parse_trigger_time, parse_trigger_time_at, validate_cron, Reminder,
};
use claudima::web::{
    image_content, oembed_url, read_image, video_info, Candidate, ContentBlock, FrameContent,
    GenerateResponse,
};

fn file() -> ConfigFile {
    ConfigFile {
        owner_ids: vec![123456],
        trusted_dm_users: vec![],
        peer_bots: vec![],
        telegram_bot_token: "123456789:ABCdefGHIjklMNOpqrsTUVwxyz".to_string(),
        openrouter_api_key: String::new(),
        gemini_api_key: String::new(),
        allowed_groups: vec![],
        primary_chat_id: None,
        trusted_channels: vec![],
        spam_patterns: vec![],
        safe_patterns: vec![],
        max_strikes: 3,
        dry_run: false,
        log_chat_id: None,
        data_dir: None,
        whisper_model_path: None,
        tts_endpoint: None,
        personality: None,
        scan_interval_minutes: 0,
    }
}

fn load(file: ConfigFile) -> Result<Config, ConfigError> {
    Config::load("claudima.json", file)
}

fn validation(r: Result<Config, ConfigError>) -> String {
    match r {
        Err(ConfigError::Validation(msg)) => msg,
        Err(other) => panic!("{}", other.describe()),
        Ok(_) => panic!("expected error, got Ok"),
    }
}

#[test]
fn a_valid_file_loads_with_defaults() {
    let config = load(file()).unwrap();
    assert_eq!(config.owner_ids, vec![123456]);
    assert_eq!(config.config_path, "claudima.json");
    assert_eq!(config.data_dir, ".");
    assert_eq!(config.primary_chat_id, 0);
    assert_eq!(config.max_strikes, 3);
    assert_eq!(config.spam_patterns.len(), 8);
    assert_eq!(config.spam_patterns[0], "(?i)crypto.*profit");
    assert_eq!(config.spam_patterns[7], r"(?i)t\.me/\S+");
    assert_eq!(config.safe_patterns, vec!["^[^a-zA-Z]*$", r"^\S{1,20}$", "(?i)^(hi|hello|thanks)"]);
    assert!(config.is_owner(123456));
    assert!(!config.is_owner(1));
    assert!(config.can_dm(123456));
    assert!(!config.can_dm(5));
    assert!(config.serves_group(-1));
}

#[test]
fn the_file_decides_chats_patterns_and_peers() {
    let mut f = file();
    f.trusted_dm_users = vec![5, 6];
    f.allowed_groups = vec![-100, -200];
    f.trusted_channels = vec![-300];
    f.spam_patterns = vec!["buy now".to_string()];
    f.safe_patterns = vec!["^ok$".to_string()];
    f.data_dir = Some("/var/bot".to_string());
    f.peer_bots = vec!["@@Scout_Bot".to_string(), "oracle".to_string()];
    let config = load(f.clone()).unwrap();
    assert_eq!(config.primary_chat_id, -100);
    assert!(config.can_dm(5) && config.can_dm(6) && !config.can_dm(7));
    assert_eq!(config.trusted_dm_users.get(&5), Some(&None));
    assert!(config.is_trusted_channel(-300));
    assert!(!config.is_trusted_channel(-100));
    assert!(config.serves_group(-200));
    assert!(!config.serves_group(-1));
    assert_eq!(config.spam_patterns, vec!["buy now"]);
    assert_eq!(config.safe_patterns, vec!["^ok$"]);
    assert_eq!(config.data_dir, "/var/bot");
    assert_eq!(config.peer_bots, vec!["scout_bot", "oracle"]);

    f.primary_chat_id = Some(-200);
    assert_eq!(load(f).unwrap().primary_chat_id, -200);
}

#[test]
fn required_fields_are_validated() {
    let mut f = file();
    f.owner_ids = vec![];
    assert_eq!(validation(load(f)), "owner_ids must contain at least one owner ID");

    let mut f = file();
    f.telegram_bot_token = String::new();
    assert_eq!(validation(load(f)), "telegram_bot_token is required");

    for token in ["invalid_token_no_colon", "notanumber:ABCdef", "123456789:", ":secret", "12a:secret"] {
        let mut f = file();
        f.telegram_bot_token = token.to_string();
        assert_eq!(
            validation(load(f)),
            "telegram_bot_token appears invalid (expected format: 123456789:ABCdefGHI...)",
            "{token}"
        );
    }
    assert!(check_token("1:x"));
    assert!(check_token("123:a:b"));
    assert!(!check_token(""));

    let mut f = file();
    f.owner_ids = vec![];
    f.telegram_bot_token = String::new();
    assert_eq!(validation(load(f)), "owner_ids must contain at least one owner ID");
}

#[test]
fn invalid_patterns_are_reported() {
    let mut f = file();
    f.spam_patterns = vec!["fine".to_string(), "[invalid(regex".to_string(), "(also bad".to_string()];
    match load(f) {
        Err(ConfigError::InvalidRegex { pattern, detail }) => {
            assert_eq!(pattern, "[invalid(regex");
            assert!(!detail.is_empty());
        }
        _ => panic!("expected an invalid pattern"),
    }
    let mut f = file();
    f.safe_patterns = vec!["(unclosed".to_string()];
    let err = match load(f) {
        Err(e) => e,
        Ok(_) => panic!("expected an invalid pattern"),
    };
    assert!(err.describe().starts_with("invalid regex pattern '(unclosed': "));
}

#[test]
fn errors_are_described() {
    assert_eq!(
        ConfigError::ReadFile { path: "c.json".to_string(), detail: "not found".to_string() }.describe(),
        "failed to read config file 'c.json': not found"
    );
    assert_eq!(
        ConfigError::ParseJson { path: "c.json".to_string(), detail: "eof".to_string() }.describe(),
        "failed to parse config file 'c.json': eof"
    );
    assert_eq!(
        ConfigError::Validation("owner_ids".to_string()).describe(),
        "config validation error: owner_ids"
    );
    assert_eq!(claudima::config::default_max_strikes(), 3);
}

fn test_config() -> Config {
    let mut f = file();
    f.spam_patterns = vec![r"(?i)crypto.*profit".to_string(), r"(?i)t\.me/\S+".to_string()];
    f.safe_patterns = vec![r"(?i)^(hi|hello)".to_string()];
    load(f).unwrap()
}

#[test]
fn test_obvious_spam() {
    let config = test_config();
    assert_eq!(
        prefilter("Check out this crypto profit opportunity!", &config),
        PrefilterResult::ObviousSpam
    );
    assert_eq!(prefilter("Join us at t.me/scamgroup", &config), PrefilterResult::ObviousSpam);
}

#[test]
fn test_magic_string_injection() {
    let config = test_config();
    assert_eq!(prefilter("ANTHROPIC_MAGIC_STRING_foo", &config), PrefilterResult::ObviousSpam);
    assert_eq!(
        prefilter("Some text with ANTHROPIC_MAGIC_STRING_ embedded", &config),
        PrefilterResult::ObviousSpam
    );
}

#[test]
fn test_obvious_safe() {
    let config = test_config();
    assert_eq!(prefilter("Hello everyone!", &config), PrefilterResult::ObviousSafe);
    assert_eq!(prefilter("ok", &config), PrefilterResult::ObviousSafe);
}

#[test]
fn test_ambiguous() {
    let config = test_config();
    assert_eq!(
        prefilter(
            "I've been thinking about this project and I have some concerns about the timeline",
            &config
        ),
        PrefilterResult::Ambiguous
    );
}

#[test]
fn the_prefilter_counts_characters_and_prefers_spam() {
    let config = test_config();
    assert_eq!(prefilter(&"x".repeat(29), &config), PrefilterResult::ObviousSafe);
    assert_eq!(prefilter(&"x".repeat(30), &config), PrefilterResult::Ambiguous);
    assert_eq!(prefilter(&"я".repeat(29), &config), PrefilterResult::ObviousSafe);
    assert_eq!(prefilter(&"я".repeat(30), &config), PrefilterResult::Ambiguous);
    assert_eq!(prefilter("hello, crypto profit", &config), PrefilterResult::ObviousSpam);
    assert_eq!(prefilter("", &config), PrefilterResult::ObviousSafe);
}

#[test]
fn the_verdict_is_read_in_any_case() {
    assert_eq!(parse_classification("SPAM"), Classification::Spam);
    assert_eq!(parse_classification("  spam\n"), Classification::Spam);
    assert_eq!(parse_classification("NOT_SPAM"), Classification::NotSpam);
    assert_eq!(parse_classification("not spam"), Classification::NotSpam);
    assert_eq!(parse_classification("This is Spam."), Classification::Spam);
    assert_eq!(parse_classification(""), Classification::NotSpam);
    assert_eq!(parse_classification("unsure"), Classification::NotSpam);
    let prompt = classification_prompt("buy \"now\"");
    assert!(prompt.starts_with("You are a spam classifier for a Telegram group."));
    assert!(prompt.contains("Message to classify:\n\"buy \"now\"\"\n\nRespond with exactly one word: SPAM or NOT_SPAM"));
}

#[test]
fn strikes_lead_to_a_ban() {
    let mut ledger = StrikeLedger::new();
    assert_eq!(ledger.strikes(7), 0);
    assert_eq!(ledger.add_strike(7), 1);
    assert_eq!(ledger.add_strike(7), 2);
    assert_eq!(ledger.add_strike(8), 1);
    assert_eq!(ledger.strikes(7), 2);
    for _ in 0..300 {
        ledger.add_strike(9);
    }
    assert_eq!(ledger.strikes(9), 255);

    let e = enforce(1, 2, false);
    assert!(e.delete_message && !e.ban_user);
    let e = enforce(2, 2, false);
    assert!(e.delete_message && e.ban_user);
    let e = enforce(3, 2, true);
    assert!(!e.delete_message && !e.ban_user);
    let e = enforce(0, 0, false);
    assert!(e.ban_user);
}

const NOW: i64 = 1_700_000_000;

#[test]
fn test_parse_relative_minutes() {
    let now = chrono::Utc::now();
    let result = parse_trigger_time("+30m").unwrap();
    let diff = (result - now.timestamp()) / 60;
    assert!((29..=31).contains(&diff));
}

#[test]
fn test_parse_relative_hours() {
    let now = chrono::Utc::now();
    let result = parse_trigger_time("+2h").unwrap();
    let diff = (result - now.timestamp()) / 3600;
    assert!((1..=2).contains(&diff));
}

#[test]
fn test_parse_relative_days() {
    let now = chrono::Utc::now();
    let result = parse_trigger_time("+1d").unwrap();
    let diff = (result - now.timestamp()) / 86400;
    assert!((0..=1).contains(&diff));
}

#[test]
fn test_parse_absolute() {
    let result = parse_trigger_time("2030-06-15 14:30").unwrap();
    assert_eq!(format_instant(result, Pattern::Minute).unwrap(), "2030-06-15 14:30");
}

#[test]
fn test_parse_invalid() {
    assert!(parse_trigger_time("invalid").is_err());
    assert!(parse_trigger_time("+").is_err());
    assert!(parse_trigger_time("+30x").is_err());
}

#[test]
fn test_validate_cron() {
    assert!(validate_cron("0 0 9 * * * *").is_ok());
    assert!(validate_cron("0 0 0 * * 1 *").is_ok());
    assert!(validate_cron("0 */5 * * * * *").is_ok());
    assert!(validate_cron("invalid").is_err());
}

#[test]
fn test_next_cron_trigger() {
    let now = chrono::Utc::now().timestamp();
    let next = next_cron_trigger("0 0 * * * * *", now).unwrap();
    assert!(next > now);
}

#[test]
fn relative_trigger_times_count_from_now() {
    for (input, seconds) in [
        ("+30m", 1800),
        ("+1min", 60),
        ("+2mins", 120),
        ("+1minute", 60),
        ("+90minutes", 5400),
        ("+2h", 7200),
        ("+1hr", 3600),
        ("+3hrs", 10800),
        ("+1hour", 3600),
        ("+24hours", 86400),
        ("+1d", 86400),
        ("+1day", 86400),
        ("+2days", 172800),
        ("+1w", 604800),
        ("+1week", 604800),
        ("+2weeks", 1209600),
        ("  +5m  ", 300),
        ("+0m", 0),
        ("+007h", 25200),
    ] {
        assert_eq!(parse_trigger_time_at(input, NOW), Ok(NOW + seconds), "{input}");
    }
}

#[test]
fn malformed_trigger_times_are_refused() {
    let err = |input: &str| parse_trigger_time_at(input, NOW).unwrap_err();
    assert_eq!(err("+"), "Invalid relative time: '+'");
    assert_eq!(err("+5"), "Invalid relative time: '+5'");
    assert_eq!(err(" +m "), "Invalid relative time: '+m'");
    assert_eq!(err("+mm"), "Invalid number in '+mm'");
    assert_eq!(err("+-5m"), "Invalid number in '+-5m'");
    assert_eq!(err("+99999999999999999999m"), "Invalid number in '+99999999999999999999m'");
    assert_eq!(err("+30x"), "Unknown unit 'x'. Use m/h/d/w");
    assert_eq!(err("+30"), "Unknown unit ''. Use m/h/d/w");
    assert_eq!(err("+30 m"), "Unknown unit ' m'. Use m/h/d/w");
    assert_eq!(err("+30M"), "Unknown unit 'M'. Use m/h/d/w");
    assert_eq!(err("+9223372036854775807w"), "Time out of range in '+9223372036854775807w'");
    let bad_date = err("invalid");
    assert!(bad_date.starts_with("Invalid date format: "), "{bad_date}");
    assert!(bad_date.ends_with(". Use YYYY-MM-DD HH:MM"), "{bad_date}");
    assert!(err("2030-13-01 10:00").starts_with("Invalid date format: "));
    assert!(err("2030-06-15").starts_with("Invalid date format: "));
    assert!(err("").starts_with("Invalid date format: "));
}

#[test]
fn absolute_trigger_times_are_read_as_utc() {
    assert_eq!(parse_trigger_time_at("1970-01-01 00:00", NOW), Ok(0));
    assert_eq!(parse_trigger_time_at("2030-06-15 14:30", NOW), Ok(1907764200));
    assert_eq!(parse_trigger_time_at("  2026-01-25 15:00\n", NOW), Ok(1769353200));
}

#[test]
fn schedules_are_validated_and_evaluated() {
    assert_eq!(validate_cron("0 0 9 * * * *"), Ok(()));
    let bad = validate_cron("invalid").unwrap_err();
    assert!(bad.starts_with("Invalid cron: "), "{bad}");
    assert!(bad.len() > "Invalid cron: ".len());

    // 2023-11-14 22:13:20 UTC; the next 09:00 is on the 15th
    assert_eq!(next_cron_trigger("0 0 9 * * * *", NOW), Ok(1_700_038_800));
    assert_eq!(next_cron_trigger("0 0 9 * * * *", 1_700_038_800), Ok(1_700_125_200));
    assert_eq!(next_cron_trigger("0 0 * * * * *", NOW), Ok(1_700_002_800));
    assert!(next_cron_trigger("invalid", NOW).unwrap_err().starts_with("Invalid cron: "));
    assert_eq!(
        next_cron_trigger("0 0 9 * * * 2000", NOW),
        Err("No future occurrence for cron".to_string())
    );
    assert_eq!(
        next_cron_trigger("0 0 9 * * * *", i64::MAX),
        Err("No future occurrence for cron".to_string())
    );
}

fn reminder(trigger_at: i64, repeat_cron: Option<&str>) -> Reminder {
    Reminder {
        id: 1,
        chat_id: -5,
        user_id: 0,
        message: "standup".to_string(),
        trigger_at,
        repeat_cron: repeat_cron.map(|s| s.to_string()),
        created_at: 0,
        last_triggered_at: None,
        active: true,
    }
}

#[test]
fn a_one_shot_reminder_fires_once() {
    let r = reminder(NOW - 10, None);
    assert!(r.due(NOW));
    assert!(r.due(NOW - 10));
    assert!(!r.due(NOW - 11));
    let fired = r.fire(NOW);
    assert!(!fired.active);
    assert_eq!(fired.last_triggered_at, Some(NOW));
    assert_eq!(fired.trigger_at, NOW - 10);
    assert!(!fired.due(NOW));
    assert!(!fired.due(i64::MAX));
}

#[test]
fn a_recurring_reminder_moves_to_its_next_instant() {
    let r = reminder(NOW - 10, Some("0 0 9 * * * *"));
    let fired = r.fire(NOW);
    assert!(fired.active);
    assert_eq!(fired.trigger_at, 1_700_038_800);
    assert_eq!(fired.last_triggered_at, Some(NOW));
    assert_eq!(fired.message, "standup");
    assert!(!fired.due(NOW));
    assert!(fired.due(1_700_038_800));

    let broken = reminder(NOW - 10, Some("not a schedule")).fire(NOW);
    assert!(!broken.active);
    assert_eq!(broken.last_triggered_at, Some(NOW));

    let settled = reminder(5, None).settle(NOW, Some(99));
    assert!(!settled.active);
    let inactive = Reminder { active: false, ..reminder(5, None) };
    assert!(!inactive.due(NOW));
}

#[test]
fn instants_are_written_and_read() {
    assert_eq!(format_instant(0, Pattern::Minute), Some("1970-01-01 00:00".to_string()));
    assert_eq!(format_instant(NOW, Pattern::Minute), Some("2023-11-14 22:13".to_string()));
    assert_eq!(format_instant(NOW, Pattern::Clock), Some("22:13".to_string()));
    assert_eq!(format_instant(NOW, Pattern::Stamp), Some("2023-11-14T22:13:20Z".to_string()));
    assert_eq!(format_instant(NOW, Pattern::Log), Some("2023-11-14 22:13:20 UTC".to_string()));
    assert_eq!(format_instant(i64::MAX, Pattern::Minute), None);
    assert_eq!(to_rfc3339(NOW), Some("2023-11-14T22:13:20+00:00".to_string()));
    assert_eq!(to_rfc3339(i64::MIN), None);
    assert_eq!(from_rfc3339("2023-11-14T22:13:20+00:00"), Ok(NOW));
    assert_eq!(from_rfc3339("2023-11-15T00:13:20+02:00"), Ok(NOW));
    assert!(from_rfc3339("yesterday").is_err());
    assert_eq!(instant_or("2023-11-14T22:13:20Z", 5), NOW);
    assert_eq!(instant_or("garbage", 5), 5);
    assert_eq!(days_before(NOW, 30), Some(NOW - 30 * 86400));
    assert_eq!(days_before(NOW, 0), Some(NOW));
    assert_eq!(days_before(i64::MIN, 1), None);
}

#[test]
fn a_burst_of_triggers_fires_once() {
    let mut timer = Debouncer::new(1000);
    assert!(!timer.is_active());
    assert!(!timer.poll(0));
    assert_eq!(timer.remaining(0), None);
    for now in [0, 200, 400, 600, 800] {
        timer.trigger(now);
        assert!(!timer.poll(now));
        assert!(!timer.poll(now + 199));
    }
    assert!(timer.is_active());
    assert_eq!(timer.remaining(1000), Some(800));
    assert!(!timer.poll(1799));
    assert!(timer.poll(1800));
    assert!(!timer.is_active());
    assert!(!timer.poll(1800));
    assert!(!timer.poll(5000));

    timer.trigger(6000);
    assert_eq!(timer.remaining(7500), Some(0));
    assert!(timer.poll(7000));
    assert!(!timer.poll(7001));
}

#[test]
fn video_addresses_are_encoded() {
    assert_eq!(
        oembed_url("https://youtu.be/xyz"),
        "https://www.youtube.com/oembed?url=https%3A%2F%2Fyoutu.be%2Fxyz&format=json"
    );
    assert_eq!(
        oembed_url("https://music.youtube.com/watch?v=a_b-c.d~e&t=1 2"),
        "https://www.youtube.com/oembed?url=https%3A%2F%2Fwww.youtube.com%2Fwatch%3Fv%3Da_b-c.d~e%26t%3D1%202&format=json"
    );
    assert_eq!(
        oembed_url("music.youtube.commusic.youtube.com é"),
        "https://www.youtube.com/oembed?url=www.youtube.comwww.youtube.com%20%C3%A9&format=json"
    );
    assert_eq!(oembed_url(""), "https://www.youtube.com/oembed?url=&format=json");
    assert_eq!(
        video_info(Some("T".to_string()), Some("A".to_string()), Some("http://i".to_string())),
        "Title: T\nAuthor: A\nThumbnail: http://i"
    );
    assert_eq!(video_info(None, None, None), "Title: Unknown\nAuthor: Unknown\nThumbnail: ");
}

fn response(parts: Vec<Option<&str>>) -> GenerateResponse {
    GenerateResponse {
        candidates: Some(vec![Candidate {
            parts: Some(parts.into_iter().map(|p| p.map(|s| s.to_string())).collect()),
        }]),
        error: None,
    }
}

#[test]
fn images_are_read_from_the_first_inline_part() {
    let image = read_image(&response(vec![None, Some("aGVsbG8="), Some("d29ybGQ=")])).unwrap();
    assert_eq!(image.data, b"hello");

    let err = |r: GenerateResponse| read_image(&r).unwrap_err();
    assert_eq!(err(response(vec![None, None])), "No image in response");
    assert_eq!(err(response(vec![])), "No image in response");
    assert!(err(response(vec![Some("not base64!")])).starts_with("Failed to decode base64: "));
    assert_eq!(err(GenerateResponse { candidates: None, error: None }), "No candidates in response");
    assert_eq!(err(GenerateResponse { candidates: Some(vec![]), error: None }), "Empty candidates array");
    assert_eq!(
        err(GenerateResponse { candidates: Some(vec![Candidate { parts: None }]), error: None }),
        "No content in candidate"
    );
    assert_eq!(
        err(GenerateResponse { candidates: None, error: Some("quota".to_string()) }),
        "Gemini error: quota"
    );
}

#[test]
fn an_image_frame_carries_text_and_base64() {
    match image_content("look".to_string(), &b"hello".to_vec(), "image/png".to_string()) {
        FrameContent::Blocks(blocks) => {
            assert_eq!(blocks.len(), 2);
            assert!(matches!(&blocks[0], ContentBlock::Text { text } if text == "look"));
            assert!(matches!(
                &blocks[1],
                ContentBlock::Image { media_type, data } if media_type == "image/png" && data == "aGVsbG8="
            ));
        }
        FrameContent::Text(_) => panic!("expected blocks"),
    }
}

#[test]
fn seconds_are_the_whole_part_of_milliseconds() {
    assert_eq!(claudima::clock::seconds_of(0), 0);
    assert_eq!(claudima::clock::seconds_of(999), 0);
    assert_eq!(claudima::clock::seconds_of(1000), 1);
    assert_eq!(claudima::clock::seconds_of(1_700_000_000_123), 1_700_000_000);
    assert_eq!(claudima::clock::seconds_of(-1), -1);
    assert_eq!(claudima::clock::seconds_of(-1000), -1);
    assert_eq!(claudima::clock::seconds_of(-1001), -2);
    assert_eq!(claudima::clock::seconds_of(i64::MIN), i64::MIN.div_euclid(1000));
    assert_eq!(claudima::clock::seconds_of(i64::MAX), i64::MAX / 1000);
}

fn token_file(owner_ids: Vec<u64>, token: &str) -> ConfigFile {
    let mut f = file();
    f.owner_ids = owner_ids;
    f.telegram_bot_token = token.to_string();
    f
}

fn assert_err<T>(result: Result<T, ConfigError>) -> ConfigError {
    match result {
        Ok(_) => panic!("expected error, got Ok"),
        Err(e) => e,
    }
}

#[test]
fn test_valid_config() {
    let f = token_file(vec![123456], "123456789:ABCdefGHIjklMNOpqrsTUVwxyz");
    let config = match load(f) {
        Ok(config) => config,
        Err(e) => panic!("should load valid config: {}", e.describe()),
    };
    assert_eq!(config.owner_ids.len(), 1);
    assert_eq!(config.owner_ids[0], 123456);
}

#[test]
fn test_empty_owner_ids() {
    let err = assert_err(load(token_file(vec![], "123456789:ABCdef")));
    assert!(matches!(err, ConfigError::Validation(_)));
    assert!(err.describe().contains("owner_ids"));
}

#[test]
fn test_empty_token() {
    let err = assert_err(load(token_file(vec![123], "")));
    assert!(matches!(err, ConfigError::Validation(_)));
    assert!(err.describe().contains("telegram_bot_token"));
}

#[test]
fn test_invalid_token_format_no_colon() {
    let err = assert_err(load(token_file(vec![123], "invalid_token_no_colon")));
    assert!(matches!(err, ConfigError::Validation(_)));
    assert!(err.describe().contains("invalid"));
}

#[test]
fn test_invalid_token_format_non_numeric_id() {
    let err = assert_err(load(token_file(vec![123], "notanumber:ABCdef")));
    assert!(matches!(err, ConfigError::Validation(_)));
}

#[test]
fn test_invalid_token_format_empty_secret() {
    let err = assert_err(load(token_file(vec![123], "123456789:")));
    assert!(matches!(err, ConfigError::Validation(_)));
}

#[test]
fn test_invalid_regex_pattern() {
    let mut f = token_file(vec![123], "123456789:ABCdef");
    f.spam_patterns = vec!["[invalid(regex".to_string()];
    let err = assert_err(load(f));
    assert!(matches!(err, ConfigError::InvalidRegex { .. }));
}

#[test]
fn test_due_reminders() {
    let past = Reminder { message: "Past".to_string(), ..reminder(NOW - 3600, None) };
    let future = Reminder { message: "Future".to_string(), ..reminder(NOW + 3600, None) };
    let all = vec![past, future];

    let due: Vec<&Reminder> = all.iter().filter(|r| r.due(NOW)).collect();
    assert_eq!(due.len(), 1);
    assert_eq!(due[0].message, "Past");
}

#[test]
fn test_debounce_triggers_after_duration() {
    let mut counter = 0;
    let mut debouncer = Debouncer::new(50);

    debouncer.trigger(0);
    if debouncer.poll(0) {
        counter += 1;
    }
    assert_eq!(counter, 0);

    if debouncer.poll(100) {
        counter += 1;
    }
    assert_eq!(counter, 1);
}

#[test]
fn test_debounce_resets_on_trigger() {
    let mut counter = 0;
    let mut debouncer = Debouncer::new(50);
    let mut now = 0;

    for _ in 0..5 {
        debouncer.trigger(now);
        for elapsed in 0..=20 {
            if debouncer.poll(now + elapsed) {
                counter += 1;
            }
        }
        now += 20;
    }
    assert_eq!(counter, 0);

    for elapsed in 0..=100 {
        if debouncer.poll(now + elapsed) {
            counter += 1;
        }
    }
    assert_eq!(counter, 1);
}

#[test]
fn test_debounce_multiple_cycles() {
    let mut counter = 0;
    let mut debouncer = Debouncer::new(30);

    debouncer.trigger(0);
    if debouncer.poll(60) {
        counter += 1;
    }
    assert_eq!(counter, 1);

    debouncer.trigger(60);
    if debouncer.poll(120) {
        counter += 1;
    }
    assert_eq!(counter, 2);
}

#[test]
fn test_debounce_timer_starts_on_message() {
    let mut debouncer = Debouncer::new(100);

    debouncer.trigger(0);

    assert!(debouncer.is_active());
}

#[test]
fn test_debounce_timer_resets_on_new_message() {
    let mut debouncer = Debouncer::new(100);

    debouncer.trigger(0);
    assert!(!debouncer.poll(50));
    debouncer.trigger(50);
    assert!(!debouncer.poll(110));

    assert!(debouncer.is_active());
}

#[test]
fn test_debounce_expires() {
    let mut debouncer = Debouncer::new(50);

    debouncer.trigger(0);

    assert!(debouncer.poll(100));
}

#[test]
fn due_reminders_fire_by_trigger_time() {
    let all = vec![
        Reminder { id: 1, ..reminder(NOW - 10, None) },
        Reminder { id: 2, ..reminder(NOW + 10, None) },
        Reminder { id: 3, ..reminder(NOW - 500, Some("0 0 9 * * * *")) },
        Reminder { id: 4, active: false, ..reminder(NOW - 900, None) },
        Reminder { id: 5, ..reminder(NOW - 10, None) },
        Reminder { id: 6, ..reminder(NOW, None) },
    ];
    let order = claudima::reminders::firing_order(&all, NOW);
    let ids: Vec<i64> = order.iter().map(|&at| all[at].id).collect();
    assert_eq!(ids, vec![3, 1, 5, 6]);
    assert!(claudima::reminders::firing_order(&all, NOW - 1000).is_empty());
    assert!(claudima::reminders::firing_order(&vec![], NOW).is_empty());
}
