//! The bot's configuration: what a configuration file must hold and what
//! the bot makes of it.

use crate::text::{chars_of, find_char, index_of, lowercased, slice_of, string_of, texts, to_lower};
use std::collections::HashMap;
use vstd::prelude::*;

verus! {

/// The content of a configuration file, with every absent optional field
/// at its default.
#[derive(Clone, Debug)]
pub struct ConfigFile {
    pub owner_ids: Vec<u64>,
    /// Users who may write to the bot in private without being owners.
    pub trusted_dm_users: Vec<u64>,
    /// Usernames of the peer bots.
    pub peer_bots: Vec<String>,
    pub telegram_bot_token: String,
    pub openrouter_api_key: String,
    pub gemini_api_key: String,
    pub allowed_groups: Vec<i64>,
    /// The primary chat; the first allowed group when absent.
    pub primary_chat_id: Option<i64>,
    pub trusted_channels: Vec<i64>,
    pub spam_patterns: Vec<String>,
    pub safe_patterns: Vec<String>,
    pub max_strikes: u8,
    pub dry_run: bool,
    pub log_chat_id: Option<i64>,
    pub data_dir: Option<String>,
    pub whisper_model_path: Option<String>,
    pub tts_endpoint: Option<String>,
    pub personality: Option<String>,
    pub scan_interval_minutes: u32,
}

/// The strikes after which a user is banned, where the file names none.
pub fn default_max_strikes() -> (n: u8)
    ensures
        n == 3,
{
    3
}

/// Errors that can occur when loading the configuration.
#[derive(Clone, Debug)]
pub enum ConfigError {
    /// The file could not be read.
    ReadFile { path: String, detail: String },
    /// The file is no valid JSON of the expected shape.
    ParseJson { path: String, detail: String },
    /// A pattern is no valid regular expression.
    InvalidRegex { pattern: String, detail: String },
    /// A required field is missing or malformed.
    Validation(String),
}

impl ConfigError {
    /// The error in words.
    pub open spec fn text(self) -> Seq<char> {
        match self {
            ConfigError::ReadFile { path, detail } => "failed to read config file '"@ + path@
                + "': "@ + detail@,
            ConfigError::ParseJson { path, detail } => "failed to parse config file '"@ + path@
                + "': "@ + detail@,
            ConfigError::InvalidRegex { pattern, detail } => "invalid regex pattern '"@
                + pattern@ + "': "@ + detail@,
            ConfigError::Validation(msg) => "config validation error: "@ + msg@,
        }
    }

    /// Describes the error.
    pub fn describe(&self) -> (out: String)
        ensures
            out@ == self.text(),
    {
        let mut buf: Vec<char> = Vec::new();
        match self {
            ConfigError::ReadFile { path, detail } => {
                crate::text::push_str(&mut buf, "failed to read config file '");
                crate::text::push_str(&mut buf, path.as_str());
                crate::text::push_str(&mut buf, "': ");
                crate::text::push_str(&mut buf, detail.as_str());
                assert(buf@ =~= self.text());
            },
            ConfigError::ParseJson { path, detail } => {
                crate::text::push_str(&mut buf, "failed to parse config file '");
                crate::text::push_str(&mut buf, path.as_str());
                crate::text::push_str(&mut buf, "': ");
                crate::text::push_str(&mut buf, detail.as_str());
                assert(buf@ =~= self.text());
            },
            ConfigError::InvalidRegex { pattern, detail } => {
                crate::text::push_str(&mut buf, "invalid regex pattern '");
                crate::text::push_str(&mut buf, pattern.as_str());
                crate::text::push_str(&mut buf, "': ");
                crate::text::push_str(&mut buf, detail.as_str());
                assert(buf@ =~= self.text());
            },
            ConfigError::Validation(msg) => {
                crate::text::push_str(&mut buf, "config validation error: ");
                crate::text::push_str(&mut buf, msg.as_str());
            },
        }
        string_of(&buf)
    }
}

/// The complaint of the regular-expression compiler about `pattern`, if it has one.
pub uninterp spec fn regex_error(pattern: Seq<char>) -> Option<Seq<char>>;

/// Whether `pattern` is a valid regular expression that matches somewhere in `text`.
pub uninterp spec fn regex_matches(pattern: Seq<char>, text: Seq<char>) -> bool;

/// Asks the regular-expression compiler what is wrong with `pattern`.
///
/// Trusted: calls `regex::Regex::new` and hands back the text of its error,
/// which depends on the pattern alone and is named by [`regex_error`].
#[verifier::external_body]
pub(crate) fn regex_fault(pattern: &str) -> (r: Option<String>)
    ensures
        crate::engine::opt_text(r) == regex_error(pattern@),
{
    match regex::Regex::new(pattern) {
        Ok(_) => None,
        Err(e) => Some(e.to_string()),
    }
}

/// Tests whether `pattern` matches somewhere in `text`.
///
/// Trusted: compiles the pattern with `regex::Regex::new` and calls
/// `Regex::is_match`; a pattern that does not compile matches nothing. The
/// result depends on the arguments alone and is named by [`regex_matches`].
#[verifier::external_body]
pub(crate) fn regex_is_match(pattern: &str, text: &str) -> (r: bool)
    ensures
        r == regex_matches(pattern@, text@),
{
    match regex::Regex::new(pattern) {
        Ok(re) => re.is_match(text),
        Err(_) => false,
    }
}

/// The spam patterns that are used where the file names none.
pub open spec fn default_spam_patterns() -> Seq<Seq<char>> {
    seq![
        "(?i)crypto.*profit"@,
        "(?i)earn.*\\$\\d+.*day"@,
        "(?i)click.*link.*bio"@,
        "(?i)dm.*me.*for"@,
        "(?i)investment.*opportunity"@,
        "(?i)make.*money.*fast"@,
        "(?i)forex.*trading"@,
        "(?i)t\\.me/\\S+"@,
    ]
}

/// The safe patterns that are used where the file names none.
pub open spec fn default_safe_patterns() -> Seq<Seq<char>> {
    seq!["^[^a-zA-Z]*$"@, "^\\S{1,20}$"@, "(?i)^(hi|hello|thanks)"@]
}

fn spam_defaults() -> (patterns: Vec<String>)
    ensures
        texts(patterns@) == default_spam_patterns(),
{
    let mut patterns: Vec<String> = Vec::new();
    patterns.push("(?i)crypto.*profit".to_owned());
    patterns.push("(?i)earn.*\\$\\d+.*day".to_owned());
    patterns.push("(?i)click.*link.*bio".to_owned());
    patterns.push("(?i)dm.*me.*for".to_owned());
    patterns.push("(?i)investment.*opportunity".to_owned());
    patterns.push("(?i)make.*money.*fast".to_owned());
    patterns.push("(?i)forex.*trading".to_owned());
    patterns.push("(?i)t\\.me/\\S+".to_owned());
    assert(texts(patterns@) =~= default_spam_patterns());
    patterns
}

fn safe_defaults() -> (patterns: Vec<String>)
    ensures
        texts(patterns@) == default_safe_patterns(),
{
    let mut patterns: Vec<String> = Vec::new();
    patterns.push("^[^a-zA-Z]*$".to_owned());
    patterns.push("^\\S{1,20}$".to_owned());
    patterns.push("(?i)^(hi|hello|thanks)".to_owned());
    assert(texts(patterns@) =~= default_safe_patterns());
    patterns
}

/// Whether `token` has the form of a bot token: decimal digits, a colon,
/// and at least one more character.
pub open spec fn token_is_valid(token: Seq<char>) -> bool {
    let colon = find_char(token, 0, ':');
    &&& 0 < colon
    &&& colon + 1 < token.len()
    &&& forall|i: int| 0 <= i < colon ==> '0' <= #[trigger] token[i] <= '9'
}

/// Tests whether a bot token has the expected form.
pub fn check_token(token: &str) -> (r: bool)
    ensures
        r == token_is_valid(token@),
{
    let t = chars_of(token);
    let colon = index_of(&t, 0, ':');
    if colon == 0 || colon >= t.len() || colon + 1 >= t.len() {
        return false;
    }
    let mut i: usize = 0;
    while i < colon
        invariant
            i <= colon < t@.len(),
            t@ == token@,
            colon == find_char(token@, 0, ':'),
            forall|k: int| 0 <= k < i ==> '0' <= #[trigger] t@[k] <= '9',
        decreases colon - i,
    {
        if !('0' <= t[i] && t[i] <= '9') {
            assert(!('0' <= token@[i as int] <= '9'));
            return false;
        }
        i += 1;
    }
    true
}

/// The first pattern of `patterns` that does not compile, if there is one.
pub open spec fn first_bad_pattern(patterns: Seq<Seq<char>>) -> Option<int>
    decreases patterns.len(),
{
    if patterns.len() == 0 {
        None
    } else {
        match first_bad_pattern(patterns.drop_last()) {
            Some(i) => Some(i),
            None => if regex_error(patterns.last()) is Some {
                Some(patterns.len() - 1)
            } else {
                None
            },
        }
    }
}

/// Whether every pattern of `patterns` compiles.
pub open spec fn all_compile(patterns: Seq<Seq<char>>) -> bool {
    forall|i: int| 0 <= i < patterns.len() ==> regex_error(#[trigger] patterns[i]) is None
}

proof fn lemma_first_bad(patterns: Seq<Seq<char>>)
    ensures
        match first_bad_pattern(patterns) {
            Some(i) => 0 <= i < patterns.len() && regex_error(patterns[i]) is Some
                && all_compile(patterns.take(i)),
            None => all_compile(patterns),
        },
    decreases patterns.len(),
{
    if patterns.len() > 0 {
        let front = patterns.drop_last();
        lemma_first_bad(front);
        match first_bad_pattern(front) {
            Some(i) => {
                assert(front.take(i) =~= patterns.take(i));
                assert(front[i] == patterns[i]);
            },
            None => {
                if regex_error(patterns.last()) is Some {
                    assert(patterns.take(patterns.len() - 1) =~= front);
                } else {
                    assert forall|i: int| 0 <= i < patterns.len() implies regex_error(
                        #[trigger] patterns[i],
                    ) is None by {
                        if i < front.len() {
                            assert(front[i] == patterns[i]);
                        }
                    }
                }
            },
        }
    }
}

/// Checks that every pattern compiles. The first one that does not is
/// reported with the compiler's complaint.
pub fn check_patterns(patterns: &Vec<String>) -> (r: Result<(), ConfigError>)
    ensures
        match r {
            Ok(()) => first_bad_pattern(texts(patterns@)) is None && all_compile(texts(patterns@)),
            Err(e) => {
                &&& first_bad_pattern(texts(patterns@)) matches Some(i)
                &&& e matches ConfigError::InvalidRegex { pattern, detail }
                &&& pattern@ == patterns@[i]@
                &&& Some(detail@) == regex_error(patterns@[i]@)
            },
        },
{
    let mut i: usize = 0;
    while i < patterns.len()
        invariant
            i <= patterns@.len(),
            first_bad_pattern(texts(patterns@).take(i as int)) is None,
        decreases patterns@.len() - i,
    {
        proof {
            assert(texts(patterns@).take(i + 1).drop_last() =~= texts(patterns@).take(i as int));
            assert(texts(patterns@).take(i + 1).last() == patterns@[i as int]@);
        }
        match regex_fault(patterns[i].as_str()) {
            Some(detail) => {
                proof {
                    lemma_bad_stays(texts(patterns@), i + 1);
                }
                return Err(ConfigError::InvalidRegex { pattern: patterns[i].clone(), detail });
            },
            None => {},
        }
        i += 1;
    }
    proof {
        assert(texts(patterns@).take(patterns@.len() as int) =~= texts(patterns@));
        lemma_first_bad(texts(patterns@));
    }
    Ok(())
}

proof fn lemma_bad_stays(patterns: Seq<Seq<char>>, n: int)
    requires
        0 <= n <= patterns.len(),
        first_bad_pattern(patterns.take(n)) is Some,
    ensures
        first_bad_pattern(patterns) == first_bad_pattern(patterns.take(n)),
    decreases patterns.len() - n,
{
    if n < patterns.len() {
        assert(patterns.take(n + 1).drop_last() =~= patterns.take(n));
        lemma_bad_stays(patterns, n + 1);
    } else {
        assert(patterns.take(n) =~= patterns);
    }
}

/// The bot's configuration.
#[derive(Clone, Debug)]
pub struct Config {
    /// The owners; the first one is the primary owner.
    pub owner_ids: Vec<u64>,
    /// Users who may write to the bot in private without being owners,
    /// with their usernames where known.
    pub trusted_dm_users: HashMap<i64, Option<String>>,
    /// Where the configuration was read from.
    pub config_path: String,
    pub telegram_bot_token: String,
    pub openrouter_api_key: String,
    pub gemini_api_key: String,
    pub allowed_groups: Vec<i64>,
    pub primary_chat_id: i64,
    pub trusted_channels: Vec<i64>,
    /// Regular expressions that mark a message as spam.
    pub spam_patterns: Vec<String>,
    /// Regular expressions that mark a message as safe.
    pub safe_patterns: Vec<String>,
    pub max_strikes: u8,
    pub dry_run: bool,
    pub log_chat_id: Option<i64>,
    pub data_dir: String,
    pub whisper_model_path: Option<String>,
    pub tts_endpoint: Option<String>,
    pub personality: Option<String>,
    pub scan_interval_minutes: u32,
    /// Usernames of the peer bots, in lower case and without `@`.
    pub peer_bots: Vec<String>,
}

/// `s` without the `@` signs at its start.
pub open spec fn without_at(s: Seq<char>) -> Seq<char>
    decreases s.len(),
{
    if s.len() > 0 && s[0] == '@' {
        without_at(s.drop_first())
    } else {
        s
    }
}

/// The username of a peer bot as the configuration holds it.
pub open spec fn peer_name(raw: Seq<char>) -> Seq<char> {
    lowercased(without_at(raw))
}

fn normalize_peer(raw: &str) -> (out: String)
    ensures
        out@ == peer_name(raw@),
{
    let chars = chars_of(raw);
    let mut start: usize = 0;
    proof {
        assert(chars@.subrange(0, chars@.len() as int) =~= chars@);
    }
    while start < chars.len() && chars[start] == '@'
        invariant
            start <= chars@.len(),
            without_at(chars@) == without_at(chars@.subrange(start as int, chars@.len() as int)),
        decreases chars@.len() - start,
    {
        proof {
            let tail = chars@.subrange(start as int, chars@.len() as int);
            assert(tail[0] == chars@[start as int]);
            assert(tail.drop_first() =~= chars@.subrange(start + 1, chars@.len() as int));
        }
        start += 1;
    }
    proof {
        let tail = chars@.subrange(start as int, chars@.len() as int);
        if start < chars@.len() {
            assert(tail[0] == chars@[start as int]);
        }
    }
    let rest = slice_of(&chars, start, chars.len());
    string_of(&to_lower(&rest))
}

/// What is wrong with the required fields of a configuration file, if anything.
pub open spec fn required_fault(file: ConfigFile) -> Option<Seq<char>> {
    if file.owner_ids@.len() == 0 {
        Some("owner_ids must contain at least one owner ID"@)
    } else if file.telegram_bot_token@.len() == 0 {
        Some("telegram_bot_token is required"@)
    } else if !token_is_valid(file.telegram_bot_token@) {
        Some("telegram_bot_token appears invalid (expected format: 123456789:ABCdefGHI...)"@)
    } else {
        None
    }
}

/// The patterns in force: those of the file, or the defaults where the file names none.
pub open spec fn patterns_in_force(named: Seq<String>, defaults: Seq<Seq<char>>) -> Seq<Seq<char>> {
    if named.len() == 0 {
        defaults
    } else {
        texts(named)
    }
}

/// The primary chat: the one the file names, else the first allowed group, else 0.
pub open spec fn primary_chat(file: ConfigFile) -> i64 {
    match file.primary_chat_id {
        Some(id) => id,
        None => if file.allowed_groups@.len() > 0 {
            file.allowed_groups@[0]
        } else {
            0
        },
    }
}

impl Config {
    /// Whether the configuration is what [`Config::load`] makes of `file`
    /// read from `config_path`.
    pub open spec fn made_from(self, config_path: Seq<char>, file: ConfigFile) -> bool {
        &&& self.owner_ids == file.owner_ids
        &&& self.trusted_dm_users@.dom() =~= Set::new(
            |id: i64|
                exists|i: int|
                    0 <= i < file.trusted_dm_users@.len() && file.trusted_dm_users@[i] as i64
                        == id,
        )
        &&& forall|id: i64| #[trigger]
            self.trusted_dm_users@.contains_key(id) ==> self.trusted_dm_users@[id] is None
        &&& self.config_path@ == config_path
        &&& self.telegram_bot_token == file.telegram_bot_token
        &&& self.openrouter_api_key == file.openrouter_api_key
        &&& self.gemini_api_key == file.gemini_api_key
        &&& self.allowed_groups == file.allowed_groups
        &&& self.primary_chat_id == primary_chat(file)
        &&& self.trusted_channels == file.trusted_channels
        &&& texts(self.spam_patterns@) == patterns_in_force(
            file.spam_patterns@,
            default_spam_patterns(),
        )
        &&& texts(self.safe_patterns@) == patterns_in_force(
            file.safe_patterns@,
            default_safe_patterns(),
        )
        &&& self.max_strikes == file.max_strikes
        &&& self.dry_run == file.dry_run
        &&& self.log_chat_id == file.log_chat_id
        &&& self.data_dir@ == match file.data_dir {
            Some(dir) => dir@,
            None => "."@,
        }
        &&& self.whisper_model_path == file.whisper_model_path
        &&& self.tts_endpoint == file.tts_endpoint
        &&& self.personality == file.personality
        &&& self.scan_interval_minutes == file.scan_interval_minutes
        &&& texts(self.peer_bots@) == texts(file.peer_bots@).map_values(
            |raw: Seq<char>| peer_name(raw),
        )
    }

    /// Validates the content of a configuration file and builds the
    /// configuration from it.
    ///
    /// The file must name at least one owner and a bot token of the form
    /// digits, colon, secret. Patterns that the file names must compile;
    /// where it names none, the defaults are in force.
    pub fn load(config_path: &str, file: ConfigFile) -> (r: Result<Config, ConfigError>)
        ensures
            match r {
                Ok(config) => {
                    &&& required_fault(file) is None
                    &&& all_compile(texts(file.spam_patterns@))
                    &&& all_compile(texts(file.safe_patterns@))
                    &&& config.made_from(config_path@, file)
                },
                Err(e) => match required_fault(file) {
                    Some(why) => e matches ConfigError::Validation(msg) && msg@ == why,
                    None => {
                        &&& e matches ConfigError::InvalidRegex { pattern, detail }
                        &&& Some(detail@) == regex_error(pattern@)
                        &&& match first_bad_pattern(texts(file.spam_patterns@)) {
                            Some(i) => pattern@ == file.spam_patterns@[i]@,
                            None => first_bad_pattern(texts(file.safe_patterns@)) matches Some(i)
                                && pattern@ == file.safe_patterns@[i]@,
                        }
                    },
                },
            },
    {
        broadcast use vstd::std_specs::hash::group_hash_axioms;

        if file.owner_ids.len() == 0 {
            return Err(
                ConfigError::Validation("owner_ids must contain at least one owner ID".to_owned()),
            );
        }
        if file.telegram_bot_token.as_str().is_empty() {
            return Err(ConfigError::Validation("telegram_bot_token is required".to_owned()));
        }
        if !check_token(file.telegram_bot_token.as_str()) {
            return Err(
                ConfigError::Validation(
                    "telegram_bot_token appears invalid (expected format: 123456789:ABCdefGHI...)".to_owned(),
                ),
            );
        }
        match check_patterns(&file.spam_patterns) {
            Ok(()) => {},
            Err(e) => {
                return Err(e);
            },
        }
        match check_patterns(&file.safe_patterns) {
            Ok(()) => {},
            Err(e) => {
                return Err(e);
            },
        }
        let ghost original = file;
        let mut trusted: HashMap<i64, Option<String>> = HashMap::new();
        let mut i: usize = 0;
        while i < file.trusted_dm_users.len()
            invariant
                i <= file.trusted_dm_users@.len(),
                trusted@.dom() =~= Set::new(
                    |id: i64|
                        exists|k: int| 0 <= k < i && file.trusted_dm_users@[k] as i64 == id,
                ),
                forall|id: i64| #[trigger] trusted@.contains_key(id) ==> trusted@[id] is None,
            decreases file.trusted_dm_users@.len() - i,
        {
            let id = file.trusted_dm_users[i] as i64;
            trusted.insert(id, None);
            proof {
                assert(exists|k: int| 0 <= k < i + 1 && file.trusted_dm_users@[k] as i64 == id) by {
                    assert(file.trusted_dm_users@[i as int] as i64 == id);
                }
            }
            i += 1;
        }
        let primary_chat_id = match file.primary_chat_id {
            Some(id) => id,
            None => if file.allowed_groups.len() > 0 {
                file.allowed_groups[0]
            } else {
                0
            },
        };
        let mut peer_bots: Vec<String> = Vec::new();
        let mut k: usize = 0;
        while k < file.peer_bots.len()
            invariant
                k <= file.peer_bots@.len(),
                peer_bots@.len() == k,
                forall|j: int| 0 <= j < k ==> (#[trigger] peer_bots@[j])@ == peer_name(
                    file.peer_bots@[j]@,
                ),
            decreases file.peer_bots@.len() - k,
        {
            peer_bots.push(normalize_peer(file.peer_bots[k].as_str()));
            k += 1;
        }
        assert(texts(peer_bots@) =~= texts(file.peer_bots@).map_values(
            |raw: Seq<char>| peer_name(raw),
        ));
        let spam_patterns = if file.spam_patterns.len() == 0 {
            spam_defaults()
        } else {
            file.spam_patterns
        };
        let safe_patterns = if file.safe_patterns.len() == 0 {
            safe_defaults()
        } else {
            file.safe_patterns
        };
        let data_dir = match file.data_dir {
            Some(dir) => dir,
            None => ".".to_owned(),
        };
        Ok(
            Config {
                owner_ids: file.owner_ids,
                trusted_dm_users: trusted,
                config_path: config_path.to_owned(),
                telegram_bot_token: file.telegram_bot_token,
                openrouter_api_key: file.openrouter_api_key,
                gemini_api_key: file.gemini_api_key,
                allowed_groups: file.allowed_groups,
                primary_chat_id,
                trusted_channels: file.trusted_channels,
                spam_patterns,
                safe_patterns,
                max_strikes: file.max_strikes,
                dry_run: file.dry_run,
                log_chat_id: file.log_chat_id,
                data_dir,
                whisper_model_path: file.whisper_model_path,
                tts_endpoint: file.tts_endpoint,
                personality: file.personality,
                scan_interval_minutes: file.scan_interval_minutes,
                peer_bots,
            },
        )
    }

    /// Tests whether `user_id` is an owner.
    pub fn is_owner(&self, user_id: u64) -> (r: bool)
        ensures
            r == self.owner_ids@.contains(user_id),
    {
        has_id(&self.owner_ids, user_id)
    }

    /// Tests whether `user_id` may write to the bot in private: owners and
    /// trusted users may.
    pub fn can_dm(&self, user_id: u64) -> (r: bool)
        ensures
            r == (self.owner_ids@.contains(user_id) || self.trusted_dm_users@.contains_key(
                user_id as i64,
            )),
    {
        broadcast use vstd::std_specs::hash::group_hash_axioms;

        has_id(&self.owner_ids, user_id) || self.trusted_dm_users.contains_key(&(user_id as i64))
    }

    /// Tests whether `chat_id` is a trusted channel.
    pub fn is_trusted_channel(&self, chat_id: i64) -> (r: bool)
        ensures
            r == self.trusted_channels@.contains(chat_id),
    {
        has_chat(&self.trusted_channels, chat_id)
    }

    /// Tests whether the bot serves the group `chat_id`. With no groups
    /// named, it serves every group.
    pub fn serves_group(&self, chat_id: i64) -> (r: bool)
        ensures
            r == (self.allowed_groups@.len() == 0 || self.allowed_groups@.contains(chat_id)),
    {
        self.allowed_groups.len() == 0 || has_chat(&self.allowed_groups, chat_id)
    }
}

fn has_id(ids: &Vec<u64>, id: u64) -> (r: bool)
    ensures
        r == ids@.contains(id),
{
    let mut i: usize = 0;
    while i < ids.len()
        invariant
            i <= ids@.len(),
            forall|k: int| 0 <= k < i ==> ids@[k] != id,
        decreases ids@.len() - i,
    {
        if ids[i] == id {
            return true;
        }
        i += 1;
    }
    false
}

fn has_chat(ids: &Vec<i64>, id: i64) -> (r: bool)
    ensures
        r == ids@.contains(id),
{
    let mut i: usize = 0;
    while i < ids.len()
        invariant
            i <= ids@.len(),
            forall|k: int| 0 <= k < i ==> ids@[k] != id,
        decreases ids@.len() - i,
    {
        if ids[i] == id {
            return true;
        }
        i += 1;
    }
    false
}

} // verus!
