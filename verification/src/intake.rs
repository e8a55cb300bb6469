//! What happens to an update before it reaches the engine: which chats
//! the bot listens to, who may write to it in private, and what message an
//! update becomes.

use crate::config::Config;
use crate::engine::{ChatbotConfig, TrustedUser};
use crate::message::ChatMessage;
use crate::text::{chars_of, ends_with, has_suffix, str_eq, texts};
use std::collections::HashMap;
use vstd::prelude::*;

verus! {

/// The kind of chat that an update comes from.
#[derive(Clone, Copy, Debug, PartialEq, Eq, Structural)]
pub enum ChatKind {
    Private,
    Group,
    Other,
}

/// What a message carries, as far as routing asks.
#[derive(Clone, Copy, Debug, PartialEq, Eq, Structural)]
pub struct Carries {
    /// Text, or a caption.
    pub text: bool,
    pub image: bool,
    pub voice: bool,
    /// A word-processing document.
    pub document: bool,
}

/// What is done with a new message.
#[derive(Clone, Copy, Debug, PartialEq, Eq, Structural)]
pub enum Route {
    /// The message is none of the bot's business.
    Ignore,
    /// A private message from a user who may write: it is taken in as it is.
    Direct,
    /// A private message from a user who may not write. The user is told
    /// so, the first time only.
    Deny { notify: bool },
    /// A group message: the moderation pipeline decides.
    Moderate,
}

/// What is done with a new message.
pub open spec fn routed(
    kind: ChatKind,
    has_sender: bool,
    can_dm: bool,
    denied_before: bool,
    serves_group: bool,
    carries: Carries,
) -> Route {
    if !has_sender {
        Route::Ignore
    } else if kind == ChatKind::Private {
        if can_dm {
            Route::Direct
        } else {
            Route::Deny { notify: !denied_before }
        }
    } else if kind != ChatKind::Group || !serves_group {
        Route::Ignore
    } else if !carries.text && !carries.image && !carries.voice && !carries.document {
        Route::Ignore
    } else {
        Route::Moderate
    }
}

/// Routes a new message by the chat it comes from, its sender and what it carries.
pub fn route_message(
    kind: ChatKind,
    has_sender: bool,
    can_dm: bool,
    denied_before: bool,
    serves_group: bool,
    carries: Carries,
) -> (route: Route)
    ensures
        route == routed(kind, has_sender, can_dm, denied_before, serves_group, carries),
{
    if !has_sender {
        return Route::Ignore;
    }
    match kind {
        ChatKind::Private => {
            if can_dm {
                Route::Direct
            } else {
                Route::Deny { notify: !denied_before }
            }
        },
        ChatKind::Group => {
            if !serves_group {
                Route::Ignore
            } else if !carries.text && !carries.image && !carries.voice && !carries.document {
                Route::Ignore
            } else {
                Route::Moderate
            }
        },
        ChatKind::Other => Route::Ignore,
    }
}

/// Tests whether a channel post is taken in: it must come from a chat that
/// the bot serves and carry text or an image.
pub fn takes_post(serves_group: bool, has_text: bool, has_image: bool) -> (r: bool)
    ensures
        r == (serves_group && (has_text || has_image)),
{
    serves_group && (has_text || has_image)
}

/// Tests whether an edit is applied to the context buffer: it must come
/// from a group that the bot serves and carry text.
pub fn takes_edit(kind: ChatKind, serves_group: bool, has_text: bool) -> (r: bool)
    ensures
        r == (kind == ChatKind::Group && serves_group && has_text),
{
    match kind {
        ChatKind::Group => serves_group && has_text,
        _ => false,
    }
}

/// The status of a member of a chat, as the transport reports it.
#[derive(Clone, Copy, Debug, PartialEq, Eq, Structural)]
pub enum ChatStatus {
    Owner,
    Administrator,
    Member,
    Restricted,
    Left,
    Banned,
}

/// What a change of status means for the archive.
#[derive(Clone, Copy, Debug, PartialEq, Eq, Structural)]
pub enum MemberEvent {
    Joined,
    Left,
    Banned,
}

/// What the change from `old` to `new` means for the archive, if anything.
pub open spec fn member_event(old: ChatStatus, new: ChatStatus) -> Option<MemberEvent> {
    match new {
        ChatStatus::Member | ChatStatus::Administrator | ChatStatus::Owner => if old
            == ChatStatus::Left || old == ChatStatus::Banned {
            Some(MemberEvent::Joined)
        } else {
            None
        },
        ChatStatus::Left => Some(MemberEvent::Left),
        ChatStatus::Banned => Some(MemberEvent::Banned),
        ChatStatus::Restricted => None,
    }
}

/// Reads a change of a member's status: a member who was gone has joined,
/// one who is gone has left, one who is banned is banned.
pub fn membership_change(old: ChatStatus, new: ChatStatus) -> (event: Option<MemberEvent>)
    ensures
        event == member_event(old, new),
{
    match new {
        ChatStatus::Member | ChatStatus::Administrator | ChatStatus::Owner => match old {
            ChatStatus::Left | ChatStatus::Banned => Some(MemberEvent::Joined),
            _ => None,
        },
        ChatStatus::Left => Some(MemberEvent::Left),
        ChatStatus::Banned => Some(MemberEvent::Banned),
        ChatStatus::Restricted => None,
    }
}

/// The name under which a sender is shown: the username, else the first
/// name, else `unknown`.
pub open spec fn shown_name(username: Option<Seq<char>>, first_name: Option<Seq<char>>) -> Seq<
    char,
> {
    match username {
        Some(name) => name,
        None => match first_name {
            Some(name) => name,
            None => "unknown"@,
        },
    }
}

/// Chooses the name under which a sender is shown.
pub fn display_name(username: Option<&str>, first_name: Option<&str>) -> (out: String)
    ensures
        out@ == shown_name(
            match username {
                Some(name) => Some(name@),
                None => None,
            },
            match first_name {
                Some(name) => Some(name@),
                None => None,
            },
        ),
{
    match username {
        Some(name) => name.to_owned(),
        None => match first_name {
            Some(name) => name.to_owned(),
            None => "unknown".to_owned(),
        },
    }
}

/// The media type of an image, read off the path of its file. A file that
/// is neither PNG nor WebP counts as JPEG.
pub open spec fn image_type(path: Seq<char>) -> Seq<char> {
    if has_suffix(path, ".jpg"@) || has_suffix(path, ".jpeg"@) {
        "image/jpeg"@
    } else if has_suffix(path, ".png"@) {
        "image/png"@
    } else if has_suffix(path, ".webp"@) {
        "image/webp"@
    } else {
        "image/jpeg"@
    }
}

/// Determines the media type of a downloaded image from its file path.
pub fn media_type_of(path: &str) -> (out: &'static str)
    ensures
        out@ == image_type(path@),
{
    let p = chars_of(path);
    if ends_with(&p, &chars_of(".jpg")) || ends_with(&p, &chars_of(".jpeg")) {
        "image/jpeg"
    } else if ends_with(&p, &chars_of(".png")) {
        "image/png"
    } else if ends_with(&p, &chars_of(".webp")) {
        "image/webp"
    } else {
        "image/jpeg"
    }
}

/// The position of the largest photo among `sizes` (width and height): the
/// last one of the largest area.
pub open spec fn largest(sizes: Seq<(u32, u32)>) -> Option<int>
    decreases sizes.len(),
{
    if sizes.len() == 0 {
        None
    } else {
        match largest(sizes.drop_last()) {
            Some(i) => if sizes[i].0 * sizes[i].1 > sizes.last().0 * sizes.last().1 {
                Some(i)
            } else {
                Some(sizes.len() - 1)
            },
            None => Some(sizes.len() - 1),
        }
    }
}

fn area_of(width: u32, height: u32) -> (area: u64)
    ensures
        area == width * height,
{
    assert(width * height <= 0xffff_ffff * 0xffff_ffff) by (nonlinear_arith)
        requires
            width <= 0xffff_ffff,
            height <= 0xffff_ffff,
    ;
    (width as u64) * (height as u64)
}

/// Picks the largest of the sizes in which a photo is offered.
pub fn pick_largest(sizes: &Vec<(u32, u32)>) -> (at: Option<usize>)
    ensures
        match at {
            Some(i) => largest(sizes@) == Some(i as int) && i < sizes@.len(),
            None => largest(sizes@) is None && sizes@.len() == 0,
        },
{
    if sizes.len() == 0 {
        return None;
    }
    let mut best: usize = 0;
    let mut i: usize = 1;
    proof {
        assert(sizes@.take(1).drop_last() =~= Seq::<(u32, u32)>::empty());
        assert(largest(Seq::<(u32, u32)>::empty()) is None);
        assert(largest(sizes@.take(1)) == Some(0int));
    }
    while i < sizes.len()
        invariant
            1 <= i <= sizes@.len(),
            best < i,
            largest(sizes@.take(i as int)) == Some(best as int),
        decreases sizes@.len() - i,
    {
        proof {
            assert(sizes@.take(i + 1).drop_last() =~= sizes@.take(i as int));
            assert(sizes@.take(i + 1).last() == sizes@[i as int]);
            assert(sizes@.take(i + 1)[best as int] == sizes@[best as int]);
        }
        let area = area_of(sizes[i].0, sizes[i].1);
        let best_area = area_of(sizes[best].0, sizes[best].1);
        if !(best_area > area) {
            best = i;
        }
        i += 1;
    }
    proof {
        assert(sizes@.take(sizes@.len() as int) =~= sizes@);
    }
    Some(best)
}

/// What the command line asks for.
#[derive(Clone, Debug)]
pub struct Invocation {
    /// Path of the configuration file.
    pub config_path: String,
    /// A system message to post into the engine at startup.
    pub system_message: Option<String>,
    /// Arguments that were not understood and are skipped.
    pub unknown: Vec<String>,
}

/// The state of reading the arguments from position `i` on.
pub open spec fn invoked(
    args: Seq<String>,
    i: int,
    config_path: Seq<char>,
    message: Option<Seq<char>>,
    unknown: Seq<Seq<char>>,
) -> Result<(Seq<char>, Option<Seq<char>>, Seq<Seq<char>>), Seq<char>>
    decreases args.len() - i,
{
    if i < 0 || i >= args.len() {
        Ok((config_path, message, unknown))
    } else if args[i]@ == "--message"@ || args[i]@ == "-m"@ {
        if i + 1 < args.len() {
            invoked(args, i + 2, config_path, Some(args[i + 1]@), unknown)
        } else {
            Err("Error: --message requires an argument"@)
        }
    } else if args[i]@.len() > 0 && args[i]@[0] == '-' {
        invoked(args, i + 1, config_path, message, unknown.push(args[i]@))
    } else {
        invoked(args, i + 1, args[i]@, message, unknown)
    }
}

/// What the arguments `args` ask for; the first one is the program's name.
pub open spec fn invocation(args: Seq<String>) -> Result<
    (Seq<char>, Option<Seq<char>>, Seq<Seq<char>>),
    Seq<char>,
> {
    invoked(args, 1, "claudima.json"@, None, Seq::empty())
}

/// The view of what parsing the arguments gives.
pub open spec fn invocation_view(r: Result<Invocation, String>) -> Result<
    (Seq<char>, Option<Seq<char>>, Seq<Seq<char>>),
    Seq<char>,
> {
    match r {
        Ok(inv) => Ok(
            (
                inv.config_path@,
                match inv.system_message {
                    Some(m) => Some(m@),
                    None => None,
                },
                texts(inv.unknown@),
            ),
        ),
        Err(e) => Err(e@),
    }
}

/// Parses the command line: one positional argument names the
/// configuration file (`claudima.json` where there is none), and
/// `--message` or `-m` takes a system message.
pub fn parse_args(args: &Vec<String>) -> (r: Result<Invocation, String>)
    ensures
        invocation_view(r) == invocation(args@),
{
    let mut config_path = "claudima.json".to_owned();
    let mut system_message: Option<String> = None;
    let mut unknown: Vec<String> = Vec::new();
    let mut i: usize = 1;
    assert(texts(unknown@) =~= Seq::<Seq<char>>::empty());
    while i < args.len()
        invariant
            1 <= i,
            invoked(
                args@,
                i as int,
                config_path@,
                match system_message {
                    Some(m) => Some(m@),
                    None => None,
                },
                texts(unknown@),
            ) == invocation(args@),
        decreases args@.len() - i,
    {
        let arg = args[i].as_str();
        if str_eq(arg, "--message") || str_eq(arg, "-m") {
            if i + 1 < args.len() {
                system_message = Some(args[i + 1].clone());
                i += 2;
            } else {
                return Err("Error: --message requires an argument".to_owned());
            }
        } else {
            let chars = chars_of(arg);
            if chars.len() > 0 && chars[0] == '-' {
                let ghost before = texts(unknown@);
                unknown.push(args[i].clone());
                assert(texts(unknown@) =~= before.push(args@[i as int]@));
            } else {
                config_path = args[i].clone();
            }
            i += 1;
        }
    }
    Ok(Invocation { config_path, system_message, unknown })
}

/// An optional text that counts as absent when it is empty.
pub fn non_empty(text: &str) -> (r: Option<String>)
    ensures
        match r {
            Some(t) => text@.len() > 0 && t@ == text@,
            None => text@.len() == 0,
        },
{
    if text.is_empty() {
        None
    } else {
        Some(text.to_owned())
    }
}

/// Builds the chatbot's configuration from the bot's configuration and
/// what the transport tells of the bot and its owner. The primary owner is
/// the first of the owners; the debounce delay is one second.
pub fn chatbot_config(
    config: &Config,
    bot_user_id: i64,
    bot_username: Option<String>,
    owner_username: Option<String>,
    trusted_dm_users: HashMap<i64, Option<String>>,
) -> (out: ChatbotConfig)
    ensures
        out.primary_chat_id == config.primary_chat_id,
        out.bot_user_id == bot_user_id,
        out.bot_username == bot_username,
        match out.owner {
            Some(owner) => config.owner_ids@.len() > 0 && owner.id == config.owner_ids@[0] as i64
                && owner.username == owner_username,
            None => config.owner_ids@.len() == 0,
        },
        out.trusted_dm_users == trusted_dm_users,
        out.config_path matches Some(path) && path == config.config_path,
        out.debounce_ms == 1000,
        out.data_dir matches Some(dir) && dir == config.data_dir,
        match out.gemini_api_key {
            Some(key) => config.gemini_api_key@.len() > 0 && key@ == config.gemini_api_key@,
            None => config.gemini_api_key@.len() == 0,
        },
        out.tts_endpoint == config.tts_endpoint,
        out.personality == config.personality,
        out.scan_interval_minutes == config.scan_interval_minutes,
        texts(out.peer_bots@) == texts(config.peer_bots@),
{
    let owner = if config.owner_ids.len() > 0 {
        Some(TrustedUser { id: config.owner_ids[0] as i64, username: owner_username })
    } else {
        None
    };
    let mut peer_bots: Vec<String> = Vec::new();
    let mut i: usize = 0;
    while i < config.peer_bots.len()
        invariant
            i <= config.peer_bots@.len(),
            peer_bots@.len() == i,
            forall|k: int| 0 <= k < i ==> #[trigger] peer_bots@[k] == config.peer_bots@[k],
        decreases config.peer_bots@.len() - i,
    {
        peer_bots.push(config.peer_bots[i].clone());
        i += 1;
    }
    assert(texts(peer_bots@) =~= texts(config.peer_bots@));
    ChatbotConfig {
        primary_chat_id: config.primary_chat_id,
        bot_user_id,
        bot_username,
        owner,
        trusted_dm_users,
        config_path: Some(config.config_path.clone()),
        debounce_ms: 1000,
        data_dir: Some(config.data_dir.clone()),
        gemini_api_key: non_empty(config.gemini_api_key.as_str()),
        tts_endpoint: crate::text::clone_text(&config.tts_endpoint),
        personality: crate::text::clone_text(&config.personality),
        scan_interval_minutes: config.scan_interval_minutes,
        peer_bots,
    }
}

/// The system message that is posted into the engine: it comes from user
/// 0 in chat 0 under the name `system`.
pub fn system_message(text: String, timestamp: String) -> (msg: ChatMessage)
    ensures
        msg.message_id == 0,
        msg.chat_id == 0,
        msg.user_id == 0,
        msg.username@ == "system"@,
        msg.timestamp == timestamp,
        msg.text == text,
        msg.reply_to is None,
        msg.image is None,
        msg.voice_transcription is None,
        msg.documents@.len() == 0,
{
    ChatMessage {
        message_id: 0,
        chat_id: 0,
        user_id: 0,
        username: "system".to_owned(),
        timestamp,
        text,
        reply_to: None,
        image: None,
        voice_transcription: None,
        documents: Vec::new(),
    }
}

} // verus!
