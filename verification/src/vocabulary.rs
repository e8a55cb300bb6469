//! The vocabulary and the translation agree: an intent has a typed form
//! exactly when it names a tool of the vocabulary and carries every
//! parameter that the tool's definition marks as required.

use crate::bridge::RawToolCall;
use crate::tools::{vocabulary, Field, ParamSig, ToolSig};
use vstd::prelude::*;

verus! {

impl RawToolCall {
    /// Whether the intent carries the parameter `field`. The parameter
    /// `prompt` is carried by the field `text`.
    pub open spec fn carries(self, field: Field) -> bool {
        match field {
            Field::ChatId => self.chat_id is Some,
            Field::Text => self.text is Some,
            Field::ReplyToMessageId => self.reply_to_message_id is Some,
            Field::UserId => self.user_id is Some,
            Field::Username => self.username is Some,
            Field::Sql => self.sql is Some,
            Field::MessageId => self.message_id is Some,
            Field::Emoji => self.emoji is Some,
            Field::DurationMinutes => self.duration_minutes is Some,
            Field::Filter => self.filter is Some,
            Field::DaysInactive => self.days_inactive is Some,
            Field::Limit => self.limit is Some,
            Field::FilePath => self.file_path is Some,
            Field::Prompt => self.text is Some,
            Field::Caption => self.caption is Some,
            Field::Voice => self.voice is Some,
            Field::Path => self.path is Some,
            Field::Content => self.content is Some,
            Field::OldString => self.old_string is Some,
            Field::NewString => self.new_string is Some,
            Field::Pattern => self.pattern is Some,
            Field::Description => self.description is Some,
            Field::Severity => self.severity is Some,
            Field::Url => self.url is Some,
            Field::Message => self.message is Some,
            Field::TriggerAt => self.trigger_at is Some,
            Field::RepeatCron => self.repeat_cron is Some,
            Field::ReminderId => self.reminder_id is Some,
        }
    }

    /// Whether the intent carries every parameter among `params` that is required.
    pub open spec fn carries_required(self, params: Seq<ParamSig>) -> bool {
        forall|i: int|
            0 <= i < params.len() && (#[trigger] params[i]).required ==> self.carries(
                params[i].field,
            )
    }
}

/// The position of the first tool among `tools` that is named `name`.
pub open spec fn first_named(tools: Seq<ToolSig>, name: Seq<char>) -> Option<int>
    decreases tools.len(),
{
    if tools.len() == 0 {
        None
    } else {
        match first_named(tools.drop_last(), name) {
            Some(i) => Some(i),
            None => if tools.last().name == name {
                Some(tools.len() - 1)
            } else {
                None
            },
        }
    }
}

proof fn lemma_first_named(tools: Seq<ToolSig>, name: Seq<char>, at: int)
    requires
        0 <= at < tools.len(),
        tools[at].name == name,
        forall|j: int| 0 <= j < at ==> (#[trigger] tools[j]).name != name,
    ensures
        first_named(tools, name) == Some(at),
    decreases tools.len(),
{
    let front = tools.drop_last();
    if at < front.len() {
        assert(front[at] == tools[at]);
        assert forall|j: int| 0 <= j < at implies (#[trigger] front[j]).name != name by {
            assert(front[j] == tools[j]);
        }
        lemma_first_named(front, name, at);
    } else {
        lemma_not_named(front, name);
    }
}

proof fn lemma_not_named(tools: Seq<ToolSig>, name: Seq<char>)
    requires
        forall|j: int| 0 <= j < tools.len() ==> (#[trigger] tools[j]).name != name,
    ensures
        first_named(tools, name) is None,
    decreases tools.len(),
{
    if tools.len() > 0 {
        let front = tools.drop_last();
        assert forall|j: int| 0 <= j < front.len() implies (#[trigger] front[j]).name != name by {
            assert(front[j] == tools[j]);
        }
        lemma_not_named(front, name);
        assert(tools[tools.len() - 1].name != name);
    }
}

/// An intent has a typed form exactly when it names a tool of the
/// vocabulary and carries every parameter that the definition of that tool
/// requires.
#[verifier::rlimit(50)]
pub proof fn lemma_required_fields(raw: RawToolCall)
    ensures
        raw.translatable() == match first_named(vocabulary(), raw.tool@) {
            Some(i) => raw.carries_required(vocabulary()[i].params),
            None => false,
        },
{
    let tools = vocabulary();
    let name = raw.tool@;
    assert(tools.len() == 28);
    assert(tools[0].name == "send_message"@ && tools[0].params.len() == 3);
    assert(tools[1].name == "get_user_info"@ && tools[1].params.len() == 2);
    assert(tools[2].name == "query"@ && tools[2].params.len() == 1);
    assert(tools[3].name == "add_reaction"@ && tools[3].params.len() == 3);
    assert(tools[4].name == "delete_message"@ && tools[4].params.len() == 2);
    assert(tools[5].name == "mute_user"@ && tools[5].params.len() == 3);
    assert(tools[6].name == "ban_user"@ && tools[6].params.len() == 2);
    assert(tools[7].name == "kick_user"@ && tools[7].params.len() == 2);
    assert(tools[8].name == "get_chat_admins"@ && tools[8].params.len() == 1);
    assert(tools[9].name == "get_members"@ && tools[9].params.len() == 3);
    assert(tools[10].name == "import_members"@ && tools[10].params.len() == 1);
    assert(tools[11].name == "send_photo"@ && tools[11].params.len() == 4);
    assert(tools[12].name == "send_voice"@ && tools[12].params.len() == 4);
    assert(tools[13].name == "create_memory"@ && tools[13].params.len() == 2);
    assert(tools[14].name == "read_memory"@ && tools[14].params.len() == 1);
    assert(tools[15].name == "edit_memory"@ && tools[15].params.len() == 3);
    assert(tools[16].name == "list_memories"@ && tools[16].params.len() == 1);
    assert(tools[17].name == "search_memories"@ && tools[17].params.len() == 2);
    assert(tools[18].name == "delete_memory"@ && tools[18].params.len() == 1);
    assert(tools[19].name == "report_bug"@ && tools[19].params.len() == 2);
    assert(tools[20].name == "youtube_info"@ && tools[20].params.len() == 1);
    assert(tools[21].name == "noop"@ && tools[21].params.len() == 0);
    assert(tools[22].name == "set_reminder"@ && tools[22].params.len() == 4);
    assert(tools[23].name == "list_reminders"@ && tools[23].params.len() == 1);
    assert(tools[24].name == "cancel_reminder"@ && tools[24].params.len() == 1);
    assert(tools[25].name == "add_trusted_user"@ && tools[25].params.len() == 1);
    assert(tools[26].name == "remove_trusted_user"@ && tools[26].params.len() == 1);
    assert(tools[27].name == "done"@ && tools[27].params.len() == 0);
    if name == "send_message"@ {
        lemma_first_named(tools, name, 0);
        let params = tools[0].params;
        if raw.carries_required(params) {
            assert(params[0].required);
            assert(params[1].required);
        }
    } else if name == "get_user_info"@ {
        lemma_first_named(tools, name, 1);
        let params = tools[1].params;
    } else if name == "query"@ {
        lemma_first_named(tools, name, 2);
        let params = tools[2].params;
        if raw.carries_required(params) {
            assert(params[0].required);
        }
    } else if name == "add_reaction"@ {
        lemma_first_named(tools, name, 3);
        let params = tools[3].params;
        if raw.carries_required(params) {
            assert(params[0].required);
            assert(params[1].required);
            assert(params[2].required);
        }
    } else if name == "delete_message"@ {
        lemma_first_named(tools, name, 4);
        let params = tools[4].params;
        if raw.carries_required(params) {
            assert(params[0].required);
            assert(params[1].required);
        }
    } else if name == "mute_user"@ {
        lemma_first_named(tools, name, 5);
        let params = tools[5].params;
        if raw.carries_required(params) {
            assert(params[0].required);
            assert(params[1].required);
            assert(params[2].required);
        }
    } else if name == "ban_user"@ {
        lemma_first_named(tools, name, 6);
        let params = tools[6].params;
        if raw.carries_required(params) {
            assert(params[0].required);
            assert(params[1].required);
        }
    } else if name == "kick_user"@ {
        lemma_first_named(tools, name, 7);
        let params = tools[7].params;
        if raw.carries_required(params) {
            assert(params[0].required);
            assert(params[1].required);
        }
    } else if name == "get_chat_admins"@ {
        lemma_first_named(tools, name, 8);
        let params = tools[8].params;
        if raw.carries_required(params) {
            assert(params[0].required);
        }
    } else if name == "get_members"@ {
        lemma_first_named(tools, name, 9);
        let params = tools[9].params;
    } else if name == "import_members"@ {
        lemma_first_named(tools, name, 10);
        let params = tools[10].params;
        if raw.carries_required(params) {
            assert(params[0].required);
        }
    } else if name == "send_photo"@ {
        lemma_first_named(tools, name, 11);
        let params = tools[11].params;
        if raw.carries_required(params) {
            assert(params[0].required);
            assert(params[1].required);
        }
    } else if name == "send_voice"@ {
        lemma_first_named(tools, name, 12);
        let params = tools[12].params;
        if raw.carries_required(params) {
            assert(params[0].required);
            assert(params[1].required);
        }
    } else if name == "create_memory"@ {
        lemma_first_named(tools, name, 13);
        let params = tools[13].params;
        if raw.carries_required(params) {
            assert(params[0].required);
            assert(params[1].required);
        }
    } else if name == "read_memory"@ {
        lemma_first_named(tools, name, 14);
        let params = tools[14].params;
        if raw.carries_required(params) {
            assert(params[0].required);
        }
    } else if name == "edit_memory"@ {
        lemma_first_named(tools, name, 15);
        let params = tools[15].params;
        if raw.carries_required(params) {
            assert(params[0].required);
            assert(params[1].required);
            assert(params[2].required);
        }
    } else if name == "list_memories"@ {
        lemma_first_named(tools, name, 16);
        let params = tools[16].params;
    } else if name == "search_memories"@ {
        lemma_first_named(tools, name, 17);
        let params = tools[17].params;
        if raw.carries_required(params) {
            assert(params[0].required);
        }
    } else if name == "delete_memory"@ {
        lemma_first_named(tools, name, 18);
        let params = tools[18].params;
        if raw.carries_required(params) {
            assert(params[0].required);
        }
    } else if name == "report_bug"@ {
        lemma_first_named(tools, name, 19);
        let params = tools[19].params;
        if raw.carries_required(params) {
            assert(params[0].required);
        }
    } else if name == "youtube_info"@ {
        lemma_first_named(tools, name, 20);
        let params = tools[20].params;
        if raw.carries_required(params) {
            assert(params[0].required);
        }
    } else if name == "noop"@ {
        lemma_first_named(tools, name, 21);
        let params = tools[21].params;
    } else if name == "set_reminder"@ {
        lemma_first_named(tools, name, 22);
        let params = tools[22].params;
        if raw.carries_required(params) {
            assert(params[0].required);
            assert(params[1].required);
            assert(params[2].required);
        }
    } else if name == "list_reminders"@ {
        lemma_first_named(tools, name, 23);
        let params = tools[23].params;
    } else if name == "cancel_reminder"@ {
        lemma_first_named(tools, name, 24);
        let params = tools[24].params;
        if raw.carries_required(params) {
            assert(params[0].required);
        }
    } else if name == "add_trusted_user"@ {
        lemma_first_named(tools, name, 25);
        let params = tools[25].params;
        if raw.carries_required(params) {
            assert(params[0].required);
        }
    } else if name == "remove_trusted_user"@ {
        lemma_first_named(tools, name, 26);
        let params = tools[26].params;
        if raw.carries_required(params) {
            assert(params[0].required);
        }
    } else if name == "done"@ {
        lemma_first_named(tools, name, 27);
        let params = tools[27].params;
    } else {
        lemma_not_named(tools, name);
    }
}

} // verus!
