//! The conversation history in words.
use crate::bridge::{
    json_inner_number, json_inner_text, json_member, read_json_inner_number, read_json_inner_text,
    read_json_member,
};
use crate::options::{first_name, subcommand, CommandOption};
use crate::profile::{called, tag_list, Profile, UserProfile};
use crate::settings::{channel_tag, mention_channel};
use crate::text::{
    byte_prefix, decimal, first_chars, get_bytes, join, joined, no_texts, opt_text, push_text,
    same_text, take_chars, texts, to_decimal,
};
use vstd::prelude::*;

verus! {

/// A message of the history, as far as it says.
#[derive(Debug, PartialEq, Eq)]
pub struct HistoryMessage {
    pub role: Option<String>,
    pub content: Option<String>,
    pub channel_id: Option<u64>,
    pub timestamp: Option<String>,
}

/// A message of the history as values.
pub struct Entry {
    pub role: Option<Seq<char>>,
    pub content: Option<Seq<char>>,
    pub channel_id: Option<u64>,
    pub timestamp: Option<Seq<char>>,
}

impl View for HistoryMessage {
    type V = Entry;

    open spec fn view(&self) -> Entry {
        Entry {
            role: opt_text(self.role),
            content: opt_text(self.content),
            channel_id: self.channel_id,
            timestamp: opt_text(self.timestamp),
        }
    }
}

/// Messages as values.
pub open spec fn entries(history: Seq<HistoryMessage>) -> Seq<Entry> {
    history.map_values(|m: HistoryMessage| m@)
}

/// A message of the history from its JSON form.
pub fn read_history_message(json: &str) -> (r: HistoryMessage)
    ensures
        r@ == (Entry {
            role: json_member(json@, "role"@),
            content: json_member(json@, "content"@),
            channel_id: json_inner_number(json@, "discord_context"@, "channel_id"@),
            timestamp: json_inner_text(json@, "discord_context"@, "timestamp"@),
        }),
{
    HistoryMessage {
        role: read_json_member(json, "role"),
        content: read_json_member(json, "content"),
        channel_id: read_json_inner_number(json, "discord_context", "channel_id"),
        timestamp: read_json_inner_text(json, "discord_context", "timestamp"),
    }
}

/// How many messages the listing shows.
pub const SHOWN_MESSAGES: usize = 10;

/// How many messages are the user's.
pub open spec fn turns(history: Seq<Entry>) -> nat
    decreases history.len(),
{
    if history.len() == 0 {
        0
    } else {
        turns(history.drop_last()) + (if history.last().role == Some("user"@) {
            1nat
        } else {
            0nat
        })
    }
}

/// The messages with content, in order.
pub open spec fn with_content(history: Seq<Entry>) -> Seq<Entry>
    decreases history.len(),
{
    if history.len() == 0 {
        Seq::empty()
    } else {
        let rest = with_content(history.drop_last());
        if history.last().content is Some {
            rest.push(history.last())
        } else {
            rest
        }
    }
}

/// The last messages with content, in order.
pub open spec fn recent(history: Seq<Entry>) -> Seq<Entry> {
    let all = with_content(history);
    if all.len() <= SHOWN_MESSAGES {
        all
    } else {
        all.skip(all.len() - SHOWN_MESSAGES)
    }
}

/// A message in words: who, where, when, and how it begins.
pub open spec fn entry_line(m: Entry) -> Seq<char> {
    "["@ + (match m.role {
        Some(role) => role,
        None => "?"@,
    }) + (match m.channel_id {
        Some(id) => " in "@ + channel_tag(id),
        None => ""@,
    }) + (match m.timestamp {
        Some(time) => match byte_prefix(time, 10) {
            Some(date) => " on "@ + date,
            None => ""@,
        },
        None => ""@,
    }) + "] "@ + (match m.content {
        Some(content) => first_chars(content, 80),
        None => ""@,
    })
}

/// Messages in words.
pub open spec fn entry_lines(history: Seq<Entry>) -> Seq<Seq<char>> {
    history.map_values(|m: Entry| entry_line(m))
}

/// The lines of the listing.
pub open spec fn history_lines(profile: Profile, history: Seq<Entry>) -> Seq<Seq<char>> {
    seq![
        "**History for "@ + called(profile) + "**"@,
        "Scope: all servers and channels where you used housebot"@,
    ] + (if profile.tags.len() > 0 {
        seq!["Profile interests: "@ + tag_list(profile)]
    } else {
        seq![]
    }) + (if history.len() == 0 {
        seq!["No conversation history yet."@]
    } else {
        seq![
            "Total messages: "@ + decimal(history.len()) + " ("@ + decimal(turns(history))
                + " turns)"@,
            "Recent interactions:"@,
        ] + entry_lines(recent(history)) + (if history.len() > SHOWN_MESSAGES {
            seq!["... and "@ + decimal((history.len() - SHOWN_MESSAGES) as nat)
                + " more messages"@]
        } else {
            seq![]
        })
    })
}

/// A message in words.
fn describe_entry(m: &HistoryMessage) -> (r: String)
    ensures
        r@ == entry_line(m@),
{
    let role = match &m.role {
        Some(role) => role.as_str(),
        None => "?",
    };
    let place = match m.channel_id {
        Some(id) => {
            let tag = mention_channel(id);
            " in ".to_owned().concat(tag.as_str())
        },
        None => "".to_owned(),
    };
    let date = match &m.timestamp {
        Some(time) => match get_bytes(time.as_str(), 10) {
            Some(date) => " on ".to_owned().concat(date),
            None => "".to_owned(),
        },
        None => "".to_owned(),
    };
    let preview = match &m.content {
        Some(content) => take_chars(content.as_str(), 80),
        None => "",
    };
    "[".to_owned().concat(role).concat(place.as_str()).concat(date.as_str()).concat("] ").concat(
        preview,
    )
}

proof fn lemma_entries_take(history: Seq<HistoryMessage>, i: int)
    requires
        0 <= i < history.len(),
    ensures
        entries(history.take(i + 1)).drop_last() == entries(history.take(i)),
        entries(history.take(i + 1)).last() == history[i]@,
{
    assert(entries(history.take(i + 1)).drop_last() =~= entries(history.take(i)));
}

/// How many messages are the user's.
fn count_turns(history: &Vec<HistoryMessage>) -> (r: usize)
    ensures
        r == turns(entries(history@)),
{
    let n: usize = history.len();
    let mut count: usize = 0;
    let mut i: usize = 0;
    while i < n
        invariant
            n == history@.len(),
            i <= n,
            count <= i,
            count == turns(entries(history@.take(i as int))),
        decreases n - i,
    {
        proof {
            lemma_entries_take(history@, i as int);
        }
        if let Some(role) = &history[i].role {
            if same_text(role.as_str(), "user") {
                count += 1;
            }
        }
        i += 1;
    }
    proof {
        assert(history@.take(n as int) =~= history@);
    }
    count
}

/// The lines for all messages with content.
fn describe_entries(history: &Vec<HistoryMessage>) -> (r: Vec<String>)
    ensures
        texts(r@) == entry_lines(with_content(entries(history@))),
{
    let mut lines = no_texts();
    let n: usize = history.len();
    let mut i: usize = 0;
    proof {
        assert(entry_lines(with_content(entries(history@.take(0)))) =~= Seq::empty());
    }
    while i < n
        invariant
            n == history@.len(),
            i <= n,
            texts(lines@) == entry_lines(with_content(entries(history@.take(i as int)))),
        decreases n - i,
    {
        proof {
            lemma_entries_take(history@, i as int);
        }
        let ghost before = with_content(entries(history@.take(i as int)));
        if history[i].content.is_some() {
            let line = describe_entry(&history[i]);
            push_text(&mut lines, line.as_str());
            proof {
                assert(entry_lines(before.push(history@[i as int]@)) =~= entry_lines(before).push(
                    entry_line(history@[i as int]@),
                ));
            }
        }
        i += 1;
    }
    proof {
        assert(history@.take(n as int) =~= history@);
    }
    lines
}

/// The history of a user in words: the profile's interests, how much there is,
/// and how the last messages begin.
pub fn render_history(profile: &UserProfile, history: &Vec<HistoryMessage>) -> (r: String)
    ensures
        r@ == joined(history_lines(profile@, entries(history@)), "\n"@),
{
    let mut lines = no_texts();
    push_text(
        &mut lines,
        "**History for ".to_owned().concat(profile.best_name()).concat("**").as_str(),
    );
    push_text(&mut lines, "Scope: all servers and channels where you used housebot");
    if profile.tags.len() > 0 {
        let tags = join(&profile.tags, ", ");
        push_text(&mut lines, "Profile interests: ".to_owned().concat(tags.as_str()).as_str());
    }
    let total: usize = history.len();
    if total == 0 {
        push_text(&mut lines, "No conversation history yet.");
        proof {
            assert(texts(lines@) =~= history_lines(profile@, entries(history@)));
        }
        return join(&lines, "\n");
    }
    let count = count_turns(history);
    let total_text = to_decimal(total as u64);
    let turn_text = to_decimal(count as u64);
    push_text(
        &mut lines,
        "Total messages: ".to_owned().concat(total_text.as_str()).concat(" (").concat(
            turn_text.as_str(),
        ).concat(" turns)").as_str(),
    );
    push_text(&mut lines, "Recent interactions:");
    let ghost head = texts(lines@);
    let all = describe_entries(history);
    let shown: usize = all.len();
    let mut i: usize = if shown <= SHOWN_MESSAGES {
        0
    } else {
        shown - SHOWN_MESSAGES
    };
    let ghost from = i as int;
    proof {
        assert(texts(all@).subrange(from, from) =~= Seq::empty());
        assert(head + Seq::<Seq<char>>::empty() =~= head);
    }
    while i < shown
        invariant
            shown == all@.len(),
            0 <= from <= i <= shown,
            texts(lines@) == head + texts(all@).subrange(from, i as int),
        decreases shown - i,
    {
        push_text(&mut lines, all[i].as_str());
        i += 1;
        proof {
            assert(head + texts(all@).subrange(from, i as int) =~= (head + texts(all@).subrange(
                from,
                i - 1,
            )).push(all@[i - 1]@));
        }
    }
    proof {
        let kept = with_content(entries(history@));
        assert(entry_lines(kept).len() == kept.len());
        assert(recent(entries(history@)) =~= kept.skip(from));
        assert forall|k: int| from <= k < shown implies #[trigger] texts(all@)[k] == entry_line(
            kept[k],
        ) by {
            assert(entry_lines(kept)[k] == entry_line(kept[k]));
        }
        assert(texts(all@).subrange(from, shown as int) =~= entry_lines(
            recent(entries(history@)),
        ));
    }
    if total > SHOWN_MESSAGES {
        let more = to_decimal((total - SHOWN_MESSAGES) as u64);
        push_text(
            &mut lines,
            "... and ".to_owned().concat(more.as_str()).concat(" more messages").as_str(),
        );
    }
    proof {
        assert(texts(lines@) =~= history_lines(profile@, entries(history@)));
    }
    join(&lines, "\n")
}

// ------------------------------------------------------------------- /history

/// What is to be done for `/history`: to reply, or to clear the history and then
/// reply.
#[derive(Debug, PartialEq, Eq)]
pub enum HistoryPlan {
    Reply(String),
    Clear { reply: String },
}

/// `/history`.
pub fn handle_history_interaction(
    options: &Vec<CommandOption>,
    profile: &UserProfile,
    history: &Vec<HistoryMessage>,
) -> (r: HistoryPlan)
    ensures
        match r {
            HistoryPlan::Clear { reply } => first_name(options@) == Some("clear"@) && reply@
                == "✅ Conversation history cleared for "@ + called(profile@) + "."@,
            HistoryPlan::Reply(text) => first_name(options@) != Some("clear"@) && text@ == joined(
                history_lines(profile@, entries(history@)),
                "\n"@,
            ),
        },
{
    if let Some(name) = subcommand(options) {
        if same_text(name, "clear") {
            return HistoryPlan::Clear {
                reply: "✅ Conversation history cleared for ".to_owned().concat(
                    profile.best_name(),
                ).concat("."),
            };
        }
    }
    HistoryPlan::Reply(render_history(profile, history))
}

// ----------------------------------------------------------------------- laws

/// However long the history is, at most ten messages are shown, and they are the
/// last ones with content.
pub proof fn law_listing_shows_the_last_messages(history: Seq<Entry>)
    ensures
        recent(history).len() <= 10,
        recent(history).len() < with_content(history).len() ==> recent(history).len() == 10,
        recent(history) == with_content(history).skip(
            with_content(history).len() - recent(history).len(),
        ),
{
    assert(with_content(history).skip(0) =~= with_content(history));
}

/// Every message that is shown has content.
pub proof fn law_only_messages_with_content_are_shown(history: Seq<Entry>, i: int)
    requires
        0 <= i < recent(history).len(),
    ensures
        recent(history)[i].content is Some,
{
    lemma_all_have_content(history);
}

proof fn lemma_all_have_content(history: Seq<Entry>)
    ensures
        forall|i: int|
            0 <= i < with_content(history).len() ==> (#[trigger] with_content(history)[i]).content
                is Some,
    decreases history.len(),
{
    if history.len() > 0 {
        lemma_all_have_content(history.drop_last());
    }
}

/// A turn is a message of the user, and the messages that can be shown are those
/// with content, in order.
pub proof fn law_turns_are_the_users_messages(history: Seq<Entry>)
    ensures
        turns(history) == history.filter(|m: Entry| m.role == Some("user"@)).len(),
        with_content(history) == history.filter(|m: Entry| m.content is Some),
    decreases history.len(),
{
    reveal(Seq::filter);
    if history.len() > 0 {
        law_turns_are_the_users_messages(history.drop_last());
    }
}

/// A message is shown with its role, the channel and the day where they are known,
/// and how its content begins, up to eighty characters.
pub proof fn law_messages_are_shown_by_their_beginning(m: Entry)
    ensures
        entry_line(m) == "["@ + (if m.role is Some {
            m.role.unwrap()
        } else {
            "?"@
        }) + (if m.channel_id is Some {
            " in "@ + ("<#"@ + decimal(m.channel_id.unwrap() as nat) + ">"@)
        } else {
            ""@
        }) + (if m.timestamp is Some && byte_prefix(m.timestamp.unwrap(), 10) is Some {
            " on "@ + byte_prefix(m.timestamp.unwrap(), 10).unwrap()
        } else {
            ""@
        }) + "] "@ + (if m.content is Some {
            first_chars(m.content.unwrap(), 80)
        } else {
            ""@
        }),
{
}

/// The listing names the user and the interests that are known, counts all messages
/// and turns, shows the recent messages in order, and tells how many more there are.
pub proof fn law_listing_counts_and_shows(profile: Profile, history: Seq<Entry>, i: int)
    ensures
        ({
            let lines = history_lines(profile, history);
            let k: int = if profile.tags.len() > 0 {
                3
            } else {
                2
            };
            let shown = recent(history).len() as int;
            &&& lines[0] == "**History for "@ + called(profile) + "**"@
            &&& lines[1] == "Scope: all servers and channels where you used housebot"@
            &&& history.len() > 0 ==> lines[k + 1] == "Recent interactions:"@
            &&& profile.tags.len() > 0 ==> lines[2] == "Profile interests: "@ + joined(
                profile.tags,
                ", "@,
            )
            &&& history.len() == 0 ==> lines.len() == k + 1 && lines[k]
                == "No conversation history yet."@
            &&& history.len() > 0 ==> lines[k] == "Total messages: "@ + decimal(history.len())
                + " ("@ + decimal(turns(history)) + " turns)"@
            &&& history.len() > 0 && 0 <= i < shown ==> lines[k + 2 + i] == entry_line(
                recent(history)[i],
            )
            &&& 0 < history.len() <= 10 ==> lines.len() == k + 2 + shown
            &&& history.len() > 10 ==> lines.len() == k + 3 + shown && lines.last() == "... and "@
                + decimal((history.len() - 10) as nat) + " more messages"@
        }),
{
    let head = seq![
        "**History for "@ + called(profile) + "**"@,
        "Scope: all servers and channels where you used housebot"@,
    ] + (if profile.tags.len() > 0 {
        seq!["Profile interests: "@ + tag_list(profile)]
    } else {
        seq![]
    });
    let lines = history_lines(profile, history);
    if history.len() > 0 {
        let body = entry_lines(recent(history));
        let top = seq![
            "Total messages: "@ + decimal(history.len()) + " ("@ + decimal(turns(history))
                + " turns)"@,
            "Recent interactions:"@,
        ];
        let end = if history.len() > SHOWN_MESSAGES {
            seq!["... and "@ + decimal((history.len() - SHOWN_MESSAGES) as nat)
                + " more messages"@]
        } else {
            seq![]
        };
        assert(lines == head + (top + body + end));
        assert(lines[head.len() as int] == (top + body + end)[0]);
        if 0 <= i < body.len() {
            assert(body[i] == entry_line(recent(history)[i]));
            assert((top + body + end)[2 + i] == body[i]);
        }
    }
}

/// A message of the history is what its fields say.
pub proof fn law_entries_are_the_fields(m: HistoryMessage)
    ensures
        m@.role == opt_text(m.role),
        m@.content == opt_text(m.content),
        m@.channel_id == m.channel_id,
        m@.timestamp == opt_text(m.timestamp),
{
}

} // verus!
