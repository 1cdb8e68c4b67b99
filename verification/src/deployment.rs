//! Deployment notifications, and who may act on them.
use crate::text::{
    contains, either, ends, has_text, join, joined, law_joined_texts_hold_each_part,
    law_joined_texts_keep_neighbours, law_lower_case_keeps_parts, law_parts_of_parts_are_found,
    law_trimming_leaves_the_middle, lower, opt_text, same_text, texts, to_ascii_lowercase, trim_by,
    trim_either,
};
use vstd::prelude::*;

verus! {

// ------------------------------------------------------------ notifications

/// What a deployment notification reports.
#[derive(Debug, PartialEq, Eq)]
pub struct DeploymentEvent {
    pub succeeded: bool,
    pub commit: Option<String>,
}

/// One field of an embed.
#[derive(Debug, PartialEq, Eq)]
pub struct EmbedField {
    pub name: String,
    pub value: String,
}

/// One embed of a message.
#[derive(Debug, PartialEq, Eq)]
pub struct MessageEmbed {
    pub title: Option<String>,
    pub description: Option<String>,
    pub fields: Vec<EmbedField>,
}

/// The parts of a channel message that a notification is read from.
#[derive(Debug, PartialEq, Eq)]
pub struct ChannelMessage {
    pub webhook_id: Option<u64>,
    pub content: String,
    pub embeds: Vec<MessageEmbed>,
}

/// Success, failure or neither, as the text says it.
pub open spec fn classification(text: Seq<char>) -> Option<bool> {
    let normalized = lower(text);
    if has_text(normalized, "deployment succeeded"@) || has_text(normalized, "build succeeded"@) {
        Some(true)
    } else if has_text(normalized, "deployment failed"@) {
        Some(false)
    } else {
        None
    }
}

/// Success, failure or neither, as the text says it.
pub fn classify_deployment_text(text: &str) -> (r: Option<bool>)
    ensures
        r == classification(text@),
{
    let normalized = to_ascii_lowercase(text);
    if contains(normalized.as_str(), "deployment succeeded") || contains(
        normalized.as_str(),
        "build succeeded",
    ) {
        Some(true)
    } else if contains(normalized.as_str(), "deployment failed") {
        Some(false)
    } else {
        None
    }
}

/// The text as a list of one, or of none.
pub open spec fn present(s: Option<String>) -> Seq<Seq<char>> {
    match s {
        Some(s) => seq![s@],
        None => Seq::empty(),
    }
}

/// The texts of an embed: title, description, then the fields' values.
pub open spec fn embed_texts(embed: MessageEmbed) -> Seq<Seq<char>> {
    present(embed.title) + present(embed.description) + embed.fields@.map_values(
        |f: EmbedField| f.value@,
    )
}

/// The texts of several embeds, in order.
pub open spec fn embeds_texts(embeds: Seq<MessageEmbed>) -> Seq<Seq<char>>
    decreases embeds.len(),
{
    if embeds.len() == 0 {
        Seq::empty()
    } else {
        embeds_texts(embeds.drop_last()) + embed_texts(embeds.last())
    }
}

/// All that a message says: its embeds' texts, then its content.
pub open spec fn message_text(message: ChannelMessage) -> Seq<char> {
    joined(embeds_texts(message.embeds@).push(message.content@), " "@)
}

/// The value of the first field with the name `commit` in any case.
pub open spec fn field_commit(fields: Seq<EmbedField>) -> Option<Seq<char>>
    decreases fields.len(),
{
    if fields.len() == 0 {
        None
    } else if lower(fields[0].name@) == lower("commit"@) {
        Some(trim_by(fields[0].value@, either('`', '`')))
    } else {
        field_commit(fields.drop_first())
    }
}

/// The commit that the embeds name, without its code quotes: that of the first
/// embed which names one.
pub open spec fn embeds_commit(embeds: Seq<MessageEmbed>) -> Option<Seq<char>>
    decreases embeds.len(),
{
    if embeds.len() == 0 {
        None
    } else if field_commit(embeds[0].fields@) is Some {
        field_commit(embeds[0].fields@)
    } else {
        embeds_commit(embeds.drop_first())
    }
}

/// All that a message says.
fn collect_text(message: &ChannelMessage) -> (r: String)
    ensures
        r@ == message_text(*message),
{
    let mut parts: Vec<String> = Vec::new();
    let mut i: usize = 0;
    let embeds = &message.embeds;
    proof {
        assert(embeds@.take(0) =~= Seq::empty());
        assert(texts(parts@) =~= Seq::empty());
    }
    while i < embeds.len()
        invariant
            i <= embeds@.len(),
            texts(parts@) == embeds_texts(embeds@.take(i as int)),
        decreases embeds.len() - i,
    {
        let embed = &embeds[i];
        let ghost before = texts(parts@);
        match &embed.title {
            Some(title) => {
                parts.push(title.clone());
            },
            None => {},
        }
        proof {
            assert(texts(parts@) =~= before + present(embed.title));
        }
        match &embed.description {
            Some(description) => {
                parts.push(description.clone());
            },
            None => {},
        }
        proof {
            assert(texts(parts@) =~= before + present(embed.title) + present(embed.description));
        }
        let ghost head = texts(parts@);
        let ghost values = embed.fields@.map_values(|f: EmbedField| f.value@);
        let mut j: usize = 0;
        while j < embed.fields.len()
            invariant
                j <= embed.fields@.len(),
                values == embed.fields@.map_values(|f: EmbedField| f.value@),
                texts(parts@) == head + values.take(j as int),
            decreases embed.fields.len() - j,
        {
            let ghost were = texts(parts@);
            parts.push(embed.fields[j].value.clone());
            proof {
                assert(texts(parts@) =~= were.push(values[j as int]));
                assert(values.take(j + 1) =~= values.take(j as int).push(values[j as int]));
                assert(texts(parts@) =~= head + values.take(j + 1));
            }
            j += 1;
        }
        proof {
            assert(values.take(j as int) =~= values);
            assert(embeds@.take(i + 1).drop_last() =~= embeds@.take(i as int));
            assert(texts(parts@) =~= before + embed_texts(*embed));
        }
        i += 1;
    }
    let ghost before = texts(parts@);
    parts.push(message.content.clone());
    proof {
        assert(embeds@.take(i as int) =~= embeds@);
        assert(texts(parts@) =~= before.push(message.content@));
    }
    join(&parts, " ")
}

/// The commit that the fields name.
fn find_field_commit(fields: &Vec<EmbedField>) -> (r: Option<String>)
    ensures
        opt_text(r) == field_commit(fields@),
{
    let mut i: usize = 0;
    proof {
        assert(fields@.skip(0) =~= fields@);
    }
    while i < fields.len()
        invariant
            i <= fields@.len(),
            field_commit(fields@) == field_commit(fields@.skip(i as int)),
        decreases fields.len() - i,
    {
        let name = to_ascii_lowercase(fields[i].name.as_str());
        let wanted = to_ascii_lowercase("commit");
        if same_text(name.as_str(), wanted.as_str()) {
            return Some(trim_either(fields[i].value.as_str(), '`', '`').to_owned());
        }
        proof {
            assert(fields@.skip(i as int).drop_first() =~= fields@.skip(i + 1));
        }
        i += 1;
    }
    None
}

/// The commit that the embeds name.
fn find_commit(embeds: &Vec<MessageEmbed>) -> (r: Option<String>)
    ensures
        opt_text(r) == embeds_commit(embeds@),
{
    let mut i: usize = 0;
    proof {
        assert(embeds@.skip(0) =~= embeds@);
    }
    while i < embeds.len()
        invariant
            i <= embeds@.len(),
            embeds_commit(embeds@) == embeds_commit(embeds@.skip(i as int)),
        decreases embeds.len() - i,
    {
        let found = find_field_commit(&embeds[i].fields);
        if found.is_some() {
            return found;
        }
        proof {
            assert(embeds@.skip(i as int).drop_first() =~= embeds@.skip(i + 1));
        }
        i += 1;
    }
    None
}

/// The deployment that a message reports: one that a webhook sent and whose
/// text says success or failure.
pub fn deployment_event(message: &ChannelMessage) -> (r: Option<DeploymentEvent>)
    ensures
        r is Some <==> message.webhook_id is Some && classification(message_text(*message)) is Some,
        r matches Some(event) ==> Some(event.succeeded) == classification(message_text(*message))
            && opt_text(event.commit) == embeds_commit(message.embeds@),
{
    if message.webhook_id.is_none() {
        return None;
    }
    let text = collect_text(message);
    match classify_deployment_text(text.as_str()) {
        Some(succeeded) => Some(DeploymentEvent { succeeded, commit: find_commit(&message.embeds) }),
        None => None,
    }
}

/// May this user control deployments from this channel?
pub fn rollback_allowed(
    owner_id: u64,
    requesting_user: u64,
    channel: u64,
    expected_channel: u64,
) -> (r: bool)
    ensures
        r <==> owner_id != 0 && owner_id == requesting_user && channel == expected_channel,
{
    owner_id != 0 && owner_id == requesting_user && channel == expected_channel
}

// ------------------------------------------------ what is read from a message

/// The texts of an embed stand among those of all embeds, in order.
proof fn lemma_embed_among(embeds: Seq<MessageEmbed>, i: int) -> (at: int)
    requires
        0 <= i < embeds.len(),
    ensures
        0 <= at <= at + embed_texts(embeds[i]).len() <= embeds_texts(embeds).len(),
        embeds_texts(embeds).subrange(at, at + embed_texts(embeds[i]).len()) == embed_texts(
            embeds[i],
        ),
    decreases embeds.len(),
{
    let rest = embeds_texts(embeds.drop_last());
    let own = embed_texts(embeds[i]);
    if i == embeds.len() - 1 {
        assert((rest + own).subrange(rest.len() as int, (rest + own).len() as int) =~= own);
        rest.len() as int
    } else {
        let at = lemma_embed_among(embeds.drop_last(), i);
        assert(embeds_texts(embeds).subrange(at, at + own.len()) =~= rest.subrange(
            at,
            at + own.len(),
        ));
        at
    }
}

/// One of an embed's texts stands in the text of the message.
proof fn lemma_embed_text_is_read(message: ChannelMessage, i: int, k: int)
    requires
        0 <= i < message.embeds@.len(),
        0 <= k < embed_texts(message.embeds@[i]).len(),
    ensures
        has_text(message_text(message), embed_texts(message.embeds@[i])[k]),
        k + 1 < embed_texts(message.embeds@[i]).len() ==> has_text(
            message_text(message),
            embed_texts(message.embeds@[i])[k] + " "@ + embed_texts(message.embeds@[i])[k + 1],
        ),
{
    let own = embed_texts(message.embeds@[i]);
    let at = lemma_embed_among(message.embeds@, i);
    let embeds = embeds_texts(message.embeds@);
    let all = embeds.push(message.content@);
    assert(embeds.subrange(at, at + own.len())[k] == all[at + k]);
    law_joined_texts_hold_each_part(all, " "@, at + k);
    if k + 1 < own.len() {
        assert(embeds.subrange(at, at + own.len())[k + 1] == all[at + k + 1]);
        law_joined_texts_keep_neighbours(all, " "@, at + k);
    }
}

/// Nothing that a message says is passed over: its content, and the title, the
/// description and the value of each field of each of its embeds stand whole in the
/// text that is read; the content comes last, and a description behind its title.
pub proof fn law_all_of_a_message_is_read(message: ChannelMessage, i: int, j: int)
    requires
        0 <= i < message.embeds@.len(),
    ensures
        has_text(message_text(message), message.content@),
        ends(message_text(message), message.content@),
        message.embeds@[i].title matches Some(title) ==> has_text(message_text(message), title@),
        message.embeds@[i].description matches Some(description) ==> has_text(
            message_text(message),
            description@,
        ),
        message.embeds@[i].title matches Some(title) ==> (message.embeds@[i].description matches Some(
            description,
        ) ==> has_text(message_text(message), title@ + " "@ + description@)),
        0 <= j < message.embeds@[i].fields@.len() ==> has_text(
            message_text(message),
            message.embeds@[i].fields@[j].value@,
        ),
{
    let embed = message.embeds@[i];
    let own = embed_texts(embed);
    law_content_is_read(message);
    let title = present(embed.title);
    let description = present(embed.description);
    if let Some(t) = embed.title {
        assert(own[0] == t@);
        lemma_embed_text_is_read(message, i, 0);
    }
    if let Some(d) = embed.description {
        assert(own[title.len() as int] == d@);
        lemma_embed_text_is_read(message, i, title.len() as int);
    }
    if 0 <= j < embed.fields@.len() {
        let k = title.len() + description.len() + j;
        assert(own[k] == embed.fields@[j].value@);
        lemma_embed_text_is_read(message, i, k);
    }
}

/// The content of a message is read whole, last of all; of a message without embeds
/// it is all that is read.
pub proof fn law_content_is_read(message: ChannelMessage)
    ensures
        has_text(message_text(message), message.content@),
        ends(message_text(message), message.content@),
        message.embeds@.len() == 0 ==> message_text(message) == message.content@,
{
    let embeds = embeds_texts(message.embeds@);
    let all = embeds.push(message.content@);
    law_joined_texts_hold_each_part(all, " "@, embeds.len() as int);
    law_joined_texts_keep_neighbours(all, " "@, embeds.len() as int);
}

/// A text in which a success is reported, in whatever case, reports a success,
/// whatever else it holds.
pub proof fn law_success_in_a_part_counts(text: Seq<char>, part: Seq<char>)
    requires
        has_text(text, part),
        has_text(lower(part), "deployment succeeded"@) || has_text(
            lower(part),
            "build succeeded"@,
        ),
    ensures
        classification(text) == Some(true),
{
    law_lower_case_keeps_parts(text, part);
    if has_text(lower(part), "deployment succeeded"@) {
        law_parts_of_parts_are_found(lower(text), lower(part), "deployment succeeded"@);
    } else {
        law_parts_of_parts_are_found(lower(text), lower(part), "build succeeded"@);
    }
}

/// A text in which a failure is reported, in whatever case, and no success, reports
/// a failure; one in which neither is reported reports nothing.
pub proof fn law_failures_are_told_from_the_rest(text: Seq<char>, part: Seq<char>)
    requires
        !has_text(lower(text), "deployment succeeded"@),
        !has_text(lower(text), "build succeeded"@),
    ensures
        has_text(text, part) && has_text(lower(part), "deployment failed"@) ==> classification(text)
            == Some(false),
        !has_text(lower(text), "deployment failed"@) ==> classification(text) is None,
{
    if has_text(text, part) && has_text(lower(part), "deployment failed"@) {
        law_lower_case_keeps_parts(text, part);
        law_parts_of_parts_are_found(lower(text), lower(part), "deployment failed"@);
    }
}

/// A message in which any part reports a success, in whatever case, reports a
/// success: its content, or the title, the description or a field's value of any of
/// its embeds.
pub proof fn law_success_is_read_wherever_it_stands(message: ChannelMessage, part: Seq<char>)
    requires
        part == message.content@ || exists|i: int|
            0 <= i < message.embeds@.len() && {
                let embed = #[trigger] message.embeds@[i];
                ||| opt_text(embed.title) == Some(part)
                ||| opt_text(embed.description) == Some(part)
                ||| exists|j: int|
                    0 <= j < embed.fields@.len() && #[trigger] embed.fields@[j].value@ == part
            },
        has_text(lower(part), "deployment succeeded"@) || has_text(
            lower(part),
            "build succeeded"@,
        ),
    ensures
        classification(message_text(message)) == Some(true),
{
    if part == message.content@ {
        law_content_is_read(message);
    } else {
        let i = choose|i: int|
            0 <= i < message.embeds@.len() && {
                let embed = #[trigger] message.embeds@[i];
                ||| opt_text(embed.title) == Some(part)
                ||| opt_text(embed.description) == Some(part)
                ||| exists|j: int|
                    0 <= j < embed.fields@.len() && #[trigger] embed.fields@[j].value@ == part
            };
        let embed = message.embeds@[i];
        law_all_of_a_message_is_read(message, i, 0);
        if opt_text(embed.title) != Some(part) && opt_text(embed.description) != Some(part) {
            let j = choose|j: int|
                0 <= j < embed.fields@.len() && #[trigger] embed.fields@[j].value@ == part;
            law_all_of_a_message_is_read(message, i, j);
        }
    }
    law_success_in_a_part_counts(message_text(message), part);
}

/// The commit that the fields name is that of the first field called `commit`, in
/// whatever case: its value without the code quotes around it.
pub proof fn law_first_commit_field_counts(fields: Seq<EmbedField>, i: int, commit: Seq<char>)
    requires
        0 <= i < fields.len(),
        lower(fields[i].name@) == "commit"@,
        forall|k: int| 0 <= k < i ==> lower((#[trigger] fields[k]).name@) != "commit"@,
        commit.len() > 0 ==> commit[0] != '`' && commit.last() != '`',
    ensures
        fields[i].value@ == commit ==> field_commit(fields) == Some(commit),
        fields[i].value@ == seq!['`'] + commit + seq!['`'] ==> field_commit(fields) == Some(commit),
        field_commit(fields) is Some,
    decreases i,
{
    lemma_commit_is_lower_case();
    if i == 0 {
        let p = either('`', '`');
        law_trimming_leaves_the_middle(Seq::empty(), commit, Seq::empty(), p);
        assert(Seq::empty() + commit + Seq::empty() =~= commit);
        law_trimming_leaves_the_middle(seq!['`'], commit, seq!['`'], p);
    } else {
        assert(lower(fields[0].name@) != "commit"@);
        let rest = fields.drop_first();
        assert forall|k: int| 0 <= k < i - 1 implies lower((#[trigger] rest[k]).name@)
            != "commit"@ by {
            assert(rest[k] == fields[k + 1]);
        }
        law_first_commit_field_counts(rest, i - 1, commit);
    }
}

/// The word is written in lower case.
proof fn lemma_commit_is_lower_case()
    ensures
        lower("commit"@) == "commit"@,
{
    reveal_strlit("commit");
    assert(lower("commit"@) =~= "commit"@);
}

/// Fields none of which is called `commit` name no commit.
pub proof fn law_other_fields_name_no_commit(fields: Seq<EmbedField>)
    requires
        forall|k: int| 0 <= k < fields.len() ==> lower((#[trigger] fields[k]).name@) != "commit"@,
    ensures
        field_commit(fields) is None,
    decreases fields.len(),
{
    lemma_commit_is_lower_case();
    if fields.len() > 0 {
        assert(lower(fields[0].name@) != "commit"@);
        let rest = fields.drop_first();
        assert forall|k: int| 0 <= k < rest.len() implies lower((#[trigger] rest[k]).name@)
            != "commit"@ by {
            assert(rest[k] == fields[k + 1]);
        }
        law_other_fields_name_no_commit(rest);
    }
}

/// The commit that a message names is that of the first embed which names one.
pub proof fn law_first_embed_with_a_commit_counts(embeds: Seq<MessageEmbed>, i: int)
    requires
        0 <= i < embeds.len(),
        forall|k: int| 0 <= k < i ==> field_commit((#[trigger] embeds[k]).fields@) is None,
    ensures
        field_commit(embeds[i].fields@) is Some ==> embeds_commit(embeds) == field_commit(
            embeds[i].fields@,
        ),
        i + 1 == embeds.len() ==> embeds_commit(embeds) == field_commit(embeds[i].fields@),
    decreases i,
{
    if i == 0 {
        if embeds.len() == 1 {
            assert(embeds_commit(embeds.drop_first()) is None);
        }
    } else {
        assert(field_commit(embeds[0].fields@) is None);
        let rest = embeds.drop_first();
        assert forall|k: int| 0 <= k < i - 1 implies field_commit(
            (#[trigger] rest[k]).fields@,
        ) is None by {
            assert(rest[k] == embeds[k + 1]);
        }
        law_first_embed_with_a_commit_counts(rest, i - 1);
    }
}

/// The texts of a message are read in order, with a space between each two and
/// nothing besides: embed by embed, of each its title, its description and the values
/// of its fields; the content comes last.
pub proof fn law_texts_are_read_in_order(
    message: ChannelMessage,
    embeds: Seq<MessageEmbed>,
    embed: MessageEmbed,
    j: int,
)
    ensures
        message_text(message) == joined(
            embeds_texts(message.embeds@).push(message.content@),
            " "@,
        ),
        embeds_texts(Seq::empty()).len() == 0,
        embeds_texts(embeds.push(embed)) == embeds_texts(embeds) + embed_texts(embed),
        ({
            let own = embed_texts(embed);
            let a: int = if embed.title is Some {
                1
            } else {
                0
            };
            let b: int = if embed.description is Some {
                1
            } else {
                0
            };
            &&& own.len() == a + b + embed.fields@.len()
            &&& embed.title matches Some(title) ==> own[0] == title@
            &&& embed.description matches Some(description) ==> own[a] == description@
            &&& 0 <= j < embed.fields@.len() ==> own[a + b + j] == embed.fields@[j].value@
        }),
{
    assert(embeds.push(embed).drop_last() =~= embeds);
}

} // verus!
