//! The bot container's environment: dotenv files and which settings count.
use crate::text::{
    begins, blank, decimal, either, first_index, is_white_space, law_decimal_reads_back,
    law_lines_are_told_apart, law_split_at_the_first, law_trimmed_of_white_space,
    law_trimming_leaves_the_middle, lemma_first_index, lines, lines_of, no_texts, number_in,
    parse_u64, push_text, same_text, split_first, split_once, starts_with, strip_prefix, texts,
    trim, trim_by, trim_either, trim_end_by, trim_start_by, trimmed, without_prefix,
};
use vstd::prelude::*;

verus! {

/// Settings as texts.
pub open spec fn setting_texts(pairs: Seq<(String, String)>) -> Seq<(Seq<char>, Seq<char>)> {
    pairs.map_values(|p: (String, String)| (p.0@, p.1@))
}

/// A line without a leading `export`.
pub open spec fn without_export(line: Seq<char>) -> Seq<char> {
    match without_prefix(line, "export "@) {
        Some(rest) => rest,
        None => line,
    }
}

/// The setting that a line of a dotenv file makes: a name and a value around
/// the first `=`. Comments, blank names and other lines make none.
pub open spec fn line_setting(line: Seq<char>) -> Option<(Seq<char>, Seq<char>)> {
    match split_first(without_export(trimmed(line)), '=') {
        Some((name, value)) => {
            let name = trimmed(name);
            if name.len() == 0 || begins(name, "#"@) {
                None
            } else {
                Some((name, trim_by(trimmed(value), either('"', '\''))))
            }
        },
        None => None,
    }
}

/// The settings that the lines make, in order.
pub open spec fn lines_settings(lines: Seq<Seq<char>>) -> Seq<(Seq<char>, Seq<char>)>
    decreases lines.len(),
{
    if lines.len() == 0 {
        Seq::empty()
    } else {
        match line_setting(lines.last()) {
            Some(setting) => lines_settings(lines.drop_last()).push(setting),
            None => lines_settings(lines.drop_last()),
        }
    }
}

/// The settings that a dotenv file makes, in order.
pub open spec fn dotenv(contents: Seq<char>) -> Seq<(Seq<char>, Seq<char>)> {
    lines_settings(lines_of(contents))
}

/// The setting that a line makes.
fn read_line(line: &str) -> (r: Option<(String, String)>)
    ensures
        match r {
            Some(pair) => line_setting(line@) == Some((pair.0@, pair.1@)),
            None => line_setting(line@) is None,
        },
{
    let line = trim(line);
    let line = match strip_prefix(line, "export ") {
        Some(rest) => rest,
        None => line,
    };
    match split_once(line, '=') {
        Some((name, value)) => {
            let name = trim(name);
            if name.unicode_len() == 0 || starts_with(name, "#") {
                None
            } else {
                Some((name.to_owned(), trim_either(trim(value), '"', '\'').to_owned()))
            }
        },
        None => None,
    }
}

/// The settings that a dotenv file makes, in order.
pub fn parse_dotenv(contents: &str) -> (r: Vec<(String, String)>)
    ensures
        setting_texts(r@) == dotenv(contents@),
{
    let all = lines(contents);
    let mut r: Vec<(String, String)> = Vec::new();
    let mut i: usize = 0;
    proof {
        assert(texts(all@).take(0) =~= Seq::empty());
        assert(setting_texts(r@) =~= Seq::empty());
    }
    while i < all.len()
        invariant
            i <= all@.len(),
            setting_texts(r@) == lines_settings(texts(all@).take(i as int)),
        decreases all.len() - i,
    {
        let ghost before = setting_texts(r@);
        let ghost t = texts(all@).take(i + 1);
        proof {
            assert(t.drop_last() =~= texts(all@).take(i as int));
            assert(t.last() == all@[i as int]@);
        }
        match read_line(all[i].as_str()) {
            Some(pair) => {
                let ghost setting = (pair.0@, pair.1@);
                r.push(pair);
                proof {
                    assert(setting_texts(r@) =~= before.push(setting));
                }
            },
            None => {},
        }
        i += 1;
    }
    proof {
        assert(texts(all@).take(i as int) =~= texts(all@));
    }
    r
}

/// The last value that the settings give to `name`.
pub open spec fn setting(pairs: Seq<(Seq<char>, Seq<char>)>, name: Seq<char>) -> Option<Seq<char>>
    decreases pairs.len(),
{
    if pairs.len() == 0 {
        None
    } else if pairs.last().0 == name {
        Some(pairs.last().1)
    } else {
        setting(pairs.drop_last(), name)
    }
}

/// The settings of the given names, in the order of the names.
pub open spec fn settings_of(
    names: Seq<Seq<char>>,
    pairs: Seq<(Seq<char>, Seq<char>)>,
) -> Seq<(Seq<char>, Seq<char>)>
    decreases names.len(),
{
    if names.len() == 0 {
        Seq::empty()
    } else {
        match setting(pairs, names.last()) {
            Some(value) => settings_of(names.drop_last(), pairs).push((names.last(), value)),
            None => settings_of(names.drop_last(), pairs),
        }
    }
}

/// The names of the settings that the bot's container gets.
pub open spec fn env_var_names() -> Seq<Seq<char>> {
    seq![
        "DISCORD_BOT_TOKEN"@,
        "OWNER_DISCORD_ID"@,
        "DATABASE_URL"@,
        "LLM_BASE_URL"@,
        "LLM_MODEL"@,
        "LLM_API_KEY"@,
        "MAX_HISTORY_TURNS"@,
        "MAX_CONTEXT_TOKENS"@,
        "CONVERSATION_IDLE_TIMEOUT"@,
        "JELLYFIN_URL"@,
        "JELLYFIN_API_KEY"@,
        "LLAMA_CPP_URL"@,
        "LLAMA_CPP_MODEL"@,
        "GITHUB_APP_ID"@,
        "GITHUB_APP_PRIVATE_KEY"@,
        "GITHUB_INSTALLATION_ID"@,
        "GITHUB_REPO"@,
    ]
}

/// The names of the settings that the bot's container gets.
pub fn housebot_env_vars() -> (r: Vec<String>)
    ensures
        texts(r@) == env_var_names(),
        texts(r@) == seq![
            "DISCORD_BOT_TOKEN"@,
            "OWNER_DISCORD_ID"@,
            "DATABASE_URL"@,
            "LLM_BASE_URL"@,
            "LLM_MODEL"@,
            "LLM_API_KEY"@,
            "MAX_HISTORY_TURNS"@,
            "MAX_CONTEXT_TOKENS"@,
            "CONVERSATION_IDLE_TIMEOUT"@,
            "JELLYFIN_URL"@,
            "JELLYFIN_API_KEY"@,
            "LLAMA_CPP_URL"@,
            "LLAMA_CPP_MODEL"@,
            "GITHUB_APP_ID"@,
            "GITHUB_APP_PRIVATE_KEY"@,
            "GITHUB_INSTALLATION_ID"@,
            "GITHUB_REPO"@,
        ],
{
    let mut r = no_texts();
    push_text(&mut r, "DISCORD_BOT_TOKEN");
    push_text(&mut r, "OWNER_DISCORD_ID");
    push_text(&mut r, "DATABASE_URL");
    push_text(&mut r, "LLM_BASE_URL");
    push_text(&mut r, "LLM_MODEL");
    push_text(&mut r, "LLM_API_KEY");
    push_text(&mut r, "MAX_HISTORY_TURNS");
    push_text(&mut r, "MAX_CONTEXT_TOKENS");
    push_text(&mut r, "CONVERSATION_IDLE_TIMEOUT");
    push_text(&mut r, "JELLYFIN_URL");
    push_text(&mut r, "JELLYFIN_API_KEY");
    push_text(&mut r, "LLAMA_CPP_URL");
    push_text(&mut r, "LLAMA_CPP_MODEL");
    push_text(&mut r, "GITHUB_APP_ID");
    push_text(&mut r, "GITHUB_APP_PRIVATE_KEY");
    push_text(&mut r, "GITHUB_INSTALLATION_ID");
    push_text(&mut r, "GITHUB_REPO");
    r
}

/// The settings that all files make, one file behind the other.
pub open spec fn files_settings(files: Seq<Seq<char>>) -> Seq<(Seq<char>, Seq<char>)>
    decreases files.len(),
{
    if files.len() == 0 {
        Seq::empty()
    } else {
        files_settings(files.drop_last()) + dotenv(files.last())
    }
}

/// The last value that the settings give to `name`.
fn find_setting(pairs: &Vec<(String, String)>, name: &str) -> (r: Option<String>)
    ensures
        crate::text::opt_text(r) == setting(setting_texts(pairs@), name@),
{
    let mut i: usize = pairs.len();
    let ghost all = setting_texts(pairs@);
    proof {
        assert(all.take(i as int) =~= all);
    }
    while i > 0
        invariant
            i <= pairs@.len(),
            all == setting_texts(pairs@),
            setting(all, name@) == setting(all.take(i as int), name@),
        decreases i,
    {
        i -= 1;
        proof {
            assert(all.take(i + 1).drop_last() =~= all.take(i as int));
        }
        if same_text(pairs[i].0.as_str(), name) {
            return Some(pairs[i].1.clone());
        }
    }
    None
}

/// The environment of the bot's container: of the settings that it gets, those
/// that the process or a file makes. A file overrides the process, a later file
/// an earlier one, and a later line an earlier one.
pub fn housebot_env(process: Vec<(String, String)>, files: &Vec<String>) -> (r: Vec<
    (String, String),
>)
    ensures
        setting_texts(r@) == settings_of(
            env_var_names(),
            setting_texts(process@) + files_settings(texts(files@)),
        ),
{
    let ghost start = setting_texts(process@);
    let mut pairs = process;
    let mut i: usize = 0;
    proof {
        assert(texts(files@).take(0) =~= Seq::empty());
        assert(start + Seq::empty() =~= start);
    }
    while i < files.len()
        invariant
            i <= files@.len(),
            setting_texts(pairs@) == start + files_settings(texts(files@).take(i as int)),
        decreases files.len() - i,
    {
        let ghost before = setting_texts(pairs@);
        let mut more = parse_dotenv(files[i].as_str());
        let ghost added = setting_texts(more@);
        pairs.append(&mut more);
        proof {
            let t = texts(files@).take(i + 1);
            assert(t.drop_last() =~= texts(files@).take(i as int));
            assert(setting_texts(pairs@) =~= before + added);
            assert(setting_texts(pairs@) =~= start + files_settings(t));
        }
        i += 1;
    }
    proof {
        assert(texts(files@).take(i as int) =~= texts(files@));
    }
    let names = housebot_env_vars();
    let mut r: Vec<(String, String)> = Vec::new();
    let mut k: usize = 0;
    let ghost all = setting_texts(pairs@);
    proof {
        assert(texts(names@).take(0) =~= Seq::empty());
        assert(setting_texts(r@) =~= Seq::empty());
    }
    while k < names.len()
        invariant
            k <= names@.len(),
            all == setting_texts(pairs@),
            setting_texts(r@) == settings_of(texts(names@).take(k as int), all),
        decreases names.len() - k,
    {
        let ghost before = setting_texts(r@);
        proof {
            let t = texts(names@).take(k + 1);
            assert(t.drop_last() =~= texts(names@).take(k as int));
            assert(t.last() == names@[k as int]@);
        }
        match find_setting(&pairs, names[k].as_str()) {
            Some(value) => {
                let ghost made = (names@[k as int]@, value@);
                r.push((names[k].clone(), value));
                proof {
                    assert(setting_texts(r@) =~= before.push(made));
                }
            },
            None => {},
        }
        k += 1;
    }
    proof {
        assert(texts(names@).take(k as int) =~= texts(names@));
    }
    r
}

/// What is set later counts: a name has the value that the later settings give
/// it, and that of the earlier ones only where the later give it none.
pub proof fn law_later_settings_count(
    earlier: Seq<(Seq<char>, Seq<char>)>,
    later: Seq<(Seq<char>, Seq<char>)>,
    name: Seq<char>,
)
    ensures
        setting(earlier + later, name) == (if setting(later, name) is Some {
            setting(later, name)
        } else {
            setting(earlier, name)
        }),
    decreases later.len(),
{
    if later.len() == 0 {
        assert(earlier + later =~= earlier);
    } else {
        assert((earlier + later).drop_last() =~= earlier + later.drop_last());
        law_later_settings_count(earlier, later.drop_last(), name);
    }
}

/// The container gets no setting but those it is meant to get, each with the
/// value that counts, and no more of them than there are names.
pub proof fn law_only_listed_settings(
    names: Seq<Seq<char>>,
    pairs: Seq<(Seq<char>, Seq<char>)>,
)
    ensures
        forall|i: int|
            0 <= i < settings_of(names, pairs).len() ==> names.contains(
                (#[trigger] settings_of(names, pairs)[i]).0,
            ) && setting(pairs, settings_of(names, pairs)[i].0) == Some(
                settings_of(names, pairs)[i].1,
            ),
        settings_of(names, pairs).len() <= names.len(),
    decreases names.len(),
{
    if names.len() > 0 {
        law_only_listed_settings(names.drop_last(), pairs);
        let all = settings_of(names, pairs);
        let rest = settings_of(names.drop_last(), pairs);
        assert forall|i: int| 0 <= i < all.len() implies names.contains((#[trigger] all[i]).0)
            && setting(pairs, all[i].0) == Some(all[i].1) by {
            if i < rest.len() {
                assert(all[i] == rest[i]);
                let k = choose|k: int|
                    0 <= k < names.drop_last().len() && names.drop_last()[k] == rest[i].0;
                assert(names[k] == rest[i].0);
            } else {
                assert(names[names.len() - 1] == all[i].0);
            }
        }
    }
}

/// A comment makes no setting.
pub proof fn law_comments_make_no_setting(line: Seq<char>)
    requires
        begins(trimmed(line), "#"@),
    ensures
        line_setting(line) is None,
{
    reveal_strlit("#");
    reveal_strlit("export ");
    let t = trimmed(line);
    assert(t.subrange(0, 1)[0] == t[0]);
    assert(t[0] == '#');
    if begins(t, "export "@) {
        assert(t.subrange(0, 7)[0] == t[0]);
        assert(false);
    }
    lemma_first_index(t, '=');
    if let Some((name, value)) = split_first(t, '=') {
        let k = first_index(t, '=');
        assert(name == t.take(k));
        assert(k > 0);
        assert(name[0] == '#');
        let p = crate::text::blank();
        assert(trim_start_by(name, p) == name);
        lemma_trim_end_keeps_first(name, p);
        let n = trimmed(name);
        assert(n.subrange(0, 1) =~= "#"@);
    }
}

/// Trimming at the end keeps a first character that is not trimmed.
proof fn lemma_trim_end_keeps_first(s: Seq<char>, p: spec_fn(char) -> bool)
    requires
        s.len() > 0,
        !p(s[0]),
    ensures
        trim_end_by(s, p).len() > 0,
        trim_end_by(s, p)[0] == s[0],
    decreases s.len(),
{
    if p(s.last()) {
        lemma_trim_end_keeps_first(s.drop_last(), p);
    }
}

// --------------------------------------------------------------------- limits

/// The limits that the house bot keeps to, and where it asks for approval: how long
/// a conversation stays open, how long it keeps quiet after it spoke up, how many
/// messages and scripts a user has in which time, and a channel, where there is
/// one.
#[derive(Clone, Copy, Debug, PartialEq, Eq, Structural)]
pub struct Limits {
    pub idle_timeout_secs: u64,
    pub proactive_cooldown_secs: u64,
    pub chat_max: u64,
    pub chat_window_secs: u64,
    pub scripts_max: u64,
    pub scripts_window_secs: u64,
    pub approval_channel: u64,
}

/// The number that a setting gives; the default where it gives none.
pub open spec fn numeric_setting(
    pairs: Seq<(Seq<char>, Seq<char>)>,
    name: Seq<char>,
    default: u64,
) -> nat {
    match setting(pairs, name) {
        Some(value) => match number_in(value, u64::MAX as nat) {
            Some(number) => number,
            None => default as nat,
        },
        None => default as nat,
    }
}

/// The number that a setting gives; the default where it gives none.
fn find_number(pairs: &Vec<(String, String)>, name: &str, default: u64) -> (r: u64)
    ensures
        r == numeric_setting(setting_texts(pairs@), name@, default),
{
    match find_setting(pairs, name) {
        Some(value) => match parse_u64(value.as_str()) {
            Some(number) => number,
            None => default,
        },
        None => default,
    }
}

/// The limits that the settings of the process give.
pub fn limits_of(process: &Vec<(String, String)>) -> (r: Limits)
    ensures
        ({
            let pairs = setting_texts(process@);
            &&& r.idle_timeout_secs == numeric_setting(pairs, "CONVERSATION_IDLE_TIMEOUT"@, 300)
            &&& r.proactive_cooldown_secs == numeric_setting(
                pairs,
                "PROACTIVE_ASSISTANCE_COOLDOWN_SECS"@,
                300,
            )
            &&& r.chat_max == numeric_setting(pairs, "CHAT_RATE_LIMIT_MAX"@, 20)
            &&& r.chat_window_secs == numeric_setting(pairs, "CHAT_RATE_LIMIT_WINDOW_SECS"@, 60)
            &&& r.scripts_max == numeric_setting(pairs, "LUA_RATE_LIMIT_MAX"@, 6)
            &&& r.scripts_window_secs == numeric_setting(pairs, "LUA_RATE_LIMIT_WINDOW_SECS"@, 60)
            &&& r.approval_channel == numeric_setting(
                pairs,
                "DEVELOPMENT_APPROVAL_CHANNEL_ID"@,
                0,
            )
        }),
{
    Limits {
        idle_timeout_secs: find_number(process, "CONVERSATION_IDLE_TIMEOUT", 300),
        proactive_cooldown_secs: find_number(process, "PROACTIVE_ASSISTANCE_COOLDOWN_SECS", 300),
        chat_max: find_number(process, "CHAT_RATE_LIMIT_MAX", 20),
        chat_window_secs: find_number(process, "CHAT_RATE_LIMIT_WINDOW_SECS", 60),
        scripts_max: find_number(process, "LUA_RATE_LIMIT_MAX", 6),
        scripts_window_secs: find_number(process, "LUA_RATE_LIMIT_WINDOW_SECS", 60),
        approval_channel: find_number(process, "DEVELOPMENT_APPROVAL_CHANNEL_ID", 0),
    }
}

// --------------------------------------------------- what a dotenv file means

/// A name, `=` and a value make exactly the setting of that name to that value, all
/// of it, whatever further `=` the value holds. White space around the line, the
/// name and the value is no part of them, nor are quotation marks around the value.
/// An `export` in front of the name changes nothing.
pub proof fn law_a_line_sets_its_name_to_its_value(
    around: (Seq<char>, Seq<char>),
    exported: bool,
    name: Seq<char>,
    beside: (Seq<char>, Seq<char>),
    quotes: (Seq<char>, Seq<char>),
    value: Seq<char>,
)
    requires
        forall|i: int| 0 <= i < around.0.len() ==> is_white_space(#[trigger] around.0[i]),
        forall|i: int| 0 <= i < around.1.len() ==> is_white_space(#[trigger] around.1[i]),
        forall|i: int| 0 <= i < beside.0.len() ==> is_white_space(#[trigger] beside.0[i]),
        forall|i: int| 0 <= i < beside.1.len() ==> is_white_space(#[trigger] beside.1[i]),
        name.len() > 0,
        !name.contains('='),
        name[0] != '#',
        !is_white_space(name[0]) && !is_white_space(name.last()),
        !exported ==> !begins(name + beside.0, "export "@),
        forall|i: int|
            0 <= i < quotes.0.len() ==> #[trigger] quotes.0[i] == '"' || quotes.0[i] == '\'',
        forall|i: int|
            0 <= i < quotes.1.len() ==> #[trigger] quotes.1[i] == '"' || quotes.1[i] == '\'',
        value.len() > 0 ==> value[0] != '"' && value[0] != '\'' && value.last() != '"'
            && value.last() != '\'',
        value.len() > 0 && quotes.0.len() == 0 ==> !is_white_space(value[0]),
        value.len() > 0 && quotes.1.len() == 0 ==> !is_white_space(value.last()),
    ensures
        line_setting(
            around.0 + (if exported {
                "export "@
            } else {
                ""@
            }) + name + beside.0 + "="@ + beside.1 + quotes.0 + value + quotes.1 + around.1,
        ) == Some((name, value)),
{
    let prefix = if exported {
        "export "@
    } else {
        ""@
    };
    reveal_strlit("export ");
    reveal_strlit("");
    reveal_strlit("=");
    reveal_strlit("#");
    let quoted = quotes.0 + value + quotes.1;
    let line = around.0 + prefix + name + beside.0 + "="@ + beside.1 + quotes.0 + value + quotes.1
        + around.1;
    let left = name + beside.0;
    if quoted.len() > 0 {
        if quotes.0.len() > 0 {
            assert(quoted[0] == quotes.0[0]);
        } else if value.len() > 0 {
            assert(quoted[0] == value[0]);
        } else {
            assert(quoted[0] == quotes.1[0]);
        }
        if quotes.1.len() > 0 {
            assert(quoted.last() == quotes.1.last());
        } else if value.len() > 0 {
            assert(quoted.last() == value.last());
        } else {
            assert(quoted.last() == quotes.0.last());
        }
    }
    // What is behind the `=`, and what of it is left at the end of the line.
    let kept = if quoted.len() > 0 {
        beside.1 + quoted
    } else {
        Seq::empty()
    };
    let tail = if quoted.len() > 0 {
        around.1
    } else {
        beside.1 + around.1
    };
    let middle = prefix + (left + seq!['='] + kept);
    assert(line =~= around.0 + middle + tail);
    assert(middle[0] == (if exported { 'e' } else { name[0] }));
    if quoted.len() > 0 {
        assert(middle.last() == quoted.last());
    } else {
        assert(middle.last() == '=');
    }
    law_trimmed_of_white_space(around.0, middle, tail);
    let rest = left + seq!['='] + kept;
    if exported {
        assert(middle.subrange(0, 7) =~= "export "@);
        assert(middle.skip(7) =~= rest);
    } else {
        assert(middle =~= rest);
        if begins(rest, "export "@) {
            if left.len() < 7 {
                assert(rest.subrange(0, 7)[left.len() as int] == '=');
            } else {
                assert(rest.subrange(0, 7) =~= left.subrange(0, 7));
            }
            assert(false);
        }
    }
    assert(without_export(middle) == rest);
    assert forall|i: int| 0 <= i < left.len() implies left[i] != '=' by {
        if i < name.len() {
            assert(name.contains(name[i]));
        } else {
            assert(is_white_space(beside.0[i - name.len()]));
        }
    }
    law_split_at_the_first(left, '=', kept);
    law_trimmed_of_white_space(Seq::empty(), name, beside.0);
    assert(Seq::empty() + name + beside.0 =~= left);
    if begins(name, "#"@) {
        assert(name.subrange(0, 1)[0] == name[0]);
    }
    if quoted.len() > 0 {
        law_trimmed_of_white_space(beside.1, quoted, Seq::empty());
        assert(beside.1 + quoted + Seq::empty() =~= kept);
    } else {
        law_trimmed_of_white_space(Seq::empty(), Seq::empty(), Seq::empty());
        assert(kept =~= quoted);
    }
    law_trimming_leaves_the_middle(quotes.0, value, quotes.1, either('"', '\''));
}

/// The plain form of a line: a name, `=`, and a value.
pub proof fn law_a_plain_line_sets_its_name_to_its_value(name: Seq<char>, value: Seq<char>)
    requires
        name.len() > 0,
        !name.contains('='),
        name[0] != '#',
        !is_white_space(name[0]) && !is_white_space(name.last()),
        !begins(name, "export "@),
        value.len() > 0 ==> value[0] != '"' && value[0] != '\'' && value.last() != '"'
            && value.last() != '\'',
        value.len() > 0 ==> !is_white_space(value[0]) && !is_white_space(value.last()),
    ensures
        line_setting(name + "="@ + value) == Some((name, value)),
        line_setting("export "@ + name + "="@ + value) == Some((name, value)),
        line_setting(name + "=\""@ + value + "\""@) == Some((name, value)),
        line_setting(name + "='"@ + value + "'"@) == Some((name, value)),
{
    let e = Seq::<char>::empty();
    reveal_strlit("=");
    reveal_strlit("");
    reveal_strlit("=\"");
    reveal_strlit("\"");
    reveal_strlit("='");
    reveal_strlit("'");
    assert(name + e =~= name);
    law_a_line_sets_its_name_to_its_value((e, e), false, name, (e, e), (e, e), value);
    assert(e + ""@ + name + e + "="@ + e + e + value + e + e =~= name + "="@ + value);
    law_a_line_sets_its_name_to_its_value((e, e), true, name, (e, e), (e, e), value);
    assert(e + "export "@ + name + e + "="@ + e + e + value + e + e =~= "export "@ + name + "="@
        + value);
    let d = seq!['"'];
    law_a_line_sets_its_name_to_its_value((e, e), false, name, (e, e), (d, d), value);
    assert(e + ""@ + name + e + "="@ + e + d + value + d + e =~= name + "=\""@ + value + "\""@);
    let q = seq!['\''];
    law_a_line_sets_its_name_to_its_value((e, e), false, name, (e, e), (q, q), value);
    assert(e + ""@ + name + e + "="@ + e + q + value + q + e =~= name + "='"@ + value + "'"@);
}

/// A line without `=` makes no setting.
pub proof fn law_a_line_without_a_sign_sets_nothing(line: Seq<char>)
    requires
        !line.contains('='),
    ensures
        line_setting(line) is None,
{
    if let Some((name, value)) = line_setting(line) {
        let t = trimmed(line);
        let rest = without_export(t);
        lemma_first_index(rest, '=');
        let k = first_index(rest, '=');
        assert(rest[k] == '=');
        lemma_trimmed_is_part(line, '=');
        if without_prefix(t, "export "@) is Some {
            assert(rest[k] == t[k + "export "@.len()]);
        }
        assert(t.contains('='));
    }
}

/// Trimming adds no character.
proof fn lemma_trimmed_is_part(s: Seq<char>, c: char)
    requires
        !s.contains(c),
    ensures
        !trimmed(s).contains(c),
{
    lemma_trim_start_adds_none(s, blank(), c);
    lemma_trim_end_adds_none(trim_start_by(s, blank()), blank(), c);
}

/// Trimming at the start adds no character.
proof fn lemma_trim_start_adds_none(s: Seq<char>, p: spec_fn(char) -> bool, c: char)
    requires
        !s.contains(c),
    ensures
        !trim_start_by(s, p).contains(c),
    decreases s.len(),
{
    if s.len() > 0 && p(s[0]) {
        let rest = s.drop_first();
        assert forall|i: int| 0 <= i < rest.len() implies rest[i] != c by {
            assert(s.contains(s[i + 1]));
        }
        lemma_trim_start_adds_none(rest, p, c);
    }
}

/// Trimming at the end adds no character.
proof fn lemma_trim_end_adds_none(s: Seq<char>, p: spec_fn(char) -> bool, c: char)
    requires
        !s.contains(c),
    ensures
        !trim_end_by(s, p).contains(c),
    decreases s.len(),
{
    if s.len() > 0 && p(s.last()) {
        let rest = s.drop_last();
        assert forall|i: int| 0 <= i < rest.len() implies rest[i] != c by {
            assert(s.contains(s[i]));
        }
        lemma_trim_end_adds_none(rest, p, c);
    }
}

/// The settings of lines one behind the other.
proof fn lemma_lines_settings_add(a: Seq<Seq<char>>, b: Seq<Seq<char>>)
    ensures
        lines_settings(a + b) == lines_settings(a) + lines_settings(b),
    decreases b.len(),
{
    if b.len() == 0 {
        assert(a + b =~= a);
        assert(lines_settings(a) + lines_settings(b) =~= lines_settings(a));
    } else {
        lemma_lines_settings_add(a, b.drop_last());
        assert((a + b).drop_last() =~= a + b.drop_last());
        assert((a + b).last() == b.last());
        assert(lines_settings(a + b) =~= lines_settings(a) + lines_settings(b));
    }
}

/// A file makes the settings of its lines, in the order of the lines: that of its
/// first line, where it makes one, and then those of the rest.
pub proof fn law_a_file_makes_the_settings_of_its_lines(line: Seq<char>, rest: Seq<char>)
    requires
        !line.contains('\n'),
        line.len() == 0 || line.last() != '\r',
    ensures
        line_setting(line) is None ==> dotenv(line + seq!['\n'] + rest) == dotenv(rest),
        line_setting(line) matches Some(made) ==> dotenv(line + seq!['\n'] + rest) == seq![made]
            + dotenv(rest),
        dotenv(line) == dotenv(line + seq!['\n']),
        dotenv(Seq::empty()).len() == 0,
{
    law_lines_are_told_apart(line, rest);
    law_lines_are_told_apart(line, Seq::empty());
    assert(line + seq!['\n'] + Seq::empty() =~= line + seq!['\n']);
    lemma_lines_settings_add(seq![line], lines_of(rest));
    assert(seq![line] + lines_of(Seq::empty()) =~= seq![line]);
    assert(seq![line].drop_last() =~= Seq::empty());
    assert(lines_settings(Seq::empty()) =~= Seq::empty());
    if let Some(made) = line_setting(line) {
        assert(lines_settings(seq![line]) =~= seq![made]);
    } else {
        assert(lines_settings(seq![line]) =~= Seq::empty());
        assert(Seq::empty() + dotenv(rest) =~= dotenv(rest));
    }
    if line.len() == 0 {
        law_trimmed_of_white_space(line, line, line);
        assert(line + line + line =~= line);
        law_a_line_without_a_sign_sets_nothing(line);
        assert(line =~= Seq::empty());
    }
}

/// The settings of several files are those of each, one file behind the other.
pub proof fn law_files_count_in_order(files: Seq<Seq<char>>, last: Seq<char>)
    ensures
        files_settings(Seq::empty()).len() == 0,
        files_settings(files.push(last)) == files_settings(files) + dotenv(last),
{
    assert(files.push(last).drop_last() =~= files);
}

/// A name that is set has the value that it was last set to, and one that is not
/// set has none.
pub proof fn law_a_name_has_what_it_was_set_to(
    pairs: Seq<(Seq<char>, Seq<char>)>,
    name: Seq<char>,
    value: Seq<char>,
    other: Seq<char>,
)
    ensures
        setting(pairs.push((name, value)), name) == Some(value),
        other != name ==> setting(pairs.push((name, value)), other) == setting(pairs, other),
        setting(Seq::empty(), name) is None,
{
    assert(pairs.push((name, value)).drop_last() =~= pairs);
}

/// Each listed name that is set reaches the container, with its value, in the order
/// of the list, and nothing else does.
pub proof fn law_all_listed_settings_are_handed_on(
    names: Seq<Seq<char>>,
    pairs: Seq<(Seq<char>, Seq<char>)>,
)
    ensures
        settings_of(names, pairs) == names.filter(
            |name: Seq<char>| setting(pairs, name) is Some,
        ).map_values(|name: Seq<char>| (name, setting(pairs, name).unwrap())),
    decreases names.len(),
{
    let set = |name: Seq<char>| setting(pairs, name) is Some;
    let pair = |name: Seq<char>| (name, setting(pairs, name).unwrap());
    reveal(Seq::filter);
    if names.len() > 0 {
        law_all_listed_settings_are_handed_on(names.drop_last(), pairs);
        let rest = names.drop_last().filter(set);
        if set(names.last()) {
            assert(rest.push(names.last()).map_values(pair) =~= rest.map_values(pair).push(
                pair(names.last()),
            ));
        }
    } else {
        assert(names.filter(set) =~= Seq::empty());
        assert(Seq::<Seq<char>>::empty().map_values(pair) =~= Seq::empty());
    }
}

/// A setting gives a limit where it is a number that a machine word holds; else the
/// default stands.
pub proof fn law_limits_are_what_was_set(
    pairs: Seq<(Seq<char>, Seq<char>)>,
    name: Seq<char>,
    number: u64,
    default: u64,
)
    ensures
        setting(pairs, name) == Some(decimal(number as nat)) ==> numeric_setting(
            pairs,
            name,
            default,
        ) == number,
        setting(pairs, name) is None ==> numeric_setting(pairs, name, default) == default,
        setting(pairs, name) matches Some(value) ==> (number_in(value, u64::MAX as nat) is None
            ==> numeric_setting(pairs, name, default) == default),
{
    law_decimal_reads_back(number as nat, u64::MAX as nat);
}

/// Settings are taken as the names and the values that they hold, in order.
pub proof fn law_settings_are_what_they_hold(pairs: Seq<(String, String)>, i: int)
    ensures
        setting_texts(pairs).len() == pairs.len(),
        0 <= i < pairs.len() ==> setting_texts(pairs)[i] == (pairs[i].0@, pairs[i].1@),
{
}

} // verus!
