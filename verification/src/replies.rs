//! Fixed and framed replies of the bot.
use crate::redaction::ordinary;
use crate::text::{
    agree, begins, clear_of, clear_of_end, clear_of_start, contains, decimal, ends, has_text,
    law_decimal_reads_back, law_last_pieces_end_a_text, law_nothing_else_is_replaced,
    law_split_at_the_first, law_the_first_is_replaced, lemma_decimal, lemma_found_before_end,
    lemma_found_before_replacing, lemma_found_behind_start, lemma_found_in_part, lower, number_in,
    occurs_at, opt_str, parse_u64, replace, replaced, split_first, split_once, starts_with,
    strip_prefix, to_ascii_lowercase, to_decimal, trim, trimmed, without_prefix,
};
use vstd::prelude::*;

verus! {

/// How many characters a Discord message holds.
pub const MAX_MESSAGE_LENGTH: usize = 2000;

// ----------------------------------------------------------------- progress

/// What is shown until the model begins to write.
pub const THINKING: &'static str = "🧠 **Thinking...**";

/// What is shown while the model writes.
pub const GENERATING: &'static str = "⚙️ **Generating...**";

/// `c`, `n` times.
pub open spec fn repeated(c: char, n: nat) -> Seq<char> {
    Seq::new(n, |i: int| c)
}

/// `c`, `n` times.
fn repeat(c: char, n: usize) -> (r: String)
    ensures
        r@ == repeated(c, n as nat),
{
    let mut r = String::new();
    let mut i: usize = 0;
    while i < n
        invariant
            i <= n,
            r@ == repeated(c, i as nat),
        decreases n - i,
    {
        r.push(c);
        i += 1;
        proof {
            assert(r@ =~= repeated(c, i as nat));
        }
    }
    r
}

/// How many of the ten parts of the bar are filled.
pub open spec fn filled_parts(stage: nat) -> nat {
    if stage / 10 < 10 {
        stage / 10
    } else {
        10
    }
}

/// A progress bar with its percentage, and what is being done.
pub open spec fn progress_bar(stage: nat, detail: Option<Seq<char>>) -> Seq<char> {
    "🧠 **Compacting conversation**\n`["@ + repeated('█', filled_parts(stage)) + repeated(
        '░',
        (10 - filled_parts(stage)) as nat,
    ) + "] "@ + decimal(stage) + "%`"@ + (match detail {
        Some(detail) => " — "@ + detail,
        None => ""@,
    })
}

/// A progress bar with its percentage, and what is being done.
pub fn compact_progress(stage: u64, detail: Option<&str>) -> (r: String)
    ensures
        r@ == progress_bar(stage as nat, opt_str(detail)),
{
    let filled: usize = if stage / 10 < 10 {
        (stage / 10) as usize
    } else {
        10
    };
    let done = repeat('█', filled);
    let left = repeat('░', 10 - filled);
    let percent = to_decimal(stage);
    let bar = "🧠 **Compacting conversation**\n`[".to_owned().concat(done.as_str()).concat(
        left.as_str(),
    ).concat("] ").concat(percent.as_str()).concat("%`");
    match detail {
        Some(detail) => {
            let end = " — ".to_owned().concat(detail);
            bar.concat(end.as_str())
        },
        None => bar.concat(""),
    }
}

/// The bar that a progress line stands for: `compact:`, a percentage and, behind
/// a further colon, what is being done. Other lines stand for none.
pub open spec fn progress_line(line: Seq<char>) -> Option<Seq<char>> {
    match without_prefix(line, "compact:"@) {
        None => None,
        Some(rest) => {
            let (stage, detail) = match split_first(rest, ':') {
                Some((stage, detail)) => (stage, detail),
                None => (rest, Seq::empty()),
            };
            match number_in(stage, u64::MAX as nat) {
                Some(n) => Some(
                    progress_bar(
                        n,
                        if detail.len() == 0 {
                            None
                        } else {
                            Some(detail)
                        },
                    ),
                ),
                None => None,
            }
        },
    }
}

/// The bar that a progress line stands for.
pub fn render_progress_line(line: &str) -> (r: Option<String>)
    ensures
        crate::text::opt_text(r) == progress_line(line@),
{
    match strip_prefix(line, "compact:") {
        None => None,
        Some(rest) => {
            let (stage, detail) = match split_once(rest, ':') {
                Some((stage, detail)) => (stage, detail),
                None => (rest, ""),
            };
            proof {
                reveal_strlit("");
                assert(""@ =~= Seq::empty());
            }
            match parse_u64(stage) {
                Some(n) => {
                    if detail.unicode_len() == 0 {
                        Some(compact_progress(n, None))
                    } else {
                        Some(compact_progress(n, Some(detail)))
                    }
                },
                None => None,
            }
        },
    }
}

/// The bar always has ten parts.
pub proof fn law_bar_has_ten_parts(stage: nat)
    ensures
        (repeated('█', filled_parts(stage)) + repeated(
            '░',
            (10 - filled_parts(stage)) as nat,
        )).len() == 10,
{
}

// ------------------------------------------------------------ short answers

/// What is said when a conversation was compacted.
pub fn compact_done_message(deep_memory_enabled: bool) -> (r: &'static str)
    ensures
        r@ == (if deep_memory_enabled {
            "✅ Conversation compacted into memory. A new session has started."@
        } else {
            "✅ Conversation cleared without saving a memory summary. A new session has started."@
        }),
{
    if deep_memory_enabled {
        "✅ Conversation compacted into memory. A new session has started."
    } else {
        "✅ Conversation cleared without saving a memory summary. A new session has started."
    }
}

/// Which commit runs, where the build knows it.
pub fn commit_hash_response(sha: Option<&str>) -> (r: String)
    ensures
        r@ == (match sha {
            Some(sha) if sha@.len() > 0 => "Running commit: `"@ + sha@ + "`"@,
            _ => "Running commit is unavailable for this build."@,
        }),
{
    match sha {
        Some(sha) => {
            if sha.unicode_len() > 0 {
                "Running commit: `".to_owned().concat(sha).concat("`")
            } else {
                "Running commit is unavailable for this build.".to_owned()
            }
        },
        None => "Running commit is unavailable for this build.".to_owned(),
    }
}

/// What is said when a conversation is started anew.
pub fn new_conversation_reply(name: &str) -> (r: String)
    ensures
        r@ == "New conversation started, "@ + name@
            + ". Your previous conversation history has been cleared."@,
{
    "New conversation started, ".to_owned().concat(name).concat(
        ". Your previous conversation history has been cleared.",
    )
}

/// What a due reminder says.
pub fn reminder_message(message: &str) -> (r: String)
    ensures
        r@ == "⏰ **Reminder:** "@ + message@,
{
    "⏰ **Reminder:** ".to_owned().concat(message)
}

/// To whom a due reminder goes and what it says; nothing where it is kept under no
/// user's number.
pub fn reminder_delivery(user_id: &str, message: &str) -> (r: Option<(u64, String)>)
    ensures
        match r {
            Some((user, text)) => number_in(user_id@, u64::MAX as nat) == Some(user as nat)
                && text@ == "⏰ **Reminder:** "@ + message@,
            None => number_in(user_id@, u64::MAX as nat) is None,
        },
{
    match parse_u64(user_id) {
        Some(user) => Some((user, reminder_message(message))),
        None => None,
    }
}

/// Does a message look like a request, so that the bot may answer unasked?
pub open spec fn looks_like_request(content: Seq<char>) -> bool {
    let n = lower(trimmed(content));
    &&& n.len() > 0
    &&& {
        ||| has_text(n, "?"@)
        ||| begins(n, "how "@)
        ||| begins(n, "what "@)
        ||| begins(n, "where "@)
        ||| begins(n, "when "@)
        ||| begins(n, "why "@)
        ||| begins(n, "can you "@)
        ||| begins(n, "could you "@)
        ||| begins(n, "remind me "@)
        ||| begins(n, "how do i "@)
        ||| begins(n, "what can you do"@)
    }
}

/// Does a message look like a request, so that the bot may answer unasked?
pub fn is_proactive_candidate(content: &str) -> (r: bool)
    ensures
        r == looks_like_request(content@),
{
    let normalized = to_ascii_lowercase(trim(content));
    let n = normalized.as_str();
    if n.unicode_len() == 0 {
        return false;
    }
    contains(n, "?") || starts_with(n, "how ") || starts_with(n, "what ") || starts_with(
        n,
        "where ",
    ) || starts_with(n, "when ") || starts_with(n, "why ") || starts_with(n, "can you ")
        || starts_with(n, "could you ") || starts_with(n, "remind me ") || starts_with(
        n,
        "how do i ",
    ) || starts_with(n, "what can you do")
}

/// A command line as its first line and what follows, both trimmed.
pub open spec fn command_parts(content: Seq<char>) -> (Seq<char>, Seq<char>) {
    match split_first(content, '\n') {
        Some((first, rest)) => (trimmed(first), trimmed(rest)),
        None => (trimmed(content), Seq::empty()),
    }
}

/// A command line as its first line and what follows, both trimmed.
pub fn split_command(content: &str) -> (r: (String, String))
    ensures
        (r.0@, r.1@) == command_parts(content@),
{
    match split_once(content, '\n') {
        Some((first, rest)) => (trim(first).to_owned(), trim(rest).to_owned()),
        None => (trim(content).to_owned(), String::new()),
    }
}

// --------------------------------------------------------------- lua output

/// A fence of a code block.
pub const FENCE: &'static str = "```";

/// A fence made harmless by a zero-width space.
pub const HARMLESS_FENCE: &'static str = "`\u{200b}``";

/// How many characters fit between the fences.
pub const LUA_BODY_LENGTH: usize = 1992;

/// Output as it stands between the fences: harmless, and cut with an ellipsis
/// where it is too long.
pub open spec fn lua_body(output: Seq<char>) -> Seq<char> {
    let sanitized = replaced(output, FENCE@, HARMLESS_FENCE@);
    if sanitized.len() > LUA_BODY_LENGTH {
        sanitized.take(LUA_BODY_LENGTH - 1).push('…')
    } else {
        sanitized
    }
}

/// A script's output in a code block.
pub open spec fn lua_reply(output: Seq<char>) -> Seq<char> {
    "```\n"@ + lua_body(output) + "\n```"@
}

/// Wrap a script's output in a code fence sized to fit a single Discord message.
pub fn format_lua_reply(output: &str) -> (r: String)
    ensures
        r@ == lua_reply(output@),
{
    proof {
        reveal_strlit("```");
    }
    let sanitized = replace(output, FENCE, HARMLESS_FENCE);
    let n: usize = sanitized.as_str().unicode_len();
    let mut body = "".to_owned();
    if n > LUA_BODY_LENGTH {
        body = sanitized.as_str().substring_char(0, LUA_BODY_LENGTH - 1).to_owned();
        body.push('…');
        proof {
            assert(body@ =~= lua_body(output@));
        }
    } else {
        body = sanitized;
    }
    "```\n".to_owned().concat(body.as_str()).concat("\n```")
}

/// Whatever a script prints, the reply fits in one message.
pub proof fn law_lua_reply_fits_a_message(output: Seq<char>)
    ensures
        lua_reply(output).len() <= MAX_MESSAGE_LENGTH,
{
    reveal_strlit("```\n");
    reveal_strlit("\n```");
}

/// How many backticks `s` begins with.
pub open spec fn leading_ticks(s: Seq<char>) -> nat
    decreases s.len(),
{
    if s.len() > 0 && s[0] == '`' {
        1 + leading_ticks(s.drop_first())
    } else {
        0
    }
}

/// A fence stands at `i` where there are three backticks.
proof fn lemma_fence_at(s: Seq<char>, i: int)
    ensures
        occurs_at(s, FENCE@, i) <==> 0 <= i && i + 3 <= s.len() && s[i] == '`' && s[i + 1] == '`'
            && s[i + 2] == '`',
{
    reveal_strlit("```");
    if 0 <= i && i + 3 <= s.len() {
        let t = s.subrange(i, i + 3);
        assert(t[0] == s[i] && t[1] == s[i + 1] && t[2] == s[i + 2]);
        if s[i] == '`' && s[i + 1] == '`' && s[i + 2] == '`' {
            assert(t =~= FENCE@);
        }
        if t == FENCE@ {
            assert(FENCE@[0] == '`' && FENCE@[1] == '`' && FENCE@[2] == '`');
        }
    }
}

/// What is left of a text without four backticks in a row has none either.
proof fn lemma_no_four_ticks_after(s: Seq<char>, k: int)
    requires
        0 <= k <= s.len(),
        !has_text(s, "````"@),
    ensures
        !has_text(s.skip(k), "````"@),
{
    let q = "````"@;
    if has_text(s.skip(k), q) {
        let i = choose|i: int| occurs_at(s.skip(k), q, i);
        assert(s.skip(k).subrange(i, i + q.len()) =~= s.subrange(k + i, k + i + q.len()));
        assert(occurs_at(s, q, k + i));
    }
}

/// Without four backticks in a row, making fences harmless leaves no fence.
proof fn lemma_harmless(s: Seq<char>)
    requires
        !has_text(s, "````"@),
    ensures
        !has_text(replaced(s, FENCE@, HARMLESS_FENCE@), FENCE@),
        leading_ticks(s) <= 3,
        leading_ticks(replaced(s, FENCE@, HARMLESS_FENCE@)) == (if leading_ticks(s) == 3 {
            1
        } else {
            leading_ticks(s)
        }),
    decreases s.len(),
{
    reveal_strlit("```");
    reveal_strlit("````");
    reveal_strlit("`\u{200b}``");
    reveal_with_fuel(leading_ticks, 5);
    let r = replaced(s, FENCE@, HARMLESS_FENCE@);
    if s.len() == 0 {
        lemma_fence_at(r, 0);
        assert forall|i: int| !occurs_at(r, FENCE@, i) by {
            lemma_fence_at(r, i);
        }
    } else if begins(s, FENCE@) {
        lemma_fence_at(s, 0);
        let rest = s.skip(3);
        lemma_no_four_ticks_after(s, 3);
        lemma_harmless(rest);
        let t = replaced(rest, FENCE@, HARMLESS_FENCE@);
        if rest.len() > 0 && rest[0] == '`' {
            assert(s.subrange(0, 4) =~= "````"@);
            assert(occurs_at(s, "````"@, 0));
        }
        assert(leading_ticks(rest) == 0);
        assert(s.drop_first().drop_first().drop_first() =~= rest);
        assert(leading_ticks(s) == 3);
        assert(r == HARMLESS_FENCE@ + t);
        assert(r[0] == '`' && r[1] == '\u{200b}' && r[2] == '`' && r[3] == '`');
        assert(r.drop_first()[0] == '\u{200b}');
        assert(r.drop_first().len() > 0);
        assert(leading_ticks(r.drop_first()) == 0);
        assert forall|i: int| !occurs_at(r, FENCE@, i) by {
            lemma_fence_at(r, i);
            lemma_fence_at(t, i - 4);
            if t.len() > 0 {
                assert(r[4] == t[0]);
            }
            if i >= 4 && i + 3 <= r.len() {
                assert(r[i] == t[i - 4] && r[i + 1] == t[i - 3] && r[i + 2] == t[i - 2]);
                assert(!occurs_at(t, FENCE@, i - 4));
            }
        }
    } else {
        let rest = s.drop_first();
        assert(rest =~= s.skip(1));
        lemma_no_four_ticks_after(s, 1);
        lemma_harmless(rest);
        let t = replaced(rest, FENCE@, HARMLESS_FENCE@);
        lemma_fence_at(s, 0);
        assert(r == seq![s[0]] + t);
        assert(r.drop_first() =~= t);
        if s[0] == '`' {
            assert(leading_ticks(rest) < 2) by {
                if leading_ticks(rest) >= 2 {
                    assert(rest[0] == '`');
                    assert(rest.drop_first()[0] == '`');
                    assert(s[1] == '`' && s[2] == '`');
                }
            }
        }
        assert forall|i: int| !occurs_at(r, FENCE@, i) by {
            lemma_fence_at(r, i);
            lemma_fence_at(t, i - 1);
            if i >= 1 && i + 3 <= r.len() {
                assert(r[i] == t[i - 1] && r[i + 1] == t[i] && r[i + 2] == t[i + 1]);
                assert(!occurs_at(t, FENCE@, i - 1));
            }
            if i == 0 && r.len() >= 3 && r[0] == '`' && r[1] == '`' && r[2] == '`' {
                assert(t[0] == '`');
                assert(t.drop_first()[0] == t[1]);
                assert(leading_ticks(t) >= 2);
            }
        }
    }
}

/// Output cannot end its code block early: where it holds no four backticks in a
/// row, the only fences in the reply are the one it begins with and the one it
/// ends with.
pub proof fn law_lua_output_stays_in_its_block(output: Seq<char>, i: int)
    requires
        !has_text(output, "````"@),
        occurs_at(lua_reply(output), FENCE@, i),
    ensures
        i == 0 || i == lua_reply(output).len() - 3,
{
    reveal_strlit("```\n");
    reveal_strlit("\n```");
    lemma_harmless(output);
    let all = lua_reply(output);
    let body = lua_body(output);
    let sanitized = replaced(output, FENCE@, HARMLESS_FENCE@);
    lemma_fence_at(all, i);
    let b = body.len() as int;
    assert(all.len() == b + 8);
    assert(all[3] == '\n');
    assert(all[4 + b] == '\n');
    if 1 <= i < all.len() - 3 {
        assert(all[i] == '`' && all[i + 1] == '`' && all[i + 2] == '`');
        assert(i >= 4);
        assert(i + 2 < 4 + b);
        let k = i - 4;
        assert(all[i] == body[k] && all[i + 1] == body[k + 1] && all[i + 2] == body[k + 2]);
        assert(body[k] == sanitized[k]);
        assert(body[k + 1] == sanitized[k + 1]);
        assert(body[k + 2] == sanitized[k + 2]);
        lemma_fence_at(sanitized, k);
        assert(occurs_at(sanitized, FENCE@, k));
    }
}

/// What the answer to a script ends in.
pub open spec fn lua_end(output: Seq<char>) -> Seq<char> {
    if replaced(output, FENCE@, HARMLESS_FENCE@).len() > LUA_BODY_LENGTH {
        "…\n```"@
    } else {
        "\n```"@
    }
}

/// Is a text clear of the frame of a script's output: of its start, of its end, and
/// of the fences that were made harmless?
pub open spec fn clear_of_frame(q: Seq<char>, output: Seq<char>) -> bool {
    &&& clear_of_start(q, "```\n"@)
    &&& clear_of_end(q, lua_end(output))
    &&& clear_of(q, HARMLESS_FENCE@)
}

/// What stands in the answer to a script, and is clear of the frame, stands in the
/// script's output.
pub proof fn law_framing_adds_the_frame_only(output: Seq<char>, q: Seq<char>)
    requires
        clear_of_frame(q, output),
        has_text(lua_reply(output), q),
    ensures
        has_text(output, q),
{
    let sanitized = replaced(output, FENCE@, HARMLESS_FENCE@);
    let start = "```\n"@;
    let end = lua_end(output);
    reveal_strlit("…\n```");
    reveal_strlit("\n```");
    let long = sanitized.len() > LUA_BODY_LENGTH;
    let body = if long {
        sanitized.take(LUA_BODY_LENGTH - 1)
    } else {
        sanitized
    };
    assert("…\n```"@ =~= seq!['…'] + "\n```"@);
    assert(lua_reply(output) =~= start + (body + end));
    lemma_found_behind_start(start, body + end, q);
    lemma_found_before_end(body, end, q);
    if long {
        assert(body =~= sanitized.subrange(0, LUA_BODY_LENGTH - 1));
        lemma_found_in_part(sanitized, 0, LUA_BODY_LENGTH - 1, q);
    }
    lemma_found_before_replacing(output, FENCE@, HARMLESS_FENCE@, q);
}

/// An ordinary secret is clear of the frame.
pub proof fn law_ordinary_secrets_are_clear_of_the_frame(output: Seq<char>, q: Seq<char>)
    requires
        ordinary(q),
    ensures
        clear_of_frame(q, output),
{
    reveal_strlit("```\n");
    reveal_strlit("…\n```");
    reveal_strlit("\n```");
    reveal_strlit("`\u{200b}``");
    let start = "```\n"@;
    let end = lua_end(output);
    let n = q.len() as int;
    assert forall|k: int| 0 <= k < n implies #[trigger] q[k] != '`' && q[k] != '…' && q[k]
        != '\u{200b}' by {
        assert(q.contains(q[k]));
    }
    assert(start.len() == 4 && end.len() <= 5);
    assert(!has_text(start, q)) by {
        if has_text(start, q) {
            let i = choose|i: int| occurs_at(start, q, i);
        }
    }
    assert forall|m: int| 0 < m < n implies !ends(start, #[trigger] q.take(m)) by {
        if ends(start, q.take(m)) {
            assert(start.subrange(4 - m, 4)[0] == q.take(m)[0]);
            assert(q.take(m)[0] == q[0]);
        }
    }
    assert(!has_text(end, q)) by {
        if has_text(end, q) {
            let i = choose|i: int| occurs_at(end, q, i);
        }
    }
    assert forall|s: int| 0 < s < n implies !begins(end, #[trigger] q.skip(s)) by {
        if begins(end, q.skip(s)) {
            let m = n - s;
            assert(end.subrange(0, m)[0] == q[s]);
            assert(end.subrange(0, m)[m - 1] == q[n - 1]);
        }
    }
    assert forall|s: int| 0 <= s < n implies !agree(#[trigger] q.skip(s), HARMLESS_FENCE@) by {
        assert(q.skip(s)[0] == q[s]);
    }
    assert forall|i: int| 0 < i < HARMLESS_FENCE@.len() implies !agree(
        q,
        #[trigger] HARMLESS_FENCE@.skip(i),
    ) by {
        let rest = HARMLESS_FENCE@.skip(i);
        assert(rest[0] == '`' || rest[0] == '\u{200b}');
        if agree(q, rest) {
            assert(q[0] == rest[0]);
        }
    }
}

// ---------------------------------------------------------------------- laws

/// Each of the ten parts of the bar stands for ten percent: it is filled where they
/// are done. Behind the bar stands the percentage, and then what is being done,
/// where that is known.
pub proof fn law_bar_shows_the_percentage(stage: nat, detail: Seq<char>, i: int)
    requires
        0 <= i < 10,
    ensures
        ({
            let n = "🧠 **Compacting conversation**\n`["@.len() as int;
            let plain = progress_bar(stage, None);
            let told = progress_bar(stage, Some(detail));
            &&& begins(plain, "🧠 **Compacting conversation**\n`["@)
            &&& plain[n + i] == (if 10 * (i + 1) <= stage {
                '█'
            } else {
                '░'
            })
            &&& plain.skip(n + 10) == "] "@ + decimal(stage) + "%`"@
            &&& told == plain + " — "@ + detail
        }),
{
    let head = "🧠 **Compacting conversation**\n`["@;
    let k = filled_parts(stage);
    let done = repeated('█', k);
    let left = repeated('░', (10 - k) as nat);
    let tail = "] "@ + decimal(stage) + "%`"@;
    let plain = progress_bar(stage, None);
    let e = ""@;
    reveal_strlit("");
    let bar = head + done + left + "] "@ + decimal(stage) + "%`"@;
    assert(plain == bar + e);
    assert(bar + e =~= bar);
    law_last_pieces_end_a_text(head + done + left, "] "@, decimal(stage), "%`"@);
    assert(bar == head + done + left + tail);
    assert(bar.subrange(0, head.len() as int) =~= head);
    assert(bar.skip(head.len() as int + 10) =~= tail);
    assert(bar[head.len() + i] == (head + done + left)[head.len() + i]);
    if i < k {
        assert((head + done + left)[head.len() + i] == done[i]);
        assert(10 * (i + 1) <= stage);
    } else {
        assert((head + done + left)[head.len() + i] == left[i - k]);
        assert(10 * (i + 1) > stage);
    }
    law_last_pieces_end_a_text(plain, " — "@, detail, e);
}

/// A progress line is read as it is written: the percentage behind `compact:`, and
/// behind a further colon all that is being done, whatever it holds.
pub proof fn law_progress_lines_are_read(n: u64, detail: Seq<char>, line: Seq<char>)
    ensures
        progress_line("compact:"@ + decimal(n as nat)) == Some(progress_bar(n as nat, None)),
        detail.len() > 0 ==> progress_line("compact:"@ + (decimal(n as nat) + seq![':'] + detail))
            == Some(progress_bar(n as nat, Some(detail))),
        progress_line("compact:"@ + (decimal(n as nat) + seq![':'])) == Some(
            progress_bar(n as nat, None),
        ),
        !begins(line, "compact:"@) ==> progress_line(line) is None,
{
    let prefix = "compact:"@;
    let number = decimal(n as nat);
    lemma_decimal(n as nat);
    law_decimal_reads_back(n as nat, u64::MAX as nat);
    assert forall|i: int| 0 <= i < number.len() implies number[i] != ':' by {}
    law_split_at_the_first(number, ':', detail);
    law_split_at_the_first(number, ':', Seq::empty());
    assert(number + seq![':'] + Seq::empty() =~= number + seq![':']);
    assert((prefix + number).subrange(0, prefix.len() as int) =~= prefix);
    assert((prefix + number).skip(prefix.len() as int) =~= number);
    let rest = number + seq![':'] + detail;
    assert((prefix + rest).subrange(0, prefix.len() as int) =~= prefix);
    assert((prefix + rest).skip(prefix.len() as int) =~= rest);
    let bare = number + seq![':'];
    assert((prefix + bare).subrange(0, prefix.len() as int) =~= prefix);
    assert((prefix + bare).skip(prefix.len() as int) =~= bare);
}

/// What looks like a request: anything with a question mark, and what begins, behind
/// white space and in whatever case, with one of ten openings.
pub proof fn law_what_looks_like_a_request(content: Seq<char>)
    ensures
        ({
            let words = lower(trimmed(content));
            looks_like_request(content) <==> {
                ||| words.contains('?')
                ||| begins(words, "how "@)
                ||| begins(words, "what "@)
                ||| begins(words, "where "@)
                ||| begins(words, "when "@)
                ||| begins(words, "why "@)
                ||| begins(words, "can you "@)
                ||| begins(words, "could you "@)
                ||| begins(words, "remind me "@)
                ||| begins(words, "how do i "@)
                ||| begins(words, "what can you do"@)
            }
        }),
{
    let n = lower(trimmed(content));
    reveal_strlit("?");
    reveal_strlit("how ");
    reveal_strlit("what ");
    reveal_strlit("where ");
    reveal_strlit("when ");
    reveal_strlit("why ");
    reveal_strlit("can you ");
    reveal_strlit("could you ");
    reveal_strlit("remind me ");
    reveal_strlit("how do i ");
    reveal_strlit("what can you do");
    assert("?"@ =~= seq!['?']);
    if has_text(n, "?"@) {
        let i = choose|i: int| occurs_at(n, "?"@, i);
        assert(n.subrange(i, i + 1)[0] == n[i]);
    }
    if n.contains('?') {
        let i = choose|i: int| 0 <= i < n.len() && n[i] == '?';
        assert(n.subrange(i, i + 1) =~= "?"@);
        assert(occurs_at(n, "?"@, i));
    }
}

/// A command is split at its first line break: the first line, and all that follows
/// it, both without white space around them.
pub proof fn law_commands_are_split_at_the_first_line(first: Seq<char>, rest: Seq<char>)
    requires
        !first.contains('\n'),
    ensures
        command_parts(first + seq!['\n'] + rest) == (trimmed(first), trimmed(rest)),
        command_parts(first) == (trimmed(first), Seq::<char>::empty()),
{
    law_split_at_the_first(first, '\n', rest);
}

/// Output without fences that fits a message is shown as it is; longer output is
/// shown up to where it no longer fits, with an ellipsis behind it.
pub proof fn law_output_is_shown_as_far_as_it_fits(output: Seq<char>)
    requires
        !has_text(output, "```"@),
    ensures
        output.len() <= 1992 ==> lua_reply(output) == "```\n"@ + output + "\n```"@,
        output.len() > 1992 ==> lua_reply(output) == "```\n"@ + output.take(1991).push('…')
            + "\n```"@,
{
    law_nothing_else_is_replaced(output, FENCE@, HARMLESS_FENCE@);
}

/// What is shown between the fences is the output with each fence made harmless, in
/// order.
pub proof fn law_fences_are_made_harmless(before: Seq<char>, behind: Seq<char>)
    requires
        forall|i: int| 0 <= i < before.len() ==> !occurs_at(before + "```"@ + behind, "```"@, i),
        replaced(before + "```"@ + behind, "```"@, "`\u{200b}``"@).len() <= 1992,
        lua_body(behind).len() < 1992,
    ensures
        lua_body(before + "```"@ + behind) == before + "`\u{200b}``"@ + lua_body(behind),
{
    reveal_strlit("```");
    law_the_first_is_replaced(before, FENCE@, HARMLESS_FENCE@, behind);
    let rest = replaced(behind, FENCE@, HARMLESS_FENCE@);
    if rest.len() > LUA_BODY_LENGTH {
        assert(lua_body(behind).len() == LUA_BODY_LENGTH);
    }
}

} // verus!
