//! Shaping an answer: in chunks that fit, with the tools it used, and with long
//! code as files.
use crate::bridge::{json_member, read_json_member};
use crate::redaction::ordinary;
use crate::text::{
    agree, begins, chars_of, clear_of, clear_of_end, decimal, first_chars, has_text,
    is_white_space, join, joined, law_last_pieces_end_a_text, law_parts_are_found,
    lemma_found_around, lemma_found_before_end, lemma_found_beside, lemma_found_in_part, no_texts,
    occurs_at, opt_str, opt_text, push_text, replace, replaced, same_text, take_chars, text_of,
    texts, to_decimal, white_space,
};
use vstd::prelude::*;

verus! {

// --------------------------------------------------------------------- chunks

/// The index of the last line break among the first `n` characters, but for the
/// very first one; 0 where there is none.
pub open spec fn last_break(s: Seq<char>, n: int) -> int
    decreases n,
{
    if n <= 1 {
        0
    } else if s[n - 1] == '\n' {
        n - 1
    } else {
        last_break(s, n - 1)
    }
}

/// A text in chunks of at most `limit` characters. Each but the last ends at a
/// line break, which is dropped, or is full.
pub open spec fn chunks_of(s: Seq<char>, limit: nat) -> Seq<Seq<char>>
    decreases s.len(),
{
    if limit == 0 || s.len() <= limit {
        seq![s]
    } else {
        let at = last_break(s, limit as int);
        if 0 < at < s.len() {
            seq![s.take(at)] + chunks_of(s.skip(at + 1), limit)
        } else {
            seq![s.take(limit as int)] + chunks_of(s.skip(limit as int), limit)
        }
    }
}

proof fn lemma_last_break(s: Seq<char>, n: int)
    requires
        0 <= n <= s.len(),
    ensures
        0 <= last_break(s, n) < n || last_break(s, n) == 0,
        last_break(s, n) > 0 ==> s[last_break(s, n)] == '\n',
    decreases n,
{
    if n > 1 && s[n - 1] != '\n' {
        lemma_last_break(s, n - 1);
    }
}

/// The place of the last line break in a window of a text.
fn find_break(v: &Vec<char>, from: usize, n: usize) -> (r: usize)
    requires
        from + n <= v@.len(),
    ensures
        r == last_break(v@.skip(from as int), n as int),
{
    let ghost s = v@.skip(from as int);
    let total: usize = v.len();
    let mut i: usize = n;
    while i > 1
        invariant
            i <= n,
            total == v@.len(),
            from + n <= v@.len(),
            s == v@.skip(from as int),
            last_break(s, n as int) == last_break(s, i as int),
        decreases i,
    {
        if v[from + (i - 1)] == '\n' {
            return i - 1;
        }
        i -= 1;
    }
    0
}

/// A text in chunks of at most `limit` characters, cut at line breaks where there
/// are any.
pub fn split_text(text: &str, limit: usize) -> (r: Vec<String>)
    requires
        limit > 0,
    ensures
        texts(r@) == chunks_of(text@, limit as nat),
{
    let v = chars_of(text);
    let n: usize = v.len();
    let mut chunks = no_texts();
    let mut from: usize = 0;
    proof {
        assert(v@.skip(0) =~= text@);
        assert(Seq::<Seq<char>>::empty() + chunks_of(text@, limit as nat) =~= chunks_of(
            text@,
            limit as nat,
        ));
    }
    while n - from > limit
        invariant
            v@ == text@,
            n == v@.len(),
            from <= n,
            limit > 0,
            chunks_of(text@, limit as nat) == texts(chunks@) + chunks_of(
                v@.skip(from as int),
                limit as nat,
            ),
        decreases n - from,
    {
        let ghost rest = v@.skip(from as int);
        let ghost done = texts(chunks@);
        let at: usize = find_break(&v, from, limit);
        proof {
            lemma_last_break(rest, limit as int);
        }
        let size: usize = if at > 0 {
            at
        } else {
            limit
        };
        let chunk = text_of(&v, from, from + size);
        push_text(&mut chunks, chunk.as_str());
        let skipped: usize = if at > 0 {
            at + 1
        } else {
            limit
        };
        proof {
            assert(chunk@ =~= rest.take(size as int));
            assert(rest.skip(skipped as int) =~= v@.skip(from + skipped));
            assert(texts(chunks@) + chunks_of(v@.skip(from + skipped), limit as nat) =~= done + (
            seq![rest.take(size as int)] + chunks_of(rest.skip(skipped as int), limit as nat)));
        }
        from += skipped;
    }
    let last = text_of(&v, from, n);
    let ghost done = texts(chunks@);
    push_text(&mut chunks, last.as_str());
    proof {
        assert(last@ =~= v@.skip(from as int));
        assert(texts(chunks@) =~= done + seq![last@]);
    }
    chunks
}

/// A text without its line breaks.
pub open spec fn without_breaks(s: Seq<char>) -> Seq<char>
    decreases s.len(),
{
    if s.len() == 0 {
        s
    } else if s[0] == '\n' {
        without_breaks(s.drop_first())
    } else {
        seq![s[0]] + without_breaks(s.drop_first())
    }
}

proof fn lemma_without_breaks_add(a: Seq<char>, b: Seq<char>)
    ensures
        without_breaks(a + b) == without_breaks(a) + without_breaks(b),
    decreases a.len(),
{
    if a.len() == 0 {
        assert(a + b =~= b);
        assert(without_breaks(a) + without_breaks(b) =~= without_breaks(b));
    } else {
        lemma_without_breaks_add(a.drop_first(), b);
        assert((a + b).drop_first() =~= a.drop_first() + b);
        assert(without_breaks(a) + without_breaks(b) =~= (if a[0] == '\n' {
            Seq::empty()
        } else {
            seq![a[0]]
        }) + (without_breaks(a.drop_first()) + without_breaks(b)));
        if a[0] == '\n' {
            assert(Seq::<char>::empty() + without_breaks(a.drop_first() + b) =~= without_breaks(
                a.drop_first() + b,
            ));
        }
    }
}

/// Every chunk fits, and there is always one.
pub proof fn law_chunks_fit(s: Seq<char>, limit: nat)
    requires
        limit > 0,
    ensures
        chunks_of(s, limit).len() > 0,
        forall|i: int|
            0 <= i < chunks_of(s, limit).len() ==> (#[trigger] chunks_of(s, limit)[i]).len()
                <= limit,
    decreases s.len(),
{
    if s.len() > limit {
        lemma_last_break(s, limit as int);
        let at = last_break(s, limit as int);
        if at > 0 {
            law_chunks_fit(s.skip(at + 1), limit);
        } else {
            law_chunks_fit(s.skip(limit as int), limit);
        }
    }
}

/// The chunks hold the text, but for line breaks.
pub proof fn law_chunks_hold_the_text(s: Seq<char>, limit: nat)
    requires
        limit > 0,
    ensures
        without_breaks(joined(chunks_of(s, limit), Seq::empty())) == without_breaks(s),
    decreases s.len(),
{
    let none = Seq::<char>::empty();
    if s.len() <= limit {
        assert(joined(seq![s], none) == s);
    } else {
        lemma_last_break(s, limit as int);
        let at = last_break(s, limit as int);
        let (head, rest) = if at > 0 {
            (s.take(at), s.skip(at + 1))
        } else {
            (s.take(limit as int), s.skip(limit as int))
        };
        law_chunks_hold_the_text(rest, limit);
        law_chunks_fit(rest, limit);
        let chunks = chunks_of(s, limit);
        assert(chunks =~= seq![head] + chunks_of(rest, limit));
        assert(chunks.drop_first() =~= chunks_of(rest, limit));
        assert(joined(chunks, none) == head + (none + joined(chunks_of(rest, limit), none)));
        assert(none + joined(chunks_of(rest, limit), none) =~= joined(
            chunks_of(rest, limit),
            none,
        ));
        lemma_without_breaks_add(head, joined(chunks_of(rest, limit), none));
        if at > 0 {
            let tail = s.skip(at);
            assert(s =~= head + tail);
            assert(tail.drop_first() =~= rest);
            assert(tail[0] == '\n');
            lemma_without_breaks_add(head, tail);
        } else {
            assert(s =~= head + rest);
            lemma_without_breaks_add(head, rest);
        }
    }
}

/// A text without line breaks is cut into its parts and nothing is lost.
pub proof fn law_a_long_line_is_cut_whole(s: Seq<char>, limit: nat)
    requires
        limit > 0,
        forall|i: int| 0 <= i < s.len() ==> s[i] != '\n',
    ensures
        joined(chunks_of(s, limit), Seq::empty()) == s,
    decreases s.len(),
{
    let none = Seq::<char>::empty();
    if s.len() <= limit {
        assert(joined(seq![s], none) == s);
    } else {
        lemma_last_break(s, limit as int);
        let head = s.take(limit as int);
        let rest = s.skip(limit as int);
        law_a_long_line_is_cut_whole(rest, limit);
        law_chunks_fit(rest, limit);
        let chunks = chunks_of(s, limit);
        assert(chunks =~= seq![head] + chunks_of(rest, limit));
        assert(chunks.drop_first() =~= chunks_of(rest, limit));
        assert(joined(chunks, none) == head + (none + joined(chunks_of(rest, limit), none)));
        assert(head + (none + rest) =~= s);
    }
}

// ---------------------------------------------------------------------- tools

/// Tools in code marks.
pub open spec fn tool_marks(tools: Seq<Seq<char>>) -> Seq<Seq<char>> {
    tools.map_values(|tool: Seq<char>| "`"@ + tool + "`"@)
}

/// An answer with the tools that it used, in the order of their calls.
pub open spec fn with_tools(text: Seq<char>, tools: Seq<Seq<char>>) -> Seq<char> {
    text + "\n\n🛠️ **Tools used:** "@ + (if tools.len() == 0 {
        "none"@
    } else {
        joined(tool_marks(tools), ", "@)
    })
}

/// An answer with the tools that it used, in the order of their calls.
pub fn append_tool_summary(text: &str, tools: &Vec<String>) -> (r: String)
    ensures
        r@ == with_tools(text@, texts(tools@)),
{
    let start = text.to_owned().concat("\n\n🛠️ **Tools used:** ");
    let n: usize = tools.len();
    if n == 0 {
        return start.concat("none");
    }
    let mut marks = no_texts();
    let mut i: usize = 0;
    while i < n
        invariant
            n == tools@.len(),
            i <= n,
            texts(marks@) == tool_marks(texts(tools@).take(i as int)),
        decreases n - i,
    {
        let mark = "`".to_owned().concat(tools[i].as_str()).concat("`");
        push_text(&mut marks, mark.as_str());
        i += 1;
        proof {
            assert(tool_marks(texts(tools@).take(i as int)) =~= tool_marks(
                texts(tools@).take(i - 1),
            ).push(mark@));
        }
    }
    proof {
        assert(texts(tools@).take(n as int) =~= texts(tools@));
    }
    let list = join(&marks, ", ");
    start.concat(list.as_str())
}

// ---------------------------------------------------------------------- hints

/// How many characters of a value a hint shows.
pub const HINT_LENGTH: usize = 80;

/// A text on one line and cut to the length of a hint.
pub open spec fn hint_line(text: Seq<char>) -> Seq<char> {
    let flat = replaced(text, "\n"@, " "@);
    if flat.len() <= HINT_LENGTH {
        flat
    } else {
        first_chars(flat, HINT_LENGTH as nat) + "…"@
    }
}

/// What is told of the call of a tool: of a skill its name, and its input where
/// there is one; of any other tool what it was asked, or its task.
pub open spec fn hint(
    tool: Seq<char>,
    name: Option<Seq<char>>,
    input: Option<Seq<char>>,
    query: Option<Seq<char>>,
    task: Option<Seq<char>>,
) -> Seq<char> {
    if tool == "run_skill"@ {
        match (name, input) {
            (None, _) => ""@,
            (Some(name), None) => hint_line(name),
            (Some(name), Some(input)) => hint_line(name + ": "@ + input),
        }
    } else {
        match (query, task) {
            (Some(query), _) => hint_line(query),
            (None, Some(task)) => hint_line(task),
            (None, None) => ""@,
        }
    }
}

/// A text on one line and cut to the length of a hint.
fn shorten(text: &str) -> (r: String)
    ensures
        r@ == hint_line(text@),
{
    proof {
        reveal_strlit("\n");
    }
    let flat = replace(text, "\n", " ");
    let size: usize = flat.as_str().unicode_len();
    if size <= HINT_LENGTH {
        flat
    } else {
        take_chars(flat.as_str(), HINT_LENGTH).to_owned().concat("…")
    }
}

/// What is told of the call of a tool with these arguments.
pub fn hint_text(
    tool: &str,
    name: Option<&str>,
    input: Option<&str>,
    query: Option<&str>,
    task: Option<&str>,
) -> (r: String)
    ensures
        r@ == hint(tool@, opt_str(name), opt_str(input), opt_str(query), opt_str(task)),
{
    if same_text(tool, "run_skill") {
        match (name, input) {
            (None, _) => "".to_owned(),
            (Some(name), None) => shorten(name),
            (Some(name), Some(input)) => shorten(
                name.to_owned().concat(": ").concat(input).as_str(),
            ),
        }
    } else {
        match (query, task) {
            (Some(query), _) => shorten(query),
            (None, Some(task)) => shorten(task),
            (None, None) => "".to_owned(),
        }
    }
}

/// What is told of the call of a tool, given its arguments as a JSON object.
pub fn tool_hint(tool: &str, arguments: &str) -> (r: String)
    ensures
        r@ == hint(
            tool@,
            json_member(arguments@, "name"@),
            json_member(arguments@, "input"@),
            json_member(arguments@, "query"@),
            json_member(arguments@, "task"@),
        ),
{
    let name = read_json_member(arguments, "name");
    let input = read_json_member(arguments, "input");
    let query = read_json_member(arguments, "query");
    let task = read_json_member(arguments, "task");
    hint_text(tool, as_str(&name), as_str(&input), as_str(&query), as_str(&task))
}

/// A text that may be missing, borrowed.
fn as_str(text: &Option<String>) -> (r: Option<&str>)
    ensures
        opt_str(r) == opt_text(*text),
{
    match text {
        Some(text) => Some(text.as_str()),
        None => None,
    }
}

/// No line break is left once each is made a space.
proof fn lemma_flat(s: Seq<char>)
    ensures
        !replaced(s, "\n"@, " "@).contains('\n'),
    decreases s.len(),
{
    reveal_strlit("\n");
    reveal_strlit(" ");
    assert("\n"@.len() == 1 && " "@.len() == 1);
    assert("\n"@[0] == '\n' && " "@[0] == ' ');
    let r = replaced(s, "\n"@, " "@);
    if s.len() > 0 {
        let broken = begins(s, "\n"@);
        let rest = if broken {
            replaced(s.skip(1), "\n"@, " "@)
        } else {
            replaced(s.drop_first(), "\n"@, " "@)
        };
        lemma_flat(s.skip(1));
        lemma_flat(s.drop_first());
        if s[0] == '\n' {
            assert(s.take(1) =~= "\n"@);
        }
        assert(broken ==> r == " "@ + rest);
        assert(!broken ==> r == seq![s[0]] + rest);
        assert forall|i: int| 0 <= i < r.len() implies #[trigger] r[i] != '\n' by {
            if i > 0 {
                assert(r[i] == rest[i - 1]);
                assert(rest.contains(rest[i - 1]));
            }
        }
    }
}

/// A hint is one short line, whatever the arguments hold.
pub proof fn law_hints_are_short_and_on_one_line(
    tool: Seq<char>,
    name: Option<Seq<char>>,
    input: Option<Seq<char>>,
    query: Option<Seq<char>>,
    task: Option<Seq<char>>,
)
    ensures
        hint(tool, name, input, query, task).len() <= HINT_LENGTH + 1,
        !hint(tool, name, input, query, task).contains('\n'),
{
    reveal_strlit("");
    assert(""@.len() == 0);
    let h = hint(tool, name, input, query, task);
    if h.len() > 0 {
        let text = if tool == "run_skill"@ {
            match input {
                None => name->0,
                Some(input) => name->0 + ": "@ + input,
            }
        } else {
            match query {
                Some(query) => query,
                None => task->0,
            }
        };
        assert(h == hint_line(text));
        lemma_flat(text);
        reveal_strlit("…");
        assert("…"@.len() == 1 && "…"@[0] == '…');
        let flat = replaced(text, "\n"@, " "@);
        assert forall|i: int| 0 <= i < h.len() implies #[trigger] h[i] != '\n' by {
            if i < flat.len() {
                assert(flat.contains(flat[i]));
            }
        }
    }
}

// ----------------------------------------------------------------------- code

/// How long code is that becomes a file.
pub const CODE_FILE_LENGTH: usize = 1000;

/// A code fence.
pub const CODE_FENCE: &'static str = "```";

/// The extension for a language.
pub open spec fn extension(language: Seq<char>) -> Seq<char> {
    if language == "python"@ || language == "py"@ {
        "py"@
    } else if language == "bash"@ || language == "sh"@ || language == "shell"@ {
        "sh"@
    } else if language == "javascript"@ || language == "js"@ {
        "js"@
    } else if language == "typescript"@ || language == "ts"@ {
        "ts"@
    } else if language == "rust"@ || language == "rs"@ {
        "rs"@
    } else if language == "html"@ || language == "css"@ || language == "json"@ || language
        == "yaml"@ || language == "toml"@ || language == "sql"@ || language == "lua"@ || language
        == "go"@ || language == "java"@ || language == "c"@ || language == "cpp"@ {
        language
    } else {
        "txt"@
    }
}

/// The extension for a language.
pub fn lang_ext(language: &str) -> (r: &str)
    ensures
        r@ == extension(language@),
{
    if same_text(language, "python") || same_text(language, "py") {
        "py"
    } else if same_text(language, "bash") || same_text(language, "sh") || same_text(
        language,
        "shell",
    ) {
        "sh"
    } else if same_text(language, "javascript") || same_text(language, "js") {
        "js"
    } else if same_text(language, "typescript") || same_text(language, "ts") {
        "ts"
    } else if same_text(language, "rust") || same_text(language, "rs") {
        "rs"
    } else if same_text(language, "html") || same_text(language, "css") || same_text(
        language,
        "json",
    ) || same_text(language, "yaml") || same_text(language, "toml") || same_text(language, "sql")
        || same_text(language, "lua") || same_text(language, "go") || same_text(language, "java")
        || same_text(language, "c") || same_text(language, "cpp") {
        language
    } else {
        "txt"
    }
}

/// The index of the first character at or after `i` that ends the name of a
/// language: white space or a backtick, or the end.
pub open spec fn name_end(s: Seq<char>, i: int) -> int
    decreases s.len() - i,
{
    if i < 0 || i >= s.len() || is_white_space(s[i]) || s[i] == '`' {
        i
    } else {
        name_end(s, i + 1)
    }
}

/// Does a code block open at `i`: a fence, the name of a language or none, and
/// the end of the line?
pub open spec fn opens_at(s: Seq<char>, i: int) -> bool {
    occurs_at(s, CODE_FENCE@, i) && name_end(s, i + 3) < s.len() && s[name_end(s, i + 3)] == '\n'
}

/// The first index at or after `i` at which a code block opens; the length of the
/// text where there is none.
pub open spec fn opening(s: Seq<char>, i: int) -> int
    decreases s.len() - i,
{
    if i < 0 || i >= s.len() {
        s.len() as int
    } else if opens_at(s, i) {
        i
    } else {
        opening(s, i + 1)
    }
}

/// The first index at or after `i` at which a fence stands; the length of the
/// text where there is none.
pub open spec fn closing(s: Seq<char>, i: int) -> int
    decreases s.len() - i,
{
    if i < 0 || i >= s.len() {
        s.len() as int
    } else if occurs_at(s, CODE_FENCE@, i) {
        i
    } else {
        closing(s, i + 1)
    }
}

/// The name of a file with code.
pub open spec fn file_name(number: nat, language: Seq<char>) -> Seq<char> {
    "script_"@ + decimal(number) + "."@ + extension(language)
}

/// What stands where the code was.
pub open spec fn file_note(name: Seq<char>) -> Seq<char> {
    "📎 `"@ + name + "`"@
}

/// The parts of the first code block: where it opens, where its code is, and
/// where it ends.
pub struct Block {
    pub start: int,
    pub code_start: int,
    pub code_end: int,
    pub end: int,
}

/// The first code block at or after `i`. One that is not closed goes to the end.
#[verifier::opaque]
pub open spec fn block_from(s: Seq<char>, i: int) -> Block {
    let start = opening(s, i);
    let code_start = name_end(s, start + 3) + 1;
    let code_end = closing(s, code_start);
    Block {
        start,
        code_start,
        code_end,
        end: if code_end + 3 <= s.len() {
            code_end + 3
        } else {
            s.len() as int
        },
    }
}

/// The text from `i` on with long code replaced by a note, where `count` files
/// were made before.
pub open spec fn text_without_code(s: Seq<char>, i: int, count: nat) -> Seq<char>
    decreases s.len() - i,
{
    let b = block_from(s, i);
    if i < 0 || i >= s.len() {
        Seq::empty()
    } else if b.start >= s.len() {
        s.skip(i)
    } else {
        proof {
            lemma_block(s, i);
        }
        if b.code_end - b.code_start >= CODE_FILE_LENGTH {
            s.subrange(i, b.start) + file_note(
                file_name(count + 1, s.subrange(b.start + 3, b.code_start - 1)),
            ) + text_without_code(s, b.end, count + 1)
        } else {
            s.subrange(i, b.end) + text_without_code(s, b.end, count)
        }
    }
}

/// The files made of the long code from `i` on, where `count` were made before.
pub open spec fn code_files(s: Seq<char>, i: int, count: nat) -> Seq<(Seq<char>, Seq<char>)>
    decreases s.len() - i,
{
    let b = block_from(s, i);
    if i < 0 || i >= s.len() || b.start >= s.len() {
        Seq::empty()
    } else {
        proof {
            lemma_block(s, i);
        }
        if b.code_end - b.code_start >= CODE_FILE_LENGTH {
            seq![
                (
                    file_name(count + 1, s.subrange(b.start + 3, b.code_start - 1)),
                    s.subrange(b.code_start, b.code_end),
                ),
            ] + code_files(s, b.end, count + 1)
        } else {
            code_files(s, b.end, count)
        }
    }
}

proof fn lemma_name_end(s: Seq<char>, i: int)
    requires
        0 <= i <= s.len(),
    ensures
        i <= name_end(s, i) <= s.len(),
    decreases s.len() - i,
{
    if i < s.len() && !is_white_space(s[i]) && s[i] != '`' {
        lemma_name_end(s, i + 1);
    }
}

proof fn lemma_opening(s: Seq<char>, i: int)
    requires
        0 <= i <= s.len(),
    ensures
        i <= opening(s, i) <= s.len(),
        opening(s, i) < s.len() ==> opens_at(s, opening(s, i)),
    decreases s.len() - i,
{
    if i < s.len() && !opens_at(s, i) {
        lemma_opening(s, i + 1);
    }
}

proof fn lemma_closing(s: Seq<char>, i: int)
    requires
        0 <= i <= s.len(),
    ensures
        i <= closing(s, i) <= s.len(),
        closing(s, i) < s.len() ==> occurs_at(s, CODE_FENCE@, closing(s, i)),
    decreases s.len() - i,
{
    if i < s.len() && !occurs_at(s, CODE_FENCE@, i) {
        lemma_closing(s, i + 1);
    }
}

/// Where the first block lies in the text.
pub proof fn lemma_block(s: Seq<char>, i: int)
    requires
        0 <= i <= s.len(),
    ensures
        i <= block_from(s, i).start <= s.len(),
        block_from(s, i).start < s.len() ==> block_from(s, i).start + 3 <= block_from(
            s,
            i,
        ).code_start - 1 && block_from(s, i).code_start <= block_from(s, i).code_end
            && block_from(s, i).code_end <= block_from(s, i).end && block_from(s, i).end
            <= s.len(),
{
    reveal(block_from);
    reveal_strlit("```");
    lemma_opening(s, i);
    let start = opening(s, i);
    if start < s.len() {
        lemma_name_end(s, start + 3);
        lemma_closing(s, name_end(s, start + 3) + 1);
    }
}

/// The index that ends the name of a language.
fn find_name_end(v: &Vec<char>, from: usize) -> (r: usize)
    requires
        from <= v@.len(),
    ensures
        r == name_end(v@, from as int),
        from <= r <= v@.len(),
{
    let n: usize = v.len();
    let mut i: usize = from;
    while i < n && !white_space(v[i]) && v[i] != '`'
        invariant
            n == v@.len(),
            from <= i <= n,
            name_end(v@, from as int) == name_end(v@, i as int),
        decreases n - i,
    {
        i += 1;
    }
    i
}

/// Where the next code block opens.
fn find_opening(v: &Vec<char>, fence: &Vec<char>, from: usize) -> (r: usize)
    requires
        from <= v@.len(),
        fence@ == CODE_FENCE@,
    ensures
        r == opening(v@, from as int),
        from <= r <= v@.len(),
{
    let n: usize = v.len();
    let mut i: usize = from;
    proof {
        reveal_strlit("```");
    }
    while i < n
        invariant
            n == v@.len(),
            fence@ == CODE_FENCE@,
            CODE_FENCE@.len() == 3,
            from <= i <= n,
            opening(v@, from as int) == opening(v@, i as int),
        decreases n - i,
    {
        if crate::text::stands_at(v, fence, i) {
            let end: usize = find_name_end(v, i + 3);
            if end < n && v[end] == '\n' {
                return i;
            }
        }
        i += 1;
    }
    n
}

/// Where the next fence stands.
fn find_closing(v: &Vec<char>, fence: &Vec<char>, from: usize) -> (r: usize)
    requires
        from <= v@.len(),
        fence@ == CODE_FENCE@,
    ensures
        r == closing(v@, from as int),
        from <= r <= v@.len(),
{
    let n: usize = v.len();
    let mut i: usize = from;
    while i < n
        invariant
            n == v@.len(),
            fence@ == CODE_FENCE@,
            from <= i <= n,
            closing(v@, from as int) == closing(v@, i as int),
        decreases n - i,
    {
        if crate::text::stands_at(v, fence, i) {
            return i;
        }
        i += 1;
    }
    n
}

/// The first code block at or after `from`: where it opens, where its code is,
/// and where it ends; none where no block opens.
fn find_block(v: &Vec<char>, fence: &Vec<char>, from: usize) -> (r: Option<
    (usize, usize, usize, usize),
>)
    requires
        from <= v@.len(),
        fence@ == CODE_FENCE@,
    ensures
        ({
            let b = block_from(v@, from as int);
            match r {
                Some((start, code_start, code_end, end)) => b == (Block {
                    start: start as int,
                    code_start: code_start as int,
                    code_end: code_end as int,
                    end: end as int,
                }) && start < v@.len(),
                None => b.start >= v@.len(),
            }
        }),
{
    proof {
        reveal(block_from);
        reveal_strlit("```");
        lemma_opening(v@, from as int);
    }
    let n: usize = v.len();
    let start: usize = find_opening(v, fence, from);
    if start >= n {
        return None;
    }
    let code_start: usize = find_name_end(v, start + 3) + 1;
    let code_end: usize = find_closing(v, fence, code_start);
    let end: usize = if n - code_end >= 3 {
        code_end + 3
    } else {
        n
    };
    Some((start, code_start, code_end, end))
}

/// The names and contents of files.
pub open spec fn file_texts(files: Seq<(String, String)>) -> Seq<(Seq<char>, Seq<char>)> {
    files.map_values(|f: (String, String)| (f.0@, f.1@))
}

/// The name of a file with code.
fn name_file(number: u64, language: &str) -> (r: String)
    ensures
        r@ == file_name(number as nat, language@),
{
    let digits = to_decimal(number);
    "script_".to_owned().concat(digits.as_str()).concat(".").concat(lang_ext(language))
}

/// An answer with its long code blocks taken out, and the code of each with a
/// name.
pub fn extract_code(text: &str) -> (r: (String, Vec<(String, String)>))
    ensures
        r.0@ == text_without_code(text@, 0, 0),
        file_texts(r.1@) == code_files(text@, 0, 0),
{
    let v = chars_of(text);
    let fence = chars_of(CODE_FENCE);
    let n: usize = v.len();
    let mut kept = String::new();
    let mut files: Vec<(String, String)> = Vec::new();
    let mut i: usize = 0;
    let mut count: u64 = 0;
    proof {
        assert(kept@ + text_without_code(text@, 0, 0) =~= text_without_code(text@, 0, 0));
        assert(file_texts(files@) + code_files(text@, 0, 0) =~= code_files(text@, 0, 0));
    }
    while i < n
        invariant
            v@ == text@,
            fence@ == CODE_FENCE@,
            n == v@.len(),
            i <= n,
            count <= i,
            text_without_code(text@, 0, 0) == kept@ + text_without_code(
                text@,
                i as int,
                count as nat,
            ),
            code_files(text@, 0, 0) == file_texts(files@) + code_files(
                text@,
                i as int,
                count as nat,
            ),
        decreases n - i,
    {
        let ghost so_far = kept@;
        let ghost files_so_far = files@;
        let ghost from = i as int;
        proof {
            lemma_block(text@, from);
        }
        match find_block(&v, &fence, i) {
            None => {
                let rest = text_of(&v, i, n);
                kept.append(rest.as_str());
                i = n;
                proof {
                    assert(rest@ =~= text@.skip(from));
                    assert(text_without_code(text@, n as int, count as nat) =~= Seq::empty());
                    assert(kept@ + Seq::<char>::empty() =~= so_far + text@.skip(from));
                }
            },
            Some((start, code_start, code_end, end)) => {
                if code_end - code_start >= CODE_FILE_LENGTH {
                    let head = text_of(&v, i, start);
                    let language = text_of(&v, start + 3, code_start - 1);
                    let code = text_of(&v, code_start, code_end);
                    let name = name_file(count + 1, language.as_str());
                    kept.append(head.as_str());
                    kept.append("📎 `");
                    kept.append(name.as_str());
                    kept.append("`");
                    files.push((name, code));
                    count += 1;
                    proof {
                        let more = text_without_code(text@, end as int, count as nat);
                        assert(kept@ + more =~= so_far + (head@ + file_note(name@) + more));
                        let rest = code_files(text@, end as int, count as nat);
                        assert(file_texts(files@) =~= file_texts(files_so_far).push(
                            (name@, code@),
                        ));
                        assert(file_texts(files@) + rest =~= file_texts(files_so_far) + (seq![
                            (name@, code@),
                        ] + rest));
                    }
                } else {
                    let whole = text_of(&v, i, end);
                    kept.append(whole.as_str());
                    proof {
                        let more = text_without_code(text@, end as int, count as nat);
                        assert(kept@ + more =~= so_far + (whole@ + more));
                    }
                }
                i = end;
            },
        }
    }
    proof {
        assert(text_without_code(text@, n as int, count as nat) =~= Seq::empty());
        assert(kept@ + Seq::<char>::empty() =~= kept@);
        assert(file_texts(files@) + Seq::<(Seq<char>, Seq<char>)>::empty() =~= file_texts(files@));
    }
    (kept, files)
}

/// The names and bytes of files.
pub open spec fn file_contents(files: Seq<(String, Vec<u8>)>) -> Seq<(Seq<char>, Seq<u8>)> {
    files.map_values(|f: (String, Vec<u8>)| (f.0@, f.1@))
}

/// Files with their contents in UTF-8.
pub open spec fn file_bytes(files: Seq<(Seq<char>, Seq<char>)>) -> Seq<(Seq<char>, Seq<u8>)> {
    files.map_values(|f: (Seq<char>, Seq<char>)| (f.0, vstd::utf8::encode_utf8(f.1)))
}

/// An answer with its long code blocks taken out, and the files made of them.
pub fn extract_code_files(text: &str) -> (r: (String, Vec<(String, Vec<u8>)>))
    ensures
        r.0@ == text_without_code(text@, 0, 0),
        file_contents(r.1@) == file_bytes(code_files(text@, 0, 0)),
{
    let (kept, code) = extract_code(text);
    let mut files: Vec<(String, Vec<u8>)> = Vec::new();
    let n: usize = code.len();
    let mut i: usize = 0;
    while i < n
        invariant
            n == code@.len(),
            i <= n,
            file_contents(files@) == file_bytes(file_texts(code@).take(i as int)),
        decreases n - i,
    {
        let ghost before = files@;
        let file = (code[i].0.as_str().to_owned(), code[i].1.as_str().as_bytes_vec());
        files.push(file);
        i += 1;
        proof {
            assert(file_contents(files@) =~= file_contents(before).push((file.0@, file.1@)));
            assert(file_bytes(file_texts(code@).take(i as int)) =~= file_bytes(
                file_texts(code@).take(i - 1),
            ).push((file.0@, file.1@)));
        }
    }
    proof {
        assert(file_texts(code@).take(n as int) =~= file_texts(code@));
    }
    (kept, files)
}

// ----------------------------------------------------------------------- laws

/// The files are numbered from one, in the order of their code.
pub proof fn law_files_are_numbered_in_order(s: Seq<char>, k: int)
    requires
        0 <= k < code_files(s, 0, 0).len(),
    ensures
        begins(code_files(s, 0, 0)[k].0, "script_"@ + decimal((k + 1) as nat) + "."@),
{
    lemma_file_numbers(s, 0, 0, k);
}

proof fn lemma_file_numbers(s: Seq<char>, i: int, count: nat, k: int)
    requires
        0 <= i,
        0 <= k < code_files(s, i, count).len(),
    ensures
        begins(code_files(s, i, count)[k].0, "script_"@ + decimal((count + k + 1) as nat) + "."@),
    decreases s.len() - i,
{
    let b = block_from(s, i);
    lemma_block(s, i);
    if b.code_end - b.code_start >= CODE_FILE_LENGTH {
        if k == 0 {
            let name = code_files(s, i, count)[0].0;
            let start = "script_"@ + decimal(count + 1) + "."@;
            assert(name.subrange(0, start.len() as int) =~= start);
        } else {
            lemma_file_numbers(s, b.end, count + 1, k - 1);
            assert(code_files(s, i, count)[k] == code_files(s, b.end, count + 1)[k - 1]);
        }
    } else {
        lemma_file_numbers(s, b.end, count, k);
    }
}

/// Every file holds code of the answer, unchanged, and long enough for a file.
pub proof fn law_files_hold_code_of_the_answer(s: Seq<char>, k: int)
    requires
        0 <= k < code_files(s, 0, 0).len(),
    ensures
        crate::text::has_text(s, code_files(s, 0, 0)[k].1),
        code_files(s, 0, 0)[k].1.len() >= CODE_FILE_LENGTH,
{
    lemma_file_contents(s, 0, 0, k);
}

proof fn lemma_file_contents(s: Seq<char>, i: int, count: nat, k: int)
    requires
        0 <= i,
        0 <= k < code_files(s, i, count).len(),
    ensures
        crate::text::has_text(s, code_files(s, i, count)[k].1),
        code_files(s, i, count)[k].1.len() >= CODE_FILE_LENGTH,
    decreases s.len() - i,
{
    let b = block_from(s, i);
    lemma_block(s, i);
    if b.code_end - b.code_start >= CODE_FILE_LENGTH {
        if k == 0 {
            assert(occurs_at(s, s.subrange(b.code_start, b.code_end), b.code_start));
        } else {
            lemma_file_contents(s, b.end, count + 1, k - 1);
            assert(code_files(s, i, count)[k] == code_files(s, b.end, count + 1)[k - 1]);
        }
    } else {
        lemma_file_contents(s, b.end, count, k);
    }
}

/// An answer without a code block is not touched.
pub proof fn law_plain_answers_are_kept(s: Seq<char>)
    requires
        forall|i: int| !opens_at(s, i),
    ensures
        text_without_code(s, 0, 0) == s,
        code_files(s, 0, 0).len() == 0,
{
    reveal(block_from);
    lemma_opening(s, 0);
    assert(s.skip(0) =~= s);
}

proof fn lemma_found_in_marks(tools: Seq<Seq<char>>, q: Seq<char>)
    requires
        q.len() > 0,
        !q.contains('`'),
        !has_text(", "@, q),
        has_text(joined(tool_marks(tools), ", "@), q),
    ensures
        exists|i: int| 0 <= i < tools.len() && has_text(#[trigger] tools[i], q),
    decreases tools.len(),
{
    reveal_strlit("`");
    assert("`"@ =~= seq!['`']);
    let all = joined(tool_marks(tools), ", "@);
    if tools.len() == 0 {
        let i = choose|i: int| occurs_at(all, q, i);
    } else {
        assert(tool_marks(tools)[0] == "`"@ + tools[0] + "`"@);
        let rest = tools.drop_first();
        assert(tool_marks(tools).drop_first() =~= tool_marks(rest));
        let none = Seq::<char>::empty();
        let behind = if tools.len() == 1 {
            none
        } else {
            ", "@ + joined(tool_marks(rest), ", "@)
        };
        let inner = tools[0] + seq!['`'] + behind;
        assert(all =~= none + seq!['`'] + inner);
        lemma_found_beside(none, '`', inner, q);
        if has_text(none, q) {
            let i = choose|i: int| occurs_at(none, q, i);
        }
        lemma_found_beside(tools[0], '`', behind, q);
        if has_text(tools[0], q) {
        } else if tools.len() == 1 {
            let i = choose|i: int| occurs_at(none, q, i);
        } else {
            let next = rest[0];
            assert(tool_marks(rest)[0] == "`"@ + next + "`"@);
            let list = joined(tool_marks(rest), ", "@);
            let cut = list.drop_first();
            assert(list[0] == '`');
            assert(behind =~= ", "@ + seq!['`'] + cut);
            lemma_found_beside(", "@, '`', cut, q);
            assert(cut =~= list.subrange(1, list.len() as int));
            lemma_found_in_part(list, 1, list.len() as int, q);
            lemma_found_in_marks(rest, q);
            let i = choose|i: int| 0 <= i < rest.len() && has_text(#[trigger] rest[i], q);
            assert(has_text(tools[i + 1], q));
        }
    }
}

/// What follows an answer: the tools that it used.
pub open spec fn tools_note(tools: Seq<Seq<char>>) -> Seq<char> {
    with_tools(Seq::empty(), tools)
}

/// What is clear of the note on the tools and stands in an answer with that note
/// stands in the answer.
pub proof fn law_naming_tools_adds_their_note_only(
    text: Seq<char>,
    tools: Seq<Seq<char>>,
    q: Seq<char>,
)
    requires
        clear_of_end(q, tools_note(tools)),
        has_text(with_tools(text, tools), q),
    ensures
        has_text(text, q),
{
    assert(with_tools(text, tools) =~= text + tools_note(tools));
    lemma_found_before_end(text, tools_note(tools), q);
}

/// An ordinary secret that stands in the name of no tool is clear of the note on the
/// tools.
pub proof fn law_ordinary_secrets_are_clear_of_the_tools(tools: Seq<Seq<char>>, q: Seq<char>)
    requires
        ordinary(q),
        forall|i: int| 0 <= i < tools.len() ==> !has_text(#[trigger] tools[i], q),
    ensures
        clear_of_end(q, tools_note(tools)),
{
    let head = "\u{fe0f} **Tools used:** "@;
    let note = tools_note(tools);
    reveal_strlit("\n\n🛠️ **Tools used:** ");
    reveal_strlit("\u{fe0f} **Tools used:** ");
    reveal_strlit("\u{fe0f} **Tools used:** none");
    reveal_strlit("none");
    reveal_strlit("`");
    reveal_strlit(", ");
    let list = if tools.len() == 0 {
        "none"@
    } else {
        joined(tool_marks(tools), ", "@)
    };
    let breaks = seq!['\n', '\n'];
    assert(note =~= breaks + seq!['🛠'] + (head + list));
    assert(q.contains(q[q.len() - 1]));
    if has_text(note, q) {
        lemma_found_beside(breaks, '🛠', head + list, q);
        if has_text(breaks, q) {
            let i = choose|i: int| occurs_at(breaks, q, i);
        }
        if tools.len() == 0 {
            assert(head + list =~= "\u{fe0f} **Tools used:** none"@);
        } else {
            assert(tool_marks(tools)[0] == "`"@ + tools[0] + "`"@);
            assert("`"@ =~= seq!['`']);
            assert(list[0] == '`');
            let cut = list.drop_first();
            assert(head + list =~= head + seq!['`'] + cut);
            lemma_found_beside(head, '`', cut, q);
            if has_text(head, q) {
                let all = "\u{fe0f} **Tools used:** none"@;
                assert(all.subrange(0, head.len() as int) =~= head);
                lemma_found_in_part(all, 0, head.len() as int, q);
            }
            assert(cut =~= list.subrange(1, list.len() as int));
            lemma_found_in_part(list, 1, list.len() as int, q);
            assert(!has_text(", "@, q)) by {
                if has_text(", "@, q) {
                    let i = choose|i: int| occurs_at(", "@, q, i);
                }
            }
            lemma_found_in_marks(tools, q);
        }
    }
    assert forall|s: int| 0 < s < q.len() implies !begins(note, #[trigger] q.skip(s)) by {
        if begins(note, q.skip(s)) {
            let n = q.len() - s;
            let at = note.subrange(0, n);
            assert(at[n - 1] == q[q.len() - 1]);
            if n >= 3 {
                assert(at[2] == q[s + 2]);
                assert(q.contains(q[s + 2]));
            }
        }
    }
}

/// An ordinary secret that does not stand in the name of a file is clear of the note
/// on it.
pub proof fn law_ordinary_secrets_are_clear_of_notes(name: Seq<char>, q: Seq<char>)
    requires
        ordinary(q),
        !has_text(name, q),
    ensures
        clear_of(q, file_note(name)),
{
    let note = file_note(name);
    reveal_strlit("📎 `");
    reveal_strlit("`");
    let last = note.len() - 1;
    assert(note[0] == '📎' && note[2] == '`' && note[last] == '`');
    assert forall|s: int| 0 <= s < q.len() implies !agree(#[trigger] q.skip(s), note) by {
        assert(q.skip(s)[0] == q[s]);
        assert(q.contains(q[s]));
    }
    assert forall|i: int| 0 < i < note.len() implies !agree(q, #[trigger] note.skip(i)) by {
        let rest = note.skip(i);
        if agree(q, rest) {
            if i <= 2 {
                assert(q[2 - i] == rest[2 - i]);
                assert(q.contains(q[2 - i]));
            } else if i + q.len() > last {
                assert(q[last - i] == rest[last - i]);
                assert(q.contains(q[last - i]));
            } else {
                assert(name.subrange(i - 3, i - 3 + q.len()) =~= q) by {
                    assert forall|k: int| 0 <= k < q.len() implies name[i - 3 + k] == q[k] by {
                        assert(q[k] == rest[k]);
                    }
                }
                assert(occurs_at(name, q, i - 3));
            }
        }
    }
}

/// What stands in a text after code was taken out from `i` on, and is clear of the
/// notes, stood in it before.
proof fn lemma_found_before_cutting(s: Seq<char>, from: int, i: int, count: nat, q: Seq<char>)
    requires
        0 <= from <= i <= s.len(),
        forall|j: int|
            0 <= j < code_files(s, i, count).len() ==> clear_of(
                q,
                file_note((#[trigger] code_files(s, i, count)[j]).0),
            ),
        has_text(s.subrange(from, i) + text_without_code(s, i, count), q),
    ensures
        has_text(s, q),
    decreases s.len() - i,
{
    let kept = s.subrange(from, i);
    let b = block_from(s, i);
    let end = s.len() as int;
    lemma_block(s, i);
    if i >= s.len() {
        assert(kept + text_without_code(s, i, count) =~= kept);
        lemma_found_in_part(s, from, i, q);
    } else if b.start >= s.len() {
        assert(kept + text_without_code(s, i, count) =~= s.subrange(from, end));
        lemma_found_in_part(s, from, end, q);
    } else if b.code_end - b.code_start >= CODE_FILE_LENGTH {
        let files = code_files(s, i, count);
        let note = file_note(files[0].0);
        let more = text_without_code(s, b.end, count + 1);
        assert(kept + text_without_code(s, i, count) =~= s.subrange(from, b.start) + note + more);
        lemma_found_around(s.subrange(from, b.start), note, more, q);
        if has_text(s.subrange(from, b.start), q) {
            lemma_found_in_part(s, from, b.start, q);
        } else {
            assert(s.subrange(b.end, b.end) + more =~= more);
            let later = code_files(s, b.end, count + 1);
            assert forall|j: int| 0 <= j < later.len() implies clear_of(
                q,
                file_note((#[trigger] later[j]).0),
            ) by {
                assert(later[j] == files[j + 1]);
            }
            lemma_found_before_cutting(s, b.end, b.end, count + 1, q);
        }
    } else {
        let more = text_without_code(s, b.end, count);
        assert(kept + text_without_code(s, i, count) =~= s.subrange(from, b.end) + more);
        assert(code_files(s, i, count) == code_files(s, b.end, count));
        lemma_found_before_cutting(s, from, b.end, count, q);
    }
}

/// What stands in a text without its long code, and is clear of the notes on the
/// files made of that, stood in the text.
pub proof fn law_taking_out_code_adds_notes_only(s: Seq<char>, q: Seq<char>)
    requires
        forall|j: int|
            0 <= j < code_files(s, 0, 0).len() ==> clear_of(
                q,
                file_note((#[trigger] code_files(s, 0, 0)[j]).0),
            ),
        has_text(text_without_code(s, 0, 0), q),
    ensures
        has_text(s, q),
{
    assert(s.subrange(0, 0) + text_without_code(s, 0, 0) =~= text_without_code(s, 0, 0));
    lemma_found_before_cutting(s, 0, 0, 0, q);
}

/// What stands in a chunk of a text stands in the text.
pub proof fn law_chunks_hold_nothing_new(s: Seq<char>, limit: nat, i: int, q: Seq<char>)
    requires
        0 <= i < chunks_of(s, limit).len(),
        has_text(chunks_of(s, limit)[i], q),
    ensures
        has_text(s, q),
    decreases s.len(),
{
    if limit > 0 && s.len() > limit {
        lemma_last_break(s, limit as int);
        let at = last_break(s, limit as int);
        let (cut, next) = if 0 < at < s.len() {
            (at, at + 1)
        } else {
            (limit as int, limit as int)
        };
        let end = s.len() as int;
        if i == 0 {
            assert(s.take(cut) =~= s.subrange(0, cut));
            lemma_found_in_part(s, 0, cut, q);
        } else {
            assert(chunks_of(s, limit)[i] == chunks_of(s.skip(next), limit)[i - 1]);
            law_chunks_hold_nothing_new(s.skip(next), limit, i - 1, q);
            assert(s.skip(next) =~= s.subrange(next, end));
            lemma_found_in_part(s, next, end, q);
        }
    }
}

// ------------------------------------------------------- what becomes of a text

/// The last break of a window is the last there is, but for one at the very start.
proof fn lemma_last_break_is_last(s: Seq<char>, n: int, i: int)
    requires
        last_break(s, n) < i < n,
        0 < i,
    ensures
        s[i] != '\n',
    decreases n,
{
    if n > 1 && s[n - 1] != '\n' && i < n - 1 {
        lemma_last_break_is_last(s, n - 1, i);
    }
}

/// A text that fits stays whole. A longer one is cut at the last line break that
/// leaves a beginning which fits, and the break is dropped; where there is none it is
/// cut where it no longer fits. What is left is cut in the same way.
pub proof fn law_texts_are_cut_at_line_breaks(s: Seq<char>, limit: nat, at: int)
    requires
        limit > 0,
    ensures
        s.len() <= limit ==> chunks_of(s, limit) == seq![s],
        s.len() > limit && 0 < at < limit && s[at] == '\n' && (forall|i: int|
            at < i < limit ==> s[i] != '\n') ==> chunks_of(s, limit) == seq![s.take(at)]
            + chunks_of(s.skip(at + 1), limit),
        s.len() > limit && (forall|i: int| 0 < i < limit ==> s[i] != '\n') ==> chunks_of(s, limit)
            == seq![s.take(limit as int)] + chunks_of(s.skip(limit as int), limit),
{
    if s.len() > limit {
        let n = limit as int;
        lemma_last_break(s, n);
        let found = last_break(s, n);
        if 0 < at < n && s[at] == '\n' && (forall|i: int| at < i < n ==> s[i] != '\n') {
            if found < at {
                lemma_last_break_is_last(s, n, at);
            }
            assert(found == at);
        }
    }
}

/// Behind an answer stand the tools that it used, each between backticks, in the
/// order of their calls; where it used none, it says so.
pub proof fn law_tools_are_named_in_order(text: Seq<char>, tools: Seq<Seq<char>>, i: int)
    ensures
        with_tools(text, Seq::empty()) == text + "\n\n🛠️ **Tools used:** "@ + "none"@,
        tools.len() > 0 ==> with_tools(text, tools) == text + "\n\n🛠️ **Tools used:** "@ + joined(
            tool_marks(tools),
            ", "@,
        ),
        tool_marks(tools).len() == tools.len(),
        0 <= i < tools.len() ==> tool_marks(tools)[i] == "`"@ + tools[i] + "`"@,
        begins(with_tools(text, tools), text),
{
    let lead = "\n\n🛠️ **Tools used:** "@;
    let list = if tools.len() == 0 {
        "none"@
    } else {
        joined(tool_marks(tools), ", "@)
    };
    law_last_pieces_end_a_text(text, lead, list, list);
    law_parts_are_found(text, lead + list, list);
}

/// Making line breaks spaces changes them and nothing else.
proof fn lemma_flat_text(s: Seq<char>)
    ensures
        replaced(s, "\n"@, " "@).len() == s.len(),
        forall|i: int|
            0 <= i < s.len() ==> #[trigger] replaced(s, "\n"@, " "@)[i] == (if s[i] == '\n' {
                ' '
            } else {
                s[i]
            }),
    decreases s.len(),
{
    reveal_strlit("\n");
    reveal_strlit(" ");
    let flat = replaced(s, "\n"@, " "@);
    if s.len() > 0 {
        let rest = s.drop_first();
        lemma_flat_text(rest);
        let more = replaced(rest, "\n"@, " "@);
        if begins(s, "\n"@) {
            assert(s.subrange(0, 1)[0] == s[0]);
            assert(s.skip(1) =~= rest);
            assert(flat == " "@ + more);
        } else {
            if s[0] == '\n' {
                assert(s.subrange(0, 1) =~= "\n"@);
            }
            assert(flat == seq![s[0]] + more);
        }
        assert forall|i: int| 0 <= i < s.len() implies #[trigger] flat[i] == (if s[i] == '\n' {
            ' '
        } else {
            s[i]
        }) by {
            if i > 0 {
                assert(flat[i] == more[i - 1]);
                assert(s[i] == rest[i - 1]);
            }
        }
    }
}

/// A hint tells what a tool was asked: of a skill its name and, behind a colon, its
/// input; of any other tool the question, or else the task. It is told as it is, but
/// with spaces for line breaks, up to eighty characters; an ellipsis stands for more.
pub proof fn law_hints_tell_what_was_asked(
    tool: Seq<char>,
    name: Option<Seq<char>>,
    input: Option<Seq<char>>,
    query: Option<Seq<char>>,
    task: Option<Seq<char>>,
    text: Seq<char>,
    i: int,
)
    requires
        tool == "run_skill"@ ==> name is Some,
        tool == "run_skill"@ && input is None ==> Some(text) == name,
        tool == "run_skill"@ && input is Some ==> text == name.unwrap() + ": "@ + input.unwrap(),
        tool != "run_skill"@ && query is Some ==> Some(text) == query,
        tool != "run_skill"@ && query is None ==> Some(text) == task,
        0 <= i < text.len(),
        i < 80,
    ensures
        ({
            let told = hint(tool, name, input, query, task);
            &&& text.len() <= 80 ==> told.len() == text.len()
            &&& text.len() > 80 ==> told.len() == 81 && told[80] == '…'
            &&& told[i] == (if text[i] == '\n' {
                ' '
            } else {
                text[i]
            })
        }),
{
    lemma_flat_text(text);
    reveal_strlit("…");
    let flat = replaced(text, "\n"@, " "@);
    if flat.len() > 80 {
        assert(first_chars(flat, 80) == flat.take(80));
    }
}

/// Of a call that says nothing to tell, nothing is told.
pub proof fn law_nothing_is_told_of_nothing(tool: Seq<char>, some: Option<Seq<char>>)
    ensures
        tool == "run_skill"@ ==> hint(tool, None, some, some, some) == ""@,
        tool != "run_skill"@ ==> hint(tool, some, some, None, None) == ""@,
{
}

/// Each language has its own extension, the longer names and the short ones of a
/// language the same; any other is plain text.
pub proof fn law_languages_have_extensions(language: Seq<char>)
    ensures
        language == "python"@ || language == "py"@ ==> extension(language) == "py"@,
        language == "rust"@ || language == "rs"@ ==> extension(language) == "rs"@,
        language == "bash"@ || language == "sh"@ || language == "shell"@ ==> extension(language)
            == "sh"@,
        language == "javascript"@ || language == "js"@ ==> extension(language) == "js"@,
        language == "typescript"@ || language == "ts"@ ==> extension(language) == "ts"@,
        language == "html"@ || language == "css"@ || language == "json"@ || language == "yaml"@
            || language == "toml"@ || language == "sql"@ || language == "lua"@ || language == "go"@
            || language == "java"@ || language == "c"@ || language == "cpp"@ ==> extension(language)
            == language,
        language.len() == 0 ==> extension(language) == "txt"@,
        extension(language) == "txt"@ || extension(language) == "py"@ || extension(language)
            == "rs"@ || extension(language) == "sh"@ || extension(language) == "js"@ || extension(
            language,
        ) == "ts"@ || extension(language) == language,
{
    reveal_strlit("python");
    reveal_strlit("py");
    reveal_strlit("bash");
    reveal_strlit("sh");
    reveal_strlit("shell");
    reveal_strlit("javascript");
    reveal_strlit("js");
    reveal_strlit("typescript");
    reveal_strlit("ts");
    reveal_strlit("rust");
    reveal_strlit("rs");
    reveal_strlit("html");
    reveal_strlit("css");
    reveal_strlit("json");
    reveal_strlit("yaml");
    reveal_strlit("toml");
    reveal_strlit("sql");
    reveal_strlit("lua");
    reveal_strlit("go");
    reveal_strlit("java");
    reveal_strlit("c");
    reveal_strlit("cpp");
    assert("python"@.len() == 6 && "python"@[0] == 'p');
    assert("py"@.len() == 2 && "py"@[0] == 'p');
    assert("bash"@.len() == 4 && "bash"@[0] == 'b');
    assert("sh"@.len() == 2 && "sh"@[0] == 's');
    assert("shell"@.len() == 5 && "shell"@[0] == 's');
    assert("javascript"@.len() == 10 && "javascript"@[0] == 'j');
    assert("js"@.len() == 2 && "js"@[0] == 'j');
    assert("typescript"@.len() == 10 && "typescript"@[0] == 't');
    assert("ts"@.len() == 2 && "ts"@[0] == 't');
    assert("rust"@.len() == 4 && "rust"@[0] == 'r');
    assert("rs"@.len() == 2 && "rs"@[0] == 'r');
    assert("html"@.len() == 4 && "html"@[0] == 'h');
    assert("css"@.len() == 3 && "sql"@.len() == 3 && "lua"@.len() == 3 && "cpp"@.len() == 3);
    assert("json"@.len() == 4 && "json"@[0] == 'j');
    assert("yaml"@.len() == 4 && "yaml"@[0] == 'y');
    assert("toml"@.len() == 4 && "toml"@[0] == 't');
    assert("go"@.len() == 2 && "go"@[0] == 'g');
    assert("java"@.len() == 4 && "java"@[0] == 'j');
    assert("c"@.len() == 1);
}

/// Where the name of a language ends.
proof fn lemma_name_ends(s: Seq<char>, from: int, to: int)
    requires
        0 <= from <= to < s.len(),
        forall|i: int| from <= i < to ==> !is_white_space(#[trigger] s[i]) && s[i] != '`',
        s[to] == '\n',
    ensures
        name_end(s, from) == to,
    decreases to - from,
{
    if from < to {
        assert(!is_white_space(s[from]));
        lemma_name_ends(s, from + 1, to);
    }
}

/// Where the next block opens.
proof fn lemma_opens(s: Seq<char>, from: int, to: int)
    requires
        0 <= from <= to <= s.len(),
        forall|i: int| from <= i < to ==> !occurs_at(s, "```"@, i),
        to == s.len() || opens_at(s, to),
    ensures
        opening(s, from) == to,
    decreases to - from,
{
    if from < to {
        assert(!occurs_at(s, CODE_FENCE@, from));
        lemma_opens(s, from + 1, to);
    }
}

/// Where the next fence stands.
proof fn lemma_closes(s: Seq<char>, from: int, to: int)
    requires
        0 <= from <= to <= s.len(),
        forall|i: int| from <= i < to ==> !occurs_at(s, "```"@, i),
        to == s.len() || occurs_at(s, "```"@, to),
    ensures
        closing(s, from) == to,
    decreases to - from,
{
    if from < to {
        lemma_closes(s, from + 1, to);
    }
}

/// Of the code blocks of an answer, in order, those with a thousand characters of
/// code or more become files: the code, as it is, under a name with the next number
/// and the extension of its language; a note with that name stands in their place.
/// Shorter blocks, and what stands between blocks, stay as they are.
pub proof fn law_long_code_becomes_files(
    s: Seq<char>,
    from: int,
    count: nat,
    before: Seq<char>,
    language: Seq<char>,
    code: Seq<char>,
    behind: Seq<char>,
)
    requires
        0 <= from <= s.len(),
        s.skip(from) == before + "```"@ + language + "\n"@ + code + "```"@ + behind,
        forall|i: int| from <= i < from + before.len() ==> !occurs_at(s, "```"@, i),
        forall|i: int|
            0 <= i < language.len() ==> !is_white_space(#[trigger] language[i]) && language[i]
                != '`',
        forall|i: int|
            from + before.len() + language.len() + 4 <= i < from + before.len() + language.len() + 4
                + code.len() ==> !occurs_at(s, "```"@, i),
    ensures
        ({
            let end = from + before.len() + language.len() + code.len() + 7;
            let name = "script_"@ + decimal(count + 1) + "."@ + extension(language);
            &&& end <= s.len()
            &&& code.len() >= 1000 ==> text_without_code(s, from, count) == before + ("📎 `"@ + name
                + "`"@) + text_without_code(s, end, count + 1)
            &&& code.len() >= 1000 ==> code_files(s, from, count) == seq![(name, code)]
                + code_files(s, end, count + 1)
            &&& code.len() < 1000 ==> text_without_code(s, from, count) == (before + "```"@
                + language + "\n"@ + code + "```"@) + text_without_code(s, end, count)
            &&& code.len() < 1000 ==> code_files(s, from, count) == code_files(s, end, count)
        }),
{
    reveal_strlit("```");
    reveal_strlit("\n");
    reveal(block_from);
    let t = s.skip(from);
    let a = from + before.len();
    let b = a + 3 + language.len();
    let c = b + 1 + code.len();
    let whole = before + "```"@ + language + "\n"@ + code + "```"@;
    let end = c + 3;
    assert(t.len() == whole.len() + behind.len());
    assert(whole.len() == end - from);
    assert forall|i: int| 0 <= i < whole.len() implies s[from + i] == whole[i] by {
        assert(t[i] == s[from + i]);
        assert(t[i] == (whole + behind)[i]);
    }
    assert(s.subrange(from, end) =~= whole);
    let head = before + "```"@ + language + "\n"@;
    assert forall|i: int| 0 <= i < head.len() implies s[from + i] == head[i] by {
        assert(whole[i] == (head + code)[i]);
    }
    assert(s.subrange(a, a + 3) =~= "```"@) by {
        assert forall|i: int| 0 <= i < 3 implies s[a + i] == "```"@[i] by {
            assert(s[from + (before.len() + i)] == head[before.len() + i]);
        }
    }
    assert(occurs_at(s, "```"@, a));
    assert(s.subrange(a + 3, b) =~= language) by {
        assert forall|i: int| 0 <= i < language.len() implies s[a + 3 + i] == language[i] by {
            assert(s[from + (before.len() + 3 + i)] == head[before.len() + 3 + i]);
        }
    }
    assert(s[b] == '\n') by {
        let k = before.len() + 3 + language.len();
        assert(s[from + k] == head[k as int]);
    }
    assert forall|i: int| a + 3 <= i < b implies !is_white_space(#[trigger] s[i]) && s[i] != '`' by {
        assert(s.subrange(a + 3, b)[i - a - 3] == s[i]);
        assert(!is_white_space(language[i - a - 3]));
    }
    lemma_name_ends(s, a + 3, b);
    assert(opens_at(s, a));
    lemma_opens(s, from, a);
    assert(s.subrange(b + 1, c) =~= code) by {
        assert forall|i: int| 0 <= i < code.len() implies s[b + 1 + i] == code[i] by {
            let k = head.len() + i;
            assert(s[from + k] == whole[k]);
            assert(whole[k] == (head + code)[k]);
        }
    }
    assert(s.subrange(c, c + 3) =~= "```"@) by {
        assert forall|i: int| 0 <= i < 3 implies s[c + i] == "```"@[i] by {
            let k = head.len() + code.len() + i;
            assert(s[from + k] == whole[k]);
        }
    }
    assert(occurs_at(s, "```"@, c));
    lemma_closes(s, b + 1, c);
    let block = block_from(s, from);
    assert(block.start == a && block.code_start == b + 1 && block.code_end == c && block.end
        == end);
    assert(s.subrange(from, a) =~= before) by {
        assert forall|i: int| 0 <= i < before.len() implies s[from + i] == before[i] by {
            assert(s[from + i] == head[i]);
        }
    }
    lemma_block(s, from);
}

/// A text without a fence from some place on is kept from there on, and makes no
/// more files.
pub proof fn law_text_without_fences_is_kept(s: Seq<char>, from: int, count: nat)
    requires
        0 <= from <= s.len(),
        forall|i: int| from <= i < s.len() ==> !occurs_at(s, "```"@, i),
    ensures
        text_without_code(s, from, count) == s.skip(from),
        code_files(s, from, count).len() == 0,
{
    reveal(block_from);
    lemma_opens(s, from, s.len() as int);
    if from == s.len() {
        assert(s.skip(from) =~= Seq::empty());
    }
}

/// Files are taken as their names and contents, in order; as bytes their contents are
/// in UTF-8.
pub proof fn law_files_are_what_they_hold(
    files: Seq<(String, String)>,
    stored: Seq<(String, Vec<u8>)>,
    made: Seq<(Seq<char>, Seq<char>)>,
    i: int,
)
    ensures
        file_texts(files).len() == files.len(),
        0 <= i < files.len() ==> file_texts(files)[i] == (files[i].0@, files[i].1@),
        file_contents(stored).len() == stored.len(),
        0 <= i < stored.len() ==> file_contents(stored)[i] == (stored[i].0@, stored[i].1@),
        file_bytes(made).len() == made.len(),
        0 <= i < made.len() ==> file_bytes(made)[i] == (
            made[i].0,
            vstd::utf8::encode_utf8(made[i].1),
        ),
{
}

/// Where a name without white space and backticks ends.
proof fn lemma_name_is_whole(s: Seq<char>, from: int)
    requires
        0 <= from <= s.len(),
    ensures
        forall|i: int|
            from <= i < name_end(s, from) ==> !is_white_space(#[trigger] s[i]) && s[i] != '`',
    decreases s.len() - from,
{
    if from < s.len() && !is_white_space(s[from]) && s[from] != '`' {
        lemma_name_is_whole(s, from + 1);
    }
}

/// A code block opens with a fence and, on the same line, at most the name of a
/// language: a word without white space and backticks, up to the line break.
pub proof fn law_blocks_open_with_a_fence_and_a_name(s: Seq<char>, i: int, end: int)
    ensures
        occurs_at(s, "```"@, i) && i + 3 <= end < s.len() && s[end] == '\n' && (forall|k: int|
            i + 3 <= k < end ==> !is_white_space(#[trigger] s[k]) && s[k] != '`') ==> opens_at(
            s,
            i,
        ),
        opens_at(s, i) ==> occurs_at(s, "```"@, i) && exists|last: int|
            i + 3 <= last < s.len() && #[trigger] s[last] == '\n' && forall|k: int|
                i + 3 <= k < last ==> !is_white_space(#[trigger] s[k]) && s[k] != '`',
{
    reveal_strlit("```");
    if occurs_at(s, "```"@, i) {
        if i + 3 <= end < s.len() && s[end] == '\n' && (forall|k: int|
            i + 3 <= k < end ==> !is_white_space(#[trigger] s[k]) && s[k] != '`') {
            lemma_name_ends(s, i + 3, end);
        }
        lemma_name_end(s, i + 3);
        lemma_name_is_whole(s, i + 3);
        let last = name_end(s, i + 3);
        if opens_at(s, i) {
            assert(i + 3 <= last < s.len() && s[last] == '\n');
        }
    }
}

/// A code block that is not closed goes to the end of the text: with a thousand
/// characters of code or more it becomes the last file, and else it stays.
pub proof fn law_open_code_goes_to_the_end(
    s: Seq<char>,
    from: int,
    count: nat,
    before: Seq<char>,
    language: Seq<char>,
    code: Seq<char>,
)
    requires
        0 <= from <= s.len(),
        s.skip(from) == before + "```"@ + language + "\n"@ + code,
        forall|i: int| from <= i < from + before.len() ==> !occurs_at(s, "```"@, i),
        forall|i: int|
            0 <= i < language.len() ==> !is_white_space(#[trigger] language[i]) && language[i]
                != '`',
        forall|i: int|
            from + before.len() + language.len() + 4 <= i < s.len() ==> !occurs_at(s, "```"@, i),
    ensures
        ({
            let name = "script_"@ + decimal(count + 1) + "."@ + extension(language);
            &&& code.len() >= 1000 ==> text_without_code(s, from, count) == before + ("📎 `"@ + name
                + "`"@)
            &&& code.len() >= 1000 ==> code_files(s, from, count) == seq![(name, code)]
            &&& code.len() < 1000 ==> text_without_code(s, from, count) == s.skip(from)
            &&& code.len() < 1000 ==> code_files(s, from, count).len() == 0
        }),
{
    reveal_strlit("```");
    reveal_strlit("\n");
    reveal(block_from);
    let t = s.skip(from);
    let a = from + before.len();
    let b = a + 3 + language.len();
    let n = s.len() as int;
    let head = before + "```"@ + language + "\n"@;
    assert(t.len() == head.len() + code.len());
    assert(head.len() == before.len() + 3 + language.len() + 1);
    assert(n == b + 1 + code.len());
    assert forall|i: int| 0 <= i < head.len() implies s[from + i] == head[i] by {
        assert(t[i] == s[from + i]);
        assert(t[i] == (head + code)[i]);
    }
    assert(s.subrange(a, a + 3) =~= "```"@) by {
        assert forall|i: int| 0 <= i < 3 implies s[a + i] == "```"@[i] by {
            assert(s[from + (before.len() + i)] == head[before.len() + i]);
        }
    }
    assert(occurs_at(s, "```"@, a));
    assert(s.subrange(a + 3, b) =~= language) by {
        assert forall|i: int| 0 <= i < language.len() implies s[a + 3 + i] == language[i] by {
            assert(s[from + (before.len() + 3 + i)] == head[before.len() + 3 + i]);
        }
    }
    assert(s[b] == '\n') by {
        let k = before.len() + 3 + language.len();
        assert(s[from + k] == head[k as int]);
    }
    assert forall|i: int| a + 3 <= i < b implies !is_white_space(#[trigger] s[i]) && s[i] != '`' by {
        assert(s.subrange(a + 3, b)[i - a - 3] == s[i]);
        assert(!is_white_space(language[i - a - 3]));
    }
    lemma_name_ends(s, a + 3, b);
    assert(opens_at(s, a));
    lemma_opens(s, from, a);
    assert(s.subrange(b + 1, n) =~= code) by {
        assert forall|i: int| 0 <= i < code.len() implies s[b + 1 + i] == code[i] by {
            let k = head.len() + i;
            assert(t[k] == s[from + k]);
            assert(t[k] == (head + code)[k]);
        }
    }
    lemma_closes(s, b + 1, n);
    let block = block_from(s, from);
    assert(block.start == a && block.code_start == b + 1 && block.code_end == n && block.end == n);
    assert(s.subrange(from, a) =~= before) by {
        assert forall|i: int| 0 <= i < before.len() implies s[from + i] == before[i] by {
            assert(s[from + i] == head[i]);
        }
    }
    lemma_block(s, from);
    assert(text_without_code(s, n, count + 1) =~= Seq::empty());
    assert(text_without_code(s, n, count) =~= Seq::empty());
    assert(code_files(s, n, count + 1) =~= Seq::empty());
    assert(code_files(s, n, count) =~= Seq::empty());
    if code.len() >= 1000 {
        assert(text_without_code(s, from, count) =~= before + file_note(
            file_name(count + 1, language),
        ));
        assert(code_files(s, from, count) =~= seq![(file_name(count + 1, language), code)]);
    } else {
        assert(s.subrange(from, n) =~= s.skip(from));
        assert(text_without_code(s, from, count) =~= s.skip(from));
    }
}

} // verus!
