//! The append-only log of raw user messages, one JSON object per line, one file
//! per user.
use crate::bridge::{
    is_rfc3339, json_member, json_object, now_rfc3339, plain_name, read_json_member, write_json,
};
use crate::environment::setting_texts;
use crate::text::{
    decimal, first_index, lemma_decimal, lemma_first_index, lines_of, opt_text, to_decimal,
};
use vstd::prelude::*;

verus! {

/// Handle to the per-user message logs in a directory.
pub struct MessageLog {
    pub dir: String,
}

/// The path of a file in a directory.
pub open spec fn path_in(dir: Seq<char>, file: Seq<char>) -> Seq<char> {
    if dir.len() == 0 || dir.last() == '/' {
        dir + file
    } else {
        dir + "/"@ + file
    }
}

/// The path of a user's log.
pub open spec fn log_path(dir: Seq<char>, user_id: u64) -> Seq<char> {
    path_in(dir, decimal(user_id as nat) + ".jsonl"@)
}

/// What is written at the end of a file.
#[derive(Debug, PartialEq, Eq)]
pub struct LogWrite {
    pub path: String,
    pub line: String,
}

/// Why a file was not removed.
#[derive(Debug, PartialEq, Eq)]
pub enum RemoveError {
    NotFound,
    Other(String),
}

/// What a line of the log holds.
#[derive(Debug, PartialEq, Eq)]
pub struct LogEntry {
    pub timestamp: String,
    pub message: String,
}

/// The members of a line's object.
pub open spec fn entry_members(timestamp: Seq<char>, message: Seq<char>) -> Seq<
    (Seq<char>, Seq<char>),
> {
    seq![("timestamp"@, timestamp), ("message"@, message)]
}

/// The line for a message.
pub open spec fn log_line(timestamp: Seq<char>, message: Seq<char>) -> Seq<char> {
    json_object(entry_members(timestamp, message)).push('\n')
}

/// Is `line` one line, ended by a line feed?
pub open spec fn is_one_line(line: Seq<char>) -> bool {
    line.len() > 0 && line.last() == '\n' && forall|i: int|
        0 <= i < line.len() - 1 ==> ' ' <= #[trigger] line[i]
}

/// What is read from a line.
pub open spec fn read_back(line: Seq<char>) -> Option<(Seq<char>, Seq<char>)> {
    match (json_member(line, "timestamp"@), json_member(line, "message"@)) {
        (Some(timestamp), Some(message)) => Some((timestamp, message)),
        _ => None,
    }
}

/// Does a line hold nothing besides a timestamp and a message?
pub open spec fn holds_no_more(line: Seq<char>) -> bool {
    forall|name: Seq<char>|
        name != "timestamp"@ && name != "message"@ ==> #[trigger] json_member(line, name) is None
}

/// Is `line` the line for a message received now: one line, with an RFC 3339
/// timestamp and the message, both of which are read back from it, and no more?
pub open spec fn line_of_now(line: Seq<char>, message: Seq<char>) -> bool {
    is_one_line(line) && holds_no_more(line.drop_last()) && (match read_back(line.drop_last()) {
        Some((timestamp, read)) => is_rfc3339(timestamp) && read == message && line == log_line(
            timestamp,
            message,
        ),
        None => false,
    })
}

impl MessageLog {
    /// The logs in `dir`.
    pub fn new(dir: String) -> (r: Self)
        ensures
            r.dir@ == dir@,
    {
        MessageLog { dir }
    }

    /// The path of a user's log.
    pub fn path(&self, user_id: u64) -> (r: String)
        ensures
            r@ == log_path(self.dir@, user_id),
    {
        let file = to_decimal(user_id).concat(".jsonl");
        let n: usize = self.dir.as_str().unicode_len();
        if n == 0 || self.dir.as_str().get_char(n - 1) == '/' {
            self.dir.clone().concat(file.as_str())
        } else {
            self.dir.clone().concat("/").concat(file.as_str())
        }
    }

    /// The line for a message received at `timestamp`: one line, and reading it
    /// gives back the timestamp and the message, and no more.
    pub fn line(timestamp: &str, message: &str) -> (r: String)
        ensures
            r@ == log_line(timestamp@, message@),
            is_one_line(r@),
            read_back(r@.drop_last()) == Some((timestamp@, message@)),
            holds_no_more(r@.drop_last()),
    {
        let mut members: Vec<(String, String)> = Vec::new();
        members.push(("timestamp".to_owned(), timestamp.to_owned()));
        members.push(("message".to_owned(), message.to_owned()));
        proof {
            assert(setting_texts(members@) =~= entry_members(timestamp@, message@));
            reveal_strlit("timestamp");
            reveal_strlit("message");
            assert("timestamp"@.len() != "message"@.len());
            assert(members@[0].0@ == "timestamp"@);
            assert(members@[1].0@ == "message"@);
            assert("timestamp"@[0] == 't' && "message"@[0] == 'm');
            assert forall|j: int| 0 <= j < members@.len() implies plain_name(
                (#[trigger] members@[j]).0@,
            ) by {}
        }
        let mut line = match write_json(&members) {
            Some(json) => json,
            None => "{}".to_owned(),
        };
        let ghost json = line@;
        line.push('\n');
        proof {
            assert(line@.drop_last() =~= json);
            assert forall|name: Seq<char>|
                name != "timestamp"@ && name != "message"@ implies #[trigger] json_member(
                json,
                name,
            ) is None by {
                assert forall|j: int| 0 <= j < members@.len() implies plain_name(
                    (#[trigger] members@[j]).0@,
                ) && members@[j].0@ != name by {}
            }
        }
        line
    }

    /// The line for a message received now.
    pub fn line_now(message: &str) -> (r: String)
        ensures
            line_of_now(r@, message@),
    {
        let timestamp = now_rfc3339();
        MessageLog::line(timestamp.as_str(), message)
    }

    /// What is written, and where, when a message of a user is logged at
    /// `timestamp`.
    pub fn append_at(&self, user_id: u64, timestamp: &str, message: &str) -> (r: LogWrite)
        ensures
            r.path@ == log_path(self.dir@, user_id),
            r.line@ == log_line(timestamp@, message@),
            is_one_line(r.line@),
            read_back(r.line@.drop_last()) == Some((timestamp@, message@)),
            holds_no_more(r.line@.drop_last()),
    {
        LogWrite { path: self.path(user_id), line: MessageLog::line(timestamp, message) }
    }

    /// What is written, and where, when a message of a user is logged now.
    pub fn append(&self, user_id: u64, message: &str) -> (r: LogWrite)
        ensures
            r.path@ == log_path(self.dir@, user_id),
            line_of_now(r.line@, message@),
    {
        let timestamp = now_rfc3339();
        self.append_at(user_id, timestamp.as_str(), message)
    }

    /// What is left to do once a message was written or not: nothing, or a
    /// warning. Whoever logged the message learns of no error.
    pub fn append_outcome(written: Result<(), String>) -> (r: Option<String>)
        ensures
            opt_text(r) == (match written {
                Ok(_) => None,
                Err(error) => Some("Failed to append message: "@ + error@),
            }),
    {
        match written {
            Ok(_) => None,
            Err(error) => Some("Failed to append message: ".to_owned().concat(error.as_str())),
        }
    }

    /// What clearing a log comes to, given how removing its file went: a file that
    /// is not there counts as removed.
    pub fn clear_outcome(removed: Result<(), RemoveError>) -> (r: Result<(), String>)
        ensures
            match removed {
                Err(RemoveError::Other(error)) => r == Err::<(), String>(error),
                _ => r is Ok,
            },
    {
        match removed {
            Err(RemoveError::Other(error)) => Err(error),
            _ => Ok(()),
        }
    }

    /// What a line of the log, without its line feed, holds.
    pub fn read(line: &str) -> (r: Option<LogEntry>)
        ensures
            match r {
                Some(entry) => read_back(line@) == Some((entry.timestamp@, entry.message@)),
                None => read_back(line@) is None,
            },
    {
        match read_json_member(line, "timestamp") {
            Some(timestamp) => match read_json_member(line, "message") {
                Some(message) => Some(LogEntry { timestamp, message }),
                None => None,
            },
            None => None,
        }
    }
}

/// Appending a line keeps the lines before it and adds one.
pub proof fn law_append_keeps_the_log(log: Seq<char>, line: Seq<char>)
    requires
        log.len() == 0 || log.last() == '\n',
        is_one_line(line),
    ensures
        lines_of(log + line) == lines_of(log).push(line.drop_last()),
        (log + line).last() == '\n',
    decreases log.len(),
{
    let all = log + line;
    if log.len() == 0 {
        assert(all =~= line);
        lemma_first_index(line, '\n');
        let k = first_index(line, '\n');
        assert(k == line.len() - 1) by {
            if k < line.len() - 1 {
                assert(line[k] >= ' ');
            }
        }
        assert(line.skip(k + 1) =~= Seq::empty());
        assert(line.take(k) =~= line.drop_last());
        assert(lines_of(line.skip(k + 1)) =~= Seq::empty());
        if k > 0 {
            assert(line[k - 1] >= ' ');
        }
        assert(lines_of(line) =~= seq![line.drop_last()]);
        assert(lines_of(log).push(line.drop_last()) =~= seq![line.drop_last()]);
    } else {
        lemma_first_index(log, '\n');
        lemma_first_index(all, '\n');
        let k = first_index(log, '\n');
        assert(k < log.len()) by {
            if k == log.len() {
                assert(log[log.len() - 1] != '\n');
            }
        }
        assert(first_index(all, '\n') == k) by {
            let j = first_index(all, '\n');
            if j < k {
                assert(log[j] == all[j]);
            }
            if k < j {
                assert(all[k] == log[k]);
            }
        }
        let rest = log.skip(k + 1);
        assert(all.skip(k + 1) =~= rest + line);
        assert(all.take(k) =~= log.take(k));
        law_append_keeps_the_log(rest, line);
        assert(lines_of(all) =~= lines_of(log).push(line.drop_last()));
    }
}

/// A log after lines were appended to an empty one.
pub open spec fn appended(lines: Seq<Seq<char>>) -> Seq<char>
    decreases lines.len(),
{
    if lines.len() == 0 {
        Seq::empty()
    } else {
        appended(lines.drop_last()) + lines.last()
    }
}

/// A log holds exactly the lines that were appended, in order.
pub proof fn law_log_holds_what_was_appended(lines: Seq<Seq<char>>)
    requires
        forall|i: int| 0 <= i < lines.len() ==> is_one_line(#[trigger] lines[i]),
    ensures
        lines_of(appended(lines)) == lines.map_values(|line: Seq<char>| line.drop_last()),
        appended(lines).len() == 0 || appended(lines).last() == '\n',
    decreases lines.len(),
{
    let cut = |line: Seq<char>| line.drop_last();
    if lines.len() == 0 {
        assert(lines_of(appended(lines)) =~= lines.map_values(cut));
    } else {
        let before = lines.drop_last();
        assert forall|i: int| 0 <= i < before.len() implies is_one_line(#[trigger] before[i]) by {
            assert(before[i] == lines[i]);
        }
        law_log_holds_what_was_appended(before);
        assert(is_one_line(lines[lines.len() - 1]));
        law_append_keeps_the_log(appended(before), lines.last());
        assert(lines.map_values(cut) =~= before.map_values(cut).push(cut(lines.last())));
    }
}

/// The messages that were appended are read back, as many and in the order in
/// which they came.
pub proof fn law_appended_messages_are_read_in_order(
    lines: Seq<Seq<char>>,
    entries: Seq<(Seq<char>, Seq<char>)>,
    i: int,
)
    requires
        lines.len() == entries.len(),
        forall|k: int| 0 <= k < lines.len() ==> is_one_line(#[trigger] lines[k]),
        forall|k: int|
            0 <= k < lines.len() ==> read_back((#[trigger] lines[k]).drop_last()) == Some(
                entries[k],
            ),
        0 <= i < lines.len(),
    ensures
        lines_of(appended(lines)).len() == entries.len(),
        read_back(lines_of(appended(lines))[i]) == Some(entries[i]),
{
    law_log_holds_what_was_appended(lines);
    assert(lines_of(appended(lines))[i] == lines[i].drop_last());
}

/// What a file holds; nothing where it is not there.
pub open spec fn content(files: Map<Seq<char>, Seq<char>>, path: Seq<char>) -> Seq<char> {
    if files.contains_key(path) {
        files[path]
    } else {
        Seq::empty()
    }
}

/// The files after a line was written at the end of one of them.
pub open spec fn written(
    files: Map<Seq<char>, Seq<char>>,
    path: Seq<char>,
    line: Seq<char>,
) -> Map<Seq<char>, Seq<char>> {
    files.insert(path, content(files, path) + line)
}

/// Logging a message adds its line to the user's log and leaves every other
/// user's log as it was.
pub proof fn law_append_touches_one_log(
    dir: Seq<char>,
    files: Map<Seq<char>, Seq<char>>,
    user_id: u64,
    other: u64,
    line: Seq<char>,
)
    requires
        user_id != other,
    ensures
        content(written(files, log_path(dir, user_id), line), log_path(dir, user_id)) == content(
            files,
            log_path(dir, user_id),
        ) + line,
        content(written(files, log_path(dir, user_id), line), log_path(dir, other)) == content(
            files,
            log_path(dir, other),
        ),
{
    law_users_have_their_own_logs(dir, user_id, other);
}

/// No two users share a log.
pub proof fn law_users_have_their_own_logs(dir: Seq<char>, a: u64, b: u64)
    requires
        a != b,
    ensures
        log_path(dir, a) != log_path(dir, b),
{
    lemma_decimal(a as nat);
    lemma_decimal(b as nat);
    let end = ".jsonl"@;
    let start = if dir.len() == 0 || dir.last() == '/' {
        dir
    } else {
        dir + "/"@
    };
    let x = decimal(a as nat);
    let y = decimal(b as nat);
    if log_path(dir, a) == log_path(dir, b) {
        assert(start + (x + end) == start + (y + end));
        assert((start + (x + end)).skip(start.len() as int) =~= x + end);
        assert((start + (y + end)).skip(start.len() as int) =~= y + end);
        assert((x + end).len() == (y + end).len());
        assert((x + end).take(x.len() as int) =~= x);
        assert((y + end).take(y.len() as int) =~= y);
    }
}

/// A user's log lies in the directory of logs, under the user's number.
pub proof fn law_logs_are_named_by_their_user(dir: Seq<char>, user_id: u64)
    ensures
        dir.len() > 0 && dir.last() != '/' ==> log_path(dir, user_id) == dir + "/"@ + (decimal(
            user_id as nat,
        ) + ".jsonl"@),
        dir.len() == 0 || dir.last() == '/' ==> log_path(dir, user_id) == dir + (decimal(
            user_id as nat,
        ) + ".jsonl"@),
{
}

/// A line is read as what its two members hold, and not at all where one is missing.
pub proof fn law_lines_are_read_by_their_members(line: Seq<char>)
    ensures
        read_back(line) is Some <==> json_member(line, "timestamp"@) is Some && json_member(
            line,
            "message"@,
        ) is Some,
        read_back(line) matches Some(entry) ==> json_member(line, "timestamp"@) == Some(entry.0)
            && json_member(line, "message"@) == Some(entry.1),
{
}

} // verus!
