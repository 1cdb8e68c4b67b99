//! Commits as Discord text: summaries and changelogs of a deployment.
use crate::text::{
    byte_len, byte_prefix, byte_size, decimal, first_line, first_line_of, get_bytes, has_text,
    joined, law_joined_texts_hold_each_part, law_lines_are_told_apart, law_parts_are_found,
    law_parts_of_parts_are_found, lemma_ascii_byte_prefix, lemma_ascii_byte_size, lemma_byte_prefix,
    lemma_byte_size_add, lemma_char_size, lemma_decimal, lemma_len_within_byte_size,
    lemma_u64_decimal_len, lines_of, same_text, to_decimal,
};
use vstd::prelude::*;

verus! {

/// What a commit says of itself.
#[derive(Clone, Debug, PartialEq, Eq)]
pub struct GitHubCommitDetails {
    pub message: String,
}

/// A commit as the repository's host describes it.
#[derive(Clone, Debug, PartialEq, Eq)]
pub struct GitHubCommit {
    pub sha: String,
    pub html_url: String,
    pub commit: GitHubCommitDetails,
}

/// How many bytes a changelog may take before it is cut short.
pub const CHANGELOG_BYTES: usize = 1800;

/// How many other commits a summary lists.
pub const RECENT_COMMITS: usize = 3;

/// The first seven bytes of a hash; all of it where it cannot be cut there.
pub open spec fn short(sha: Seq<char>) -> Seq<char> {
    match byte_prefix(sha, 7) {
        Some(start) => start,
        None => sha,
    }
}

/// The first seven bytes of a hash; all of it where it cannot be cut there.
pub fn short_sha(sha: &str) -> (r: &str)
    ensures
        r@ == short(sha@),
{
    match get_bytes(sha, 7) {
        Some(start) => start,
        None => sha,
    }
}

/// The first line of a commit's message.
pub open spec fn headline(commit: GitHubCommit) -> Seq<char> {
    match first_line_of(commit.commit.message@) {
        Some(line) => line,
        None => "No commit message"@,
    }
}

/// The first line of a commit's message.
pub fn commit_headline(commit: &GitHubCommit) -> (r: String)
    ensures
        r@ == headline(*commit),
{
    match first_line(commit.commit.message.as_str()) {
        Some(line) => line,
        None => "No commit message".to_owned(),
    }
}

/// A commit as a link: short hash, address, headline.
pub open spec fn commit_link(commit: GitHubCommit) -> Seq<char> {
    "[`"@ + short(commit.sha@) + "`]("@ + commit.html_url@ + ") — "@ + headline(commit)
}

/// A commit as a link: short hash, address, headline.
fn link_commit(commit: &GitHubCommit) -> (r: String)
    ensures
        r@ == commit_link(*commit),
{
    let line = commit_headline(commit);
    "[`".to_owned().concat(short_sha(commit.sha.as_str())).concat("`](").concat(
        commit.html_url.as_str(),
    ).concat(") — ").concat(line.as_str())
}

/// A commit as an entry of a list.
pub open spec fn commit_entry(commit: GitHubCommit) -> Seq<char> {
    "\n• "@ + commit_link(commit)
}

/// The entries of the first `room` commits whose hash is not `sha`.
pub open spec fn other_entries(commits: Seq<GitHubCommit>, sha: Seq<char>, room: nat) -> Seq<char>
    decreases commits.len(),
{
    if commits.len() == 0 || room == 0 {
        Seq::empty()
    } else if commits[0].sha@ == sha {
        other_entries(commits.drop_first(), sha, room)
    } else {
        commit_entry(commits[0]) + other_entries(commits.drop_first(), sha, (room - 1) as nat)
    }
}

/// What a summary of a commit says: the commit, then up to three others.
pub open spec fn summary_text(selected: GitHubCommit, recent: Seq<GitHubCommit>) -> Seq<char> {
    "Deploying "@ + commit_link(selected) + "\n\n**Recent commits:**"@ + other_entries(
        recent,
        selected.sha@,
        RECENT_COMMITS as nat,
    )
}

/// A summary of a commit: the commit, then up to three others.
pub fn commit_summary(selected: &GitHubCommit, recent: &[GitHubCommit]) -> (r: String)
    ensures
        r@ == summary_text(*selected, recent@),
{
    let link = link_commit(selected);
    let mut text = "Deploying ".to_owned().concat(link.as_str()).concat(
        "\n\n**Recent commits:**",
    );
    let ghost sha = selected.sha@;
    let ghost head = text@;
    let mut room: usize = RECENT_COMMITS;
    let mut i: usize = 0;
    proof {
        assert(recent@.skip(0) =~= recent@);
    }
    while i < recent.len() && room > 0
        invariant
            i <= recent@.len(),
            sha == selected.sha@,
            head + other_entries(recent@, sha, RECENT_COMMITS as nat) == text@ + other_entries(
                recent@.skip(i as int),
                sha,
                room as nat,
            ),
        decreases recent.len() - i,
    {
        let commit = &recent[i];
        let ghost rest = recent@.skip(i as int);
        let ghost before = text@;
        proof {
            assert(rest.drop_first() =~= recent@.skip(i + 1));
        }
        if !same_text(commit.sha.as_str(), selected.sha.as_str()) {
            let line = link_commit(commit);
            text = text.concat("\n• ").concat(line.as_str());
            room -= 1;
            proof {
                let tail = other_entries(recent@.skip(i + 1), sha, room as nat);
                assert(before + (commit_entry(*commit) + tail) =~= text@ + tail);
            }
        }
        i += 1;
    }
    proof {
        assert(other_entries(recent@.skip(i as int), sha, room as nat) =~= Seq::empty());
        assert(text@ + Seq::empty() =~= text@);
    }
    text
}

/// `text` followed by the entries of `commits`, cut short with a note of how
/// many are left out once a further entry would take it past the limit.
pub open spec fn listing(text: Seq<char>, commits: Seq<GitHubCommit>) -> Seq<char>
    decreases commits.len(),
{
    if commits.len() == 0 {
        text
    } else if byte_size(text) + byte_size(commit_entry(commits[0])) > CHANGELOG_BYTES {
        text + "\n• …and "@ + decimal(commits.len()) + " more commit(s)"@
    } else {
        listing(text + commit_entry(commits[0]), commits.drop_first())
    }
}

/// The first line of a changelog of `count` commits.
pub open spec fn changelog_head(current_sha: Seq<char>, count: nat) -> Seq<char> {
    "**Changelog since `"@ + short(current_sha) + "`** ("@ + decimal(count) + " commit"@ + (if count
        == 1 {
        ""@
    } else {
        "s"@
    }) + ")"@
}

/// What a changelog between two deployments says.
pub open spec fn changelog_text(
    current_sha: Seq<char>,
    target_sha: Seq<char>,
    commits: Seq<GitHubCommit>,
) -> Seq<char> {
    if commits.len() == 0 {
        "**Changelog**\n`"@ + short(current_sha) + "` → `"@ + short(target_sha)
            + "`\nNo commits found between these deployments."@
    } else {
        listing(changelog_head(current_sha, commits.len()), commits)
    }
}

/// The changelog between two deployments.
pub fn deployment_changelog(
    current_sha: &str,
    target_sha: &str,
    commits: &[GitHubCommit],
) -> (r: String)
    ensures
        r@ == changelog_text(current_sha@, target_sha@, commits@),
{
    if commits.len() == 0 {
        return "**Changelog**\n`".to_owned().concat(short_sha(current_sha)).concat(
            "` → `",
        ).concat(short_sha(target_sha)).concat(
            "`\nNo commits found between these deployments.",
        );
    }
    let total = to_decimal(commits.len() as u64);
    let plural: &str = if commits.len() == 1 {
        ""
    } else {
        "s"
    };
    let mut text = "**Changelog since `".to_owned().concat(short_sha(current_sha)).concat(
        "`** (",
    ).concat(total.as_str()).concat(" commit").concat(plural).concat(")");
    let mut shown: usize = 0;
    proof {
        assert(commits@.skip(0) =~= commits@);
    }
    while shown < commits.len()
        invariant
            shown <= commits@.len(),
            changelog_text(current_sha@, target_sha@, commits@) == listing(
                text@,
                commits@.skip(shown as int),
            ),
        decreases commits.len() - shown,
    {
        let link = link_commit(&commits[shown]);
        let line = "\n• ".to_owned().concat(link.as_str());
        let ghost rest = commits@.skip(shown as int);
        proof {
            assert(rest.drop_first() =~= commits@.skip(shown + 1));
        }
        let used: usize = byte_len(text.as_str());
        let wanted: usize = byte_len(line.as_str());
        if used > CHANGELOG_BYTES || wanted > CHANGELOG_BYTES - used {
            let left = to_decimal((commits.len() - shown) as u64);
            return text.concat("\n• …and ").concat(left.as_str()).concat(" more commit(s)");
        }
        text = text.concat(line.as_str());
        shown += 1;
    }
    text
}

/// Is a text made of ASCII characters?
pub open spec fn is_ascii_text(s: Seq<char>) -> bool {
    forall|i: int| 0 <= i < s.len() ==> '\0' <= #[trigger] s[i] <= '\u{7f}'
}

/// A short hash takes at most seven bytes.
proof fn lemma_short_size(sha: Seq<char>)
    requires
        is_ascii_text(sha),
    ensures
        byte_size(short(sha)) <= 7,
{
    lemma_ascii_byte_size(sha);
    if sha.len() >= 7 {
        lemma_ascii_byte_prefix(sha, 7);
    }
    if byte_prefix(sha, 7) is Some {
        lemma_byte_prefix(sha, 7);
    }
}

/// How many bytes the note on left out commits takes.
proof fn lemma_note_size(text: Seq<char>, left: nat)
    requires
        left <= u64::MAX,
    ensures
        byte_size(text + "\n• …and "@ + decimal(left) + " more commit(s)"@) <= byte_size(text) + 47,
{
    let note = "\n• …and "@;
    let more = " more commit(s)"@;
    reveal_strlit("\n• …and ");
    reveal_strlit(" more commit(s)");
    let word = seq!['a', 'n', 'd', ' '];
    assert(note =~= seq!['\n'] + seq!['•'] + seq![' '] + seq!['…'] + word);
    lemma_char_size('\n');
    lemma_char_size('•');
    lemma_char_size(' ');
    lemma_char_size('…');
    lemma_ascii_byte_size(word);
    lemma_byte_size_add(seq!['\n'], seq!['•']);
    lemma_byte_size_add(seq!['\n'] + seq!['•'], seq![' ']);
    lemma_byte_size_add(seq!['\n'] + seq!['•'] + seq![' '], seq!['…']);
    lemma_byte_size_add(seq!['\n'] + seq!['•'] + seq![' '] + seq!['…'], word);
    assert(byte_size(note) == 12);
    lemma_ascii_byte_size(more);
    lemma_u64_decimal_len(left);
    lemma_decimal(left);
    lemma_ascii_byte_size(decimal(left));
    lemma_byte_size_add(text, note);
    lemma_byte_size_add(text + note, decimal(left));
    lemma_byte_size_add(text + note + decimal(left), more);
}

/// How many bytes a listing takes.
proof fn lemma_listing_size(text: Seq<char>, commits: Seq<GitHubCommit>)
    requires
        byte_size(text) <= CHANGELOG_BYTES,
        commits.len() <= u64::MAX,
    ensures
        byte_size(listing(text, commits)) <= CHANGELOG_BYTES + 47,
    decreases commits.len(),
{
    if commits.len() > 0 {
        lemma_byte_size_add(text, commit_entry(commits[0]));
        if byte_size(text) + byte_size(commit_entry(commits[0])) > CHANGELOG_BYTES {
            lemma_note_size(text, commits.len());
        } else {
            lemma_listing_size(text + commit_entry(commits[0]), commits.drop_first());
        }
    }
}

/// How many bytes the changelog without commits takes.
proof fn lemma_empty_changelog_size(current: Seq<char>, target: Seq<char>)
    requires
        byte_size(current) <= 7,
        byte_size(target) <= 7,
    ensures
        byte_size(
            "**Changelog**\n`"@ + current + "` → `"@ + target
                + "`\nNo commits found between these deployments."@,
        ) <= 100,
{
    let a = "**Changelog**\n`"@;
    let b = "` → `"@;
    let c = "`\nNo commits found between these deployments."@;
    reveal_strlit("**Changelog**\n`");
    reveal_strlit("` → `");
    reveal_strlit("`\nNo commits found between these deployments.");
    let tick = seq!['`', ' '];
    let end = seq![' ', '`'];
    assert(b =~= tick + seq!['→'] + end);
    lemma_ascii_byte_size(tick);
    lemma_ascii_byte_size(end);
    lemma_char_size('→');
    lemma_byte_size_add(tick, seq!['→']);
    lemma_byte_size_add(tick + seq!['→'], end);
    lemma_ascii_byte_size(a);
    lemma_ascii_byte_size(c);
    lemma_byte_size_add(a, current);
    lemma_byte_size_add(a + current, b);
    lemma_byte_size_add(a + current + b, target);
    lemma_byte_size_add(a + current + b + target, c);
}

/// Whatever the commits say, a changelog between two hashes of ASCII characters
/// takes at most 1850 bytes, and so fits in one Discord message of 2000
/// characters.
pub proof fn law_changelog_fits_a_message(
    current_sha: Seq<char>,
    target_sha: Seq<char>,
    commits: Seq<GitHubCommit>,
)
    requires
        is_ascii_text(current_sha),
        is_ascii_text(target_sha),
        commits.len() <= u64::MAX,
    ensures
        byte_size(changelog_text(current_sha, target_sha, commits)) <= 1850,
        changelog_text(current_sha, target_sha, commits).len() <= 1850,
{
    lemma_short_size(current_sha);
    lemma_short_size(target_sha);
    lemma_len_within_byte_size(changelog_text(current_sha, target_sha, commits));
    if commits.len() == 0 {
        lemma_empty_changelog_size(short(current_sha), short(target_sha));
    } else {
        let count = commits.len();
        let a = "**Changelog since `"@;
        let b = "`** ("@;
        let c = " commit"@;
        let plural = if count == 1 {
            ""@
        } else {
            "s"@
        };
        let e = ")"@;
        reveal_strlit("**Changelog since `");
        reveal_strlit("`** (");
        reveal_strlit(" commit");
        reveal_strlit("");
        reveal_strlit("s");
        reveal_strlit(")");
        lemma_ascii_byte_size(a);
        lemma_ascii_byte_size(b);
        lemma_ascii_byte_size(c);
        lemma_ascii_byte_size(plural);
        lemma_ascii_byte_size(e);
        lemma_u64_decimal_len(count);
        lemma_decimal(count);
        lemma_ascii_byte_size(decimal(count));
        let s = short(current_sha);
        lemma_byte_size_add(a, s);
        lemma_byte_size_add(a + s, b);
        lemma_byte_size_add(a + s + b, decimal(count));
        lemma_byte_size_add(a + s + b + decimal(count), c);
        lemma_byte_size_add(a + s + b + decimal(count) + c, plural);
        lemma_byte_size_add(a + s + b + decimal(count) + c + plural, e);
        lemma_listing_size(changelog_head(current_sha, count), commits);
    }
}

// ------------------------------------------------- what a list of commits says

/// A short hash is the beginning of the hash: of one of ASCII characters the first
/// seven, and all of a shorter one.
pub proof fn law_short_hash_is_the_beginning(sha: Seq<char>)
    requires
        is_ascii_text(sha),
    ensures
        sha.len() >= 7 ==> short(sha) == sha.take(7),
        sha.len() < 7 ==> short(sha) == sha,
{
    lemma_ascii_byte_size(sha);
    if sha.len() >= 7 {
        lemma_ascii_byte_prefix(sha, 7);
    }
    if byte_prefix(sha, 7) is Some {
        lemma_byte_prefix(sha, 7);
        let start = short(sha);
        assert(is_ascii_text(start)) by {
            assert forall|i: int| 0 <= i < start.len() implies '\0' <= #[trigger] start[i]
                <= '\u{7f}' by {
                assert(start[i] == sha[i]);
            }
        }
        lemma_ascii_byte_size(start);
    }
}

/// A commit is shown by the first line of its message, whatever follows that, and
/// one without a message says so.
pub proof fn law_headline_is_the_first_line(
    commit: GitHubCommit,
    line: Seq<char>,
    rest: Seq<char>,
)
    requires
        !line.contains('\n'),
        line.len() == 0 || line.last() != '\r',
    ensures
        commit.commit.message@ == line + seq!['\n'] + rest ==> headline(commit) == line,
        commit.commit.message@ == line + seq!['\r', '\n'] + rest ==> headline(commit) == line,
        commit.commit.message@ == line && line.len() > 0 ==> headline(commit) == line,
        commit.commit.message@.len() == 0 ==> headline(commit) == "No commit message"@,
{
    law_lines_are_told_apart(line, rest);
    let tail = lines_of(rest);
    assert((seq![line] + tail)[0] == line);
}

/// An entry links the short hash to the commit's own address, and then shows its
/// headline; the link of a summary is the same.
pub proof fn law_entries_link_their_commit(commit: GitHubCommit)
    ensures
        commit_link(commit) == "[`"@ + short(commit.sha@) + "`]("@ + commit.html_url@ + ") — "@
            + headline(commit),
        commit_entry(commit) == "\n• "@ + commit_link(commit),
{
}

/// The entries of the first `k` commits, one behind the other.
pub open spec fn entries_of(commits: Seq<GitHubCommit>, k: int) -> Seq<char> {
    joined(Seq::new(k as nat, |i: int| commit_entry(commits[i])), Seq::empty())
}

/// The entries begin with that of the first commit.
proof fn lemma_entries_step(commits: Seq<GitHubCommit>, k: int)
    requires
        0 <= k < commits.len(),
    ensures
        entries_of(commits, k + 1) == commit_entry(commits[0]) + entries_of(
            commits.drop_first(),
            k,
        ),
{
    let all = Seq::new((k + 1) as nat, |i: int| commit_entry(commits[i]));
    let rest = Seq::new(k as nat, |i: int| commit_entry(commits.drop_first()[i]));
    assert(all.drop_first() =~= rest);
    assert(Seq::empty() + joined(rest, Seq::empty()) =~= joined(rest, Seq::empty()));
    if k == 0 {
        assert(rest =~= Seq::empty());
        assert(all[0] + joined(rest, Seq::empty()) =~= all[0]);
    }
}

/// How far a listing goes.
proof fn lemma_listing(text: Seq<char>, commits: Seq<GitHubCommit>) -> (k: int)
    ensures
        0 <= k <= commits.len(),
        k == commits.len() ==> listing(text, commits) == text + entries_of(commits, k),
        k < commits.len() ==> listing(text, commits) == text + entries_of(commits, k)
            + "\n• …and "@ + decimal((commits.len() - k) as nat) + " more commit(s)"@,
        k < commits.len() ==> byte_size(text + entries_of(commits, k + 1)) > 1800,
        k > 0 ==> byte_size(text + entries_of(commits, k)) <= 1800,
    decreases commits.len(),
{
    assert(entries_of(commits, 0) =~= Seq::empty());
    assert(text + Seq::<char>::empty() =~= text);
    if commits.len() == 0 {
        0
    } else {
        let first = commit_entry(commits[0]);
        let rest = commits.drop_first();
        lemma_byte_size_add(text, first);
        lemma_entries_step(commits, 0);
        assert(entries_of(rest, 0) =~= Seq::empty());
        assert(first + Seq::<char>::empty() =~= first);
        if byte_size(text) + byte_size(first) > CHANGELOG_BYTES {
            0
        } else {
            let k = lemma_listing(text + first, rest);
            lemma_entries_step(commits, k);
            assert(text + (first + entries_of(rest, k)) =~= text + first + entries_of(rest, k));
            if k < rest.len() {
                lemma_entries_step(commits, k + 1);
                assert(text + (first + entries_of(rest, k + 1)) =~= text + first + entries_of(
                    rest,
                    k + 1,
                ));
            }
            k + 1
        }
    }
}

/// A changelog is its first line, then the entries of the first commits, each once
/// and in order, and then, where commits are left out, how many: as many entries as
/// fit in 1800 bytes, and so all of them where all fit.
pub proof fn law_changelog_lists_commits_in_order(
    current_sha: Seq<char>,
    target_sha: Seq<char>,
    commits: Seq<GitHubCommit>,
) -> (k: int)
    requires
        commits.len() > 0,
    ensures
        0 <= k <= commits.len(),
        ({
            let entries = |n: int|
                joined(Seq::new(n as nat, |i: int| commit_entry(commits[i])), Seq::empty());
            let head = changelog_head(current_sha, commits.len());
            let text = changelog_text(current_sha, target_sha, commits);
            let all = commits.len() as int;
            &&& k == all ==> text == head + entries(k)
            &&& k < all ==> text == head + entries(k) + "\n• …and "@ + decimal((all - k) as nat)
                + " more commit(s)"@
            &&& k < all ==> byte_size(head + entries(k + 1)) > 1800
            &&& k > 0 ==> byte_size(head + entries(k)) <= 1800
            &&& byte_size(head + entries(all)) <= 1800 ==> k == all
        }),
        forall|i: int|
            0 <= i < k ==> has_text(
                changelog_text(current_sha, target_sha, commits),
                #[trigger] commit_entry(commits[i]),
            ),
{
    let head = changelog_head(current_sha, commits.len());
    let text = changelog_text(current_sha, target_sha, commits);
    let k = lemma_listing(head, commits);
    let all = commits.len() as int;
    if k < all {
        lemma_entries_grow(commits, k + 1, all);
        lemma_byte_size_add(head, entries_of(commits, k + 1));
        lemma_byte_size_add(head, entries_of(commits, all));
    }
    let parts = Seq::new(k as nat, |i: int| commit_entry(commits[i]));
    let shown = entries_of(commits, k);
    let note = if k < all {
        "\n• …and "@ + decimal((all - k) as nat) + " more commit(s)"@
    } else {
        Seq::empty()
    };
    assert(text =~= head + shown + note);
    assert forall|i: int| 0 <= i < k implies has_text(text, #[trigger] commit_entry(commits[i])) by {
        law_joined_texts_hold_each_part(parts, Seq::empty(), i);
        law_parts_are_found(head, shown, note);
        law_parts_of_parts_are_found(text, shown, parts[i]);
    }
    k
}

/// More entries take no fewer bytes.
proof fn lemma_entries_grow(commits: Seq<GitHubCommit>, k: int, n: int)
    requires
        0 <= k <= n <= commits.len(),
    ensures
        byte_size(entries_of(commits, k)) <= byte_size(entries_of(commits, n)),
    decreases n,
{
    if k > 0 {
        let rest = commits.drop_first();
        lemma_entries_step(commits, k - 1);
        lemma_entries_step(commits, n - 1);
        lemma_entries_grow(rest, k - 1, n - 1);
        lemma_byte_size_add(commit_entry(commits[0]), entries_of(rest, k - 1));
        lemma_byte_size_add(commit_entry(commits[0]), entries_of(rest, n - 1));
    } else {
        assert(entries_of(commits, 0) =~= Seq::empty());
        assert(byte_size(Seq::empty()) == 0) by {
            lemma_ascii_byte_size(Seq::empty());
        }
    }
}

/// The first line of a changelog tells the hash that it starts from and how many
/// commits there are; a changelog without commits tells both hashes.
pub proof fn law_changelog_tells_its_range(
    current_sha: Seq<char>,
    target_sha: Seq<char>,
    commits: Seq<GitHubCommit>,
)
    ensures
        commits.len() == 1 ==> changelog_head(current_sha, 1) == "**Changelog since `"@ + short(
            current_sha,
        ) + "`** ("@ + decimal(1) + " commit)"@,
        commits.len() != 1 ==> changelog_head(current_sha, commits.len()) == "**Changelog since `"@
            + short(current_sha) + "`** ("@ + decimal(commits.len()) + " commits)"@,
        commits.len() == 0 ==> changelog_text(current_sha, target_sha, commits)
            == "**Changelog**\n`"@ + short(current_sha) + "` → `"@ + short(target_sha)
            + "`\nNo commits found between these deployments."@,
{
    reveal_strlit("");
    reveal_strlit("s");
    reveal_strlit(")");
    reveal_strlit(" commit");
    reveal_strlit(" commit)");
    reveal_strlit(" commits)");
    let start = "**Changelog since `"@ + short(current_sha) + "`** ("@;
    let one = start + decimal(1);
    assert(one + " commit"@ + ""@ + ")"@ =~= one + " commit)"@);
    let many = start + decimal(commits.len());
    assert(many + " commit"@ + "s"@ + ")"@ =~= many + " commits)"@);
}


/// The entries of the others are those of the first of them.
proof fn lemma_other_entries(commits: Seq<GitHubCommit>, sha: Seq<char>, room: nat)
    ensures
        ({
            let left = commits.filter(|c: GitHubCommit| c.sha@ != sha);
            let n = if left.len() < room { left.len() } else { room };
            other_entries(commits, sha, room) == entries_of(left, n as int)
        }),
    decreases commits.len(),
{
    let keep = |c: GitHubCommit| c.sha@ != sha;
    let left = commits.filter(keep);
    assert(entries_of(left, 0) =~= Seq::empty());
    if commits.len() > 0 {
        let rest = commits.drop_first();
        assert(commits =~= seq![commits[0]] + rest);
        Seq::filter_distributes_over_add(seq![commits[0]], rest, keep);
        reveal_with_fuel(Seq::filter, 2);
        let one = seq![commits[0]];
        assert(one.drop_last() =~= Seq::empty());
        assert(one.filter(keep) =~= (if keep(commits[0]) {
            seq![commits[0]]
        } else {
            Seq::empty()
        }));
        if room > 0 {
            if commits[0].sha@ == sha {
                assert(left =~= rest.filter(keep));
                lemma_other_entries(rest, sha, room);
            } else {
                assert(left =~= seq![commits[0]] + rest.filter(keep));
                assert(left.drop_first() =~= rest.filter(keep));
                lemma_other_entries(rest, sha, (room - 1) as nat);
                let n = if left.len() < room { left.len() } else { room };
                lemma_entries_step(left, n - 1);
            }
        }
    } else {
        reveal(Seq::filter);
        assert(left =~= Seq::empty());
    }
}

/// A summary names the commit that is deployed, and then the first three of the
/// others, in order: never the deployed one once more.
pub proof fn law_summary_lists_three_others(selected: GitHubCommit, recent: Seq<GitHubCommit>)
    ensures
        ({
            let sha = selected.sha@;
            let left = recent.filter(|c: GitHubCommit| c.sha@ != sha);
            let n: nat = if left.len() < 3 { left.len() } else { 3 };
            summary_text(selected, recent) == "Deploying "@ + commit_link(selected)
                + "\n\n**Recent commits:**"@ + joined(
                Seq::new(n, |i: int| commit_entry(left[i])),
                Seq::empty(),
            )
        }),
{
    lemma_other_entries(recent, selected.sha@, 3);
}

} // verus!
