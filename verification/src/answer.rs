//! The way from what the model said to what is sent.
use crate::formatting::{
    append_tool_summary, chunks_of, code_files, extract_code, file_note, file_texts,
    law_chunks_hold_nothing_new, law_naming_tools_adds_their_note_only,
    law_ordinary_secrets_are_clear_of_notes, law_ordinary_secrets_are_clear_of_the_tools,
    law_taking_out_code_adds_notes_only, law_text_without_fences_is_kept, text_without_code,
    tools_note, with_tools,
};
use crate::redaction::{
    distinct, law_ordinary_secrets_are_distinct, law_redacted_texts_hold_no_secret, ordinary,
    redacted, SecretRedactor,
};
use crate::text::{clear_of, clear_of_end, has_text, occurs_at, texts};
use vstd::prelude::*;

verus! {

/// An answer ready to be sent: its text, and files with the long code.
#[derive(Debug, PartialEq, Eq)]
pub struct PreparedAnswer {
    pub text: String,
    pub files: Vec<(String, String)>,
}

/// What is shown of what the model said, before code is taken out: secrets are
/// left out, and the tools are named.
pub open spec fn full_answer(
    said: Seq<char>,
    tools: Seq<Seq<char>>,
    secrets: Seq<Seq<char>>,
) -> Seq<char> {
    with_tools(redacted(said, secrets), tools)
}

/// The files that go with an answer.
pub open spec fn answer_files(
    said: Seq<char>,
    tools: Seq<Seq<char>>,
    secrets: Seq<Seq<char>>,
) -> Seq<(Seq<char>, Seq<char>)> {
    code_files(full_answer(said, tools, secrets), 0, 0).map_values(
        |f: (Seq<char>, Seq<char>)| (f.0, redacted(f.1, secrets)),
    )
}

/// The text that goes with an answer.
pub open spec fn answer_text(
    said: Seq<char>,
    tools: Seq<Seq<char>>,
    secrets: Seq<Seq<char>>,
) -> Seq<char> {
    text_without_code(full_answer(said, tools, secrets), 0, 0)
}

/// Files with secrets left out once more.
fn redact_files(files: &Vec<(String, String)>, redactor: &SecretRedactor) -> (r: Vec<
    (String, String),
>)
    requires
        redactor.well_formed(),
    ensures
        file_texts(r@) == file_texts(files@).map_values(
            |f: (Seq<char>, Seq<char>)| (f.0, redacted(f.1, redactor@)),
        ),
{
    let ghost safe = |f: (Seq<char>, Seq<char>)| (f.0, redacted(f.1, redactor@));
    let mut list: Vec<(String, String)> = Vec::new();
    let n: usize = files.len();
    let mut i: usize = 0;
    while i < n
        invariant
            n == files@.len(),
            i <= n,
            redactor.well_formed(),
            safe == (|f: (Seq<char>, Seq<char>)| (f.0, redacted(f.1, redactor@))),
            file_texts(list@) == file_texts(files@).take(i as int).map_values(safe),
        decreases n - i,
    {
        let ghost before = list@;
        let file = (files[i].0.as_str().to_owned(), redactor.redact(files[i].1.as_str()));
        list.push(file);
        i += 1;
        proof {
            assert(file_texts(list@) =~= file_texts(before).push((file.0@, file.1@)));
            assert(file_texts(files@).take(i as int).map_values(safe) =~= file_texts(files@).take(
                i - 1,
            ).map_values(safe).push((file.0@, file.1@)));
        }
    }
    proof {
        assert(file_texts(files@).take(n as int) =~= file_texts(files@));
    }
    list
}

/// What is sent of what the model said: secrets are left out, the tools are
/// named, and long code goes into files.
pub fn prepare_answer(said: &str, tools: &Vec<String>, redactor: &SecretRedactor) -> (r:
    PreparedAnswer)
    requires
        redactor.well_formed(),
    ensures
        r.text@ == answer_text(said@, texts(tools@), redactor@),
        file_texts(r.files@) == answer_files(said@, texts(tools@), redactor@),
{
    let safe = redactor.redact(said);
    let full = append_tool_summary(safe.as_str(), tools);
    let (text, code) = extract_code(full.as_str());
    let files = redact_files(&code, redactor);
    PreparedAnswer { text, files }
}

/// No file holds a secret that can be told from what is put in its place.
pub proof fn law_files_hold_no_secret(
    said: Seq<char>,
    tools: Seq<Seq<char>>,
    secrets: Seq<Seq<char>>,
    file: int,
    secret: int,
)
    requires
        0 <= secret < secrets.len(),
        distinct(secrets[secret]),
        0 <= file < answer_files(said, tools, secrets).len(),
    ensures
        !has_text(answer_files(said, tools, secrets)[file].1, secrets[secret]),
{
    let code = code_files(full_answer(said, tools, secrets), 0, 0)[file].1;
    law_redacted_texts_hold_no_secret(code, secrets, secret);
}

/// Can a secret be told from all that an answer has beside the model's words: what
/// is put in its place, the note on the tools, and the notes on the files?
pub open spec fn told_apart(
    said: Seq<char>,
    tools: Seq<Seq<char>>,
    secrets: Seq<Seq<char>>,
    secret: Seq<char>,
) -> bool {
    &&& distinct(secret)
    &&& clear_of_end(secret, tools_note(tools))
    &&& forall|i: int|
        0 <= i < answer_files(said, tools, secrets).len() ==> clear_of(
            secret,
            file_note((#[trigger] answer_files(said, tools, secrets)[i]).0),
        )
}

/// The text of an answer holds no secret that can be told from all that an answer
/// has beside the model's words, whatever the other secrets are.
pub proof fn law_answers_hold_no_secret(
    said: Seq<char>,
    tools: Seq<Seq<char>>,
    secrets: Seq<Seq<char>>,
    secret: int,
)
    requires
        0 <= secret < secrets.len(),
        told_apart(said, tools, secrets, secrets[secret]),
    ensures
        !has_text(answer_text(said, tools, secrets), secrets[secret]),
{
    let q = secrets[secret];
    let full = full_answer(said, tools, secrets);
    if has_text(answer_text(said, tools, secrets), q) {
        let files = code_files(full, 0, 0);
        assert forall|j: int| 0 <= j < files.len() implies clear_of(
            q,
            file_note((#[trigger] files[j]).0),
        ) by {
            assert(answer_files(said, tools, secrets)[j].0 == files[j].0);
        }
        law_taking_out_code_adds_notes_only(full, q);
        law_naming_tools_adds_their_note_only(redacted(said, secrets), tools, q);
        law_redacted_texts_hold_no_secret(said, secrets, secret);
    }
}

/// Nor does any of the chunks or pages that it is sent in.
pub proof fn law_sent_chunks_hold_no_secret(
    said: Seq<char>,
    tools: Seq<Seq<char>>,
    secrets: Seq<Seq<char>>,
    secret: int,
    limit: nat,
    chunk: int,
)
    requires
        0 <= secret < secrets.len(),
        told_apart(said, tools, secrets, secrets[secret]),
        0 <= chunk < chunks_of(answer_text(said, tools, secrets), limit).len(),
    ensures
        !has_text(chunks_of(answer_text(said, tools, secrets), limit)[chunk], secrets[secret]),
{
    law_answers_hold_no_secret(said, tools, secrets, secret);
    let text = answer_text(said, tools, secrets);
    if has_text(chunks_of(text, limit)[chunk], secrets[secret]) {
        law_chunks_hold_nothing_new(text, limit, chunk, secrets[secret]);
    }
}

/// An ordinary secret, of one line or of many, can be told from all that an answer
/// has beside the model's words, where no tool and no file is named after it.
pub proof fn law_ordinary_secrets_are_told_apart(
    said: Seq<char>,
    tools: Seq<Seq<char>>,
    secrets: Seq<Seq<char>>,
    secret: Seq<char>,
)
    requires
        ordinary(secret),
        forall|i: int| 0 <= i < tools.len() ==> !has_text(#[trigger] tools[i], secret),
        forall|i: int|
            0 <= i < answer_files(said, tools, secrets).len() ==> !has_text(
                (#[trigger] answer_files(said, tools, secrets)[i]).0,
                secret,
            ),
    ensures
        told_apart(said, tools, secrets, secret),
{
    law_ordinary_secrets_are_distinct(secret);
    law_ordinary_secrets_are_clear_of_the_tools(tools, secret);
    assert forall|i: int| 0 <= i < answer_files(said, tools, secrets).len() implies clear_of(
        secret,
        file_note((#[trigger] answer_files(said, tools, secrets)[i]).0),
    ) by {
        law_ordinary_secrets_are_clear_of_notes(
            answer_files(said, tools, secrets)[i].0,
            secret,
        );
    }
}

/// An answer is what the model said, with the tools named behind it: where it holds
/// no secret and no code block, nothing in it is changed and no file goes with it.
pub proof fn law_plain_answers_are_sent_as_they_are(said: Seq<char>, tools: Seq<Seq<char>>)
    requires
        forall|i: int| !occurs_at(with_tools(said, tools), "```"@, i),
    ensures
        answer_text(said, tools, Seq::empty()) == with_tools(said, tools),
        answer_files(said, tools, Seq::empty()).len() == 0,
{
    let full = with_tools(said, tools);
    assert(redacted(said, Seq::empty()) == said);
    law_text_without_fences_is_kept(full, 0, 0);
    assert(full.skip(0) =~= full);
}

/// Each file of an answer is one that was made of its code, in order, under the same
/// name, with secrets left out once more.
pub proof fn law_files_keep_their_names(
    said: Seq<char>,
    tools: Seq<Seq<char>>,
    secrets: Seq<Seq<char>>,
    i: int,
)
    ensures
        ({
            let made = code_files(with_tools(redacted(said, secrets), tools), 0, 0);
            let sent = answer_files(said, tools, secrets);
            &&& sent.len() == made.len()
            &&& 0 <= i < made.len() ==> sent[i].0 == made[i].0 && sent[i].1 == redacted(
                made[i].1,
                secrets,
            )
        }),
        answer_text(said, tools, secrets) == text_without_code(
            with_tools(redacted(said, secrets), tools),
            0,
            0,
        ),
{
}

} // verus!
