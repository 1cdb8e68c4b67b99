//! Keeping secrets of the environment out of what is sent.
use crate::environment::setting_texts;
use crate::text::{
    agree, clear_of, contains, has_text, law_nothing_else_is_replaced, law_the_first_is_replaced,
    lemma_found_before_replacing, lower, no_texts, occurs_at, push_text, replace, replaced, texts,
    to_ascii_lowercase,
};
use vstd::prelude::*;

verus! {

/// How long a value is that is kept secret.
pub const SECRET_LENGTH: usize = 8;

/// What stands in place of a secret.
pub const REDACTED: &'static str = "[REDACTED]";

/// Does the name of a variable say that its value is secret?
pub open spec fn names_secret(name: Seq<char>) -> bool {
    let n = lower(name);
    has_text(n, "token"@) || has_text(n, "secret"@) || has_text(n, "key"@) || has_text(
        n,
        "password"@,
    )
}

/// Is the value of a variable secret: by its name, and long enough not to stand
/// in a text by chance?
pub open spec fn is_secret(name: Seq<char>, value: Seq<char>) -> bool {
    names_secret(name) && value.len() >= SECRET_LENGTH
}

/// The secret values among variables, in order.
pub open spec fn secrets_of(vars: Seq<(Seq<char>, Seq<char>)>) -> Seq<Seq<char>>
    decreases vars.len(),
{
    if vars.len() == 0 {
        Seq::empty()
    } else {
        let rest = secrets_of(vars.drop_last());
        if is_secret(vars.last().0, vars.last().1) {
            rest.push(vars.last().1)
        } else {
            rest
        }
    }
}

/// A text with each secret replaced, one after the other.
pub open spec fn redacted(text: Seq<char>, secrets: Seq<Seq<char>>) -> Seq<char>
    decreases secrets.len(),
{
    if secrets.len() == 0 {
        text
    } else {
        replaced(redacted(text, secrets.drop_last()), secrets.last(), REDACTED@)
    }
}

/// Does the name of a variable say that its value is secret?
fn secret_name(name: &str) -> (r: bool)
    ensures
        r == names_secret(name@),
{
    let n = to_ascii_lowercase(name);
    contains(n.as_str(), "token") || contains(n.as_str(), "secret") || contains(n.as_str(), "key")
        || contains(n.as_str(), "password")
}

/// The secrets that are kept out.
#[derive(Debug, PartialEq, Eq)]
pub struct SecretRedactor {
    secrets: Vec<String>,
}

impl View for SecretRedactor {
    type V = Seq<Seq<char>>;

    closed spec fn view(&self) -> Seq<Seq<char>> {
        texts(self.secrets@)
    }
}

impl SecretRedactor {
    /// Every secret is long enough to be told from chance.
    pub open spec fn well_formed(&self) -> bool {
        forall|i: int| 0 <= i < self@.len() ==> (#[trigger] self@[i]).len() >= SECRET_LENGTH
    }

    /// The secrets among variables.
    pub fn from_vars(vars: Vec<(String, String)>) -> (r: SecretRedactor)
        ensures
            r.well_formed(),
            r@ == secrets_of(setting_texts(vars@)),
    {
        let mut secrets = no_texts();
        let n: usize = vars.len();
        let mut i: usize = 0;
        while i < n
            invariant
                n == vars@.len(),
                i <= n,
                texts(secrets@) == secrets_of(setting_texts(vars@.take(i as int))),
                forall|k: int|
                    0 <= k < texts(secrets@).len() ==> (#[trigger] texts(secrets@)[k]).len()
                        >= SECRET_LENGTH,
            decreases n - i,
        {
            let ghost before = setting_texts(vars@.take(i as int));
            proof {
                assert(setting_texts(vars@.take(i + 1)).drop_last() =~= before);
                assert(setting_texts(vars@.take(i + 1)).last() == (
                    vars@[i as int].0@,
                    vars@[i as int].1@,
                ));
            }
            let value = vars[i].1.as_str();
            if secret_name(vars[i].0.as_str()) && value.unicode_len() >= SECRET_LENGTH {
                push_text(&mut secrets, value);
            }
            i += 1;
        }
        proof {
            assert(vars@.take(n as int) =~= vars@);
        }
        SecretRedactor { secrets }
    }

    /// A text with each secret replaced.
    pub fn redact(&self, text: &str) -> (r: String)
        requires
            self.well_formed(),
        ensures
            r@ == redacted(text@, self@),
    {
        let mut r = text.to_owned();
        let n: usize = self.secrets.len();
        let mut i: usize = 0;
        while i < n
            invariant
                n == self.secrets@.len(),
                i <= n,
                self.well_formed(),
                r@ == redacted(text@, self@.take(i as int)),
            decreases n - i,
        {
            proof {
                assert(self@[i as int] == self.secrets@[i as int]@);
                assert(self@.take(i + 1).drop_last() =~= self@.take(i as int));
                assert(self@.take(i + 1).last() == self@[i as int]);
            }
            r = replace(r.as_str(), self.secrets[i].as_str(), REDACTED);
            i += 1;
        }
        proof {
            assert(self@.take(n as int) =~= self@);
        }
        r
    }
}

// ----------------------------------------------------------------------- laws

/// Can a text be told from what stands in place of a secret: it never runs into
/// that?
pub open spec fn distinct(secret: Seq<char>) -> bool {
    clear_of(secret, REDACTED@)
}

/// Whatever text is redacted, a secret that can be told from what is put in its
/// place does not stand in it after, whatever the other secrets are.
pub proof fn law_redacted_texts_hold_no_secret(text: Seq<char>, secrets: Seq<Seq<char>>, k: int)
    requires
        0 <= k < secrets.len(),
        distinct(secrets[k]),
    ensures
        !has_text(redacted(text, secrets), secrets[k]),
    decreases secrets.len(),
{
    let rest = secrets.drop_last();
    if has_text(redacted(text, secrets), secrets[k]) {
        lemma_found_before_replacing(redacted(text, rest), secrets.last(), REDACTED@, secrets[k]);
        if k < secrets.len() - 1 {
            assert(rest[k] == secrets[k]);
            law_redacted_texts_hold_no_secret(text, rest, k);
        }
    }
}

/// Is a secret like most: with nothing in it that the bot puts around texts, but for
/// line breaks inside, and no part of the words that it writes itself?
pub open spec fn ordinary(secret: Seq<char>) -> bool {
    &&& secret.len() >= SECRET_LENGTH
    &&& secret[0] != '\n'
    &&& secret.last() != '\n'
    &&& !secret.contains('[')
    &&& !secret.contains(']')
    &&& !secret.contains('`')
    &&& !secret.contains('📎')
    &&& !secret.contains('🛠')
    &&& !secret.contains('\u{200b}')
    &&& !secret.contains('…')
    &&& secret != "REDACTED"@
    &&& !has_text("\u{fe0f} **Tools used:** none"@, secret)
}

/// An ordinary secret can be told from what is put in its place.
pub proof fn law_ordinary_secrets_are_distinct(secret: Seq<char>)
    requires
        ordinary(secret),
    ensures
        distinct(secret),
{
    reveal_strlit("[REDACTED]");
    reveal_strlit("REDACTED");
    assert(REDACTED@.len() == 10 && REDACTED@[0] == '[' && REDACTED@[9] == ']');
    assert forall|s: int| 0 <= s < secret.len() implies !agree(
        #[trigger] secret.skip(s),
        REDACTED@,
    ) by {
        assert(secret.skip(s)[0] == secret[s]);
        assert(secret.contains(secret[s]));
    }
    assert forall|i: int| 0 < i < REDACTED@.len() implies !agree(
        secret,
        #[trigger] REDACTED@.skip(i),
    ) by {
        let rest = REDACTED@.skip(i);
        if agree(secret, rest) {
            if secret.len() > 9 - i {
                assert(secret[9 - i] == rest[9 - i]);
                assert(secret.contains(secret[9 - i]));
            } else {
                assert(i == 1);
                assert forall|k: int| 0 <= k < 8 implies secret[k] == "REDACTED"@[k] by {
                    assert(secret[k] == rest[k]);
                }
                assert(secret =~= "REDACTED"@);
            }
        }
    }
}

/// A text in which no secret stands is left as it is.
pub proof fn law_harmless_texts_are_kept(text: Seq<char>, secrets: Seq<Seq<char>>)
    requires
        forall|i: int| 0 <= i < secrets.len() ==> !has_text(text, #[trigger] secrets[i]),
    ensures
        redacted(text, secrets) == text,
    decreases secrets.len(),
{
    if secrets.len() > 0 {
        assert forall|i: int| 0 <= i < secrets.drop_last().len() implies !has_text(
            text,
            #[trigger] secrets.drop_last()[i],
        ) by {
            assert(secrets.drop_last()[i] == secrets[i]);
        }
        law_harmless_texts_are_kept(text, secrets.drop_last());
        assert(!has_text(text, secrets[secrets.len() - 1]));
        lemma_nothing_to_replace(text, secrets.last());
    }
}

proof fn lemma_nothing_to_replace(t: Seq<char>, secret: Seq<char>)
    requires
        !has_text(t, secret),
    ensures
        replaced(t, secret, REDACTED@) == t,
    decreases t.len(),
{
    if t.len() > 0 && secret.len() > 0 {
        assert(!occurs_at(t, secret, 0));
        let rest = t.drop_first();
        if has_text(rest, secret) {
            let j = choose|j: int| occurs_at(rest, secret, j);
            assert(t.subrange(j + 1, j + 1 + secret.len()) =~= rest.subrange(j, j + secret.len()));
            assert(occurs_at(t, secret, j + 1));
        }
        lemma_nothing_to_replace(rest, secret);
        assert(seq![t[0]] + rest =~= t);
    }
}

/// The values that are kept secret are those of the variables named so.
pub proof fn law_only_named_values_are_secret(vars: Seq<(Seq<char>, Seq<char>)>, k: int)
    requires
        0 <= k < secrets_of(vars).len(),
    ensures
        exists|i: int|
            0 <= i < vars.len() && is_secret((#[trigger] vars[i]).0, vars[i].1) && vars[i].1
                == secrets_of(vars)[k],
    decreases vars.len(),
{
    if is_secret(vars.last().0, vars.last().1) && k == secrets_of(vars).len() - 1 {
        assert(vars[vars.len() - 1] == vars.last());
    } else {
        law_only_named_values_are_secret(vars.drop_last(), k);
        let i = choose|i: int|
            0 <= i < vars.drop_last().len() && is_secret(
                (#[trigger] vars.drop_last()[i]).0,
                vars.drop_last()[i].1,
            ) && vars.drop_last()[i].1 == secrets_of(vars.drop_last())[k];
        assert(vars[i] == vars.drop_last()[i]);
    }
}

/// The secrets are the values of exactly the variables whose name speaks, in
/// whatever case, of a token, a secret, a key or a password, and that have at least
/// eight characters, in the order of the variables.
pub proof fn law_secrets_are_told_by_their_names(vars: Seq<(Seq<char>, Seq<char>)>)
    ensures
        secrets_of(vars) == vars.filter(
            |v: (Seq<char>, Seq<char>)|
                v.1.len() >= 8 && (has_text(lower(v.0), "token"@) || has_text(
                    lower(v.0),
                    "secret"@,
                ) || has_text(lower(v.0), "key"@) || has_text(lower(v.0), "password"@)),
        ).map_values(|v: (Seq<char>, Seq<char>)| v.1),
    decreases vars.len(),
{
    let speaks = |v: (Seq<char>, Seq<char>)|
        v.1.len() >= 8 && (has_text(lower(v.0), "token"@) || has_text(lower(v.0), "secret"@)
            || has_text(lower(v.0), "key"@) || has_text(lower(v.0), "password"@));
    let value = |v: (Seq<char>, Seq<char>)| v.1;
    reveal(Seq::filter);
    if vars.len() > 0 {
        law_secrets_are_told_by_their_names(vars.drop_last());
        let rest = vars.drop_last().filter(speaks);
        if speaks(vars.last()) {
            assert(rest.push(vars.last()).map_values(value) =~= rest.map_values(value).push(
                vars.last().1,
            ));
        }
    } else {
        assert(vars.filter(speaks) =~= Seq::empty());
        assert(Seq::<(Seq<char>, Seq<char>)>::empty().map_values(value) =~= Seq::empty());
    }
}

/// Where a secret first stands in a text, a mark takes its place; what stands before
/// it stays, and what is behind it is treated in the same way. A text without the
/// secret stays as it is.
pub proof fn law_marks_take_the_place_of_secrets(
    before: Seq<char>,
    secret: Seq<char>,
    behind: Seq<char>,
)
    requires
        secret.len() > 0,
        forall|i: int| 0 <= i < before.len() ==> !occurs_at(before + secret + behind, secret, i),
    ensures
        redacted(before + secret + behind, seq![secret]) == before + "[REDACTED]"@ + redacted(
            behind,
            seq![secret],
        ),
        !has_text(before, secret) ==> redacted(before, seq![secret]) == before,
        redacted(before, Seq::empty()) == before,
{
    assert(seq![secret].drop_last() =~= Seq::empty());
    law_the_first_is_replaced(before, secret, REDACTED@, behind);
    assert(redacted(before + secret + behind, Seq::empty()) == before + secret + behind);
    assert(redacted(behind, Seq::empty()) == behind);
    assert(redacted(before, Seq::empty()) == before);
    if !has_text(before, secret) {
        law_nothing_else_is_replaced(before, secret, REDACTED@);
    }
}

/// One secret more is left out of what the others were left out of.
pub proof fn law_each_secret_is_left_out(
    text: Seq<char>,
    secrets: Seq<Seq<char>>,
    secret: Seq<char>,
)
    ensures
        redacted(text, secrets.push(secret)) == redacted(redacted(text, secrets), seq![secret]),
{
    assert(secrets.push(secret).drop_last() =~= secrets);
    assert(seq![secret].drop_last() =~= Seq::empty());
    let rest = redacted(text, secrets);
    assert(redacted(rest, Seq::empty()) == rest);
}

} // verus!
