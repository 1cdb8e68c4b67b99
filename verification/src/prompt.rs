//! What the model is asked: the user's words, and the message they reply to.
use crate::bridge::{find_matches, regex_matches, URL_PATTERN};
use crate::media::{has_media, message_has_supported_media};
use crate::text::{
    begins, decimal, ends, has_text, join, joined, law_joined_texts_hold_each_part,
    law_last_pieces_end_a_text, law_nothing_else_is_replaced, law_parts_are_found, law_texts_go_on,
    law_the_first_is_replaced, occurs_at, opt_str, opt_text, replace, replaced, same_text, texts,
    to_decimal, trim, trimmed,
};
use vstd::prelude::*;

verus! {

// ------------------------------------------------------- the message replied to

/// A message as context for a reply to it: its text, its addresses and whether
/// it has media. A message with neither text nor media gives none.
pub open spec fn reference_block(
    text: Seq<char>,
    urls: Seq<Seq<char>>,
    media: bool,
) -> Option<Seq<char>> {
    if text.len() == 0 && !media {
        None
    } else {
        Some(
            "[Message being replied to]\n"@ + text + (if urls.len() > 0 {
                "\n\nThe message above contains URL(s). Use the web fetch tool on these URL(s) before answering: "@
                    + joined(urls, ", "@)
            } else {
                Seq::empty()
            }) + (if media {
                "\n\n[The message above also contains media attachment(s) for analysis.]"@
            } else {
                Seq::empty()
            }) + "\n[End message being replied to]"@,
        )
    }
}

/// A message as context for a reply to it, given the addresses in it.
pub fn reference_context(text: &str, urls: &Vec<String>, media: bool) -> (r: Option<String>)
    ensures
        opt_text(r) == reference_block(text@, texts(urls@), media),
{
    if text.unicode_len() == 0 && !media {
        return None;
    }
    let mut context = "[Message being replied to]\n".to_owned().concat(text);
    if urls.len() > 0 {
        let list = join(urls, ", ");
        let part =
            "\n\nThe message above contains URL(s). Use the web fetch tool on these URL(s) before answering: ".to_owned().concat(
        list.as_str());
        context.append(part.as_str());
    } else {
        proof {
            assert(context@ + Seq::empty() =~= context@);
        }
    }
    let ghost before = context@;
    if media {
        context.append("\n\n[The message above also contains media attachment(s) for analysis.]");
    } else {
        proof {
            assert(before + Seq::empty() =~= before);
        }
    }
    context.append("\n[End message being replied to]");
    Some(context)
}

/// The addresses in a text.
pub open spec fn urls_in(text: Seq<char>) -> Seq<Seq<char>> {
    match regex_matches(URL_PATTERN@, text) {
        Some(found) => found,
        None => Seq::empty(),
    }
}

/// A message with the given content and attachments as context for a reply.
pub fn referenced_message_context(content: &str, filenames: &Vec<String>) -> (r: Option<String>)
    ensures
        opt_text(r) == reference_block(
            trimmed(content@),
            urls_in(trimmed(content@)),
            has_media(texts(filenames@)),
        ),
{
    let text = trim(content);
    let urls = match find_matches(URL_PATTERN, text) {
        Some(found) => found,
        None => {
            proof {
                assert(false);
            }
            Vec::new()
        },
    };
    let media = message_has_supported_media(filenames);
    reference_context(text, &urls, media)
}

// ------------------------------------------------------------ the user's words

/// How a user is mentioned.
pub open spec fn mention(id: u64) -> Seq<char> {
    "<@"@ + decimal(id as nat) + ">"@
}

/// How a user is mentioned by nickname.
pub open spec fn nick_mention(id: u64) -> Seq<char> {
    "<@!"@ + decimal(id as nat) + ">"@
}

/// A message without mentions of the bot.
pub open spec fn spoken(content: Seq<char>, bot_id: u64) -> Seq<char> {
    trimmed(
        replaced(
            replaced(content, mention(bot_id), Seq::empty()),
            nick_mention(bot_id),
            Seq::empty(),
        ),
    )
}

/// The user's words, with the message they reply to behind them.
pub open spec fn with_reference(text: Seq<char>, referenced: Option<Seq<char>>) -> Seq<char> {
    match referenced {
        Some(referenced) => if text.len() == 0 {
            referenced
        } else {
            text + "\n\n"@ + referenced
        },
        None => text,
    }
}

/// What the model is asked; none where there is neither text nor media.
pub open spec fn asked(
    content: Seq<char>,
    bot_id: u64,
    referenced: Option<Seq<char>>,
    media: bool,
) -> Option<Seq<char>> {
    let text = with_reference(spoken(content, bot_id), referenced);
    if text.len() > 0 {
        Some(text)
    } else if media {
        Some("(no text)"@)
    } else {
        None
    }
}

/// A message without mentions of the bot.
fn without_mentions(content: &str, bot_id: u64) -> (r: String)
    ensures
        r@ == spoken(content@, bot_id),
{
    let id = to_decimal(bot_id);
    let plain = "<@".to_owned().concat(id.as_str()).concat(">");
    let nick = "<@!".to_owned().concat(id.as_str()).concat(">");
    proof {
        reveal_strlit("<@");
        reveal_strlit("<@!");
        reveal_strlit("");
        assert(""@ =~= Seq::empty());
    }
    let once = replace(content, plain.as_str(), "");
    let twice = replace(once.as_str(), nick.as_str(), "");
    trim(twice.as_str()).to_owned()
}

/// What the model is asked; none where there is neither text nor media.
pub fn prompt_text(
    content: &str,
    bot_id: u64,
    referenced: Option<String>,
    media: bool,
) -> (r: Option<String>)
    ensures
        opt_text(r) == asked(content@, bot_id, opt_text(referenced), media),
{
    let text = without_mentions(content, bot_id);
    let text = match referenced {
        Some(referenced) => {
            if text.as_str().unicode_len() == 0 {
                referenced
            } else {
                text.concat("\n\n").concat(referenced.as_str())
            }
        },
        None => text,
    };
    if text.as_str().unicode_len() > 0 {
        Some(text)
    } else if media {
        Some("(no text)".to_owned())
    } else {
        None
    }
}

/// The name that the channel log gives beside the user name: the nickname on the
/// server, else the global name, unless it is the user name itself.
pub fn logged_nickname<'a>(
    nick: Option<&'a str>,
    global_name: Option<&'a str>,
    user_name: &str,
) -> (r: Option<&'a str>)
    ensures
        ({
            let chosen = if nick is Some {
                opt_str(nick)
            } else {
                opt_str(global_name)
            };
            opt_str(r) == (if chosen == Some(user_name@) {
                None
            } else {
                chosen
            })
        }),
{
    let chosen = match nick {
        Some(nick) => Some(nick),
        None => global_name,
    };
    match chosen {
        Some(name) => {
            if same_text(name, user_name) {
                None
            } else {
                Some(name)
            }
        },
        None => None,
    }
}

// ---------------------------------------------------------------------- laws

/// A message that is replied to is handed on whole, between two marks, with each of
/// its addresses and a word on its media; only one with neither text nor media is
/// not.
pub proof fn law_referenced_messages_are_handed_on_whole(
    text: Seq<char>,
    urls: Seq<Seq<char>>,
    media: bool,
    i: int,
)
    ensures
        reference_block(text, urls, media) is None <==> text.len() == 0 && !media,
        reference_block(text, urls, media) matches Some(block) ==> begins(
            block,
            "[Message being replied to]\n"@ + text,
        ) && ends(block, "\n[End message being replied to]"@) && (0 <= i < urls.len() ==> has_text(
            block,
            urls[i],
        )) && (media ==> ends(
            block,
            "\n\n[The message above also contains media attachment(s) for analysis.]"@
                + "\n[End message being replied to]"@,
        )) && (!media && urls.len() > 0 ==> ends(
            block,
            joined(urls, ", "@) + "\n[End message being replied to]"@,
        )) && (!media && urls.len() == 0 ==> block == "[Message being replied to]\n"@ + text
            + "\n[End message being replied to]"@),
{
    let top = "[Message being replied to]\n"@ + text;
    let end = "\n[End message being replied to]"@;
    let lead = "\n\nThe message above contains URL(s). Use the web fetch tool on these URL(s) before answering: "@;
    let list = joined(urls, ", "@);
    let links = if urls.len() > 0 {
        lead + list
    } else {
        Seq::empty()
    };
    let note = "\n\n[The message above also contains media attachment(s) for analysis.]"@;
    let word = if media {
        note
    } else {
        Seq::empty()
    };
    if reference_block(text, urls, media) is Some {
        let block = reference_block(text, urls, media).unwrap();
        assert(block == top + links + word + end);
        law_last_pieces_end_a_text(top, links, word, end);
        law_parts_are_found(top, links + word + end, end);
        law_parts_are_found(top + links + word, end, end);
        if 0 <= i < urls.len() {
            law_joined_texts_hold_each_part(urls, ", "@, i);
            law_texts_go_on(list, lead, urls[i]);
            law_texts_go_on(links, top, urls[i]);
            law_texts_go_on(top + links, word, urls[i]);
            law_texts_go_on(top + links + word, end, urls[i]);
        }
        if media {
            law_last_pieces_end_a_text(top + links, note, end, end);
        } else {
            assert(top + links + word =~= top + links);
            if urls.len() > 0 {
                law_last_pieces_end_a_text(top, lead, list, end);
                assert(block == top + lead + list + end);
                law_last_pieces_end_a_text(top + lead, list, end, end);
            } else {
                assert(top + links =~= top);
            }
        }
    }
}

/// The mention of the bot at the start of a message is no part of what is asked, in
/// either form; what follows it is, without the white space around it.
pub proof fn law_mentions_are_left_out(bot_id: u64, rest: Seq<char>)
    requires
        !has_text(rest, "<@"@ + decimal(bot_id as nat) + ">"@),
        !has_text(rest, "<@!"@ + decimal(bot_id as nat) + ">"@),
    ensures
        spoken(rest, bot_id) == trimmed(rest),
        spoken("<@"@ + decimal(bot_id as nat) + ">"@ + rest, bot_id) == trimmed(rest),
        !has_text(
            "<@!"@ + decimal(bot_id as nat) + ">"@ + rest,
            "<@"@ + decimal(bot_id as nat) + ">"@,
        ) ==> spoken("<@!"@ + decimal(bot_id as nat) + ">"@ + rest, bot_id) == trimmed(rest),
{
    let plain = mention(bot_id);
    let nick = nick_mention(bot_id);
    let e = Seq::<char>::empty();
    reveal_strlit("<@");
    reveal_strlit("<@!");
    law_nothing_else_is_replaced(rest, plain, e);
    law_nothing_else_is_replaced(rest, nick, e);
    assert(e + plain + rest =~= plain + rest);
    law_the_first_is_replaced(e, plain, e, rest);
    assert(e + e + rest =~= rest);
    if !has_text(nick + rest, plain) {
        law_nothing_else_is_replaced(nick + rest, plain, e);
    }
    assert(e + nick + rest =~= nick + rest);
    law_the_first_is_replaced(e, nick, e, rest);
}

/// The model is asked what the user wrote, with the message replied to behind it;
/// where the user wrote nothing, that message alone; where there is no text at all,
/// only media is worth asking about.
pub proof fn law_what_the_model_is_asked(
    content: Seq<char>,
    bot_id: u64,
    referenced: Seq<char>,
    media: bool,
)
    ensures
        spoken(content, bot_id).len() > 0 ==> asked(content, bot_id, None, media) == Some(
            spoken(content, bot_id),
        ),
        spoken(content, bot_id).len() > 0 ==> asked(content, bot_id, Some(referenced), media)
            == Some(spoken(content, bot_id) + "\n\n"@ + referenced),
        spoken(content, bot_id).len() == 0 && referenced.len() > 0 ==> asked(
            content,
            bot_id,
            Some(referenced),
            media,
        ) == Some(referenced),
        spoken(content, bot_id).len() == 0 && media ==> asked(content, bot_id, None, media) == Some(
            "(no text)"@,
        ),
        spoken(content, bot_id).len() == 0 && !media ==> asked(content, bot_id, None, media)
            is None,
{
}

/// The addresses in a text are all those that the pattern finds, in order.
pub proof fn law_addresses_are_what_the_pattern_finds(text: Seq<char>)
    ensures
        regex_matches(URL_PATTERN@, text) matches Some(found) ==> urls_in(text) == found,
        regex_matches(URL_PATTERN@, text) is None ==> urls_in(text).len() == 0,
        URL_PATTERN@ == "https?://[^\\s<>]+|www\\.[^\\s<>]+"@,
{
}

/// A mention of the bot within a message is taken out and nothing is put in its
/// place.
pub proof fn law_mentions_leave_nothing_behind(bot_id: u64, before: Seq<char>, rest: Seq<char>)
    requires
        !has_text(rest, "<@"@ + decimal(bot_id as nat) + ">"@),
        !has_text(rest, "<@!"@ + decimal(bot_id as nat) + ">"@),
        !has_text(before + rest, "<@!"@ + decimal(bot_id as nat) + ">"@),
    ensures
        (forall|i: int|
            0 <= i < before.len() ==> !occurs_at(
                before + ("<@"@ + decimal(bot_id as nat) + ">"@) + rest,
                "<@"@ + decimal(bot_id as nat) + ">"@,
                i,
            )) ==> spoken(before + ("<@"@ + decimal(bot_id as nat) + ">"@) + rest, bot_id)
            == trimmed(before + rest),
        !has_text(
            before + ("<@!"@ + decimal(bot_id as nat) + ">"@) + rest,
            "<@"@ + decimal(bot_id as nat) + ">"@,
        ) && (forall|i: int|
            0 <= i < before.len() ==> !occurs_at(
                before + ("<@!"@ + decimal(bot_id as nat) + ">"@) + rest,
                "<@!"@ + decimal(bot_id as nat) + ">"@,
                i,
            )) ==> spoken(before + ("<@!"@ + decimal(bot_id as nat) + ">"@) + rest, bot_id)
            == trimmed(before + rest),
{
    let plain = mention(bot_id);
    let nick = nick_mention(bot_id);
    let e = Seq::<char>::empty();
    reveal_strlit("<@");
    reveal_strlit("<@!");
    law_nothing_else_is_replaced(rest, plain, e);
    law_nothing_else_is_replaced(rest, nick, e);
    assert(before + e + rest =~= before + rest);
    law_nothing_else_is_replaced(before + rest, nick, e);
    if forall|i: int| 0 <= i < before.len() ==> !occurs_at(before + plain + rest, plain, i) {
        law_the_first_is_replaced(before, plain, e, rest);
    }
    if !has_text(before + nick + rest, plain) && (forall|i: int|
        0 <= i < before.len() ==> !occurs_at(before + nick + rest, nick, i)) {
        law_nothing_else_is_replaced(before + nick + rest, plain, e);
        law_the_first_is_replaced(before, nick, e, rest);
    }
}

} // verus!
