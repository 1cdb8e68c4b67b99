//! Long answers on pages with buttons to turn them.
use crate::bridge::{is_lower_hex, random_token};
use crate::components::{buttons_of, rows1, rows_of, Button, ButtonLook, ButtonText, Row, RowText};
use crate::formatting::{chunks_of, law_chunks_fit, split_text};
use crate::replies::MAX_MESSAGE_LENGTH;
use crate::text::{
    decimal, lemma_decimal, lemma_split_last_is, number_in, parse_u64, rsplit_once, split_last,
    strip_prefix, texts, to_decimal, without_prefix,
};
use vstd::prelude::*;

verus! {

/// How many characters a page holds.
pub const EMBED_DESCRIPTION_LIMIT: usize = 4096;

/// What the identifier of every page button begins with.
pub const PAGINATION_PREFIX: &'static str = "housebot_labs_page:";

/// An answer on pages, and who asked for it.
#[derive(Debug, PartialEq, Eq)]
pub struct PaginatedResponse {
    pub owner_id: u64,
    pub pages: Vec<String>,
}

/// The identifier of a button that leads to a page.
pub open spec fn page_id(token: Seq<char>, page: nat) -> Seq<char> {
    PAGINATION_PREFIX@ + token + ":"@ + decimal(page)
}

/// The token and the page that an identifier names.
pub open spec fn page_of(custom_id: Seq<char>) -> Option<(Seq<char>, nat)> {
    match without_prefix(custom_id, PAGINATION_PREFIX@) {
        None => None,
        Some(rest) => match split_last(rest, ':') {
            None => None,
            Some((token, page)) => match number_in(page, u64::MAX as nat) {
                None => None,
                Some(page) => Some((token, page)),
            },
        },
    }
}

/// The token and the page that an identifier names.
pub fn parse_page_id<'a>(custom_id: &'a str) -> (r: Option<(&'a str, u64)>)
    ensures
        (match r {
            Some((token, page)) => Some((token@, page as nat)),
            None => None,
        }) == page_of(custom_id@),
{
    let rest = match strip_prefix(custom_id, PAGINATION_PREFIX) {
        Some(rest) => rest,
        None => {
            return None;
        },
    };
    match rsplit_once(rest, ':') {
        None => None,
        Some((token, page)) => match parse_u64(page) {
            None => None,
            Some(page) => Some((token, page)),
        },
    }
}

/// The buttons under a page: one to the page before and one to the page behind,
/// where there is one.
pub open spec fn page_buttons(token: Seq<char>, page: nat, count: nat) -> Seq<ButtonText> {
    seq![
        ButtonText {
            custom_id: page_id(
                token,
                if page == 0 {
                    0
                } else {
                    (page - 1) as nat
                },
            ),
            label: "←"@,
            look: ButtonLook::Secondary,
            disabled: page == 0,
        },
        ButtonText {
            custom_id: page_id(token, page + 1),
            label: "→"@,
            look: ButtonLook::Secondary,
            disabled: page + 1 >= count,
        },
    ]
}

/// The identifier of a button that leads to a page.
fn write_page_id(token: &str, page: u64) -> (r: String)
    ensures
        r@ == page_id(token@, page as nat),
{
    let number = to_decimal(page);
    PAGINATION_PREFIX.to_owned().concat(token).concat(":").concat(number.as_str())
}

/// The buttons under a page.
pub fn pagination_components(token: &str, page: usize, page_count: usize) -> (r: Vec<Row>)
    requires
        page < usize::MAX,
    ensures
        rows_of(r@) == seq![
            RowText::Buttons(page_buttons(token@, page as nat, page_count as nat)),
        ],
{
    let before: usize = if page == 0 {
        0
    } else {
        page - 1
    };
    let mut buttons: Vec<Button> = Vec::new();
    buttons.push(
        Button {
            custom_id: write_page_id(token, before as u64),
            label: "←".to_owned(),
            look: ButtonLook::Secondary,
            disabled: page == 0,
        },
    );
    buttons.push(
        Button {
            custom_id: write_page_id(token, (page + 1) as u64),
            label: "→".to_owned(),
            look: ButtonLook::Secondary,
            disabled: page + 1 >= page_count,
        },
    );
    proof {
        assert(buttons_of(buttons@) =~= page_buttons(token@, page as nat, page_count as nat));
    }
    rows1(Row::Buttons(buttons))
}

/// A page as it is shown.
#[derive(Debug, PartialEq, Eq)]
pub struct PageView {
    pub description: String,
    pub footer: String,
    pub rows: Vec<Row>,
}

/// What stands under a page.
pub open spec fn page_footer(page: nat, count: nat) -> Seq<char> {
    "Page "@ + decimal(page + 1) + " of "@ + decimal(count)
}

/// Does a view show a page of an answer?
pub open spec fn shows(
    view: PageView,
    token: Seq<char>,
    pages: Seq<Seq<char>>,
    page: int,
) -> bool {
    0 <= page < pages.len() && view.description@ == pages[page] && view.footer@ == page_footer(
        page as nat,
        pages.len(),
    ) && rows_of(view.rows@) == seq![
        RowText::Buttons(page_buttons(token, page as nat, pages.len())),
    ]
}

/// A page as it is shown.
pub fn pagination_view(token: &str, pages: &Vec<String>, page: usize) -> (r: PageView)
    requires
        page < pages@.len(),
    ensures
        shows(r, token@, texts(pages@), page as int),
{
    let count: usize = pages.len();
    let number = to_decimal(page as u64 + 1);
    let total = to_decimal(count as u64);
    PageView {
        description: pages[page].as_str().to_owned(),
        footer: "Page ".to_owned().concat(number.as_str()).concat(" of ").concat(total.as_str()),
        rows: pagination_components(token, page, count),
    }
}

/// What pressing a page button does: a private word, or a page.
#[derive(Debug, PartialEq, Eq)]
pub enum PageStep {
    Tell(&'static str),
    Show(PageView),
}

pub const PAGES_EXPIRED: &'static str = "This paginated response has expired.";

pub const AUTHOR_ONLY: &'static str = "Only the response author can use these buttons.";

/// May a user see a page of an answer?
pub open spec fn may_turn(response: PaginatedResponse, user_id: u64, page: nat) -> bool {
    response.owner_id == user_id && page < response.pages@.len()
}

/// What pressing a page button does, given the answer that its token stands for.
pub fn handle_pagination_component(
    token: &str,
    page: u64,
    response: Option<&PaginatedResponse>,
    user_id: u64,
) -> (r: PageStep)
    ensures
        match response {
            None => r matches PageStep::Tell(text) && text@ == PAGES_EXPIRED@ && text@
                == "This paginated response has expired."@,
            Some(response) => if may_turn(*response, user_id, page as nat) {
                r matches PageStep::Show(view) && shows(
                    view,
                    token@,
                    texts(response.pages@),
                    page as int,
                )
            } else {
                r matches PageStep::Tell(text) && text@ == AUTHOR_ONLY@ && text@
                    == "Only the response author can use these buttons."@
            },
        },
{
    let response = match response {
        None => {
            return PageStep::Tell(PAGES_EXPIRED);
        },
        Some(response) => response,
    };
    if response.owner_id != user_id || page >= response.pages.len() as u64 {
        return PageStep::Tell(AUTHOR_ONLY);
    }
    PageStep::Show(pagination_view(token, &response.pages, page as usize))
}

// ------------------------------------------------------------ the final answer

/// Is `token` fit to name an answer: 32 small hexadecimal digits?
pub open spec fn is_token(token: Seq<char>) -> bool {
    token.len() == 32 && forall|i: int| 0 <= i < token.len() ==> is_lower_hex(#[trigger] token[i])
}

/// How an answer goes out: in chunks that fit a message, or on pages.
#[derive(Debug, PartialEq, Eq)]
pub enum FinalMessage {
    Chunks(Vec<String>),
    Pages { token: String, response: PaginatedResponse, first: PageView },
}

/// An answer as it goes out, on pages under a given token where the user wants
/// pages.
pub fn final_message(text: &str, paginate: bool, owner_id: u64, token: String) -> (r: FinalMessage)
    ensures
        match r {
            FinalMessage::Chunks(chunks) => !paginate && texts(chunks@) == chunks_of(
                text@,
                MAX_MESSAGE_LENGTH as nat,
            ) && texts(chunks@) == chunks_of(text@, 2000),
            FinalMessage::Pages { token: named, response, first } => paginate && named@ == token@
                && response.owner_id == owner_id && texts(response.pages@) == chunks_of(
                text@,
                EMBED_DESCRIPTION_LIMIT as nat,
            ) && texts(response.pages@) == chunks_of(text@, 4096) && shows(
                first,
                token@,
                texts(response.pages@),
                0,
            ),
        },
{
    if !paginate {
        return FinalMessage::Chunks(split_text(text, MAX_MESSAGE_LENGTH));
    }
    let pages = split_text(text, EMBED_DESCRIPTION_LIMIT);
    proof {
        law_chunks_fit(text@, EMBED_DESCRIPTION_LIMIT as nat);
        assert(texts(pages@).len() == pages@.len());
    }
    let first = pagination_view(token.as_str(), &pages, 0);
    FinalMessage::Pages { token, response: PaginatedResponse { owner_id, pages }, first }
}

/// An answer as it goes out, on pages under a fresh token where the user wants
/// pages. Which token is left to chance.
pub fn send_final_message(text: &str, paginate: bool, owner_id: u64) -> (r: FinalMessage)
    ensures
        match r {
            FinalMessage::Chunks(chunks) => !paginate && texts(chunks@) == chunks_of(
                text@,
                MAX_MESSAGE_LENGTH as nat,
            ) && texts(chunks@) == chunks_of(text@, 2000),
            FinalMessage::Pages { token, response, first } => paginate && is_token(token@)
                && response.owner_id == owner_id && texts(response.pages@) == chunks_of(
                text@,
                EMBED_DESCRIPTION_LIMIT as nat,
            ) && texts(response.pages@) == chunks_of(text@, 4096) && shows(
                first,
                token@,
                texts(response.pages@),
                0,
            ),
        },
{
    let token = random_token();
    final_message(text, paginate, owner_id, token)
}

/// How a chunk is sent.
#[derive(Clone, Copy, Debug, PartialEq, Eq, Structural)]
pub enum Sending {
    Edited,
    Reply,
    Say,
}

/// How a chunk is sent: the first is a reply, unless the progress message was
/// edited into it; the others follow in the channel.
pub fn chunk_sending(index: usize, progress_edited: bool) -> (r: Sending)
    ensures
        r == (if index > 0 {
            Sending::Say
        } else if progress_edited {
            Sending::Edited
        } else {
            Sending::Reply
        }),
{
    if index > 0 {
        Sending::Say
    } else if progress_edited {
        Sending::Edited
    } else {
        Sending::Reply
    }
}

// ----------------------------------------------------------------------- laws

/// A page button names the answer and the page that it was made for.
pub proof fn law_page_button_names_its_page(token: Seq<char>, page: nat)
    requires
        page <= u64::MAX,
    ensures
        page_of(page_id(token, page)) == Some((token, page)),
{
    reveal_strlit(":");
    let id = page_id(token, page);
    let prefix = PAGINATION_PREFIX@;
    let rest = token + ":"@ + decimal(page);
    assert(id =~= prefix + rest);
    assert(id.subrange(0, prefix.len() as int) =~= prefix);
    assert(id.skip(prefix.len() as int) =~= rest);
    lemma_decimal(page);
    let k = token.len() as int;
    assert(rest[k] == ':');
    assert forall|i: int| k < i < rest.len() implies rest[i] != ':' by {
        assert(rest[i] == decimal(page)[i - k - 1]);
    }
    lemma_split_last_is(rest, ':', k);
    assert(rest.take(k) =~= token);
    assert(rest.skip(k + 1) =~= decimal(page));
    crate::text::law_decimal_reads_back(page, u64::MAX as nat);
}

/// A button that can be pressed leads to a page that is there, next to the page
/// it stands under.
pub proof fn law_buttons_lead_to_pages(token: Seq<char>, page: nat, count: nat, i: int)
    requires
        page < count <= u64::MAX,
        0 <= i < 2,
        !page_buttons(token, page, count)[i].disabled,
    ensures
        page_of(page_buttons(token, page, count)[i].custom_id) == Some(
            (
                token,
                if i == 0 {
                    (page - 1) as nat
                } else {
                    page + 1
                },
            ),
        ),
        (if i == 0 {
            (page - 1) as nat
        } else {
            page + 1
        }) < count,
{
    let target = if i == 0 {
        (page - 1) as nat
    } else {
        page + 1
    };
    law_page_button_names_its_page(token, target);
}

/// Only the one who asked for an answer turns its pages.
pub proof fn law_only_the_author_turns_pages(response: PaginatedResponse, user_id: u64, page: nat)
    requires
        user_id != response.owner_id,
    ensures
        !may_turn(response, user_id, page),
{
}

/// The author of an answer sees each of its pages, and nobody sees one that is not
/// there.
pub proof fn law_authors_see_every_page(response: PaginatedResponse, user_id: u64, page: nat)
    ensures
        may_turn(response, user_id, page) <==> user_id == response.owner_id && page
            < response.pages@.len(),
{
}

/// What is shown of a page is that page, whole, with its number counted from one and
/// how many there are, and two arrows: the left one leads to the page before and the
/// right one to the page behind; at either end of the answer the arrow that leads
/// nowhere cannot be pressed.
pub proof fn law_a_page_is_shown_between_its_neighbours(
    view: PageView,
    token: Seq<char>,
    pages: Seq<Seq<char>>,
    page: int,
)
    requires
        shows(view, token, pages, page),
        pages.len() <= u64::MAX,
    ensures
        0 <= page < pages.len(),
        view.description@ == pages[page],
        view.footer@ == "Page "@ + decimal((page + 1) as nat) + " of "@ + decimal(pages.len()),
        rows_of(view.rows@).len() == 1,
        rows_of(view.rows@)[0] matches RowText::Buttons(buttons) && {
            &&& buttons.len() == 2
            &&& buttons[0].label == "←"@ && buttons[1].label == "→"@
            &&& buttons[0].disabled <==> page == 0
            &&& buttons[1].disabled <==> page == pages.len() - 1
            &&& page > 0 ==> page_of(buttons[0].custom_id) == Some((token, (page - 1) as nat))
            &&& page == 0 ==> page_of(buttons[0].custom_id) == Some((token, 0nat))
            &&& page_of(buttons[1].custom_id) == Some((token, (page + 1) as nat))
        },
{
    if page > 0 {
        law_page_button_names_its_page(token, (page - 1) as nat);
    }
    law_page_button_names_its_page(token, 0);
    law_page_button_names_its_page(token, (page + 1) as nat);
}

} // verus!
