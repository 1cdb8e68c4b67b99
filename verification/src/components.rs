//! Buttons and menus under a message.
use vstd::prelude::*;

verus! {

/// How a button looks.
#[derive(Clone, Copy, Debug, PartialEq, Eq, Structural)]
pub enum ButtonLook {
    Success,
    Secondary,
    Danger,
}

/// A button.
#[derive(Debug, PartialEq, Eq)]
pub struct Button {
    pub custom_id: String,
    pub label: String,
    pub look: ButtonLook,
    pub disabled: bool,
}

/// An entry of a menu.
#[derive(Debug, PartialEq, Eq)]
pub struct MenuEntry {
    pub label: String,
    pub value: String,
    pub description: Option<String>,
}

/// A menu to choose one entry from.
#[derive(Debug, PartialEq, Eq)]
pub struct Menu {
    pub custom_id: String,
    pub placeholder: String,
    pub entries: Vec<MenuEntry>,
}

/// A row under a message.
#[derive(Debug, PartialEq, Eq)]
pub enum Row {
    Buttons(Vec<Button>),
    Menu(Menu),
}

/// A button as texts.
pub struct ButtonText {
    pub custom_id: Seq<char>,
    pub label: Seq<char>,
    pub look: ButtonLook,
    pub disabled: bool,
}

/// An entry of a menu as texts.
pub struct EntryText {
    pub label: Seq<char>,
    pub value: Seq<char>,
    pub description: Option<Seq<char>>,
}

/// A row as texts.
pub enum RowText {
    Buttons(Seq<ButtonText>),
    Menu { custom_id: Seq<char>, placeholder: Seq<char>, entries: Seq<EntryText> },
}

/// A button that can be pressed.
pub open spec fn button_text(
    custom_id: Seq<char>,
    label: Seq<char>,
    look: ButtonLook,
) -> ButtonText {
    ButtonText { custom_id, label, look, disabled: false }
}

/// The texts of a button.
pub open spec fn button_of(b: Button) -> ButtonText {
    ButtonText {
        custom_id: b.custom_id@,
        label: b.label@,
        look: b.look,
        disabled: b.disabled,
    }
}

/// The texts of buttons.
pub open spec fn buttons_of(buttons: Seq<Button>) -> Seq<ButtonText> {
    buttons.map_values(|b: Button| button_of(b))
}

/// The texts of an entry.
pub open spec fn entry_of(e: MenuEntry) -> EntryText {
    EntryText {
        label: e.label@,
        value: e.value@,
        description: crate::text::opt_text(e.description),
    }
}

/// The texts of entries.
pub open spec fn entries_of(entries: Seq<MenuEntry>) -> Seq<EntryText> {
    entries.map_values(|e: MenuEntry| entry_of(e))
}

/// The texts of a row.
pub open spec fn row_of(row: Row) -> RowText {
    match row {
        Row::Buttons(buttons) => RowText::Buttons(buttons_of(buttons@)),
        Row::Menu(menu) => RowText::Menu {
            custom_id: menu.custom_id@,
            placeholder: menu.placeholder@,
            entries: entries_of(menu.entries@),
        },
    }
}

/// The texts of rows.
pub open spec fn rows_of(rows: Seq<Row>) -> Seq<RowText> {
    rows.map_values(|r: Row| row_of(r))
}

/// A button that can be pressed.
pub fn button(custom_id: String, label: &str, look: ButtonLook) -> (r: Button)
    ensures
        button_of(r) == button_text(custom_id@, label@, look),
        r.custom_id@ == custom_id@ && r.label@ == label@ && r.look == look && !r.disabled,
{
    Button { custom_id, label: label.to_owned(), look, disabled: false }
}

/// A row of one button.
pub fn row1(a: Button) -> (r: Row)
    ensures
        row_of(r) == RowText::Buttons(seq![button_of(a)]),
        r matches Row::Buttons(buttons) && buttons@ == seq![a],
{
    let mut buttons: Vec<Button> = Vec::new();
    buttons.push(a);
    proof {
        assert(buttons_of(buttons@) =~= seq![button_of(a)]);
    }
    Row::Buttons(buttons)
}

/// A row of two buttons.
pub fn row2(a: Button, b: Button) -> (r: Row)
    ensures
        row_of(r) == RowText::Buttons(seq![button_of(a), button_of(b)]),
        r matches Row::Buttons(buttons) && buttons@ == seq![a, b],
{
    let mut buttons: Vec<Button> = Vec::new();
    buttons.push(a);
    buttons.push(b);
    proof {
        assert(buttons_of(buttons@) =~= seq![button_of(a), button_of(b)]);
    }
    Row::Buttons(buttons)
}

/// A row of three buttons.
pub fn row3(a: Button, b: Button, c: Button) -> (r: Row)
    ensures
        row_of(r) == RowText::Buttons(seq![button_of(a), button_of(b), button_of(c)]),
        r matches Row::Buttons(buttons) && buttons@ == seq![a, b, c],
{
    let mut buttons: Vec<Button> = Vec::new();
    buttons.push(a);
    buttons.push(b);
    buttons.push(c);
    proof {
        assert(buttons_of(buttons@) =~= seq![button_of(a), button_of(b), button_of(c)]);
    }
    Row::Buttons(buttons)
}

/// A row with a menu.
pub fn menu_row(custom_id: String, placeholder: &str, entries: Vec<MenuEntry>) -> (r: Row)
    ensures
        row_of(r) == (RowText::Menu {
            custom_id: custom_id@,
            placeholder: placeholder@,
            entries: entries_of(entries@),
        }),
        r matches Row::Menu(menu) && menu.custom_id@ == custom_id@ && menu.placeholder@
            == placeholder@ && menu.entries == entries,
{
    Row::Menu(Menu { custom_id, placeholder: placeholder.to_owned(), entries })
}

/// No rows.
pub fn no_rows() -> (r: Vec<Row>)
    ensures
        rows_of(r@) == Seq::<RowText>::empty(),
        r@.len() == 0,
{
    let rows: Vec<Row> = Vec::new();
    proof {
        assert(rows_of(rows@) =~= Seq::<RowText>::empty());
    }
    rows
}

/// One row.
pub fn rows1(a: Row) -> (r: Vec<Row>)
    ensures
        rows_of(r@) == seq![row_of(a)],
        r@ == seq![a],
{
    let mut rows: Vec<Row> = Vec::new();
    rows.push(a);
    proof {
        assert(rows_of(rows@) =~= seq![row_of(a)]);
    }
    rows
}

/// Two rows.
pub fn rows2(a: Row, b: Row) -> (r: Vec<Row>)
    ensures
        rows_of(r@) == seq![row_of(a), row_of(b)],
        r@ == seq![a, b],
{
    let mut rows: Vec<Row> = Vec::new();
    rows.push(a);
    rows.push(b);
    proof {
        assert(rows_of(rows@) =~= seq![row_of(a), row_of(b)]);
    }
    rows
}

/// What a row shows is what it holds: each button and each entry in its place, with
/// its own identifier, label and value.
pub proof fn law_rows_show_what_they_hold(rows: Seq<Row>, i: int, j: int)
    requires
        0 <= i < rows.len(),
    ensures
        rows_of(rows).len() == rows.len(),
        rows[i] matches Row::Buttons(buttons) ==> (rows_of(rows)[i] matches RowText::Buttons(shown)
            && shown.len() == buttons@.len() && (0 <= j < buttons@.len() ==> shown[j].custom_id
            == buttons@[j].custom_id@ && shown[j].label == buttons@[j].label@ && shown[j].look
            == buttons@[j].look && shown[j].disabled == buttons@[j].disabled)),
        rows[i] matches Row::Menu(menu) ==> (rows_of(rows)[i] matches RowText::Menu {
            custom_id,
            placeholder,
            entries,
        } && custom_id == menu.custom_id@ && placeholder == menu.placeholder@ && entries.len()
            == menu.entries@.len() && (0 <= j < menu.entries@.len() ==> entries[j].label
            == menu.entries@[j].label@ && entries[j].value == menu.entries@[j].value@)),
{
}

} // verus!
