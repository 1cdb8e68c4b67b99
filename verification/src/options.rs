//! The options that came with a slash command.
use crate::text::{opt_str, same_text};
use vstd::prelude::*;

verus! {

/// What an option holds.
#[derive(Debug, PartialEq, Eq)]
pub enum OptionValue {
    SubCommand(Vec<CommandOption>),
    SubCommandGroup(Vec<CommandOption>),
    Text(String),
    Integer(i64),
    Boolean(bool),
    Channel(u64),
    Other,
}

/// An option of a command.
#[derive(Debug, PartialEq, Eq)]
pub struct CommandOption {
    pub name: String,
    pub value: OptionValue,
}

/// The value of the first option of that name.
pub open spec fn option_value(options: Seq<CommandOption>, name: Seq<char>) -> Option<OptionValue>
    decreases options.len(),
{
    if options.len() == 0 {
        None
    } else if options[0].name@ == name {
        Some(options[0].value)
    } else {
        option_value(options.drop_first(), name)
    }
}

/// The text of the first option of that name, where it holds one.
pub open spec fn text_option(options: Seq<CommandOption>, name: Seq<char>) -> Option<Seq<char>> {
    match option_value(options, name) {
        Some(OptionValue::Text(text)) => Some(text@),
        _ => None,
    }
}

/// The integer of the first option of that name, where it holds one.
pub open spec fn integer_option(options: Seq<CommandOption>, name: Seq<char>) -> Option<i64> {
    match option_value(options, name) {
        Some(OptionValue::Integer(n)) => Some(n),
        _ => None,
    }
}

/// The truth value of the first option of that name, where it holds one.
pub open spec fn boolean_option(options: Seq<CommandOption>, name: Seq<char>) -> Option<bool> {
    match option_value(options, name) {
        Some(OptionValue::Boolean(b)) => Some(b),
        _ => None,
    }
}

/// The channel of the first option of that name, where it holds one.
pub open spec fn channel_option(options: Seq<CommandOption>, name: Seq<char>) -> Option<u64> {
    match option_value(options, name) {
        Some(OptionValue::Channel(id)) => Some(id),
        _ => None,
    }
}

/// The name of the first option.
pub open spec fn first_name(options: Seq<CommandOption>) -> Option<Seq<char>> {
    if options.len() == 0 {
        None
    } else {
        Some(options[0].name@)
    }
}

/// The value of the first option of that name.
pub fn find_option<'a>(options: &'a Vec<CommandOption>, name: &str) -> (r: Option<&'a OptionValue>)
    ensures
        (match r {
            Some(v) => Some(*v),
            None => None,
        }) == option_value(options@, name@),
{
    let n: usize = options.len();
    let mut i: usize = 0;
    proof {
        assert(options@.skip(0) =~= options@);
    }
    while i < n
        invariant
            n == options@.len(),
            i <= n,
            option_value(options@, name@) == option_value(options@.skip(i as int), name@),
        decreases n - i,
    {
        proof {
            assert(options@.skip(i as int).drop_first() =~= options@.skip(i + 1));
        }
        if same_text(options[i].name.as_str(), name) {
            return Some(&options[i].value);
        }
        i += 1;
    }
    None
}

/// The text of the first option of that name, where it holds one.
pub fn find_text<'a>(options: &'a Vec<CommandOption>, name: &str) -> (r: Option<&'a str>)
    ensures
        opt_str(r) == text_option(options@, name@),
{
    match find_option(options, name) {
        Some(OptionValue::Text(text)) => Some(text.as_str()),
        _ => None,
    }
}

/// The integer of the first option of that name, where it holds one.
pub fn find_integer(options: &Vec<CommandOption>, name: &str) -> (r: Option<i64>)
    ensures
        r == integer_option(options@, name@),
{
    match find_option(options, name) {
        Some(OptionValue::Integer(n)) => Some(*n),
        _ => None,
    }
}

/// The truth value of the first option of that name, where it holds one.
pub fn find_boolean(options: &Vec<CommandOption>, name: &str) -> (r: Option<bool>)
    ensures
        r == boolean_option(options@, name@),
{
    match find_option(options, name) {
        Some(OptionValue::Boolean(b)) => Some(*b),
        _ => None,
    }
}

/// The channel of the first option of that name, where it holds one.
pub fn find_channel(options: &Vec<CommandOption>, name: &str) -> (r: Option<u64>)
    ensures
        r == channel_option(options@, name@),
{
    match find_option(options, name) {
        Some(OptionValue::Channel(id)) => Some(*id),
        _ => None,
    }
}

/// The name of the first option.
pub fn subcommand<'a>(options: &'a Vec<CommandOption>) -> (r: Option<&'a str>)
    ensures
        opt_str(r) == first_name(options@),
{
    if options.len() == 0 {
        None
    } else {
        Some(options[0].name.as_str())
    }
}

// ---------------------------------------------------------------------- laws

/// Of the options of one name the first counts, and what it holds is what is read,
/// as it is; an option of another kind is not read.
pub proof fn law_the_first_option_of_a_name_counts(
    options: Seq<CommandOption>,
    name: Seq<char>,
    k: int,
)
    requires
        0 <= k < options.len(),
        options[k].name@ == name,
        forall|j: int| 0 <= j < k ==> (#[trigger] options[j]).name@ != name,
    ensures
        option_value(options, name) == Some(options[k].value),
        boolean_option(options, name) == (match options[k].value {
            OptionValue::Boolean(b) => Some(b),
            _ => None,
        }),
        integer_option(options, name) == (match options[k].value {
            OptionValue::Integer(n) => Some(n),
            _ => None,
        }),
        channel_option(options, name) == (match options[k].value {
            OptionValue::Channel(id) => Some(id),
            _ => None,
        }),
        text_option(options, name) == (match options[k].value {
            OptionValue::Text(text) => Some(text@),
            _ => None,
        }),
    decreases k,
{
    if k > 0 {
        assert(options[0].name@ != name);
        let rest = options.drop_first();
        assert forall|j: int| 0 <= j < k - 1 implies (#[trigger] rest[j]).name@ != name by {
            assert(rest[j] == options[j + 1]);
        }
        law_the_first_option_of_a_name_counts(rest, name, k - 1);
    }
}

/// A name that no option has is not found.
pub proof fn law_missing_options_are_not_found(options: Seq<CommandOption>, name: Seq<char>)
    requires
        forall|j: int| 0 <= j < options.len() ==> (#[trigger] options[j]).name@ != name,
    ensures
        option_value(options, name) is None,
        boolean_option(options, name) is None,
        integer_option(options, name) is None,
        channel_option(options, name) is None,
        text_option(options, name) is None,
    decreases options.len(),
{
    if options.len() > 0 {
        assert(options[0].name@ != name);
        let rest = options.drop_first();
        assert forall|j: int| 0 <= j < rest.len() implies (#[trigger] rest[j]).name@ != name by {
            assert(rest[j] == options[j + 1]);
        }
        law_missing_options_are_not_found(rest, name);
    }
}

/// The subcommand that was given is the first option.
pub proof fn law_the_first_option_is_the_subcommand(options: Seq<CommandOption>)
    ensures
        options.len() > 0 ==> first_name(options) == Some(options[0].name@),
        options.len() == 0 ==> first_name(options) is None,
{
}

} // verus!
