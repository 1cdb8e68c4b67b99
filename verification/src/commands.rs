//! The slash commands that the two programs register.
use crate::deploy_control::names_deployment_command;
use crate::routing::{command_named, SlashCommand};
use crate::text::{opt_text, same_text};
use crate::user_config::{budget, mode_name, BudgetLabels, ThinkingMode};
use vstd::prelude::*;

verus! {

// ---------------------------------------------------------------------- shapes

/// What a parameter takes.
#[derive(Clone, Copy, Debug, PartialEq, Eq, Structural)]
pub enum ParameterKind {
    Text,
    Integer,
    Boolean,
    Channel,
}

/// A value that can be picked for a parameter.
#[derive(Debug, PartialEq, Eq)]
pub struct ChoiceSpec {
    pub label: String,
    pub value: String,
}

/// A parameter of a command.
#[derive(Debug, PartialEq, Eq)]
pub struct ParameterSpec {
    pub kind: ParameterKind,
    pub name: String,
    pub description: String,
    pub required: bool,
    pub choices: Vec<ChoiceSpec>,
}

/// A subcommand.
#[derive(Debug, PartialEq, Eq)]
pub struct SubcommandSpec {
    pub name: String,
    pub description: String,
    pub parameters: Vec<ParameterSpec>,
}

/// An option of a command.
#[derive(Debug, PartialEq, Eq)]
pub enum OptionSpec {
    Parameter(ParameterSpec),
    Subcommand(SubcommandSpec),
    Group { name: String, description: String, subcommands: Vec<SubcommandSpec> },
}

/// A slash command.
#[derive(Debug, PartialEq, Eq)]
pub struct CommandSpec {
    pub name: String,
    pub description: String,
    pub options: Vec<OptionSpec>,
}

/// A value that can be picked, as texts.
pub struct ChoiceText {
    pub label: Seq<char>,
    pub value: Seq<char>,
}

/// A parameter as values.
pub struct ParameterText {
    pub kind: ParameterKind,
    pub name: Seq<char>,
    pub description: Seq<char>,
    pub required: bool,
    pub choices: Seq<ChoiceText>,
}

/// A subcommand as values.
pub struct SubcommandText {
    pub name: Seq<char>,
    pub description: Seq<char>,
    pub parameters: Seq<ParameterText>,
}

/// An option as values.
pub enum OptionText {
    Parameter(ParameterText),
    Subcommand(SubcommandText),
    Group { name: Seq<char>, description: Seq<char>, subcommands: Seq<SubcommandText> },
}

/// A slash command as values.
pub struct CommandText {
    pub name: Seq<char>,
    pub description: Seq<char>,
    pub options: Seq<OptionText>,
}

impl View for ChoiceSpec {
    type V = ChoiceText;

    open spec fn view(&self) -> ChoiceText {
        ChoiceText { label: self.label@, value: self.value@ }
    }
}

impl View for ParameterSpec {
    type V = ParameterText;

    open spec fn view(&self) -> ParameterText {
        ParameterText {
            kind: self.kind,
            name: self.name@,
            description: self.description@,
            required: self.required,
            choices: self.choices@.map_values(|c: ChoiceSpec| c@),
        }
    }
}

impl View for SubcommandSpec {
    type V = SubcommandText;

    open spec fn view(&self) -> SubcommandText {
        SubcommandText {
            name: self.name@,
            description: self.description@,
            parameters: self.parameters@.map_values(|p: ParameterSpec| p@),
        }
    }
}

impl View for OptionSpec {
    type V = OptionText;

    open spec fn view(&self) -> OptionText {
        match *self {
            OptionSpec::Parameter(p) => OptionText::Parameter(p@),
            OptionSpec::Subcommand(s) => OptionText::Subcommand(s@),
            OptionSpec::Group { name, description, subcommands } => OptionText::Group {
                name: name@,
                description: description@,
                subcommands: subcommands@.map_values(|s: SubcommandSpec| s@),
            },
        }
    }
}

impl View for CommandSpec {
    type V = CommandText;

    open spec fn view(&self) -> CommandText {
        CommandText {
            name: self.name@,
            description: self.description@,
            options: self.options@.map_values(|o: OptionSpec| o@),
        }
    }
}

/// Commands as values.
pub open spec fn command_texts(commands: Seq<CommandSpec>) -> Seq<CommandText> {
    commands.map_values(|c: CommandSpec| c@)
}

// --------------------------------------------------------------------- builders

/// A parameter without choices.
pub open spec fn parameter_text(
    kind: ParameterKind,
    name: Seq<char>,
    description: Seq<char>,
    required: bool,
) -> ParameterText {
    ParameterText { kind, name, description, required, choices: Seq::empty() }
}

/// A command without options.
pub open spec fn plain_text(name: Seq<char>, description: Seq<char>) -> CommandText {
    CommandText { name, description, options: Seq::empty() }
}

/// A subcommand without parameters.
pub open spec fn plain_sub(name: Seq<char>, description: Seq<char>) -> SubcommandText {
    SubcommandText { name, description, parameters: Seq::empty() }
}

/// A parameter without choices.
fn parameter(kind: ParameterKind, name: &str, description: &str, required: bool) -> (r:
    ParameterSpec)
    ensures
        r@ == parameter_text(kind, name@, description@, required),
{
    let choices: Vec<ChoiceSpec> = Vec::new();
    proof {
        assert(choices@.map_values(|c: ChoiceSpec| c@) =~= Seq::empty());
    }
    ParameterSpec {
        kind,
        name: name.to_owned(),
        description: description.to_owned(),
        required,
        choices,
    }
}

/// A subcommand without parameters.
fn sub0(name: &str, description: &str) -> (r: SubcommandSpec)
    ensures
        r@ == plain_sub(name@, description@),
{
    let parameters: Vec<ParameterSpec> = Vec::new();
    proof {
        assert(parameters@.map_values(|p: ParameterSpec| p@) =~= Seq::empty());
    }
    SubcommandSpec { name: name.to_owned(), description: description.to_owned(), parameters }
}

/// A subcommand with a parameter.
fn sub1(name: &str, description: &str, a: ParameterSpec) -> (r: SubcommandSpec)
    ensures
        r@ == (SubcommandText { name: name@, description: description@, parameters: seq![a@] }),
{
    let mut parameters: Vec<ParameterSpec> = Vec::new();
    parameters.push(a);
    proof {
        assert(parameters@.map_values(|p: ParameterSpec| p@) =~= seq![a@]);
    }
    SubcommandSpec { name: name.to_owned(), description: description.to_owned(), parameters }
}

/// A subcommand with two parameters.
fn sub2(name: &str, description: &str, a: ParameterSpec, b: ParameterSpec) -> (r: SubcommandSpec)
    ensures
        r@ == (SubcommandText { name: name@, description: description@, parameters: seq![a@, b@] }),
{
    let mut parameters: Vec<ParameterSpec> = Vec::new();
    parameters.push(a);
    parameters.push(b);
    proof {
        assert(parameters@.map_values(|p: ParameterSpec| p@) =~= seq![a@, b@]);
    }
    SubcommandSpec { name: name.to_owned(), description: description.to_owned(), parameters }
}

/// A command without options.
fn command0(name: &str, description: &str) -> (r: CommandSpec)
    ensures
        r@ == plain_text(name@, description@),
{
    let options: Vec<OptionSpec> = Vec::new();
    proof {
        assert(options@.map_values(|o: OptionSpec| o@) =~= Seq::empty());
    }
    CommandSpec { name: name.to_owned(), description: description.to_owned(), options }
}

/// A command with an option.
fn command1(name: &str, description: &str, a: OptionSpec) -> (r: CommandSpec)
    ensures
        r@ == (CommandText { name: name@, description: description@, options: seq![a@] }),
{
    let mut options: Vec<OptionSpec> = Vec::new();
    options.push(a);
    proof {
        assert(options@.map_values(|o: OptionSpec| o@) =~= seq![a@]);
    }
    CommandSpec { name: name.to_owned(), description: description.to_owned(), options }
}

/// A command with two options.
fn command2(name: &str, description: &str, a: OptionSpec, b: OptionSpec) -> (r: CommandSpec)
    ensures
        r@ == (CommandText { name: name@, description: description@, options: seq![a@, b@] }),
{
    let mut options: Vec<OptionSpec> = Vec::new();
    options.push(a);
    options.push(b);
    proof {
        assert(options@.map_values(|o: OptionSpec| o@) =~= seq![a@, b@]);
    }
    CommandSpec { name: name.to_owned(), description: description.to_owned(), options }
}

/// A command with three options.
fn command3(name: &str, description: &str, a: OptionSpec, b: OptionSpec, c: OptionSpec) -> (r:
    CommandSpec)
    ensures
        r@ == (CommandText { name: name@, description: description@, options: seq![a@, b@, c@] }),
{
    let mut options: Vec<OptionSpec> = Vec::new();
    options.push(a);
    options.push(b);
    options.push(c);
    proof {
        assert(options@.map_values(|o: OptionSpec| o@) =~= seq![a@, b@, c@]);
    }
    CommandSpec { name: name.to_owned(), description: description.to_owned(), options }
}

// --------------------------------------------------------------------- /config

/// The subcommands of `/config channel`.
pub open spec fn channel_subcommands() -> Seq<SubcommandText> {
    seq![
        plain_sub("list"@, "Show the current channel allowlist"@),
        SubcommandText {
            name: "add"@,
            description: "Add a channel to the allowlist"@,
            parameters: seq![
                parameter_text(
                    ParameterKind::Channel,
                    "channel"@,
                    "The channel to allow"@,
                    true,
                ),
            ],
        },
        SubcommandText {
            name: "remove"@,
            description: "Remove a channel from the allowlist"@,
            parameters: seq![
                parameter_text(
                    ParameterKind::Channel,
                    "channel"@,
                    "The channel to remove"@,
                    true,
                ),
            ],
        },
        plain_sub("clear"@, "Remove all channel restrictions (bot responds everywhere)"@),
    ]
}

/// `/config`.
pub open spec fn config_text() -> CommandText {
    CommandText {
        name: "config"@,
        description: "Configure bot settings"@,
        options: seq![
            OptionText::Group {
                name: "channel"@,
                description: "Manage which channels the bot responds in (server-wide)"@,
                subcommands: channel_subcommands(),
            },
            OptionText::Subcommand(
                SubcommandText {
                    name: "personality"@,
                    description: "Set or clear your personal bot personality / tone override"@,
                    parameters: seq![
                        parameter_text(
                            ParameterKind::Text,
                            "text"@,
                            "Personality description (omit to clear your override)"@,
                            false,
                        ),
                    ],
                },
            ),
            OptionText::Subcommand(
                SubcommandText {
                    name: "followup"@,
                    description: "Control whether the bot replies without a ping during active conversations"@,
                    parameters: seq![
                        parameter_text(
                            ParameterKind::Boolean,
                            "enabled"@,
                            "Enable or disable follow-up replies"@,
                            true,
                        ),
                        parameter_text(
                            ParameterKind::Integer,
                            "timeout"@,
                            "Seconds to keep the conversation open without a ping (default 300)"@,
                            false,
                        ),
                    ],
                },
            ),
        ],
    }
}

/// The subcommands of `/config channel`.
fn list_channel_subcommands() -> (r: Vec<SubcommandSpec>)
    ensures
        r@.map_values(|s: SubcommandSpec| s@) == channel_subcommands(),
{
    let mut subs: Vec<SubcommandSpec> = Vec::new();
    subs.push(sub0("list", "Show the current channel allowlist"));
    subs.push(
        sub1(
            "add",
            "Add a channel to the allowlist",
            parameter(ParameterKind::Channel, "channel", "The channel to allow", true),
        ),
    );
    subs.push(
        sub1(
            "remove",
            "Remove a channel from the allowlist",
            parameter(ParameterKind::Channel, "channel", "The channel to remove", true),
        ),
    );
    subs.push(sub0("clear", "Remove all channel restrictions (bot responds everywhere)"));
    proof {
        assert(subs@.map_values(|s: SubcommandSpec| s@) =~= channel_subcommands());
    }
    subs
}

/// `/config`.
fn config_command() -> (r: CommandSpec)
    ensures
        r@ == config_text(),
{
    command3(
        "config",
        "Configure bot settings",
        OptionSpec::Group {
            name: "channel".to_owned(),
            description: "Manage which channels the bot responds in (server-wide)".to_owned(),
            subcommands: list_channel_subcommands(),
        },
        OptionSpec::Subcommand(
            sub1(
                "personality",
                "Set or clear your personal bot personality / tone override",
                parameter(
                    ParameterKind::Text,
                    "text",
                    "Personality description (omit to clear your override)",
                    false,
                ),
            ),
        ),
        OptionSpec::Subcommand(
            sub2(
                "followup",
                "Control whether the bot replies without a ping during active conversations",
                parameter(
                    ParameterKind::Boolean,
                    "enabled",
                    "Enable or disable follow-up replies",
                    true,
                ),
                parameter(
                    ParameterKind::Integer,
                    "timeout",
                    "Seconds to keep the conversation open without a ping (default 300)",
                    false,
                ),
            ),
        ),
    )
}

// ----------------------------------------------------- /labs, /effort and /lua

/// A subcommand with a switch.
pub open spec fn switch_text(
    name: Seq<char>,
    description: Seq<char>,
    explained: Seq<char>,
) -> OptionText {
    OptionText::Subcommand(
        SubcommandText {
            name,
            description,
            parameters: seq![parameter_text(ParameterKind::Boolean, "enabled"@, explained, true)],
        },
    )
}

/// A subcommand without parameters, as an option.
pub open spec fn plain_option(name: Seq<char>, description: Seq<char>) -> OptionText {
    OptionText::Subcommand(plain_sub(name, description))
}

/// A subcommand with a switch.
fn switch_option(name: &str, description: &str, explained: &str) -> (r: OptionSpec)
    ensures
        r@ == switch_text(name@, description@, explained@),
{
    OptionSpec::Subcommand(
        sub1(name, description, parameter(ParameterKind::Boolean, "enabled", explained, true)),
    )
}

/// A subcommand without parameters, as an option.
fn sub_option(name: &str, description: &str) -> (r: OptionSpec)
    ensures
        r@ == plain_option(name@, description@),
{
    OptionSpec::Subcommand(sub0(name, description))
}

/// `/labs`.
pub open spec fn labs_text() -> CommandText {
    CommandText {
        name: "labs"@,
        description: "Enable experimental bot features"@,
        options: seq![
            plain_option("list"@, "List experimental features and their status"@),
            switch_text(
                "pagination"@,
                "Toggle paginated LLM responses"@,
                "Enable or disable paginated responses"@,
            ),
        ],
    }
}

/// The choice of a mode.
pub open spec fn mode_choice(mode: ThinkingMode, labels: BudgetLabels) -> ChoiceText {
    ChoiceText {
        label: mode_name(mode) + " ("@ + budget(labels, mode) + ")"@,
        value: mode_name(mode),
    }
}

/// `/effort`.
pub open spec fn effort_text(labels: BudgetLabels) -> CommandText {
    CommandText {
        name: "effort"@,
        description: "Set how much thinking the model does before replying"@,
        options: seq![
            OptionText::Parameter(
                ParameterText {
                    kind: ParameterKind::Text,
                    name: "level"@,
                    description: "Thinking effort level (omit to show the current setting)"@,
                    required: false,
                    choices: seq![
                        mode_choice(ThinkingMode::Low, labels),
                        mode_choice(ThinkingMode::Medium, labels),
                        mode_choice(ThinkingMode::High, labels),
                        mode_choice(ThinkingMode::XHigh, labels),
                        mode_choice(ThinkingMode::Max, labels),
                    ],
                },
            ),
        ],
    }
}

/// `/lua`.
pub open spec fn lua_text() -> CommandText {
    CommandText {
        name: "lua"@,
        description: "Run a sandboxed Lua script (requires the Scripting role)"@,
        options: seq![
            OptionText::Parameter(
                parameter_text(
                    ParameterKind::Text,
                    "script"@,
                    "Lua code to run (a ```lua code block``` is accepted)"@,
                    true,
                ),
            ),
        ],
    }
}

/// The choice of a mode.
fn choice_of(mode: ThinkingMode, labels: &BudgetLabels) -> (r: ChoiceSpec)
    ensures
        r@ == mode_choice(mode, *labels),
{
    ChoiceSpec {
        label: mode.as_str().to_owned().concat(" (").concat(labels.label(mode)).concat(")"),
        value: mode.as_str().to_owned(),
    }
}

/// `/effort`.
fn effort_command(labels: &BudgetLabels) -> (r: CommandSpec)
    ensures
        r@ == effort_text(*labels),
{
    let mut choices: Vec<ChoiceSpec> = Vec::new();
    choices.push(choice_of(ThinkingMode::Low, labels));
    choices.push(choice_of(ThinkingMode::Medium, labels));
    choices.push(choice_of(ThinkingMode::High, labels));
    choices.push(choice_of(ThinkingMode::XHigh, labels));
    choices.push(choice_of(ThinkingMode::Max, labels));
    proof {
        assert(choices@.map_values(|c: ChoiceSpec| c@) =~= seq![
            mode_choice(ThinkingMode::Low, *labels),
            mode_choice(ThinkingMode::Medium, *labels),
            mode_choice(ThinkingMode::High, *labels),
            mode_choice(ThinkingMode::XHigh, *labels),
            mode_choice(ThinkingMode::Max, *labels),
        ]);
    }
    command1(
        "effort",
        "Set how much thinking the model does before replying",
        OptionSpec::Parameter(
            ParameterSpec {
                kind: ParameterKind::Text,
                name: "level".to_owned(),
                description: "Thinking effort level (omit to show the current setting)".to_owned(),
                required: false,
                choices,
            },
        ),
    )
}

// ------------------------------------------------------------- all of the house

/// The commands that show something, or do it, without options.
pub open spec fn plain_commands() -> Seq<CommandText> {
    seq![
        plain_text("help"@, "Show all available commands"@),
        plain_text("commit"@, "Show the bot's running commit hash"@),
        plain_text("model"@, "Show information about the current model"@),
        plain_text("session"@, "Show context and token usage for this session"@),
        plain_text("status"@, "Show your current settings (effort level, follow-up, personality)"@),
        plain_text("new"@, "Start a new conversation and clear the old one"@),
        plain_text("reset"@, "Clear the conversation and start fresh"@),
        plain_text("compact"@, "Summarize the conversation and start a new session"@),
        plain_text("erase_my_data"@, "Permanently delete all your stored data (messages, history, memory, notes)"@),
    ]
}

/// The commands on what is known of a user.
pub open spec fn personal_commands() -> Seq<CommandText> {
    seq![
        CommandText {
            name: "profile"@,
            description: "Show or clear your stored profile information"@,
            options: seq![
                plain_option("show"@, "Show your stored profile information"@),
                plain_option("clear"@, "Clear learned profile data and memory"@),
            ],
        },
        CommandText {
            name: "history"@,
            description: "Show or clear your recent conversation history"@,
            options: seq![
                plain_option("show"@, "Show recent conversation history"@),
                plain_option("clear"@, "Clear your conversation history"@),
            ],
        },
        CommandText {
            name: "privacy"@,
            description: "View or change your privacy settings"@,
            options: seq![
                plain_option("status"@, "Show current privacy settings"@),
                switch_text(
                    "deep_memory"@,
                    "Toggle deep memory"@,
                    "Enable or disable deep memory"@,
                ),
                switch_text(
                    "proactive"@,
                    "Toggle proactive assistance"@,
                    "Enable or disable proactive assistance"@,
                ),
            ],
        },
        CommandText {
            name: "memory"@,
            description: "View or clear the bot's persistent memory about you"@,
            options: seq![
                plain_option("show"@, "Show what the bot currently remembers about you"@),
                plain_option("clear"@, "Clear the bot's memory about you"@),
            ],
        },
    ]
}

/// The commands of the house bot, in the order in which they are registered.
pub open spec fn house_command_texts(labels: BudgetLabels) -> Seq<CommandText> {
    seq![config_text(), labs_text(), effort_text(labels), lua_text()] + plain_commands()
        + personal_commands()
}

/// The commands that show something, or do it, without options.
fn push_plain_commands(commands: &mut Vec<CommandSpec>)
    ensures
        command_texts(final(commands)@) == command_texts(old(commands)@) + plain_commands(),
{
    commands.push(command0("help", "Show all available commands"));
    commands.push(command0("commit", "Show the bot's running commit hash"));
    commands.push(command0("model", "Show information about the current model"));
    commands.push(command0("session", "Show context and token usage for this session"));
    commands.push(command0("status", "Show your current settings (effort level, follow-up, personality)"));
    commands.push(command0("new", "Start a new conversation and clear the old one"));
    commands.push(command0("reset", "Clear the conversation and start fresh"));
    commands.push(command0("compact", "Summarize the conversation and start a new session"));
    commands.push(command0("erase_my_data", "Permanently delete all your stored data (messages, history, memory, notes)"));
    proof {
        assert(command_texts(commands@) =~= command_texts(old(commands)@) + plain_commands());
    }
}

/// The commands on what is known of a user.
fn push_personal_commands(commands: &mut Vec<CommandSpec>)
    ensures
        command_texts(final(commands)@) == command_texts(old(commands)@) + personal_commands(),
{
    commands.push(
        command2(
            "profile",
            "Show or clear your stored profile information",
            sub_option("show", "Show your stored profile information"),
            sub_option("clear", "Clear learned profile data and memory"),
        ),
    );
    commands.push(
        command2(
            "history",
            "Show or clear your recent conversation history",
            sub_option("show", "Show recent conversation history"),
            sub_option("clear", "Clear your conversation history"),
        ),
    );
    commands.push(
        command3(
            "privacy",
            "View or change your privacy settings",
            sub_option("status", "Show current privacy settings"),
            switch_option("deep_memory", "Toggle deep memory", "Enable or disable deep memory"),
            switch_option(
                "proactive",
                "Toggle proactive assistance",
                "Enable or disable proactive assistance",
            ),
        ),
    );
    commands.push(
        command2(
            "memory",
            "View or clear the bot's persistent memory about you",
            sub_option("show", "Show what the bot currently remembers about you"),
            sub_option("clear", "Clear the bot's memory about you"),
        ),
    );
    proof {
        assert(command_texts(commands@) =~= command_texts(old(commands)@) + personal_commands());
    }
}

/// The commands of the house bot, in the order in which they are registered.
pub fn house_commands(labels: &BudgetLabels) -> (r: Vec<CommandSpec>)
    ensures
        command_texts(r@) == house_command_texts(*labels),
{
    let mut commands: Vec<CommandSpec> = Vec::new();
    commands.push(config_command());
    commands.push(
        command2(
            "labs",
            "Enable experimental bot features",
            sub_option("list", "List experimental features and their status"),
            switch_option(
                "pagination",
                "Toggle paginated LLM responses",
                "Enable or disable paginated responses",
            ),
        ),
    );
    commands.push(effort_command(labels));
    commands.push(
        command1(
            "lua",
            "Run a sandboxed Lua script (requires the Scripting role)",
            OptionSpec::Parameter(
                parameter(
                    ParameterKind::Text,
                    "script",
                    "Lua code to run (a ```lua code block``` is accepted)",
                    true,
                ),
            ),
        ),
    );
    proof {
        assert(command_texts(commands@) =~= seq![
            config_text(),
            labs_text(),
            effort_text(*labels),
            lua_text(),
        ]);
    }
    push_plain_commands(&mut commands);
    push_personal_commands(&mut commands);
    commands
}

// ------------------------------------------------------------------- starting

/// The commands that are left to register, and the one that was tried last.
pub struct Registration {
    left: Vec<CommandSpec>,
    tried: Option<String>,
}

/// The commands that are left to register, and the name of the one tried last.
pub struct RegistrationState {
    pub left: Seq<CommandText>,
    pub tried: Option<Seq<char>>,
}

impl View for Registration {
    type V = RegistrationState;

    closed spec fn view(&self) -> RegistrationState {
        RegistrationState { left: command_texts(self.left@), tried: opt_text(self.tried) }
    }
}

/// What is to be reported of the command before, and the command to register now.
#[derive(Debug, PartialEq, Eq)]
pub struct RegistrationStep {
    pub error: Option<String>,
    pub command: Option<CommandSpec>,
}

/// Is a command named in the report of its failure?
pub open spec fn named_in_report(name: Seq<char>) -> bool {
    name == "config"@ || name == "labs"@ || name == "effort"@ || name == "lua"@
}

/// What is reported where the command tried last was not registered.
pub open spec fn registration_error(tried: Option<Seq<char>>, error: Seq<char>) -> Seq<char> {
    match tried {
        Some(name) if named_in_report(name) => "Failed to register /"@ + name
            + " slash command: "@ + error,
        _ => "Failed to register slash command: "@ + error,
    }
}

/// The command to register now, and what is left after it. How the one before went
/// does not matter.
pub open spec fn registration_step(state: RegistrationState, before: Result<(), Seq<char>>) -> (
    Option<CommandText>,
    RegistrationState,
) {
    if state.left.len() == 0 {
        (None, state)
    } else {
        (
            Some(state.left[0]),
            RegistrationState { left: state.left.drop_first(), tried: Some(state.left[0].name) },
        )
    }
}

/// What is reported where the command tried last was not registered.
fn report_failure(tried: &Option<String>, error: &str) -> (r: String)
    ensures
        r@ == registration_error(opt_text(*tried), error@),
{
    if let Some(name) = tried {
        let name = name.as_str();
        if same_text(name, "config") || same_text(name, "labs") || same_text(name, "effort")
            || same_text(name, "lua") {
            return "Failed to register /".to_owned().concat(name).concat(
                " slash command: ",
            ).concat(error);
        }
    }
    "Failed to register slash command: ".to_owned().concat(error)
}

impl Registration {
    /// The next step, given how the one before went.
    pub fn step(&mut self, before: Result<(), String>) -> (r: RegistrationStep)
        ensures
            opt_text(r.error) == (match before {
                Ok(_) => None,
                Err(error) => Some(registration_error(old(self)@.tried, error@)),
            }),
            ((match r.command {
                Some(command) => Some(command@),
                None => None,
            }), final(self)@) == registration_step(
                old(self)@,
                (match before {
                    Ok(_) => Ok(()),
                    Err(error) => Err(error@),
                }),
            ),
    {
        let error = match before {
            Ok(_) => None,
            Err(error) => Some(report_failure(&self.tried, error.as_str())),
        };
        let ghost left = self.left@;
        if self.left.len() == 0 {
            return RegistrationStep { error, command: None };
        }
        let command = self.left.remove(0);
        self.tried = Some(command.name.as_str().to_owned());
        proof {
            assert(command_texts(left)[0] == command@);
            assert(command_texts(self.left@) =~= command_texts(left).drop_first());
        }
        RegistrationStep { error, command: Some(command) }
    }
}

/// Whether the reminders are looked after.
pub struct Startup {
    reminders: bool,
}

impl View for Startup {
    type V = bool;

    closed spec fn view(&self) -> bool {
        self.reminders
    }
}

/// What is done when Discord is ready.
pub struct ReadyPlan {
    pub registration: Registration,
    pub start_reminders: bool,
}

impl Startup {
    /// Nothing was started.
    pub fn new() -> (r: Self)
        ensures
            !r@,
    {
        Startup { reminders: false }
    }

    /// What is done when Discord is ready, which it may be many times: all commands
    /// are registered each time, and the reminders are looked after from the first
    /// time on.
    pub fn ready(&mut self, labels: &BudgetLabels) -> (r: ReadyPlan)
        ensures
            r.registration@ == (RegistrationState {
                left: house_command_texts(*labels),
                tried: None,
            }),
            (r.start_reminders, final(self)@) == reminders_step(old(self)@),
    {
        let start_reminders = !self.reminders;
        self.reminders = true;
        ReadyPlan {
            registration: Registration { left: house_commands(labels), tried: None },
            start_reminders,
        }
    }
}

/// Are the reminders started now, and were they then?
pub open spec fn reminders_step(started: bool) -> (bool, bool) {
    (!started, true)
}

/// How often the reminders are started when Discord is ready that many times.
pub open spec fn reminder_starts(started: bool, times: nat) -> nat
    decreases times,
{
    if times == 0 {
        0
    } else {
        let (starts, after) = reminders_step(started);
        let later = reminder_starts(after, (times - 1) as nat);
        if starts {
            later + 1
        } else {
            later
        }
    }
}

/// However often Discord is ready, the reminders are started once.
pub proof fn law_reminders_are_started_once(times: nat)
    requires
        times > 0,
    ensures
        reminder_starts(false, times) == 1,
{
    lemma_no_second_start((times - 1) as nat);
}

proof fn lemma_no_second_start(times: nat)
    ensures
        reminder_starts(true, times) == 0,
    decreases times,
{
    if times > 0 {
        lemma_no_second_start((times - 1) as nat);
    }
}

/// The commands that are handed out for registration, one for each outcome of
/// the one before.
pub open spec fn handed_out(
    state: RegistrationState,
    outcomes: Seq<Result<(), Seq<char>>>,
) -> Seq<Option<CommandText>>
    decreases outcomes.len(),
{
    if outcomes.len() == 0 {
        Seq::empty()
    } else {
        let (now, after) = registration_step(state, outcomes[0]);
        seq![now] + handed_out(after, outcomes.drop_first())
    }
}

/// Each time Discord is ready, every command is registered, one after the other,
/// whichever of them fail.
pub proof fn law_a_failed_registration_stops_nothing(
    state: RegistrationState,
    outcomes: Seq<Result<(), Seq<char>>>,
)
    requires
        outcomes.len() == state.left.len() + 1,
    ensures
        handed_out(state, outcomes) == state.left.map_values(|c: CommandText| Some(c)).push(None),
    decreases state.left.len(),
{
    let some = |c: CommandText| Some(c);
    let after = registration_step(state, outcomes[0]).1;
    if state.left.len() == 0 {
        assert(handed_out(after, outcomes.drop_first()) =~= Seq::empty());
        assert(handed_out(state, outcomes) =~= state.left.map_values(some).push(None));
    } else {
        law_a_failed_registration_stops_nothing(after, outcomes.drop_first());
        assert(handed_out(state, outcomes) =~= state.left.map_values(some).push(None));
    }
}

/// A failure is reported of the command that was tried, by name for the first four
/// commands of the house bot and for no other.
pub proof fn law_the_first_commands_are_named_in_reports(labels: BudgetLabels, i: int)
    requires
        0 <= i < house_command_texts(labels).len(),
    ensures
        named_in_report(house_command_texts(labels)[i].name) <==> i < 4,
{
    reveal_strlit("config");
    reveal_strlit("labs");
    reveal_strlit("effort");
    reveal_strlit("lua");
    reveal_strlit("help");
    reveal_strlit("commit");
    reveal_strlit("model");
    reveal_strlit("session");
    reveal_strlit("status");
    reveal_strlit("new");
    reveal_strlit("reset");
    reveal_strlit("compact");
    reveal_strlit("erase_my_data");
    reveal_strlit("profile");
    reveal_strlit("history");
    reveal_strlit("privacy");
    reveal_strlit("memory");
    assert("config"@.len() == 6 && "labs"@.len() == 4 && "effort"@.len() == 6 && "lua"@.len() == 3);
    assert("commit"@.len() == 6 && "status"@.len() == 6 && "memory"@.len() == 6);
    assert("help"@.len() == 4 && "new"@.len() == 3);
    assert("model"@.len() == 5 && "session"@.len() == 7 && "reset"@.len() == 5 && "compact"@.len()
        == 7 && "erase_my_data"@.len() == 13 && "profile"@.len() == 7 && "history"@.len() == 7
        && "privacy"@.len() == 7);
    assert("config"@[2] == 'n' && "commit"@[2] == 'm');
    assert("config"@[0] == 'c' && "effort"@[0] == 'e' && "commit"@[0] == 'c');
    assert("status"@[0] == 's' && "memory"@[0] == 'm');
    assert("labs"@[0] == 'l' && "help"@[0] == 'h');
    assert("lua"@[0] == 'l' && "new"@[0] == 'n');
    lemma_house_names(labels);
    assert(house_command_texts(labels)[i].name == house_names()[i]);
}

// ---------------------------------------------------------------- deployment

/// The commands of the deployment bot.
pub open spec fn deployment_command_texts() -> Seq<CommandText> {
    seq![
        plain_text("rollback"@, "Roll back housebot to the previous deployed image"@),
        plain_text("update"@, "Redeploy the latest commit from the configured branch"@),
        CommandText {
            name: "deploy"@,
            description: "Deploy a previously built commit"@,
            options: seq![
                OptionText::Parameter(
                    parameter_text(ParameterKind::Text, "sha"@, "Git commit SHA"@, false),
                ),
            ],
        },
    ]
}

/// The commands of the deployment bot.
pub fn deployment_commands() -> (r: Vec<CommandSpec>)
    ensures
        command_texts(r@) == deployment_command_texts(),
{
    let mut commands: Vec<CommandSpec> = Vec::new();
    commands.push(command0("rollback", "Roll back housebot to the previous deployed image"));
    commands.push(command0("update", "Redeploy the latest commit from the configured branch"));
    commands.push(
        command1(
            "deploy",
            "Deploy a previously built commit",
            OptionSpec::Parameter(
                parameter(ParameterKind::Text, "sha", "Git commit SHA", false),
            ),
        ),
    );
    proof {
        assert(command_texts(commands@) =~= deployment_command_texts());
    }
    commands
}

// ----------------------------------------------------------------------- laws

/// The names of the commands of the house bot.
pub open spec fn house_names() -> Seq<Seq<char>> {
    seq![
        "config"@,
        "labs"@,
        "effort"@,
        "lua"@,
        "help"@,
        "commit"@,
        "model"@,
        "session"@,
        "status"@,
        "new"@,
        "reset"@,
        "compact"@,
        "erase_my_data"@,
        "profile"@,
        "history"@,
        "privacy"@,
        "memory"@,
    ]
}

proof fn lemma_house_names(labels: BudgetLabels)
    ensures
        house_command_texts(labels).len() == house_names().len(),
        forall|i: int|
            0 <= i < house_names().len() ==> (#[trigger] house_command_texts(labels)[i]).name
                == house_names()[i],
{
    assert forall|i: int| 0 <= i < house_names().len() implies (#[trigger] house_command_texts(
        labels,
    )[i]).name == house_names()[i] by {
        let first = seq![config_text(), labs_text(), effort_text(labels), lua_text()];
        if i < 4 {
            assert(house_command_texts(labels)[i] == first[i]);
        } else if i < 13 {
            assert(house_command_texts(labels)[i] == plain_commands()[i - 4]);
        } else {
            assert(house_command_texts(labels)[i] == personal_commands()[i - 13]);
        }
    }
}

/// The commands that the house bot registers, by name.
pub proof fn law_registered_names(labels: BudgetLabels)
    ensures
        house_command_texts(labels).map_values(|c: CommandText| c.name) == house_names(),
        house_names().len() == 17,
        house_names() == seq![
            "config"@,
            "labs"@,
            "effort"@,
            "lua"@,
            "help"@,
            "commit"@,
            "model"@,
            "session"@,
            "status"@,
            "new"@,
            "reset"@,
            "compact"@,
            "erase_my_data"@,
            "profile"@,
            "history"@,
            "privacy"@,
            "memory"@,
        ],
{
    lemma_house_names(labels);
    assert(house_command_texts(labels).map_values(|c: CommandText| c.name) =~= house_names());
}

/// Every command that the house bot registers is one that it answers.
pub proof fn law_registered_commands_are_answered(labels: BudgetLabels, i: int)
    requires
        0 <= i < house_command_texts(labels).len(),
    ensures
        command_named(house_command_texts(labels)[i].name) is Some,
{
    lemma_house_names(labels);
}

/// Is a command registered under a name that stands for it?
pub open spec fn registered(labels: BudgetLabels, command: SlashCommand) -> bool {
    exists|i: int|
        0 <= i < house_command_texts(labels).len() && command_named(
            (#[trigger] house_command_texts(labels)[i]).name,
        ) == Some(command)
}

/// Every command that the house bot answers is one that it registers.
pub proof fn law_answered_commands_are_registered(labels: BudgetLabels, command: SlashCommand)
    ensures
        registered(labels, command),
{
    reveal_strlit("config");
    reveal_strlit("labs");
    reveal_strlit("effort");
    reveal_strlit("lua");
    reveal_strlit("help");
    reveal_strlit("commit");
    reveal_strlit("model");
    reveal_strlit("session");
    reveal_strlit("status");
    reveal_strlit("new");
    reveal_strlit("reset");
    reveal_strlit("compact");
    reveal_strlit("erase_my_data");
    reveal_strlit("profile");
    reveal_strlit("history");
    reveal_strlit("privacy");
    reveal_strlit("memory");
    assert("config"@.len() == 6 && "labs"@.len() == 4 && "effort"@.len() == 6
        && "lua"@.len() == 3 && "help"@.len() == 4 && "commit"@.len() == 6
        && "model"@.len() == 5 && "session"@.len() == 7 && "status"@.len() == 6
        && "new"@.len() == 3 && "reset"@.len() == 5 && "compact"@.len() == 7
        && "erase_my_data"@.len() == 13 && "profile"@.len() == 7 && "history"@.len() == 7
        && "privacy"@.len() == 7 && "memory"@.len() == 6);
    assert("config"@[0] == 'c' && "config"@[2] == 'n');
    assert("commit"@[0] == 'c' && "commit"@[2] == 'm');
    assert("effort"@[0] == 'e' && "status"@[0] == 's' && "memory"@[0] == 'm');
    assert("compact"@[0] == 'c' && "session"@[0] == 's' && "history"@[0] == 'h');
    assert("profile"@[0] == 'p' && "profile"@[2] == 'o');
    assert("privacy"@[0] == 'p' && "privacy"@[2] == 'i');
    assert("model"@[0] == 'm' && "reset"@[0] == 'r');
    assert("labs"@[0] == 'l' && "help"@[0] == 'h');
    assert("lua"@[0] == 'l' && "new"@[0] == 'n');
    lemma_house_names(labels);
    let i: int = match command {
        SlashCommand::Config => 0,
        SlashCommand::Labs => 1,
        SlashCommand::Effort => 2,
        SlashCommand::Lua => 3,
        SlashCommand::Help => 4,
        SlashCommand::Commit => 5,
        SlashCommand::Model => 6,
        SlashCommand::Session => 7,
        SlashCommand::Status => 8,
        SlashCommand::New => 9,
        SlashCommand::Compact => 11,
        SlashCommand::EraseData => 12,
        SlashCommand::Profile => 13,
        SlashCommand::History => 14,
        SlashCommand::Privacy => 15,
        SlashCommand::Memory => 16,
    };
    assert(command_named(house_names()[i]) == Some(command));
    assert(house_command_texts(labels)[i].name == house_names()[i]);
}

/// The effort levels that can be picked are those that can be set.
pub proof fn law_offered_levels_can_be_set(labels: BudgetLabels, mode: ThinkingMode)
    ensures
        crate::user_config::mode_named(mode_choice(mode, labels).value) == Some(mode),
{
    crate::user_config::law_mode_is_set_by_its_name(mode);
}

/// The commands that the deployment bot registers are those that it knows for its
/// own.
pub proof fn law_deployment_commands_are_its_own(i: int)
    requires
        0 <= i < deployment_command_texts().len(),
    ensures
        names_deployment_command(deployment_command_texts()[i].name),
{
}

/// What `/config` takes: for channels a list, a channel to add, a channel to remove,
/// and clearing; for the personality a text, or none; for follow-ups whether they are
/// wanted and, if so wished, for how long.
pub proof fn law_what_config_takes(labels: BudgetLabels)
    ensures
        ({
            let takes = |p: ParameterText, kind: ParameterKind, name: Seq<char>, required: bool|
                p.kind == kind && p.name == name && p.required == required;
            let command = house_command_texts(labels)[0];
            &&& command.name == "config"@
            &&& command.options.len() == 3
            &&& command.options[0] matches OptionText::Group { name, subcommands, .. } && name
                == "channel"@ && subcommands.len() == 4 && subcommands[0].name == "list"@
                && subcommands[0].parameters.len() == 0 && subcommands[1].name == "add"@
                && subcommands[1].parameters.len() == 1
                && takes(subcommands[1].parameters[0], ParameterKind::Channel, "channel"@, true)
                && subcommands[2].name == "remove"@ && subcommands[2].parameters.len() == 1
                && takes(subcommands[2].parameters[0], ParameterKind::Channel, "channel"@, true)
                && subcommands[3].name == "clear"@ && subcommands[3].parameters.len() == 0
            &&& command.options[1] matches OptionText::Subcommand(sub) && sub.name
                == "personality"@ && sub.parameters.len() == 1
                && takes(sub.parameters[0], ParameterKind::Text, "text"@, false)
            &&& command.options[2] matches OptionText::Subcommand(sub) && sub.name == "followup"@
                && sub.parameters.len() == 2
                && takes(sub.parameters[0], ParameterKind::Boolean, "enabled"@, true)
                && takes(sub.parameters[1], ParameterKind::Integer, "timeout"@, false)
        }),
{
    assert(house_command_texts(labels)[0] == config_text());
}

/// What the other commands with parameters take: `/labs` a switch for its feature,
/// `/effort` one of the five modes or none, `/lua` a script, and `/privacy` a switch
/// for each of its settings.
pub proof fn law_what_switches_and_scripts_take(labels: BudgetLabels)
    ensures
        ({
            let takes = |p: ParameterText, kind: ParameterKind, name: Seq<char>, required: bool|
                p.kind == kind && p.name == name && p.required == required;
            let labs = house_command_texts(labels)[1];
            let effort = house_command_texts(labels)[2];
            let lua = house_command_texts(labels)[3];
            let privacy = house_command_texts(labels)[15];
            &&& labs.name == "labs"@ && labs.options.len() == 2
            &&& labs.options[0] matches OptionText::Subcommand(sub) && sub.name == "list"@
                && sub.parameters.len() == 0
            &&& labs.options[1] matches OptionText::Subcommand(sub) && sub.name == "pagination"@
                && sub.parameters.len() == 1
                && takes(sub.parameters[0], ParameterKind::Boolean, "enabled"@, true)
            &&& effort.name == "effort"@ && effort.options.len() == 1
            &&& effort.options[0] matches OptionText::Parameter(level)
                && takes(level, ParameterKind::Text, "level"@, false) && level.choices.len() == 5
            &&& lua.name == "lua"@ && lua.options.len() == 1
            &&& lua.options[0] matches OptionText::Parameter(script)
                && takes(script, ParameterKind::Text, "script"@, true) && script.choices.len() == 0
            &&& privacy.name == "privacy"@ && privacy.options.len() == 3
            &&& privacy.options[0] matches OptionText::Subcommand(sub) && sub.name == "status"@
                && sub.parameters.len() == 0
            &&& privacy.options[1] matches OptionText::Subcommand(sub) && sub.name
                == "deep_memory"@ && sub.description == "Toggle deep memory"@
                && sub.parameters.len() == 1
                && takes(sub.parameters[0], ParameterKind::Boolean, "enabled"@, true)
            &&& privacy.options[2] matches OptionText::Subcommand(sub) && sub.name == "proactive"@
                && sub.description == "Toggle proactive assistance"@ && sub.parameters.len() == 1
                && takes(sub.parameters[0], ParameterKind::Boolean, "enabled"@, true)
        }),
{
    let first = seq![config_text(), labs_text(), effort_text(labels), lua_text()];
    assert(house_command_texts(labels)[1] == first[1]);
    assert(house_command_texts(labels)[2] == first[2]);
    assert(house_command_texts(labels)[3] == first[3]);
    assert(house_command_texts(labels)[15] == personal_commands()[2]);
}

/// Each of the five modes can be picked, in order, under its name and what it allows,
/// and picking it sets it.
pub proof fn law_each_mode_can_be_picked(labels: BudgetLabels)
    ensures
        house_command_texts(labels)[2].options[0] matches OptionText::Parameter(level) && {
            let modes = seq![
                ThinkingMode::Low,
                ThinkingMode::Medium,
                ThinkingMode::High,
                ThinkingMode::XHigh,
                ThinkingMode::Max,
            ];
            forall|i: int|
                0 <= i < 5 ==> (#[trigger] level.choices[i]).value == mode_name(modes[i])
                    && level.choices[i].label == mode_name(modes[i]) + " ("@ + budget(
                    labels,
                    modes[i],
                ) + ")"@
        },
{
    let first = seq![config_text(), labs_text(), effort_text(labels), lua_text()];
    assert(house_command_texts(labels)[2] == first[2]);
}

/// The commands that show something, or do it, take nothing; `/profile`, `/history`
/// and `/memory` are shown or cleared.
pub proof fn law_what_plain_commands_take(labels: BudgetLabels, i: int)
    ensures
        4 <= i < 13 ==> house_command_texts(labels)[i].options.len() == 0,
        i == 13 || i == 14 || i == 16 ==> {
            let options = house_command_texts(labels)[i].options;
            &&& options.len() == 2
            &&& options[0] matches OptionText::Subcommand(sub) && sub.name == "show"@
                && sub.parameters.len() == 0
            &&& options[1] matches OptionText::Subcommand(sub) && sub.name == "clear"@
                && sub.parameters.len() == 0
        },
{
    if 4 <= i < 13 {
        assert(house_command_texts(labels)[i] == plain_commands()[i - 4]);
    } else if i == 13 || i == 14 || i == 16 {
        assert(house_command_texts(labels)[i] == personal_commands()[i - 13]);
    }
}

/// What each command of the house bot is said to do.
pub proof fn law_commands_are_described(labels: BudgetLabels)
    ensures
        house_command_texts(labels).map_values(|c: CommandText| c.description) == seq![
            "Configure bot settings"@,
            "Enable experimental bot features"@,
            "Set how much thinking the model does before replying"@,
            "Run a sandboxed Lua script (requires the Scripting role)"@,
            "Show all available commands"@,
            "Show the bot's running commit hash"@,
            "Show information about the current model"@,
            "Show context and token usage for this session"@,
            "Show your current settings (effort level, follow-up, personality)"@,
            "Start a new conversation and clear the old one"@,
            "Clear the conversation and start fresh"@,
            "Summarize the conversation and start a new session"@,
            "Permanently delete all your stored data (messages, history, memory, notes)"@,
            "Show or clear your stored profile information"@,
            "Show or clear your recent conversation history"@,
            "View or change your privacy settings"@,
            "View or clear the bot's persistent memory about you"@,
        ],
{
    let all = house_command_texts(labels);
    let first = seq![config_text(), labs_text(), effort_text(labels), lua_text()];
    assert(all =~= first + plain_commands() + personal_commands());
    assert(all.map_values(|c: CommandText| c.description) =~= seq![
        "Configure bot settings"@,
        "Enable experimental bot features"@,
        "Set how much thinking the model does before replying"@,
        "Run a sandboxed Lua script (requires the Scripting role)"@,
        "Show all available commands"@,
        "Show the bot's running commit hash"@,
        "Show information about the current model"@,
        "Show context and token usage for this session"@,
        "Show your current settings (effort level, follow-up, personality)"@,
        "Start a new conversation and clear the old one"@,
        "Clear the conversation and start fresh"@,
        "Summarize the conversation and start a new session"@,
        "Permanently delete all your stored data (messages, history, memory, notes)"@,
        "Show or clear your stored profile information"@,
        "Show or clear your recent conversation history"@,
        "View or change your privacy settings"@,
        "View or clear the bot's persistent memory about you"@,
    ]);
}

/// A command that failed to register is reported with the error: the first four by
/// their names, the others without.
pub proof fn law_reports_hold_the_error(name: Seq<char>, error: Seq<char>)
    ensures
        name == "config"@ || name == "labs"@ || name == "effort"@ || name == "lua"@
            ==> registration_error(Some(name), error) == "Failed to register /"@ + name
            + " slash command: "@ + error,
        !(name == "config"@ || name == "labs"@ || name == "effort"@ || name == "lua"@)
            ==> registration_error(Some(name), error) == "Failed to register slash command: "@
            + error,
        registration_error(None, error) == "Failed to register slash command: "@ + error,
{
}

/// The deployment bot registers a rollback and an update, which take nothing, and a
/// deployment, which takes the hash of a commit, or none.
pub proof fn law_what_deployment_commands_take()
    ensures
        ({
            let takes = |p: ParameterText, kind: ParameterKind, name: Seq<char>, required: bool|
                p.kind == kind && p.name == name && p.required == required;
            let commands = deployment_command_texts();
            &&& commands.len() == 3
            &&& commands[0].description == "Roll back housebot to the previous deployed image"@
            &&& commands[1].description == "Redeploy the latest commit from the configured branch"@
            &&& commands[2].description == "Deploy a previously built commit"@
            &&& commands[0].name == "rollback"@ && commands[0].options.len() == 0
            &&& commands[1].name == "update"@ && commands[1].options.len() == 0
            &&& commands[2].name == "deploy"@ && commands[2].options.len() == 1
            &&& commands[2].options[0] matches OptionText::Parameter(sha)
                && takes(sha, ParameterKind::Text, "sha"@, false)
        }),
{
}

/// A command is what its fields say, option by option.
pub proof fn law_commands_are_the_fields(command: CommandSpec, p: ParameterSpec, s: SubcommandSpec)
    ensures
        command@.name == command.name@ && command@.description == command.description@,
        command@.options.len() == command.options@.len(),
        p@.kind == p.kind && p@.name == p.name@ && p@.description == p.description@ && p@.required
            == p.required && p@.choices.len() == p.choices@.len(),
        s@.name == s.name@ && s@.description == s.description@ && s@.parameters.len()
            == s.parameters@.len(),
{
}

/// Commands are taken as what they hold, in order; so are their options, choices and
/// parameters.
pub proof fn law_commands_are_what_they_hold(
    commands: Seq<CommandSpec>,
    p: ParameterSpec,
    s: SubcommandSpec,
    option: OptionSpec,
    i: int,
)
    ensures
        command_texts(commands).len() == commands.len(),
        0 <= i < commands.len() ==> command_texts(commands)[i] == commands[i]@,
        0 <= i < commands.len() ==> forall|k: int|
            0 <= k < commands[i].options@.len() ==> #[trigger] commands[i]@.options[k]
                == commands[i].options@[k]@,
        0 <= i < p.choices@.len() ==> p@.choices[i].label == p.choices@[i].label@
            && p@.choices[i].value == p.choices@[i].value@,
        0 <= i < s.parameters@.len() ==> s@.parameters[i] == s.parameters@[i]@,
        option matches OptionSpec::Parameter(q) ==> option@ == OptionText::Parameter(q@),
        option matches OptionSpec::Subcommand(t) ==> option@ == OptionText::Subcommand(t@),
        option matches OptionSpec::Group { name, description, subcommands } ==> (
        option@ matches OptionText::Group { name: called, description: told, subcommands: subs }
            && called == name@ && told == description@ && subs.len() == subcommands@.len() && (0
            <= i < subcommands@.len() ==> subs[i] == subcommands@[i]@)),
{
}

/// A command is handed out and then counts as the one tried last, whatever became of
/// the one before; at the end nothing is handed out.
pub proof fn law_what_is_handed_out_was_tried(
    state: RegistrationState,
    before: Result<(), Seq<char>>,
)
    ensures
        registration_step(state, before).0 matches Some(command) ==> registration_step(
            state,
            before,
        ).1.tried == Some(command.name) && command == state.left[0],
        registration_step(state, before).0 is None <==> state.left.len() == 0,
        registration_step(state, before).0 is Some ==> registration_step(state, before).1.left
            == state.left.drop_first(),
{
}

/// What each subcommand and parameter is said to do.
pub proof fn law_options_are_described(labels: BudgetLabels)
    ensures
        house_command_texts(labels)[0].options[0] matches OptionText::Group {
            description,
            subcommands,
            ..
        } && description == "Manage which channels the bot responds in (server-wide)"@
            && subcommands.map_values(|s: SubcommandText| s.description) == seq![
            "Show the current channel allowlist"@,
            "Add a channel to the allowlist"@,
            "Remove a channel from the allowlist"@,
            "Remove all channel restrictions (bot responds everywhere)"@,
        ] && subcommands[1].parameters[0].description == "The channel to allow"@
            && subcommands[2].parameters[0].description == "The channel to remove"@,
        house_command_texts(labels)[0].options[1] matches OptionText::Subcommand(sub)
            && sub.description == "Set or clear your personal bot personality / tone override"@
            && sub.parameters[0].description
            == "Personality description (omit to clear your override)"@,
        house_command_texts(labels)[0].options[2] matches OptionText::Subcommand(sub)
            && sub.description
            == "Control whether the bot replies without a ping during active conversations"@
            && sub.parameters[0].description == "Enable or disable follow-up replies"@
            && sub.parameters[1].description
            == "Seconds to keep the conversation open without a ping (default 300)"@,
        house_command_texts(labels)[1].options[0] matches OptionText::Subcommand(sub)
            && sub.description == "List experimental features and their status"@,
        house_command_texts(labels)[1].options[1] matches OptionText::Subcommand(sub)
            && sub.description == "Toggle paginated LLM responses"@
            && sub.parameters[0].description == "Enable or disable paginated responses"@,
        house_command_texts(labels)[2].options[0] matches OptionText::Parameter(level)
            && level.description == "Thinking effort level (omit to show the current setting)"@,
        house_command_texts(labels)[3].options[0] matches OptionText::Parameter(script)
            && script.description == "Lua code to run (a ```lua code block``` is accepted)"@,
{
    let first = seq![config_text(), labs_text(), effort_text(labels), lua_text()];
    assert(house_command_texts(labels)[0] == first[0]);
    assert(house_command_texts(labels)[1] == first[1]);
    assert(house_command_texts(labels)[2] == first[2]);
    assert(house_command_texts(labels)[3] == first[3]);
    assert(channel_subcommands().map_values(|s: SubcommandText| s.description) =~= seq![
        "Show the current channel allowlist"@,
        "Add a channel to the allowlist"@,
        "Remove a channel from the allowlist"@,
        "Remove all channel restrictions (bot responds everywhere)"@,
    ]);
}

/// What the subcommands on what is known of a user are said to do.
pub proof fn law_personal_options_are_described(labels: BudgetLabels)
    ensures
        ({
            let told = |i: int, k: int|
                match house_command_texts(labels)[i].options[k] {
                    OptionText::Subcommand(sub) => sub.description,
                    _ => Seq::empty(),
                };
            &&& told(13, 0) == "Show your stored profile information"@
            &&& told(13, 1) == "Clear learned profile data and memory"@
            &&& told(14, 0) == "Show recent conversation history"@
            &&& told(14, 1) == "Clear your conversation history"@
            &&& told(15, 0) == "Show current privacy settings"@
            &&& told(16, 0) == "Show what the bot currently remembers about you"@
            &&& told(16, 1) == "Clear the bot's memory about you"@
        }),
{
    assert(house_command_texts(labels)[13] == personal_commands()[0]);
    assert(house_command_texts(labels)[14] == personal_commands()[1]);
    assert(house_command_texts(labels)[15] == personal_commands()[2]);
    assert(house_command_texts(labels)[16] == personal_commands()[3]);
}

} // verus!
