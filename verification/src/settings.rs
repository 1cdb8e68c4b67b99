//! The commands that show and change settings.
use crate::bridge::{debug_text, quote};
use crate::options::{
    boolean_option, channel_option, find_boolean, find_channel, find_integer, find_text, first_name,
    integer_option, law_the_first_option_of_a_name_counts, subcommand, text_option, CommandOption,
    OptionValue,
};
use crate::text::{
    begins, byte_len, byte_size, decimal, ends, has_text, join, joined,
    law_joined_texts_hold_each_part, law_last_pieces_end_a_text, law_nothing_else_is_replaced,
    law_parts_are_found, law_parts_of_parts_are_found, law_texts_go_on, law_the_first_is_replaced,
    lemma_joined_push, no_texts, occurs_at, push_text, replace, replaced, same_text, texts,
    to_decimal, trim, trimmed,
};
use crate::user_config::{
    ascending, budget, mode_name, mode_named, BudgetLabels, ServerConfig, ThinkingMode, UserConfig,
    UserSettings,
};
use vstd::prelude::*;

verus! {

// --------------------------------------------------------------------- plans

/// What is to be done for a command: to reply, or to store changed settings and
/// then reply by whether that worked.
#[derive(Debug, PartialEq, Eq)]
pub enum SettingsPlan {
    Reply(String),
    SaveUser { config: UserConfig, done: String, failed: &'static str },
    SaveServer { server: ServerConfig, done: String, failed: &'static str },
}

/// A plan as values.
pub enum Plan {
    Reply(Seq<char>),
    SaveUser { settings: UserSettings, done: Seq<char>, failed: Seq<char> },
    SaveServer { channels: Set<u64>, done: Seq<char>, failed: Seq<char> },
}

impl View for SettingsPlan {
    type V = Plan;

    open spec fn view(&self) -> Plan {
        match *self {
            SettingsPlan::Reply(text) => Plan::Reply(text@),
            SettingsPlan::SaveUser { config, done, failed } => Plan::SaveUser {
                settings: config@,
                done: done@,
                failed: failed@,
            },
            SettingsPlan::SaveServer { server, done, failed } => Plan::SaveServer {
                channels: server@.to_set(),
                done: done@,
                failed: failed@,
            },
        }
    }
}

impl SettingsPlan {
    /// A server's channels are stored in order, each once.
    pub open spec fn well_formed(&self) -> bool {
        self matches SettingsPlan::SaveServer { server, .. } ==> server.well_formed()
    }

    /// What is replied, given whether the settings could be stored.
    pub fn reply(self, saved: bool) -> (r: String)
        ensures
            r@ == (match self@ {
                Plan::Reply(text) => text,
                Plan::SaveUser { done, failed, .. } => if saved {
                    done
                } else {
                    failed
                },
                Plan::SaveServer { done, failed, .. } => if saved {
                    done
                } else {
                    failed
                },
            }),
    {
        match self {
            SettingsPlan::Reply(text) => text,
            SettingsPlan::SaveUser { done, failed, .. } => if saved {
                done
            } else {
                failed.to_owned()
            },
            SettingsPlan::SaveServer { done, failed, .. } => if saved {
                done
            } else {
                failed.to_owned()
            },
        }
    }
}

pub const SAVE_FAILED: &'static str = "Error: failed to save config.";

pub const LABS_SAVE_FAILED: &'static str = "Error: failed to save labs configuration.";

pub const ODD_OPTION: &'static str = "Unexpected option structure.";

pub const ASK_ENABLED: &'static str = "Please specify `enabled`.";

/// A reply without a change.
fn say(text: &str) -> (r: SettingsPlan)
    ensures
        r@ == Plan::Reply(text@),
        r.well_formed(),
{
    SettingsPlan::Reply(text.to_owned())
}

/// "enabled" or "disabled".
pub open spec fn on_off(enabled: bool) -> Seq<char> {
    if enabled {
        "enabled"@
    } else {
        "disabled"@
    }
}

/// "enabled" or "disabled".
fn switch_name(enabled: bool) -> (r: &'static str)
    ensures
        r@ == on_off(enabled),
{
    if enabled {
        "enabled"
    } else {
        "disabled"
    }
}

/// A text as a quotation.
pub open spec fn quotation(text: Seq<char>) -> Seq<char> {
    "> "@ + replaced(text, "\n"@, "\n> "@)
}

/// A text as a quotation.
fn quotation_of(text: &str) -> (r: String)
    ensures
        r@ == quotation(text@),
{
    proof {
        reveal_strlit("\n");
    }
    let body = replace(text, "\n", "\n> ");
    "> ".to_owned().concat(body.as_str())
}

// ------------------------------------------------------------------ channels

/// How a channel is mentioned.
pub open spec fn channel_tag(id: u64) -> Seq<char> {
    "<#"@ + decimal(id as nat) + ">"@
}

/// How channels are mentioned.
pub open spec fn channel_tags(ids: Seq<u64>) -> Seq<Seq<char>> {
    ids.map_values(|id: u64| channel_tag(id))
}

/// How a channel is mentioned.
pub fn mention_channel(id: u64) -> (r: String)
    ensures
        r@ == channel_tag(id),
{
    let number = to_decimal(id);
    "<#".to_owned().concat(number.as_str()).concat(">")
}

/// How channels are mentioned.
fn mention_channels(ids: &Vec<u64>) -> (r: Vec<String>)
    ensures
        texts(r@) == channel_tags(ids@),
{
    let mut list = no_texts();
    let n: usize = ids.len();
    let mut i: usize = 0;
    while i < n
        invariant
            n == ids@.len(),
            i <= n,
            texts(list@) == channel_tags(ids@.take(i as int)),
        decreases n - i,
    {
        let tag = mention_channel(ids[i]);
        push_text(&mut list, tag.as_str());
        i += 1;
        proof {
            assert(channel_tags(ids@.take(i as int)) =~= channel_tags(
                ids@.take(i - 1),
            ).push(channel_tag(ids@[i - 1])));
        }
    }
    proof {
        assert(ids@.take(n as int) =~= ids@);
    }
    list
}

/// `/config channel`, in a server with the given channels listed.
pub open spec fn channel_plan(value: OptionValue, listed: Seq<u64>) -> Plan {
    match value {
        OptionValue::SubCommandGroup(options) => {
            if options@.len() == 0 {
                Plan::Reply("No channel subcommand provided."@)
            } else {
                let action = options@[0].name@;
                if action == "list"@ {
                    Plan::Reply(
                        if listed.len() == 0 {
                            "I'm allowed to respond in **all channels** (no restriction set). Follow-up replies are disabled until you add explicit reply channels."@
                        } else {
                            "Allowed channels: "@ + joined(channel_tags(listed), ", "@)
                        },
                    )
                } else if action == "clear"@ {
                    Plan::SaveServer {
                        channels: Set::empty(),
                        done: "✅ Channel restriction cleared — I'll respond in all channels, but follow-up replies are disabled until you add explicit reply channels."@,
                        failed: SAVE_FAILED@,
                    }
                } else if action == "add"@ || action == "remove"@ {
                    match options@[0].value {
                        OptionValue::SubCommand(arguments) => {
                            match channel_option(arguments@, "channel"@) {
                                None => Plan::Reply("Please provide a valid channel."@),
                                Some(id) => if action == "add"@ {
                                    Plan::SaveServer {
                                        channels: listed.to_set().insert(id),
                                        done: "✅ "@ + channel_tag(id)
                                            + " added to the allowlist."@,
                                        failed: SAVE_FAILED@,
                                    }
                                } else {
                                    Plan::SaveServer {
                                        channels: listed.to_set().remove(id),
                                        done: if listed.contains(id) {
                                            "✅ "@ + channel_tag(id)
                                                + " removed from the allowlist."@
                                        } else {
                                            channel_tag(id) + " was not in the allowlist."@
                                        },
                                        failed: SAVE_FAILED@,
                                    }
                                },
                            }
                        },
                        _ => Plan::Reply(ODD_OPTION@),
                    }
                } else {
                    Plan::Reply("Unknown channel subcommand `"@ + action + "`."@)
                }
            }
        },
        _ => Plan::Reply(ODD_OPTION@),
    }
}

/// `/config channel add` and `/config channel remove`.
fn change_channel(
    add: bool,
    arguments: &Vec<CommandOption>,
    server: ServerConfig,
) -> (r: SettingsPlan)
    requires
        server.well_formed(),
    ensures
        r.well_formed(),
        r@ == (match channel_option(arguments@, "channel"@) {
            None => Plan::Reply("Please provide a valid channel."@),
            Some(id) => if add {
                Plan::SaveServer {
                    channels: server@.to_set().insert(id),
                    done: "✅ "@ + channel_tag(id) + " added to the allowlist."@,
                    failed: SAVE_FAILED@,
                }
            } else {
                Plan::SaveServer {
                    channels: server@.to_set().remove(id),
                    done: if server@.contains(id) {
                        "✅ "@ + channel_tag(id) + " removed from the allowlist."@
                    } else {
                        channel_tag(id) + " was not in the allowlist."@
                    },
                    failed: SAVE_FAILED@,
                }
            },
        }),
{
    let id: u64 = match find_channel(arguments, "channel") {
        Some(id) => id,
        None => {
            return say("Please provide a valid channel.");
        },
    };
    let mut config = server;
    let tag = mention_channel(id);
    if add {
        config.allow(id);
        let done = "✅ ".to_owned().concat(tag.as_str()).concat(" added to the allowlist.");
        SettingsPlan::SaveServer { server: config, done, failed: SAVE_FAILED }
    } else {
        let removed = config.disallow(id);
        let done = if removed {
            "✅ ".to_owned().concat(tag.as_str()).concat(" removed from the allowlist.")
        } else {
            tag.concat(" was not in the allowlist.")
        };
        SettingsPlan::SaveServer { server: config, done, failed: SAVE_FAILED }
    }
}

/// `/config channel`.
fn channel_command(value: &OptionValue, server: ServerConfig) -> (r: SettingsPlan)
    requires
        server.well_formed(),
    ensures
        r.well_formed(),
        r@ == channel_plan(*value, server@),
{
    let options = match value {
        OptionValue::SubCommandGroup(options) => options,
        _ => {
            return say(ODD_OPTION);
        },
    };
    if options.len() == 0 {
        return say("No channel subcommand provided.");
    }
    let action = options[0].name.as_str();
    if same_text(action, "list") {
        if server.channels().len() == 0 {
            return say(
                "I'm allowed to respond in **all channels** (no restriction set). Follow-up replies are disabled until you add explicit reply channels.",
            );
        }
        let tags = mention_channels(server.channels());
        let list = join(&tags, ", ");
        return SettingsPlan::Reply("Allowed channels: ".to_owned().concat(list.as_str()));
    }
    if same_text(action, "clear") {
        let config = ServerConfig::new();
        proof {
            assert(config@.to_set() =~= Set::<u64>::empty());
        }
        return SettingsPlan::SaveServer {
            server: config,
            done:
                "✅ Channel restriction cleared — I'll respond in all channels, but follow-up replies are disabled until you add explicit reply channels.".to_owned(),
            failed: SAVE_FAILED,
        };
    }
    let add = same_text(action, "add");
    if add || same_text(action, "remove") {
        match &options[0].value {
            OptionValue::SubCommand(arguments) => change_channel(add, arguments, server),
            _ => say(ODD_OPTION),
        }
    } else {
        SettingsPlan::Reply("Unknown channel subcommand `".to_owned().concat(action).concat("`."))
    }
}

// ------------------------------------------------------------------- /config

/// `/config personality`.
pub open spec fn personality_plan(value: OptionValue, user: UserSettings) -> Plan {
    match value {
        OptionValue::SubCommand(options) => match text_option(options@, "text"@) {
            Some(text) if trimmed(text).len() > 0 => Plan::SaveUser {
                settings: UserSettings { personality: Some(text), ..user },
                done: "✅ Personality set:\n"@ + quotation(text),
                failed: SAVE_FAILED@,
            },
            _ => Plan::SaveUser {
                settings: UserSettings { personality: None, ..user },
                done: "✅ Personality cleared — I'll use my default behaviour."@,
                failed: SAVE_FAILED@,
            },
        },
        _ => Plan::Reply(ODD_OPTION@),
    }
}

/// `/config personality`.
fn personality_command(value: &OptionValue, user: UserConfig) -> (r: SettingsPlan)
    ensures
        r.well_formed(),
        r@ == personality_plan(*value, user@),
{
    let options = match value {
        OptionValue::SubCommand(options) => options,
        _ => {
            return say(ODD_OPTION);
        },
    };
    let mut config = user;
    if let Some(text) = find_text(options, "text") {
        if trim(text).unicode_len() > 0 {
            config.personality = Some(text.to_owned());
            let shown = quotation_of(text);
            let done = "✅ Personality set:\n".to_owned().concat(shown.as_str());
            return SettingsPlan::SaveUser { config, done, failed: SAVE_FAILED };
        }
    }
    config.personality = None;
    SettingsPlan::SaveUser {
        config,
        done: "✅ Personality cleared — I'll use my default behaviour.".to_owned(),
        failed: SAVE_FAILED,
    }
}

/// How long follow-ups stay open after a change.
pub open spec fn new_timeout(timeout: Option<i64>, user: UserSettings) -> nat {
    match timeout {
        Some(secs) => secs as nat,
        None => user.followup_timeout_secs,
    }
}

/// `/config followup`.
pub open spec fn followup_plan(value: OptionValue, user: UserSettings) -> Plan {
    match value {
        OptionValue::SubCommand(options) => {
            let timeout = integer_option(options@, "timeout"@);
            match boolean_option(options@, "enabled"@) {
                None => Plan::Reply(ASK_ENABLED@),
                Some(enabled) => if timeout matches Some(secs) && secs < 1 {
                    Plan::Reply("Timeout must be at least 1 second."@)
                } else {
                    Plan::SaveUser {
                        settings: UserSettings {
                            followup_enabled: enabled,
                            followup_timeout_secs: new_timeout(timeout, user),
                            ..user
                        },
                        done: "✅ Follow-up replies "@ + on_off(enabled) + " (timeout: "@ + decimal(
                            new_timeout(timeout, user),
                        ) + "s)."@,
                        failed: SAVE_FAILED@,
                    }
                },
            }
        },
        _ => Plan::Reply(ODD_OPTION@),
    }
}

/// `/config followup`.
fn followup_command(value: &OptionValue, user: UserConfig) -> (r: SettingsPlan)
    ensures
        r.well_formed(),
        r@ == followup_plan(*value, user@),
{
    let options = match value {
        OptionValue::SubCommand(options) => options,
        _ => {
            return say(ODD_OPTION);
        },
    };
    let enabled = match find_boolean(options, "enabled") {
        Some(enabled) => enabled,
        None => {
            return say(ASK_ENABLED);
        },
    };
    let mut config = user;
    config.followup_enabled = enabled;
    if let Some(secs) = find_integer(options, "timeout") {
        if secs < 1 {
            return say("Timeout must be at least 1 second.");
        }
        config.followup_timeout_secs = secs as u64;
    }
    let secs = to_decimal(config.followup_timeout_secs);
    let done = "✅ Follow-up replies ".to_owned().concat(switch_name(enabled)).concat(
        " (timeout: ",
    ).concat(secs.as_str()).concat("s).");
    SettingsPlan::SaveUser { config, done, failed: SAVE_FAILED }
}

/// `/config`, in a server with the given channels listed, or in no server.
pub open spec fn config_plan(
    options: Seq<CommandOption>,
    listed: Option<Seq<u64>>,
    user: UserSettings,
) -> Plan {
    if options.len() == 0 {
        Plan::Reply("No subcommand provided."@)
    } else if options[0].name@ == "channel"@ {
        match listed {
            Some(listed) => channel_plan(options[0].value, listed),
            None => Plan::Reply("Channel configuration is only available in servers, not DMs."@),
        }
    } else if options[0].name@ == "personality"@ {
        personality_plan(options[0].value, user)
    } else if options[0].name@ == "followup"@ {
        followup_plan(options[0].value, user)
    } else {
        Plan::Reply("Unknown config option `"@ + options[0].name@ + "`."@)
    }
}

/// `/config`, with the settings of the server it came from, if any, and of the
/// user.
pub fn handle_config_interaction(
    options: &Vec<CommandOption>,
    server: Option<ServerConfig>,
    user: UserConfig,
) -> (r: SettingsPlan)
    requires
        server matches Some(server) ==> server.well_formed(),
    ensures
        r.well_formed(),
        r@ == config_plan(
            options@,
            (match server {
                Some(server) => Some(server@),
                None => None,
            }),
            user@,
        ),
{
    if options.len() == 0 {
        return say("No subcommand provided.");
    }
    let name = options[0].name.as_str();
    let value = &options[0].value;
    if same_text(name, "channel") {
        match server {
            Some(server) => channel_command(value, server),
            None => say("Channel configuration is only available in servers, not DMs."),
        }
    } else if same_text(name, "personality") {
        personality_command(value, user)
    } else if same_text(name, "followup") {
        followup_command(value, user)
    } else {
        SettingsPlan::Reply("Unknown config option `".to_owned().concat(name).concat("`."))
    }
}

// ------------------------------------------------------------------- /effort

/// A mode in the list of modes.
pub open spec fn effort_line(
    mode: ThinkingMode,
    current: ThinkingMode,
    labels: BudgetLabels,
) -> Seq<char> {
    "• **"@ + mode_name(mode) + "** — "@ + budget(labels, mode) + (if mode == current {
        " ←"@
    } else {
        ""@
    })
}

/// The current mode and all modes.
pub open spec fn effort_overview(current: ThinkingMode, labels: BudgetLabels) -> Seq<char> {
    "**Thinking effort:** currently **"@ + mode_name(current) + "** ("@ + budget(labels, current)
        + ").\n"@ + joined(
        seq![
            effort_line(ThinkingMode::Low, current, labels),
            effort_line(ThinkingMode::Medium, current, labels),
            effort_line(ThinkingMode::High, current, labels),
            effort_line(ThinkingMode::XHigh, current, labels),
            effort_line(ThinkingMode::Max, current, labels),
        ],
        "\n"@,
    ) + "\nUse `/effort level:<mode>` to change it."@
}

/// `/effort`.
pub open spec fn effort_plan(
    options: Seq<CommandOption>,
    user: UserSettings,
    labels: BudgetLabels,
) -> Plan {
    match text_option(options, "level"@) {
        None => Plan::Reply(effort_overview(user.thinking_mode, labels)),
        Some(level) => match mode_named(level) {
            None => Plan::Reply(
                "Unknown effort level `"@ + level
                    + "`. Options: low, medium, high, xhigh, max."@,
            ),
            Some(mode) => Plan::SaveUser {
                settings: UserSettings { thinking_mode: mode, ..user },
                done: "✅ Thinking effort set to **"@ + mode_name(mode) + "** ("@ + budget(
                    labels,
                    mode,
                ) + ")."@,
                failed: SAVE_FAILED@,
            },
        },
    }
}

/// A mode in the list of modes.
fn describe_mode(mode: ThinkingMode, current: ThinkingMode, labels: &BudgetLabels) -> (r: String)
    ensures
        r@ == effort_line(mode, current, *labels),
{
    "• **".to_owned().concat(mode.as_str()).concat("** — ").concat(labels.label(mode)).concat(
        if mode == current {
            " ←"
        } else {
            ""
        },
    )
}

/// The current mode and all modes.
fn describe_modes(current: ThinkingMode, labels: &BudgetLabels) -> (r: String)
    ensures
        r@ == effort_overview(current, *labels),
{
    let mut list = no_texts();
    push_text(&mut list, describe_mode(ThinkingMode::Low, current, labels).as_str());
    push_text(&mut list, describe_mode(ThinkingMode::Medium, current, labels).as_str());
    push_text(&mut list, describe_mode(ThinkingMode::High, current, labels).as_str());
    push_text(&mut list, describe_mode(ThinkingMode::XHigh, current, labels).as_str());
    push_text(&mut list, describe_mode(ThinkingMode::Max, current, labels).as_str());
    proof {
        assert(texts(list@) =~= seq![
            effort_line(ThinkingMode::Low, current, *labels),
            effort_line(ThinkingMode::Medium, current, *labels),
            effort_line(ThinkingMode::High, current, *labels),
            effort_line(ThinkingMode::XHigh, current, *labels),
            effort_line(ThinkingMode::Max, current, *labels),
        ]);
    }
    let lines = join(&list, "\n");
    "**Thinking effort:** currently **".to_owned().concat(current.as_str()).concat("** (").concat(
        labels.label(current),
    ).concat(").\n").concat(lines.as_str()).concat("\nUse `/effort level:<mode>` to change it.")
}

/// `/effort`.
pub fn handle_effort_interaction(
    options: &Vec<CommandOption>,
    user: UserConfig,
    labels: &BudgetLabels,
) -> (r: SettingsPlan)
    ensures
        r.well_formed(),
        r@ == effort_plan(options@, user@, *labels),
{
    let level = match find_text(options, "level") {
        Some(level) => level,
        None => {
            return SettingsPlan::Reply(describe_modes(user.thinking_mode, labels));
        },
    };
    let mode = match ThinkingMode::parse(level) {
        Some(mode) => mode,
        None => {
            return SettingsPlan::Reply(
                "Unknown effort level `".to_owned().concat(level).concat(
                    "`. Options: low, medium, high, xhigh, max.",
                ),
            );
        },
    };
    let mut config = user;
    config.thinking_mode = mode;
    let done = "✅ Thinking effort set to **".to_owned().concat(mode.as_str()).concat("** (").concat(
        labels.label(mode),
    ).concat(").");
    SettingsPlan::SaveUser { config, done, failed: SAVE_FAILED }
}

// ------------------------------------------------------------------- /status

/// `/status`.
pub open spec fn status_text(user: UserSettings, labels: BudgetLabels) -> Seq<char> {
    "**Your current settings:**\n• Effort level: **"@ + mode_name(user.thinking_mode) + "** — "@
        + budget(labels, user.thinking_mode) + "\n• Follow-up replies: "@ + (
    if user.followup_enabled {
        "enabled (timeout: "@ + decimal(user.followup_timeout_secs) + "s)"@
    } else {
        "disabled"@
    }) + "\n• Personality: "@ + (match user.personality {
        Some(p) if trimmed(p).len() > 0 => quotation(trimmed(p)),
        _ => "default"@,
    }) + "\n\nUse `/effort` to change the thinking effort level."@
}

/// `/status`.
pub fn handle_status_interaction(user: &UserConfig, labels: &BudgetLabels) -> (r: String)
    ensures
        r@ == status_text(user@, *labels),
{
    let followup = if user.followup_enabled {
        let secs = to_decimal(user.followup_timeout_secs);
        "enabled (timeout: ".to_owned().concat(secs.as_str()).concat("s)")
    } else {
        "disabled".to_owned()
    };
    let personality = match &user.personality {
        Some(p) => {
            let p = trim(p.as_str());
            if p.unicode_len() > 0 {
                quotation_of(p)
            } else {
                "default".to_owned()
            }
        },
        None => "default".to_owned(),
    };
    "**Your current settings:**\n• Effort level: **".to_owned().concat(
        user.thinking_mode.as_str(),
    ).concat("** — ").concat(labels.label(user.thinking_mode)).concat(
        "\n• Follow-up replies: ",
    ).concat(followup.as_str()).concat("\n• Personality: ").concat(personality.as_str()).concat(
        "\n\nUse `/effort` to change the thinking effort level.",
    )
}

// --------------------------------------------------------------------- /labs

/// `/labs`.
pub open spec fn labs_plan(options: Seq<CommandOption>, user: UserSettings) -> Plan {
    if options.len() == 0 {
        Plan::Reply("Choose a labs feature. Use `/labs list` to see available features."@)
    } else if options[0].name@ == "list"@ {
        Plan::Reply("**Labs features**\n• Pagination: "@ + on_off(user.labs_pagination_enabled))
    } else if options[0].name@ == "pagination"@ {
        match options[0].value {
            OptionValue::SubCommand(arguments) => match boolean_option(arguments@, "enabled"@) {
                None => Plan::Reply(ASK_ENABLED@),
                Some(enabled) => Plan::SaveUser {
                    settings: UserSettings { labs_pagination_enabled: enabled, ..user },
                    done: "✅ Paginated responses "@ + on_off(enabled) + "."@,
                    failed: LABS_SAVE_FAILED@,
                },
            },
            _ => Plan::Reply(ODD_OPTION@),
        }
    } else {
        Plan::Reply("Unknown labs feature `"@ + options[0].name@ + "`. Use `/labs list`."@)
    }
}

/// `/labs`.
pub fn handle_labs_interaction(options: &Vec<CommandOption>, user: UserConfig) -> (r: SettingsPlan)
    ensures
        r.well_formed(),
        r@ == labs_plan(options@, user@),
{
    if options.len() == 0 {
        return say("Choose a labs feature. Use `/labs list` to see available features.");
    }
    let name = options[0].name.as_str();
    if same_text(name, "list") {
        return SettingsPlan::Reply(
            "**Labs features**\n• Pagination: ".to_owned().concat(
                switch_name(user.labs_pagination_enabled),
            ),
        );
    }
    if !same_text(name, "pagination") {
        return SettingsPlan::Reply(
            "Unknown labs feature `".to_owned().concat(name).concat("`. Use `/labs list`."),
        );
    }
    let arguments = match &options[0].value {
        OptionValue::SubCommand(arguments) => arguments,
        _ => {
            return say(ODD_OPTION);
        },
    };
    match find_boolean(arguments, "enabled") {
        None => say(ASK_ENABLED),
        Some(enabled) => {
            let mut config = user;
            config.labs_pagination_enabled = enabled;
            let done = "✅ Paginated responses ".to_owned().concat(switch_name(enabled)).concat(".");
            SettingsPlan::SaveUser { config, done, failed: LABS_SAVE_FAILED }
        },
    }
}

// ------------------------------------------------------------------ /privacy

/// How deep memory is set, and how much it holds.
pub open spec fn deep_memory_text(user: UserSettings, memory: Seq<char>) -> Seq<char> {
    if !user.deep_memory_enabled {
        "disabled"@
    } else if trimmed(memory).len() == 0 {
        "enabled (no memories stored yet)"@
    } else {
        "enabled ("@ + decimal(byte_size(memory))
            + " bytes stored — use `/memory show` to view)"@
    }
}

/// The privacy settings.
pub open spec fn privacy_status(user: UserSettings, memory: Seq<char>) -> Seq<char> {
    "**Privacy settings:**\n• Deep memory: "@ + deep_memory_text(user, memory)
        + " (persistent facts across sessions)\n• Proactive assistance: "@ + on_off(
        user.proactive_assistance_enabled,
    )
        + " (bot may respond without ping)\n\nUse `/privacy deep_memory enabled:true` or `/privacy proactive enabled:false` to change."@
}

/// What is said of an option that `/privacy` does not have, shown in quotes.
pub open spec fn unknown_privacy_text(shown: Seq<char>) -> Seq<char> {
    "Unknown privacy option `Some("@ + shown + ")`. Use `/privacy` to see available options."@
}

/// What is said of an option that `/privacy` does not have, shown in quotes.
pub fn unknown_privacy_option(shown: &str) -> (r: String)
    ensures
        r@ == unknown_privacy_text(shown@),
{
    "Unknown privacy option `Some(".to_owned().concat(shown).concat(
        ")`. Use `/privacy` to see available options.",
    )
}

/// `/privacy`, with what the memory holds.
pub open spec fn privacy_plan(
    options: Seq<CommandOption>,
    user: UserSettings,
    memory: Seq<char>,
) -> Plan {
    match first_name(options) {
        None => Plan::Reply(privacy_status(user, memory)),
        Some(name) => if name == "status"@ {
            Plan::Reply(privacy_status(user, memory))
        } else if name == "deep_memory"@ || name == "proactive"@ {
            match options[0].value {
                OptionValue::SubCommand(arguments) => match boolean_option(
                    arguments@,
                    "enabled"@,
                ) {
                    None => Plan::Reply(ASK_ENABLED@),
                    Some(enabled) => if name == "deep_memory"@ {
                        Plan::SaveUser {
                            settings: UserSettings { deep_memory_enabled: enabled, ..user },
                            done: if enabled {
                                "✅ Deep memory enabled. I will now remember important facts about you across conversations. Use `/memory show` to see what I currently remember."@
                            } else {
                                "✅ Deep memory disabled. I will no longer save facts between sessions (your current memories are kept but won't be updated)."@
                            },
                            failed: SAVE_FAILED@,
                        }
                    } else {
                        Plan::SaveUser {
                            settings: UserSettings {
                                proactive_assistance_enabled: enabled,
                                ..user
                            },
                            done: "✅ Proactive assistance "@ + on_off(enabled) + "."@,
                            failed: SAVE_FAILED@,
                        }
                    },
                },
                _ => Plan::Reply(ODD_OPTION@),
            }
        } else {
            Plan::Reply(unknown_privacy_text(debug_text(name)))
        },
    }
}

/// The privacy settings.
fn describe_privacy(user: &UserConfig, memory: &str) -> (r: String)
    ensures
        r@ == privacy_status(user@, memory@),
{
    let deep = if !user.deep_memory_enabled {
        "disabled".to_owned()
    } else if trim(memory).unicode_len() == 0 {
        "enabled (no memories stored yet)".to_owned()
    } else {
        let bytes = to_decimal(byte_len(memory) as u64);
        "enabled (".to_owned().concat(bytes.as_str()).concat(
            " bytes stored — use `/memory show` to view)",
        )
    };
    "**Privacy settings:**\n• Deep memory: ".to_owned().concat(deep.as_str()).concat(
        " (persistent facts across sessions)\n• Proactive assistance: ",
    ).concat(switch_name(user.proactive_assistance_enabled)).concat(
        " (bot may respond without ping)\n\nUse `/privacy deep_memory enabled:true` or `/privacy proactive enabled:false` to change.",
    )
}

/// `/privacy`, with what the memory holds.
pub fn handle_privacy_interaction(
    options: &Vec<CommandOption>,
    user: UserConfig,
    memory: &str,
) -> (r: SettingsPlan)
    ensures
        r.well_formed(),
        r@ == privacy_plan(options@, user@, memory@),
{
    let name = match subcommand(options) {
        None => {
            return SettingsPlan::Reply(describe_privacy(&user, memory));
        },
        Some(name) => name,
    };
    if same_text(name, "status") {
        return SettingsPlan::Reply(describe_privacy(&user, memory));
    }
    let deep = same_text(name, "deep_memory");
    if !deep && !same_text(name, "proactive") {
        let shown = quote(name);
        return SettingsPlan::Reply(unknown_privacy_option(shown.as_str()));
    }
    let arguments = match &options[0].value {
        OptionValue::SubCommand(arguments) => arguments,
        _ => {
            return say(ODD_OPTION);
        },
    };
    let enabled = match find_boolean(arguments, "enabled") {
        None => {
            return say(ASK_ENABLED);
        },
        Some(enabled) => enabled,
    };
    let mut config = user;
    if deep {
        config.deep_memory_enabled = enabled;
        let done = if enabled {
            "✅ Deep memory enabled. I will now remember important facts about you across conversations. Use `/memory show` to see what I currently remember."
        } else {
            "✅ Deep memory disabled. I will no longer save facts between sessions (your current memories are kept but won't be updated)."
        };
        SettingsPlan::SaveUser { config, done: done.to_owned(), failed: SAVE_FAILED }
    } else {
        config.proactive_assistance_enabled = enabled;
        let done = "✅ Proactive assistance ".to_owned().concat(switch_name(enabled)).concat(".");
        SettingsPlan::SaveUser { config, done, failed: SAVE_FAILED }
    }
}

// ------------------------------------------------------------------- /memory

/// What is to be done for `/memory`: to reply, or to clear the memory and then
/// reply by whether that worked.
#[derive(Debug, PartialEq, Eq)]
pub enum MemoryPlan {
    Reply(String),
    Clear,
}

/// What is said of a subcommand that `/memory` does not have, shown in quotes.
pub open spec fn unknown_memory_text(shown: Seq<char>) -> Seq<char> {
    "Unknown memory subcommand `Some("@ + shown + ")`. Use `/memory show` or `/memory clear`."@
}

/// What is said of a subcommand that `/memory` does not have, shown in quotes.
pub fn unknown_memory_subcommand(shown: &str) -> (r: String)
    ensures
        r@ == unknown_memory_text(shown@),
{
    "Unknown memory subcommand `Some(".to_owned().concat(shown).concat(
        ")`. Use `/memory show` or `/memory clear`.",
    )
}

/// What `/memory` replies without touching the memory; none where it clears it.
pub open spec fn memory_reply(options: Seq<CommandOption>, memory: Seq<char>) -> Option<Seq<char>> {
    let shown = if trimmed(memory).len() == 0 {
        "No memories stored yet. Enable deep memory with `/privacy deep_memory enabled:true` and I will start remembering things about you across conversations."@
    } else {
        "**What I remember about you:**\n"@ + memory
    };
    match first_name(options) {
        None => Some(shown),
        Some(name) => if name == "show"@ {
            Some(shown)
        } else if name == "clear"@ {
            None
        } else {
            Some(unknown_memory_text(debug_text(name)))
        },
    }
}

/// What is remembered.
fn describe_memory(memory: &str) -> (r: String)
    ensures
        r@ == (if trimmed(memory@).len() == 0 {
            "No memories stored yet. Enable deep memory with `/privacy deep_memory enabled:true` and I will start remembering things about you across conversations."@
        } else {
            "**What I remember about you:**\n"@ + memory@
        }),
{
    if trim(memory).unicode_len() == 0 {
        "No memories stored yet. Enable deep memory with `/privacy deep_memory enabled:true` and I will start remembering things about you across conversations.".to_owned()
    } else {
        "**What I remember about you:**\n".to_owned().concat(memory)
    }
}

/// `/memory`, with what the memory holds.
pub fn handle_memory_interaction(options: &Vec<CommandOption>, memory: &str) -> (r: MemoryPlan)
    ensures
        (match r {
            MemoryPlan::Reply(text) => Some(text@),
            MemoryPlan::Clear => None,
        }) == memory_reply(options@, memory@),
{
    let name = match subcommand(options) {
        None => {
            return MemoryPlan::Reply(describe_memory(memory));
        },
        Some(name) => name,
    };
    if same_text(name, "show") {
        MemoryPlan::Reply(describe_memory(memory))
    } else if same_text(name, "clear") {
        MemoryPlan::Clear
    } else {
        let shown = quote(name);
        MemoryPlan::Reply(unknown_memory_subcommand(shown.as_str()))
    }
}

/// What is replied to `/memory clear`, given whether it worked.
pub fn memory_cleared_reply(cleared: bool) -> (r: &'static str)
    ensures
        r@ == (if cleared {
            "✅ Your memory has been cleared. I no longer remember anything about you from past sessions."@
        } else {
            "⚠️ Failed to clear memory. Please try again."@
        }),
{
    if cleared {
        "✅ Your memory has been cleared. I no longer remember anything about you from past sessions."
    } else {
        "⚠️ Failed to clear memory. Please try again."
    }
}

// ---------------------------------------------------------------------- laws

/// `/privacy` changes no setting but the two that it is for.
pub proof fn law_privacy_leaves_other_settings(
    options: Seq<CommandOption>,
    user: UserSettings,
    memory: Seq<char>,
)
    requires
        privacy_plan(options, user, memory) is SaveUser,
    ensures
        ({
            let after = privacy_plan(options, user, memory)->SaveUser_settings;
            after == (UserSettings {
                deep_memory_enabled: after.deep_memory_enabled,
                proactive_assistance_enabled: after.proactive_assistance_enabled,
                ..user
            }) && (after.deep_memory_enabled == user.deep_memory_enabled
                || after.proactive_assistance_enabled == user.proactive_assistance_enabled)
        }),
{
}

/// In no server `/config` changes no server's settings.
pub proof fn law_channels_belong_to_a_server(options: Seq<CommandOption>, user: UserSettings)
    ensures
        !(config_plan(options, None, user) is SaveServer),
{
}

/// Does a `/config channel` ask to add or remove a channel?
pub open spec fn asks_channel(value: OptionValue, action: Seq<char>, id: u64) -> bool {
    match value {
        OptionValue::SubCommandGroup(options) => options@.len() > 0 && options@[0].name@ == action
            && (match options@[0].value {
            OptionValue::SubCommand(arguments) => channel_option(arguments@, "channel"@) == Some(
                id,
            ),
            _ => false,
        }),
        _ => false,
    }
}

/// A channel that was added is listed afterwards and a removed one is not;
/// every other channel is listed as before.
pub proof fn law_channel_changes_touch_one_channel(
    value: OptionValue,
    add: bool,
    listed: Seq<u64>,
    id: u64,
    other: u64,
)
    requires
        asks_channel(
            value,
            if add {
                "add"@
            } else {
                "remove"@
            },
            id,
        ),
        other != id,
    ensures
        channel_plan(value, listed) matches Plan::SaveServer { channels, .. } && channels.contains(
            id,
        ) == add && channels.contains(other) == listed.contains(other),
{
    reveal_strlit("add");
    reveal_strlit("remove");
    reveal_strlit("list");
    reveal_strlit("clear");
    assert("add"@.len() == 3 && "remove"@.len() == 6 && "list"@.len() == 4 && "clear"@.len() == 5);
}

/// A user who sets an effort level by the name of a mode gets that mode, and
/// keeps every other setting.
pub proof fn law_effort_sets_the_named_mode(
    options: Seq<CommandOption>,
    user: UserSettings,
    labels: BudgetLabels,
    mode: ThinkingMode,
)
    requires
        text_option(options, "level"@) == Some(mode_name(mode)),
    ensures
        effort_plan(options, user, labels) matches Plan::SaveUser { settings, .. } && settings == (
        UserSettings { thinking_mode: mode, ..user }),
{
    crate::user_config::law_mode_is_set_by_its_name(mode);
}

/// `/config` changes a user's personality or their follow-ups, and no other
/// setting; and follow-ups never get a window of no length.
pub proof fn law_config_changes_what_it_is_for(
    options: Seq<CommandOption>,
    listed: Option<Seq<u64>>,
    user: UserSettings,
)
    requires
        config_plan(options, listed, user) is SaveUser,
    ensures
        ({
            let after = config_plan(options, listed, user)->SaveUser_settings;
            (after == (UserSettings { personality: after.personality, ..user }) || after == (
            UserSettings {
                followup_enabled: after.followup_enabled,
                followup_timeout_secs: after.followup_timeout_secs,
                ..user
            })) && (user.followup_timeout_secs >= 1 ==> after.followup_timeout_secs >= 1)
        }),
{
}

/// Is `enabled` what the first option called `enabled` holds?
pub open spec fn switched(arguments: Seq<CommandOption>, enabled: bool) -> bool {
    exists|k: int|
        0 <= k < arguments.len() && (#[trigger] arguments[k]).name@ == "enabled"@
            && arguments[k].value == OptionValue::Boolean(enabled) && forall|j: int|
            0 <= j < k ==> (#[trigger] arguments[j]).name@ != "enabled"@
}

/// What the first option called `enabled` holds is what is read.
proof fn lemma_switched(arguments: Seq<CommandOption>, enabled: bool)
    requires
        switched(arguments, enabled),
    ensures
        boolean_option(arguments, "enabled"@) == Some(enabled),
{
    let k = choose|k: int|
        0 <= k < arguments.len() && (#[trigger] arguments[k]).name@ == "enabled"@
            && arguments[k].value == OptionValue::Boolean(enabled) && forall|j: int|
            0 <= j < k ==> (#[trigger] arguments[j]).name@ != "enabled"@;
    law_the_first_option_of_a_name_counts(arguments, "enabled"@, k);
}

/// A switch ends up as it was asked for: `/privacy` and `/labs` store, with the
/// user's other settings, the value that came with the command, in the setting that
/// the subcommand names.
pub proof fn law_switches_are_set_as_asked(
    options: Seq<CommandOption>,
    arguments: Vec<CommandOption>,
    enabled: bool,
    user: UserSettings,
    memory: Seq<char>,
)
    requires
        options.len() > 0,
        options[0].value == OptionValue::SubCommand(arguments),
        exists|k: int|
            0 <= k < arguments@.len() && (#[trigger] arguments@[k]).name@ == "enabled"@
                && arguments@[k].value == OptionValue::Boolean(enabled) && forall|j: int|
                0 <= j < k ==> (#[trigger] arguments@[j]).name@ != "enabled"@,
    ensures
        options[0].name@ == "proactive"@ ==> (privacy_plan(options, user, memory) matches Plan::SaveUser {
            settings,
            ..
        } && settings == (UserSettings { proactive_assistance_enabled: enabled, ..user })),
        options[0].name@ == "deep_memory"@ ==> (privacy_plan(options, user, memory) matches Plan::SaveUser {
            settings,
            ..
        } && settings == (UserSettings { deep_memory_enabled: enabled, ..user })),
        options[0].name@ == "pagination"@ ==> (labs_plan(options, user) matches Plan::SaveUser {
            settings,
            ..
        } && settings == (UserSettings { labs_pagination_enabled: enabled, ..user })),
{
    lemma_switched(arguments@, enabled);
    lemma_privacy_words();
}

/// The words of `/privacy` and `/labs` differ.
proof fn lemma_privacy_words()
    ensures
        "proactive"@ != "status"@,
        "deep_memory"@ != "status"@,
        "deep_memory"@ != "proactive"@,
        "pagination"@ != "list"@,
{
    reveal_strlit("proactive");
    reveal_strlit("deep_memory");
    reveal_strlit("status");
    reveal_strlit("pagination");
    reveal_strlit("list");
    assert("proactive"@.len() == 9 && "deep_memory"@.len() == 11 && "status"@.len() == 6);
    assert("pagination"@.len() == 10 && "list"@.len() == 4);
}

/// The reply to a switch says how it was set, and what is said where it could not be
/// stored is that.
pub proof fn law_switches_are_told_as_set(
    options: Seq<CommandOption>,
    arguments: Vec<CommandOption>,
    enabled: bool,
    user: UserSettings,
    memory: Seq<char>,
)
    requires
        options.len() > 0,
        options[0].value == OptionValue::SubCommand(arguments),
        exists|k: int|
            0 <= k < arguments@.len() && (#[trigger] arguments@[k]).name@ == "enabled"@
                && arguments@[k].value == OptionValue::Boolean(enabled) && forall|j: int|
                0 <= j < k ==> (#[trigger] arguments@[j]).name@ != "enabled"@,
    ensures
        options[0].name@ == "proactive"@ ==> (privacy_plan(options, user, memory) matches Plan::SaveUser {
            done,
            failed,
            ..
        } && done == (if enabled {
            "✅ Proactive assistance enabled."@
        } else {
            "✅ Proactive assistance disabled."@
        }) && failed == "Error: failed to save config."@),
        options[0].name@ == "deep_memory"@ ==> (privacy_plan(options, user, memory) matches Plan::SaveUser {
            done,
            failed,
            ..
        } && (enabled ==> begins(done, "✅ Deep memory enabled."@)) && (!enabled ==> begins(
            done,
            "✅ Deep memory disabled."@,
        )) && failed == "Error: failed to save config."@),
        options[0].name@ == "pagination"@ ==> (labs_plan(options, user) matches Plan::SaveUser {
            done,
            failed,
            ..
        } && done == (if enabled {
            "✅ Paginated responses enabled."@
        } else {
            "✅ Paginated responses disabled."@
        }) && failed == "Error: failed to save labs configuration."@),
{
    lemma_switched(arguments@, enabled);
    lemma_privacy_words();
    reveal_strlit("enabled");
    reveal_strlit("disabled");
    reveal_strlit(".");
    reveal_strlit("✅ Proactive assistance ");
    reveal_strlit("✅ Proactive assistance enabled.");
    reveal_strlit("✅ Proactive assistance disabled.");
    reveal_strlit("✅ Paginated responses ");
    reveal_strlit("✅ Paginated responses enabled.");
    reveal_strlit("✅ Paginated responses disabled.");
    assert("✅ Proactive assistance "@ + on_off(enabled) + "."@ =~= (if enabled {
        "✅ Proactive assistance enabled."@
    } else {
        "✅ Proactive assistance disabled."@
    }));
    assert("✅ Paginated responses "@ + on_off(enabled) + "."@ =~= (if enabled {
        "✅ Paginated responses enabled."@
    } else {
        "✅ Paginated responses disabled."@
    }));
    reveal_strlit("✅ Deep memory enabled.");
    reveal_strlit("✅ Deep memory disabled.");
    reveal_strlit(
        "✅ Deep memory enabled. I will now remember important facts about you across conversations. Use `/memory show` to see what I currently remember.",
    );
    reveal_strlit(
        "✅ Deep memory disabled. I will no longer save facts between sessions (your current memories are kept but won't be updated).",
    );
    assert("✅ Deep memory enabled. I will now remember important facts about you across conversations. Use `/memory show` to see what I currently remember."@.subrange(
        0,
        "✅ Deep memory enabled."@.len() as int,
    ) =~= "✅ Deep memory enabled."@);
    assert("✅ Deep memory disabled. I will no longer save facts between sessions (your current memories are kept but won't be updated)."@.subrange(
        0,
        "✅ Deep memory disabled."@.len() as int,
    ) =~= "✅ Deep memory disabled."@);
}

/// `/config followup` switches follow-ups as asked, with the time that came with the
/// command, or else the one that was set; a time under a second is refused.
pub proof fn law_followups_are_set_as_asked(
    options: Seq<CommandOption>,
    arguments: Vec<CommandOption>,
    enabled: bool,
    listed: Option<Seq<u64>>,
    user: UserSettings,
)
    requires
        options.len() > 0,
        options[0].name@ == "followup"@,
        options[0].value == OptionValue::SubCommand(arguments),
        exists|k: int|
            0 <= k < arguments@.len() && (#[trigger] arguments@[k]).name@ == "enabled"@
                && arguments@[k].value == OptionValue::Boolean(enabled) && forall|j: int|
                0 <= j < k ==> (#[trigger] arguments@[j]).name@ != "enabled"@,
    ensures
        ({
            let plan = config_plan(options, listed, user);
            match integer_option(arguments@, "timeout"@) {
                None => plan matches Plan::SaveUser { settings, .. } && settings == (UserSettings {
                    followup_enabled: enabled,
                    ..user
                }),
                Some(secs) => if secs >= 1 {
                    plan matches Plan::SaveUser { settings, .. } && settings == (UserSettings {
                        followup_enabled: enabled,
                        followup_timeout_secs: secs as nat,
                        ..user
                    })
                } else {
                    plan == Plan::Reply("Timeout must be at least 1 second."@)
                },
            }
        }),
{
    lemma_switched(arguments@, enabled);
    lemma_config_words();
}

/// The words of `/config` differ.
proof fn lemma_config_words()
    ensures
        "followup"@ != "channel"@,
        "followup"@ != "personality"@,
        "personality"@ != "channel"@,
{
    reveal_strlit("followup");
    reveal_strlit("channel");
    reveal_strlit("personality");
    assert("followup"@.len() == 8 && "channel"@.len() == 7 && "personality"@.len() == 11);
}

/// `/config personality` stores the text that came with the command, as it came, and
/// clears what was set where none came or nothing but white space.
pub proof fn law_personality_is_set_as_asked(
    options: Seq<CommandOption>,
    arguments: Vec<CommandOption>,
    listed: Option<Seq<u64>>,
    user: UserSettings,
)
    requires
        options.len() > 0,
        options[0].name@ == "personality"@,
        options[0].value == OptionValue::SubCommand(arguments),
    ensures
        config_plan(options, listed, user) matches Plan::SaveUser { settings, .. } && settings == (
        UserSettings {
            personality: match text_option(arguments@, "text"@) {
                Some(text) => if trimmed(text).len() > 0 {
                    Some(text)
                } else {
                    None
                },
                None => None,
            },
            ..user
        }),
{
    lemma_config_words();
}

/// `/config channel clear` leaves no channel listed.
pub proof fn law_cleared_channels_are_none(
    value: OptionValue,
    group: Vec<CommandOption>,
    listed: Seq<u64>,
)
    requires
        value == OptionValue::SubCommandGroup(group),
        group@.len() > 0,
        group@[0].name@ == "clear"@,
    ensures
        channel_plan(value, listed) matches Plan::SaveServer { channels, .. } && channels
            == Set::<u64>::empty(),
{
    reveal_strlit("list");
    reveal_strlit("clear");
    assert("list"@.len() == 4 && "clear"@.len() == 5);
}

/// `/config channel list` changes nothing and names each listed channel.
pub proof fn law_listed_channels_are_shown(
    value: OptionValue,
    group: Vec<CommandOption>,
    listed: Seq<u64>,
    i: int,
)
    requires
        value == OptionValue::SubCommandGroup(group),
        group@.len() > 0,
        group@[0].name@ == "list"@,
        0 <= i < listed.len(),
    ensures
        channel_plan(value, listed) matches Plan::Reply(text) && has_text(
            text,
            "<#"@ + decimal(listed[i] as nat) + ">"@,
        ),
{
    let tags = channel_tags(listed);
    let list = joined(tags, ", "@);
    law_joined_texts_hold_each_part(tags, ", "@, i);
    law_parts_are_found("Allowed channels: "@, list, list);
    law_parts_of_parts_are_found("Allowed channels: "@ + list, list, tags[i]);
}

/// A quotation marks each line of the text, and drops none.
pub proof fn law_each_line_is_quoted(line: Seq<char>, rest: Seq<char>)
    requires
        !line.contains('\n'),
    ensures
        quotation(line) == "> "@ + line,
        quotation(line + seq!['\n'] + rest) == "> "@ + line + "\n"@ + quotation(rest),
{
    reveal_strlit("\n");
    reveal_strlit("\n> ");
    reveal_strlit("> ");
    let old = "\n"@;
    assert(old =~= seq!['\n']);
    if has_text(line, old) {
        let i = choose|i: int| occurs_at(line, old, i);
        assert(line.subrange(i, i + 1)[0] == line[i]);
        assert(line.contains(line[i]));
    }
    law_nothing_else_is_replaced(line, old, "\n> "@);
    let s = line + old + rest;
    assert forall|i: int| 0 <= i < line.len() implies !occurs_at(s, old, i) by {
        if occurs_at(s, old, i) {
            assert(s.subrange(i, i + 1)[0] == line[i]);
            assert(line.contains(line[i]));
        }
    }
    law_the_first_is_replaced(line, old, "\n> "@, rest);
    assert("> "@ + (line + "\n> "@ + replaced(rest, old, "\n> "@)) =~= "> "@ + line + "\n"@ + (
    "> "@ + replaced(rest, old, "\n> "@)));
}

/// `/status` shows each of the user's settings as it is.
pub proof fn law_status_shows_the_settings(user: UserSettings, labels: BudgetLabels)
    ensures
        begins(
            status_text(user, labels),
            "**Your current settings:**\n• Effort level: **"@ + mode_name(user.thinking_mode)
                + "** — "@ + budget(labels, user.thinking_mode) + "\n• Follow-up replies: "@,
        ),
        user.followup_enabled ==> has_text(
            status_text(user, labels),
            "\n• Follow-up replies: "@ + ("enabled (timeout: "@ + decimal(
                user.followup_timeout_secs,
            ) + "s)"@) + "\n• Personality: "@,
        ),
        !user.followup_enabled ==> has_text(
            status_text(user, labels),
            "\n• Follow-up replies: "@ + "disabled"@ + "\n• Personality: "@,
        ),
        user.personality matches Some(p) ==> (trimmed(p).len() > 0 ==> ends(
            status_text(user, labels),
            "\n• Personality: "@ + quotation(trimmed(p))
                + "\n\nUse `/effort` to change the thinking effort level."@,
        )),
        user.personality is None || trimmed(user.personality.unwrap()).len() == 0 ==> ends(
            status_text(user, labels),
            "\n• Personality: "@ + "default"@
                + "\n\nUse `/effort` to change the thinking effort level."@,
        ),
{
    let text = status_text(user, labels);
    let top = "**Your current settings:**\n• Effort level: **"@ + mode_name(user.thinking_mode)
        + "** — "@ + budget(labels, user.thinking_mode);
    let followup = if user.followup_enabled {
        "enabled (timeout: "@ + decimal(user.followup_timeout_secs) + "s)"@
    } else {
        "disabled"@
    };
    let personality = match user.personality {
        Some(p) if trimmed(p).len() > 0 => quotation(trimmed(p)),
        _ => "default"@,
    };
    let a = "\n• Follow-up replies: "@;
    let b = "\n• Personality: "@;
    let end = "\n\nUse `/effort` to change the thinking effort level."@;
    let x = top + a + followup;
    assert(text == x + b + personality + end) by {
        assert(top == "**Your current settings:**\n• Effort level: **"@ + mode_name(
            user.thinking_mode,
        ) + "** — "@ + budget(labels, user.thinking_mode));
    }
    law_parts_are_found(top, a, a);
    law_texts_go_on(top, a, top + a);
    assert((top + a).subrange(0, (top + a).len() as int) =~= top + a);
    law_texts_go_on(top + a, followup, top + a);
    law_texts_go_on(x, b, top + a);
    law_texts_go_on(x + b, personality, top + a);
    law_texts_go_on(x + b + personality, end, top + a);
    law_last_pieces_end_a_text(top, a, followup, b);
    law_texts_go_on(x + b, personality, a + followup + b);
    law_texts_go_on(x + b + personality, end, a + followup + b);
    law_last_pieces_end_a_text(x, b, personality, end);
}

/// `/privacy` without a change shows both settings as they are.
pub proof fn law_privacy_shows_the_settings(
    options: Seq<CommandOption>,
    user: UserSettings,
    memory: Seq<char>,
)
    requires
        options.len() == 0 || options[0].name@ == "status"@,
    ensures
        privacy_plan(options, user, memory) matches Plan::Reply(text) && has_text(
            text,
            if user.proactive_assistance_enabled {
                "• Proactive assistance: enabled"@
            } else {
                "• Proactive assistance: disabled"@
            },
        ) && has_text(
            text,
            if user.deep_memory_enabled {
                "• Deep memory: enabled"@
            } else {
                "• Deep memory: disabled"@
            },
        ) && (user.deep_memory_enabled && trimmed(memory).len() > 0 ==> has_text(
            text,
            "("@ + decimal(byte_size(memory)) + " bytes stored"@,
        )),
{
    reveal_strlit("**Privacy settings:**\n• Deep memory: ");
    reveal_strlit("**Privacy settings:**\n");
    reveal_strlit("• Deep memory: enabled");
    reveal_strlit("• Deep memory: disabled");
    reveal_strlit("enabled");
    reveal_strlit("disabled");
    reveal_strlit("enabled (no memories stored yet)");
    reveal_strlit(" (no memories stored yet)");
    reveal_strlit("enabled (");
    reveal_strlit("(");
    reveal_strlit(" bytes stored");
    reveal_strlit(" — use `/memory show` to view)");
    reveal_strlit(" bytes stored — use `/memory show` to view)");
    reveal_strlit(" (persistent facts across sessions)\n• Proactive assistance: ");
    reveal_strlit(" (persistent facts across sessions)\n");
    reveal_strlit("• Proactive assistance: enabled");
    reveal_strlit("• Proactive assistance: disabled");
    reveal_strlit(" ");
    let text = privacy_status(user, memory);
    let end = " (bot may respond without ping)\n\nUse `/privacy deep_memory enabled:true` or `/privacy proactive enabled:false` to change."@;
    let top = "**Privacy settings:**\n"@;
    let size = decimal(byte_size(memory));
    let deep = if user.deep_memory_enabled {
        "• Deep memory: enabled"@
    } else {
        "• Deep memory: disabled"@
    };
    let held = if !user.deep_memory_enabled {
        Seq::empty()
    } else if trimmed(memory).len() == 0 {
        " (no memories stored yet)"@
    } else {
        " "@ + ("("@ + size + " bytes stored"@) + " — use `/memory show` to view)"@
    };
    let between = " (persistent facts across sessions)\n"@;
    let proactive = if user.proactive_assistance_enabled {
        "• Proactive assistance: enabled"@
    } else {
        "• Proactive assistance: disabled"@
    };
    assert("**Privacy settings:**\n• Deep memory: "@ + deep_memory_text(user, memory) =~= top + deep
        + held);
    assert(text =~= top + deep + (held + between + proactive + end));
    assert(text =~= (top + deep + held + between) + proactive + end);
    assert(text =~= (top + deep) + held + (between + proactive + end));
    law_parts_are_found(top, deep, held + between + proactive + end);
    law_parts_are_found(top + deep + held + between, proactive, end);
    law_parts_are_found(top + deep, held, between + proactive + end);
    if user.deep_memory_enabled && trimmed(memory).len() > 0 {
        law_parts_are_found(
            " "@,
            "("@ + size + " bytes stored"@,
            " — use `/memory show` to view)"@,
        );
        law_parts_of_parts_are_found(text, held, "("@ + size + " bytes stored"@);
    }
}

/// `/labs list` shows how the feature is set.
pub proof fn law_labs_shows_the_settings(options: Seq<CommandOption>, user: UserSettings)
    requires
        options.len() > 0,
        options[0].name@ == "list"@,
    ensures
        labs_plan(options, user) == Plan::Reply(
            "**Labs features**\n• Pagination: "@ + (if user.labs_pagination_enabled {
                "enabled"@
            } else {
                "disabled"@
            }),
        ),
{
}

/// `/effort` without a level changes nothing, and lists each mode with what it
/// allows, the current one marked and no other.
pub proof fn law_effort_lists_the_modes(
    options: Seq<CommandOption>,
    user: UserSettings,
    labels: BudgetLabels,
    mode: ThinkingMode,
)
    requires
        text_option(options, "level"@) is None,
    ensures
        effort_plan(options, user, labels) matches Plan::Reply(text) && begins(
            text,
            "**Thinking effort:** currently **"@ + mode_name(user.thinking_mode) + "** ("@ + budget(
                labels,
                user.thinking_mode,
            ) + ").\n"@,
        ) && has_text(
            text + "\n"@,
            "• **"@ + mode_name(mode) + "** — "@ + budget(labels, mode) + (if mode
                == user.thinking_mode {
                " ←"@
            } else {
                ""@
            }) + "\n"@,
        ),
{
    let current = user.thinking_mode;
    let text = effort_overview(current, labels);
    let lines = seq![
        effort_line(ThinkingMode::Low, current, labels),
        effort_line(ThinkingMode::Medium, current, labels),
        effort_line(ThinkingMode::High, current, labels),
        effort_line(ThinkingMode::XHigh, current, labels),
        effort_line(ThinkingMode::Max, current, labels),
    ];
    let own = "**Thinking effort:** currently **"@ + mode_name(current) + "** ("@ + budget(
        labels,
        current,
    ) + ").\n"@;
    let list = joined(lines, "\n"@);
    let n = "\n"@;
    let end = "\nUse `/effort level:<mode>` to change it."@;
    let rest = "Use `/effort level:<mode>` to change it."@;
    assert(end == n + rest) by {
        reveal_strlit("\n");
        reveal_strlit("\nUse `/effort level:<mode>` to change it.");
        reveal_strlit("Use `/effort level:<mode>` to change it.");
        assert(end =~= n + rest);
    }
    assert(text == own + list + end);
    law_last_pieces_end_a_text(own, list, end, end);
    law_parts_are_found(own, list + end, end);
    let framed = lines.push(rest);
    lemma_joined_push(lines, n, rest);
    law_last_pieces_end_a_text(list, n, rest, rest);
    assert(joined(framed, n) == list + end);
    let i: int = match mode {
        ThinkingMode::Low => 0,
        ThinkingMode::Medium => 1,
        ThinkingMode::High => 2,
        ThinkingMode::XHigh => 3,
        ThinkingMode::Max => 4,
    };
    law_joined_texts_hold_each_part(framed, n, i);
    let line = effort_line(mode, current, labels);
    assert(framed[i] == line);
    assert(has_text(list + end, line + n));
    law_parts_of_parts_are_found(text, list + end, line + n);
    law_texts_go_on(text, n, line + n);
}

/// `/memory` shows all that is remembered; only `/memory clear` clears it.
pub proof fn law_memory_is_shown_whole(options: Seq<CommandOption>, memory: Seq<char>)
    ensures
        options.len() == 0 || options[0].name@ == "show"@ ==> (memory_reply(options, memory) matches Some(
            text,
        ) && (trimmed(memory).len() > 0 ==> text == "**What I remember about you:**\n"@ + memory)
            && (trimmed(memory).len() == 0 ==> begins(text, "No memories stored yet."@))),
        memory_reply(options, memory) is None <==> options.len() > 0 && options[0].name@
            == "clear"@,
{
    reveal_strlit("show");
    reveal_strlit("clear");
    assert("show"@.len() == 4 && "clear"@.len() == 5);
    reveal_strlit("No memories stored yet.");
    reveal_strlit(
        "No memories stored yet. Enable deep memory with `/privacy deep_memory enabled:true` and I will start remembering things about you across conversations.",
    );
    assert("No memories stored yet. Enable deep memory with `/privacy deep_memory enabled:true` and I will start remembering things about you across conversations."@.subrange(
        0,
        "No memories stored yet."@.len() as int,
    ) =~= "No memories stored yet."@);
}

/// What is planned is taken as what it is, with the settings and the texts it holds.
pub proof fn law_plans_are_what_they_hold(plan: SettingsPlan)
    ensures
        plan matches SettingsPlan::Reply(text) ==> plan@ == Plan::Reply(text@),
        plan matches SettingsPlan::SaveUser { config, done, failed } ==> plan@ == (Plan::SaveUser {
            settings: config@,
            done: done@,
            failed: failed@,
        }),
        plan matches SettingsPlan::SaveServer { server, done, failed } ==> plan@ == (
        Plan::SaveServer { channels: server@.to_set(), done: done@, failed: failed@ }),
        plan matches SettingsPlan::SaveServer { server, .. } ==> (plan.well_formed() <==> ascending(
            server@,
        )),
{
}

/// A command that is not understood changes nothing, and the reply names what was not
/// understood; one without a value is asked for it.
pub proof fn law_other_options_change_nothing(
    options: Seq<CommandOption>,
    listed: Option<Seq<u64>>,
    user: UserSettings,
    memory: Seq<char>,
    labels: BudgetLabels,
    level: Seq<char>,
)
    ensures
        options.len() > 0 && options[0].name@ != "channel"@ && options[0].name@ != "personality"@
            && options[0].name@ != "followup"@ ==> config_plan(options, listed, user)
            == Plan::Reply("Unknown config option `"@ + options[0].name@ + "`."@),
        options.len() > 0 && options[0].name@ != "list"@ && options[0].name@ != "pagination"@
            ==> labs_plan(options, user) == Plan::Reply(
            "Unknown labs feature `"@ + options[0].name@ + "`. Use `/labs list`."@,
        ),
        options.len() > 0 && options[0].name@ != "status"@ && options[0].name@ != "deep_memory"@
            && options[0].name@ != "proactive"@ ==> privacy_plan(options, user, memory)
            == Plan::Reply(
            "Unknown privacy option `Some("@ + debug_text(options[0].name@)
                + ")`. Use `/privacy` to see available options."@,
        ),
        options.len() > 0 && options[0].name@ != "show"@ && options[0].name@ != "clear"@
            ==> memory_reply(options, memory) == Some(
            "Unknown memory subcommand `Some("@ + debug_text(options[0].name@)
                + ")`. Use `/memory show` or `/memory clear`."@,
        ),
        text_option(options, "level"@) == Some(level) && mode_named(level) is None ==> effort_plan(
            options,
            user,
            labels,
        ) == Plan::Reply(
            "Unknown effort level `"@ + level + "`. Options: low, medium, high, xhigh, max."@,
        ),
        options.len() == 0 ==> config_plan(options, listed, user) == Plan::Reply(
            "No subcommand provided."@,
        ) && labs_plan(options, user) == Plan::Reply(
            "Choose a labs feature. Use `/labs list` to see available features."@,
        ),
{
}

/// A switch without its value changes nothing, and the user is asked for it.
pub proof fn law_switches_need_a_value(
    options: Seq<CommandOption>,
    arguments: Vec<CommandOption>,
    listed: Option<Seq<u64>>,
    user: UserSettings,
    memory: Seq<char>,
)
    requires
        options.len() > 0,
        options[0].value == OptionValue::SubCommand(arguments),
        boolean_option(arguments@, "enabled"@) is None,
    ensures
        options[0].name@ == "proactive"@ || options[0].name@ == "deep_memory"@ ==> privacy_plan(
            options,
            user,
            memory,
        ) == Plan::Reply("Please specify `enabled`."@),
        options[0].name@ == "pagination"@ ==> labs_plan(options, user) == Plan::Reply(
            "Please specify `enabled`."@,
        ),
        options[0].name@ == "followup"@ ==> config_plan(options, listed, user) == Plan::Reply(
            "Please specify `enabled`."@,
        ),
{
    lemma_privacy_words();
    lemma_config_words();
}

/// What is replied to a change tells what was set: the channel that was added or
/// removed, the personality, the follow-ups with their time, the mode with what it
/// allows.
pub proof fn law_changes_are_told_as_made(
    value: OptionValue,
    user: UserSettings,
    labels: BudgetLabels,
    options: Seq<CommandOption>,
    listed: Seq<u64>,
    id: u64,
)
    ensures
        asks_channel(value, "add"@, id) ==> (channel_plan(value, listed) matches Plan::SaveServer {
            done,
            failed,
            ..
        } && done == "✅ "@ + ("<#"@ + decimal(id as nat) + ">"@) + " added to the allowlist."@
            && failed == "Error: failed to save config."@),
        asks_channel(value, "remove"@, id) ==> (channel_plan(value, listed) matches Plan::SaveServer {
            done,
            failed,
            ..
        } && (listed.contains(id) ==> done == "✅ "@ + ("<#"@ + decimal(id as nat) + ">"@)
            + " removed from the allowlist."@) && (!listed.contains(id) ==> done == ("<#"@
            + decimal(id as nat) + ">"@) + " was not in the allowlist."@) && failed
            == "Error: failed to save config."@),
        personality_plan(value, user) matches Plan::SaveUser { settings, done, failed } ==> {
            &&& settings.personality matches Some(text) ==> done == "✅ Personality set:\n"@
                + quotation(text)
            &&& settings.personality is None ==> done
                == "✅ Personality cleared — I'll use my default behaviour."@
            &&& failed == "Error: failed to save config."@
        },
        followup_plan(value, user) matches Plan::SaveUser { settings, done, failed } ==> done
            == "✅ Follow-up replies "@ + (if settings.followup_enabled {
            "enabled"@
        } else {
            "disabled"@
        }) + " (timeout: "@ + decimal(settings.followup_timeout_secs) + "s)."@ && failed
            == "Error: failed to save config."@,
        effort_plan(options, user, labels) matches Plan::SaveUser { settings, done, failed }
            ==> done == "✅ Thinking effort set to **"@ + mode_name(settings.thinking_mode)
            + "** ("@ + budget(labels, settings.thinking_mode) + ")."@ && failed
            == "Error: failed to save config."@,
{
    reveal_strlit("add");
    reveal_strlit("remove");
    reveal_strlit("list");
    reveal_strlit("clear");
    assert("add"@.len() == 3 && "remove"@.len() == 6 && "list"@.len() == 4 && "clear"@.len() == 5);
}

/// A `/config channel` that cannot be carried out changes nothing and says why; with
/// no channels listed, the list says that there is no restriction.
pub proof fn law_vain_channel_commands_say_why(
    options: Seq<CommandOption>,
    value: OptionValue,
    group: Vec<CommandOption>,
    arguments: Vec<CommandOption>,
    listed: Seq<u64>,
    user: UserSettings,
)
    requires
        value == OptionValue::SubCommandGroup(group),
    ensures
        group@.len() == 0 ==> channel_plan(value, listed) == Plan::Reply(
            "No channel subcommand provided."@,
        ),
        group@.len() > 0 && group@[0].name@ == "list"@ && listed.len() == 0 ==> (channel_plan(
            value,
            listed,
        ) matches Plan::Reply(text) && begins(
            text,
            "I'm allowed to respond in **all channels** (no restriction set)."@,
        )),
        group@.len() > 0 && (group@[0].name@ == "add"@ || group@[0].name@ == "remove"@)
            && group@[0].value == OptionValue::SubCommand(arguments) && channel_option(
            arguments@,
            "channel"@,
        ) is None ==> channel_plan(value, listed) == Plan::Reply(
            "Please provide a valid channel."@,
        ),
        group@.len() > 0 && group@[0].name@ != "list"@ && group@[0].name@ != "clear"@
            && group@[0].name@ != "add"@ && group@[0].name@ != "remove"@ ==> channel_plan(
            value,
            listed,
        ) == Plan::Reply("Unknown channel subcommand `"@ + group@[0].name@ + "`."@),
        options.len() > 0 && options[0].name@ == "channel"@ ==> config_plan(options, None, user)
            == Plan::Reply("Channel configuration is only available in servers, not DMs."@),
        options.len() > 0 && options[0].name@ == "channel"@ ==> config_plan(
            options,
            Some(listed),
            user,
        ) == channel_plan(options[0].value, listed),
{
    reveal_strlit("add");
    reveal_strlit("remove");
    reveal_strlit("list");
    reveal_strlit("clear");
    assert("add"@.len() == 3 && "remove"@.len() == 6 && "list"@.len() == 4 && "clear"@.len() == 5);
    let whole = "I'm allowed to respond in **all channels** (no restriction set). Follow-up replies are disabled until you add explicit reply channels."@;
    let start = "I'm allowed to respond in **all channels** (no restriction set)."@;
    assert(begins(whole, start)) by {
        reveal_strlit(
            "I'm allowed to respond in **all channels** (no restriction set). Follow-up replies are disabled until you add explicit reply channels.",
        );
        reveal_strlit("I'm allowed to respond in **all channels** (no restriction set).");
        assert(whole.subrange(0, start.len() as int) =~= start);
    }
}

} // verus!
