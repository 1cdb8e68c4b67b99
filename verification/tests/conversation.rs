use housebot::answering::{
    answer_step, AnswerAction, AnswerEvent, AnswerFlow, AnswerState, ControlAction, ModelReply,
};
use housebot::clock::{Duration, Instant};
use housebot::commands::{house_commands, OptionSpec, Startup};
use housebot::conversation::{ConversationTracker, Cooldowns, MessageGate};
use housebot::options::{CommandOption, OptionValue};
use housebot::profile::UserProfile;
use housebot::redaction::SecretRedactor;
use housebot::routing::{
    close_after, handle_lua_command, handle_new, incoming_command, is_develop_control, lua_answer,
    lua_checked, lua_permitted, lua_script, needs_roles, message_command, recording, route_message, scripting_permitted, slash_command, Asked, Incoming, MessageCommand,
    NewConversation, Role, Route, ScriptUser, SlashCommand,
};
use housebot::user_config::{BudgetLabels, ServerConfig, ThinkingMode, UserConfig};

fn at(secs: u64) -> Instant {
    Instant::at(Duration::from_secs(secs))
}

fn user() -> UserConfig {
    UserConfig {
        personality: None,
        followup_enabled: true,
        followup_timeout_secs: 300,
        thinking_mode: ThinkingMode::Medium,
        labs_pagination_enabled: false,
        deep_memory_enabled: false,
        proactive_assistance_enabled: false,
    }
}

fn message(id: u64, content: &str) -> Incoming {
    Incoming {
        author_is_bot: false,
        message_id: id,
        channel_id: 1,
        user_id: 2,
        content: content.to_string(),
        mentions_bot: false,
        replies_to_bot: false,
        replies_to_media: false,
    }
}

fn labels() -> BudgetLabels {
    BudgetLabels {
        low: "1k".to_string(),
        medium: "4k".to_string(),
        high: "16k".to_string(),
        xhigh: "32k".to_string(),
        max: "64k".to_string(),
    }
}

#[test]
fn tracker_inactive_when_unknown() {
    let t = ConversationTracker::new(Duration::from_secs(300));
    assert!(!t.is_active(1, 2, at(1000)));
}

#[test]
fn tracker_active_within_window() {
    let mut t = ConversationTracker::new(Duration::from_secs(300));
    let now = 1000;
    t.mark_active(1, 2, at(now), Duration::from_secs(300));
    assert!(t.is_active(1, 2, at(now + 100)));
}

#[test]
fn tracker_pop_timed_out() {
    let mut t = ConversationTracker::new(Duration::from_secs(300));
    let now = 1000;
    t.mark_active(1, 2, at(now), Duration::from_secs(300));
    assert!(!t.is_active(1, 2, at(now + 400)));
    assert!(t.pop_timed_out(1, 2, at(now + 400)));
    // Now removed.
    assert!(!t.pop_timed_out(1, 2, at(now + 400)));
}

#[test]
fn conversations_of_others_stay_as_they_are() {
    let mut t = ConversationTracker::new(Duration::from_secs(300));
    t.mark_active(1, 2, at(0), Duration::from_secs(10));
    t.mark_active(2, 1, at(0), Duration::from_secs(20));
    assert!(t.is_active(1, 2, at(10)));
    assert!(!t.is_active(1, 2, at(11)));
    assert!(t.is_active(2, 1, at(20)));
    t.remove(1, 2);
    assert!(!t.is_active(1, 2, at(1)));
    assert!(t.is_active(2, 1, at(1)));
    assert_eq!(t.default_timeout(), Duration::from_secs(300));
}

#[test]
fn a_moment_before_the_last_word_counts_as_no_time() {
    let mut t = ConversationTracker::new(Duration::from_secs(1));
    t.mark_active(1, 2, at(100), Duration::from_secs(0));
    assert!(t.is_active(1, 2, at(50)));
}

#[test]
fn messages_are_handled_once() {
    let mut gate = MessageGate::new();
    assert!(!gate.already_seen(7));
    assert!(gate.already_seen(7));
    gate.mark_done(7);
    assert!(gate.already_seen(7));
    for id in 1000..1199 {
        gate.mark_done(id);
    }
    assert!(gate.already_seen(7));
    gate.mark_done(1199);
    assert!(!gate.already_seen(7));
}

#[test]
fn one_word_per_cooldown() {
    let mut c = Cooldowns::new();
    let cooldown = Duration::from_secs(300);
    assert!(c.proactive_cooldown_allows(1, 2, at(0), cooldown));
    assert!(!c.proactive_cooldown_allows(1, 2, at(299), cooldown));
    assert!(c.proactive_cooldown_allows(1, 3, at(299), cooldown));
    assert!(c.proactive_cooldown_allows(1, 2, at(300), cooldown));
}

// --------------------------------------------------------------------- commands

#[test]
fn message_commands_are_told_apart() {
    assert_eq!(message_command(" !reset "), MessageCommand::New);
    assert_eq!(message_command("!new"), MessageCommand::New);
    assert_eq!(message_command("!compact\n"), MessageCommand::Compact);
    assert_eq!(
        message_command("!skill add greeter \n You greet people "),
        MessageCommand::Skill("!skill add greeter".to_string(), "You greet people".to_string())
    );
    assert_eq!(
        message_command("!note list"),
        MessageCommand::Note("!note list".to_string(), String::new())
    );
    assert_eq!(message_command(" !note list"), MessageCommand::Talk);
    assert_eq!(message_command("!stats"), MessageCommand::Stats);
    assert_eq!(message_command("!stats please"), MessageCommand::Talk);
}

#[test]
fn new_and_reset_are_aliases() {
    assert_eq!(slash_command("new"), Some(SlashCommand::New));
    assert_eq!(slash_command("reset"), Some(SlashCommand::New));
    assert_eq!(slash_command("nothing"), None);
}

#[test]
fn registered_commands_are_answered() {
    let commands = house_commands(&labels());
    assert_eq!(commands.len(), 17);
    for command in &commands {
        assert!(slash_command(&command.name).is_some());
    }
    assert_eq!(commands[0].name, "config");
    match &commands[0].options[0] {
        OptionSpec::Group {
            name, subcommands, ..
        } => {
            assert_eq!(name, "channel");
            assert_eq!(subcommands.len(), 4);
            assert!(subcommands[1].parameters[0].required);
        }
        _ => unreachable!(),
    }
    match &commands[2].options[0] {
        OptionSpec::Parameter(level) => {
            assert_eq!(level.choices[0].label, "low (1k)");
            assert_eq!(level.choices[4].value, "max");
        }
        _ => unreachable!(),
    }
}

#[test]
fn controls_go_to_jobs_or_to_pages() {
    assert!(is_develop_control("develop:x:back"));
    assert!(!is_develop_control("housebot_labs_page:x:1"));
}

// ---------------------------------------------------------------------- routing

struct State {
    conversations: ConversationTracker,
    cooldowns: Cooldowns,
    gate: MessageGate,
}

impl State {
    fn new() -> Self {
        State {
            conversations: ConversationTracker::new(Duration::from_secs(300)),
            cooldowns: Cooldowns::new(),
            gate: MessageGate::new(),
        }
    }

    fn route(
        &mut self,
        m: &Incoming,
        server: Option<&ServerConfig>,
        user: &UserConfig,
        now: u64,
    ) -> Route {
        route_message(
            m,
            server,
            user,
            &mut self.conversations,
            &mut self.cooldowns,
            &mut self.gate,
            at(now),
            Duration::from_secs(300),
        )
    }
}

const PLAIN: Route = Route::Answer {
    session_expired: false,
    proactive: false,
};

#[test]
fn bots_are_never_answered() {
    let mut s = State::new();
    let server = ServerConfig::new();
    let mut m = message(7, "hi bot, can you help?");
    m.author_is_bot = true;
    m.mentions_bot = true;
    for server in [None, Some(&server)] {
        let route = s.route(&m, server, &user(), 0);
        assert_eq!(route, Route::Ignored);
        assert!(!route.is_logged(true));
    }
    assert_eq!(incoming_command(true, "!new"), None);
    assert_eq!(incoming_command(true, "hello"), None);
    assert_eq!(incoming_command(false, "!new"), Some(MessageCommand::New));
    assert_eq!(incoming_command(false, "hello"), Some(MessageCommand::Talk));
    m.author_is_bot = false;
    assert_eq!(s.route(&m, Some(&server), &user(), 0), PLAIN);
}

#[test]
fn bots_change_nothing() {
    let mut s = State::new();
    s.conversations
        .mark_active(1, 2, at(0), Duration::from_secs(10));
    let mut m = message(8, "how do I do this?");
    m.author_is_bot = true;
    let mut eager = user();
    eager.proactive_assistance_enabled = true;
    let server = ServerConfig::new();
    assert_eq!(s.route(&m, Some(&server), &eager, 100), Route::Ignored);
    m.author_is_bot = false;
    assert_eq!(
        s.route(&m, Some(&server), &eager, 100),
        Route::Answer {
            session_expired: true,
            proactive: true
        }
    );
}

#[test]
fn direct_messages_are_answered_once() {
    let mut s = State::new();
    assert_eq!(s.route(&message(1, "hi"), None, &user(), 0), PLAIN);
    assert_eq!(s.route(&message(1, "hi"), None, &user(), 0), Route::Duplicate);
}

#[test]
fn server_messages_need_an_address() {
    let mut s = State::new();
    let server = ServerConfig::new();
    assert_eq!(
        s.route(&message(1, "hi"), Some(&server), &user(), 0),
        Route::Quiet
    );
    let mut asked = message(2, "hi");
    asked.mentions_bot = true;
    assert_eq!(s.route(&asked, Some(&server), &user(), 0), PLAIN);
    let mut replied = message(3, "hi");
    replied.replies_to_bot = true;
    assert_eq!(s.route(&replied, Some(&server), &user(), 0), PLAIN);
    let mut media = message(4, "what is it");
    media.replies_to_media = true;
    assert_eq!(s.route(&media, Some(&server), &user(), 0), PLAIN);
}

#[test]
fn other_channels_are_left_alone() {
    let mut s = State::new();
    let mut server = ServerConfig::new();
    server.allow(9);
    let mut asked = message(2, "hi");
    asked.mentions_bot = true;
    let route = s.route(&asked, Some(&server), &user(), 0);
    assert_eq!(route, Route::NotAllowed);
    assert!(!route.is_logged(true));
    server.allow(1);
    let route = s.route(&asked, Some(&server), &user(), 0);
    assert_eq!(route, PLAIN);
    assert!(route.is_logged(true));
    assert!(!route.is_logged(false));
}

#[test]
fn followups_need_a_listed_channel_and_an_open_window() {
    let mut s = State::new();
    let mut server = ServerConfig::new();
    s.conversations
        .mark_active(1, 2, at(0), Duration::from_secs(300));
    assert_eq!(
        s.route(&message(1, "and?no"), Some(&server), &user(), 10),
        Route::Quiet
    );
    server.allow(1);
    assert_eq!(
        s.route(&message(1, "and"), Some(&server), &user(), 10),
        PLAIN
    );
    let mut quiet = user();
    quiet.followup_enabled = false;
    assert_eq!(
        s.route(&message(2, "and"), Some(&server), &quiet, 10),
        Route::Quiet
    );
    assert_eq!(
        s.route(&message(3, "and"), Some(&server), &user(), 301),
        Route::Quiet
    );
    assert!(!s.conversations.pop_timed_out(1, 2, at(301)));
}

#[test]
fn an_expired_session_is_reported_with_the_answer() {
    let mut s = State::new();
    s.conversations
        .mark_active(1, 2, at(0), Duration::from_secs(300));
    assert_eq!(
        s.route(&message(1, "hi"), None, &user(), 301),
        Route::Answer {
            session_expired: true,
            proactive: false
        }
    );
}

#[test]
fn speaking_up_is_wanted_and_rare() {
    let mut s = State::new();
    let server = ServerConfig::new();
    let mut wants = user();
    wants.proactive_assistance_enabled = true;
    let question = |id| message(id, "How do I use reminders?");
    assert_eq!(
        s.route(&question(1), Some(&server), &user(), 0),
        Route::Quiet
    );
    assert_eq!(
        s.route(&question(1), Some(&server), &wants, 0),
        Route::Answer {
            session_expired: false,
            proactive: true
        }
    );
    assert_eq!(
        s.route(&question(2), Some(&server), &wants, 299),
        Route::Quiet
    );
    assert_eq!(
        s.route(&message(3, "hello everyone"), Some(&server), &wants, 900),
        Route::Quiet
    );
    let r = recording(true, true);
    assert!(!r.deep_memory && !r.profile_usage);
    let r = recording(true, false);
    assert!(r.deep_memory && r.profile_usage);
}

// ------------------------------------------------------------------------- /lua

fn roles() -> Vec<Role> {
    vec![
        Role {
            id: 1,
            name: "Member".to_string(),
            position: 1,
        },
        Role {
            id: 2,
            name: "Scripting".to_string(),
            position: 5,
        },
        Role {
            id: 3,
            name: "Admin".to_string(),
            position: 9,
        },
    ]
}

#[test]
fn scripting_needs_the_role_or_a_higher_one() {
    assert!(!scripting_permitted(&vec![1], &roles(), "Scripting"));
    assert!(scripting_permitted(&vec![1, 2], &roles(), "Scripting"));
    assert!(scripting_permitted(&vec![3], &roles(), "Scripting"));
    assert!(!scripting_permitted(&vec![3], &roles(), "Missing"));
    assert!(!scripting_permitted(&vec![], &roles(), "Member"));
}

fn who(user_id: u64, in_server: bool, administrator: bool) -> ScriptUser {
    ScriptUser {
        user_id,
        in_server,
        administrator,
        roles: vec![1],
    }
}

#[test]
fn owners_and_administrators_run_scripts() {
    assert!(lua_permitted(&who(5, false, false), 5, None, "Scripting"));
    assert!(!lua_permitted(&who(0, false, false), 0, None, "Scripting"));
    assert!(lua_permitted(&who(6, true, true), 5, None, "Scripting"));
    assert!(!lua_permitted(&who(6, true, false), 5, None, "Scripting"));
    assert!(!lua_permitted(&who(6, true, false), 5, Some(&roles()), "Scripting"));
    assert!(lua_permitted(&who(6, true, false), 5, Some(&roles()), "Member"));
}

#[test]
fn a_script_is_asked_for_before_permission() {
    let options = vec![CommandOption {
        name: "script".to_string(),
        value: OptionValue::Text("print(1)".to_string()),
    }];
    assert_eq!(handle_lua_command(&options, true, "Scripting"), Ok("print(1)"));
    assert_eq!(
        handle_lua_command(&options, false, "Scripting"),
        Err("You need the **Scripting** role (or a higher one) to run scripts.".to_string())
    );
    assert_eq!(
        handle_lua_command(&vec![], false, "Scripting"),
        Err("Please provide a script to run.".to_string())
    );
}

#[test]
fn roles_are_needed_only_where_they_decide() {
    assert!(!needs_roles(&who(5, true, false), 5));
    assert!(!needs_roles(&who(6, false, false), 5));
    assert!(!needs_roles(&who(6, true, true), 5));
    assert!(needs_roles(&who(6, true, false), 5));
    assert_eq!(
        lua_script(&vec![]),
        Err("Please provide a script to run.".to_string())
    );
}

#[test]
fn scripts_run_where_their_user_did_not_run_too_many() {
    assert_eq!(lua_checked("print(1)", false), Ok("print(1)"));
    assert_eq!(
        lua_checked("print(1)", true),
        Err("You're running scripts too quickly — try again in a minute.".to_string())
    );
}

#[test]
fn output_of_scripts_is_redacted_and_framed() {
    let redactor =
        SecretRedactor::from_vars(vec![("API_TOKEN".into(), "hunter2hunter2".into())]);
    assert_eq!(
        lua_answer("token: hunter2hunter2", &redactor),
        "```\ntoken: [REDACTED]\n```"
    );
    assert_eq!(lua_answer("a```b", &redactor), "```\na`\u{200b}``b\n```");
}

// -------------------------------------------------------------------- answering

fn reply(control_action: Option<ControlAction>) -> ModelReply {
    ModelReply {
        text: "It is hunter2hunter2.".to_string(),
        tools_called: vec!["recall".to_string()],
        session_notice: Some("notice".to_string()),
        control_action,
    }
}

fn actions(flow: AnswerFlow, events: Vec<AnswerEvent>) -> Vec<AnswerAction> {
    let redactor =
        SecretRedactor::from_vars(vec![("API_TOKEN".into(), "hunter2hunter2".into())]);
    let mut state = AnswerState::Starting;
    let mut actions = Vec::new();
    for event in events {
        let (next, action) = answer_step(flow, state, event, &redactor);
        state = next;
        actions.push(action);
    }
    assert_eq!(state, AnswerState::Done);
    actions
}

fn flow(session_expired: bool, proactive: bool) -> AnswerFlow {
    AnswerFlow {
        session_expired,
        proactive,
        followup_timeout_secs: 120,
    }
}

fn prompted() -> AnswerEvent {
    AnswerEvent::Prompted(Some("hi".to_string()))
}

#[test]
fn an_answer_goes_its_way() {
    let mut settings = user();
    settings.deep_memory_enabled = true;
    settings.labs_pagination_enabled = true;
    settings.personality = Some("calm".to_string());
    let done = actions(
        flow(true, false),
        vec![
            prompted(),
            AnswerEvent::Limited(false),
            AnswerEvent::Loaded(settings),
            AnswerEvent::Compacted,
            AnswerEvent::Prepared(UserProfile::new()),
            AnswerEvent::Answered(reply(None)),
            AnswerEvent::Marked,
        ],
    );
    assert_eq!(
        done,
        vec![
            AnswerAction::CheckLimit,
            AnswerAction::LoadUser,
            AnswerAction::Compact { deep_memory: true },
            AnswerAction::Prepare {
                logged: "hi".to_string()
            },
            AnswerAction::Ask {
                text: "hi".to_string(),
                personality: Some("calm".to_string()),
                thinking: ThinkingMode::Medium,
                deep_memory: true,
                record_usage: true,
                proactive: false,
                profile: UserProfile::new(),
                profile_tags: String::new(),
                quick_actions: String::new(),
            },
            AnswerAction::MarkActive { timeout_secs: 120 },
            AnswerAction::Send {
                notice: Some("notice".to_string()),
                text: "It is [REDACTED].\n\n🛠️ **Tools used:** `recall`".to_string(),
                paginate: true,
                files: vec![],
            },
        ]
    );
}

#[test]
fn a_word_that_nobody_asked_for_is_not_learned_from() {
    let mut settings = user();
    settings.deep_memory_enabled = true;
    let wanted = ControlAction::OwnerApprovalRequired(7);
    let done = actions(
        flow(false, true),
        vec![
            prompted(),
            AnswerEvent::Limited(false),
            AnswerEvent::Loaded(settings),
            AnswerEvent::Prepared(UserProfile::new()),
            AnswerEvent::Answered(reply(Some(wanted))),
            AnswerEvent::Marked,
        ],
    );
    match &done[3] {
        AnswerAction::Ask {
            deep_memory,
            record_usage,
            proactive,
            ..
        } => assert!(!deep_memory && !record_usage && *proactive),
        _ => unreachable!(),
    }
    assert_eq!(done[4], AnswerAction::MarkActive { timeout_secs: 120 });
    assert_eq!(done[5], AnswerAction::Control(wanted));
}

#[test]
fn a_limited_user_is_only_told() {
    let done = actions(
        flow(true, false),
        vec![
            prompted(),
            AnswerEvent::Limited(true),
            AnswerEvent::Loaded(user()),
        ],
    );
    assert_eq!(
        done[1],
        AnswerAction::Tell(
            "⏱️ You're sending messages too quickly. Please slow down and try again in a moment."
        )
    );
    assert_eq!(done[2], AnswerAction::Nothing);
    let nothing = actions(flow(true, false), vec![AnswerEvent::Prompted(None)]);
    assert_eq!(nothing, vec![AnswerAction::Nothing]);
}

// ------------------------------------------------------------ new conversations

fn said(author_is_bot: bool, content: &str) -> Asked<'_> {
    Asked::Message {
        author_is_bot,
        content,
    }
}

#[test]
fn all_four_names_start_a_conversation_anew() {
    let mut profile = UserProfile::new();
    profile.nickname = "Al".to_string();
    let window = Duration::from_secs(60);
    for (asked, private) in [
        (said(false, "!new"), false),
        (said(false, " !reset\n"), false),
        (Asked::Command("new"), true),
        (Asked::Command("reset"), true),
    ] {
        let mut conversations = ConversationTracker::new(window);
        conversations.mark_active(1, 2, at(10), window);
        conversations.mark_active(1, 3, at(10), window);
        assert_eq!(
            handle_new(asked, 1, 2, &profile, &mut conversations),
            Some(NewConversation {
                reset_session: 2,
                reply: "New conversation started, Al. Your previous conversation history has been cleared.".to_string(),
                private,
            })
        );
        assert!(!conversations.is_active(1, 2, at(11)));
        assert!(!conversations.pop_timed_out(1, 2, at(500)));
        assert!(conversations.is_active(1, 3, at(11)));
    }
    for asked in [
        said(false, "new"),
        said(false, "!new now"),
        said(true, "!new"),
        Asked::Command("!new"),
        Asked::Command("compact"),
    ] {
        let mut conversations = ConversationTracker::new(window);
        conversations.mark_active(1, 2, at(10), window);
        assert_eq!(handle_new(asked, 1, 2, &profile, &mut conversations), None);
        assert!(conversations.is_active(1, 2, at(11)));
    }
}

#[test]
fn some_commands_end_the_conversation() {
    let window = Duration::from_secs(60);
    for (command, ends, resets) in [
        (SlashCommand::New, true, true),
        (SlashCommand::EraseData, true, true),
        (SlashCommand::Compact, true, false),
        (SlashCommand::Help, false, false),
    ] {
        let mut conversations = ConversationTracker::new(window);
        conversations.mark_active(1, 2, at(10), window);
        conversations.mark_active(3, 2, at(10), window);
        assert_eq!(close_after(command, 1, 2, &mut conversations), resets);
        assert_eq!(conversations.is_active(1, 2, at(11)), !ends);
        assert!(conversations.is_active(3, 2, at(11)));
    }
}

// -------------------------------------------------------------------- starting

#[test]
fn every_start_registers_all_commands_and_only_the_first_starts_reminders() {
    let names: Vec<String> = house_commands(&labels())
        .into_iter()
        .map(|command| command.name)
        .collect();
    let mut startup = Startup::new();
    for time in 0..3 {
        let plan = startup.ready(&labels());
        assert_eq!(plan.start_reminders, time == 0);
        let mut registration = plan.registration;
        let mut registered = Vec::new();
        let mut errors = Vec::new();
        let mut before = Ok(());
        loop {
            let step = registration.step(before);
            errors.extend(step.error);
            let Some(command) = step.command else {
                break;
            };
            before = if command.name == "labs" || command.name == "help" {
                Err("no".to_string())
            } else {
                Ok(())
            };
            registered.push(command.name);
        }
        assert_eq!(registered, names);
        assert_eq!(
            errors,
            vec![
                "Failed to register /labs slash command: no".to_string(),
                "Failed to register slash command: no".to_string()
            ]
        );
    }
}
