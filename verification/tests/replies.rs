use std::collections::HashMap;

use housebot::history::{
    handle_history_interaction, read_history_message, render_history, HistoryMessage, HistoryPlan,
};
use housebot::media::{media_data, media_type, message_has_supported_media};
use housebot::message_log::{LogWrite, MessageLog, RemoveError};
use housebot::options::{CommandOption, OptionValue};
use housebot::profile::{
    handle_profile_interaction, learned, profile_cleared_reply, ProfilePlan, UserInfo, UserProfile,
};
use housebot::prompt::{
    logged_nickname, prompt_text, reference_context, referenced_message_context,
};
use housebot::replies::{
    commit_hash_response, compact_done_message, compact_progress, format_lua_reply,
    is_proactive_candidate, new_conversation_reply, reminder_delivery, reminder_message, render_progress_line,
    split_command, MAX_MESSAGE_LENGTH,
};
use housebot::settings::{
    handle_config_interaction, handle_effort_interaction, handle_labs_interaction,
    handle_memory_interaction, handle_privacy_interaction, handle_status_interaction,
    memory_cleared_reply, MemoryPlan, SettingsPlan,
};
use housebot::user_config::{BudgetLabels, ServerConfig, ThinkingMode, UserConfig};

fn option(name: &str, value: OptionValue) -> CommandOption {
    CommandOption {
        name: name.to_string(),
        value,
    }
}

fn user() -> UserConfig {
    UserConfig {
        personality: None,
        followup_enabled: true,
        followup_timeout_secs: 300,
        thinking_mode: ThinkingMode::Medium,
        labs_pagination_enabled: false,
        deep_memory_enabled: false,
        proactive_assistance_enabled: false,
    }
}

fn labels() -> BudgetLabels {
    BudgetLabels {
        low: "1k".to_string(),
        medium: "4k".to_string(),
        high: "16k".to_string(),
        xhigh: "32k".to_string(),
        max: "64k".to_string(),
    }
}

// ------------------------------------------------------------------------ media

#[test]
fn recognizes_supported_media_extensions() {
    assert_eq!(media_type("PHOTO.PNG"), Some("image/png"));
    assert_eq!(media_type("recording.mp3"), Some("audio/mpeg"));
    assert_eq!(media_type("clip.mp4"), Some("video/mp4"));
    assert_eq!(media_type("document.pdf"), None);
}

#[test]
fn media_is_encoded_with_its_type() {
    let media = media_data("a.b.JPEG", b"hello").unwrap();
    assert_eq!(media.media_type, "image/jpeg");
    assert_eq!(media.data, "aGVsbG8=");
    assert!(media_data("png", b"hello").is_none());
    assert!(message_has_supported_media(&vec![
        "a.txt".to_string(),
        "b.webm".to_string()
    ]));
    assert!(!message_has_supported_media(&vec!["a.txt".to_string()]));
}

// ------------------------------------------------------------------------- /lua

#[test]
fn lua_reply_is_fenced() {
    assert_eq!(format_lua_reply("hello"), "```\nhello\n```");
}

#[test]
fn lua_reply_escapes_nested_fences() {
    let reply = format_lua_reply("a ``` b");
    assert_eq!(reply.matches("```").count(), 2);
}

#[test]
fn lua_reply_fits_discord_limit() {
    let reply = format_lua_reply(&"x".repeat(5000));
    assert!(reply.chars().count() <= MAX_MESSAGE_LENGTH);
    assert!(reply.starts_with("```\n"));
    assert!(reply.ends_with("\n```"));
    assert!(reply.contains('…'));
}

// --------------------------------------------------------------------- /history

#[test]
fn global_history_combines_profile_and_channel_context() {
    let mut profile = UserProfile::new();
    profile.nickname = "Ali".to_string();
    profile.tags = vec!["web research".to_string()];
    let history = vec![
        read_history_message(
            "{\"role\": \"user\", \"content\": \"Find the release notes\", \"discord_context\": {\"channel_id\": 42, \"timestamp\": \"2026-07-14T20:15:00Z\"}}",
        ),
        read_history_message("{\"role\": \"assistant\", \"content\": \"Here they are\"}"),
    ];

    let rendered = render_history(&profile, &history);
    assert!(rendered.contains("History for Ali"));
    assert!(rendered.contains("all servers and channels"));
    assert!(rendered.contains("Profile interests: web research"));
    assert!(rendered.contains("[user in <#42> on 2026-07-14]"));
    assert!(
        rendered.find("Find the release notes").unwrap()
            < rendered.find("Here they are").unwrap()
    );
}

#[test]
fn global_history_empty_state_keeps_profile_identity() {
    let mut profile = UserProfile::new();
    profile.display_name = "Alice".to_string();
    let rendered = render_history(&profile, &vec![]);
    assert!(rendered.contains("History for Alice"));
    assert!(rendered.contains("No conversation history yet."));
}

#[test]
fn a_history_message_is_read_from_json() {
    assert_eq!(
        read_history_message(
            "{\"role\":\"user\",\"content\":\"hi\",\"discord_context\":{\"channel_id\":-1,\"timestamp\":5}}"
        ),
        HistoryMessage {
            role: Some("user".to_string()),
            content: Some("hi".to_string()),
            channel_id: None,
            timestamp: None,
        }
    );
    assert_eq!(
        read_history_message("[]"),
        HistoryMessage {
            role: None,
            content: None,
            channel_id: None,
            timestamp: None,
        }
    );
}

#[test]
fn a_long_history_shows_its_last_ten_messages() {
    let mut profile = UserProfile::new();
    profile.username = "al".to_string();
    let mut history: Vec<HistoryMessage> = (0..12)
        .map(|i| HistoryMessage {
            role: Some("user".to_string()),
            content: Some(format!("{i}")),
            channel_id: None,
            timestamp: Some("short".to_string()),
        })
        .collect();
    history.push(HistoryMessage {
        role: None,
        content: None,
        channel_id: None,
        timestamp: None,
    });
    let rendered = render_history(&profile, &history);
    let lines: Vec<&str> = rendered.lines().collect();
    assert_eq!(lines[0], "**History for al**");
    assert_eq!(lines[2], "Total messages: 13 (12 turns)");
    assert_eq!(lines[4], "[user] 2");
    assert_eq!(lines[13], "[user] 11");
    assert_eq!(lines[14], "... and 3 more messages");
    assert_eq!(lines.len(), 15);
}

#[test]
fn a_preview_stops_after_eighty_characters() {
    let profile = UserProfile::new();
    let history = vec![HistoryMessage {
        role: None,
        content: Some("ä".repeat(100)),
        channel_id: None,
        timestamp: None,
    }];
    let rendered = render_history(&profile, &history);
    assert!(rendered.ends_with(&format!("[?] {}", "ä".repeat(80))));
}

#[test]
fn history_is_cleared_by_name() {
    let mut profile = UserProfile::new();
    profile.username = "al".to_string();
    let clear = vec![option("clear", OptionValue::Other)];
    assert_eq!(
        handle_history_interaction(&clear, &profile, &vec![]),
        HistoryPlan::Clear {
            reply: "✅ Conversation history cleared for al.".to_string()
        }
    );
    assert!(matches!(
        handle_history_interaction(&vec![], &profile, &vec![]),
        HistoryPlan::Reply(_)
    ));
}

// --------------------------------------------------------------------- /profile

#[test]
fn a_profile_is_listed_line_by_line() {
    let mut profile = UserProfile::new();
    profile.username = "al".to_string();
    profile.display_name = "Alice".to_string();
    profile.avatar_url = "http://x".to_string();
    profile.tags = vec!["a".to_string(), "b".to_string()];
    profile.quick_actions = vec![("draw".to_string(), 3), ("ask".to_string(), 1)];
    let (tags, actions) = learned(&profile);
    assert_eq!(tags, "a, b");
    assert_eq!(actions, "draw (3), ask (1)");
    assert_eq!(
        handle_profile_interaction(&vec![], profile, None),
        ProfilePlan::Reply(
            "**Profile for Alice**\nUsername: al\nDisplay name: Alice\nGuild: DM\nAvatar: (set)\nTags: a, b\nQuick actions: draw: 3, ask: 1".to_string()
        )
    );
}

#[test]
fn clearing_a_profile_keeps_who_the_user_is() {
    let mut profile = UserProfile::new();
    profile.username = "al".to_string();
    profile.tags = vec!["a".to_string()];
    let clear = vec![option("clear", OptionValue::SubCommand(vec![]))];
    match handle_profile_interaction(&clear, profile, Some(3)) {
        ProfilePlan::Clear(kept) => {
            assert_eq!(kept.username, "al");
            assert!(kept.tags.is_empty());
        }
        ProfilePlan::Reply(_) => unreachable!(),
    }
    assert!(profile_cleared_reply(true, true).starts_with('✅'));
    assert!(profile_cleared_reply(true, false).starts_with('⚠'));
}

#[test]
fn a_profile_is_refreshed() {
    let info = || UserInfo {
        username: "al".to_string(),
        display_name: "Alice".to_string(),
        avatar_url: None,
    };
    let mut profile = UserProfile::new();
    profile.nickname = "old".to_string();
    profile.refresh(info(), 5, None);
    assert_eq!(profile.username, "al");
    assert_eq!(profile.nickname, "");
    assert_eq!(profile.guild_id, 5);
    profile.refresh(info(), 5, Some(Some("Ali".to_string())));
    assert_eq!(profile.best_name(), "Ali");
    profile.refresh(info(), 5, None);
    assert_eq!(profile.best_name(), "Ali");
    profile.refresh(info(), 5, Some(None));
    assert_eq!(profile.best_name(), "Alice");
}

// ---------------------------------------------------------------------- replies

#[test]
fn commit_hash_response_reports_build_sha() {
    assert_eq!(
        commit_hash_response(Some("abcdef1234567890")),
        "Running commit: `abcdef1234567890`"
    );
    assert_eq!(
        commit_hash_response(None),
        "Running commit is unavailable for this build."
    );
}

#[test]
fn an_empty_build_sha_counts_as_none() {
    assert_eq!(
        commit_hash_response(Some("")),
        "Running commit is unavailable for this build."
    );
}

#[test]
fn proactive_candidate_is_narrow() {
    assert!(is_proactive_candidate("How do I use reminders?"));
    assert!(is_proactive_candidate("Remind me tomorrow"));
    assert!(!is_proactive_candidate("hello everyone"));
}

#[test]
fn progress_is_drawn_as_a_bar() {
    assert_eq!(
        compact_progress(35, Some("reading")),
        "🧠 **Compacting conversation**\n`[███░░░░░░░] 35%` — reading"
    );
    assert_eq!(
        compact_progress(250, None),
        "🧠 **Compacting conversation**\n`[██████████] 250%`"
    );
    assert_eq!(
        render_progress_line("compact:0:"),
        Some(compact_progress(0, None))
    );
    assert_eq!(
        render_progress_line("compact:40:a:b"),
        Some(compact_progress(40, Some("a:b")))
    );
    assert_eq!(render_progress_line("compact:x"), None);
    assert_eq!(render_progress_line("other:40"), None);
}

#[test]
fn short_answers_are_fixed() {
    assert!(compact_done_message(true).contains("compacted into memory"));
    assert!(compact_done_message(false).contains("without saving"));
    assert_eq!(
        new_conversation_reply("Ali"),
        "New conversation started, Ali. Your previous conversation history has been cleared."
    );
    assert_eq!(reminder_message("tea"), "⏰ **Reminder:** tea");
    assert_eq!(
        split_command(" !note save x \n y \n"),
        ("!note save x".to_string(), "y".to_string())
    );
}

// ----------------------------------------------------------------------- prompt

#[test]
fn a_message_replied_to_is_quoted_with_its_addresses() {
    assert_eq!(
        referenced_message_context(" see https://a.b/c?d=1 and www.e.f <x> ", &vec![]),
        Some(
            "[Message being replied to]\nsee https://a.b/c?d=1 and www.e.f <x>\n\nThe message above contains URL(s). Use the web fetch tool on these URL(s) before answering: https://a.b/c?d=1, www.e.f\n[End message being replied to]".to_string()
        )
    );
    assert_eq!(referenced_message_context("  ", &vec!["a.txt".to_string()]), None);
    assert_eq!(
        referenced_message_context("", &vec!["a.png".to_string()]),
        reference_context("", &vec![], true)
    );
    assert_eq!(
        reference_context("hi", &vec!["u".to_string()], true),
        Some(
            "[Message being replied to]\nhi\n\nThe message above contains URL(s). Use the web fetch tool on these URL(s) before answering: u\n\n[The message above also contains media attachment(s) for analysis.]\n[End message being replied to]".to_string()
        )
    );
}

#[test]
fn mentions_of_the_bot_are_left_out() {
    assert_eq!(
        prompt_text("<@7> hi <@!7> there <@8>", 7, None, false),
        Some("hi  there <@8>".to_string())
    );
    assert_eq!(prompt_text("<@7>", 7, None, false), None);
    assert_eq!(
        prompt_text("<@7>", 7, None, true),
        Some("(no text)".to_string())
    );
    assert_eq!(
        prompt_text("<@7>", 7, Some("quoted".to_string()), false),
        Some("quoted".to_string())
    );
    assert_eq!(
        prompt_text("why", 7, Some("quoted".to_string()), false),
        Some("why\n\nquoted".to_string())
    );
}

#[test]
fn the_log_prefers_the_nickname() {
    assert_eq!(logged_nickname(Some("n"), Some("g"), "u"), Some("n"));
    assert_eq!(logged_nickname(None, Some("g"), "u"), Some("g"));
    assert_eq!(logged_nickname(Some("u"), Some("g"), "u"), None);
    assert_eq!(logged_nickname(None, None, "u"), None);
}

// ------------------------------------------------------------------ message log

#[test]
fn a_log_line_is_read_back() {
    let line = MessageLog::line_now("two\nlines \"quoted\"");
    assert!(line.ends_with('\n'));
    assert_eq!(line.matches('\n').count(), 1);
    let entry = MessageLog::read(&line).unwrap();
    assert_eq!(entry.message, "two\nlines \"quoted\"");
    assert!(entry.timestamp.contains('T'));
    assert!(entry.timestamp.ends_with("+00:00"));
    assert!(MessageLog::read("{}").is_none());
}

#[test]
fn a_log_line_holds_the_time_and_the_message() {
    let line = MessageLog::line("2026-01-02T03:04:05+00:00", "test message");
    let value: serde_json::Value = serde_json::from_str(line.trim()).unwrap();
    assert_eq!(value["message"], "test message");
    assert_eq!(value["timestamp"], "2026-01-02T03:04:05+00:00");
    assert_eq!(MessageLog::new("logs".to_string()).path(12), "logs/12.jsonl");
}

#[test]
fn appended_lines_stay_apart() {
    let log = format!(
        "{}{}",
        MessageLog::line("t", "a\nb"),
        MessageLog::line("t", "c")
    );
    let lines: Vec<&str> = log.lines().collect();
    assert_eq!(lines.len(), 2);
    assert_eq!(MessageLog::read(lines[0]).unwrap().message, "a\nb");
    assert_eq!(MessageLog::read(lines[1]).unwrap().message, "c");
}

/// Files in memory.
struct Files(HashMap<String, String>);

impl Files {
    fn write(&mut self, write: LogWrite) {
        self.0.entry(write.path).or_default().push_str(&write.line);
    }

    fn remove(&mut self, path: &str) -> Result<(), RemoveError> {
        match self.0.remove(path) {
            Some(_) => Ok(()),
            None => Err(RemoveError::NotFound),
        }
    }
}

#[test]
fn append_and_clear() {
    let mut files = Files(HashMap::new());
    let log = MessageLog::new("message_log".to_string());
    files.write(log.append(1, "hello"));
    files.write(log.append(1, "world"));
    let path = log.path(1);
    let content = files.0[&path].clone();
    assert_eq!(content.lines().count(), 2);
    assert!(content.contains("hello"));
    MessageLog::clear_outcome(files.remove(&path)).unwrap();
    assert!(!files.0.contains_key(&path));
}

#[test]
fn clear_noop_for_unknown_user() {
    let mut files = Files(HashMap::new());
    let log = MessageLog::new("message_log".to_string());
    MessageLog::clear_outcome(files.remove(&log.path(999))).unwrap();
}

#[test]
fn entries_are_valid_json() {
    let mut files = Files(HashMap::new());
    let log = MessageLog::new("message_log".to_string());
    files.write(log.append(2, "test message"));
    let raw = &files.0[&log.path(2)];
    let val: serde_json::Value = serde_json::from_str(raw.trim()).unwrap();
    assert_eq!(val["message"], "test message");
    assert!(val["timestamp"].as_str().is_some());
    assert_eq!(val.as_object().unwrap().len(), 2);
}

#[test]
fn messages_of_a_user_stay_in_order_and_apart_from_others() {
    let mut files = Files(HashMap::new());
    let log = MessageLog::new("message_log".to_string());
    files.write(log.append_at(1, "t1", "first"));
    files.write(log.append_at(10, "t2", "another's"));
    files.write(log.append_at(1, "t3", "second\nline"));
    let entries: Vec<_> = files.0[&log.path(1)]
        .lines()
        .map(|line| MessageLog::read(line).unwrap())
        .map(|entry| (entry.timestamp, entry.message))
        .collect();
    assert_eq!(
        entries,
        vec![
            ("t1".to_string(), "first".to_string()),
            ("t3".to_string(), "second\nline".to_string())
        ]
    );
    assert_eq!(files.0[&log.path(10)].lines().count(), 1);
}

#[test]
fn errors_of_the_log_are_reported_and_forgotten() {
    assert_eq!(MessageLog::append_outcome(Ok(())), None);
    assert_eq!(
        MessageLog::append_outcome(Err("disk full".to_string())),
        Some("Failed to append message: disk full".to_string())
    );
    assert_eq!(
        MessageLog::clear_outcome(Err(RemoveError::Other("denied".to_string()))),
        Err("denied".to_string())
    );
}

#[test]
fn timestamps_have_their_form() {
    let entry = MessageLog::read(&MessageLog::line_now("x")).unwrap();
    let stamp: Vec<char> = entry.timestamp.chars().collect();
    assert_eq!(stamp[4], '-');
    assert_eq!(stamp[7], '-');
    assert_eq!(stamp[10], 'T');
    assert_eq!(stamp[13], ':');
    assert_eq!(stamp[16], ':');
    assert!(entry.timestamp.ends_with("+00:00"));
    assert!([25, 29, 32, 35].contains(&stamp.len()));
}

#[test]
fn reminders_go_to_the_user_they_are_kept_under() {
    assert_eq!(
        reminder_delivery("42", "tea"),
        Some((42, "⏰ **Reminder:** tea".to_string()))
    );
    assert_eq!(reminder_delivery("somebody", "tea"), None);
}

// --------------------------------------------------------------------- settings

fn channel_command(action: &str, id: u64) -> Vec<CommandOption> {
    vec![option(
        "channel",
        OptionValue::SubCommandGroup(vec![option(
            action,
            OptionValue::SubCommand(vec![option("channel", OptionValue::Channel(id))]),
        )]),
    )]
}

fn listed(ids: &[u64]) -> Option<ServerConfig> {
    let mut server = ServerConfig::new();
    for id in ids {
        server.allow(*id);
    }
    Some(server)
}

#[test]
fn channels_are_listed_in_order() {
    let mut server = ServerConfig::new();
    server.allow(5);
    server.allow(3);
    server.allow(5);
    server.allow(4);
    assert_eq!(server.channels(), &vec![3, 4, 5]);
    assert!(server.disallow(4));
    assert!(!server.disallow(4));
    assert_eq!(server.channels(), &vec![3, 5]);
    assert!(server.is_channel_allowed(3));
    assert!(!server.is_channel_allowed(4));
    assert!(ServerConfig::new().is_channel_allowed(4));
    let list = vec![option(
        "channel",
        OptionValue::SubCommandGroup(vec![option("list", OptionValue::SubCommand(vec![]))]),
    )];
    assert_eq!(
        handle_config_interaction(&list, Some(server), user()).reply(true),
        "Allowed channels: <#3>, <#5>"
    );
    assert!(handle_config_interaction(&list, Some(ServerConfig::new()), user())
        .reply(true)
        .starts_with("I'm allowed to respond in **all channels**"));
}

#[test]
fn channels_are_added_and_removed() {
    match handle_config_interaction(&channel_command("add", 7), listed(&[3]), user()) {
        SettingsPlan::SaveServer {
            server,
            done,
            failed,
        } => {
            assert_eq!(server.channels(), &vec![3, 7]);
            assert_eq!(done, "✅ <#7> added to the allowlist.");
            assert_eq!(failed, "Error: failed to save config.");
        }
        _ => unreachable!(),
    }
    let plan = handle_config_interaction(&channel_command("remove", 3), listed(&[3]), user());
    assert_eq!(plan.reply(true), "✅ <#3> removed from the allowlist.");
    let plan = handle_config_interaction(&channel_command("remove", 4), listed(&[3]), user());
    assert_eq!(plan.reply(true), "<#4> was not in the allowlist.");
    let plan = handle_config_interaction(&channel_command("remove", 4), listed(&[3]), user());
    assert_eq!(plan.reply(false), "Error: failed to save config.");
    let plan = handle_config_interaction(&channel_command("clear", 0), listed(&[3]), user());
    match plan {
        SettingsPlan::SaveServer { server, .. } => assert!(server.channels().is_empty()),
        _ => unreachable!(),
    }
    let plan = handle_config_interaction(&channel_command("move", 4), listed(&[3]), user());
    assert_eq!(plan.reply(true), "Unknown channel subcommand `move`.");
    let plan = handle_config_interaction(&channel_command("add", 4), None, user());
    assert_eq!(
        plan.reply(true),
        "Channel configuration is only available in servers, not DMs."
    );
}

#[test]
fn odd_config_options_are_refused() {
    let reply = |options: Vec<CommandOption>| {
        handle_config_interaction(&options, listed(&[]), user()).reply(true)
    };
    assert_eq!(reply(vec![]), "No subcommand provided.");
    assert_eq!(
        reply(vec![option("x", OptionValue::Other)]),
        "Unknown config option `x`."
    );
    assert_eq!(
        reply(vec![option("channel", OptionValue::Other)]),
        "Unexpected option structure."
    );
    assert_eq!(
        reply(vec![option("channel", OptionValue::SubCommandGroup(vec![]))]),
        "No channel subcommand provided."
    );
    assert_eq!(
        reply(vec![option(
            "channel",
            OptionValue::SubCommandGroup(vec![option("add", OptionValue::SubCommand(vec![]))])
        )]),
        "Please provide a valid channel."
    );
    assert_eq!(
        reply(vec![option("personality", OptionValue::Other)]),
        "Unexpected option structure."
    );
    assert_eq!(
        reply(vec![option("followup", OptionValue::Integer(1))]),
        "Unexpected option structure."
    );
}

#[test]
fn personalities_are_set_and_cleared() {
    let set = |text: &str| {
        handle_config_interaction(
            &vec![option(
                "personality",
                OptionValue::SubCommand(vec![option(
                    "text",
                    OptionValue::Text(text.to_string()),
                )]),
            )],
            None,
            user(),
        )
    };
    match set("kind\nand brief") {
        SettingsPlan::SaveUser { config, done, .. } => {
            assert_eq!(config.personality, Some("kind\nand brief".to_string()));
            assert_eq!(done, "✅ Personality set:\n> kind\n> and brief");
        }
        _ => unreachable!(),
    }
    match set("  \n ") {
        SettingsPlan::SaveUser { config, done, .. } => {
            assert_eq!(config.personality, None);
            assert_eq!(
                done,
                "✅ Personality cleared — I'll use my default behaviour."
            );
        }
        _ => unreachable!(),
    }
}

#[test]
fn followups_are_set() {
    let set = |options: Vec<CommandOption>| {
        handle_config_interaction(
            &vec![option("followup", OptionValue::SubCommand(options))],
            None,
            user(),
        )
    };
    let on = || option("enabled", OptionValue::Boolean(true));
    match set(vec![on(), option("timeout", OptionValue::Integer(60))]) {
        SettingsPlan::SaveUser { config, done, .. } => {
            assert_eq!(config.followup_timeout_secs, 60);
            assert_eq!(done, "✅ Follow-up replies enabled (timeout: 60s).");
        }
        _ => unreachable!(),
    }
    assert_eq!(
        set(vec![option("enabled", OptionValue::Boolean(false))]).reply(true),
        "✅ Follow-up replies disabled (timeout: 300s)."
    );
    assert_eq!(
        set(vec![on(), option("timeout", OptionValue::Integer(0))]).reply(true),
        "Timeout must be at least 1 second."
    );
    assert_eq!(set(vec![]).reply(true), "Please specify `enabled`.");
}

#[test]
fn effort_is_shown_and_set() {
    let shown = handle_effort_interaction(&vec![], user(), &labels()).reply(true);
    assert_eq!(
        shown,
        "**Thinking effort:** currently **medium** (4k).\n• **low** — 1k\n• **medium** — 4k ←\n• **high** — 16k\n• **xhigh** — 32k\n• **max** — 64k\nUse `/effort level:<mode>` to change it."
    );
    let level = |name: &str| vec![option("level", OptionValue::Text(name.to_string()))];
    match handle_effort_interaction(&level("xhigh"), user(), &labels()) {
        SettingsPlan::SaveUser { config, done, .. } => {
            assert_eq!(config.thinking_mode, ThinkingMode::XHigh);
            assert_eq!(done, "✅ Thinking effort set to **xhigh** (32k).");
        }
        _ => unreachable!(),
    }
    assert_eq!(
        handle_effort_interaction(&level("huge"), user(), &labels()).reply(true),
        "Unknown effort level `huge`. Options: low, medium, high, xhigh, max."
    );
}

#[test]
fn the_status_shows_the_settings() {
    let mut config = user();
    config.personality = Some(" a\nb ".to_string());
    assert_eq!(
        handle_status_interaction(&config, &labels()),
        "**Your current settings:**\n• Effort level: **medium** — 4k\n• Follow-up replies: enabled (timeout: 300s)\n• Personality: > a\n> b\n\nUse `/effort` to change the thinking effort level."
    );
    config.personality = Some("  ".to_string());
    config.followup_enabled = false;
    let text = handle_status_interaction(&config, &labels());
    assert!(text.contains("Follow-up replies: disabled\n• Personality: default\n"));
}

#[test]
fn labs_are_switched() {
    let reply =
        |options: Vec<CommandOption>| handle_labs_interaction(&options, user()).reply(false);
    assert_eq!(
        reply(vec![]),
        "Choose a labs feature. Use `/labs list` to see available features."
    );
    assert_eq!(
        reply(vec![option("list", OptionValue::SubCommand(vec![]))]),
        "**Labs features**\n• Pagination: disabled"
    );
    assert_eq!(
        reply(vec![option("x", OptionValue::Other)]),
        "Unknown labs feature `x`. Use `/labs list`."
    );
    assert_eq!(
        reply(vec![option("pagination", OptionValue::Other)]),
        "Unexpected option structure."
    );
    assert_eq!(
        reply(vec![option("pagination", OptionValue::SubCommand(vec![]))]),
        "Please specify `enabled`."
    );
    let on = vec![option(
        "pagination",
        OptionValue::SubCommand(vec![option("enabled", OptionValue::Boolean(true))]),
    )];
    assert_eq!(
        handle_labs_interaction(&on, user()).reply(false),
        "Error: failed to save labs configuration."
    );
    assert_eq!(
        handle_labs_interaction(&on, user()).reply(true),
        "✅ Paginated responses enabled."
    );
}

#[test]
fn privacy_is_shown_and_set() {
    let mut config = user();
    config.deep_memory_enabled = true;
    let text = handle_privacy_interaction(&vec![], config, "likes tea ☕").reply(true);
    assert!(text.contains("Deep memory: enabled (13 bytes stored — use `/memory show` to view)"));
    assert!(text.contains("Proactive assistance: disabled"));
    let switch = |name: &str, on: bool| {
        vec![option(
            name,
            OptionValue::SubCommand(vec![option("enabled", OptionValue::Boolean(on))]),
        )]
    };
    match handle_privacy_interaction(&switch("deep_memory", true), user(), "") {
        SettingsPlan::SaveUser { config, done, .. } => {
            assert!(config.deep_memory_enabled);
            assert!(!config.proactive_assistance_enabled);
            assert!(done.starts_with("✅ Deep memory enabled."));
        }
        _ => unreachable!(),
    }
    assert_eq!(
        handle_privacy_interaction(&switch("proactive", true), user(), "").reply(true),
        "✅ Proactive assistance enabled."
    );
    assert_eq!(
        handle_privacy_interaction(
            &vec![option("a\"b", OptionValue::Other)],
            user(),
            ""
        )
        .reply(true),
        "Unknown privacy option `Some(\"a\\\"b\")`. Use `/privacy` to see available options."
    );
    assert_eq!(
        handle_privacy_interaction(&vec![option("proactive", OptionValue::Other)], user(), "")
            .reply(true),
        "Unexpected option structure."
    );
}

#[test]
fn memory_is_shown_and_cleared() {
    assert_eq!(
        handle_memory_interaction(&vec![], "likes tea"),
        MemoryPlan::Reply("**What I remember about you:**\nlikes tea".to_string())
    );
    match handle_memory_interaction(&vec![option("show", OptionValue::Other)], " \n") {
        MemoryPlan::Reply(text) => assert!(text.starts_with("No memories stored yet.")),
        MemoryPlan::Clear => unreachable!(),
    }
    assert_eq!(
        handle_memory_interaction(&vec![option("clear", OptionValue::Other)], ""),
        MemoryPlan::Clear
    );
    assert_eq!(
        handle_memory_interaction(&vec![option("x", OptionValue::Other)], ""),
        MemoryPlan::Reply(
            "Unknown memory subcommand `Some(\"x\")`. Use `/memory show` or `/memory clear`."
                .to_string()
        )
    );
    assert!(memory_cleared_reply(true).starts_with('✅'));
    assert!(memory_cleared_reply(false).contains("Failed"));
}
