use housebot::changelog::{
    commit_summary, deployment_changelog, short_sha, GitHubCommit, GitHubCommitDetails,
};
use housebot::commands::{deployment_commands, OptionSpec, ParameterKind};
use housebot::components::{ButtonLook, Row};
use housebot::containers::{
    checkpoint, container_commands, deploy_commands, deploy_progress, docker_object_missing,
    docker_outcome, images_to_keep, images_to_remove, running_sha, valid_housebot_image, valid_sha,
    DeploymentError, DeploymentStage, RunningImageError, HOUSE_CHATBOT_CONTAINER,
};
use housebot::deploy_control::{
    automatic_decision, automatic_outcome, button_decision, command_decision,
    commit_not_found_reply, commit_url,
    compare_url, confirm_components, confirmed_sha, deployment_reply, env_u64,
    is_deployment_command, optional_env_u64, preview_description, recent_commits_url,
    rollback_commands, rollback_reply, running_for_update, up_to_date_reply, update_changelog,
    update_reply, updated_reply, AutomaticDecision, ButtonDecision, CommandDecision, DeployOption,
};
use housebot::deployment::{
    classify_deployment_text, deployment_event, rollback_allowed, ChannelMessage, DeploymentEvent,
    EmbedField, MessageEmbed,
};
use housebot::environment::{housebot_env, housebot_env_vars, limits_of, parse_dotenv, Limits};
use housebot::rollout::{
    failure_message, DeploymentRunSummary, Rollout, RolloutFailure, RolloutKind, RolloutStatus,
};

fn commit(sha: &str, message: &str) -> GitHubCommit {
    GitHubCommit {
        sha: sha.into(),
        html_url: format!("https://github.com/example/repo/commit/{sha}"),
        commit: GitHubCommitDetails {
            message: message.into(),
        },
    }
}

fn report(text: &str, commit: Option<&str>) -> ChannelMessage {
    ChannelMessage {
        webhook_id: Some(9),
        content: text.to_string(),
        embeds: vec![MessageEmbed {
            title: None,
            description: None,
            fields: commit
                .iter()
                .map(|sha| EmbedField {
                    name: "Commit".to_string(),
                    value: format!("`{sha}`"),
                })
                .collect(),
        }],
    }
}

#[test]
fn rollback_is_owner_and_channel_scoped() {
    assert!(rollback_allowed(10, 10, 20, 20));
    assert!(!rollback_allowed(10, 11, 20, 20));
    assert!(!rollback_allowed(10, 10, 21, 20));
    assert!(!rollback_allowed(0, 0, 20, 20));
}

#[test]
fn invalid_numeric_environment_value_is_rejected() {
    let error = env_u64("DEPLOYMENT_BOT_TEST_ID", Some("not-a-number")).unwrap_err();
    assert!(error.contains("numeric ID"));
}

#[test]
fn optional_guild_id_accepts_unset_and_numeric_values() {
    assert_eq!(
        optional_env_u64("DEPLOYMENT_BOT_TEST_GUILD_ID", None).unwrap(),
        None
    );
    assert_eq!(
        optional_env_u64("DEPLOYMENT_BOT_TEST_GUILD_ID", Some("123456789")).unwrap(),
        Some(123456789)
    );
}

#[test]
fn deployment_webhook_text_is_classified_strictly() {
    assert_eq!(
        classify_deployment_text("HomeLab deployment succeeded"),
        Some(true)
    );
    assert_eq!(
        classify_deployment_text("HomeLab deployment FAILED"),
        Some(false)
    );
    assert_eq!(classify_deployment_text("build succeeded"), Some(true));
    assert_eq!(classify_deployment_text("tests succeeded"), None);
}

#[test]
fn rollback_plan_uses_only_the_checkpoint_digest() {
    let digest = "ghcr.io/bushshrub/housebot@sha256:abc123";
    let commands = container_commands(digest, "network").unwrap();
    assert_eq!(commands.len(), 4);
    assert_eq!(commands[0].stage, DeploymentStage::PullHousebotImage);
    assert_eq!(commands[0].args, vec!["pull", digest]);
    assert_eq!(commands[2].stage, DeploymentStage::StartRequestedImage);
    assert_eq!(commands[2].args.last().unwrap(), digest);
}

#[test]
fn rollback_rejects_tags_and_unrelated_images() {
    assert!(container_commands("ghcr.io/bushshrub/housebot:latest", "network").is_err());
    assert!(container_commands("ghcr.io/other/image@sha256:abc", "network").is_err());
    assert!(container_commands("none", "network").is_err());
}

#[test]
fn deploy_plan_is_sha_scoped_and_rejects_injection() {
    let commands = deploy_commands(Some("abcdef123456"), "network", Vec::new()).unwrap();
    assert_eq!(commands.len(), 4);
    assert_eq!(
        commands
            .iter()
            .map(|command| command.stage)
            .collect::<Vec<_>>(),
        vec![
            DeploymentStage::PullHousebotImage,
            DeploymentStage::RemovePreviousContainer,
            DeploymentStage::StartRequestedImage,
            DeploymentStage::CheckContainerState,
        ]
    );
    assert!(commands[0].args[1].ends_with(":sha-abcdef123456"));
    assert!(!commands[3].args.contains(&"/deployment".to_string()));
    assert_eq!(
        deploy_commands(None, "network", Vec::new()).unwrap()[0].args[1],
        "ghcr.io/bushshrub/housebot:latest"
    );
    assert!(deploy_commands(Some("latest"), "network", Vec::new()).is_err());
    assert!(deploy_commands(Some("abcdef;reboot"), "network", Vec::new()).is_err());
}

#[test]
fn completed_deployment_message_includes_container_name_and_id() {
    let summary = DeploymentRunSummary {
        container_name: HOUSE_CHATBOT_CONTAINER.into(),
        container_id: Some("abc123def456".into()),
    };

    let message = summary.completed_message("abcdef123456");

    assert!(message.contains("Container `house-chatbot`"));
    assert!(message.contains("`abc123def456`"));
}

#[test]
fn commit_summary_has_links_messages_and_alternatives() {
    let selected = commit("abcdef1234", "selected commit\nbody");
    let summary = commit_summary(
        &selected,
        &[selected.clone(), commit("1234567890", "older")],
    );
    assert!(summary.contains("[`abcdef1`](https://github.com/example/repo/commit/abcdef1234)"));
    assert!(summary.contains("selected commit"));
    assert!(summary.contains("older"));
}

#[test]
fn deployment_changelog_lists_commits_since_previous_deployment() {
    let changelog = deployment_changelog(
        "1111111",
        "3333333",
        &[commit("2222222", "Add deployment visibility\nDetails")],
    );
    assert!(changelog.contains("since `1111111`"));
    assert!(changelog.contains("1 commit"));
    assert!(changelog.contains("Add deployment visibility"));
    assert!(changelog.contains("https://github.com/example/repo/commit/2222222"));
}

// --------------------------------------------------------------------- images

#[test]
fn commit_hashes_are_hexadecimal_and_of_fitting_length() {
    assert!(valid_sha("abcdef1"));
    assert!(valid_sha("ABCDEF1234567890abcdef1234567890abcdef12"));
    assert!(!valid_sha("abcdef"));
    assert!(!valid_sha("ABCDEF1234567890abcdef1234567890abcdef123"));
    assert!(!valid_sha("abcdefg"));
    assert_eq!(short_sha("abcdef123456"), "abcdef1");
}

#[test]
fn errors_of_plans_are_told_apart() {
    assert_eq!(
        deploy_commands(Some("xyz"), "network", Vec::new()).unwrap_err(),
        DeploymentError::InvalidSha
    );
    assert_eq!(
        container_commands("none", "network").unwrap_err(),
        DeploymentError::InvalidImage
    );
    assert_ne!(
        DeploymentError::InvalidSha.message(),
        DeploymentError::InvalidImage.message()
    );
}

#[test]
fn a_plan_carries_the_environment_and_one_image() {
    let environment = vec![("LOG_LEVEL".to_string(), "info".to_string())];
    let commands = deploy_commands(Some("abcdef1"), "house", environment).unwrap();
    let image = "ghcr.io/bushshrub/housebot:sha-abcdef1";
    assert_eq!(commands[0].args(), vec!["pull", image]);
    assert_eq!(commands[1].args(), vec!["rm", "--force", "house-chatbot"]);
    assert!(commands[2].args.contains(&"LOG_LEVEL=info".to_string()));
    assert!(commands[2].args.contains(&"house".to_string()));
    assert_eq!(commands[2].args.last().unwrap(), image);
    assert_eq!(
        commands[3].args(),
        vec!["inspect", "--format={{.State.Running}}", "house-chatbot"]
    );
    assert!(valid_housebot_image(image));
}

#[test]
fn every_stage_has_its_own_progress() {
    let stages = [
        DeploymentStage::PullHousebotImage,
        DeploymentStage::RemovePreviousContainer,
        DeploymentStage::StartRequestedImage,
        DeploymentStage::CheckContainerState,
    ];
    for (i, a) in stages.iter().enumerate() {
        assert_eq!(deploy_progress(*a), a.progress_message());
        for b in stages.iter().skip(i + 1) {
            assert_ne!(a.progress_message(), b.progress_message());
            assert_ne!(a.name(), b.name());
        }
    }
    assert!(DeploymentStage::StartRequestedImage.is_start());
    assert!(DeploymentStage::CheckContainerState.is_health_check());
}

#[test]
fn removing_what_is_missing_is_no_failure() {
    assert!(docker_object_missing("Error: No such container: house-chatbot"));
    assert!(docker_object_missing("No such object: x"));
    assert!(!docker_object_missing("permission denied"));
    assert_eq!(
        docker_outcome(&vec!["rm", "--force", "x"], false, "", "No such container: x"),
        Ok(String::new())
    );
    assert_eq!(
        docker_outcome(&vec!["inspect", "x"], false, "", " No such object: x \n"),
        Err("docker command failed: No such object: x".to_string())
    );
    assert_eq!(
        docker_outcome(&vec!["inspect", "x"], true, " true \n", "warning"),
        Ok("true".to_string())
    );
}

#[test]
fn the_running_commit_is_read_from_the_image() {
    assert_eq!(
        running_sha("ghcr.io/bushshrub/housebot:sha-abcdef1"),
        Ok("abcdef1".to_string())
    );
    assert_eq!(
        running_sha("ghcr.io/bushshrub/housebot:latest"),
        Err(RunningImageError::NoCommit)
    );
    assert_eq!(
        running_sha("ghcr.io/bushshrub/housebot:sha-zzz"),
        Err(RunningImageError::InvalidCommit)
    );
    assert_eq!(
        running_for_update(Ok("ghcr.io/bushshrub/housebot:sha-abcdef1".to_string())),
        Ok(Some("abcdef1".to_string()))
    );
    assert_eq!(
        running_for_update(Err("docker command failed: No such object: x".to_string())),
        Ok(None)
    );
    assert_eq!(
        running_for_update(Err("no daemon".to_string())),
        Err("no daemon".to_string())
    );
    assert_eq!(
        running_for_update(Ok("other".to_string())),
        Err(RunningImageError::NoCommit.message().to_string())
    );
}

#[test]
fn a_checkpoint_is_kept_unless_a_better_one_is_found() {
    let digest = "ghcr.io/bushshrub/housebot@sha256:abc123".to_string();
    assert_eq!(checkpoint(Ok(digest.clone()), None), Some(digest.clone()));
    assert_eq!(
        checkpoint(Ok("<none>".to_string()), Some(digest.clone())),
        Some(digest.clone())
    );
    assert_eq!(checkpoint(Err("gone".to_string()), None), None);
}

#[test]
fn cleanup_spares_what_is_kept() {
    let keep = images_to_keep(
        Some("abcdef1"),
        Some("ghcr.io/bushshrub/housebot:sha-1234567"),
    );
    let listing = "ghcr.io/bushshrub/housebot:sha-abcdef1\nghcr.io/bushshrub/housebot:latest\npostgres:16\nghcr.io/bushshrub/housebot:sha-1234567\nghcr.io/bushshrub/housebot:sha-7654321\n";
    assert_eq!(
        images_to_remove(listing, &keep),
        vec![
            "ghcr.io/bushshrub/housebot:latest",
            "ghcr.io/bushshrub/housebot:sha-7654321"
        ]
    );
}

// ----------------------------------------------------------------- environment

#[test]
fn dotenv_lines_are_read() {
    let read = parse_dotenv("# note\nexport A=1\nB = \"two\"\n\nC='3'\nnonsense\n");
    assert_eq!(
        read,
        vec![
            ("A".to_string(), "1".to_string()),
            ("B".to_string(), "two".to_string()),
            ("C".to_string(), "3".to_string()),
        ]
    );
}

#[test]
fn only_listed_settings_are_handed_on_and_files_do_not_add_others() {
    let name = housebot_env_vars()[0].clone();
    let process = vec![
        (name.clone(), "from-process".to_string()),
        ("UNRELATED".to_string(), "x".to_string()),
    ];
    let settings = housebot_env(process, &vec!["UNRELATED=y\n".to_string()]);
    assert_eq!(settings, vec![(name, "from-process".to_string())]);
}

#[test]
fn limits_have_defaults() {
    let defaults = Limits {
        idle_timeout_secs: 300,
        proactive_cooldown_secs: 300,
        chat_max: 20,
        chat_window_secs: 60,
        scripts_max: 6,
        scripts_window_secs: 60,
        approval_channel: 0,
    };
    assert_eq!(limits_of(&vec![]), defaults);
    let set = vec![
        ("CHAT_RATE_LIMIT_MAX".to_string(), "5".to_string()),
        ("LUA_RATE_LIMIT_MAX".to_string(), "many".to_string()),
        ("DEVELOPMENT_APPROVAL_CHANNEL_ID".to_string(), "42".to_string()),
    ];
    assert_eq!(
        limits_of(&set),
        Limits {
            chat_max: 5,
            approval_channel: 42,
            ..defaults
        }
    );
}

#[test]
fn a_long_changelog_is_cut_short() {
    let commits: Vec<_> = (0..200)
        .map(|i| commit(&format!("{i:07}"), &"ä".repeat(i)))
        .collect();
    let text = deployment_changelog("zzzzzzz-1", "yyyyyyy-2", &commits);
    assert!(text.len() <= 1850);
    assert!(text.starts_with("**Changelog since `zzzzzzz`** (200 commits)"));
    assert!(text.ends_with(" more commit(s)"));
}

#[test]
fn what_is_set_later_counts() {
    let process = vec![
        ("LLM_MODEL".to_string(), "old".to_string()),
        ("GITHUB_REPO".to_string(), "a/b".to_string()),
    ];
    let files = vec![
        "LLM_MODEL=first\nLLM_MODEL=second\n#GITHUB_REPO=c/d\n".to_string(),
        "LLM_MODEL=third\n".to_string(),
    ];
    assert_eq!(
        housebot_env(process, &files),
        vec![
            ("LLM_MODEL".to_string(), "third".to_string()),
            ("GITHUB_REPO".to_string(), "a/b".to_string()),
        ]
    );
}

// --------------------------------------------------------------------- rollout

#[test]
fn a_rollout_completes_only_when_the_container_runs() {
    let plan = deploy_commands(Some("abcdef1"), "network", Vec::new()).unwrap();
    let mut rollout = Rollout::new(plan);
    assert_eq!(
        rollout.current().unwrap().stage,
        DeploymentStage::PullHousebotImage
    );
    assert_eq!(rollout.record(Ok("pulled".to_string())), RolloutStatus::Continue);
    assert_eq!(rollout.record(Ok(String::new())), RolloutStatus::Continue);
    assert_eq!(rollout.record(Ok("0123abc".to_string())), RolloutStatus::Continue);
    assert_eq!(
        rollout.record(Ok("false".to_string())),
        RolloutStatus::Failed(RolloutFailure::NotRunning(
            DeploymentStage::CheckContainerState
        ))
    );
    assert_eq!(rollout.record(Ok("true".to_string())), RolloutStatus::Complete);
    assert!(rollout.current().is_none());
    let summary = rollout.summary();
    assert_eq!(summary.container_id, Some("0123abc".to_string()));
    assert_eq!(
        summary.manual_completed_message("abcdef1999"),
        "✅ Deployment of `abcdef1` completed. Container `house-chatbot` is running as `0123abc`."
    );
}

#[test]
fn only_a_finished_deployment_counts() {
    let event = |sha: &str| DeploymentEvent {
        succeeded: true,
        commit: Some(sha.to_string()),
    };
    let start = || Rollout::new(deploy_commands(Some("abcdef1"), "network", Vec::new()).unwrap());
    let mut stopped = start();
    for output in ["pulled", "", "0123abc"] {
        stopped.record(Ok(output.to_string()));
    }
    stopped.record(Ok("false".to_string()));
    let log = || Some("log".to_string());
    let outcome = automatic_outcome(Some(event("1234567")), event("abcdef1999"), stopped, log());
    assert_eq!(outcome.last, Some(event("1234567")));
    assert_eq!(outcome.cleanup, None);
    assert!(outcome.announcements.is_empty());

    let done = || {
        let mut rollout = start();
        for output in ["pulled", "", "0123abc", "true"] {
            rollout.record(Ok(output.to_string()));
        }
        rollout
    };
    let completed = "✅ Automatic deployment of `abcdef1` completed. Container `house-chatbot` is running as `0123abc`.".to_string();
    let outcome = automatic_outcome(Some(event("1234567")), event("abcdef1999"), done(), log());
    assert_eq!(outcome.last, Some(event("abcdef1999")));
    assert_eq!(outcome.cleanup, Some("abcdef1999".to_string()));
    assert_eq!(outcome.announcements, vec!["log".to_string(), completed.clone()]);
    let outcome = automatic_outcome(None, event("abcdef1999"), done(), None);
    assert_eq!(outcome.announcements, vec![completed]);
}

#[test]
fn failures_are_told_by_who_asked() {
    let stopped = || RolloutFailure::NotRunning(DeploymentStage::CheckContainerState);
    assert_eq!(
        failure_message(RolloutKind::Automatic, stopped()),
        "house-chatbot is not running"
    );
    assert_eq!(
        failure_message(RolloutKind::Update, stopped()),
        "house-chatbot is not running after update deployment"
    );
    assert_eq!(
        failure_message(RolloutKind::Rollback, stopped()),
        "house-chatbot is not running after rollback"
    );
    assert!(failure_message(RolloutKind::Manual, stopped()).starts_with("deployment stage `"));
    assert_eq!(
        failure_message(RolloutKind::Manual, RolloutFailure::Docker("no".to_string())),
        "no"
    );
}

// --------------------------------------------------------------------- control

#[test]
fn a_build_is_deployed_once() {
    let message = report("build succeeded", Some("abcdef1234"));
    let event = DeploymentEvent {
        succeeded: true,
        commit: Some("abcdef1234".to_string()),
    };
    assert_eq!(deployment_event(&message), Some(event));
    let decision = automatic_decision(5, 5, &message, &None);
    let last = match decision {
        AutomaticDecision::Deploy(event) => Some(event),
        _ => None,
    };
    assert!(last.is_some());
    assert_eq!(
        automatic_decision(5, 5, &message, &last),
        AutomaticDecision::Duplicate
    );
    assert_eq!(
        automatic_decision(6, 5, &message, &None),
        AutomaticDecision::Ignore
    );
    assert_eq!(
        automatic_decision(5, 5, &report("deployment FAILED", Some("abcdef1234")), &None),
        AutomaticDecision::NothingToDeploy
    );
    assert_eq!(
        automatic_decision(5, 5, &report("build succeeded", None), &None),
        AutomaticDecision::NothingToDeploy
    );
    assert_eq!(
        automatic_decision(5, 5, &report("build succeeded", Some("nope")), &None),
        AutomaticDecision::InvalidSha
    );
}

#[test]
fn a_message_without_a_webhook_is_no_report() {
    let mut message = report("build succeeded", Some("abcdef1234"));
    message.webhook_id = None;
    assert_eq!(deployment_event(&message), None);
}

#[test]
fn the_confirm_button_leads_back_to_the_preview() {
    let rows = confirm_components(Some("abcdef1"));
    let id = match &rows[0] {
        Row::Buttons(buttons) => {
            assert_eq!(buttons[0].look, ButtonLook::Success);
            assert_eq!(buttons[1].custom_id, "deploy_deny");
            buttons[0].custom_id.clone()
        }
        Row::Menu(_) => unreachable!(),
    };
    assert_eq!(
        button_decision(&id, 1, 1, 7, 7),
        ButtonDecision::Deploy("abcdef1".to_string())
    );
    assert_eq!(button_decision(&id, 1, 2, 7, 7), ButtonDecision::Refuse);
    assert_eq!(
        button_decision("deploy_deny", 1, 2, 7, 7),
        ButtonDecision::Cancel
    );
    assert_eq!(button_decision("other", 1, 1, 7, 7), ButtonDecision::Ignore);
    assert_eq!(confirmed_sha("latest"), None);
    assert_eq!(confirmed_sha("abcdef1"), Some("abcdef1"));
}

#[test]
fn commands_are_the_owners() {
    let sha = || Some(DeployOption::Text("abcdef1".to_string()));
    assert_eq!(
        command_decision("deploy", sha(), 1, 1, 7, 7),
        CommandDecision::Preview(Some("abcdef1".to_string()))
    );
    assert_eq!(
        command_decision("deploy", None, 1, 1, 7, 7),
        CommandDecision::Preview(None)
    );
    assert_eq!(
        command_decision("deploy", Some(DeployOption::Other), 1, 1, 7, 7),
        CommandDecision::Refuse("SHA must contain 7 to 40 hexadecimal characters.".to_string())
    );
    assert_eq!(
        command_decision("update", None, 1, 1, 7, 7),
        CommandDecision::Update
    );
    assert_eq!(
        command_decision("rollback", None, 1, 1, 7, 7),
        CommandDecision::Rollback
    );
    assert_eq!(
        command_decision("other", None, 1, 1, 7, 7),
        CommandDecision::Ignore
    );
    for name in ["deploy", "update", "rollback"] {
        assert!(is_deployment_command(name));
        assert!(matches!(
            command_decision(name, sha(), 1, 2, 7, 7),
            CommandDecision::Refuse(_)
        ));
    }
}

#[test]
fn registered_deployment_commands_are_known() {
    let commands = deployment_commands();
    assert_eq!(commands.len(), 3);
    for command in &commands {
        assert!(is_deployment_command(&command.name));
    }
    match &commands[2].options[0] {
        OptionSpec::Parameter(p) => {
            assert_eq!(p.name, "sha");
            assert_eq!(p.kind, ParameterKind::Text);
            assert!(!p.required);
        }
        _ => unreachable!(),
    }
}

#[test]
fn rollbacks_need_a_known_image() {
    assert_eq!(
        rollback_commands(None, "network", Vec::new()).unwrap_err(),
        "no previous image is available in this session"
    );
    assert_eq!(
        rollback_commands(Some("none"), "network", Vec::new()).unwrap_err(),
        DeploymentError::InvalidImage.message()
    );
    let digest = "ghcr.io/bushshrub/housebot@sha256:abc123";
    assert_eq!(
        rollback_commands(Some(digest), "network", Vec::new())
            .unwrap()
            .len(),
        4
    );
    assert_eq!(
        rollback_reply(Ok(digest)),
        format!("Rolled house-chatbot back to `{digest}`.")
    );
    assert_eq!(rollback_reply(Err("no")), "Rollback failed: no");
}

#[test]
fn updates_are_told() {
    assert_eq!(
        up_to_date_reply(Some("abcdef1234"), "abcdef1234", "main"),
        Some("✅ Already running the latest `abcdef1` commit on `main`.".to_string())
    );
    assert_eq!(up_to_date_reply(None, "abcdef1234", "main"), None);
    assert_eq!(
        update_changelog(None, "abcdef1234", &[]),
        "**Changelog**\nNo previous housebot container was found; deploying the latest commit."
    );
    assert_eq!(
        updated_reply(None, "abcdef1234", "main", "log"),
        "✅ Updated housebot from `no running container` to latest `abcdef1` on `main`.\n\nlog"
    );
    assert_eq!(update_reply(Ok("done".to_string())), "done");
    assert_eq!(
        update_reply(Err("no".to_string())),
        "❌ Update failed: no"
    );
    assert_eq!(
        deployment_reply(Err("no".to_string()), "abcdef1"),
        "❌ Deployment failed: no"
    );
}

#[test]
fn a_changelog_stays_within_its_size() {
    let commits: Vec<GitHubCommit> = (0..200)
        .map(|i| commit("2222222", &format!("Change number {i} with a longer headline")))
        .collect();
    let text = deployment_changelog("1111111", "3333333", &commits);
    assert!(text.len() <= 2000);
    assert!(text.contains("200 commit"));
}

#[test]
fn previews_and_addresses_are_written_out() {
    let selected = commit("abcdef1234", "headline");
    let text = preview_description(&selected, &[], Err("offline"));
    assert!(text.ends_with("\n\nChangelog unavailable: offline"));
    assert_eq!(
        commit_not_found_reply("404"),
        "Could not find that commit: 404"
    );
    assert_eq!(
        commit_url("a/b", "main"),
        "https://api.github.com/repos/a/b/commits/main"
    );
    assert_eq!(
        recent_commits_url("a/b", "abcdef1"),
        "https://api.github.com/repos/a/b/commits?sha=abcdef1&per_page=4"
    );
    assert_eq!(
        compare_url("a/b", "1111111", "2222222"),
        "https://api.github.com/repos/a/b/compare/1111111...2222222"
    );
}

#[test]
fn numeric_settings_are_checked() {
    assert_eq!(env_u64("X", Some("42")), Ok(42));
    assert_eq!(env_u64("X", None), Err("X is not set".to_string()));
    assert_eq!(
        env_u64("X", Some("18446744073709551616")),
        Err("X must be a Discord numeric ID".to_string())
    );
    assert_eq!(optional_env_u64("X", Some("  ")), Ok(None));
    assert_eq!(
        optional_env_u64("X", Some("y")),
        Err("X must be a Discord numeric ID".to_string())
    );
}
