//! What the deployment bot does with notifications, buttons and commands.
use crate::changelog::{
    changelog_text, commit_summary, deployment_changelog, short, short_sha, summary_text,
    GitHubCommit,
};
use crate::components::{button, button_text, row2, rows1, rows_of, ButtonLook, Row, RowText};
use crate::containers::{
    container_commands_with_env, docker_object_missing, error_text, housebot_image,
    object_missing, plan_of, running_image_error_text, running_sha, sha_form, steps, valid_sha,
    DeploymentCommand, RunningImageError, HOUSE_CHATBOT_CONTAINER, SHA_IMAGE_PREFIX,
};
use crate::deployment::{
    classification, deployment_event, embeds_commit, message_text, rollback_allowed,
    ChannelMessage, DeploymentEvent,
};
use crate::rollout::{finished, running_as, DeploymentRunSummary, Rollout, RolloutState};
use crate::text::{
    begins, has_text, no_texts, number_in, opt_str, opt_text, parse_u64, push_text, same_text,
    strip_prefix, texts, trim, trimmed, without_prefix,
};
use vstd::prelude::*;

verus! {

/// May this user control deployments from this channel?
pub open spec fn allowed(owner: u64, user: u64, channel: u64, expected: u64) -> bool {
    owner != 0 && owner == user && channel == expected
}

// ------------------------------------------------------------ notifications

/// What to do about a channel message.
#[derive(Debug, PartialEq, Eq)]
pub enum AutomaticDecision {
    /// It is no deployment notification of this channel.
    Ignore,
    /// It reports a failure, or names no commit.
    NothingToDeploy,
    /// It names something that is no commit hash.
    InvalidSha,
    /// It reports the deployment that was done last.
    Duplicate,
    /// It reports a build to deploy.
    Deploy(DeploymentEvent),
}

/// Was `sha` the commit of the last deployment?
pub open spec fn already_deployed(last: Option<DeploymentEvent>, sha: Seq<char>) -> bool {
    match last {
        Some(event) => event.succeeded && opt_text(event.commit) == Some(sha),
        None => false,
    }
}

/// Does the decision fit the message?
pub open spec fn automatic(
    channel: u64,
    expected: u64,
    message: ChannelMessage,
    last: Option<DeploymentEvent>,
    decision: AutomaticDecision,
) -> bool {
    let kind = classification(message_text(message));
    let commit = embeds_commit(message.embeds@);
    if channel != expected || message.webhook_id is None || kind is None {
        decision == AutomaticDecision::Ignore
    } else if kind == Some(false) || commit is None {
        decision == AutomaticDecision::NothingToDeploy
    } else if !sha_form(commit->0) {
        decision == AutomaticDecision::InvalidSha
    } else if already_deployed(last, commit->0) {
        decision == AutomaticDecision::Duplicate
    } else {
        decision matches AutomaticDecision::Deploy(event) && event.succeeded && opt_text(
            event.commit,
        ) == commit
    }
}

/// What to do about a channel message, given what was deployed last.
pub fn automatic_decision(
    channel_id: u64,
    deployment_channel: u64,
    message: &ChannelMessage,
    last: &Option<DeploymentEvent>,
) -> (r: AutomaticDecision)
    ensures
        automatic(channel_id, deployment_channel, *message, *last, r),
{
    if channel_id != deployment_channel {
        return AutomaticDecision::Ignore;
    }
    let event = match deployment_event(message) {
        Some(event) => event,
        None => {
            return AutomaticDecision::Ignore;
        },
    };
    if !event.succeeded {
        return AutomaticDecision::NothingToDeploy;
    }
    let duplicate = match &event.commit {
        None => {
            return AutomaticDecision::NothingToDeploy;
        },
        Some(sha) => {
            if !valid_sha(sha.as_str()) {
                return AutomaticDecision::InvalidSha;
            }
            match last {
                Some(before) => match &before.commit {
                    Some(deployed) => before.succeeded && same_text(
                        deployed.as_str(),
                        sha.as_str(),
                    ),
                    None => false,
                },
                None => false,
            }
        },
    };
    if duplicate {
        AutomaticDecision::Duplicate
    } else {
        AutomaticDecision::Deploy(event)
    }
}

/// A notification that was acted on is not acted on again: with the deployment
/// it led to as the last one, the same message is a duplicate.
pub proof fn law_deployed_once(
    channel: u64,
    expected: u64,
    message: ChannelMessage,
    last: Option<DeploymentEvent>,
    event: DeploymentEvent,
    again: AutomaticDecision,
)
    requires
        automatic(channel, expected, message, last, AutomaticDecision::Deploy(event)),
        automatic(channel, expected, message, Some(event), again),
    ensures
        again == AutomaticDecision::Duplicate,
{
}

/// Whatever is deployed was reported as built, by a webhook, in the deployment
/// channel, under a commit hash.
pub proof fn law_only_reported_builds_are_deployed(
    channel: u64,
    expected: u64,
    message: ChannelMessage,
    last: Option<DeploymentEvent>,
    event: DeploymentEvent,
)
    requires
        automatic(channel, expected, message, last, AutomaticDecision::Deploy(event)),
    ensures
        channel == expected,
        message.webhook_id is Some,
        classification(message_text(message)) == Some(true),
        event.commit is Some && sha_form(event.commit->0@),
{
}

/// What a deployment that a notification led to comes to: which event is the last
/// one from now on, for which commit old images are cleaned up, and what is said.
#[derive(Debug, PartialEq, Eq)]
pub struct AutomaticOutcome {
    pub last: Option<DeploymentEvent>,
    pub cleanup: Option<String>,
    pub announcements: Vec<String>,
}

/// The event that counts as the last deployment: the new one where all its steps
/// are done, else the one before.
pub open spec fn last_after(
    last: Option<DeploymentEvent>,
    event: DeploymentEvent,
    state: RolloutState,
) -> Option<DeploymentEvent> {
    if finished(state) && event.commit is Some {
        Some(event)
    } else {
        last
    }
}

/// What is said of a deployment: the changelog, where there is one, and that it is
/// done; nothing of one that is not.
pub open spec fn announced(
    event: DeploymentEvent,
    state: RolloutState,
    changelog: Option<Seq<char>>,
) -> Seq<Seq<char>> {
    match event.commit {
        Some(sha) if finished(state) => (match changelog {
            Some(changelog) => seq![changelog],
            None => Seq::empty(),
        }).push(
            "✅ Automatic deployment of `"@ + short(sha@) + running_as(
                HOUSE_CHATBOT_CONTAINER@,
                state.container_id,
            ),
        ),
        _ => Seq::empty(),
    }
}

/// What a deployment that a notification led to comes to, given how far its steps
/// got.
pub fn automatic_outcome(
    last: Option<DeploymentEvent>,
    event: DeploymentEvent,
    rollout: Rollout,
    changelog: Option<String>,
) -> (r: AutomaticOutcome)
    ensures
        r.last == last_after(last, event, rollout@),
        opt_text(r.cleanup) == (if finished(rollout@) {
            opt_text(event.commit)
        } else {
            None
        }),
        texts(r.announcements@) == announced(event, rollout@, opt_text(changelog)),
{
    let mut announcements = no_texts();
    if !rollout.is_finished() {
        proof {
            assert(texts(announcements@) =~= Seq::empty());
        }
        return AutomaticOutcome { last, cleanup: None, announcements };
    }
    let (cleanup, completed) = match &event.commit {
        None => {
            proof {
                assert(texts(announcements@) =~= Seq::empty());
            }
            return AutomaticOutcome { last, cleanup: None, announcements };
        },
        Some(sha) => (sha.as_str().to_owned(), rollout.summary().completed_message(sha.as_str())),
    };
    if let Some(changelog) = &changelog {
        push_text(&mut announcements, changelog.as_str());
    }
    push_text(&mut announcements, completed.as_str());
    proof {
        assert(texts(announcements@) =~= announced(event, rollout@, opt_text(changelog)));
    }
    AutomaticOutcome { last: Some(event), cleanup: Some(cleanup), announcements }
}

/// A deployment counts, and is announced, exactly where all its steps are done;
/// the notification that led to it is then a duplicate, and else it is acted on
/// again.
pub proof fn law_only_finished_deployments_count(
    channel: u64,
    expected: u64,
    message: ChannelMessage,
    last: Option<DeploymentEvent>,
    event: DeploymentEvent,
    state: RolloutState,
    changelog: Option<Seq<char>>,
    again: AutomaticDecision,
)
    requires
        automatic(channel, expected, message, last, AutomaticDecision::Deploy(event)),
        automatic(channel, expected, message, last_after(last, event, state), again),
    ensures
        finished(state) <==> announced(event, state, changelog).len() > 0,
        finished(state) ==> last_after(last, event, state) == Some(event) && again
            == AutomaticDecision::Duplicate,
        !finished(state) ==> last_after(last, event, state) == last && again is Deploy,
{
}

// ----------------------------------------------------------------- rollback

/// The steps of a rollback to the image known from before.
pub fn rollback_commands(
    previous: Option<&str>,
    docker_network: &str,
    environment: Vec<(String, String)>,
) -> (r: Result<Vec<DeploymentCommand>, String>)
    ensures
        match (previous, r) {
            (None, r) => r matches Err(error) && error@
                == "no previous image is available in this session"@,
            (Some(image), Ok(commands)) => housebot_image(image@) && steps(commands@) == plan_of(
                image@,
                docker_network@,
                environment@,
            ),
            (Some(image), Err(error)) => !housebot_image(image@) && error@ == error_text(
                crate::containers::DeploymentError::InvalidImage,
            ),
        },
{
    match previous {
        None => Err("no previous image is available in this session".to_owned()),
        Some(image) => match container_commands_with_env(
            image,
            docker_network,
            environment,
            false,
        ) {
            Ok(commands) => Ok(commands),
            Err(error) => Err(error.message().to_owned()),
        },
    }
}

/// What is answered to a rollback: the image it went back to, or why it failed.
pub fn rollback_reply(outcome: Result<&str, &str>) -> (r: String)
    ensures
        match outcome {
            Ok(image) => r@ == "Rolled house-chatbot back to `"@ + image@ + "`."@,
            Err(error) => r@ == "Rollback failed: "@ + error@,
        },
{
    match outcome {
        Ok(image) => "Rolled house-chatbot back to `".to_owned().concat(image).concat("`."),
        Err(error) => "Rollback failed: ".to_owned().concat(error),
    }
}

// ------------------------------------------------------------------- update

/// The commit of the inspected container; none where there is no container.
pub open spec fn running_commit(inspected: Result<Seq<char>, Seq<char>>) -> Result<
    Option<Seq<char>>,
    Seq<char>,
> {
    let found = match inspected {
        Ok(image) => match without_prefix(image, SHA_IMAGE_PREFIX@) {
            Some(sha) => if sha_form(sha) {
                Ok(sha)
            } else {
                Err(running_image_error_text(RunningImageError::InvalidCommit))
            },
            None => Err(running_image_error_text(RunningImageError::NoCommit)),
        },
        Err(error) => Err(error),
    };
    match found {
        Ok(sha) => Ok(Some(sha)),
        Err(error) => if object_missing(error) {
            Ok(None)
        } else {
            Err(error)
        },
    }
}

/// An outcome as text.
pub open spec fn opt_outcome_text(r: Result<Option<String>, String>) -> Result<
    Option<Seq<char>>,
    Seq<char>,
> {
    match r {
        Ok(sha) => Ok(opt_text(sha)),
        Err(error) => Err(error@),
    }
}

/// The commit of the inspected container; none where there is no container.
pub fn running_for_update(inspected: Result<String, String>) -> (r: Result<Option<String>, String>)
    ensures
        opt_outcome_text(r) == running_commit(crate::rollout::outcome_text(inspected)),
{
    let found = match inspected {
        Ok(image) => match running_sha(image.as_str()) {
            Ok(sha) => {
                return Ok(Some(sha));
            },
            Err(error) => error.message().to_owned(),
        },
        Err(error) => error,
    };
    if docker_object_missing(found.as_str()) {
        Ok(None)
    } else {
        Err(found)
    }
}

/// The answer where the newest commit already runs.
pub fn up_to_date_reply(current: Option<&str>, latest: &str, branch: &str) -> (r: Option<String>)
    ensures
        r is Some <==> opt_str(current) == Some(latest@),
        r matches Some(text) ==> text@ == "✅ Already running the latest `"@ + short(latest@)
            + "` commit on `"@ + branch@ + "`."@,
{
    match current {
        Some(sha) => {
            if same_text(sha, latest) {
                Some(
                    "✅ Already running the latest `".to_owned().concat(short_sha(sha)).concat(
                        "` commit on `",
                    ).concat(branch).concat("`."),
                )
            } else {
                None
            }
        },
        None => None,
    }
}

/// The changelog of an update; a fixed text where nothing ran before.
pub fn update_changelog(current: Option<&str>, target: &str, commits: &[GitHubCommit]) -> (r: String)
    ensures
        match current {
            Some(sha) => r@ == changelog_text(sha@, target@, commits@),
            None => r@
                == "**Changelog**\nNo previous housebot container was found; deploying the latest commit."@,
        },
{
    match current {
        Some(sha) => deployment_changelog(sha, target, commits),
        None => {
            "**Changelog**\nNo previous housebot container was found; deploying the latest commit.".to_owned()
        },
    }
}

/// What is said of a finished update.
pub open spec fn updated_text(
    current: Option<Seq<char>>,
    latest: Seq<char>,
    branch: Seq<char>,
    changelog: Seq<char>,
) -> Seq<char> {
    "✅ Updated housebot from `"@ + (match current {
        Some(sha) => short(sha),
        None => "no running container"@,
    }) + "` to latest `"@ + short(latest) + "` on `"@ + branch + "`.\n\n"@ + changelog
}

/// What is said of a finished update.
pub fn updated_reply(current: Option<&str>, latest: &str, branch: &str, changelog: &str) -> (r:
    String)
    ensures
        r@ == updated_text(opt_str(current), latest@, branch@, changelog@),
{
    let before: &str = match current {
        Some(sha) => short_sha(sha),
        None => "no running container",
    };
    "✅ Updated housebot from `".to_owned().concat(before).concat("` to latest `").concat(
        short_sha(latest),
    ).concat("` on `").concat(branch).concat("`.\n\n").concat(changelog)
}

/// What is said while an update is looked for.
pub const CHECKING_TEXT: &'static str = "🔎 Checking the running commit against the branch tip…";

/// What is answered to an update.
pub fn update_reply(outcome: Result<String, String>) -> (r: String)
    ensures
        match outcome {
            Ok(text) => r@ == text@,
            Err(error) => r@ == "❌ Update failed: "@ + error@,
        },
{
    match outcome {
        Ok(text) => text,
        Err(error) => "❌ Update failed: ".to_owned().concat(error.as_str()),
    }
}

// ------------------------------------------------------------------ buttons

/// What begins the id of a button that confirms a deployment.
pub const CONFIRM_PREFIX: &'static str = "deploy_confirm:";

/// The id of the button that calls a deployment off.
pub const DENY_ID: &'static str = "deploy_deny";

/// What a confirmed deployment is of, where no commit was named.
pub const LATEST: &'static str = "latest";

/// What to do about a button.
#[derive(Debug, PartialEq, Eq)]
pub enum ButtonDecision {
    /// It is none of these buttons.
    Ignore,
    /// Take the buttons away and say that the deployment is called off.
    Cancel,
    /// Say that this user may not deploy.
    Refuse,
    /// Deploy what the button names.
    Deploy(String),
}

/// What a deployment is called off with.
pub const CANCELLED_TEXT: &'static str = "Deployment cancelled.";

/// What a user who may not deploy is told.
pub const REFUSED_TEXT: &'static str = "You are not allowed to deploy.";

/// What is said when a deployment starts.
pub const STARTING_TEXT: &'static str = "⬇️ Starting deployment…";

/// Does the decision fit the button?
pub open spec fn pressed(
    custom_id: Seq<char>,
    may_deploy: bool,
    decision: ButtonDecision,
) -> bool {
    if custom_id == DENY_ID@ {
        decision == ButtonDecision::Cancel
    } else {
        match without_prefix(custom_id, CONFIRM_PREFIX@) {
            None => decision == ButtonDecision::Ignore,
            Some(named) => if may_deploy {
                decision matches ButtonDecision::Deploy(sha) && sha@ == named
            } else {
                decision == ButtonDecision::Refuse
            },
        }
    }
}

/// What to do about a button that a user pressed.
pub fn button_decision(
    custom_id: &str,
    owner_id: u64,
    user_id: u64,
    channel_id: u64,
    deployment_channel: u64,
) -> (r: ButtonDecision)
    ensures
        pressed(custom_id@, allowed(owner_id, user_id, channel_id, deployment_channel), r),
{
    if same_text(custom_id, DENY_ID) {
        return ButtonDecision::Cancel;
    }
    match strip_prefix(custom_id, CONFIRM_PREFIX) {
        None => ButtonDecision::Ignore,
        Some(sha) => {
            if rollback_allowed(owner_id, user_id, channel_id, deployment_channel) {
                ButtonDecision::Deploy(sha.to_owned())
            } else {
                ButtonDecision::Refuse
            }
        },
    }
}

/// The commit that a confirmed deployment is of; none for the newest build.
pub open spec fn confirmed_commit(named: Seq<char>) -> Option<Seq<char>> {
    if named == LATEST@ {
        None
    } else {
        Some(named)
    }
}

/// The commit that a confirmed deployment is of; none for the newest build.
pub fn confirmed_sha(named: &str) -> (r: Option<&str>)
    ensures
        opt_str(r) == confirmed_commit(named@),
{
    if same_text(named, LATEST) {
        None
    } else {
        Some(named)
    }
}

/// The id of the button that confirms a deployment.
pub open spec fn confirm_id(sha: Option<Seq<char>>) -> Seq<char> {
    CONFIRM_PREFIX@ + (match sha {
        Some(sha) => sha,
        None => LATEST@,
    })
}

/// The buttons that confirm a deployment or call it off.
pub fn confirm_components(sha: Option<&str>) -> (r: Vec<Row>)
    ensures
        rows_of(r@) == seq![
            RowText::Buttons(
                seq![
                    button_text(confirm_id(opt_str(sha)), "Confirm"@, ButtonLook::Success),
                    button_text(DENY_ID@, "Deny"@, ButtonLook::Danger),
                ],
            ),
        ],
{
    let named: &str = match sha {
        Some(sha) => sha,
        None => LATEST,
    };
    let confirm = button(
        CONFIRM_PREFIX.to_owned().concat(named),
        "Confirm",
        ButtonLook::Success,
    );
    let deny = button(DENY_ID.to_owned(), "Deny", ButtonLook::Danger);
    rows1(row2(confirm, deny))
}

/// The button under a preview deploys what the preview was of: pressed by a
/// user who may deploy, it leads back to the same commit, or to the newest
/// build; pressed by anyone else, it deploys nothing.
pub proof fn law_confirm_button_deploys_what_was_previewed(
    sha: Option<Seq<char>>,
    may_deploy: bool,
    decision: ButtonDecision,
)
    requires
        sha is Some ==> sha_form(sha->0),
        pressed(confirm_id(sha), may_deploy, decision),
    ensures
        may_deploy ==> (decision matches ButtonDecision::Deploy(named) && confirmed_commit(named@)
            == sha),
        !may_deploy ==> decision == ButtonDecision::Refuse,
{
    let named = match sha {
        Some(sha) => sha,
        None => LATEST@,
    };
    let id = confirm_id(sha);
    let n = CONFIRM_PREFIX@.len() as int;
    assert(id.subrange(0, n) =~= CONFIRM_PREFIX@);
    assert(id.skip(n) =~= named);
    reveal_strlit("deploy_confirm:");
    reveal_strlit("deploy_deny");
    assert(id.len() >= 15);
    assert(id != DENY_ID@);
    reveal_strlit("latest");
    if sha is Some {
        assert(sha->0.len() >= 7);
    }
}

/// What is said of a deployment that was asked for, once it is over.
pub fn deployment_reply(outcome: Result<DeploymentRunSummary, String>, named: &str) -> (r: String)
    ensures
        match outcome {
            Ok(summary) => r@ == "✅ Deployment of `"@ + short(named@) + running_as(
                summary.container_name@,
                opt_text(summary.container_id),
            ),
            Err(error) => r@ == "❌ Deployment failed: "@ + error@,
        },
{
    match outcome {
        Ok(summary) => summary.manual_completed_message(named),
        Err(error) => "❌ Deployment failed: ".to_owned().concat(error.as_str()),
    }
}

// ----------------------------------------------------------------- commands

/// The option of a deployment command.
#[derive(Debug, PartialEq, Eq)]
pub enum DeployOption {
    Text(String),
    Other,
}

/// What to do about a command.
#[derive(Debug, PartialEq, Eq)]
pub enum CommandDecision {
    /// It is none of these commands.
    Ignore,
    /// Answer with this text, for the user's eyes only.
    Refuse(String),
    /// Show what a deployment of this commit, or of the newest one, would bring.
    Preview(Option<String>),
    /// Bring the bot to the newest commit.
    Update,
    /// Go back to the image from before.
    Rollback,
}

/// What a command leads to.
pub enum CommandMeaning {
    Ignore,
    Refuse(Seq<char>),
    Preview(Option<Seq<char>>),
    Update,
    Rollback,
}

/// The meaning of a decision.
pub open spec fn decision_meaning(d: CommandDecision) -> CommandMeaning {
    match d {
        CommandDecision::Ignore => CommandMeaning::Ignore,
        CommandDecision::Refuse(text) => CommandMeaning::Refuse(text@),
        CommandDecision::Preview(sha) => CommandMeaning::Preview(opt_text(sha)),
        CommandDecision::Update => CommandMeaning::Update,
        CommandDecision::Rollback => CommandMeaning::Rollback,
    }
}

/// What a command leads to.
pub open spec fn command_meaning(
    name: Seq<char>,
    option: Option<DeployOption>,
    may_deploy: bool,
) -> CommandMeaning {
    if name == "deploy"@ {
        if !may_deploy {
            CommandMeaning::Refuse("Only the configured owner can deploy from this channel."@)
        } else {
            match option {
                None => CommandMeaning::Preview(None),
                Some(DeployOption::Text(sha)) if sha_form(sha@) => CommandMeaning::Preview(
                    Some(sha@),
                ),
                Some(_) => CommandMeaning::Refuse(
                    "SHA must contain 7 to 40 hexadecimal characters."@,
                ),
            }
        }
    } else if name == "update"@ {
        if may_deploy {
            CommandMeaning::Update
        } else {
            CommandMeaning::Refuse("Only the configured owner can update from this channel."@)
        }
    } else if name == "rollback"@ {
        if may_deploy {
            CommandMeaning::Rollback
        } else {
            CommandMeaning::Refuse(
                "Only the configured owner can roll back from the deployment channel."@,
            )
        }
    } else {
        CommandMeaning::Ignore
    }
}

/// What to do about a command that a user gave.
pub fn command_decision(
    name: &str,
    option: Option<DeployOption>,
    owner_id: u64,
    user_id: u64,
    channel_id: u64,
    deployment_channel: u64,
) -> (r: CommandDecision)
    ensures
        decision_meaning(r) == command_meaning(
            name@,
            option,
            allowed(owner_id, user_id, channel_id, deployment_channel),
        ),
{
    let may_deploy = rollback_allowed(owner_id, user_id, channel_id, deployment_channel);
    if same_text(name, "deploy") {
        if !may_deploy {
            return CommandDecision::Refuse(
                "Only the configured owner can deploy from this channel.".to_owned(),
            );
        }
        match option {
            None => CommandDecision::Preview(None),
            Some(DeployOption::Text(sha)) => {
                if valid_sha(sha.as_str()) {
                    CommandDecision::Preview(Some(sha))
                } else {
                    CommandDecision::Refuse(
                        "SHA must contain 7 to 40 hexadecimal characters.".to_owned(),
                    )
                }
            },
            Some(DeployOption::Other) => CommandDecision::Refuse(
                "SHA must contain 7 to 40 hexadecimal characters.".to_owned(),
            ),
        }
    } else if same_text(name, "update") {
        if may_deploy {
            CommandDecision::Update
        } else {
            CommandDecision::Refuse(
                "Only the configured owner can update from this channel.".to_owned(),
            )
        }
    } else if same_text(name, "rollback") {
        if may_deploy {
            CommandDecision::Rollback
        } else {
            CommandDecision::Refuse(
                "Only the configured owner can roll back from the deployment channel.".to_owned(),
            )
        }
    } else {
        CommandDecision::Ignore
    }
}

/// No command has any effect for a user who may not deploy.
pub proof fn law_commands_are_the_owners(name: Seq<char>, option: Option<DeployOption>)
    ensures
        command_meaning(name, option, false) is Ignore || command_meaning(
            name,
            option,
            false,
        ) is Refuse,
{
}

/// The title of a preview.
pub const PREVIEW_TITLE: &'static str = "Confirm deployment";

/// What a preview says: the commits, then the changelog or why there is none.
pub fn preview_description(
    selected: &GitHubCommit,
    recent: &[GitHubCommit],
    changelog: Result<&str, &str>,
) -> (r: String)
    ensures
        match changelog {
            Ok(text) => r@ == summary_text(*selected, recent@) + "\n\n"@ + text@,
            Err(error) => r@ == summary_text(*selected, recent@)
                + "\n\nChangelog unavailable: "@ + error@,
        },
{
    let summary = commit_summary(selected, recent);
    match changelog {
        Ok(text) => summary.concat("\n\n").concat(text),
        Err(error) => summary.concat("\n\nChangelog unavailable: ").concat(error),
    }
}

/// What is answered where the commit to preview was not found.
pub fn commit_not_found_reply(error: &str) -> (r: String)
    ensures
        r@ == "Could not find that commit: "@ + error@,
{
    "Could not find that commit: ".to_owned().concat(error)
}

/// Is `name` one of the deployment commands?
pub open spec fn names_deployment_command(name: Seq<char>) -> bool {
    name == "deploy"@ || name == "rollback"@ || name == "update"@
}

/// Is `name` one of the deployment commands?
pub fn is_deployment_command(name: &str) -> (r: bool)
    ensures
        r == names_deployment_command(name@),
{
    same_text(name, "deploy") || same_text(name, "rollback") || same_text(name, "update")
}

// ---------------------------------------------------------------- addresses

/// Where the host describes a commit or the tip of a branch.
pub fn commit_url(repo: &str, reference: &str) -> (r: String)
    ensures
        r@ == "https://api.github.com/repos/"@ + repo@ + "/commits/"@ + reference@,
{
    "https://api.github.com/repos/".to_owned().concat(repo).concat("/commits/").concat(reference)
}

/// Where the host lists a commit and the three before it.
pub fn recent_commits_url(repo: &str, sha: &str) -> (r: String)
    ensures
        r@ == "https://api.github.com/repos/"@ + repo@ + "/commits?sha="@ + sha@ + "&per_page=4"@,
{
    "https://api.github.com/repos/".to_owned().concat(repo).concat("/commits?sha=").concat(
        sha,
    ).concat("&per_page=4")
}

/// Where the host lists the commits between two.
pub fn compare_url(repo: &str, current: &str, target: &str) -> (r: String)
    ensures
        r@ == "https://api.github.com/repos/"@ + repo@ + "/compare/"@ + current@ + "..."@ + target@,
{
    "https://api.github.com/repos/".to_owned().concat(repo).concat("/compare/").concat(
        current,
    ).concat("...").concat(target)
}

// ----------------------------------------------------------------- settings

/// The numeric id that a setting holds; `value` is none where it is not set.
pub fn env_u64(name: &str, value: Option<&str>) -> (r: Result<u64, String>)
    ensures
        match value {
            None => r matches Err(error) && error@ == name@ + " is not set"@,
            Some(text) => match number_in(text@, u64::MAX as nat) {
                Some(n) => r matches Ok(id) && id == n,
                None => r matches Err(error) && error@ == name@ + " must be a Discord numeric ID"@,
            },
        },
{
    match value {
        None => Err(name.to_owned().concat(" is not set")),
        Some(text) => match parse_u64(text) {
            Some(id) => Ok(id),
            None => Err(name.to_owned().concat(" must be a Discord numeric ID")),
        },
    }
}

/// The numeric id that a setting holds; none where it is not set or blank.
pub fn optional_env_u64(name: &str, value: Option<&str>) -> (r: Result<Option<u64>, String>)
    ensures
        match value {
            Some(text) if trimmed(text@).len() > 0 => match number_in(text@, u64::MAX as nat) {
                Some(n) => r matches Ok(Some(id)) && id == n,
                None => r matches Err(error) && error@ == name@ + " must be a Discord numeric ID"@,
            },
            _ => r == Ok::<Option<u64>, String>(None),
        },
{
    match value {
        None => Ok(None),
        Some(text) => {
            if trim(text).unicode_len() == 0 {
                return Ok(None);
            }
            match parse_u64(text) {
                Some(id) => Ok(Some(id)),
                None => Err(name.to_owned().concat(" must be a Discord numeric ID")),
            }
        },
    }
}

// ---------------------------------------------------------------------- laws

/// Only the configured owner may control deployments, from the deployment channel
/// alone; where no owner is configured, nobody may.
pub proof fn law_deploying_is_the_owners(owner: u64, user: u64, channel: u64, expected: u64)
    ensures
        allowed(owner, user, channel, expected) ==> owner != 0 && user == owner && channel
            == expected,
        owner != 0 ==> allowed(owner, owner, expected, expected),
{
}

/// Every build that is reported as it should be is deployed, unless it was the last
/// one deployed: reported as a success, by a webhook, in the deployment channel, with
/// a commit hash. It is deployed at that very commit.
pub proof fn law_reported_builds_are_deployed(
    channel: u64,
    expected: u64,
    message: ChannelMessage,
    last: Option<DeploymentEvent>,
    sha: Seq<char>,
    decision: AutomaticDecision,
)
    requires
        automatic(channel, expected, message, last, decision),
        channel == expected,
        message.webhook_id is Some,
        classification(message_text(message)) == Some(true),
        embeds_commit(message.embeds@) == Some(sha),
    ensures
        !sha_form(sha) ==> decision == AutomaticDecision::InvalidSha,
        sha_form(sha) && (last matches Some(event) && event.succeeded && opt_text(event.commit)
            == Some(sha)) ==> decision == AutomaticDecision::Duplicate,
        sha_form(sha) && !(last matches Some(event) && event.succeeded && opt_text(event.commit)
            == Some(sha)) ==> (decision matches AutomaticDecision::Deploy(event) && opt_text(
            event.commit,
        ) == Some(sha)),
{
}

/// What comes from elsewhere is ignored, and a failure or a success without a commit
/// deploys nothing.
pub proof fn law_other_messages_deploy_nothing(
    channel: u64,
    expected: u64,
    message: ChannelMessage,
    last: Option<DeploymentEvent>,
    decision: AutomaticDecision,
)
    requires
        automatic(channel, expected, message, last, decision),
    ensures
        channel != expected || message.webhook_id is None || classification(message_text(message))
            is None ==> decision == AutomaticDecision::Ignore,
        channel == expected && message.webhook_id is Some && (classification(message_text(message))
            == Some(false) || (classification(message_text(message)) is Some && embeds_commit(
            message.embeds@,
        ) is None)) ==> decision == AutomaticDecision::NothingToDeploy,
{
}

/// A finished deployment is announced by its commit and the container that runs,
/// behind the changelog where there is one.
pub proof fn law_announcements_name_the_commit(
    event: DeploymentEvent,
    sha: String,
    state: RolloutState,
    changelog: Seq<char>,
)
    requires
        event.commit == Some(sha),
        finished(state),
    ensures
        announced(event, state, Some(changelog)).len() == 2,
        announced(event, state, Some(changelog))[0] == changelog,
        announced(event, state, None).len() == 1,
        announced(event, state, None)[0] == announced(event, state, Some(changelog))[1],
        announced(event, state, None)[0] == "✅ Automatic deployment of `"@ + short(sha@)
            + running_as("house-chatbot"@, state.container_id),
{
}

/// The button that denies calls the deployment off, whoever presses it; a button of
/// another kind does nothing.
pub proof fn law_deny_button_calls_it_off(
    custom_id: Seq<char>,
    may_deploy: bool,
    decision: ButtonDecision,
)
    requires
        pressed(custom_id, may_deploy, decision),
    ensures
        custom_id == "deploy_deny"@ ==> decision == ButtonDecision::Cancel,
        custom_id != "deploy_deny"@ && !begins(custom_id, "deploy_confirm:"@) ==> decision
            == ButtonDecision::Ignore,
        decision is Deploy ==> may_deploy && begins(custom_id, "deploy_confirm:"@),
{
}

/// Each command of a user who may deploy does what its name says: a preview of the
/// named commit or of the newest build, an update, or a rollback. A name that is none
/// of these is not acted on.
pub proof fn law_commands_do_what_they_say(name: Seq<char>, sha: String)
    ensures
        command_meaning("deploy"@, None, true) == CommandMeaning::Preview(None),
        sha_form(sha@) ==> command_meaning("deploy"@, Some(DeployOption::Text(sha)), true)
            == CommandMeaning::Preview(Some(sha@)),
        !sha_form(sha@) ==> command_meaning("deploy"@, Some(DeployOption::Text(sha)), true)
            == CommandMeaning::Refuse("SHA must contain 7 to 40 hexadecimal characters."@),
        command_meaning("deploy"@, Some(DeployOption::Other), true) is Refuse,
        command_meaning("update"@, None, true) == CommandMeaning::Update,
        command_meaning("rollback"@, None, true) == CommandMeaning::Rollback,
        command_meaning("deploy"@, None, false) is Refuse,
        command_meaning("update"@, None, false) is Refuse,
        command_meaning("rollback"@, None, false) is Refuse,
        names_deployment_command(name) <==> !(command_meaning(name, None, true) is Ignore),
        names_deployment_command(name) <==> name == "deploy"@ || name == "update"@ || name
            == "rollback"@,
{
    reveal_strlit("deploy");
    reveal_strlit("update");
    reveal_strlit("rollback");
    assert("deploy"@[0] == 'd' && "update"@[0] == 'u' && "rollback"@[0] == 'r');
}

/// The running commit is the one that the image of the container is named by; no
/// container is no commit, and any other trouble is passed on.
pub proof fn law_running_commit_is_the_images(sha: Seq<char>, error: Seq<char>)
    ensures
        sha_form(sha) ==> running_commit(
            Ok("ghcr.io/bushshrub/housebot:sha-"@ + sha),
        ) == Ok::<Option<Seq<char>>, Seq<char>>(Some(sha)),
        has_text(error, "No such container"@) || has_text(error, "No such object"@)
            ==> running_commit(Err(error)) == Ok::<Option<Seq<char>>, Seq<char>>(None),
        !has_text(error, "No such container"@) && !has_text(error, "No such object"@)
            ==> running_commit(Err(error)) == Err::<Option<Seq<char>>, Seq<char>>(error),
{
    let prefix = SHA_IMAGE_PREFIX@;
    let image = prefix + sha;
    assert(image.subrange(0, prefix.len() as int) =~= prefix);
    assert(image.skip(prefix.len() as int) =~= sha);
}

/// What is said of an update names both commits and the branch, and ends in the
/// changelog.
pub proof fn law_updates_name_both_commits(
    current: Seq<char>,
    latest: Seq<char>,
    branch: Seq<char>,
    changelog: Seq<char>,
)
    ensures
        updated_text(Some(current), latest, branch, changelog) == "✅ Updated housebot from `"@
            + short(current) + "` to latest `"@ + short(latest) + "` on `"@ + branch + "`.\n\n"@
            + changelog,
        updated_text(None, latest, branch, changelog) == "✅ Updated housebot from `"@
            + "no running container"@ + "` to latest `"@ + short(latest) + "` on `"@ + branch
            + "`.\n\n"@ + changelog,
{
}

/// A decision on a command, and what was found to run, are taken as what they hold.
pub proof fn law_decisions_are_what_they_hold(text: String, sha: Option<String>)
    ensures
        decision_meaning(CommandDecision::Ignore) == CommandMeaning::Ignore,
        decision_meaning(CommandDecision::Refuse(text)) == CommandMeaning::Refuse(text@),
        decision_meaning(CommandDecision::Preview(sha)) == CommandMeaning::Preview(opt_text(sha)),
        decision_meaning(CommandDecision::Update) == CommandMeaning::Update,
        decision_meaning(CommandDecision::Rollback) == CommandMeaning::Rollback,
        opt_outcome_text(Ok(sha)) == Ok::<Option<Seq<char>>, Seq<char>>(opt_text(sha)),
        opt_outcome_text(Err(text)) == Err::<Option<Seq<char>>, Seq<char>>(text@),
{
}

/// Whoever may not deploy is told so in the words of the command, whatever commit
/// they name.
pub proof fn law_refusals_name_the_command(option: Option<DeployOption>)
    ensures
        command_meaning("deploy"@, option, false) == CommandMeaning::Refuse(
            "Only the configured owner can deploy from this channel."@,
        ),
        command_meaning("update"@, option, false) == CommandMeaning::Refuse(
            "Only the configured owner can update from this channel."@,
        ),
        command_meaning("rollback"@, option, false) == CommandMeaning::Refuse(
            "Only the configured owner can roll back from the deployment channel."@,
        ),
{
    reveal_strlit("deploy");
    reveal_strlit("update");
    reveal_strlit("rollback");
    assert("deploy"@[0] == 'd' && "update"@[0] == 'u' && "rollback"@[0] == 'r');
}

} // verus!
