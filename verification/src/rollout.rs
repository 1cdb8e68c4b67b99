//! Carrying out a deployment step by step, and what is said about it.
use crate::changelog::{short, short_sha};
use crate::containers::{
    plan_of, stage_name, steps, DeploymentCommand, DeploymentStage, HOUSE_CHATBOT_CONTAINER,
};
use crate::text::{opt_text, same_text, texts};
use vstd::prelude::*;

verus! {

// ------------------------------------------------------------- running it

/// Who asked for the steps.
#[derive(Clone, Copy, Debug, PartialEq, Eq, Structural)]
pub enum RolloutKind {
    Automatic,
    Manual,
    Update,
    Rollback,
}

/// What is known of a container that was started.
#[derive(Debug, PartialEq, Eq)]
pub struct DeploymentRunSummary {
    pub container_name: String,
    pub container_id: Option<String>,
}

/// The end of a message on a finished deployment.
pub open spec fn running_as(name: Seq<char>, id: Option<Seq<char>>) -> Seq<char> {
    match id {
        Some(id) => "` completed. Container `"@ + name + "` is running as `"@ + id + "`."@,
        None => "` completed. Container `"@ + name + "` is running."@,
    }
}

impl DeploymentRunSummary {
    /// The end of a message on a finished deployment.
    fn running_text(&self) -> (r: String)
        ensures
            r@ == running_as(self.container_name@, opt_text(self.container_id)),
    {
        match &self.container_id {
            Some(id) => "` completed. Container `".to_owned().concat(
                self.container_name.as_str(),
            ).concat("` is running as `").concat(id.as_str()).concat("`."),
            None => "` completed. Container `".to_owned().concat(
                self.container_name.as_str(),
            ).concat("` is running."),
        }
    }

    /// What is said when an automatic deployment is done.
    pub fn completed_message(&self, sha: &str) -> (r: String)
        ensures
            r@ == "✅ Automatic deployment of `"@ + short(sha@) + running_as(
                self.container_name@,
                opt_text(self.container_id),
            ),
    {
        let end = self.running_text();
        "✅ Automatic deployment of `".to_owned().concat(short_sha(sha)).concat(end.as_str())
    }

    /// What is said when a deployment that was asked for is done.
    pub fn manual_completed_message(&self, sha: &str) -> (r: String)
        ensures
            r@ == "✅ Deployment of `"@ + short(sha@) + running_as(
                self.container_name@,
                opt_text(self.container_id),
            ),
    {
        let end = self.running_text();
        "✅ Deployment of `".to_owned().concat(short_sha(sha)).concat(end.as_str())
    }
}

/// Why a step failed.
#[derive(Debug, PartialEq, Eq)]
pub enum RolloutFailure {
    Docker(String),
    NotRunning(DeploymentStage),
}

/// Where a deployment stands once a step is over.
#[derive(Debug, PartialEq, Eq)]
pub enum RolloutStatus {
    Continue,
    Complete,
    Failed(RolloutFailure),
}

/// Steps, how many of them are done, and what the start step reported.
pub struct Rollout {
    commands: Vec<DeploymentCommand>,
    done: usize,
    container_id: Option<String>,
}

/// The state of a deployment.
pub struct RolloutState {
    pub commands: Seq<(DeploymentStage, Seq<Seq<char>>)>,
    pub done: nat,
    pub container_id: Option<Seq<char>>,
}

/// What a step's outcome makes of the state; none where the step failed.
pub open spec fn advanced(state: RolloutState, output: Result<Seq<char>, Seq<char>>) -> Option<
    RolloutState,
> {
    let stage = state.commands[state.done as int].0;
    match output {
        Err(_) => None,
        Ok(text) => if stage == DeploymentStage::CheckContainerState && text != "true"@ {
            None
        } else {
            Some(
                RolloutState {
                    commands: state.commands,
                    done: state.done + 1,
                    container_id: if stage == DeploymentStage::StartRequestedImage {
                        Some(text)
                    } else {
                        state.container_id
                    },
                },
            )
        },
    }
}

/// Are all steps done?
pub open spec fn finished(state: RolloutState) -> bool {
    state.done >= state.commands.len()
}

/// An outcome as text.
pub open spec fn outcome_text(output: Result<String, String>) -> Result<Seq<char>, Seq<char>> {
    match output {
        Ok(text) => Ok(text@),
        Err(text) => Err(text@),
    }
}

impl View for Rollout {
    type V = RolloutState;

    closed spec fn view(&self) -> RolloutState {
        RolloutState {
            commands: steps(self.commands@),
            done: self.done as nat,
            container_id: opt_text(self.container_id),
        }
    }
}

impl Rollout {
    /// The steps, none of them done.
    pub fn new(commands: Vec<DeploymentCommand>) -> (r: Self)
        ensures
            r@ == (RolloutState {
                commands: steps(commands@),
                done: 0,
                container_id: None,
            }),
    {
        Rollout { commands, done: 0, container_id: None }
    }

    /// The step to run next.
    pub fn current(&self) -> (r: Option<&DeploymentCommand>)
        ensures
            r is Some <==> self@.done < self@.commands.len(),
            r matches Some(command) ==> (command.stage, texts(command.args@))
                == self@.commands[self@.done as int],
    {
        if self.done < self.commands.len() {
            let command = &self.commands[self.done];
            proof {
                assert(steps(self.commands@)[self.done as int] == (
                    command.stage,
                    texts(command.args@),
                ));
            }
            Some(command)
        } else {
            None
        }
    }

    /// Are all steps done?
    pub fn is_finished(&self) -> (r: bool)
        ensures
            r == finished(self@),
    {
        self.done >= self.commands.len()
    }

    /// Takes in what the current step gave. A failed step leaves all as it is.
    pub fn record(&mut self, output: Result<String, String>) -> (r: RolloutStatus)
        requires
            old(self)@.done < old(self)@.commands.len(),
        ensures
            match advanced(old(self)@, outcome_text(output)) {
                Some(next) => final(self)@ == next && r == (if next.done == next.commands.len() {
                    RolloutStatus::Complete
                } else {
                    RolloutStatus::Continue
                }),
                None => *final(self) == *old(self) && r == RolloutStatus::Failed(
                    match output {
                        Err(error) => RolloutFailure::Docker(error),
                        Ok(_) => RolloutFailure::NotRunning(
                            old(self)@.commands[old(self)@.done as int].0,
                        ),
                    },
                ),
            },
    {
        let total: usize = self.commands.len();
        let stage = self.commands[self.done].stage;
        proof {
            assert(steps(self.commands@)[self.done as int].0 == stage);
        }
        match output {
            Err(error) => RolloutStatus::Failed(RolloutFailure::Docker(error)),
            Ok(text) => {
                if stage.is_health_check() && !same_text(text.as_str(), "true") {
                    return RolloutStatus::Failed(RolloutFailure::NotRunning(stage));
                }
                if stage.is_start() {
                    self.container_id = Some(text);
                }
                self.done = self.done + 1;
                if self.done == total {
                    RolloutStatus::Complete
                } else {
                    RolloutStatus::Continue
                }
            },
        }
    }

    /// What is known of the container that was started.
    pub fn summary(self) -> (r: DeploymentRunSummary)
        ensures
            r.container_name@ == HOUSE_CHATBOT_CONTAINER@,
            opt_text(r.container_id) == self@.container_id,
    {
        DeploymentRunSummary {
            container_name: HOUSE_CHATBOT_CONTAINER.to_owned(),
            container_id: self.container_id,
        }
    }
}

/// What is said of a failed step.
pub open spec fn failure_text(kind: RolloutKind, failure: RolloutFailure) -> Seq<char> {
    match failure {
        RolloutFailure::Docker(error) => error@,
        RolloutFailure::NotRunning(stage) => match kind {
            RolloutKind::Automatic => "house-chatbot is not running"@,
            RolloutKind::Manual => "deployment stage `"@ + stage_name(stage)
                + "` failed: house-chatbot is not running"@,
            RolloutKind::Update => "house-chatbot is not running after update deployment"@,
            RolloutKind::Rollback => "house-chatbot is not running after rollback"@,
        },
    }
}

/// What is said of a failed step.
pub fn failure_message(kind: RolloutKind, failure: RolloutFailure) -> (r: String)
    ensures
        r@ == failure_text(kind, failure),
{
    match failure {
        RolloutFailure::Docker(error) => error,
        RolloutFailure::NotRunning(stage) => match kind {
            RolloutKind::Automatic => "house-chatbot is not running".to_owned(),
            RolloutKind::Manual => "deployment stage `".to_owned().concat(stage.name()).concat(
                "` failed: house-chatbot is not running",
            ),
            RolloutKind::Update => {
                "house-chatbot is not running after update deployment".to_owned()
            },
            RolloutKind::Rollback => "house-chatbot is not running after rollback".to_owned(),
        },
    }
}

/// The state after all the outcomes, while none of them is a failure.
pub open spec fn advanced_all(
    state: RolloutState,
    outputs: Seq<Result<Seq<char>, Seq<char>>>,
) -> Option<RolloutState>
    decreases outputs.len(),
{
    if outputs.len() == 0 {
        Some(state)
    } else {
        match advanced_all(state, outputs.drop_last()) {
            Some(before) => if before.done < before.commands.len() {
                advanced(before, outputs.last())
            } else {
                None
            },
            None => None,
        }
    }
}

/// A plan is carried out in full exactly where each of its four steps gives an
/// output and the last one reports a running container; the container is then
/// the one that the third step reported.
pub proof fn law_plan_completes_only_when_running(
    image: Seq<char>,
    docker_network: Seq<char>,
    environment: Seq<(String, String)>,
    outputs: Seq<Result<Seq<char>, Seq<char>>>,
)
    requires
        outputs.len() == 4,
    ensures
        ({
            let start = RolloutState {
                commands: plan_of(image, docker_network, environment),
                done: 0,
                container_id: None,
            };
            match advanced_all(start, outputs) {
                Some(end) => {
                    &&& forall|i: int| 0 <= i < 4 ==> #[trigger] outputs[i] is Ok
                    &&& outputs[3]->Ok_0 == "true"@
                    &&& end.done == end.commands.len()
                    &&& end.container_id == Some(outputs[2]->Ok_0)
                },
                None => {
                    ||| exists|i: int| 0 <= i < 4 && #[trigger] outputs[i] is Err
                    ||| outputs[3]->Ok_0 != "true"@
                },
            }
        }),
{
    reveal_with_fuel(advanced_all, 5);
    let a = outputs.drop_last();
    let b = a.drop_last();
    let c = b.drop_last();
    assert(c.drop_last() =~= Seq::empty());
    assert(c.last() == outputs[0]);
    assert(b.last() == outputs[1]);
    assert(a.last() == outputs[2]);
    assert(outputs[0] is Err || outputs[0] is Ok);
    assert(outputs[1] is Err || outputs[1] is Ok);
    assert(outputs[2] is Err || outputs[2] is Ok);
    assert(outputs[3] is Err || outputs[3] is Ok);
}

/// Each outcome without a failure is one step done.
proof fn lemma_steps_done(state: RolloutState, outputs: Seq<Result<Seq<char>, Seq<char>>>)
    ensures
        advanced_all(state, outputs) matches Some(end) ==> end.done == state.done + outputs.len()
            && end.commands == state.commands,
    decreases outputs.len(),
{
    if outputs.len() > 0 {
        lemma_steps_done(state, outputs.drop_last());
    }
}

/// However a plan went, its steps are all done only where the fourth of them
/// reported a running container.
pub proof fn law_finished_means_running(
    image: Seq<char>,
    docker_network: Seq<char>,
    environment: Seq<(String, String)>,
    outputs: Seq<Result<Seq<char>, Seq<char>>>,
    end: RolloutState,
)
    requires
        advanced_all(
            RolloutState {
                commands: plan_of(image, docker_network, environment),
                done: 0,
                container_id: None,
            },
            outputs,
        ) == Some(end),
        finished(end),
    ensures
        outputs.len() == 4,
        outputs[3] == Ok::<Seq<char>, Seq<char>>("true"@),
        end.container_id == Some(outputs[2]->Ok_0),
{
    let start = RolloutState {
        commands: plan_of(image, docker_network, environment),
        done: 0,
        container_id: None,
    };
    lemma_steps_done(start, outputs);
    if outputs.len() > 4 {
        lemma_steps_done(start, outputs.drop_last());
    }
    law_plan_completes_only_when_running(image, docker_network, environment, outputs);
}

/// A step that gives an output is done, and only that step; what the start step
/// reports is the container from then on. A step that fails, or a container that
/// does not report that it runs, ends the deployment.
pub proof fn law_steps_are_done_one_by_one(
    state: RolloutState,
    output: Result<Seq<char>, Seq<char>>,
)
    requires
        state.done < state.commands.len(),
    ensures
        ({
            let stage = state.commands[state.done as int].0;
            let next = advanced(state, output);
            &&& output is Err ==> next is None
            &&& output matches Ok(text) ==> (next is None <==> stage
                == DeploymentStage::CheckContainerState && text != "true"@)
            &&& next matches Some(after) ==> after.done == state.done + 1 && after.commands
                == state.commands
            &&& next matches Some(after) ==> (stage == DeploymentStage::StartRequestedImage
                ==> after.container_id == Some(output->Ok_0))
            &&& next matches Some(after) ==> (stage != DeploymentStage::StartRequestedImage
                ==> after.container_id == state.container_id)
            &&& next matches Some(after) ==> (finished(after) <==> state.done + 1
                == state.commands.len())
            &&& !finished(state)
        }),
{
}

/// What is said of a running container names it, and tells its number where that is
/// known.
pub proof fn law_running_containers_are_named(name: Seq<char>, id: Seq<char>)
    ensures
        running_as(name, Some(id)) == "` completed. Container `"@ + name + "` is running as `"@ + id
            + "`."@,
        running_as(name, None) == "` completed. Container `"@ + name + "` is running."@,
{
}

/// What docker said of a failed step is passed on as it is, whoever asked; of a
/// container that does not run it is said by who asked.
pub proof fn law_failures_are_passed_on(kind: RolloutKind, error: String, stage: DeploymentStage)
    ensures
        failure_text(kind, RolloutFailure::Docker(error)) == error@,
        failure_text(RolloutKind::Automatic, RolloutFailure::NotRunning(stage))
            == "house-chatbot is not running"@,
        failure_text(RolloutKind::Manual, RolloutFailure::NotRunning(stage))
            == "deployment stage `"@ + stage_name(stage)
            + "` failed: house-chatbot is not running"@,
        failure_text(RolloutKind::Update, RolloutFailure::NotRunning(stage))
            == "house-chatbot is not running after update deployment"@,
        failure_text(RolloutKind::Rollback, RolloutFailure::NotRunning(stage))
            == "house-chatbot is not running after rollback"@,
{
}

/// An outcome is taken as the output or the error that it holds.
pub proof fn law_outcomes_are_what_they_hold(text: String)
    ensures
        outcome_text(Ok(text)) == Ok::<Seq<char>, Seq<char>>(text@),
        outcome_text(Err(text)) == Err::<Seq<char>, Seq<char>>(text@),
{
}

} // verus!
