//! Setting off a job whose agent, model and effort are chosen: from the store's
//! leave to start it, over the issue, to what is said.
use crate::catalog::{agent_entry, agent_id, offered, AgentCatalog, CodingAgent};
use crate::develop::{choice_fits, DispatchStage, Job};
use crate::text::{decimal, opt_str, opt_text, to_decimal};
use vstd::prelude::*;

verus! {

/// How a job is set off: by the owner's own request, by the owner's
/// confirmation, or by the owner's approval of another's request.
#[derive(Clone, Copy, Debug, PartialEq, Eq, Structural)]
pub enum Flow {
    Direct,
    Confirmed,
    Approved,
}

/// What is needed of a job to set it off.
#[derive(Debug, PartialEq, Eq)]
pub struct DispatchJob {
    pub title: String,
    pub objective: String,
    pub agent: CodingAgent,
    pub model: String,
    pub effort: String,
    pub requester_name: String,
    pub requester_id: u64,
    pub requester_channel: u64,
}

/// What is needed of a job to set it off, as values.
pub struct DispatchData {
    pub title: Seq<char>,
    pub objective: Seq<char>,
    pub agent: CodingAgent,
    pub model: Seq<char>,
    pub effort: Seq<char>,
    pub requester_name: Seq<char>,
    pub requester_id: u64,
    pub requester_channel: u64,
}

impl View for DispatchJob {
    type V = DispatchData;

    open spec fn view(&self) -> DispatchData {
        DispatchData {
            title: self.title@,
            objective: self.objective@,
            agent: self.agent,
            model: self.model@,
            effort: self.effort@,
            requester_name: self.requester_name@,
            requester_id: self.requester_id,
            requester_channel: self.requester_channel,
        }
    }
}

/// What is needed of a job to set it off; none where the choice is not complete.
pub open spec fn dispatch_data(job: Job) -> Option<DispatchData> {
    match (job.selection.agent, job.selection.model, job.selection.effort) {
        (Some(agent), Some(model), Some(effort)) => Some(
            DispatchData {
                title: job.title@,
                objective: job.objective@,
                agent,
                model: model@,
                effort: effort@,
                requester_name: job.requester_name@,
                requester_id: job.requester_id,
                requester_channel: job.requester_channel,
            },
        ),
        _ => None,
    }
}

/// What is needed of a job to set it off.
pub fn dispatch_job(job: &Job) -> (r: Option<DispatchJob>)
    ensures
        (match r {
            Some(data) => Some(data@),
            None => None,
        }) == dispatch_data(*job),
{
    let agent = match job.selection.agent {
        Some(agent) => agent,
        None => {
            return None;
        },
    };
    match (&job.selection.model, &job.selection.effort) {
        (Some(model), Some(effort)) => Some(
            DispatchJob {
                title: job.title.as_str().to_owned(),
                objective: job.objective.as_str().to_owned(),
                agent,
                model: model.as_str().to_owned(),
                effort: effort.as_str().to_owned(),
                requester_name: job.requester_name.as_str().to_owned(),
                requester_id: job.requester_id,
                requester_channel: job.requester_channel,
            },
        ),
        _ => None,
    }
}

/// A created issue.
#[derive(Debug, PartialEq, Eq)]
pub struct CreatedIssue {
    pub number: u64,
    pub html_url: String,
}

/// How far setting off a job is.
#[derive(Debug, PartialEq, Eq)]
pub enum DispatchState {
    Starting,
    Reading,
    Validating(DispatchJob),
    Building(DispatchJob),
    Creating(DispatchJob),
    Done,
}

/// How far setting off a job is, as values.
pub enum DispatchStateText {
    Starting,
    Reading,
    Validating(DispatchData),
    Building(DispatchData),
    Creating(DispatchData),
    Done,
}

impl View for DispatchState {
    type V = DispatchStateText;

    open spec fn view(&self) -> DispatchStateText {
        match *self {
            DispatchState::Starting => DispatchStateText::Starting,
            DispatchState::Reading => DispatchStateText::Reading,
            DispatchState::Validating(job) => DispatchStateText::Validating(job@),
            DispatchState::Building(job) => DispatchStateText::Building(job@),
            DispatchState::Creating(job) => DispatchStateText::Creating(job@),
            DispatchState::Done => DispatchStateText::Done,
        }
    }
}

/// What came back: whether the store let the job start, what it holds of it,
/// whether the choice is valid, the text of the issue, and the issue.
#[derive(Debug, PartialEq, Eq)]
pub enum DispatchEvent {
    Started(bool),
    Read(Option<DispatchJob>),
    Validated(Result<(), String>),
    Built(Result<String, String>),
    Created(Option<CreatedIssue>),
}

/// What is to be done: to refuse, to read the job (after a word to the owner), to
/// validate the choice, to build the text of the issue, to create the issue, or
/// to note the job as set off or as failed and say so.
#[derive(Debug, PartialEq, Eq)]
pub enum DispatchAction {
    Nothing,
    Refuse(&'static str),
    ReadJob { word: Option<&'static str> },
    Validate { agent: CodingAgent, model: String, effort: String },
    BuildBody {
        title: String,
        objective: String,
        agent: CodingAgent,
        model: String,
        effort: String,
        requester_name: String,
        requester_id: u64,
        approver_name: String,
        approver_id: u64,
    },
    CreateIssue { agent: CodingAgent, title: String, body: String },
    MarkDispatched { reply: String, notice: Option<(u64, String)> },
    MarkFailed { reply: String },
}

/// An action as values.
pub enum ActionText {
    Nothing,
    Refuse(Seq<char>),
    ReadJob { word: Option<Seq<char>> },
    Validate { agent: CodingAgent, model: Seq<char>, effort: Seq<char> },
    BuildBody {
        title: Seq<char>,
        objective: Seq<char>,
        agent: CodingAgent,
        model: Seq<char>,
        effort: Seq<char>,
        requester_name: Seq<char>,
        requester_id: u64,
        approver_name: Seq<char>,
        approver_id: u64,
    },
    CreateIssue { agent: CodingAgent, title: Seq<char>, body: Seq<char> },
    MarkDispatched { reply: Seq<char>, notice: Option<(u64, Seq<char>)> },
    MarkFailed { reply: Seq<char> },
}

impl View for DispatchAction {
    type V = ActionText;

    open spec fn view(&self) -> ActionText {
        match *self {
            DispatchAction::Nothing => ActionText::Nothing,
            DispatchAction::Refuse(text) => ActionText::Refuse(text@),
            DispatchAction::ReadJob { word } => ActionText::ReadJob {
                word: match word {
                    Some(word) => Some(word@),
                    None => None,
                },
            },
            DispatchAction::Validate { agent, model, effort } => ActionText::Validate {
                agent,
                model: model@,
                effort: effort@,
            },
            DispatchAction::BuildBody {
                title,
                objective,
                agent,
                model,
                effort,
                requester_name,
                requester_id,
                approver_name,
                approver_id,
            } => ActionText::BuildBody {
                title: title@,
                objective: objective@,
                agent,
                model: model@,
                effort: effort@,
                requester_name: requester_name@,
                requester_id,
                approver_name: approver_name@,
                approver_id,
            },
            DispatchAction::CreateIssue { agent, title, body } => ActionText::CreateIssue {
                agent,
                title: title@,
                body: body@,
            },
            DispatchAction::MarkDispatched { reply, notice } => ActionText::MarkDispatched {
                reply: reply@,
                notice: match notice {
                    Some(notice) => Some((notice.0, notice.1@)),
                    None => None,
                },
            },
            DispatchAction::MarkFailed { reply } => ActionText::MarkFailed { reply: reply@ },
        }
    }
}

/// Who sets a job off.
#[derive(Debug, PartialEq, Eq)]
pub struct Approver {
    pub name: String,
    pub id: u64,
}

// ---------------------------------------------------------------------- texts

/// Why a job may not start.
pub open spec fn refusal(flow: Flow) -> Seq<char> {
    match flow {
        Flow::Direct => "❌ Failed to dispatch: job is not in a dispatchable state."@,
        Flow::Confirmed => "This job is already being dispatched or has been dispatched."@,
        Flow::Approved => "This request cannot be approved now (wrong stage, expired, or selection incomplete)."@,
    }
}

/// What the owner sees while a job is set off.
pub open spec fn waiting_word(flow: Flow) -> Option<Seq<char>> {
    match flow {
        Flow::Direct => None,
        Flow::Confirmed => Some("⏳ **Dispatching...** Creating GitHub issue..."@),
        Flow::Approved => Some("⏳ **Approving...** Creating GitHub issue..."@),
    }
}

/// What is said of an incomplete choice.
pub open spec fn incomplete(flow: Flow) -> Seq<char> {
    match flow {
        Flow::Direct => "❌ Failed to dispatch: incomplete agent/model/effort selection. Please set DEVELOPMENT_DEFAULT_AGENT, DEVELOPMENT_DEFAULT_MODEL, and DEVELOPMENT_DEFAULT_EFFORT, or use the interactive flow."@,
        Flow::Confirmed => "❌ Failed to dispatch: incomplete selection. Please start again."@,
        Flow::Approved => "❌ Failed: incomplete selection."@,
    }
}

/// What is said of an invalid choice.
pub open spec fn invalid(flow: Flow, error: Seq<char>) -> Seq<char> {
    "❌ Configuration error: "@ + error + (match flow {
        Flow::Confirmed => ". Please start again."@,
        _ => ""@,
    })
}

/// What is said where no issue was created.
pub open spec fn no_issue(flow: Flow) -> Seq<char> {
    match flow {
        Flow::Direct => "❌ Failed to create GitHub issue. Check bot logs for details."@,
        Flow::Confirmed => "❌ Failed to create GitHub issue. Check bot logs for details.\nThe job has been reset to the confirmation stage — click Dispatch to retry."@,
        Flow::Approved => "❌ Failed to create GitHub issue. The job has been reset — click Start Work to retry."@,
    }
}

/// What is said where the job was set off.
pub open spec fn success(
    job: DispatchData,
    number: nat,
    url: Seq<char>,
    catalog: AgentCatalog,
) -> Seq<char> {
    "✅ **Dispatched!**\nIssue #"@ + decimal(number) + " created: "@ + url + "\nAgent: **"@
        + agent_entry(catalog, job.agent).display_name@ + "** | Model: `"@ + job.model
        + "` | Effort: `"@ + job.effort
        + "`\nThe GitHub Actions workflow will pick this up and open a draft PR."@
}

/// What the requester is told where the owner approved.
pub open spec fn approval_notice(
    job: DispatchData,
    url: Seq<char>,
    catalog: AgentCatalog,
) -> Seq<char> {
    "✅ <@"@ + decimal(job.requester_id as nat)
        + "> The bot owner approved your development request. Development has started using "@
        + agent_entry(catalog, job.agent).display_name@ + ", `"@ + job.model + "`, `"@ + job.effort
        + "`.\nIssue: "@ + url
}

/// The title of the issue.
pub open spec fn issue_title(job: DispatchData, catalog: AgentCatalog) -> Seq<char> {
    "[agent:"@ + agent_id(catalog, job.agent) + "] "@ + job.title
}

// ------------------------------------------------------------------ the steps

/// A job that was read: it is validated, where its choice is complete.
pub open spec fn after_reading(flow: Flow, job: Option<DispatchJob>) -> (
    DispatchStateText,
    ActionText,
) {
    match job {
        None => (DispatchStateText::Done, ActionText::MarkFailed { reply: incomplete(flow) }),
        Some(job) => (
            DispatchStateText::Validating(job@),
            ActionText::Validate { agent: job.agent, model: job.model@, effort: job.effort@ },
        ),
    }
}

/// A choice that was validated: the text of the issue is built. Who sets off
/// their own job approves it themselves.
pub open spec fn after_validating(
    flow: Flow,
    approver: Approver,
    job: DispatchData,
    result: Result<(), String>,
) -> (DispatchStateText, ActionText) {
    match result {
        Err(error) => (
            DispatchStateText::Done,
            ActionText::MarkFailed { reply: invalid(flow, error@) },
        ),
        Ok(_) => (
            DispatchStateText::Building(job),
            ActionText::BuildBody {
                title: job.title,
                objective: job.objective,
                agent: job.agent,
                model: job.model,
                effort: job.effort,
                requester_name: job.requester_name,
                requester_id: job.requester_id,
                approver_name: if flow == Flow::Direct {
                    job.requester_name
                } else {
                    approver.name@
                },
                approver_id: if flow == Flow::Direct {
                    job.requester_id
                } else {
                    approver.id
                },
            },
        ),
    }
}

/// A text that was built: the issue is created.
pub open spec fn after_building(
    job: DispatchData,
    result: Result<String, String>,
    catalog: AgentCatalog,
) -> (DispatchStateText, ActionText) {
    match result {
        Err(error) => (
            DispatchStateText::Done,
            ActionText::MarkFailed { reply: "❌ Failed to build issue body: "@ + error@ },
        ),
        Ok(body) => (
            DispatchStateText::Creating(job),
            ActionText::CreateIssue {
                agent: job.agent,
                title: issue_title(job, catalog),
                body: body@,
            },
        ),
    }
}

/// An issue that was created, or not.
pub open spec fn after_creating(
    flow: Flow,
    job: DispatchData,
    issue: Option<CreatedIssue>,
    catalog: AgentCatalog,
) -> (DispatchStateText, ActionText) {
    match issue {
        None => (DispatchStateText::Done, ActionText::MarkFailed { reply: no_issue(flow) }),
        Some(issue) => (
            DispatchStateText::Done,
            ActionText::MarkDispatched {
                reply: success(job, issue.number as nat, issue.html_url@, catalog),
                notice: if flow == Flow::Approved {
                    Some(
                        (job.requester_channel, approval_notice(job, issue.html_url@, catalog)),
                    )
                } else {
                    None
                },
            },
        ),
    }
}

/// What comes next. What does not fit the state changes nothing.
pub open spec fn next(
    flow: Flow,
    approver: Approver,
    state: DispatchStateText,
    event: DispatchEvent,
    catalog: AgentCatalog,
) -> (DispatchStateText, ActionText) {
    match (state, event) {
        (DispatchStateText::Starting, DispatchEvent::Started(started)) => if started {
            (DispatchStateText::Reading, ActionText::ReadJob { word: waiting_word(flow) })
        } else {
            (DispatchStateText::Done, ActionText::Refuse(refusal(flow)))
        },
        (DispatchStateText::Reading, DispatchEvent::Read(job)) => after_reading(flow, job),
        (DispatchStateText::Validating(job), DispatchEvent::Validated(result)) => after_validating(
            flow,
            approver,
            job,
            result,
        ),
        (DispatchStateText::Building(job), DispatchEvent::Built(result)) => after_building(
            job,
            result,
            catalog,
        ),
        (DispatchStateText::Creating(job), DispatchEvent::Created(issue)) => after_creating(
            flow,
            job,
            issue,
            catalog,
        ),
        _ => (state, ActionText::Nothing),
    }
}

/// The failure of a job that had started.
fn failed(reply: &str) -> (r: (DispatchState, DispatchAction))
    ensures
        r.0@ == DispatchStateText::Done,
        r.1@ == (ActionText::MarkFailed { reply: reply@ }),
{
    (DispatchState::Done, DispatchAction::MarkFailed { reply: reply.to_owned() })
}

/// The store's leave to start.
fn on_started(flow: Flow, started: bool) -> (r: (DispatchState, DispatchAction))
    ensures
        (r.0@, r.1@) == (if started {
            (DispatchStateText::Reading, ActionText::ReadJob { word: waiting_word(flow) })
        } else {
            (DispatchStateText::Done, ActionText::Refuse(refusal(flow)))
        }),
{
    if started {
        let word = match flow {
            Flow::Direct => None,
            Flow::Confirmed => Some("⏳ **Dispatching...** Creating GitHub issue..."),
            Flow::Approved => Some("⏳ **Approving...** Creating GitHub issue..."),
        };
        (DispatchState::Reading, DispatchAction::ReadJob { word })
    } else {
        let text = match flow {
            Flow::Direct => "❌ Failed to dispatch: job is not in a dispatchable state.",
            Flow::Confirmed => "This job is already being dispatched or has been dispatched.",
            Flow::Approved =>
                "This request cannot be approved now (wrong stage, expired, or selection incomplete).",
        };
        (DispatchState::Done, DispatchAction::Refuse(text))
    }
}

/// A job that was read.
fn on_read(flow: Flow, job: Option<DispatchJob>) -> (r: (DispatchState, DispatchAction))
    ensures
        (r.0@, r.1@) == after_reading(flow, job),
{
    match job {
        None => failed(
            match flow {
                Flow::Direct =>
                    "❌ Failed to dispatch: incomplete agent/model/effort selection. Please set DEVELOPMENT_DEFAULT_AGENT, DEVELOPMENT_DEFAULT_MODEL, and DEVELOPMENT_DEFAULT_EFFORT, or use the interactive flow.",
                Flow::Confirmed =>
                    "❌ Failed to dispatch: incomplete selection. Please start again.",
                Flow::Approved => "❌ Failed: incomplete selection.",
            },
        ),
        Some(job) => {
            let action = DispatchAction::Validate {
                agent: job.agent,
                model: job.model.as_str().to_owned(),
                effort: job.effort.as_str().to_owned(),
            };
            (DispatchState::Validating(job), action)
        },
    }
}

/// A choice that was validated.
fn on_validated(
    flow: Flow,
    approver: &Approver,
    job: DispatchJob,
    result: Result<(), String>,
) -> (r: (DispatchState, DispatchAction))
    ensures
        (r.0@, r.1@) == after_validating(flow, *approver, job@, result),
{
    match result {
        Err(error) => {
            let end = match flow {
                Flow::Confirmed => ". Please start again.",
                _ => "",
            };
            failed(
                "❌ Configuration error: ".to_owned().concat(error.as_str()).concat(end).as_str(),
            )
        },
        Ok(_) => {
            let direct = match flow {
                Flow::Direct => true,
                _ => false,
            };
            let action = DispatchAction::BuildBody {
                title: job.title.as_str().to_owned(),
                objective: job.objective.as_str().to_owned(),
                agent: job.agent,
                model: job.model.as_str().to_owned(),
                effort: job.effort.as_str().to_owned(),
                requester_name: job.requester_name.as_str().to_owned(),
                requester_id: job.requester_id,
                approver_name: if direct {
                    job.requester_name.as_str().to_owned()
                } else {
                    approver.name.as_str().to_owned()
                },
                approver_id: if direct {
                    job.requester_id
                } else {
                    approver.id
                },
            };
            (DispatchState::Building(job), action)
        },
    }
}

/// A text that was built.
fn on_built(job: DispatchJob, result: Result<String, String>, catalog: &AgentCatalog) -> (r: (
    DispatchState,
    DispatchAction,
))
    ensures
        (r.0@, r.1@) == after_building(job@, result, *catalog),
{
    match result {
        Err(error) => failed(
            "❌ Failed to build issue body: ".to_owned().concat(error.as_str()).as_str(),
        ),
        Ok(body) => {
            let title = "[agent:".to_owned().concat(
                catalog.id_str(job.agent),
            ).concat("] ").concat(
                job.title.as_str(),
            );
            let agent = job.agent;
            (DispatchState::Creating(job), DispatchAction::CreateIssue { agent, title, body })
        },
    }
}

/// An issue that was created, or not.
fn on_created(
    flow: Flow,
    job: &DispatchJob,
    issue: Option<CreatedIssue>,
    catalog: &AgentCatalog,
) -> (r: (DispatchState, DispatchAction))
    ensures
        (r.0@, r.1@) == after_creating(flow, job@, issue, *catalog),
{
    let issue = match issue {
        None => {
            return failed(
                match flow {
                    Flow::Direct => "❌ Failed to create GitHub issue. Check bot logs for details.",
                    Flow::Confirmed =>
                        "❌ Failed to create GitHub issue. Check bot logs for details.\nThe job has been reset to the confirmation stage — click Dispatch to retry.",
                    Flow::Approved =>
                        "❌ Failed to create GitHub issue. The job has been reset — click Start Work to retry.",
                },
            );
        },
        Some(issue) => issue,
    };
    let number = to_decimal(issue.number);
    let url = issue.html_url.as_str();
    let agent = catalog.agent(job.agent).display_name.as_str();
    let reply = "✅ **Dispatched!**\nIssue #".to_owned().concat(number.as_str()).concat(
        " created: ",
    ).concat(url).concat("\nAgent: **").concat(agent).concat("** | Model: `").concat(
        job.model.as_str(),
    ).concat("` | Effort: `").concat(job.effort.as_str()).concat(
        "`\nThe GitHub Actions workflow will pick this up and open a draft PR.",
    );
    let notice = match flow {
        Flow::Approved => {
            let requester = to_decimal(job.requester_id);
            let text = "✅ <@".to_owned().concat(requester.as_str()).concat(
                "> The bot owner approved your development request. Development has started using ",
            ).concat(agent).concat(", `").concat(job.model.as_str()).concat("`, `").concat(
                job.effort.as_str(),
            ).concat("`.\nIssue: ").concat(url);
            Some((job.requester_channel, text))
        },
        _ => None,
    };
    (DispatchState::Done, DispatchAction::MarkDispatched { reply, notice })
}

/// What comes next on the way of a job. What does not fit the state changes
/// nothing.
pub fn dispatch_step(
    flow: Flow,
    approver: &Approver,
    state: DispatchState,
    event: DispatchEvent,
    catalog: &AgentCatalog,
) -> (r: (DispatchState, DispatchAction))
    ensures
        (r.0@, r.1@) == next(flow, *approver, state@, event, *catalog),
{
    match (state, event) {
        (DispatchState::Starting, DispatchEvent::Started(started)) => on_started(flow, started),
        (DispatchState::Reading, DispatchEvent::Read(job)) => on_read(flow, job),
        (DispatchState::Validating(job), DispatchEvent::Validated(result)) => on_validated(
            flow,
            approver,
            job,
            result,
        ),
        (DispatchState::Building(job), DispatchEvent::Built(result)) => on_built(
            job,
            result,
            catalog,
        ),
        (DispatchState::Creating(job), DispatchEvent::Created(issue)) => on_created(
            flow,
            &job,
            issue,
            catalog,
        ),
        (state, _) => (state, DispatchAction::Nothing),
    }
}

// ----------------------------------------------------------------------- laws

/// Is the job under way, started and not yet settled?
pub open spec fn under_way(state: DispatchStateText) -> bool {
    !(state is Starting) && !(state is Done)
}

/// A job is settled exactly once: it is noted as set off or as failed only where
/// it was under way, with that it is done, and a job that is under way comes to
/// an end in no other way.
pub proof fn law_a_started_job_is_settled_once(
    flow: Flow,
    approver: Approver,
    state: DispatchStateText,
    event: DispatchEvent,
    catalog: AgentCatalog,
)
    ensures
        ({
            let (after, action) = next(flow, approver, state, event, catalog);
            let settles = action is MarkDispatched || action is MarkFailed;
            (settles ==> under_way(state) && after is Done) && (under_way(state) && after is Done
                ==> settles) && (state is Done ==> after is Done && action is Nothing)
        }),
{
}

/// A job is noted as set off exactly where its issue was created.
pub proof fn law_dispatched_means_an_issue_was_created(
    flow: Flow,
    approver: Approver,
    state: DispatchStateText,
    event: DispatchEvent,
    catalog: AgentCatalog,
)
    ensures
        next(flow, approver, state, event, catalog).1 is MarkDispatched <==> state is Creating
            && event is Created && event->Created_0 is Some,
{
}

/// A job that the store did not let start is neither read nor noted.
pub proof fn law_a_refused_job_is_left_alone(
    flow: Flow,
    approver: Approver,
    catalog: AgentCatalog,
)
    ensures
        next(flow, approver, DispatchStateText::Starting, DispatchEvent::Started(false), catalog)
            == (DispatchStateText::Done, ActionText::Refuse(refusal(flow))),
{
}

/// What happens where every answer is the good one.
pub open spec fn good_events(
    job: DispatchJob,
    body: String,
    issue: CreatedIssue,
) -> Seq<DispatchEvent> {
    seq![
        DispatchEvent::Started(true),
        DispatchEvent::Read(Some(job)),
        DispatchEvent::Validated(Ok(())),
        DispatchEvent::Built(Ok(body)),
        DispatchEvent::Created(Some(issue)),
    ]
}

/// The state and the last action after a series of events.
pub open spec fn run(
    flow: Flow,
    approver: Approver,
    state: DispatchStateText,
    events: Seq<DispatchEvent>,
    catalog: AgentCatalog,
) -> (DispatchStateText, ActionText)
    decreases events.len(),
{
    if events.len() == 0 {
        (state, ActionText::Nothing)
    } else {
        next(
            flow,
            approver,
            run(flow, approver, state, events.drop_last(), catalog).0,
            events.last(),
            catalog,
        )
    }
}

/// Where every answer is the good one the job is set off, and all are told.
pub proof fn law_good_answers_set_the_job_off(
    flow: Flow,
    approver: Approver,
    job: DispatchJob,
    body: String,
    issue: CreatedIssue,
    catalog: AgentCatalog,
)
    ensures
        run(
            flow,
            approver,
            DispatchStateText::Starting,
            good_events(job, body, issue),
            catalog,
        ) == after_creating(flow, job@, Some(issue), catalog),
{
    let events = good_events(job, body, issue);
    reveal_with_fuel(run, 6);
    assert(events.drop_last().last() == events[3]);
    assert(events.drop_last().drop_last().last() == events[2]);
    assert(events.drop_last().drop_last().drop_last().last() == events[1]);
    assert(events.drop_last().drop_last().drop_last().drop_last().last() == events[0]);
}

/// What was validated is what the text is built from, and the issue is created
/// for the agent that was chosen, whatever the text says.
pub proof fn law_what_was_validated_is_set_off(
    flow: Flow,
    approver: Approver,
    job: DispatchJob,
    body: String,
    catalog: AgentCatalog,
)
    ensures
        after_reading(flow, Some(job)).1 == (ActionText::Validate {
            agent: job.agent,
            model: job.model@,
            effort: job.effort@,
        }),
        after_validating(flow, approver, job@, Ok(())).1 matches ActionText::BuildBody {
            title,
            objective,
            agent,
            model,
            effort,
            ..
        } && title == job.title@ && objective == job.objective@ && agent == job.agent && model
            == job.model@ && effort == job.effort@,
        after_building(job@, Ok(body), catalog).1 matches ActionText::CreateIssue {
            agent,
            body: text,
            ..
        } && agent == job.agent && text == body@,
{
}

/// A job that waits for confirmation with a fitting choice has all that is needed
/// to set it off, and its choice is one that the catalog offers.
pub proof fn law_confirmed_jobs_can_be_set_off(job: Job, catalog: AgentCatalog)
    requires
        job.stage == DispatchStage::Confirming,
        choice_fits(job.selection@, job.stage, catalog),
    ensures
        dispatch_data(job) matches Some(data) && offered(
            catalog,
            data.agent,
            data.model,
            data.effort,
        ),
{
}

/// What is set off is the job as it was chosen and asked for, field by field, and
/// nothing is set off before agent, model and level are all chosen.
pub proof fn law_what_is_set_off_is_the_job(job: Job)
    ensures
        dispatch_data(job) is Some <==> job.selection.agent is Some && job.selection.model is Some
            && job.selection.effort is Some,
        dispatch_data(job) matches Some(data) ==> {
            &&& data.title == job.title@ && data.objective == job.objective@
            &&& Some(data.agent) == job.selection.agent
            &&& Some(data.model) == opt_text(job.selection.model)
            &&& Some(data.effort) == opt_text(job.selection.effort)
            &&& data.requester_name == job.requester_name@ && data.requester_id == job.requester_id
            &&& data.requester_channel == job.requester_channel
        },
{
}

/// What is kept of a job on its way is what its fields say.
pub proof fn law_dispatched_jobs_are_the_fields(job: DispatchJob)
    ensures
        job@.title == job.title@ && job@.objective == job.objective@,
        job@.agent == job.agent && job@.model == job.model@ && job@.effort == job.effort@,
        job@.requester_name == job.requester_name@ && job@.requester_id == job.requester_id,
        job@.requester_channel == job.requester_channel,
{
}

/// The issue names who asked and who approved: whoever sets off their own job
/// approves it themselves, else it is the one who pressed the button.
pub proof fn law_issues_name_requester_and_approver(
    flow: Flow,
    approver: Approver,
    job: DispatchData,
)
    ensures
        after_validating(flow, approver, job, Ok(())).1 matches ActionText::BuildBody {
            requester_name,
            requester_id,
            approver_name,
            approver_id,
            ..
        } && requester_name == job.requester_name && requester_id == job.requester_id && (flow
            == Flow::Direct ==> approver_name == job.requester_name && approver_id
            == job.requester_id) && (flow != Flow::Direct ==> approver_name == approver.name@
            && approver_id == approver.id),
{
}

/// The title of an issue tells the agent that is to work on it by its identifier,
/// and then the feature.
pub proof fn law_issue_titles_name_the_agent(job: DispatchData, body: String, catalog: AgentCatalog)
    ensures
        after_building(job, Ok(body), catalog).1 matches ActionText::CreateIssue { title, .. }
            && title == "[agent:"@ + agent_id(catalog, job.agent) + "] "@ + job.title,
{
}

/// Whoever set a job off is told the issue and what works on it; the one who asked
/// is told too, in the channel where they asked, where it took an approval, and only
/// there.
pub proof fn law_all_are_told_of_an_issue(
    flow: Flow,
    job: DispatchData,
    issue: CreatedIssue,
    catalog: AgentCatalog,
)
    ensures
        after_creating(flow, job, Some(issue), catalog).1 matches ActionText::MarkDispatched {
            reply,
            notice,
        } && {
            &&& reply == "✅ **Dispatched!**\nIssue #"@ + decimal(issue.number as nat)
                + " created: "@ + issue.html_url@ + "\nAgent: **"@ + agent_entry(
                catalog,
                job.agent,
            ).display_name@ + "** | Model: `"@ + job.model + "` | Effort: `"@ + job.effort
                + "`\nThe GitHub Actions workflow will pick this up and open a draft PR."@
            &&& flow != Flow::Approved ==> notice is None
            &&& flow == Flow::Approved ==> notice == Some(
                (
                    job.requester_channel,
                    "✅ <@"@ + decimal(job.requester_id as nat)
                        + "> The bot owner approved your development request. Development has started using "@
                        + agent_entry(catalog, job.agent).display_name@ + ", `"@ + job.model
                        + "`, `"@ + job.effort + "`.\nIssue: "@ + issue.html_url@,
                ),
            )
        },
{
}

/// What goes wrong on the way is told as what it was, with the error where there is
/// one, in the words of the way that the job took.
pub proof fn law_failures_are_told_by_the_way_taken(
    approver: Approver,
    job: DispatchData,
    error: String,
    catalog: AgentCatalog,
)
    ensures
        refusal(Flow::Direct) == "❌ Failed to dispatch: job is not in a dispatchable state."@,
        refusal(Flow::Confirmed) == "This job is already being dispatched or has been dispatched."@,
        refusal(Flow::Approved)
            == "This request cannot be approved now (wrong stage, expired, or selection incomplete)."@,
        waiting_word(Flow::Direct) is None,
        waiting_word(Flow::Confirmed) == Some("⏳ **Dispatching...** Creating GitHub issue..."@),
        waiting_word(Flow::Approved) == Some("⏳ **Approving...** Creating GitHub issue..."@),
        after_reading(Flow::Direct, None).1 == (ActionText::MarkFailed {
            reply: "❌ Failed to dispatch: incomplete agent/model/effort selection. Please set DEVELOPMENT_DEFAULT_AGENT, DEVELOPMENT_DEFAULT_MODEL, and DEVELOPMENT_DEFAULT_EFFORT, or use the interactive flow."@,
        }),
        after_reading(Flow::Confirmed, None).1 == (ActionText::MarkFailed {
            reply: "❌ Failed to dispatch: incomplete selection. Please start again."@,
        }),
        after_reading(Flow::Approved, None).1 == (ActionText::MarkFailed {
            reply: "❌ Failed: incomplete selection."@,
        }),
        after_validating(Flow::Confirmed, approver, job, Err(error)).1 == (ActionText::MarkFailed {
            reply: "❌ Configuration error: "@ + error@ + ". Please start again."@,
        }),
        after_validating(Flow::Direct, approver, job, Err(error)).1 == (ActionText::MarkFailed {
            reply: "❌ Configuration error: "@ + error@ + ""@,
        }),
        after_validating(Flow::Approved, approver, job, Err(error)).1 == (ActionText::MarkFailed {
            reply: "❌ Configuration error: "@ + error@ + ""@,
        }),
        after_building(job, Err(error), catalog).1 == (ActionText::MarkFailed {
            reply: "❌ Failed to build issue body: "@ + error@,
        }),
        after_creating(Flow::Direct, job, None, catalog).1 == (ActionText::MarkFailed {
            reply: "❌ Failed to create GitHub issue. Check bot logs for details."@,
        }),
        after_creating(Flow::Approved, job, None, catalog).1 == (ActionText::MarkFailed {
            reply: "❌ Failed to create GitHub issue. The job has been reset — click Start Work to retry."@,
        }),
        after_creating(Flow::Confirmed, job, None, catalog).1 == (ActionText::MarkFailed {
            reply: "❌ Failed to create GitHub issue. Check bot logs for details.\nThe job has been reset to the confirmation stage — click Dispatch to retry."@,
        }),
{
}

/// What is to be done is taken as what it is, with what it holds.
pub proof fn law_dispatch_actions_are_what_they_hold(action: DispatchAction, state: DispatchState)
    ensures
        action is Nothing <==> action@ is Nothing,
        action matches DispatchAction::Refuse(text) ==> action@ == ActionText::Refuse(text@),
        action matches DispatchAction::ReadJob { word } ==> action@ == (ActionText::ReadJob {
            word: opt_str(word),
        }),
        action matches DispatchAction::Validate { agent, model, effort } ==> action@ == (
        ActionText::Validate { agent, model: model@, effort: effort@ }),
        action matches DispatchAction::BuildBody {
            title,
            objective,
            agent,
            model,
            effort,
            requester_name,
            requester_id,
            approver_name,
            approver_id,
        } ==> action@ == (ActionText::BuildBody {
            title: title@,
            objective: objective@,
            agent,
            model: model@,
            effort: effort@,
            requester_name: requester_name@,
            requester_id,
            approver_name: approver_name@,
            approver_id,
        }),
        action matches DispatchAction::CreateIssue { agent, title, body } ==> action@ == (
        ActionText::CreateIssue { agent, title: title@, body: body@ }),
        action matches DispatchAction::MarkDispatched { reply, notice } ==> (
        action@ matches ActionText::MarkDispatched { reply: said, notice: told } && said == reply@
            && (notice is None <==> told is None) && (notice matches Some(n) ==> told == Some(
            (n.0, n.1@),
        ))),
        action matches DispatchAction::MarkFailed { reply } ==> action@ == (
        ActionText::MarkFailed { reply: reply@ }),
        state is Starting <==> state@ is Starting,
        state is Reading <==> state@ is Reading,
        state is Done <==> state@ is Done,
        state matches DispatchState::Validating(job) ==> state@ == DispatchStateText::Validating(
            job@,
        ),
        state matches DispatchState::Building(job) ==> state@ == DispatchStateText::Building(job@),
        state matches DispatchState::Creating(job) ==> state@ == DispatchStateText::Creating(job@),
{
}

} // verus!
