//! Choosing who implements a feature: the messages with their controls, and what
//! pressing one of them does.
use crate::bridge::{is_lower_hex, parse_uuid, uuid_number, uuid_text, write_uuid};
use crate::catalog::{
    agent_entries, agent_entry, agent_named, effort_entries, efforts_of,
    law_listed_agents_are_understood, law_listed_efforts_are_offered, law_listed_models_are_offered,
    list_agents, list_efforts, list_models, model_entries, offered, told_apart, AgentCatalog,
    CodingAgent,
};
use crate::components::{
    button, button_text, entries_of, menu_row, no_rows, row1, row2, row3, row_of, rows1, rows2,
    rows_of, ButtonLook, ButtonText, MenuEntry, Row, RowText,
};
use crate::text::{
    begins, decimal, ends, first_index, has_text, join, joined, law_joined_texts_hold_each_part,
    law_last_pieces_end_a_text, law_parts_are_found,
    law_split_at_the_first, law_texts_go_on, lemma_first_index, lines, lines_of, opt_str, opt_text,
    same_text, split_first, split_once, strip_prefix, to_decimal, without_prefix,
};
use vstd::prelude::*;

verus! {

// ---------------------------------------------------------------- identifiers

/// What the identifier of every control of a job begins with.
pub const DEVELOP_PREFIX: &'static str = "develop:";

/// The identifier of a control.
pub open spec fn control_id(job: u128, action: Seq<char>) -> Seq<char> {
    DEVELOP_PREFIX@ + uuid_text(job) + ":"@ + action
}

/// The job and the action that an identifier names.
pub open spec fn control_of(custom_id: Seq<char>) -> Option<(u128, Seq<char>)> {
    match without_prefix(custom_id, DEVELOP_PREFIX@) {
        None => None,
        Some(rest) => match split_first(rest, ':') {
            None => None,
            Some((id, action)) => match uuid_number(id) {
                None => None,
                Some(job) => Some((job, action)),
            },
        },
    }
}

/// The identifier of a control. It names the job and the action that it was made
/// for.
pub fn develop_id(job: u128, action: &str) -> (r: String)
    ensures
        r@ == control_id(job, action@),
        control_of(r@) == Some((job, action@)),
        !uuid_text(job).contains(':'),
        uuid_number(uuid_text(job)) == Some(job),
{
    let id = write_uuid(job);
    let r = DEVELOP_PREFIX.to_owned().concat(id.as_str()).concat(":").concat(action);
    proof {
        reveal_strlit("develop:");
        reveal_strlit(":");
        let rest = id@ + ":"@ + action@;
        assert(r@.subrange(0, DEVELOP_PREFIX@.len() as int) =~= DEVELOP_PREFIX@);
        assert(r@.skip(DEVELOP_PREFIX@.len() as int) =~= rest);
        assert forall|i: int| 0 <= i < 36 implies rest[i] != ':' by {
            assert(rest[i] == id@[i]);
            assert(is_lower_hex(id@[i]) || id@[i] == '-');
        }
        assert(rest[36] == ':');
        lemma_first_index(rest, ':');
        assert(first_index(rest, ':') == 36);
        assert(rest.take(36) =~= id@);
        assert(rest.skip(37) =~= action@);
        assert(!id@.contains(':'));
    }
    r
}

/// The job and the action that an identifier names.
pub fn parse_develop_id<'a>(custom_id: &'a str) -> (r: Option<(u128, &'a str)>)
    ensures
        (match r {
            Some((job, action)) => Some((job, action@)),
            None => None,
        }) == control_of(custom_id@),
{
    let rest = match strip_prefix(custom_id, DEVELOP_PREFIX) {
        Some(rest) => rest,
        None => {
            return None;
        },
    };
    match split_once(rest, ':') {
        None => None,
        Some((id, action)) => match parse_uuid(id) {
            None => None,
            Some(job) => Some((job, action)),
        },
    }
}

// ----------------------------------------------------------------------- jobs

/// How far a job is. `Elsewhere` stands for every stage without a way back.
#[derive(Clone, Copy, Debug, PartialEq, Eq, Structural)]
pub enum DispatchStage {
    ChoosingAgent,
    ChoosingModel,
    ChoosingEffort,
    Confirming,
    Elsewhere,
}

/// Who is to implement a feature, as far as chosen.
#[derive(Debug, PartialEq, Eq)]
pub struct Selection {
    pub agent: Option<CodingAgent>,
    pub model: Option<String>,
    pub effort: Option<String>,
}

/// A selection as values.
pub struct Chosen {
    pub agent: Option<CodingAgent>,
    pub model: Option<Seq<char>>,
    pub effort: Option<Seq<char>>,
}

impl View for Selection {
    type V = Chosen;

    open spec fn view(&self) -> Chosen {
        Chosen { agent: self.agent, model: opt_text(self.model), effort: opt_text(self.effort) }
    }
}

/// A requested feature.
#[derive(Debug, PartialEq, Eq)]
pub struct Job {
    pub owner_id: u64,
    pub title: String,
    pub objective: String,
    pub requester_name: String,
    pub requester_id: u64,
    pub requester_channel: u64,
    pub selection: Selection,
    pub stage: DispatchStage,
}

/// A copy of an optional text.
fn copy_text(text: &Option<String>) -> (r: Option<String>)
    ensures
        opt_text(r) == opt_text(*text),
{
    match text {
        Some(text) => Some(text.as_str().to_owned()),
        None => None,
    }
}

// ------------------------------------------------------------------- controls

/// The controls under a request for approval.
pub open spec fn approval_rows(job: u128) -> Seq<RowText> {
    seq![
        RowText::Buttons(
            seq![
                button_text(control_id(job, "approve"@), "Start work"@, ButtonLook::Success),
                button_text(
                    control_id(job, "configure"@),
                    "Change configuration"@,
                    ButtonLook::Secondary,
                ),
                button_text(control_id(job, "reject"@), "Reject"@, ButtonLook::Danger),
            ],
        ),
    ]
}

/// The controls to choose an agent.
pub open spec fn agent_rows(job: u128, catalog: AgentCatalog) -> Seq<RowText> {
    seq![
        RowText::Menu {
            custom_id: control_id(job, "agent"@),
            placeholder: "Select coding agent"@,
            entries: agent_entries(catalog),
        },
        RowText::Buttons(
            seq![button_text(control_id(job, "cancel"@), "Cancel"@, ButtonLook::Danger)],
        ),
    ]
}

/// The buttons to go back or to cancel.
pub open spec fn back_row(job: u128) -> RowText {
    RowText::Buttons(
        seq![
            button_text(control_id(job, "back"@), "← Back"@, ButtonLook::Secondary),
            button_text(control_id(job, "cancel"@), "Cancel"@, ButtonLook::Danger),
        ],
    )
}

/// The controls to choose a model.
pub open spec fn model_rows(job: u128, agent: CodingAgent, catalog: AgentCatalog) -> Seq<RowText> {
    seq![
        RowText::Menu {
            custom_id: control_id(job, "model"@),
            placeholder: "Select model"@,
            entries: model_entries(agent_entry(catalog, agent).models@),
        },
        back_row(job),
    ]
}

/// The controls to choose an effort level.
pub open spec fn effort_rows(
    job: u128,
    agent: CodingAgent,
    model: Seq<char>,
    catalog: AgentCatalog,
) -> Seq<RowText> {
    seq![
        RowText::Menu {
            custom_id: control_id(job, "effort"@),
            placeholder: "Select effort level"@,
            entries: match efforts_of(catalog, agent, model) {
                Some(efforts) => effort_entries(efforts),
                None => Seq::empty(),
            },
        },
        back_row(job),
    ]
}

/// The controls to confirm.
pub open spec fn confirm_rows(job: u128) -> Seq<RowText> {
    seq![
        RowText::Buttons(
            seq![
                button_text(control_id(job, "confirm"@), "Dispatch"@, ButtonLook::Success),
                button_text(control_id(job, "back"@), "← Change Effort"@, ButtonLook::Secondary),
                button_text(control_id(job, "cancel"@), "Cancel"@, ButtonLook::Danger),
            ],
        ),
    ]
}

/// The controls under a request for approval.
pub fn develop_approval_components(job: u128) -> (r: Vec<Row>)
    ensures
        rows_of(r@) == approval_rows(job),
        !uuid_text(job).contains(':'),
        uuid_number(uuid_text(job)) == Some(job),
        r@.len() == 1 && (r@[0] matches Row::Buttons(buttons) && buttons@.len() == 3
            && buttons@[0].label@ == "Start work"@ && control_of(buttons@[0].custom_id@) == Some(
            (job, "approve"@),
        ) && buttons@[1].label@ == "Change configuration"@ && control_of(buttons@[1].custom_id@)
            == Some((job, "configure"@)) && buttons@[2].label@ == "Reject"@ && control_of(
            buttons@[2].custom_id@,
        ) == Some((job, "reject"@))),
{
    rows1(
        row3(
            button(develop_id(job, "approve"), "Start work", ButtonLook::Success),
            button(develop_id(job, "configure"), "Change configuration", ButtonLook::Secondary),
            button(develop_id(job, "reject"), "Reject", ButtonLook::Danger),
        ),
    )
}

/// The controls to choose an agent.
pub fn develop_agent_components(job: u128, catalog: &AgentCatalog) -> (r: Vec<Row>)
    ensures
        rows_of(r@) == agent_rows(job, *catalog),
        !uuid_text(job).contains(':'),
        uuid_number(uuid_text(job)) == Some(job),
{
    rows2(
        menu_row(develop_id(job, "agent"), "Select coding agent", list_agents(catalog)),
        row1(button(develop_id(job, "cancel"), "Cancel", ButtonLook::Danger)),
    )
}

/// The buttons to go back or to cancel.
fn back_buttons(job: u128) -> (r: Row)
    ensures
        row_of(r) == back_row(job),
        !uuid_text(job).contains(':'),
        uuid_number(uuid_text(job)) == Some(job),
{
    row2(
        button(develop_id(job, "back"), "← Back", ButtonLook::Secondary),
        button(develop_id(job, "cancel"), "Cancel", ButtonLook::Danger),
    )
}

/// The controls to choose a model.
pub fn develop_model_components(job: u128, agent: CodingAgent, catalog: &AgentCatalog) -> (r: Vec<
    Row,
>)
    ensures
        rows_of(r@) == model_rows(job, agent, *catalog),
        !uuid_text(job).contains(':'),
        uuid_number(uuid_text(job)) == Some(job),
{
    let entries = list_models(&catalog.agent(agent).models);
    rows2(menu_row(develop_id(job, "model"), "Select model", entries), back_buttons(job))
}

/// The controls to choose an effort level.
pub fn develop_effort_components(
    job: u128,
    agent: CodingAgent,
    model: &str,
    catalog: &AgentCatalog,
) -> (r: Vec<Row>)
    ensures
        rows_of(r@) == effort_rows(job, agent, model@, *catalog),
        !uuid_text(job).contains(':'),
        uuid_number(uuid_text(job)) == Some(job),
{
    let entries = match catalog.efforts_for(agent, model) {
        Some(efforts) => list_efforts(efforts),
        None => {
            let none: Vec<MenuEntry> = Vec::new();
            proof {
                assert(entries_of(none@) =~= Seq::empty());
            }
            none
        },
    };
    rows2(menu_row(develop_id(job, "effort"), "Select effort level", entries), back_buttons(job))
}

/// The controls to confirm.
pub fn develop_confirm_components(job: u128) -> (r: Vec<Row>)
    ensures
        rows_of(r@) == confirm_rows(job),
        !uuid_text(job).contains(':'),
        uuid_number(uuid_text(job)) == Some(job),
        r@.len() == 1 && (r@[0] matches Row::Buttons(buttons) && buttons@.len() == 3
            && buttons@[0].label@ == "Dispatch"@ && control_of(buttons@[0].custom_id@) == Some(
            (job, "confirm"@),
        ) && buttons@[1].label@ == "← Change Effort"@ && control_of(buttons@[1].custom_id@)
            == Some((job, "back"@)) && buttons@[2].label@ == "Cancel"@ && control_of(
            buttons@[2].custom_id@,
        ) == Some((job, "cancel"@))),
{
    rows1(
        row3(
            button(develop_id(job, "confirm"), "Dispatch", ButtonLook::Success),
            button(develop_id(job, "back"), "← Change Effort", ButtonLook::Secondary),
            button(develop_id(job, "cancel"), "Cancel", ButtonLook::Danger),
        ),
    )
}

// ------------------------------------------------------------------- messages

/// What every message on a job begins with.
pub open spec fn heading(title: Seq<char>) -> Seq<char> {
    "**Feature development: "@ + title + "**\n\n"@
}

/// The message to choose an agent.
pub open spec fn agent_prompt(title: Seq<char>) -> Seq<char> {
    heading(title) + "Choose a coding agent to implement this feature:"@
}

/// The message to choose a model.
pub open spec fn model_prompt(title: Seq<char>, agent_name: Seq<char>) -> Seq<char> {
    heading(title) + "Agent: **"@ + agent_name + "**\nChoose a model:"@
}

/// The message to choose an effort level, where a model was just chosen.
pub open spec fn effort_prompt(
    title: Seq<char>,
    agent_name: Seq<char>,
    model: Seq<char>,
) -> Seq<char> {
    heading(title) + "Agent: **"@ + agent_name + "**\nModel: **"@ + model
        + "**\nChoose effort level:"@
}

/// The message to choose an effort level, on the way back.
pub open spec fn effort_again_prompt(
    title: Seq<char>,
    agent_name: Seq<char>,
    model: Seq<char>,
) -> Seq<char> {
    heading(title) + "Agent: **"@ + agent_name + "**\nModel: `"@ + model
        + "`\nChoose effort level:"@
}

/// The message to confirm.
pub open spec fn confirm_prompt(
    title: Seq<char>,
    agent_name: Seq<char>,
    model: Seq<char>,
    effort: Seq<char>,
    objective: Seq<char>,
) -> Seq<char> {
    heading(title) + "**Agent:** "@ + agent_name + "\n**Model:** "@ + model + "\n**Effort:** "@
        + effort + "\n\n**Objective:**\n"@ + objective
        + "\n\nConfirm dispatch to create a GitHub issue and queue the coding job."@
}

/// What every message on a job begins with.
fn write_heading(title: &str) -> (r: String)
    ensures
        r@ == heading(title@),
{
    "**Feature development: ".to_owned().concat(title).concat("**\n\n")
}

/// The message to choose an agent.
fn ask_agent(title: &str) -> (r: String)
    ensures
        r@ == agent_prompt(title@),
{
    write_heading(title).concat("Choose a coding agent to implement this feature:")
}

/// The message to choose a model.
fn ask_model(title: &str, agent_name: &str) -> (r: String)
    ensures
        r@ == model_prompt(title@, agent_name@),
{
    write_heading(title).concat("Agent: **").concat(agent_name).concat("**\nChoose a model:")
}

/// The message with which an interactive choice starts.
pub fn start_develop_flow(job: u128, title: Option<&str>, catalog: &AgentCatalog) -> (r: (
    String,
    Vec<Row>,
))
    ensures
        r.0@ == (match title {
            Some(title) => agent_prompt(title@),
            None => "Error: Development job not found."@,
        }),
        rows_of(r.1@) == (match title {
            Some(_) => agent_rows(job, *catalog),
            None => Seq::empty(),
        }),
{
    match title {
        Some(title) => (ask_agent(title), develop_agent_components(job, catalog)),
        None => ("Error: Development job not found.".to_owned(), no_rows()),
    }
}

/// What a requester is told while the owner decides.
pub const SENT_TO_OWNER: &'static str =
    "I sent this development request to the bot owner for approval. Work will not start unless the owner approves it.";

// -------------------------------------------------------------------- a press

/// What pressing a control does: nothing, a private word, a changed choice with
/// the next message, or one of the steps that the store of jobs has to agree to.
#[derive(Debug, PartialEq, Eq)]
pub enum DevelopStep {
    Ignore,
    Tell(String),
    Choose { selection: Selection, stage: DispatchStage, content: String, rows: Vec<Row> },
    Dispatch,
    Approve,
    Configure,
    Reject,
    Cancel,
}

/// A step as values.
pub enum Step {
    Ignore,
    Tell(Seq<char>),
    Choose { chosen: Chosen, stage: DispatchStage, content: Seq<char>, rows: Seq<RowText> },
    Dispatch,
    Approve,
    Configure,
    Reject,
    Cancel,
}

impl View for DevelopStep {
    type V = Step;

    open spec fn view(&self) -> Step {
        match *self {
            DevelopStep::Ignore => Step::Ignore,
            DevelopStep::Tell(text) => Step::Tell(text@),
            DevelopStep::Choose { selection, stage, content, rows } => Step::Choose {
                chosen: selection@,
                stage,
                content: content@,
                rows: rows_of(rows@),
            },
            DevelopStep::Dispatch => Step::Dispatch,
            DevelopStep::Approve => Step::Approve,
            DevelopStep::Configure => Step::Configure,
            DevelopStep::Reject => Step::Reject,
            DevelopStep::Cancel => Step::Cancel,
        }
    }
}

pub const JOB_GONE: &'static str =
    "This development job has expired. Please ask the bot to prepare a new one.";

pub const OWNER_ONLY: &'static str = "Only the configured bot owner can use these controls.";

pub const JOB_EXPIRED: &'static str =
    "This development job has expired (15-minute timeout). Please ask the bot to prepare a new one.";

/// An agent was chosen.
pub open spec fn agent_step(
    id: u128,
    job: Job,
    selected: Option<Seq<char>>,
    catalog: AgentCatalog,
) -> Step {
    match selected {
        None => Step::Ignore,
        Some(value) => match agent_named(catalog, value) {
            None => Step::Tell("Unknown agent: "@ + value),
            Some(agent) => Step::Choose {
                chosen: Chosen { agent: Some(agent), model: None, effort: None },
                stage: DispatchStage::ChoosingModel,
                content: model_prompt(job.title@, agent_entry(catalog, agent).display_name@),
                rows: model_rows(id, agent, catalog),
            },
        },
    }
}

/// A model was chosen.
pub open spec fn model_step(
    id: u128,
    job: Job,
    selected: Option<Seq<char>>,
    catalog: AgentCatalog,
) -> Step {
    match (selected, job.selection.agent) {
        (Some(model), Some(agent)) => if efforts_of(catalog, agent, model) is None {
            Step::Tell(
                "Model `"@ + model + "` is not valid for "@ + agent_entry(
                    catalog,
                    agent,
                ).short_name@ + "."@,
            )
        } else {
            Step::Choose {
                chosen: Chosen { agent: Some(agent), model: Some(model), effort: None },
                stage: DispatchStage::ChoosingEffort,
                content: effort_prompt(
                    job.title@,
                    agent_entry(catalog, agent).display_name@,
                    model,
                ),
                rows: effort_rows(id, agent, model, catalog),
            }
        },
        _ => Step::Ignore,
    }
}

/// An effort level was chosen.
pub open spec fn effort_step(
    id: u128,
    job: Job,
    selected: Option<Seq<char>>,
    catalog: AgentCatalog,
) -> Step {
    match (selected, job.selection.agent, job.selection.model) {
        (Some(effort), Some(agent), Some(model)) => if !offered(catalog, agent, model@, effort) {
            Step::Tell("Effort `"@ + effort + "` is not valid for model `"@ + model@ + "`."@)
        } else {
            Step::Choose {
                chosen: Chosen { agent: Some(agent), model: Some(model@), effort: Some(effort) },
                stage: DispatchStage::Confirming,
                content: confirm_prompt(
                    job.title@,
                    agent_entry(catalog, agent).display_name@,
                    model@,
                    effort,
                    job.objective@,
                ),
                rows: confirm_rows(id),
            }
        },
        _ => Step::Ignore,
    }
}

/// The agent, or the usual one.
pub open spec fn agent_or_usual(agent: Option<CodingAgent>) -> CodingAgent {
    match agent {
        Some(agent) => agent,
        None => CodingAgent::Claude,
    }
}

/// One stage back.
pub open spec fn back_step(id: u128, job: Job, catalog: AgentCatalog) -> Step {
    let agent = agent_or_usual(job.selection.agent);
    let chosen = job.selection@;
    match job.stage {
        DispatchStage::ChoosingModel => Step::Choose {
            chosen: Chosen { agent: None, ..chosen },
            stage: DispatchStage::ChoosingAgent,
            content: agent_prompt(job.title@),
            rows: agent_rows(id, catalog),
        },
        DispatchStage::ChoosingEffort => Step::Choose {
            chosen: Chosen { model: None, ..chosen },
            stage: DispatchStage::ChoosingModel,
            content: model_prompt(
                job.title@,
                match job.selection.agent {
                    Some(agent) => agent_entry(catalog, agent).display_name@,
                    None => ""@,
                },
            ),
            rows: model_rows(id, agent, catalog),
        },
        DispatchStage::Confirming => {
            let model = match chosen.model {
                Some(model) => model,
                None => ""@,
            };
            Step::Choose {
                chosen: Chosen { effort: None, ..chosen },
                stage: DispatchStage::ChoosingEffort,
                content: effort_again_prompt(
                    job.title@,
                    agent_entry(catalog, agent).display_name@,
                    model,
                ),
                rows: effort_rows(id, agent, model, catalog),
            }
        },
        _ => Step::Ignore,
    }
}

/// What the owner's press on a control of a live job does.
pub open spec fn owner_step(
    id: u128,
    action: Seq<char>,
    selected: Option<Seq<char>>,
    job: Job,
    catalog: AgentCatalog,
) -> Step {
    if action == "agent"@ {
        agent_step(id, job, selected, catalog)
    } else if action == "model"@ {
        model_step(id, job, selected, catalog)
    } else if action == "effort"@ {
        effort_step(id, job, selected, catalog)
    } else if action == "confirm"@ {
        Step::Dispatch
    } else if action == "approve"@ {
        Step::Approve
    } else if action == "configure"@ {
        Step::Configure
    } else if action == "reject"@ {
        Step::Reject
    } else if action == "back"@ {
        back_step(id, job, catalog)
    } else if action == "cancel"@ {
        Step::Cancel
    } else {
        Step::Ignore
    }
}

/// What a press on a control does, given the job and whether its time is up.
pub open spec fn press_step(
    id: u128,
    action: Seq<char>,
    selected: Option<Seq<char>>,
    user_id: u64,
    job: Option<Job>,
    expired: bool,
    catalog: AgentCatalog,
) -> Step {
    match job {
        None => Step::Tell(JOB_GONE@),
        Some(job) => if user_id != job.owner_id {
            Step::Tell(OWNER_ONLY@)
        } else if expired {
            Step::Tell(JOB_EXPIRED@)
        } else {
            owner_step(id, action, selected, job, catalog)
        },
    }
}

/// An agent was chosen.
fn choose_agent(id: u128, job: &Job, selected: Option<&str>, catalog: &AgentCatalog) -> (r:
    DevelopStep)
    ensures
        r@ == agent_step(id, *job, opt_str(selected), *catalog),
{
    let value = match selected {
        Some(value) => value,
        None => {
            return DevelopStep::Ignore;
        },
    };
    match catalog.find_agent(value) {
        None => DevelopStep::Tell("Unknown agent: ".to_owned().concat(value)),
        Some(agent) => DevelopStep::Choose {
            selection: Selection { agent: Some(agent), model: None, effort: None },
            stage: DispatchStage::ChoosingModel,
            content: ask_model(job.title.as_str(), catalog.agent(agent).display_name.as_str()),
            rows: develop_model_components(id, agent, catalog),
        },
    }
}

/// A model was chosen.
fn choose_model(id: u128, job: &Job, selected: Option<&str>, catalog: &AgentCatalog) -> (r:
    DevelopStep)
    ensures
        r@ == model_step(id, *job, opt_str(selected), *catalog),
{
    let model = match selected {
        Some(model) => model,
        None => {
            return DevelopStep::Ignore;
        },
    };
    let agent = match job.selection.agent {
        Some(agent) => agent,
        None => {
            return DevelopStep::Ignore;
        },
    };
    if catalog.efforts_for(agent, model).is_none() {
        return DevelopStep::Tell(
            "Model `".to_owned().concat(model).concat("` is not valid for ").concat(
                catalog.agent(agent).short_name.as_str(),
            ).concat("."),
        );
    }
    DevelopStep::Choose {
        selection: Selection { agent: Some(agent), model: Some(model.to_owned()), effort: None },
        stage: DispatchStage::ChoosingEffort,
        content: write_heading(job.title.as_str()).concat("Agent: **").concat(
            catalog.agent(agent).display_name.as_str(),
        ).concat("**\nModel: **").concat(model).concat("**\nChoose effort level:"),
        rows: develop_effort_components(id, agent, model, catalog),
    }
}

/// An effort level was chosen.
fn choose_effort(id: u128, job: &Job, selected: Option<&str>, catalog: &AgentCatalog) -> (r:
    DevelopStep)
    ensures
        r@ == effort_step(id, *job, opt_str(selected), *catalog),
{
    let effort = match selected {
        Some(effort) => effort,
        None => {
            return DevelopStep::Ignore;
        },
    };
    let agent = match job.selection.agent {
        Some(agent) => agent,
        None => {
            return DevelopStep::Ignore;
        },
    };
    let model = match &job.selection.model {
        Some(model) => model.as_str(),
        None => {
            return DevelopStep::Ignore;
        },
    };
    if !catalog.offers(agent, model, effort) {
        return DevelopStep::Tell(
            "Effort `".to_owned().concat(effort).concat("` is not valid for model `").concat(
                model,
            ).concat("`."),
        );
    }
    DevelopStep::Choose {
        selection: Selection {
            agent: Some(agent),
            model: Some(model.to_owned()),
            effort: Some(effort.to_owned()),
        },
        stage: DispatchStage::Confirming,
        content: write_heading(job.title.as_str()).concat("**Agent:** ").concat(
            catalog.agent(agent).display_name.as_str(),
        ).concat("\n**Model:** ").concat(model).concat("\n**Effort:** ").concat(effort).concat(
            "\n\n**Objective:**\n",
        ).concat(job.objective.as_str()).concat(
            "\n\nConfirm dispatch to create a GitHub issue and queue the coding job.",
        ),
        rows: develop_confirm_components(id),
    }
}

/// One stage back.
fn go_back(id: u128, job: &Job, catalog: &AgentCatalog) -> (r: DevelopStep)
    ensures
        r@ == back_step(id, *job, *catalog),
{
    let title = job.title.as_str();
    let agent = match job.selection.agent {
        Some(agent) => agent,
        None => CodingAgent::Claude,
    };
    match job.stage {
        DispatchStage::ChoosingModel => DevelopStep::Choose {
            selection: Selection {
                agent: None,
                model: copy_text(&job.selection.model),
                effort: copy_text(&job.selection.effort),
            },
            stage: DispatchStage::ChoosingAgent,
            content: ask_agent(title),
            rows: develop_agent_components(id, catalog),
        },
        DispatchStage::ChoosingEffort => {
            let name = match job.selection.agent {
                Some(agent) => catalog.agent(agent).display_name.as_str(),
                None => "",
            };
            DevelopStep::Choose {
                selection: Selection {
                    agent: job.selection.agent,
                    model: None,
                    effort: copy_text(&job.selection.effort),
                },
                stage: DispatchStage::ChoosingModel,
                content: ask_model(title, name),
                rows: develop_model_components(id, agent, catalog),
            }
        },
        DispatchStage::Confirming => {
            let model = match &job.selection.model {
                Some(model) => model.as_str(),
                None => "",
            };
            DevelopStep::Choose {
                selection: Selection {
                    agent: job.selection.agent,
                    model: copy_text(&job.selection.model),
                    effort: None,
                },
                stage: DispatchStage::ChoosingEffort,
                content: write_heading(title).concat("Agent: **").concat(
                    catalog.agent(agent).display_name.as_str(),
                ).concat("**\nModel: `").concat(model).concat("`\nChoose effort level:"),
                rows: develop_effort_components(id, agent, model, catalog),
            }
        },
        _ => DevelopStep::Ignore,
    }
}

/// What a press on a control does, given the job and whether its time is up.
pub fn handle_develop_component(
    id: u128,
    action: &str,
    selected: Option<&str>,
    user_id: u64,
    job: Option<&Job>,
    expired: bool,
    catalog: &AgentCatalog,
) -> (r: DevelopStep)
    ensures
        r@ == press_step(
            id,
            action@,
            opt_str(selected),
            user_id,
            (match job {
                Some(job) => Some(*job),
                None => None,
            }),
            expired,
            *catalog,
        ),
{
    let job = match job {
        Some(job) => job,
        None => {
            return DevelopStep::Tell(JOB_GONE.to_owned());
        },
    };
    if user_id != job.owner_id {
        return DevelopStep::Tell(OWNER_ONLY.to_owned());
    }
    if expired {
        return DevelopStep::Tell(JOB_EXPIRED.to_owned());
    }
    if same_text(action, "agent") {
        choose_agent(id, job, selected, catalog)
    } else if same_text(action, "model") {
        choose_model(id, job, selected, catalog)
    } else if same_text(action, "effort") {
        choose_effort(id, job, selected, catalog)
    } else if same_text(action, "confirm") {
        DevelopStep::Dispatch
    } else if same_text(action, "approve") {
        DevelopStep::Approve
    } else if same_text(action, "configure") {
        DevelopStep::Configure
    } else if same_text(action, "reject") {
        DevelopStep::Reject
    } else if same_text(action, "back") {
        go_back(id, job, catalog)
    } else if same_text(action, "cancel") {
        DevelopStep::Cancel
    } else {
        DevelopStep::Ignore
    }
}

// ------------------------------------------------- after the store has decided

/// What is said when configuring was asked for, given whether the job allows it.
pub fn configure_reply(id: u128, title: &str, allowed: bool, catalog: &AgentCatalog) -> (r: Result<
    (String, Vec<Row>),
    &'static str,
>)
    ensures
        match r {
            Ok((content, rows)) => allowed && content@ == agent_prompt(title@) && rows_of(rows@)
                == agent_rows(id, *catalog),
            Err(text) => !allowed && text@ == "Cannot begin configuration from the current state."@,
        },
{
    if allowed {
        Ok((ask_agent(title), develop_agent_components(id, catalog)))
    } else {
        Err("Cannot begin configuration from the current state.")
    }
}

/// What is said when a request was rejected, given whether it was still open:
/// to the owner, and in the requester's channel.
pub fn reject_reply(requester_id: u64, rejected: bool) -> (r: Result<
    (&'static str, String),
    &'static str,
>)
    ensures
        match r {
            Ok((owner, requester)) => rejected && owner@ == "❌ Request rejected."@ && requester@
                == "<@"@ + decimal(requester_id as nat)
                + "> Your automated development request was not approved by the bot owner."@,
            Err(text) => !rejected && text@ == "This request is no longer active."@,
        },
{
    if rejected {
        let id = to_decimal(requester_id);
        Ok(
            (
                "❌ Request rejected.",
                "<@".to_owned().concat(id.as_str()).concat(
                    "> Your automated development request was not approved by the bot owner.",
                ),
            ),
        )
    } else {
        Err("This request is no longer active.")
    }
}

/// What is said when a job was cancelled.
pub const CANCELLED: &'static str = "❌ Development job cancelled.";

// ------------------------------------------------------------------- approval

/// A text, or "default".
pub open spec fn or_default(text: Option<Seq<char>>) -> Seq<char> {
    match text {
        Some(text) => text,
        None => "default"@,
    }
}

/// What the owner is told of a request.
pub open spec fn approval_request(job: Job, catalog: AgentCatalog) -> Seq<char> {
    "**Feature-development request from <@"@ + decimal(job.requester_id as nat) + ">** (`"@
        + job.requester_name@ + "`)\n**Feature:** "@ + job.title@ + "\n**Objective:**\n> "@
        + joined(lines_of(job.objective@), "\n> "@)
        + "\n**Proposed configuration:**\nAgent: "@ + or_default(
        match job.selection.agent {
            Some(agent) => Some(agent_entry(catalog, agent).display_name@),
            None => None,
        },
    ) + " | Model: `"@ + or_default(opt_text(job.selection.model)) + "` | Effort: `"@ + or_default(
        opt_text(job.selection.effort),
    ) + "`\n**Origin:** <#"@ + decimal(job.requester_channel as nat) + ">"@
}

/// What the owner is told of a request.
pub fn approval_text(job: &Job, catalog: &AgentCatalog) -> (r: String)
    ensures
        r@ == approval_request(*job, *catalog),
{
    let requester = to_decimal(job.requester_id);
    let channel = to_decimal(job.requester_channel);
    let parts = lines(job.objective.as_str());
    let objective = join(&parts, "\n> ");
    let agent = match job.selection.agent {
        Some(agent) => catalog.agent(agent).display_name.as_str(),
        None => "default",
    };
    let model = match &job.selection.model {
        Some(model) => model.as_str(),
        None => "default",
    };
    let effort = match &job.selection.effort {
        Some(effort) => effort.as_str(),
        None => "default",
    };
    "**Feature-development request from <@".to_owned().concat(requester.as_str()).concat(
        ">** (`",
    ).concat(job.requester_name.as_str()).concat("`)\n**Feature:** ").concat(
        job.title.as_str(),
    ).concat("\n**Objective:**\n> ").concat(objective.as_str()).concat(
        "\n**Proposed configuration:**\nAgent: ",
    ).concat(agent).concat(" | Model: `").concat(model).concat("` | Effort: `").concat(
        effort,
    ).concat("`\n**Origin:** <#").concat(channel.as_str()).concat(">")
}

/// What a requester is told where the owner could not be reached.
pub const OWNER_UNREACHED: &'static str =
    "I prepared the request, but I could not contact the owner for approval.";

/// How far the request for approval got: nothing was sent, or it was tried; then
/// the channel and the number of the message that was sent, where one was.
#[derive(Clone, Copy, Debug, PartialEq, Eq)]
pub enum ApprovalState {
    Prepared { owner_id: u64 },
    TriedOwner { sent: Option<(u64, u64)>, fallback_channel: u64 },
    TriedChannel { sent: Option<(u64, u64)> },
}

/// What is done next with a request for approval: the card is sent to the owner or
/// to a channel, the job remembers where it stands, or the job is cancelled and the
/// requester is told.
#[derive(Debug, PartialEq, Eq)]
pub enum ApprovalAction {
    Nothing,
    SendToOwner { owner_id: u64, content: String, rows: Vec<Row> },
    SendToChannel { channel_id: u64, content: String, rows: Vec<Row> },
    RememberMessage { channel_id: u64, message_id: u64 },
    GiveUp { reply: &'static str },
}

/// An action as values.
pub enum ApprovalText {
    Nothing,
    SendToOwner { owner_id: u64, content: Seq<char>, rows: Seq<RowText> },
    SendToChannel { channel_id: u64, content: Seq<char>, rows: Seq<RowText> },
    RememberMessage { channel_id: u64, message_id: u64 },
    GiveUp { reply: Seq<char> },
}

impl View for ApprovalAction {
    type V = ApprovalText;

    open spec fn view(&self) -> ApprovalText {
        match *self {
            ApprovalAction::Nothing => ApprovalText::Nothing,
            ApprovalAction::SendToOwner { owner_id, content, rows } => ApprovalText::SendToOwner {
                owner_id,
                content: content@,
                rows: rows_of(rows@),
            },
            ApprovalAction::SendToChannel {
                channel_id,
                content,
                rows,
            } => ApprovalText::SendToChannel {
                channel_id,
                content: content@,
                rows: rows_of(rows@),
            },
            ApprovalAction::RememberMessage {
                channel_id,
                message_id,
            } => ApprovalText::RememberMessage { channel_id, message_id },
            ApprovalAction::GiveUp { reply } => ApprovalText::GiveUp { reply: reply@ },
        }
    }
}

/// What is done next with the request for approval of a job: the card goes to the
/// owner, or to the fallback channel where there is one; the message that was sent
/// is remembered; a job that reaches neither is cancelled. Without a job there is
/// nothing to do.
pub open spec fn approval_next(
    state: ApprovalState,
    id: u128,
    job: Option<Job>,
    catalog: AgentCatalog,
) -> ApprovalText {
    match (state, job) {
        (_, None) => ApprovalText::Nothing,
        (ApprovalState::Prepared { owner_id }, Some(job)) => if owner_id == 0 {
            ApprovalText::Nothing
        } else {
            ApprovalText::SendToOwner {
                owner_id,
                content: approval_request(job, catalog),
                rows: approval_rows(id),
            }
        },
        (ApprovalState::TriedOwner { sent, fallback_channel }, Some(job)) => match sent {
            Some(sent) => ApprovalText::RememberMessage {
                channel_id: sent.0,
                message_id: sent.1,
            },
            None => if fallback_channel == 0 {
                ApprovalText::GiveUp { reply: OWNER_UNREACHED@ }
            } else {
                ApprovalText::SendToChannel {
                    channel_id: fallback_channel,
                    content: approval_request(job, catalog),
                    rows: approval_rows(id),
                }
            },
        },
        (ApprovalState::TriedChannel { sent }, Some(_)) => match sent {
            Some(sent) => ApprovalText::RememberMessage {
                channel_id: sent.0,
                message_id: sent.1,
            },
            None => ApprovalText::GiveUp { reply: OWNER_UNREACHED@ },
        },
    }
}

/// What is done next with the request for approval of a job.
pub fn notify_owner_for_approval(
    state: ApprovalState,
    id: u128,
    job: Option<&Job>,
    catalog: &AgentCatalog,
) -> (r: ApprovalAction)
    ensures
        r@ == approval_next(
            state,
            id,
            (match job {
                Some(job) => Some(*job),
                None => None,
            }),
            *catalog,
        ),
{
    let job = match job {
        Some(job) => job,
        None => {
            return ApprovalAction::Nothing;
        },
    };
    match state {
        ApprovalState::Prepared { owner_id } => {
            if owner_id == 0 {
                return ApprovalAction::Nothing;
            }
            ApprovalAction::SendToOwner {
                owner_id,
                content: approval_text(job, catalog),
                rows: develop_approval_components(id),
            }
        },
        ApprovalState::TriedOwner { sent: Some((channel_id, message_id)), .. }
        | ApprovalState::TriedChannel { sent: Some((channel_id, message_id)) } => {
            ApprovalAction::RememberMessage { channel_id, message_id }
        },
        ApprovalState::TriedOwner { sent: None, fallback_channel } => {
            if fallback_channel == 0 {
                return ApprovalAction::GiveUp { reply: OWNER_UNREACHED };
            }
            ApprovalAction::SendToChannel {
                channel_id: fallback_channel,
                content: approval_text(job, catalog),
                rows: develop_approval_components(id),
            }
        },
        ApprovalState::TriedChannel { sent: None } => {
            ApprovalAction::GiveUp { reply: OWNER_UNREACHED }
        },
    }
}

// ----------------------------------------------------------------------- laws

/// Whoever is not the owner changes nothing: they are told so, and no more.
pub proof fn law_only_the_owner_acts(
    id: u128,
    action: Seq<char>,
    selected: Option<Seq<char>>,
    user_id: u64,
    job: Job,
    expired: bool,
    catalog: AgentCatalog,
)
    requires
        user_id != job.owner_id,
    ensures
        press_step(id, action, selected, user_id, Some(job), expired, catalog) == Step::Tell(
            OWNER_ONLY@,
        ),
{
}

/// Once a job's time is up, no press changes it or sets it off.
pub proof fn law_expired_jobs_do_nothing(
    id: u128,
    action: Seq<char>,
    selected: Option<Seq<char>>,
    user_id: u64,
    job: Job,
    catalog: AgentCatalog,
)
    ensures
        press_step(id, action, selected, user_id, Some(job), true, catalog) is Tell,
{
}

/// A job reaches confirmation only with an agent, one of its models, and one of
/// that model's levels.
pub proof fn law_confirmation_needs_an_offered_choice(
    id: u128,
    action: Seq<char>,
    selected: Option<Seq<char>>,
    job: Job,
    catalog: AgentCatalog,
)
    requires
        owner_step(id, action, selected, job, catalog) matches Step::Choose { stage, .. } && stage
            == DispatchStage::Confirming,
    ensures
        ({
            let chosen = owner_step(id, action, selected, job, catalog)->chosen;
            chosen.agent is Some && chosen.model is Some && chosen.effort is Some && offered(
                catalog,
                chosen.agent->0,
                chosen.model->0,
                chosen.effort->0,
            )
        }),
{
}

/// Choosing an agent drops the model and the level that were chosen for another,
/// and choosing a model drops the level.
pub proof fn law_a_new_choice_drops_what_depended_on_it(
    id: u128,
    selected: Option<Seq<char>>,
    job: Job,
    catalog: AgentCatalog,
)
    ensures
        agent_step(id, job, selected, catalog) matches Step::Choose { chosen, .. } ==> chosen.model
            is None && chosen.effort is None,
        model_step(id, job, selected, catalog) matches Step::Choose { chosen, .. } ==> chosen.effort
            is None && chosen.agent == job.selection.agent,
{
}

/// Going back gives up exactly what was chosen last, and asks for it again; where
/// nothing was chosen it does nothing.
pub proof fn law_back_gives_up_the_last_choice(id: u128, job: Job, catalog: AgentCatalog)
    ensures
        match job.stage {
            DispatchStage::Confirming => back_step(id, job, catalog) matches Step::Choose {
                chosen,
                stage,
                ..
            } && stage == DispatchStage::ChoosingEffort && chosen == (Chosen {
                effort: None,
                ..job.selection@
            }),
            DispatchStage::ChoosingEffort => back_step(id, job, catalog) matches Step::Choose {
                chosen,
                stage,
                ..
            } && stage == DispatchStage::ChoosingModel && chosen == (Chosen {
                model: None,
                ..job.selection@
            }),
            DispatchStage::ChoosingModel => back_step(id, job, catalog) matches Step::Choose {
                chosen,
                stage,
                ..
            } && stage == DispatchStage::ChoosingAgent && chosen == (Chosen {
                agent: None,
                ..job.selection@
            }),
            _ => back_step(id, job, catalog) is Ignore,
        },
{
}

/// Does a choice fit the stage: has each stage what was to be chosen before it,
/// as the catalog offers it?
pub open spec fn choice_fits(chosen: Chosen, stage: DispatchStage, catalog: AgentCatalog) -> bool {
    match stage {
        DispatchStage::ChoosingModel => chosen.agent is Some,
        DispatchStage::ChoosingEffort => chosen.agent is Some && chosen.model is Some
            && efforts_of(catalog, chosen.agent->0, chosen.model->0) is Some,
        DispatchStage::Confirming => chosen.agent is Some && chosen.model is Some && chosen.effort
            is Some && offered(catalog, chosen.agent->0, chosen.model->0, chosen.effort->0),
        DispatchStage::ChoosingAgent | DispatchStage::Elsewhere => true,
    }
}

/// Whatever is pressed, in whatever order, the choice keeps fitting the stage.
pub proof fn law_choices_keep_fitting_their_stage(
    id: u128,
    action: Seq<char>,
    selected: Option<Seq<char>>,
    user_id: u64,
    job: Job,
    expired: bool,
    catalog: AgentCatalog,
)
    requires
        choice_fits(job.selection@, job.stage, catalog),
    ensures
        press_step(
            id,
            action,
            selected,
            user_id,
            Some(job),
            expired,
            catalog,
        ) matches Step::Choose { chosen, stage, .. } ==> choice_fits(chosen, stage, catalog),
{
}

/// A request for approval ends in one of two ways: the job remembers the message
/// that was sent, or nothing was sent and the job is cancelled. The card is the same
/// wherever it goes.
pub proof fn law_a_request_is_remembered_or_given_up(
    state: ApprovalState,
    id: u128,
    job: Job,
    catalog: AgentCatalog,
)
    ensures
        ({
            let action = approval_next(state, id, Some(job), catalog);
            let sent = match state {
                ApprovalState::Prepared { .. } => None,
                ApprovalState::TriedOwner { sent, .. } => sent,
                ApprovalState::TriedChannel { sent } => sent,
            };
            &&& sent matches Some(sent) ==> action == (ApprovalText::RememberMessage {
                channel_id: sent.0,
                message_id: sent.1,
            })
            &&& sent is None ==> !(action is RememberMessage)
            &&& action is GiveUp ==> sent is None && !(state is Prepared)
            &&& action matches ApprovalText::SendToOwner { content, rows, .. } ==> content
                == approval_request(job, catalog) && rows == approval_rows(id)
            &&& action matches ApprovalText::SendToChannel { content, rows, .. } ==> content
                == approval_request(job, catalog) && rows == approval_rows(id)
        }),
{
}

// --------------------------------------------------- what the controls are for

/// A control is read back as what it was made for, wherever the text of a job's
/// number stands for that number: its job, and its action whole.
pub proof fn law_controls_name_their_job(job: u128, action: Seq<char>)
    requires
        !uuid_text(job).contains(':'),
        uuid_number(uuid_text(job)) == Some(job),
    ensures
        control_of(control_id(job, action)) == Some((job, action)),
{
    let prefix = DEVELOP_PREFIX@;
    let rest = uuid_text(job) + seq![':'] + action;
    reveal_strlit(":");
    let id = control_id(job, action);
    assert(":"@ =~= seq![':']);
    assert(id =~= prefix + rest);
    assert(id.subrange(0, prefix.len() as int) =~= prefix);
    assert(id.skip(prefix.len() as int) =~= rest);
    law_split_at_the_first(uuid_text(job), ':', action);
}

/// The actions differ.
proof fn lemma_actions()
    ensures
        "confirm"@ != "agent"@ && "confirm"@ != "model"@ && "confirm"@ != "effort"@,
        "approve"@ != "agent"@ && "approve"@ != "model"@ && "approve"@ != "effort"@ && "approve"@
            != "confirm"@,
        "configure"@ != "agent"@ && "configure"@ != "model"@ && "configure"@ != "effort"@
            && "configure"@ != "confirm"@ && "configure"@ != "approve"@,
        "reject"@ != "agent"@ && "reject"@ != "model"@ && "reject"@ != "effort"@ && "reject"@
            != "confirm"@ && "reject"@ != "approve"@ && "reject"@ != "configure"@,
        "back"@ != "agent"@ && "back"@ != "model"@ && "back"@ != "effort"@ && "back"@ != "confirm"@
            && "back"@ != "approve"@ && "back"@ != "configure"@ && "back"@ != "reject"@,
        "cancel"@ != "agent"@ && "cancel"@ != "model"@ && "cancel"@ != "effort"@ && "cancel"@
            != "confirm"@ && "cancel"@ != "approve"@ && "cancel"@ != "configure"@ && "cancel"@
            != "reject"@ && "cancel"@ != "back"@,
        "model"@ != "agent"@ && "effort"@ != "agent"@ && "effort"@ != "model"@,
{
    reveal_strlit("agent");
    reveal_strlit("model");
    reveal_strlit("effort");
    reveal_strlit("confirm");
    reveal_strlit("approve");
    reveal_strlit("configure");
    reveal_strlit("reject");
    reveal_strlit("back");
    reveal_strlit("cancel");
    assert("agent"@.len() == 5 && "agent"@[0] == 'a');
    assert("model"@.len() == 5 && "model"@[0] == 'm');
    assert("effort"@.len() == 6 && "effort"@[0] == 'e');
    assert("confirm"@.len() == 7 && "confirm"@[0] == 'c');
    assert("approve"@.len() == 7 && "approve"@[0] == 'a');
    assert("configure"@.len() == 9 && "back"@.len() == 4);
    assert("reject"@.len() == 6 && "reject"@[0] == 'r');
    assert("cancel"@.len() == 6 && "cancel"@[0] == 'c');
}

/// The card that asks for approval does what it says: the owner who presses "Start
/// work" approves that very job, who presses "Change configuration" configures it,
/// and who presses "Reject" rejects it.
pub proof fn law_approval_buttons_do_what_they_say(id: u128, job: Job, catalog: AgentCatalog)
    requires
        !uuid_text(id).contains(':'),
        uuid_number(uuid_text(id)) == Some(id),
    ensures
        approval_rows(id).len() == 1,
        approval_rows(id)[0] matches RowText::Buttons(buttons) && {
            let press = |button: ButtonText|
                match control_of(button.custom_id) {
                    Some((named, action)) => if named == id {
                        press_step(named, action, None, job.owner_id, Some(job), false, catalog)
                    } else {
                        Step::Ignore
                    },
                    None => Step::Ignore,
                };
            &&& buttons.len() == 3
            &&& buttons[0].label == "Start work"@ && press(buttons[0]) == Step::Approve
            &&& buttons[1].label == "Change configuration"@ && press(buttons[1]) == Step::Configure
            &&& buttons[2].label == "Reject"@ && press(buttons[2]) == Step::Reject
            &&& forall|i: int| 0 <= i < 3 ==> !(#[trigger] buttons[i]).disabled
        },
{
    law_controls_name_their_job(id, "approve"@);
    law_controls_name_their_job(id, "configure"@);
    law_controls_name_their_job(id, "reject"@);
    lemma_actions();
}

/// The last message does what it says: the owner who presses "Dispatch" sets that
/// very job off, who presses "Change Effort" is asked for the level again, and who
/// presses "Cancel" cancels it.
pub proof fn law_confirm_buttons_do_what_they_say(id: u128, job: Job, catalog: AgentCatalog)
    requires
        !uuid_text(id).contains(':'),
        uuid_number(uuid_text(id)) == Some(id),
        job.stage == DispatchStage::Confirming,
    ensures
        confirm_rows(id).len() == 1,
        confirm_rows(id)[0] matches RowText::Buttons(buttons) && {
            let press = |button: ButtonText|
                match control_of(button.custom_id) {
                    Some((named, action)) => if named == id {
                        press_step(named, action, None, job.owner_id, Some(job), false, catalog)
                    } else {
                        Step::Ignore
                    },
                    None => Step::Ignore,
                };
            &&& buttons.len() == 3
            &&& buttons[0].label == "Dispatch"@ && press(buttons[0]) == Step::Dispatch
            &&& buttons[1].label == "← Change Effort"@ && (press(
                buttons[1],
            ) matches Step::Choose { chosen, stage, .. } && stage == DispatchStage::ChoosingEffort
                && chosen == (Chosen { effort: None, ..job.selection@ }))
            &&& buttons[2].label == "Cancel"@ && press(buttons[2]) == Step::Cancel
            &&& forall|i: int| 0 <= i < 3 ==> !(#[trigger] buttons[i]).disabled
        },
{
    law_controls_name_their_job(id, "confirm"@);
    law_controls_name_their_job(id, "back"@);
    law_controls_name_their_job(id, "cancel"@);
    lemma_actions();
}

/// Below a menu of models or of levels, the owner who presses "Back" goes one stage
/// back and who presses "Cancel" cancels that very job.
pub proof fn law_back_buttons_do_what_they_say(id: u128, job: Job, catalog: AgentCatalog)
    requires
        !uuid_text(id).contains(':'),
        uuid_number(uuid_text(id)) == Some(id),
    ensures
        back_row(id) matches RowText::Buttons(buttons) && {
            let press = |button: ButtonText|
                match control_of(button.custom_id) {
                    Some((named, action)) => if named == id {
                        press_step(named, action, None, job.owner_id, Some(job), false, catalog)
                    } else {
                        Step::Ignore
                    },
                    None => Step::Ignore,
                };
            &&& buttons.len() == 2
            &&& buttons[0].label == "← Back"@ && press(buttons[0]) == back_step(id, job, catalog)
            &&& buttons[1].label == "Cancel"@ && press(buttons[1]) == Step::Cancel
            &&& !buttons[0].disabled && !buttons[1].disabled
        },
{
    law_controls_name_their_job(id, "back"@);
    law_controls_name_their_job(id, "cancel"@);
    lemma_actions();
}

/// The owner who picks an agent from the menu has chosen that agent, and is asked
/// for one of its models next; who presses "Cancel" below it cancels the job.
pub proof fn law_picking_an_agent_chooses_it(id: u128, job: Job, catalog: AgentCatalog, i: int)
    requires
        !uuid_text(id).contains(':'),
        uuid_number(uuid_text(id)) == Some(id),
        told_apart(catalog),
        0 <= i < 3,
    ensures
        agent_rows(id, catalog).len() == 2,
        agent_rows(id, catalog)[0] matches RowText::Menu { custom_id, placeholder, entries }
            && placeholder == "Select coding agent"@ && entries.len() == 3 && (control_of(custom_id) matches Some((named, action)) && named
            == id && (press_step(
            id,
            action,
            Some(entries[i].value),
            job.owner_id,
            Some(job),
            false,
            catalog,
        ) matches Step::Choose { chosen, stage, rows, .. } && stage == DispatchStage::ChoosingModel
            && chosen == (Chosen {
            agent: Some(seq![CodingAgent::Codex, CodingAgent::Claude, CodingAgent::OpenCode][i]),
            model: None,
            effort: None,
        }) && rows == model_rows(
            id,
            seq![CodingAgent::Codex, CodingAgent::Claude, CodingAgent::OpenCode][i],
            catalog,
        ))),
        agent_rows(id, catalog)[1] matches RowText::Buttons(buttons) && buttons.len() == 1
            && buttons[0].label == "Cancel"@ && !buttons[0].disabled && (control_of(
            buttons[0].custom_id,
        ) matches Some((named, action)) && named == id && press_step(
            id,
            action,
            None,
            job.owner_id,
            Some(job),
            false,
            catalog,
        ) == Step::Cancel),
{
    law_controls_name_their_job(id, "agent"@);
    law_controls_name_their_job(id, "cancel"@);
    lemma_actions();
    law_listed_agents_are_understood(catalog, i);
}

/// The owner who picks a model from the menu has chosen that model of the chosen
/// agent, and is asked for one of its levels next.
pub proof fn law_picking_a_model_chooses_it(
    id: u128,
    job: Job,
    agent: CodingAgent,
    catalog: AgentCatalog,
    i: int,
)
    requires
        !uuid_text(id).contains(':'),
        uuid_number(uuid_text(id)) == Some(id),
        job.selection.agent == Some(agent),
        0 <= i < agent_entry(catalog, agent).models@.len(),
    ensures
        model_rows(id, agent, catalog).len() == 2,
        model_rows(id, agent, catalog)[1] == back_row(id),
        model_rows(id, agent, catalog)[0] matches RowText::Menu { custom_id, placeholder, entries }
            && placeholder == "Select model"@ && entries.len() == agent_entry(catalog, agent).models@.len() && entries[i].label
            == agent_entry(catalog, agent).models@[i].display_name@ && (control_of(
            custom_id,
        ) matches Some((named, action)) && named == id && (press_step(
            id,
            action,
            Some(entries[i].value),
            job.owner_id,
            Some(job),
            false,
            catalog,
        ) matches Step::Choose { chosen, stage, rows, .. } && stage == DispatchStage::ChoosingEffort
            && chosen == (Chosen {
            agent: Some(agent),
            model: Some(agent_entry(catalog, agent).models@[i].id@),
            effort: None,
        }) && rows == effort_rows(
            id,
            agent,
            agent_entry(catalog, agent).models@[i].id@,
            catalog,
        ))),
{
    law_controls_name_their_job(id, "model"@);
    lemma_actions();
    law_listed_models_are_offered(catalog, agent, i);
}

/// The owner who picks a level from the menu has chosen that level of the chosen
/// model, and is asked to confirm next.
pub proof fn law_picking_a_level_chooses_it(
    id: u128,
    job: Job,
    agent: CodingAgent,
    model: String,
    catalog: AgentCatalog,
    i: int,
)
    requires
        !uuid_text(id).contains(':'),
        uuid_number(uuid_text(id)) == Some(id),
        job.selection.agent == Some(agent),
        job.selection.model == Some(model),
        efforts_of(catalog, agent, model@) is Some,
        0 <= i < efforts_of(catalog, agent, model@)->0.len(),
    ensures
        effort_rows(id, agent, model@, catalog).len() == 2,
        effort_rows(id, agent, model@, catalog)[1] == back_row(id),
        effort_rows(id, agent, model@, catalog)[0] matches RowText::Menu {
            custom_id,
            placeholder,
            entries,
        } && placeholder == "Select effort level"@ && entries.len() == efforts_of(catalog, agent, model@)->0.len() && entries[i].label
            == efforts_of(catalog, agent, model@)->0[i].display_name@ && (control_of(
            custom_id,
        ) matches Some((named, action)) && named == id && (press_step(
            id,
            action,
            Some(entries[i].value),
            job.owner_id,
            Some(job),
            false,
            catalog,
        ) matches Step::Choose { chosen, stage, rows, .. } && stage == DispatchStage::Confirming
            && chosen == (Chosen {
            agent: Some(agent),
            model: Some(model@),
            effort: Some(efforts_of(catalog, agent, model@)->0[i].id@),
        }) && rows == confirm_rows(id))),
{
    law_controls_name_their_job(id, "effort"@);
    lemma_actions();
    law_listed_efforts_are_offered(catalog, agent, model@, i);
}

/// What is not offered is not chosen: an unknown agent, a model that the agent does
/// not have and a level that the model does not have change nothing, and the owner
/// is told which it was.
pub proof fn law_what_is_not_offered_is_not_chosen(
    id: u128,
    job: Job,
    value: Seq<char>,
    catalog: AgentCatalog,
)
    ensures
        ({
            let press = |action: Seq<char>|
                press_step(id, action, Some(value), job.owner_id, Some(job), false, catalog);
            &&& agent_named(catalog, value) is None ==> press("agent"@) == Step::Tell(
                "Unknown agent: "@ + value,
            )
            &&& job.selection.agent matches Some(agent) ==> (efforts_of(catalog, agent, value)
                is None ==> press("model"@) == Step::Tell(
                "Model `"@ + value + "` is not valid for "@ + agent_entry(
                    catalog,
                    agent,
                ).short_name@ + "."@,
            ))
            &&& job.selection.agent matches Some(agent) ==> (job.selection.model matches Some(
                model,
            ) ==> (!offered(catalog, agent, model@, value) ==> press("effort"@) == Step::Tell(
                "Effort `"@ + value + "` is not valid for model `"@ + model@ + "`."@,
            )))
        }),
{
    lemma_actions();
}

/// With each stage go the controls for it, of the same job and of what was chosen so
/// far.
pub proof fn law_controls_fit_the_stage(
    id: u128,
    action: Seq<char>,
    selected: Option<Seq<char>>,
    user_id: u64,
    job: Job,
    expired: bool,
    catalog: AgentCatalog,
)
    ensures
        press_step(
            id,
            action,
            selected,
            user_id,
            Some(job),
            expired,
            catalog,
        ) matches Step::Choose { chosen, stage, rows, .. } ==> {
            &&& stage == DispatchStage::ChoosingAgent ==> rows == agent_rows(id, catalog)
            &&& stage == DispatchStage::ChoosingModel ==> (chosen.agent matches Some(agent) ==> rows
                == model_rows(id, agent, catalog))
            &&& stage == DispatchStage::ChoosingEffort ==> (chosen.agent matches Some(agent) ==> (
            chosen.model matches Some(model) ==> rows == effort_rows(id, agent, model, catalog)))
            &&& stage == DispatchStage::Confirming ==> rows == confirm_rows(id)
            &&& stage != DispatchStage::Elsewhere
        },
{
}

/// Each message on a job begins with its title and shows what was chosen so far;
/// the last one shows all of it, with the objective.
pub proof fn law_messages_show_the_choice(
    id: u128,
    selected: Option<Seq<char>>,
    job: Job,
    catalog: AgentCatalog,
)
    ensures
        agent_step(id, job, selected, catalog) matches Step::Choose { chosen, content, .. } ==> (
        chosen.agent matches Some(agent) && content == "**Feature development: "@ + job.title@
            + "**\n\n"@ + "Agent: **"@ + agent_entry(catalog, agent).display_name@
            + "**\nChoose a model:"@),
        model_step(id, job, selected, catalog) matches Step::Choose { chosen, content, .. } ==> (
        chosen.agent matches Some(agent) && (chosen.model matches Some(model) && content
            == "**Feature development: "@ + job.title@ + "**\n\n"@ + "Agent: **"@ + agent_entry(
            catalog,
            agent,
        ).display_name@ + "**\nModel: **"@ + model + "**\nChoose effort level:"@)),
        effort_step(id, job, selected, catalog) matches Step::Choose { chosen, content, .. } ==> (
        chosen.agent matches Some(agent) && (chosen.model matches Some(model) && (
        chosen.effort matches Some(effort) && content == "**Feature development: "@ + job.title@
            + "**\n\n"@ + "**Agent:** "@ + agent_entry(catalog, agent).display_name@
            + "\n**Model:** "@ + model + "\n**Effort:** "@ + effort + "\n\n**Objective:**\n"@
            + job.objective@
            + "\n\nConfirm dispatch to create a GitHub issue and queue the coding job."@))),
        back_step(id, job, catalog) matches Step::Choose { content, .. } ==> begins(
            content,
            "**Feature development: "@ + job.title@ + "**\n\n"@,
        ),
{
    let h = heading(job.title@);
    law_parts_are_found(h, "Choose a coding agent to implement this feature:"@, h);
    assert(h.subrange(0, h.len() as int) =~= h);
    let agent = agent_or_usual(job.selection.agent);
    let name = match job.selection.agent {
        Some(agent) => agent_entry(catalog, agent).display_name@,
        None => ""@,
    };
    let own = agent_entry(catalog, agent).display_name@;
    let model = match job.selection@.model {
        Some(model) => model,
        None => ""@,
    };
    law_texts_go_on(h, "Agent: **"@, h);
    law_texts_go_on(h + "Agent: **"@, name, h);
    law_texts_go_on(h + "Agent: **"@ + name, "**\nChoose a model:"@, h);
    law_texts_go_on(h + "Agent: **"@, own, h);
    law_texts_go_on(h + "Agent: **"@ + own, "**\nModel: `"@, h);
    law_texts_go_on(h + "Agent: **"@ + own + "**\nModel: `"@, model, h);
    law_texts_go_on(h + "Agent: **"@ + own + "**\nModel: `"@ + model, "`\nChoose effort level:"@, h);
}

/// The card that asks for approval tells who asked and where, the feature, each line
/// of the objective and what it would be dispatched to.
pub proof fn law_approval_card_tells_the_request(job: Job, catalog: AgentCatalog, i: int)
    ensures
        begins(
            approval_request(job, catalog),
            "**Feature-development request from <@"@ + decimal(job.requester_id as nat) + ">** (`"@
                + job.requester_name@ + "`)\n**Feature:** "@ + job.title@
                + "\n**Objective:**\n> "@,
        ),
        0 <= i < lines_of(job.objective@).len() ==> has_text(
            approval_request(job, catalog),
            lines_of(job.objective@)[i],
        ),
        has_text(approval_request(job, catalog), joined(lines_of(job.objective@), "\n> "@)),
        ends(
            approval_request(job, catalog),
            "\n**Proposed configuration:**\nAgent: "@ + (match job.selection.agent {
                Some(agent) => agent_entry(catalog, agent).display_name@,
                None => "default"@,
            }) + " | Model: `"@ + (match job.selection.model {
                Some(model) => model@,
                None => "default"@,
            }) + "` | Effort: `"@ + (match job.selection.effort {
                Some(effort) => effort@,
                None => "default"@,
            }) + "`\n**Origin:** <#"@ + decimal(job.requester_channel as nat) + ">"@,
        ),
{
    let top = "**Feature-development request from <@"@ + decimal(job.requester_id as nat)
        + ">** (`"@ + job.requester_name@ + "`)\n**Feature:** "@ + job.title@
        + "\n**Objective:**\n> "@;
    let parts = lines_of(job.objective@);
    let body = joined(parts, "\n> "@);
    let agent = match job.selection.agent {
        Some(agent) => agent_entry(catalog, agent).display_name@,
        None => "default"@,
    };
    let model = match job.selection.model {
        Some(model) => model@,
        None => "default"@,
    };
    let effort = match job.selection.effort {
        Some(effort) => effort@,
        None => "default"@,
    };
    let channel = decimal(job.requester_channel as nat);
    let a = "\n**Proposed configuration:**\nAgent: "@;
    let b = " | Model: `"@;
    let c = "` | Effort: `"@;
    let d = "`\n**Origin:** <#"@;
    let e = ">"@;
    let x = top + body;
    let text = approval_request(job, catalog);
    assert(text == x + a + agent + b + model + c + effort + d + channel + e);
    let tail = a + agent + b + model + c + effort + d + channel + e;
    lemma_one_text(x, a, agent, b, model, c, effort, d, channel, e);
    assert(text == x + tail);
    law_parts_are_found(x, tail, tail);
    law_parts_are_found(top, body, tail);
    law_texts_go_on(x, tail, top);
    law_texts_go_on(x, tail, body);
    if 0 <= i < parts.len() {
        law_joined_texts_hold_each_part(parts, "\n> "@, i);
        law_texts_go_on(body, top, parts[i]);
        law_texts_go_on(x, tail, parts[i]);
    }
}

/// Texts one behind the other, with the first apart.
proof fn lemma_one_text(
    x: Seq<char>,
    a: Seq<char>,
    b: Seq<char>,
    c: Seq<char>,
    d: Seq<char>,
    e: Seq<char>,
    f: Seq<char>,
    g: Seq<char>,
    h: Seq<char>,
    i: Seq<char>,
)
    ensures
        x + a + b + c + d + e + f + g + h + i == x + (a + b + c + d + e + f + g + h + i),
{
    law_last_pieces_end_a_text(x, a, b, c);
    law_last_pieces_end_a_text(x, a + b + c, d, e);
    let m = a + b + c + d + e;
    assert(x + m == x + a + b + c + d + e);
    law_last_pieces_end_a_text(x, m, f, g);
    law_last_pieces_end_a_text(x, m + f + g, h, i);
}

/// A request goes to the owner first, where there is one; where the owner is not
/// reached it goes to the fallback channel, where there is one, and else it is given
/// up.
pub proof fn law_requests_reach_the_owner_first(
    owner_id: u64,
    fallback_channel: u64,
    id: u128,
    job: Job,
    catalog: AgentCatalog,
)
    ensures
        owner_id != 0 ==> approval_next(
            ApprovalState::Prepared { owner_id },
            id,
            Some(job),
            catalog,
        ) == (ApprovalText::SendToOwner {
            owner_id,
            content: approval_request(job, catalog),
            rows: approval_rows(id),
        }),
        approval_next(ApprovalState::Prepared { owner_id: 0 }, id, Some(job), catalog)
            == ApprovalText::Nothing,
        fallback_channel != 0 ==> approval_next(
            ApprovalState::TriedOwner { sent: None, fallback_channel },
            id,
            Some(job),
            catalog,
        ) == (ApprovalText::SendToChannel {
            channel_id: fallback_channel,
            content: approval_request(job, catalog),
            rows: approval_rows(id),
        }),
        approval_next(
            ApprovalState::TriedOwner { sent: None, fallback_channel: 0 },
            id,
            Some(job),
            catalog,
        ) is GiveUp,
        approval_next(ApprovalState::TriedChannel { sent: None }, id, Some(job), catalog) is GiveUp,
{
}

/// What a step is taken as: each kind as itself, with what it holds.
pub proof fn law_steps_are_what_they_hold(step: DevelopStep, selection: Selection)
    ensures
        selection@.agent == selection.agent,
        selection@.model == opt_text(selection.model),
        selection@.effort == opt_text(selection.effort),
        step is Ignore <==> step@ is Ignore,
        step is Dispatch <==> step@ is Dispatch,
        step is Approve <==> step@ is Approve,
        step is Configure <==> step@ is Configure,
        step is Reject <==> step@ is Reject,
        step is Cancel <==> step@ is Cancel,
        step is Choose <==> step@ is Choose,
        step matches DevelopStep::Tell(text) ==> step@ == Step::Tell(text@),
        step matches DevelopStep::Choose { selection, stage, content, rows } ==> step@ == (
        Step::Choose { chosen: selection@, stage, content: content@, rows: rows_of(rows@) }),
{
}

/// What an action on a request is taken as: each kind as itself, with what it holds.
pub proof fn law_approval_actions_are_what_they_hold(action: ApprovalAction)
    ensures
        action is Nothing <==> action@ is Nothing,
        action matches ApprovalAction::SendToOwner { owner_id, content, rows } ==> action@ == (
        ApprovalText::SendToOwner { owner_id, content: content@, rows: rows_of(rows@) }),
        action matches ApprovalAction::SendToChannel { channel_id, content, rows } ==> action@ == (
        ApprovalText::SendToChannel { channel_id, content: content@, rows: rows_of(rows@) }),
        action matches ApprovalAction::RememberMessage { channel_id, message_id } ==> action@ == (
        ApprovalText::RememberMessage { channel_id, message_id }),
        action matches ApprovalAction::GiveUp { reply } ==> action@ == (ApprovalText::GiveUp {
            reply: reply@,
        }),
{
}

/// Whoever presses a control in vain is told why: the job is gone, the control is not
/// theirs, or the time is up. What does not belong to the owner is said before that
/// the time is up.
pub proof fn law_vain_presses_are_told_why(
    id: u128,
    action: Seq<char>,
    selected: Option<Seq<char>>,
    user_id: u64,
    job: Job,
    expired: bool,
    catalog: AgentCatalog,
)
    ensures
        press_step(id, action, selected, user_id, None, expired, catalog) == Step::Tell(
            "This development job has expired. Please ask the bot to prepare a new one."@,
        ),
        user_id != job.owner_id ==> press_step(
            id,
            action,
            selected,
            user_id,
            Some(job),
            expired,
            catalog,
        ) == Step::Tell("Only the configured bot owner can use these controls."@),
        press_step(id, action, selected, job.owner_id, Some(job), true, catalog) == Step::Tell(
            "This development job has expired (15-minute timeout). Please ask the bot to prepare a new one."@,
        ),
{
}

/// A press on a control that is none of these does nothing, nor does a choice without
/// a value.
pub proof fn law_other_presses_do_nothing(
    id: u128,
    action: Seq<char>,
    job: Job,
    catalog: AgentCatalog,
)
    requires
        action != "confirm"@ && action != "approve"@ && action != "configure"@ && action
            != "reject"@ && action != "back"@ && action != "cancel"@,
    ensures
        press_step(id, action, None, job.owner_id, Some(job), false, catalog) is Ignore,
{
}

/// The message on the way back asks again for what was given up, and shows what is
/// still chosen.
pub proof fn law_messages_ask_again_on_the_way_back(
    id: u128,
    job: Job,
    agent: CodingAgent,
    catalog: AgentCatalog,
)
    requires
        job.selection.agent == Some(agent),
    ensures
        ({
            let head = "**Feature development: "@ + job.title@ + "**\n\n"@;
            let name = agent_entry(catalog, agent).display_name@;
            match back_step(id, job, catalog) {
                Step::Choose { stage, content, .. } => match stage {
                    DispatchStage::ChoosingAgent => content == head
                        + "Choose a coding agent to implement this feature:"@,
                    DispatchStage::ChoosingModel => content == head + "Agent: **"@ + name
                        + "**\nChoose a model:"@,
                    DispatchStage::ChoosingEffort => job.selection.model matches Some(model)
                        ==> content == head + "Agent: **"@ + name + "**\nModel: `"@ + model@
                        + "`\nChoose effort level:"@,
                    _ => false,
                },
                _ => job.stage == DispatchStage::ChoosingAgent || job.stage
                    == DispatchStage::Elsewhere,
            }
        }),
        agent_prompt(job.title@) == "**Feature development: "@ + job.title@ + "**\n\n"@
            + "Choose a coding agent to implement this feature:"@,
{
}

} // verus!
