//! The coding agents, their models and the effort levels of each model.
use crate::components::{entries_of, entry_of, EntryText, MenuEntry};
use crate::text::{begins, first_chars, law_first_characters, same_text, take_chars};
use vstd::prelude::*;

verus! {

/// A coding agent.
#[derive(Clone, Copy, Debug, PartialEq, Eq, Structural)]
pub enum CodingAgent {
    Codex,
    Claude,
    OpenCode,
}

/// An effort level of a model.
#[derive(Debug, PartialEq, Eq)]
pub struct EffortEntry {
    pub id: String,
    pub display_name: String,
    pub description: Option<String>,
}

/// A model of an agent.
#[derive(Debug, PartialEq, Eq)]
pub struct ModelEntry {
    pub id: String,
    pub display_name: String,
    pub description: Option<String>,
    pub efforts: Vec<EffortEntry>,
}

/// What an agent is called, as a title and within a sentence; and its models.
#[derive(Debug, PartialEq, Eq)]
pub struct AgentEntry {
    pub display_name: String,
    pub short_name: String,
    pub models: Vec<ModelEntry>,
}

/// What an agent is called in identifiers and in the menu of agents.
#[derive(Debug, PartialEq, Eq)]
pub struct AgentName {
    pub id: String,
    pub menu_label: String,
}

/// What can be chosen. The names of the first and the last agent are fixed; that
/// of the middle one comes with the catalog.
#[derive(Debug, PartialEq, Eq)]
pub struct AgentCatalog {
    pub codex: AgentEntry,
    pub claude: AgentEntry,
    pub claude_name: AgentName,
    pub opencode: AgentEntry,
}

pub const CODEX_ID: &'static str = "codex";

pub const CODEX_LABEL: &'static str = "Codex";

pub const OPENCODE_ID: &'static str = "opencode";

pub const OPENCODE_LABEL: &'static str = "OpenCode (NVIDIA)";

/// The identifier of an agent.
pub open spec fn agent_id(catalog: AgentCatalog, agent: CodingAgent) -> Seq<char> {
    match agent {
        CodingAgent::Codex => CODEX_ID@,
        CodingAgent::Claude => catalog.claude_name.id@,
        CodingAgent::OpenCode => OPENCODE_ID@,
    }
}

/// What the menu calls an agent.
pub open spec fn agent_label(catalog: AgentCatalog, agent: CodingAgent) -> Seq<char> {
    match agent {
        CodingAgent::Codex => CODEX_LABEL@,
        CodingAgent::Claude => catalog.claude_name.menu_label@,
        CodingAgent::OpenCode => OPENCODE_LABEL@,
    }
}

/// The entry of an agent.
pub open spec fn agent_entry(catalog: AgentCatalog, agent: CodingAgent) -> AgentEntry {
    match agent {
        CodingAgent::Codex => catalog.codex,
        CodingAgent::Claude => catalog.claude,
        CodingAgent::OpenCode => catalog.opencode,
    }
}

/// The agent of an identifier.
pub open spec fn agent_named(catalog: AgentCatalog, id: Seq<char>) -> Option<CodingAgent> {
    if id == agent_id(catalog, CodingAgent::Codex) {
        Some(CodingAgent::Codex)
    } else if id == agent_id(catalog, CodingAgent::Claude) {
        Some(CodingAgent::Claude)
    } else if id == agent_id(catalog, CodingAgent::OpenCode) {
        Some(CodingAgent::OpenCode)
    } else {
        None
    }
}

/// Is the name that comes with the catalog none of the fixed ones?
pub open spec fn told_apart(catalog: AgentCatalog) -> bool {
    catalog.claude_name.id@ != CODEX_ID@ && catalog.claude_name.id@ != OPENCODE_ID@
}

/// Every agent is found by its identifier.
pub proof fn law_agent_is_found_by_its_identifier(catalog: AgentCatalog, agent: CodingAgent)
    requires
        told_apart(catalog),
    ensures
        agent_named(catalog, agent_id(catalog, agent)) == Some(agent),
{
    reveal_strlit("codex");
    reveal_strlit("opencode");
    assert(CODEX_ID@.len() != OPENCODE_ID@.len());
}

/// Whatever agent the menu offers is understood, as the one it is offered for.
pub proof fn law_listed_agents_are_understood(catalog: AgentCatalog, i: int)
    requires
        told_apart(catalog),
        0 <= i < agent_entries(catalog).len(),
    ensures
        agent_named(catalog, agent_entries(catalog)[i].value) == Some(
            seq![CodingAgent::Codex, CodingAgent::Claude, CodingAgent::OpenCode][i],
        ),
{
    let agent = seq![CodingAgent::Codex, CodingAgent::Claude, CodingAgent::OpenCode][i];
    law_agent_is_found_by_its_identifier(catalog, agent);
}

/// The first model of that identifier.
pub open spec fn model_with(models: Seq<ModelEntry>, id: Seq<char>) -> Option<ModelEntry>
    decreases models.len(),
{
    if models.len() == 0 {
        None
    } else if models[0].id@ == id {
        Some(models[0])
    } else {
        model_with(models.drop_first(), id)
    }
}

/// The effort levels of a model of an agent; none where the agent has no such
/// model.
pub open spec fn efforts_of(
    catalog: AgentCatalog,
    agent: CodingAgent,
    model: Seq<char>,
) -> Option<Seq<EffortEntry>> {
    match model_with(agent_entry(catalog, agent).models@, model) {
        Some(m) => Some(m.efforts@),
        None => None,
    }
}

/// Is there a level of that identifier?
pub open spec fn has_effort(efforts: Seq<EffortEntry>, id: Seq<char>) -> bool {
    exists|i: int| 0 <= i < efforts.len() && (#[trigger] efforts[i]).id@ == id
}

/// Does the agent have the model, and the model the level?
pub open spec fn offered(
    catalog: AgentCatalog,
    agent: CodingAgent,
    model: Seq<char>,
    effort: Seq<char>,
) -> bool {
    match efforts_of(catalog, agent, model) {
        Some(efforts) => has_effort(efforts, effort),
        None => false,
    }
}

impl AgentCatalog {
    /// The entry of an agent.
    pub fn agent(&self, agent: CodingAgent) -> (r: &AgentEntry)
        ensures
            *r == agent_entry(*self, agent),
    {
        match agent {
            CodingAgent::Codex => &self.codex,
            CodingAgent::Claude => &self.claude,
            CodingAgent::OpenCode => &self.opencode,
        }
    }

    /// The identifier of an agent.
    pub fn id_str(&self, agent: CodingAgent) -> (r: &str)
        ensures
            r@ == agent_id(*self, agent),
    {
        match agent {
            CodingAgent::Codex => CODEX_ID,
            CodingAgent::Claude => self.claude_name.id.as_str(),
            CodingAgent::OpenCode => OPENCODE_ID,
        }
    }

    /// The agent of an identifier.
    pub fn find_agent(&self, id: &str) -> (r: Option<CodingAgent>)
        ensures
            r == agent_named(*self, id@),
    {
        if same_text(id, CODEX_ID) {
            Some(CodingAgent::Codex)
        } else if same_text(id, self.claude_name.id.as_str()) {
            Some(CodingAgent::Claude)
        } else if same_text(id, OPENCODE_ID) {
            Some(CodingAgent::OpenCode)
        } else {
            None
        }
    }

    /// The effort levels of a model of an agent.
    pub fn efforts_for(&self, agent: CodingAgent, model: &str) -> (r: Option<&Vec<EffortEntry>>)
        ensures
            (match r {
                Some(efforts) => Some(efforts@),
                None => None,
            }) == efforts_of(*self, agent, model@),
    {
        let models = &self.agent(agent).models;
        let n: usize = models.len();
        let mut i: usize = 0;
        proof {
            assert(models@.skip(0) =~= models@);
        }
        while i < n
            invariant
                n == models@.len(),
                i <= n,
                model_with(models@, model@) == model_with(models@.skip(i as int), model@),
                models@ == agent_entry(*self, agent).models@,
            decreases n - i,
        {
            proof {
                assert(models@.skip(i as int).drop_first() =~= models@.skip(i + 1));
            }
            if same_text(models[i].id.as_str(), model) {
                return Some(&models[i].efforts);
            }
            i += 1;
        }
        None
    }

    /// Does the agent have the model, and the model the level?
    pub fn offers(&self, agent: CodingAgent, model: &str, effort: &str) -> (r: bool)
        ensures
            r == offered(*self, agent, model@, effort@),
    {
        let efforts = match self.efforts_for(agent, model) {
            Some(efforts) => efforts,
            None => {
                return false;
            },
        };
        let n: usize = efforts.len();
        let mut i: usize = 0;
        while i < n
            invariant
                n == efforts@.len(),
                i <= n,
                efforts_of(*self, agent, model@) == Some(efforts@),
                forall|k: int| 0 <= k < i ==> (#[trigger] efforts@[k]).id@ != effort@,
            decreases n - i,
        {
            if same_text(efforts[i].id.as_str(), effort) {
                proof {
                    assert(efforts@[i as int].id@ == effort@);
                }
                return true;
            }
            i += 1;
        }
        false
    }
}

// ---------------------------------------------------------------------- menus

/// How much of a description a menu shows.
pub const DESCRIPTION_LENGTH: usize = 100;

/// The beginning of a description.
pub open spec fn short_description(description: Option<String>) -> Option<Seq<char>> {
    match description {
        Some(text) => Some(first_chars(text@, DESCRIPTION_LENGTH as nat)),
        None => None,
    }
}

/// The entry for an agent.
pub open spec fn agent_choice(catalog: AgentCatalog, agent: CodingAgent) -> EntryText {
    EntryText {
        label: agent_label(catalog, agent),
        value: agent_id(catalog, agent),
        description: None,
    }
}

/// The entries for agents.
pub open spec fn agent_entries(catalog: AgentCatalog) -> Seq<EntryText> {
    seq![
        agent_choice(catalog, CodingAgent::Codex),
        agent_choice(catalog, CodingAgent::Claude),
        agent_choice(catalog, CodingAgent::OpenCode),
    ]
}

/// The entries for models.
pub open spec fn model_entries(models: Seq<ModelEntry>) -> Seq<EntryText> {
    models.map_values(
        |m: ModelEntry|
            EntryText {
                label: m.display_name@,
                value: m.id@,
                description: short_description(m.description),
            },
    )
}

/// The entries for effort levels.
pub open spec fn effort_entries(efforts: Seq<EffortEntry>) -> Seq<EntryText> {
    efforts.map_values(
        |e: EffortEntry|
            EntryText {
                label: e.display_name@,
                value: e.id@,
                description: short_description(e.description),
            },
    )
}

/// An entry of a menu.
fn menu_entry(label: &str, value: &str, description: &Option<String>) -> (r: MenuEntry)
    ensures
        entry_of(r) == (EntryText {
            label: label@,
            value: value@,
            description: short_description(*description),
        }),
        r.label@ == label@ && r.value@ == value@,
{
    let description = match description {
        Some(text) => Some(take_chars(text.as_str(), DESCRIPTION_LENGTH).to_owned()),
        None => None,
    };
    MenuEntry { label: label.to_owned(), value: value.to_owned(), description }
}

/// The entries for agents.
pub fn list_agents(catalog: &AgentCatalog) -> (r: Vec<MenuEntry>)
    ensures
        entries_of(r@) == agent_entries(*catalog),
{
    let mut entries: Vec<MenuEntry> = Vec::new();
    entries.push(menu_entry(CODEX_LABEL, CODEX_ID, &None));
    entries.push(
        menu_entry(
            catalog.claude_name.menu_label.as_str(),
            catalog.claude_name.id.as_str(),
            &None,
        ),
    );
    entries.push(menu_entry(OPENCODE_LABEL, OPENCODE_ID, &None));
    proof {
        assert(entries_of(entries@) =~= agent_entries(*catalog));
    }
    entries
}

/// The entries for models.
pub fn list_models(models: &Vec<ModelEntry>) -> (r: Vec<MenuEntry>)
    ensures
        entries_of(r@) == model_entries(models@),
{
    let mut list: Vec<MenuEntry> = Vec::new();
    let n: usize = models.len();
    let mut i: usize = 0;
    proof {
        assert(entries_of(list@) =~= model_entries(models@.take(0)));
    }
    while i < n
        invariant
            n == models@.len(),
            i <= n,
            entries_of(list@) == model_entries(models@.take(i as int)),
        decreases n - i,
    {
        let ghost before = list@;
        let entry = menu_entry(
            models[i].display_name.as_str(),
            models[i].id.as_str(),
            &models[i].description,
        );
        list.push(entry);
        i += 1;
        proof {
            assert(entries_of(list@) =~= entries_of(before).push(entry_of(entry)));
            assert(model_entries(models@.take(i as int)) =~= model_entries(
                models@.take(i - 1),
            ).push(entry_of(entry)));
        }
    }
    proof {
        assert(models@.take(n as int) =~= models@);
    }
    list
}

/// The entries for effort levels.
pub fn list_efforts(efforts: &Vec<EffortEntry>) -> (r: Vec<MenuEntry>)
    ensures
        entries_of(r@) == effort_entries(efforts@),
{
    let mut list: Vec<MenuEntry> = Vec::new();
    let n: usize = efforts.len();
    let mut i: usize = 0;
    proof {
        assert(entries_of(list@) =~= effort_entries(efforts@.take(0)));
    }
    while i < n
        invariant
            n == efforts@.len(),
            i <= n,
            entries_of(list@) == effort_entries(efforts@.take(i as int)),
        decreases n - i,
    {
        let ghost before = list@;
        let entry = menu_entry(
            efforts[i].display_name.as_str(),
            efforts[i].id.as_str(),
            &efforts[i].description,
        );
        list.push(entry);
        i += 1;
        proof {
            assert(entries_of(list@) =~= entries_of(before).push(entry_of(entry)));
            assert(effort_entries(efforts@.take(i as int)) =~= effort_entries(
                efforts@.take(i - 1),
            ).push(entry_of(entry)));
        }
    }
    proof {
        assert(efforts@.take(n as int) =~= efforts@);
    }
    list
}

/// Whatever effort level a menu offers for a model is a valid choice for it.
pub proof fn law_listed_efforts_are_offered(
    catalog: AgentCatalog,
    agent: CodingAgent,
    model: Seq<char>,
    i: int,
)
    requires
        efforts_of(catalog, agent, model) is Some,
        0 <= i < efforts_of(catalog, agent, model)->0.len(),
    ensures
        offered(
            catalog,
            agent,
            model,
            effort_entries(efforts_of(catalog, agent, model)->0)[i].value,
        ),
{
    let efforts = efforts_of(catalog, agent, model)->0;
    assert(efforts[i].id@ == effort_entries(efforts)[i].value);
}

/// Whatever model a menu offers for an agent is a valid choice for it.
pub proof fn law_listed_models_are_offered(catalog: AgentCatalog, agent: CodingAgent, i: int)
    requires
        0 <= i < agent_entry(catalog, agent).models@.len(),
    ensures
        efforts_of(
            catalog,
            agent,
            model_entries(agent_entry(catalog, agent).models@)[i].value,
        ) is Some,
{
    lemma_model_with(agent_entry(catalog, agent).models@, i);
}

proof fn lemma_model_with(models: Seq<ModelEntry>, i: int)
    requires
        0 <= i < models.len(),
    ensures
        model_with(models, models[i].id@) is Some,
    decreases models.len(),
{
    if models[0].id@ != models[i].id@ {
        lemma_model_with(models.drop_first(), i - 1);
        assert(models.drop_first()[i - 1] == models[i]);
    }
}

// ------------------------------------------------------------- what is offered

/// The menu offers the three agents in order, each under its own label: the fixed
/// ones by their names, the middle one by the name that the catalog gives it.
pub proof fn law_agents_are_listed_by_name(catalog: AgentCatalog)
    ensures
        agent_entries(catalog).len() == 3,
        agent_entries(catalog)[0].label == "Codex"@,
        agent_entries(catalog)[0].value == "codex"@,
        agent_entries(catalog)[1].label == catalog.claude_name.menu_label@,
        agent_entries(catalog)[1].value == catalog.claude_name.id@,
        agent_entries(catalog)[2].label == "OpenCode (NVIDIA)"@,
        agent_entries(catalog)[2].value == "opencode"@,
{
}

/// Each agent has the models that the catalog lists for it.
pub proof fn law_each_agent_has_its_own_entry(catalog: AgentCatalog, agent: CodingAgent)
    ensures
        agent == CodingAgent::Codex ==> agent_entry(catalog, agent) == catalog.codex,
        agent == CodingAgent::Claude ==> agent_entry(catalog, agent) == catalog.claude,
        agent == CodingAgent::OpenCode ==> agent_entry(catalog, agent) == catalog.opencode,
{
}

/// A menu of models shows each model of the agent, in order, by its name, and
/// stands for its identifier; it shows at most the first hundred characters of a
/// description.
pub proof fn law_models_are_listed_by_name(models: Seq<ModelEntry>, i: int)
    requires
        0 <= i < models.len(),
    ensures
        model_entries(models).len() == models.len(),
        model_entries(models)[i].label == models[i].display_name@,
        model_entries(models)[i].value == models[i].id@,
        models[i].description is None <==> model_entries(models)[i].description is None,
        models[i].description matches Some(text) ==> (model_entries(models)[i].description matches Some(
            shown,
        ) && begins(text@, shown) && shown.len() == if text@.len() < 100 {
            text@.len()
        } else {
            100
        }),
{
    if let Some(text) = models[i].description {
        law_first_characters(text@, 100);
    }
}

/// A menu of effort levels shows each level of the model, in order, by its name, and
/// stands for its identifier; it shows at most the first hundred characters of a
/// description.
pub proof fn law_efforts_are_listed_by_name(efforts: Seq<EffortEntry>, i: int)
    requires
        0 <= i < efforts.len(),
    ensures
        effort_entries(efforts).len() == efforts.len(),
        effort_entries(efforts)[i].label == efforts[i].display_name@,
        effort_entries(efforts)[i].value == efforts[i].id@,
        efforts[i].description is None <==> effort_entries(efforts)[i].description is None,
        efforts[i].description matches Some(text) ==> (effort_entries(efforts)[i].description matches Some(
            shown,
        ) && begins(text@, shown) && shown.len() == if text@.len() < 100 {
            text@.len()
        } else {
            100
        }),
{
    if let Some(text) = efforts[i].description {
        law_first_characters(text@, 100);
    }
}

/// A model is found by its identifier: the first of that identifier, where the agent
/// has one, and none where it has not.
pub proof fn law_models_are_found_by_identifier(models: Seq<ModelEntry>, id: Seq<char>, i: int)
    ensures
        0 <= i < models.len() && models[i].id@ == id && (forall|k: int|
            0 <= k < i ==> (#[trigger] models[k]).id@ != id) ==> model_with(models, id) == Some(
            models[i],
        ),
        (forall|k: int| 0 <= k < models.len() ==> (#[trigger] models[k]).id@ != id) ==> model_with(
            models,
            id,
        ) is None,
    decreases models.len(),
{
    if models.len() > 0 && models[0].id@ != id {
        let rest = models.drop_first();
        law_models_are_found_by_identifier(rest, id, i - 1);
        assert forall|k: int| 0 <= k < rest.len() implies (#[trigger] rest[k]).id@ == models[k
            + 1].id@ by {}
        if forall|k: int| 0 <= k < models.len() ==> (#[trigger] models[k]).id@ != id {
            assert forall|k: int| 0 <= k < rest.len() implies (#[trigger] rest[k]).id@ != id by {
                assert(models[k + 1].id@ != id);
            }
        }
        if 0 <= i < models.len() && models[i].id@ == id && (forall|k: int|
            0 <= k < i ==> (#[trigger] models[k]).id@ != id) {
            assert(rest[i - 1] == models[i]);
            assert forall|k: int| 0 <= k < i - 1 implies (#[trigger] rest[k]).id@ != id by {
                assert(models[k + 1].id@ != id);
            }
        }
    }
}

/// A choice is offered where the agent has the model and that model the level, and
/// only there.
pub proof fn law_offers_are_the_models_own_levels(
    catalog: AgentCatalog,
    agent: CodingAgent,
    model: Seq<char>,
    effort: Seq<char>,
)
    ensures
        offered(catalog, agent, model, effort) <==> (model_with(
            agent_entry(catalog, agent).models@,
            model,
        ) matches Some(found) && exists|i: int|
            0 <= i < found.efforts@.len() && (#[trigger] found.efforts@[i]).id@ == effort),
        efforts_of(catalog, agent, model) == (match model_with(
            agent_entry(catalog, agent).models@,
            model,
        ) {
            Some(found) => Some(found.efforts@),
            None => None,
        }),
{
}

} // verus!
