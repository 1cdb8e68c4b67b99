use housebot::catalog::{
    AgentCatalog, AgentEntry, AgentName, CodingAgent, EffortEntry, ModelEntry,
};
use housebot::components::Row;
use housebot::develop::{
    approval_text, configure_reply, develop_approval_components, develop_id,
    handle_develop_component, notify_owner_for_approval, parse_develop_id, reject_reply,
    start_develop_flow, ApprovalAction, ApprovalState, DevelopStep, DispatchStage, Job, Selection,
};
use housebot::dispatch::{
    dispatch_job, dispatch_step, Approver, CreatedIssue, DispatchAction, DispatchEvent,
    DispatchState, Flow,
};
use housebot::pagination::{
    chunk_sending, final_message, handle_pagination_component, parse_page_id, send_final_message,
    FinalMessage, PageStep, Sending,
};

const JOB: u128 = 0x0123_4567_89ab_cdef_0123_4567_89ab_cdef;

fn agent(id: &str, models: Vec<ModelEntry>) -> AgentEntry {
    AgentEntry {
        display_name: format!("{id} title"),
        short_name: format!("{id} name"),
        models,
    }
}

fn catalog() -> AgentCatalog {
    let model = ModelEntry {
        id: "m1".to_string(),
        display_name: "Model One".to_string(),
        description: Some("d".repeat(120)),
        efforts: vec![EffortEntry {
            id: "high".to_string(),
            display_name: "High".to_string(),
            description: None,
        }],
    };
    AgentCatalog {
        codex: agent("codex", vec![model]),
        claude: agent("second", vec![]),
        claude_name: AgentName {
            id: "second".to_string(),
            menu_label: "second menu".to_string(),
        },
        opencode: agent("opencode", vec![]),
    }
}

fn job(agent: Option<CodingAgent>, model: Option<&str>, effort: Option<&str>) -> Job {
    Job {
        owner_id: 1,
        title: "Polls".to_string(),
        objective: "Add polls\nwith votes".to_string(),
        requester_name: "al".to_string(),
        requester_id: 2,
        requester_channel: 3,
        selection: Selection {
            agent,
            model: model.map(str::to_string),
            effort: effort.map(str::to_string),
        },
        stage: match (agent, model, effort) {
            (None, _, _) => DispatchStage::ChoosingAgent,
            (_, None, _) => DispatchStage::ChoosingModel,
            (_, _, None) => DispatchStage::ChoosingEffort,
            _ => DispatchStage::Confirming,
        },
    }
}

fn press(action: &str, selected: Option<&str>, job: &Job) -> DevelopStep {
    handle_develop_component(JOB, action, selected, 1, Some(job), false, &catalog())
}

#[test]
fn control_identifiers_are_read_back() {
    let id = develop_id(JOB, "agent");
    assert_eq!(id, "develop:01234567-89ab-cdef-0123-456789abcdef:agent");
    assert_eq!(parse_develop_id(&id), Some((JOB, "agent")));
    assert_eq!(
        parse_develop_id("develop:0123456789abcdef0123456789abcdef:a:b"),
        Some((JOB, "a:b"))
    );
    assert_eq!(parse_develop_id("develop:nope:agent"), None);
    assert_eq!(parse_develop_id("develop:"), None);
    assert_eq!(parse_develop_id("other"), None);
}

#[test]
fn strangers_and_late_presses_do_nothing() {
    let j = job(None, None, None);
    let c = catalog();
    let tell = |text: &str| DevelopStep::Tell(text.to_string());
    assert_eq!(
        handle_develop_component(JOB, "cancel", None, 1, None, false, &c),
        tell("This development job has expired. Please ask the bot to prepare a new one.")
    );
    assert_eq!(
        handle_develop_component(JOB, "cancel", None, 2, Some(&j), false, &c),
        tell("Only the configured bot owner can use these controls.")
    );
    assert_eq!(
        handle_develop_component(JOB, "cancel", None, 1, Some(&j), true, &c),
        tell("This development job has expired (15-minute timeout). Please ask the bot to prepare a new one.")
    );
    assert_eq!(press("cancel", None, &j), DevelopStep::Cancel);
    assert_eq!(press("confirm", None, &j), DevelopStep::Dispatch);
    assert_eq!(press("approve", None, &j), DevelopStep::Approve);
    assert_eq!(press("configure", None, &j), DevelopStep::Configure);
    assert_eq!(press("reject", None, &j), DevelopStep::Reject);
    assert_eq!(press("dance", None, &j), DevelopStep::Ignore);
}

#[test]
fn a_choice_goes_from_agent_to_effort() {
    let start = job(None, None, None);
    match press("agent", Some("codex"), &start) {
        DevelopStep::Choose {
            selection,
            stage,
            content,
            rows,
        } => {
            assert_eq!(selection.agent, Some(CodingAgent::Codex));
            assert_eq!(stage, DispatchStage::ChoosingModel);
            assert_eq!(
                content,
                "**Feature development: Polls**\n\nAgent: **codex title**\nChoose a model:"
            );
            match &rows[0] {
                Row::Menu(menu) => {
                    assert_eq!(menu.entries[0].label, "Model One");
                    assert_eq!(menu.entries[0].description, Some("d".repeat(100)));
                }
                Row::Buttons(_) => unreachable!(),
            }
        }
        _ => unreachable!(),
    }
    let chosen = job(Some(CodingAgent::Codex), None, None);
    match press("model", Some("m1"), &chosen) {
        DevelopStep::Choose {
            selection, content, ..
        } => {
            assert_eq!(selection.model, Some("m1".to_string()));
            assert_eq!(
                content,
                "**Feature development: Polls**\n\nAgent: **codex title**\nModel: **m1**\nChoose effort level:"
            );
        }
        _ => unreachable!(),
    }
    let model = job(Some(CodingAgent::Codex), Some("m1"), None);
    match press("effort", Some("high"), &model) {
        DevelopStep::Choose { stage, content, .. } => {
            assert_eq!(stage, DispatchStage::Confirming);
            assert_eq!(
                content,
                "**Feature development: Polls**\n\n**Agent:** codex title\n**Model:** m1\n**Effort:** high\n\n**Objective:**\nAdd polls\nwith votes\n\nConfirm dispatch to create a GitHub issue and queue the coding job."
            );
        }
        _ => unreachable!(),
    }
}

#[test]
fn what_is_not_offered_is_refused() {
    let tell = |text: &str| DevelopStep::Tell(text.to_string());
    let start = job(None, None, None);
    assert_eq!(
        press("agent", Some("nobody"), &start),
        tell("Unknown agent: nobody")
    );
    assert_eq!(press("agent", None, &start), DevelopStep::Ignore);
    assert_eq!(press("model", Some("m1"), &start), DevelopStep::Ignore);
    let other = job(Some(CodingAgent::OpenCode), None, None);
    assert_eq!(
        press("model", Some("m1"), &other),
        tell("Model `m1` is not valid for opencode name.")
    );
    let model = job(Some(CodingAgent::Codex), Some("m1"), None);
    assert_eq!(
        press("effort", Some("low"), &model),
        tell("Effort `low` is not valid for model `m1`.")
    );
    assert_eq!(press("effort", Some("high"), &other), DevelopStep::Ignore);
}

#[test]
fn back_gives_up_the_last_choice() {
    let full = job(Some(CodingAgent::Codex), Some("m1"), Some("high"));
    match press("back", None, &full) {
        DevelopStep::Choose {
            selection,
            stage,
            content,
            ..
        } => {
            assert_eq!(selection.effort, None);
            assert_eq!(selection.model, Some("m1".to_string()));
            assert_eq!(stage, DispatchStage::ChoosingEffort);
            assert!(content.contains("Model: `m1`"));
        }
        _ => unreachable!(),
    }
    match press("back", None, &job(Some(CodingAgent::Codex), Some("m1"), None)) {
        DevelopStep::Choose {
            selection, stage, ..
        } => {
            assert_eq!(selection.model, None);
            assert_eq!(stage, DispatchStage::ChoosingModel);
        }
        _ => unreachable!(),
    }
    match press("back", None, &job(Some(CodingAgent::Codex), None, None)) {
        DevelopStep::Choose {
            selection,
            stage,
            content,
            rows,
        } => {
            assert_eq!(selection.agent, None);
            assert_eq!(stage, DispatchStage::ChoosingAgent);
            assert_eq!(
                content,
                "**Feature development: Polls**\n\nChoose a coding agent to implement this feature:"
            );
            match &rows[0] {
                Row::Menu(menu) => {
                    assert_eq!(menu.entries.len(), 3);
                    assert_eq!(menu.entries[0].label, "Codex");
                    assert_eq!(menu.entries[0].value, "codex");
                    assert_eq!(menu.entries[2].label, "OpenCode (NVIDIA)");
                    assert_eq!(menu.entries[2].value, "opencode");
                    assert_eq!(menu.entries[1].label, "second menu");
                    assert_eq!(menu.entries[1].value, "second");
                }
                Row::Buttons(_) => unreachable!(),
            }
        }
        _ => unreachable!(),
    }
    assert_eq!(
        press("back", None, &job(None, None, None)),
        DevelopStep::Ignore
    );
}

#[test]
fn the_store_has_the_last_word() {
    assert!(configure_reply(JOB, "Polls", true, &catalog()).is_ok());
    assert_eq!(
        configure_reply(JOB, "Polls", false, &catalog()),
        Err("Cannot begin configuration from the current state.")
    );
    assert_eq!(
        reject_reply(2, true),
        Ok((
            "❌ Request rejected.",
            "<@2> Your automated development request was not approved by the bot owner."
                .to_string()
        ))
    );
    assert_eq!(
        reject_reply(2, false),
        Err("This request is no longer active.")
    );
    assert_eq!(
        start_develop_flow(JOB, None, &catalog()),
        ("Error: Development job not found.".to_string(), vec![])
    );
    assert_eq!(start_develop_flow(JOB, Some("Polls"), &catalog()).1.len(), 2);
}

#[test]
fn a_request_reaches_the_owner_or_is_given_up() {
    let asked = job(None, None, None);
    let next = |state| notify_owner_for_approval(state, JOB, Some(&asked), &catalog());
    let content = approval_text(&asked, &catalog());
    let rows = || develop_approval_components(JOB);
    assert_eq!(
        next(ApprovalState::Prepared { owner_id: 0 }),
        ApprovalAction::Nothing
    );
    assert_eq!(
        notify_owner_for_approval(
            ApprovalState::Prepared { owner_id: 1 },
            JOB,
            None,
            &catalog()
        ),
        ApprovalAction::Nothing
    );
    assert_eq!(
        next(ApprovalState::Prepared { owner_id: 1 }),
        ApprovalAction::SendToOwner {
            owner_id: 1,
            content: content.clone(),
            rows: rows()
        }
    );
    assert_eq!(
        next(ApprovalState::TriedOwner {
            sent: None,
            fallback_channel: 9
        }),
        ApprovalAction::SendToChannel {
            channel_id: 9,
            content,
            rows: rows()
        }
    );
    let given_up = ApprovalAction::GiveUp {
        reply: "I prepared the request, but I could not contact the owner for approval.",
    };
    assert_eq!(
        next(ApprovalState::TriedOwner {
            sent: None,
            fallback_channel: 0
        }),
        given_up
    );
    assert_eq!(next(ApprovalState::TriedChannel { sent: None }), given_up);
    let remembered = ApprovalAction::RememberMessage {
        channel_id: 5,
        message_id: 6,
    };
    assert_eq!(
        next(ApprovalState::TriedOwner {
            sent: Some((5, 6)),
            fallback_channel: 9
        }),
        remembered
    );
    assert_eq!(
        next(ApprovalState::TriedChannel { sent: Some((5, 6)) }),
        remembered
    );
    assert_eq!(
        approval_text(&job(None, None, None), &catalog()),
        "**Feature-development request from <@2>** (`al`)\n**Feature:** Polls\n**Objective:**\n> Add polls\n> with votes\n**Proposed configuration:**\nAgent: default | Model: `default` | Effort: `default`\n**Origin:** <#3>"
    );
    match &develop_approval_components(JOB)[0] {
        Row::Buttons(buttons) => assert_eq!(buttons.len(), 3),
        Row::Menu(_) => unreachable!(),
    }
}

// --------------------------------------------------------------------- dispatch

fn run(flow: Flow, events: Vec<DispatchEvent>) -> Vec<DispatchAction> {
    let approver = Approver {
        name: "owner".to_string(),
        id: 1,
    };
    let mut state = DispatchState::Starting;
    let mut actions = Vec::new();
    for event in events {
        let (next, action) = dispatch_step(flow, &approver, state, event, &catalog());
        state = next;
        actions.push(action);
    }
    actions
}

fn good() -> Vec<DispatchEvent> {
    let full = job(Some(CodingAgent::Codex), Some("m1"), Some("high"));
    vec![
        DispatchEvent::Started(true),
        DispatchEvent::Read(dispatch_job(&full)),
        DispatchEvent::Validated(Ok(())),
        DispatchEvent::Built(Ok("body".to_string())),
        DispatchEvent::Created(Some(CreatedIssue {
            number: 12,
            html_url: "http://i".to_string(),
        })),
    ]
}

#[test]
fn good_answers_set_the_job_off() {
    let actions = run(Flow::Approved, good());
    assert_eq!(
        actions[0],
        DispatchAction::ReadJob {
            word: Some("⏳ **Approving...** Creating GitHub issue...")
        }
    );
    assert_eq!(
        actions[2],
        DispatchAction::BuildBody {
            title: "Polls".to_string(),
            objective: "Add polls\nwith votes".to_string(),
            agent: CodingAgent::Codex,
            model: "m1".to_string(),
            effort: "high".to_string(),
            requester_name: "al".to_string(),
            requester_id: 2,
            approver_name: "owner".to_string(),
            approver_id: 1,
        }
    );
    assert_eq!(
        actions[3],
        DispatchAction::CreateIssue {
            agent: CodingAgent::Codex,
            title: "[agent:codex] Polls".to_string(),
            body: "body".to_string(),
        }
    );
    assert_eq!(
        actions[4],
        DispatchAction::MarkDispatched {
            reply: "✅ **Dispatched!**\nIssue #12 created: http://i\nAgent: **codex title** | Model: `m1` | Effort: `high`\nThe GitHub Actions workflow will pick this up and open a draft PR.".to_string(),
            notice: Some((
                3,
                "✅ <@2> The bot owner approved your development request. Development has started using codex title, `m1`, `high`.\nIssue: http://i".to_string()
            )),
        }
    );
    match &run(Flow::Direct, good())[2] {
        DispatchAction::BuildBody { approver_name, .. } => assert_eq!(approver_name, "al"),
        _ => unreachable!(),
    }
    match &run(Flow::Confirmed, good())[4] {
        DispatchAction::MarkDispatched { notice, .. } => assert!(notice.is_none()),
        _ => unreachable!(),
    }
}

#[test]
fn every_failure_is_noted_once() {
    let fails = |flow: Flow, at: usize, event: DispatchEvent| {
        let mut events = good();
        events.truncate(at);
        events.push(event);
        events.push(DispatchEvent::Created(None));
        let mut actions = run(flow, events);
        assert_eq!(actions.pop().unwrap(), DispatchAction::Nothing);
        actions.pop().unwrap()
    };
    let failed = |reply: &str| DispatchAction::MarkFailed {
        reply: reply.to_string(),
    };
    assert_eq!(
        fails(Flow::Direct, 0, DispatchEvent::Started(false)),
        DispatchAction::Refuse("❌ Failed to dispatch: job is not in a dispatchable state.")
    );
    assert_eq!(
        fails(Flow::Confirmed, 0, DispatchEvent::Started(false)),
        DispatchAction::Refuse("This job is already being dispatched or has been dispatched.")
    );
    assert_eq!(
        fails(Flow::Approved, 1, DispatchEvent::Read(None)),
        failed("❌ Failed: incomplete selection.")
    );
    assert_eq!(
        fails(
            Flow::Confirmed,
            2,
            DispatchEvent::Validated(Err("bad".to_string()))
        ),
        failed("❌ Configuration error: bad. Please start again.")
    );
    assert_eq!(
        fails(
            Flow::Direct,
            2,
            DispatchEvent::Validated(Err("bad".to_string()))
        ),
        failed("❌ Configuration error: bad")
    );
    assert_eq!(
        fails(Flow::Direct, 3, DispatchEvent::Built(Err("long".to_string()))),
        failed("❌ Failed to build issue body: long")
    );
    assert_eq!(
        fails(Flow::Approved, 4, DispatchEvent::Created(None)),
        failed("❌ Failed to create GitHub issue. The job has been reset — click Start Work to retry.")
    );
}

#[test]
fn an_incomplete_choice_is_not_set_off() {
    assert!(dispatch_job(&job(Some(CodingAgent::Codex), Some("m1"), None)).is_none());
    assert!(dispatch_job(&job(None, Some("m1"), Some("high"))).is_none());
}

// ------------------------------------------------------------------- pagination

#[test]
fn page_identifiers_are_read_back() {
    assert_eq!(
        parse_page_id("housebot_labs_page:ab:cd:7"),
        Some(("ab:cd", 7))
    );
    assert_eq!(parse_page_id("housebot_labs_page:ab:x"), None);
    assert_eq!(parse_page_id("housebot_labs_page:7"), None);
    assert_eq!(parse_page_id("other:ab:7"), None);
}

#[test]
fn pages_are_turned_by_their_author() {
    let text = format!("{}\n{}", "a".repeat(4096), "b".repeat(10));
    let (token, response, first) =
        match final_message(&text, true, 5, "tok".to_string()) {
            FinalMessage::Pages {
                token,
                response,
                first,
            } => (token, response, first),
            FinalMessage::Chunks(_) => unreachable!(),
        };
    assert_eq!(response.pages.len(), 2);
    assert_eq!(first.footer, "Page 1 of 2");
    let next = match &first.rows[0] {
        Row::Buttons(buttons) => {
            assert!(buttons[0].disabled);
            assert!(!buttons[1].disabled);
            buttons[1].custom_id.clone()
        }
        Row::Menu(_) => unreachable!(),
    };
    let (named, page) = parse_page_id(&next).unwrap();
    assert_eq!((named, page), (token.as_str(), 1));
    match handle_pagination_component(named, page, Some(&response), 5) {
        PageStep::Show(view) => {
            assert_eq!(view.description, response.pages[1]);
            assert_eq!(view.footer, "Page 2 of 2");
        }
        PageStep::Tell(_) => unreachable!(),
    }
    let author_only = "Only the response author can use these buttons.";
    assert_eq!(
        handle_pagination_component(named, page, Some(&response), 6),
        PageStep::Tell(author_only)
    );
    assert_eq!(
        handle_pagination_component(named, 2, Some(&response), 5),
        PageStep::Tell(author_only)
    );
    assert_eq!(
        handle_pagination_component(named, 0, None, 5),
        PageStep::Tell("This paginated response has expired.")
    );
}

#[test]
fn answers_go_out_in_chunks_or_under_a_fresh_token() {
    match send_final_message(&"x".repeat(2500), false, 5) {
        FinalMessage::Chunks(chunks) => assert_eq!(chunks.len(), 2),
        FinalMessage::Pages { .. } => unreachable!(),
    }
    let token = |message: FinalMessage| match message {
        FinalMessage::Pages { token, .. } => token,
        FinalMessage::Chunks(_) => unreachable!(),
    };
    let a = token(send_final_message("x", true, 5));
    let b = token(send_final_message("x", true, 5));
    assert_eq!(a.len(), 32);
    assert!(a.chars().all(|c| c.is_ascii_hexdigit()));
    assert_ne!(a, b);
    assert_eq!(chunk_sending(0, true), Sending::Edited);
    assert_eq!(chunk_sending(0, false), Sending::Reply);
    assert_eq!(chunk_sending(1, true), Sending::Say);
}

#[test]
fn agents_are_found_by_the_value_of_their_entry() {
    let catalog = catalog();
    for agent in [CodingAgent::Codex, CodingAgent::Claude, CodingAgent::OpenCode] {
        assert_eq!(catalog.find_agent(catalog.id_str(agent)), Some(agent));
    }
    assert_eq!(catalog.id_str(CodingAgent::OpenCode), "opencode");
    assert_eq!(catalog.find_agent("Codex"), None);
}
