//! The way of a message from its prompt to what is sent.
use crate::answer::{answer_files, answer_text, prepare_answer};
use crate::formatting::file_texts;
use crate::profile::{action_list, learned, tag_list, Profile, UserProfile};
use crate::redaction::SecretRedactor;
use crate::routing::{recording, TOO_QUICK};
use crate::text::{opt_text, texts};
use crate::user_config::{ThinkingMode, UserConfig, UserSettings};
use vstd::prelude::*;

verus! {

/// What is known of a message that is to be answered: whether its conversation had
/// ended, whether nobody asked for the answer, and how long the conversation is to
/// stay open.
#[derive(Clone, Copy, Debug, PartialEq, Eq, Structural)]
pub struct AnswerFlow {
    pub session_expired: bool,
    pub proactive: bool,
    pub followup_timeout_secs: u64,
}

/// What the model wants done with a job in place of an answer.
#[derive(Clone, Copy, Debug, PartialEq, Eq, Structural)]
pub enum ControlAction {
    OwnerDispatchReady(u128),
    OwnerConfigurationRequired(u128),
    OwnerApprovalRequired(u128),
}

/// What the model answered.
#[derive(Debug, PartialEq, Eq)]
pub struct ModelReply {
    pub text: String,
    pub tools_called: Vec<String>,
    pub session_notice: Option<String>,
    pub control_action: Option<ControlAction>,
}

/// What the model answered, as values.
pub struct ReplyData {
    pub text: Seq<char>,
    pub tools_called: Seq<Seq<char>>,
    pub session_notice: Option<Seq<char>>,
    pub control_action: Option<ControlAction>,
}

impl View for ModelReply {
    type V = ReplyData;

    open spec fn view(&self) -> ReplyData {
        ReplyData {
            text: self.text@,
            tools_called: texts(self.tools_called@),
            session_notice: opt_text(self.session_notice),
            control_action: self.control_action,
        }
    }
}

/// How far answering a message is. The prompt and the user's settings are kept as
/// long as they are needed.
#[derive(Debug, PartialEq, Eq)]
pub enum AnswerState {
    Starting,
    Limiting(String),
    Loading(String),
    Compacting(String, UserConfig),
    Preparing(String, UserConfig),
    Asking { paginate: bool },
    Marking { paginate: bool, reply: ModelReply },
    Done,
}

/// How far answering a message is, as values.
pub enum AnswerStateText {
    Starting,
    Limiting(Seq<char>),
    Loading(Seq<char>),
    Compacting(Seq<char>, UserSettings),
    Preparing(Seq<char>, UserSettings),
    Asking { paginate: bool },
    Marking { paginate: bool, reply: ReplyData },
    Done,
}

impl View for AnswerState {
    type V = AnswerStateText;

    open spec fn view(&self) -> AnswerStateText {
        match *self {
            AnswerState::Starting => AnswerStateText::Starting,
            AnswerState::Limiting(text) => AnswerStateText::Limiting(text@),
            AnswerState::Loading(text) => AnswerStateText::Loading(text@),
            AnswerState::Compacting(text, user) => AnswerStateText::Compacting(text@, user@),
            AnswerState::Preparing(text, user) => AnswerStateText::Preparing(text@, user@),
            AnswerState::Asking { paginate } => AnswerStateText::Asking { paginate },
            AnswerState::Marking { paginate, reply } => AnswerStateText::Marking {
                paginate,
                reply: reply@,
            },
            AnswerState::Done => AnswerStateText::Done,
        }
    }
}

/// What came back: what the model is to be asked, whether the user writes too
/// quickly, the user's settings, that the old session is compacted, that all is
/// prepared, with the user's profile, the model's reply, and that the conversation
/// is marked.
#[derive(Debug, PartialEq, Eq)]
pub enum AnswerEvent {
    Prompted(Option<String>),
    Limited(bool),
    Loaded(UserConfig),
    Compacted,
    Prepared(UserProfile),
    Answered(ModelReply),
    Marked,
}

/// What is to be done: to find out whether the user writes too quickly, to tell the
/// user something, to load the user's settings, to compact the old session, to
/// prepare (log the prompt, show that work is under way, and bring the profile up
/// to date), to ask the model, to keep the conversation open, to carry out what the
/// model wants done, or to send the answer.
#[derive(Debug, PartialEq, Eq)]
pub enum AnswerAction {
    Nothing,
    CheckLimit,
    Tell(&'static str),
    LoadUser,
    Compact { deep_memory: bool },
    Prepare { logged: String },
    Ask {
        text: String,
        personality: Option<String>,
        thinking: ThinkingMode,
        deep_memory: bool,
        record_usage: bool,
        proactive: bool,
        profile: UserProfile,
        profile_tags: String,
        quick_actions: String,
    },
    MarkActive { timeout_secs: u64 },
    Control(ControlAction),
    Send {
        notice: Option<String>,
        text: String,
        paginate: bool,
        files: Vec<(String, String)>,
    },
}

/// An action as values.
pub enum AnswerActionText {
    Nothing,
    CheckLimit,
    Tell(Seq<char>),
    LoadUser,
    Compact { deep_memory: bool },
    Prepare { logged: Seq<char> },
    Ask {
        text: Seq<char>,
        personality: Option<Seq<char>>,
        thinking: ThinkingMode,
        deep_memory: bool,
        record_usage: bool,
        proactive: bool,
        profile: Profile,
        profile_tags: Seq<char>,
        quick_actions: Seq<char>,
    },
    MarkActive { timeout_secs: u64 },
    Control(ControlAction),
    Send {
        notice: Option<Seq<char>>,
        text: Seq<char>,
        paginate: bool,
        files: Seq<(Seq<char>, Seq<char>)>,
    },
}

impl View for AnswerAction {
    type V = AnswerActionText;

    open spec fn view(&self) -> AnswerActionText {
        match *self {
            AnswerAction::Nothing => AnswerActionText::Nothing,
            AnswerAction::CheckLimit => AnswerActionText::CheckLimit,
            AnswerAction::Tell(text) => AnswerActionText::Tell(text@),
            AnswerAction::LoadUser => AnswerActionText::LoadUser,
            AnswerAction::Compact { deep_memory } => AnswerActionText::Compact { deep_memory },
            AnswerAction::Prepare { logged } => AnswerActionText::Prepare { logged: logged@ },
            AnswerAction::Ask {
                text,
                personality,
                thinking,
                deep_memory,
                record_usage,
                proactive,
                profile,
                profile_tags,
                quick_actions,
            } => AnswerActionText::Ask {
                text: text@,
                personality: opt_text(personality),
                thinking,
                deep_memory,
                record_usage,
                proactive,
                profile: profile@,
                profile_tags: profile_tags@,
                quick_actions: quick_actions@,
            },
            AnswerAction::MarkActive { timeout_secs } => AnswerActionText::MarkActive {
                timeout_secs,
            },
            AnswerAction::Control(action) => AnswerActionText::Control(action),
            AnswerAction::Send { notice, text, paginate, files } => AnswerActionText::Send {
                notice: opt_text(notice),
                text: text@,
                paginate,
                files: file_texts(files@),
            },
        }
    }
}

/// The user's settings are there: an old session that had ended is compacted first.
pub open spec fn after_loading(flow: AnswerFlow, text: Seq<char>, user: UserSettings) -> (
    AnswerStateText,
    AnswerActionText,
) {
    if flow.session_expired {
        (
            AnswerStateText::Compacting(text, user),
            AnswerActionText::Compact { deep_memory: user.deep_memory_enabled },
        )
    } else {
        (AnswerStateText::Preparing(text, user), AnswerActionText::Prepare { logged: text })
    }
}

/// All is prepared: the model is asked. Of a word that nobody asked for the bot
/// learns nothing.
pub open spec fn after_preparing(
    flow: AnswerFlow,
    text: Seq<char>,
    user: UserSettings,
    profile: Profile,
) -> (AnswerStateText, AnswerActionText) {
    (
        AnswerStateText::Asking { paginate: user.labs_pagination_enabled },
        AnswerActionText::Ask {
            text,
            personality: user.personality,
            thinking: user.thinking_mode,
            deep_memory: user.deep_memory_enabled && !flow.proactive,
            record_usage: !flow.proactive,
            proactive: flow.proactive,
            profile,
            profile_tags: tag_list(profile),
            quick_actions: action_list(profile),
        },
    )
}

/// The conversation is marked: what the model wants done is carried out, else its
/// answer is sent, with secrets left out.
pub open spec fn after_marking(paginate: bool, reply: ReplyData, secrets: Seq<Seq<char>>) -> (
    AnswerStateText,
    AnswerActionText,
) {
    (
        AnswerStateText::Done,
        match reply.control_action {
            Some(action) => AnswerActionText::Control(action),
            None => AnswerActionText::Send {
                notice: reply.session_notice,
                text: answer_text(reply.text, reply.tools_called, secrets),
                paginate,
                files: answer_files(reply.text, reply.tools_called, secrets),
            },
        },
    )
}

/// What comes next. What does not fit the state changes nothing.
pub open spec fn next_answer(
    flow: AnswerFlow,
    state: AnswerStateText,
    event: AnswerEvent,
    secrets: Seq<Seq<char>>,
) -> (AnswerStateText, AnswerActionText) {
    match (state, event) {
        (AnswerStateText::Starting, AnswerEvent::Prompted(text)) => match text {
            None => (AnswerStateText::Done, AnswerActionText::Nothing),
            Some(text) => (AnswerStateText::Limiting(text@), AnswerActionText::CheckLimit),
        },
        (AnswerStateText::Limiting(text), AnswerEvent::Limited(limited)) => if limited {
            (AnswerStateText::Done, AnswerActionText::Tell(TOO_QUICK@))
        } else {
            (AnswerStateText::Loading(text), AnswerActionText::LoadUser)
        },
        (AnswerStateText::Loading(text), AnswerEvent::Loaded(user)) => after_loading(
            flow,
            text,
            user@,
        ),
        (AnswerStateText::Compacting(text, user), AnswerEvent::Compacted) => (
            AnswerStateText::Preparing(text, user),
            AnswerActionText::Prepare { logged: text },
        ),
        (AnswerStateText::Preparing(text, user), AnswerEvent::Prepared(profile)) => after_preparing(
            flow,
            text,
            user,
            profile@,
        ),
        (AnswerStateText::Asking { paginate }, AnswerEvent::Answered(reply)) => (
            AnswerStateText::Marking { paginate, reply: reply@ },
            AnswerActionText::MarkActive { timeout_secs: flow.followup_timeout_secs },
        ),
        (AnswerStateText::Marking { paginate, reply }, AnswerEvent::Marked) => after_marking(
            paginate,
            reply,
            secrets,
        ),
        _ => (state, AnswerActionText::Nothing),
    }
}

/// The user's settings are there.
fn on_loaded(flow: AnswerFlow, text: String, user: UserConfig) -> (r: (AnswerState, AnswerAction))
    ensures
        (r.0@, r.1@) == after_loading(flow, text@, user@),
{
    if flow.session_expired {
        let deep_memory = user.deep_memory_enabled;
        (AnswerState::Compacting(text, user), AnswerAction::Compact { deep_memory })
    } else {
        on_compacted(text, user)
    }
}

/// No old session is left.
fn on_compacted(text: String, user: UserConfig) -> (r: (AnswerState, AnswerAction))
    ensures
        r.0@ == AnswerStateText::Preparing(text@, user@),
        r.1@ == (AnswerActionText::Prepare { logged: text@ }),
{
    let logged = text.as_str().to_owned();
    (AnswerState::Preparing(text, user), AnswerAction::Prepare { logged })
}

/// All is prepared.
fn on_prepared(flow: AnswerFlow, text: String, user: UserConfig, profile: UserProfile) -> (r: (
    AnswerState,
    AnswerAction,
))
    ensures
        (r.0@, r.1@) == after_preparing(flow, text@, user@, profile@),
{
    let recorded = recording(user.deep_memory_enabled, flow.proactive);
    let (profile_tags, quick_actions) = learned(&profile);
    let paginate = user.labs_pagination_enabled;
    (
        AnswerState::Asking { paginate },
        AnswerAction::Ask {
            text,
            personality: user.personality,
            thinking: user.thinking_mode,
            deep_memory: recorded.deep_memory,
            record_usage: recorded.profile_usage,
            proactive: flow.proactive,
            profile,
            profile_tags,
            quick_actions,
        },
    )
}

/// The conversation is marked.
fn on_marked(paginate: bool, reply: ModelReply, redactor: &SecretRedactor) -> (r: (
    AnswerState,
    AnswerAction,
))
    requires
        redactor.well_formed(),
    ensures
        (r.0@, r.1@) == after_marking(paginate, reply@, redactor@),
{
    match reply.control_action {
        Some(action) => (AnswerState::Done, AnswerAction::Control(action)),
        None => {
            let prepared = prepare_answer(reply.text.as_str(), &reply.tools_called, redactor);
            (
                AnswerState::Done,
                AnswerAction::Send {
                    notice: reply.session_notice,
                    text: prepared.text,
                    paginate,
                    files: prepared.files,
                },
            )
        },
    }
}

/// What comes next on the way to an answer. What does not fit the state changes
/// nothing.
pub fn answer_step(
    flow: AnswerFlow,
    state: AnswerState,
    event: AnswerEvent,
    redactor: &SecretRedactor,
) -> (r: (AnswerState, AnswerAction))
    requires
        redactor.well_formed(),
    ensures
        (r.0@, r.1@) == next_answer(flow, state@, event, redactor@),
{
    match (state, event) {
        (AnswerState::Starting, AnswerEvent::Prompted(text)) => match text {
            None => (AnswerState::Done, AnswerAction::Nothing),
            Some(text) => (AnswerState::Limiting(text), AnswerAction::CheckLimit),
        },
        (AnswerState::Limiting(text), AnswerEvent::Limited(limited)) => if limited {
            (AnswerState::Done, AnswerAction::Tell(TOO_QUICK))
        } else {
            (AnswerState::Loading(text), AnswerAction::LoadUser)
        },
        (AnswerState::Loading(text), AnswerEvent::Loaded(user)) => on_loaded(flow, text, user),
        (AnswerState::Compacting(text, user), AnswerEvent::Compacted) => on_compacted(text, user),
        (AnswerState::Preparing(text, user), AnswerEvent::Prepared(profile)) => on_prepared(
            flow,
            text,
            user,
            profile,
        ),
        (AnswerState::Asking { paginate }, AnswerEvent::Answered(reply)) => (
            AnswerState::Marking { paginate, reply },
            AnswerAction::MarkActive { timeout_secs: flow.followup_timeout_secs },
        ),
        (AnswerState::Marking { paginate, reply }, AnswerEvent::Marked) => on_marked(
            paginate,
            reply,
            redactor,
        ),
        (state, _) => (state, AnswerAction::Nothing),
    }
}

// ----------------------------------------------------------------------- laws

/// A user who writes too quickly is told so, and nothing else is done.
pub proof fn law_limited_users_are_only_told(
    flow: AnswerFlow,
    text: Seq<char>,
    secrets: Seq<Seq<char>>,
    later: AnswerEvent,
)
    ensures
        next_answer(flow, AnswerStateText::Limiting(text), AnswerEvent::Limited(true), secrets) == (
            AnswerStateText::Done,
            AnswerActionText::Tell(TOO_QUICK@),
        ),
        TOO_QUICK@
            == "⏱️ You're sending messages too quickly. Please slow down and try again in a moment."@,
        next_answer(flow, AnswerStateText::Done, later, secrets) == (
            AnswerStateText::Done,
            AnswerActionText::Nothing,
        ),
{
}

/// A session is compacted exactly where it had ended, once the user's settings are
/// there and before the model is asked.
pub proof fn law_ended_sessions_are_compacted(
    flow: AnswerFlow,
    state: AnswerStateText,
    event: AnswerEvent,
    secrets: Seq<Seq<char>>,
)
    ensures
        next_answer(flow, state, event, secrets).1 is Compact <==> (flow.session_expired
            && state is Loading && event is Loaded),
        next_answer(flow, state, event, secrets).1 is Ask ==> state is Preparing,
        next_answer(flow, state, event, secrets).0 is Preparing && !(state is Preparing) ==> (if
        flow.session_expired {
            state is Compacting
        } else {
            state is Loading || state is Compacting
        }),
{
}

/// Whatever the model replied, the conversation is kept open before anything is
/// sent or done about it.
pub proof fn law_conversations_stay_open_after_an_answer(
    flow: AnswerFlow,
    state: AnswerStateText,
    event: AnswerEvent,
    secrets: Seq<Seq<char>>,
)
    ensures
        ({
            let (after, action) = next_answer(flow, state, event, secrets);
            &&& (action is Send || action is Control) ==> state is Marking && after is Done
            &&& after is Marking && !(state is Marking) ==> action == (
            AnswerActionText::MarkActive { timeout_secs: flow.followup_timeout_secs })
            &&& action is MarkActive <==> state is Asking && event is Answered
        }),
{
}

/// What the model wants done takes the place of its text, which is then not sent.
pub proof fn law_control_replaces_the_text(
    flow: AnswerFlow,
    paginate: bool,
    reply: ReplyData,
    secrets: Seq<Seq<char>>,
)
    ensures
        ({
            let action = next_answer(
                flow,
                AnswerStateText::Marking { paginate, reply },
                AnswerEvent::Marked,
                secrets,
            ).1;
            match reply.control_action {
                Some(wanted) => action == AnswerActionText::Control(wanted),
                None => action matches AnswerActionText::Send { text, .. } && text == answer_text(
                    reply.text,
                    reply.tools_called,
                    secrets,
                ),
            }
        }),
{
}

/// The state and the last action after a series of events.
pub open spec fn answered_after(
    flow: AnswerFlow,
    events: Seq<AnswerEvent>,
    secrets: Seq<Seq<char>>,
) -> (AnswerStateText, AnswerActionText)
    decreases events.len(),
{
    if events.len() == 0 {
        (AnswerStateText::Starting, AnswerActionText::Nothing)
    } else {
        next_answer(
            flow,
            answered_after(flow, events.drop_last(), secrets).0,
            events.last(),
            secrets,
        )
    }
}

/// What happens on the way to an answer of a user who does not write too quickly.
pub open spec fn usual_events(
    flow: AnswerFlow,
    text: String,
    user: UserConfig,
    profile: UserProfile,
    reply: ModelReply,
) -> Seq<AnswerEvent> {
    seq![
        AnswerEvent::Prompted(Some(text)),
        AnswerEvent::Limited(false),
        AnswerEvent::Loaded(user),
    ] + (if flow.session_expired {
        seq![AnswerEvent::Compacted]
    } else {
        seq![]
    }) + seq![AnswerEvent::Prepared(profile), AnswerEvent::Answered(reply), AnswerEvent::Marked]
}

/// A user who does not write too quickly gets what the model replied, on pages
/// where the user wants pages.
pub proof fn law_replies_are_passed_on(
    flow: AnswerFlow,
    text: String,
    user: UserConfig,
    profile: UserProfile,
    reply: ModelReply,
    secrets: Seq<Seq<char>>,
)
    ensures
        answered_after(flow, usual_events(flow, text, user, profile, reply), secrets)
            == after_marking(user.labs_pagination_enabled, reply@, secrets),
{
    reveal_with_fuel(answered_after, 8);
    let e = usual_events(flow, text, user, profile, reply);
    let a = e.drop_last();
    let b = a.drop_last();
    let c = b.drop_last();
    assert(e.last() == AnswerEvent::Marked);
    assert(a.last() == AnswerEvent::Answered(reply));
    assert(b.last() == AnswerEvent::Prepared(profile));
    let loaded = if flow.session_expired {
        assert(c.last() == AnswerEvent::Compacted);
        c.drop_last()
    } else {
        c
    };
    assert(loaded.last() == AnswerEvent::Loaded(user));
    assert(loaded.drop_last().last() == AnswerEvent::Limited(false));
    assert(loaded.drop_last().drop_last().last() == AnswerEvent::Prompted(Some(text)));
    assert(loaded.drop_last().drop_last().drop_last() =~= Seq::empty());
}

/// The state and the last action after one more event.
proof fn lemma_one_more(
    flow: AnswerFlow,
    events: Seq<AnswerEvent>,
    event: AnswerEvent,
    secrets: Seq<Seq<char>>,
)
    ensures
        answered_after(flow, events.push(event), secrets) == next_answer(
            flow,
            answered_after(flow, events, secrets).0,
            event,
            secrets,
        ),
{
    assert(events.push(event).drop_last() =~= events);
}

/// What was written comes to the model as it was written, with the personality and
/// the effort that the user has set and with what is known of the user; of a word
/// that nobody asked for nothing is remembered or recorded. Before that the prompt
/// goes to the log, and a session that had ended is compacted, into the memory where
/// the user wants one.
pub proof fn law_the_model_is_asked_what_was_written(
    flow: AnswerFlow,
    text: String,
    user: UserConfig,
    profile: UserProfile,
    secrets: Seq<Seq<char>>,
)
    ensures
        ({
            let start = seq![
                AnswerEvent::Prompted(Some(text)),
                AnswerEvent::Limited(false),
                AnswerEvent::Loaded(user),
            ];
            let ready = if flow.session_expired {
                start.push(AnswerEvent::Compacted)
            } else {
                start
            };
            &&& flow.session_expired ==> answered_after(flow, start, secrets).1 == (
            AnswerActionText::Compact { deep_memory: user.deep_memory_enabled })
            &&& answered_after(flow, ready, secrets).1 == (AnswerActionText::Prepare {
                logged: text@,
            })
            &&& answered_after(
                flow,
                ready.push(AnswerEvent::Prepared(profile)),
                secrets,
            ).1 matches AnswerActionText::Ask {
                text: asked,
                personality,
                thinking,
                deep_memory,
                record_usage,
                proactive,
                profile: known,
                profile_tags,
                quick_actions,
            } && {
                &&& asked == text@
                &&& personality == opt_text(user.personality)
                &&& thinking == user.thinking_mode
                &&& deep_memory == (user.deep_memory_enabled && !flow.proactive)
                &&& record_usage == !flow.proactive
                &&& proactive == flow.proactive
                &&& known == profile@
                &&& profile_tags == tag_list(profile@)
                &&& quick_actions == action_list(profile@)
            }
        }),
{
    let e = Seq::<AnswerEvent>::empty();
    let a = e.push(AnswerEvent::Prompted(Some(text)));
    let b = a.push(AnswerEvent::Limited(false));
    let start = b.push(AnswerEvent::Loaded(user));
    assert(start =~= seq![
        AnswerEvent::Prompted(Some(text)),
        AnswerEvent::Limited(false),
        AnswerEvent::Loaded(user),
    ]);
    lemma_one_more(flow, e, AnswerEvent::Prompted(Some(text)), secrets);
    lemma_one_more(flow, a, AnswerEvent::Limited(false), secrets);
    lemma_one_more(flow, b, AnswerEvent::Loaded(user), secrets);
    lemma_one_more(flow, start, AnswerEvent::Compacted, secrets);
    let ready = if flow.session_expired {
        start.push(AnswerEvent::Compacted)
    } else {
        start
    };
    lemma_one_more(flow, ready, AnswerEvent::Prepared(profile), secrets);
}

/// Once the conversation is marked, what is sent is what the model answered: its
/// notice, and its text and code with secrets left out and tools named, on pages where
/// the user wants pages; or what it wants done, where it wants that.
pub proof fn law_what_is_sent_of_a_reply(
    flow: AnswerFlow,
    paginate: bool,
    reply: ModelReply,
    secrets: Seq<Seq<char>>,
)
    ensures
        ({
            let (after, action) = next_answer(
                flow,
                AnswerStateText::Marking { paginate, reply: reply@ },
                AnswerEvent::Marked,
                secrets,
            );
            &&& after is Done
            &&& reply.control_action matches Some(wanted) ==> action == AnswerActionText::Control(
                wanted,
            )
            &&& reply.control_action is None ==> action == (AnswerActionText::Send {
                notice: opt_text(reply.session_notice),
                text: answer_text(reply.text@, texts(reply.tools_called@), secrets),
                paginate,
                files: answer_files(reply.text@, texts(reply.tools_called@), secrets),
            })
        }),
{
}

/// A message with nothing to ask about is not answered at all.
pub proof fn law_nothing_is_asked_of_nothing(flow: AnswerFlow, secrets: Seq<Seq<char>>)
    ensures
        next_answer(flow, AnswerStateText::Starting, AnswerEvent::Prompted(None), secrets) == (
            AnswerStateText::Done,
            AnswerActionText::Nothing,
        ),
{
}

/// What the model answered, what is to be done and how far it is are taken as what
/// they are, with what they hold.
pub proof fn law_answer_actions_are_what_they_hold(
    reply: ModelReply,
    action: AnswerAction,
    state: AnswerState,
)
    ensures
        reply@.text == reply.text@,
        reply@.tools_called == texts(reply.tools_called@),
        reply@.session_notice == opt_text(reply.session_notice),
        reply@.control_action == reply.control_action,
        action is Nothing <==> action@ is Nothing,
        action is CheckLimit <==> action@ is CheckLimit,
        action is LoadUser <==> action@ is LoadUser,
        action matches AnswerAction::Tell(text) ==> action@ == AnswerActionText::Tell(text@),
        action matches AnswerAction::Compact { deep_memory } ==> action@ == (
        AnswerActionText::Compact { deep_memory }),
        action matches AnswerAction::Prepare { logged } ==> action@ == (AnswerActionText::Prepare {
            logged: logged@,
        }),
        action matches AnswerAction::MarkActive { timeout_secs } ==> action@ == (
        AnswerActionText::MarkActive { timeout_secs }),
        action matches AnswerAction::Control(wanted) ==> action@ == AnswerActionText::Control(
            wanted,
        ),
        action matches AnswerAction::Send { notice, text, paginate, files } ==> action@ == (
        AnswerActionText::Send {
            notice: opt_text(notice),
            text: text@,
            paginate,
            files: file_texts(files@),
        }),
        action matches AnswerAction::Ask {
            text,
            personality,
            thinking,
            deep_memory,
            record_usage,
            proactive,
            profile,
            profile_tags,
            quick_actions,
        } ==> action@ == (AnswerActionText::Ask {
            text: text@,
            personality: opt_text(personality),
            thinking,
            deep_memory,
            record_usage,
            proactive,
            profile: profile@,
            profile_tags: profile_tags@,
            quick_actions: quick_actions@,
        }),
        state is Starting <==> state@ is Starting,
        state is Done <==> state@ is Done,
        state matches AnswerState::Limiting(text) ==> state@ == AnswerStateText::Limiting(text@),
        state matches AnswerState::Loading(text) ==> state@ == AnswerStateText::Loading(text@),
        state matches AnswerState::Compacting(text, user) ==> state@
            == AnswerStateText::Compacting(text@, user@),
        state matches AnswerState::Preparing(text, user) ==> state@ == AnswerStateText::Preparing(
            text@,
            user@,
        ),
        state matches AnswerState::Asking { paginate } ==> state@ == (AnswerStateText::Asking {
            paginate,
        }),
        state matches AnswerState::Marking { paginate, reply } ==> state@ == (
        AnswerStateText::Marking { paginate, reply: reply@ }),
{
}

} // verus!
