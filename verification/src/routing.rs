//! What is done with a message or a command that came in.
use crate::clock::{Duration, Instant};
use crate::conversation::{
    cooled_down, known, open_at, over_at, ConversationTracker, Conversations, Cooldowns,
    HandledMessages, MessageGate,
};
use crate::develop::DEVELOP_PREFIX;
use crate::options::{find_text, text_option, CommandOption};
use crate::profile::{called, UserProfile};
use crate::redaction::{
    distinct, law_ordinary_secrets_are_distinct, law_redacted_texts_hold_no_secret, ordinary,
    redacted, SecretRedactor,
};
use crate::replies::{
    clear_of_frame, command_parts, format_lua_reply, is_proactive_candidate,
    law_framing_adds_the_frame_only, law_ordinary_secrets_are_clear_of_the_frame,
    looks_like_request, lua_reply, new_conversation_reply, split_command,
};
use crate::text::{
    begins, has_text, is_white_space, law_trimming_keeps_a_start, same_text, starts_with, trim,
    trimmed,
};
use crate::user_config::{channel_allowed, ServerConfig, UserConfig, UserSettings};
use vstd::prelude::*;

verus! {

// ------------------------------------------------------------ message commands

/// What a message asks for by its first word. Skills and notes come with their
/// command line and what follows it.
#[derive(Debug, PartialEq, Eq)]
pub enum MessageCommand {
    New,
    Compact,
    Skill(String, String),
    Note(String, String),
    Stats,
    Talk,
}

/// What a message asks for, as values.
pub enum Request {
    New,
    Compact,
    Skill((Seq<char>, Seq<char>)),
    Note((Seq<char>, Seq<char>)),
    Stats,
    Talk,
}

impl View for MessageCommand {
    type V = Request;

    open spec fn view(&self) -> Request {
        match *self {
            MessageCommand::New => Request::New,
            MessageCommand::Compact => Request::Compact,
            MessageCommand::Skill(first, rest) => Request::Skill((first@, rest@)),
            MessageCommand::Note(first, rest) => Request::Note((first@, rest@)),
            MessageCommand::Stats => Request::Stats,
            MessageCommand::Talk => Request::Talk,
        }
    }
}

/// What a message asks for.
pub open spec fn requested(content: Seq<char>) -> Request {
    let word = trimmed(content);
    if word == "!reset"@ || word == "!new"@ {
        Request::New
    } else if word == "!compact"@ {
        Request::Compact
    } else if begins(content, "!skill"@) {
        Request::Skill(command_parts(content))
    } else if begins(content, "!note"@) {
        Request::Note(command_parts(content))
    } else if word == "!stats"@ {
        Request::Stats
    } else {
        Request::Talk
    }
}

/// What a message asks for.
pub fn message_command(content: &str) -> (r: MessageCommand)
    ensures
        r@ == requested(content@),
{
    let word = trim(content);
    if same_text(word, "!reset") || same_text(word, "!new") {
        MessageCommand::New
    } else if same_text(word, "!compact") {
        MessageCommand::Compact
    } else if starts_with(content, "!skill") {
        let (first, rest) = split_command(content);
        MessageCommand::Skill(first, rest)
    } else if starts_with(content, "!note") {
        let (first, rest) = split_command(content);
        MessageCommand::Note(first, rest)
    } else if same_text(word, "!stats") {
        MessageCommand::Stats
    } else {
        MessageCommand::Talk
    }
}

/// What a message asks for; nothing where a bot wrote it.
pub fn incoming_command(author_is_bot: bool, content: &str) -> (r: Option<MessageCommand>)
    ensures
        r is None <==> author_is_bot,
        r matches Some(command) ==> command@ == requested(content@),
{
    if author_is_bot {
        None
    } else {
        Some(message_command(content))
    }
}

// ---------------------------------------------------------------------- routing

/// A message that is no command.
#[derive(Debug, PartialEq, Eq)]
pub struct Incoming {
    pub author_is_bot: bool,
    pub message_id: u64,
    pub channel_id: u64,
    pub user_id: u64,
    pub content: String,
    pub mentions_bot: bool,
    pub replies_to_bot: bool,
    pub replies_to_media: bool,
}

/// What is done with a message.
#[derive(Clone, Copy, Debug, PartialEq, Eq, Structural)]
pub enum Route {
    Ignored,
    NotAllowed,
    Quiet,
    Duplicate,
    Answer { session_expired: bool, proactive: bool },
}

/// Does a conversation without mentions go on here? In a direct message always;
/// in a server where the user wants it and the channel is listed.
pub open spec fn follows_up(
    listed: Option<Seq<u64>>,
    channel_id: u64,
    user: UserSettings,
) -> bool {
    match listed {
        None => true,
        Some(listed) => user.followup_enabled && listed.contains(channel_id),
    }
}

/// Is the conversation of a message going on?
pub open spec fn ongoing(
    m: Incoming,
    listed: Option<Seq<u64>>,
    user: UserSettings,
    c: Conversations,
    now: Instant,
) -> bool {
    follows_up(listed, m.channel_id, user) && open_at(c, m.channel_id, m.user_id, now)
}

/// Was there a conversation whose window is over?
pub open spec fn ended(
    m: Incoming,
    listed: Option<Seq<u64>>,
    user: UserSettings,
    c: Conversations,
    now: Instant,
) -> bool {
    !ongoing(m, listed, user, c, now) && over_at(c, m.channel_id, m.user_id, now)
}

/// Is a message addressed to the bot?
pub open spec fn addressed(m: Incoming, listed: Option<Seq<u64>>) -> bool {
    listed is None || m.mentions_bot || m.replies_to_bot || m.replies_to_media
}

/// Does the bot speak up, though nobody asked it?
pub open spec fn speaks_up(
    m: Incoming,
    listed: Option<Seq<u64>>,
    user: UserSettings,
    last: Map<(u64, u64), Instant>,
    now: Instant,
    cooldown: Duration,
) -> bool {
    !addressed(m, listed) && user.proactive_assistance_enabled && looks_like_request(m.content@)
        && cooled_down(last, m.channel_id, m.user_id, now, cooldown)
}

/// May the bot answer where the message was written?
pub open spec fn allowed_here(m: Incoming, listed: Option<Seq<u64>>) -> bool {
    match listed {
        None => true,
        Some(listed) => channel_allowed(listed, m.channel_id),
    }
}

/// What is done with a message, given the channels that its server lists; none
/// are given for a direct message. What bots write is ignored.
pub open spec fn routed(
    m: Incoming,
    listed: Option<Seq<u64>>,
    user: UserSettings,
    c: Conversations,
    last: Map<(u64, u64), Instant>,
    handled: HandledMessages,
    now: Instant,
    cooldown: Duration,
) -> Route {
    let proactive = speaks_up(m, listed, user, last, now, cooldown);
    if m.author_is_bot {
        Route::Ignored
    } else if !allowed_here(m, listed) {
        Route::NotAllowed
    } else if !addressed(m, listed) && !ongoing(m, listed, user, c, now) && !proactive {
        Route::Quiet
    } else if known(handled, m.message_id) {
        Route::Duplicate
    } else {
        Route::Answer { session_expired: ended(m, listed, user, c, now), proactive }
    }
}

/// Is a message dropped before anything is asked of it?
pub open spec fn dropped(route: Route) -> bool {
    route == Route::Ignored || route == Route::NotAllowed
}

/// The channels that a server lists.
pub open spec fn listed_in(server: Option<&ServerConfig>) -> Option<Seq<u64>> {
    match server {
        Some(server) => Some(server@),
        None => None,
    }
}

/// What is done with a message. A conversation whose window is over is forgotten,
/// a word that the bot speaks up with is remembered, and a message that is
/// answered is in work from now on. A message that a bot wrote, or that stands
/// where the bot may not answer, changes nothing.
pub fn route_message(
    m: &Incoming,
    server: Option<&ServerConfig>,
    user: &UserConfig,
    conversations: &mut ConversationTracker,
    cooldowns: &mut Cooldowns,
    gate: &mut MessageGate,
    now: Instant,
    cooldown: Duration,
) -> (r: Route)
    requires
        server matches Some(server) ==> server.well_formed(),
    ensures
        r == routed(
            *m,
            listed_in(server),
            user@,
            old(conversations)@,
            old(cooldowns)@,
            old(gate)@,
            now,
            cooldown,
        ),
        final(conversations)@.default_timeout == old(conversations)@.default_timeout,
        final(conversations)@.last_active == (if !dropped(r) && ended(
            *m,
            listed_in(server),
            user@,
            old(conversations)@,
            now,
        ) {
            old(conversations)@.last_active.remove((m.channel_id, m.user_id))
        } else {
            old(conversations)@.last_active
        }),
        final(cooldowns)@ == (if !dropped(r) && speaks_up(
            *m,
            listed_in(server),
            user@,
            old(cooldowns)@,
            now,
            cooldown,
        ) {
            old(cooldowns)@.insert((m.channel_id, m.user_id), now)
        } else {
            old(cooldowns)@
        }),
        final(gate)@ == (if r is Answer {
            HandledMessages {
                processing: old(gate)@.processing.insert(m.message_id),
                responded: old(gate)@.responded,
            }
        } else {
            old(gate)@
        }),
{
    if m.author_is_bot {
        return Route::Ignored;
    }
    let mut follow = true;
    if let Some(server) = server {
        if !server.is_channel_allowed(m.channel_id) {
            return Route::NotAllowed;
        }
        follow = user.followup_enabled && server.lists(m.channel_id);
    }
    let active = follow && conversations.is_active(m.channel_id, m.user_id, now);
    let expired = if active {
        false
    } else {
        conversations.pop_timed_out(m.channel_id, m.user_id, now)
    };
    let addressed = server.is_none() || m.mentions_bot || m.replies_to_bot || m.replies_to_media;
    let mut proactive = false;
    if !addressed && user.proactive_assistance_enabled && is_proactive_candidate(
        m.content.as_str(),
    ) {
        proactive = cooldowns.proactive_cooldown_allows(m.channel_id, m.user_id, now, cooldown);
    }
    if !addressed && !active && !proactive {
        return Route::Quiet;
    }
    if gate.already_seen(m.message_id) {
        return Route::Duplicate;
    }
    Route::Answer { session_expired: expired, proactive }
}

impl Route {
    /// Does the message go to the log of its channel? Every message of a user does
    /// that is in a channel of a server where the bot may answer.
    pub fn is_logged(&self, in_server: bool) -> (r: bool)
        ensures
            r == (in_server && !dropped(*self)),
    {
        match self {
            Route::Ignored | Route::NotAllowed => false,
            _ => in_server,
        }
    }
}

/// What is remembered and recorded of an answer. Of a word that nobody asked for
/// the bot learns nothing.
#[derive(Clone, Copy, Debug, PartialEq, Eq, Structural)]
pub struct Recording {
    pub deep_memory: bool,
    pub profile_usage: bool,
}

/// What is remembered and recorded of an answer.
pub fn recording(deep_memory_enabled: bool, proactive: bool) -> (r: Recording)
    ensures
        r.deep_memory == (deep_memory_enabled && !proactive),
        r.profile_usage == !proactive,
{
    Recording { deep_memory: deep_memory_enabled && !proactive, profile_usage: !proactive }
}

/// What is said to a user who writes too quickly.
pub const TOO_QUICK: &'static str =
    "⏱️ You're sending messages too quickly. Please slow down and try again in a moment.";

// --------------------------------------------------------------- slash commands

/// A slash command.
#[derive(Clone, Copy, Debug, PartialEq, Eq, Structural)]
pub enum SlashCommand {
    Compact,
    Lua,
    Config,
    Labs,
    Effort,
    Status,
    Help,
    Commit,
    Model,
    Session,
    New,
    EraseData,
    Profile,
    History,
    Privacy,
    Memory,
}

/// The command of a name.
pub open spec fn command_named(name: Seq<char>) -> Option<SlashCommand> {
    if name == "compact"@ {
        Some(SlashCommand::Compact)
    } else if name == "lua"@ {
        Some(SlashCommand::Lua)
    } else if name == "config"@ {
        Some(SlashCommand::Config)
    } else if name == "labs"@ {
        Some(SlashCommand::Labs)
    } else if name == "effort"@ {
        Some(SlashCommand::Effort)
    } else if name == "status"@ {
        Some(SlashCommand::Status)
    } else if name == "help"@ {
        Some(SlashCommand::Help)
    } else if name == "commit"@ {
        Some(SlashCommand::Commit)
    } else if name == "model"@ {
        Some(SlashCommand::Model)
    } else if name == "session"@ {
        Some(SlashCommand::Session)
    } else if name == "new"@ || name == "reset"@ {
        Some(SlashCommand::New)
    } else if name == "erase_my_data"@ {
        Some(SlashCommand::EraseData)
    } else if name == "profile"@ {
        Some(SlashCommand::Profile)
    } else if name == "history"@ {
        Some(SlashCommand::History)
    } else if name == "privacy"@ {
        Some(SlashCommand::Privacy)
    } else if name == "memory"@ {
        Some(SlashCommand::Memory)
    } else {
        None
    }
}

/// The command of a name.
pub fn slash_command(name: &str) -> (r: Option<SlashCommand>)
    ensures
        r == command_named(name@),
{
    if same_text(name, "compact") {
        Some(SlashCommand::Compact)
    } else if same_text(name, "lua") {
        Some(SlashCommand::Lua)
    } else if same_text(name, "config") {
        Some(SlashCommand::Config)
    } else if same_text(name, "labs") {
        Some(SlashCommand::Labs)
    } else if same_text(name, "effort") {
        Some(SlashCommand::Effort)
    } else if same_text(name, "status") {
        Some(SlashCommand::Status)
    } else if same_text(name, "help") {
        Some(SlashCommand::Help)
    } else if same_text(name, "commit") {
        Some(SlashCommand::Commit)
    } else if same_text(name, "model") {
        Some(SlashCommand::Model)
    } else if same_text(name, "session") {
        Some(SlashCommand::Session)
    } else if same_text(name, "new") || same_text(name, "reset") {
        Some(SlashCommand::New)
    } else if same_text(name, "erase_my_data") {
        Some(SlashCommand::EraseData)
    } else if same_text(name, "profile") {
        Some(SlashCommand::Profile)
    } else if same_text(name, "history") {
        Some(SlashCommand::History)
    } else if same_text(name, "privacy") {
        Some(SlashCommand::Privacy)
    } else if same_text(name, "memory") {
        Some(SlashCommand::Memory)
    } else {
        None
    }
}

// ----------------------------------------------------------- new conversations

/// How something is asked for: in a message, or with a slash command.
#[derive(Clone, Copy, Debug, PartialEq, Eq)]
pub enum Asked<'a> {
    Message { author_is_bot: bool, content: &'a str },
    Command(&'a str),
}

/// Is a new conversation asked for?
pub open spec fn asks_anew(asked: Asked) -> bool {
    match asked {
        Asked::Message { author_is_bot, content } => !author_is_bot && requested(content@) is New,
        Asked::Command(name) => command_named(name@) == Some(SlashCommand::New),
    }
}

/// The conversations without the one of a user in a channel.
pub open spec fn closed_at(c: Conversations, channel_id: u64, user_id: u64) -> Conversations {
    Conversations {
        last_active: c.last_active.remove((channel_id, user_id)),
        default_timeout: c.default_timeout,
    }
}

/// What a new conversation takes: whose session is reset, and what is said, for
/// the user's eyes only or for all.
#[derive(Debug, PartialEq, Eq)]
pub struct NewConversation {
    pub reset_session: u64,
    pub reply: String,
    pub private: bool,
}

/// Starts a new conversation, where one is asked for: the session is to be reset,
/// the conversation is closed, and the user is told.
pub fn handle_new(
    asked: Asked,
    channel_id: u64,
    user_id: u64,
    profile: &UserProfile,
    conversations: &mut ConversationTracker,
) -> (r: Option<NewConversation>)
    ensures
        r is Some <==> asks_anew(asked),
        r matches Some(new) ==> new.reset_session == user_id && new.private == (asked is Command)
            && new.reply@ == "New conversation started, "@ + called(profile@)
            + ". Your previous conversation history has been cleared."@,
        final(conversations)@ == (if asks_anew(asked) {
            closed_at(old(conversations)@, channel_id, user_id)
        } else {
            old(conversations)@
        }),
{
    let (anew, private) = match asked {
        Asked::Message { author_is_bot, content } => (
            match incoming_command(author_is_bot, content) {
                Some(MessageCommand::New) => true,
                _ => false,
            },
            false,
        ),
        Asked::Command(name) => (
            match slash_command(name) {
                Some(SlashCommand::New) => true,
                _ => false,
            },
            true,
        ),
    };
    if !anew {
        return None;
    }
    close_after(SlashCommand::New, channel_id, user_id, conversations);
    Some(
        NewConversation {
            reset_session: user_id,
            reply: new_conversation_reply(profile.best_name()),
            private,
        },
    )
}

/// Is the conversation closed once a command was carried out?
pub open spec fn ends_conversation(command: SlashCommand) -> bool {
    command == SlashCommand::New || command == SlashCommand::Compact || command
        == SlashCommand::EraseData
}

/// Is the session reset once a command was carried out?
pub open spec fn resets_session(command: SlashCommand) -> bool {
    command == SlashCommand::New || command == SlashCommand::EraseData
}

/// Closes the conversation in which a command was carried out, where it ends it;
/// is the session to be reset?
pub fn close_after(
    command: SlashCommand,
    channel_id: u64,
    user_id: u64,
    conversations: &mut ConversationTracker,
) -> (r: bool)
    ensures
        r == resets_session(command),
        final(conversations)@ == (if ends_conversation(command) {
            closed_at(old(conversations)@, channel_id, user_id)
        } else {
            old(conversations)@
        }),
{
    match command {
        SlashCommand::New | SlashCommand::EraseData => {
            conversations.remove(channel_id, user_id);
            true
        },
        SlashCommand::Compact => {
            conversations.remove(channel_id, user_id);
            false
        },
        _ => false,
    }
}

/// Does a control belong to a job, rather than to an answer on pages?
pub fn is_develop_control(custom_id: &str) -> (r: bool)
    ensures
        r == begins(custom_id@, DEVELOP_PREFIX@),
{
    starts_with(custom_id, DEVELOP_PREFIX)
}

// ------------------------------------------------------------------------- /lua

/// A role of a server.
#[derive(Debug, PartialEq, Eq)]
pub struct Role {
    pub id: u64,
    pub name: String,
    pub position: u16,
}

/// Does a member hold the named role or a higher one?
pub open spec fn holds_role(member: Seq<u64>, roles: Seq<Role>, name: Seq<char>) -> bool {
    exists|i: int, j: int|
        0 <= i < roles.len() && 0 <= j < roles.len() && #[trigger] roles[i].name@ == name
            && member.contains((#[trigger] roles[j]).id) && roles[j].position >= roles[i].position
}

/// Is a number in a list?
fn listed_id(ids: &Vec<u64>, id: u64) -> (r: bool)
    ensures
        r == ids@.contains(id),
{
    let n: usize = ids.len();
    let mut i: usize = 0;
    while i < n
        invariant
            n == ids@.len(),
            i <= n,
            forall|k: int| 0 <= k < i ==> ids@[k] != id,
        decreases n - i,
    {
        if ids[i] == id {
            proof {
                assert(ids@[i as int] == id);
            }
            return true;
        }
        i += 1;
    }
    false
}

/// The lowest position of a role of that name.
fn lowest_named(roles: &Vec<Role>, name: &str) -> (r: Option<u16>)
    ensures
        match r {
            Some(p) => (exists|i: int|
                0 <= i < roles@.len() && (#[trigger] roles@[i]).name@ == name@
                    && roles@[i].position == p) && (forall|i: int|
                0 <= i < roles@.len() && (#[trigger] roles@[i]).name@ == name@
                    ==> roles@[i].position >= p),
            None => forall|i: int| 0 <= i < roles@.len() ==> (#[trigger] roles@[i]).name@ != name@,
        },
{
    let n: usize = roles.len();
    let mut lowest: Option<u16> = None;
    let mut i: usize = 0;
    while i < n
        invariant
            n == roles@.len(),
            i <= n,
            match lowest {
                Some(p) => (exists|k: int|
                    0 <= k < i && (#[trigger] roles@[k]).name@ == name@ && roles@[k].position == p)
                    && (forall|k: int|
                    0 <= k < i && (#[trigger] roles@[k]).name@ == name@ ==> roles@[k].position
                        >= p),
                None => forall|k: int| 0 <= k < i ==> (#[trigger] roles@[k]).name@ != name@,
            },
        decreases n - i,
    {
        if same_text(roles[i].name.as_str(), name) {
            let position: u16 = roles[i].position;
            let lower = match lowest {
                Some(p) => position < p,
                None => true,
            };
            if lower {
                lowest = Some(position);
                proof {
                    assert(roles@[i as int].name@ == name@);
                }
            }
        }
        i += 1;
    }
    lowest
}

/// Does a member hold the named role or a higher one?
pub fn scripting_permitted(member: &Vec<u64>, roles: &Vec<Role>, name: &str) -> (r: bool)
    ensures
        r == holds_role(member@, roles@, name@),
{
    let needed: u16 = match lowest_named(roles, name) {
        Some(p) => p,
        None => {
            return false;
        },
    };
    let ghost low = choose|i: int|
        0 <= i < roles@.len() && (#[trigger] roles@[i]).name@ == name@ && roles@[i].position
            == needed;
    let n: usize = roles.len();
    let mut j: usize = 0;
    while j < n
        invariant
            n == roles@.len(),
            j <= n,
            0 <= low < roles@.len(),
            roles@[low].name@ == name@,
            roles@[low].position == needed,
            forall|i: int|
                0 <= i < roles@.len() && (#[trigger] roles@[i]).name@ == name@
                    ==> roles@[i].position >= needed,
            forall|k: int|
                0 <= k < j ==> !(member@.contains((#[trigger] roles@[k]).id) && roles@[k].position
                    >= needed),
        decreases n - j,
    {
        if roles[j].position >= needed && listed_id(member, roles[j].id) {
            proof {
                assert(roles@[low].name@ == name@ && member@.contains(roles@[j as int].id));
            }
            return true;
        }
        j += 1;
    }
    false
}

/// What is known of who wants to run a script.
#[derive(Debug, PartialEq, Eq)]
pub struct ScriptUser {
    pub user_id: u64,
    pub in_server: bool,
    pub administrator: bool,
    pub roles: Vec<u64>,
}

/// May a user run scripts: the owner, where there is one; a server's
/// administrators; and members with the scripting role or a higher one?
pub open spec fn may_script(
    user: ScriptUser,
    owner_id: u64,
    roles: Option<Seq<Role>>,
    role_name: Seq<char>,
) -> bool {
    (owner_id != 0 && user.user_id == owner_id) || (user.in_server && (user.administrator || (
    roles matches Some(roles) && holds_role(user.roles@, roles, role_name))))
}

/// May a user run scripts? The roles are none where the server did not tell.
pub fn lua_permitted(
    user: &ScriptUser,
    owner_id: u64,
    roles: Option<&Vec<Role>>,
    role_name: &str,
) -> (r: bool)
    ensures
        r == may_script(
            *user,
            owner_id,
            (match roles {
                Some(roles) => Some(roles@),
                None => None,
            }),
            role_name@,
        ),
{
    if owner_id != 0 && user.user_id == owner_id {
        return true;
    }
    if !user.in_server {
        return false;
    }
    if user.administrator {
        return true;
    }
    match roles {
        Some(roles) => scripting_permitted(&user.roles, roles, role_name),
        None => false,
    }
}

/// Do the roles of the server decide whether a user may run scripts?
pub open spec fn roles_decide(user: ScriptUser, owner_id: u64) -> bool {
    !(owner_id != 0 && user.user_id == owner_id) && user.in_server && !user.administrator
}

/// Do the roles of the server decide whether a user may run scripts, so that they
/// have to be asked for?
pub fn needs_roles(user: &ScriptUser, owner_id: u64) -> (r: bool)
    ensures
        r == roles_decide(*user, owner_id),
{
    !(owner_id != 0 && user.user_id == owner_id) && user.in_server && !user.administrator
}

/// The script that `/lua` names; else what is said instead.
pub open spec fn lua_named(options: Seq<CommandOption>) -> Result<Seq<char>, Seq<char>> {
    match text_option(options, "script"@) {
        None => Err("Please provide a script to run."@),
        Some(script) => Ok(script),
    }
}

/// The script that `/lua` names; else what is said instead.
pub fn lua_script<'a>(options: &'a Vec<CommandOption>) -> (r: Result<&'a str, String>)
    ensures
        script_text(r) == lua_named(options@),
{
    match find_text(options, "script") {
        None => Err("Please provide a script to run.".to_owned()),
        Some(script) => Ok(script),
    }
}

/// The script that `/lua` names, where its user may run it; else what is said
/// instead.
pub open spec fn lua_request(
    options: Seq<CommandOption>,
    permitted: bool,
    role_name: Seq<char>,
) -> Result<Seq<char>, Seq<char>> {
    match lua_named(options) {
        Err(text) => Err(text),
        Ok(script) => if permitted {
            Ok(script)
        } else {
            Err(
                "You need the **"@ + role_name + "** role (or a higher one) to run scripts."@,
            )
        },
    }
}

/// A script or what is said, as values.
pub open spec fn script_text(r: Result<&str, String>) -> Result<Seq<char>, Seq<char>> {
    match r {
        Ok(script) => Ok(script@),
        Err(text) => Err(text@),
    }
}

/// The script that `/lua` names, where its user may run it; else what is said
/// instead.
pub fn handle_lua_command<'a>(
    options: &'a Vec<CommandOption>,
    permitted: bool,
    role_name: &str,
) -> (r: Result<&'a str, String>)
    ensures
        script_text(r) == lua_request(options@, permitted, role_name@),
{
    match lua_script(options) {
        Err(text) => Err(text),
        Ok(script) => if permitted {
            Ok(script)
        } else {
            Err(
                "You need the **".to_owned().concat(role_name).concat(
                    "** role (or a higher one) to run scripts.",
                ),
            )
        },
    }
}

/// What is said to a user who runs scripts too quickly.
pub const SCRIPTS_TOO_QUICK: &'static str =
    "You're running scripts too quickly — try again in a minute.";

/// What is run of a script that may be run, given whether its user ran too many:
/// the script, or nothing, and the user is told.
pub open spec fn lua_run(script: Seq<char>, limited: bool) -> Result<Seq<char>, Seq<char>> {
    if limited {
        Err(SCRIPTS_TOO_QUICK@)
    } else {
        Ok(script)
    }
}

/// What is run of a script that may be run, given whether its user ran too many.
pub fn lua_checked<'a>(script: &'a str, limited: bool) -> (r: Result<&'a str, String>)
    ensures
        script_text(r) == lua_run(script@, limited),
{
    if limited {
        Err(SCRIPTS_TOO_QUICK.to_owned())
    } else {
        Ok(script)
    }
}

/// What is answered to a script: its output with secrets left out, in a code
/// block that fits a message.
pub fn lua_answer(output: &str, redactor: &SecretRedactor) -> (r: String)
    requires
        redactor.well_formed(),
    ensures
        r@ == lua_reply(redacted(output@, redactor@)),
{
    let safe = redactor.redact(output);
    format_lua_reply(safe.as_str())
}

// ----------------------------------------------------------------------- laws

/// What a bot writes is never answered.
pub proof fn law_bots_are_never_answered(
    m: Incoming,
    listed: Option<Seq<u64>>,
    user: UserSettings,
    c: Conversations,
    last: Map<(u64, u64), Instant>,
    handled: HandledMessages,
    now: Instant,
    cooldown: Duration,
)
    requires
        m.author_is_bot,
    ensures
        routed(m, listed, user, c, last, handled, now, cooldown) == Route::Ignored,
{
}

/// A message is answered exactly where a user wrote it, the bot may answer there,
/// it is addressed to the bot, goes on with a conversation or is one to speak up
/// at, and it was not seen before.
pub proof fn law_when_a_message_is_answered(
    m: Incoming,
    listed: Option<Seq<u64>>,
    user: UserSettings,
    c: Conversations,
    last: Map<(u64, u64), Instant>,
    handled: HandledMessages,
    now: Instant,
    cooldown: Duration,
)
    ensures
        routed(m, listed, user, c, last, handled, now, cooldown) is Answer <==> {
            &&& !m.author_is_bot
            &&& allowed_here(m, listed)
            &&& addressed(m, listed) || ongoing(m, listed, user, c, now) || speaks_up(
                m,
                listed,
                user,
                last,
                now,
                cooldown,
            )
            &&& !known(handled, m.message_id)
        },
{
}

/// Whichever user addresses the bot where it may answer gets an answer, once.
pub proof fn law_addressed_messages_are_answered(
    m: Incoming,
    listed: Option<Seq<u64>>,
    user: UserSettings,
    c: Conversations,
    last: Map<(u64, u64), Instant>,
    handled: HandledMessages,
    now: Instant,
    cooldown: Duration,
)
    requires
        !m.author_is_bot,
        addressed(m, listed),
        allowed_here(m, listed),
    ensures
        routed(m, listed, user, c, last, handled, now, cooldown) is Answer <==> !known(
            handled,
            m.message_id,
        ),
        routed(m, listed, user, c, last, handled, now, cooldown) matches Route::Answer {
            proactive,
            ..
        } ==> !proactive,
{
}

/// The bot never speaks up unasked to a user who does not want it, nor twice
/// within the cooldown.
pub proof fn law_speaking_up_is_wanted_and_rare(
    m: Incoming,
    listed: Option<Seq<u64>>,
    user: UserSettings,
    c: Conversations,
    last: Map<(u64, u64), Instant>,
    handled: HandledMessages,
    now: Instant,
    cooldown: Duration,
)
    requires
        routed(m, listed, user, c, last, handled, now, cooldown) matches Route::Answer {
            proactive,
            ..
        } && proactive,
    ensures
        user.proactive_assistance_enabled,
        cooled_down(last, m.channel_id, m.user_id, now, cooldown),
        listed is Some,
{
}

/// In a server with listed channels, nothing is answered outside them.
pub proof fn law_other_channels_are_left_alone(
    m: Incoming,
    listed: Seq<u64>,
    user: UserSettings,
    c: Conversations,
    last: Map<(u64, u64), Instant>,
    handled: HandledMessages,
    now: Instant,
    cooldown: Duration,
)
    requires
        listed.len() > 0,
        !listed.contains(m.channel_id),
    ensures
        dropped(routed(m, Some(listed), user, c, last, handled, now, cooldown)),
{
}

/// A message in a server that is not addressed to the bot, from a user without
/// follow-ups and without proactive help, stays unanswered.
pub proof fn law_nobody_is_answered_unasked(
    m: Incoming,
    listed: Seq<u64>,
    user: UserSettings,
    c: Conversations,
    last: Map<(u64, u64), Instant>,
    handled: HandledMessages,
    now: Instant,
    cooldown: Duration,
)
    requires
        !addressed(m, Some(listed)),
        !user.followup_enabled || !listed.contains(m.channel_id),
        !user.proactive_assistance_enabled,
    ensures
        !(routed(m, Some(listed), user, c, last, handled, now, cooldown) is Answer),
{
}

/// A script is run exactly where there is one, its user may run it and has not run
/// too many; it is then run as it was given.
pub proof fn law_when_a_script_is_run(
    options: Seq<CommandOption>,
    permitted: bool,
    role_name: Seq<char>,
    limited: bool,
)
    ensures
        (lua_request(options, permitted, role_name) matches Ok(script) && lua_run(script, limited)
            is Ok) <==> (text_option(options, "script"@) is Some && permitted && !limited),
        lua_request(options, permitted, role_name) matches Ok(script) ==> text_option(
            options,
            "script"@,
        ) == Some(script) && (!limited ==> lua_run(script, limited) == Ok::<Seq<char>, Seq<char>>(
            script,
        )),
{
}

/// The answer to a script holds no secret that can be told from what is put in its
/// place and from the frame, whatever the other secrets are.
pub proof fn law_script_answers_hold_no_secret(
    output: Seq<char>,
    secrets: Seq<Seq<char>>,
    secret: int,
)
    requires
        0 <= secret < secrets.len(),
        distinct(secrets[secret]),
        clear_of_frame(secrets[secret], redacted(output, secrets)),
    ensures
        !has_text(lua_reply(redacted(output, secrets)), secrets[secret]),
{
    let safe = redacted(output, secrets);
    if has_text(lua_reply(safe), secrets[secret]) {
        law_framing_adds_the_frame_only(safe, secrets[secret]);
        law_redacted_texts_hold_no_secret(output, secrets, secret);
    }
}

/// An ordinary secret, of one line or of many, does not stand in the answer to a
/// script.
pub proof fn law_script_answers_hold_no_ordinary_secret(
    output: Seq<char>,
    secrets: Seq<Seq<char>>,
    secret: int,
)
    requires
        0 <= secret < secrets.len(),
        ordinary(secrets[secret]),
    ensures
        !has_text(lua_reply(redacted(output, secrets)), secrets[secret]),
{
    law_ordinary_secrets_are_distinct(secrets[secret]);
    law_ordinary_secrets_are_clear_of_the_frame(redacted(output, secrets), secrets[secret]);
    law_script_answers_hold_no_secret(output, secrets, secret);
}

/// Where the roles of the server do not decide, they make no difference.
pub proof fn law_roles_are_asked_for_only_where_they_decide(
    user: ScriptUser,
    owner_id: u64,
    roles: Option<Seq<Role>>,
    role_name: Seq<char>,
)
    requires
        !roles_decide(user, owner_id),
    ensures
        may_script(user, owner_id, roles, role_name) == may_script(
            user,
            owner_id,
            None,
            role_name,
        ),
{
}

/// Without an owner set, nobody runs scripts outside servers.
pub proof fn law_scripts_need_an_owner_or_a_server(
    user: ScriptUser,
    roles: Option<Seq<Role>>,
    role_name: Seq<char>,
)
    requires
        !user.in_server,
    ensures
        !may_script(user, 0, roles, role_name),
{
}

/// A message that is answered is not answered again while it is in work, however
/// the settings, the conversations and the time have changed.
pub proof fn law_a_message_is_answered_once(
    m: Incoming,
    listed: Option<Seq<u64>>,
    user: UserSettings,
    c: Conversations,
    last: Map<(u64, u64), Instant>,
    handled: HandledMessages,
    now: Instant,
    cooldown: Duration,
)
    requires
        handled.processing.contains(m.message_id),
    ensures
        !(routed(m, listed, user, c, last, handled, now, cooldown) is Answer),
{
}

/// A new conversation is asked for under four names: two in messages of users, two
/// among the slash commands.
pub proof fn law_new_conversation_has_four_names(asked: Asked)
    ensures
        asks_anew(asked) <==> (match asked {
            Asked::Message { author_is_bot, content } => !author_is_bot && (trimmed(content@)
                == "!new"@ || trimmed(content@) == "!reset"@),
            Asked::Command(name) => name@ == "new"@ || name@ == "reset"@,
        }),
{
    reveal_strlit("config");
    reveal_strlit("labs");
    reveal_strlit("effort");
    reveal_strlit("lua");
    reveal_strlit("help");
    reveal_strlit("commit");
    reveal_strlit("model");
    reveal_strlit("session");
    reveal_strlit("status");
    reveal_strlit("new");
    reveal_strlit("reset");
    reveal_strlit("compact");
    assert("config"@.len() == 6 && "labs"@.len() == 4 && "effort"@.len() == 6
        && "help"@.len() == 4 && "commit"@.len() == 6 && "session"@.len() == 7
        && "status"@.len() == 6 && "compact"@.len() == 7);
    assert("new"@.len() == 3 && "reset"@.len() == 5);
    assert("lua"@[0] == 'l' && "new"@[0] == 'n');
    assert("model"@[0] == 'm' && "reset"@[0] == 'r');
    assert("lua"@.len() == 3 && "model"@.len() == 5);
}

/// Once a new conversation was started, the old one is neither open nor expired,
/// and the others are as they were.
pub proof fn law_new_conversation_closes_the_old_one(
    before: Conversations,
    channel_id: u64,
    user_id: u64,
    other: (u64, u64),
    now: Instant,
)
    requires
        other != (channel_id, user_id),
    ensures
        ({
            let after = closed_at(before, channel_id, user_id);
            &&& !open_at(after, channel_id, user_id, now)
            &&& !over_at(after, channel_id, user_id, now)
            &&& open_at(after, other.0, other.1, now) == open_at(before, other.0, other.1, now)
            &&& over_at(after, other.0, other.1, now) == over_at(before, other.0, other.1, now)
        }),
{
}

// ----------------------------------------------------- the rules in one place

/// The rule by which a message in a server is answered, in full: a user wrote it;
/// the server lists no channels or this one; it mentions the bot, replies to the bot
/// or to media, goes on in a listed channel with a conversation that is open, of a
/// user who wants follow-ups, or looks like a request of a user who wants proactive
/// help and did not get it just now; and it was not seen before.
pub proof fn law_the_rule_of_answering_in_servers(
    m: Incoming,
    listed: Seq<u64>,
    user: UserSettings,
    c: Conversations,
    last: Map<(u64, u64), Instant>,
    handled: HandledMessages,
    now: Instant,
    cooldown: Duration,
)
    ensures
        ({
            let route = routed(m, Some(listed), user, c, last, handled, now, cooldown);
            let here = listed.len() == 0 || listed.contains(m.channel_id);
            let asked = m.mentions_bot || m.replies_to_bot || m.replies_to_media;
            let goes_on = user.followup_enabled && listed.contains(m.channel_id) && open_at(
                c,
                m.channel_id,
                m.user_id,
                now,
            );
            let helps = !asked && user.proactive_assistance_enabled && looks_like_request(
                m.content@,
            ) && cooled_down(last, m.channel_id, m.user_id, now, cooldown);
            let seen = handled.processing.contains(m.message_id) || handled.responded.contains(
                m.message_id,
            );
            &&& route == Route::Ignored <==> m.author_is_bot
            &&& route == Route::NotAllowed <==> !m.author_is_bot && !here
            &&& route == Route::Quiet <==> !m.author_is_bot && here && !asked && !goes_on && !helps
            &&& route == Route::Duplicate <==> !m.author_is_bot && here && (asked || goes_on
                || helps) && seen
            &&& route is Answer <==> !m.author_is_bot && here && (asked || goes_on || helps)
                && !seen
            &&& route matches Route::Answer { session_expired, proactive } ==> proactive == helps
                && session_expired == over_at(c, m.channel_id, m.user_id, now)
        }),
{
}

/// The rule by which a direct message is answered, in full: a user wrote it, and it
/// was not seen before.
pub proof fn law_the_rule_of_answering_directly(
    m: Incoming,
    user: UserSettings,
    c: Conversations,
    last: Map<(u64, u64), Instant>,
    handled: HandledMessages,
    now: Instant,
    cooldown: Duration,
)
    ensures
        ({
            let route = routed(m, None, user, c, last, handled, now, cooldown);
            let seen = handled.processing.contains(m.message_id) || handled.responded.contains(
                m.message_id,
            );
            &&& route == Route::Ignored <==> m.author_is_bot
            &&& route == Route::Duplicate <==> !m.author_is_bot && seen
            &&& !m.author_is_bot && !seen ==> route == (Route::Answer {
                session_expired: over_at(c, m.channel_id, m.user_id, now),
                proactive: false,
            })
        }),
{
}

/// What begins with one of the words for skills and notes is no other command.
proof fn lemma_longer_words(content: Seq<char>, word: Seq<char>)
    requires
        word == "!skill"@ || word == "!note"@,
        begins(content, word),
    ensures
        trimmed(content) != "!reset"@ && trimmed(content) != "!new"@ && trimmed(content)
            != "!compact"@ && trimmed(content) != "!stats"@,
        word == "!note"@ ==> !begins(content, "!skill"@),
{
    reveal_strlit("!skill");
    reveal_strlit("!note");
    reveal_strlit("!reset");
    reveal_strlit("!new");
    reveal_strlit("!compact");
    reveal_strlit("!stats");
    let n = word.len() as int;
    assert(content.subrange(0, n)[0] == content[0]);
    assert(content.subrange(0, n)[1] == content[1]);
    assert(content.subrange(0, n)[2] == content[2]);
    assert(content[0] == '!');
    assert(!is_white_space('!'));
    law_trimming_keeps_a_start(content);
    let t = trimmed(content);
    assert(t == content.subrange(0, t.len() as int));
    if t.len() > 2 {
        assert(t[1] == content[1] && t[2] == content[2]);
    }
    assert("!reset"@[1] == 'r' && "!reset"@.len() == 6);
    assert("!new"@[2] == 'e' && "!new"@.len() == 4);
    assert("!compact"@[1] == 'c' && "!compact"@.len() == 8);
    assert("!stats"@[2] == 't' && "!stats"@.len() == 6 && "!stats"@[1] == 's');
    if begins(content, "!skill"@) {
        assert(content.subrange(0, 6)[1] == 's');
    }
}

/// Each word that a message can be a command by asks for its own thing and nothing
/// else does; every other message is talk.
pub proof fn law_each_word_asks_for_its_own(content: Seq<char>)
    ensures
        requested(content) is New <==> trimmed(content) == "!new"@ || trimmed(content)
            == "!reset"@,
        requested(content) is Compact <==> trimmed(content) == "!compact"@,
        requested(content) is Stats <==> trimmed(content) == "!stats"@,
        requested(content) is Skill <==> begins(content, "!skill"@),
        requested(content) is Note <==> begins(content, "!note"@),
        requested(content) matches Request::Skill(parts) ==> parts == command_parts(content),
        requested(content) matches Request::Note(parts) ==> parts == command_parts(content),
{
    if begins(content, "!skill"@) {
        lemma_longer_words(content, "!skill"@);
    }
    if begins(content, "!note"@) {
        lemma_longer_words(content, "!note"@);
    }
    reveal_strlit("!reset");
    reveal_strlit("!new");
    reveal_strlit("!compact");
    reveal_strlit("!stats");
    assert("!reset"@[1] == 'r' && "!reset"@.len() == 6);
    assert("!new"@.len() == 4 && "!compact"@.len() == 8);
    assert("!stats"@[1] == 's' && "!stats"@.len() == 6);
}

/// Each slash command has its own name, the one for new conversations two.
pub proof fn law_each_command_has_its_own_name(name: Seq<char>)
    ensures
        command_named(name) == Some(SlashCommand::Compact) <==> name == "compact"@,
        command_named(name) == Some(SlashCommand::Lua) <==> name == "lua"@,
        command_named(name) == Some(SlashCommand::Config) <==> name == "config"@,
        command_named(name) == Some(SlashCommand::Labs) <==> name == "labs"@,
        command_named(name) == Some(SlashCommand::Effort) <==> name == "effort"@,
        command_named(name) == Some(SlashCommand::Status) <==> name == "status"@,
        command_named(name) == Some(SlashCommand::Help) <==> name == "help"@,
        command_named(name) == Some(SlashCommand::Commit) <==> name == "commit"@,
        command_named(name) == Some(SlashCommand::Model) <==> name == "model"@,
        command_named(name) == Some(SlashCommand::Session) <==> name == "session"@,
        command_named(name) == Some(SlashCommand::New) <==> name == "new"@ || name == "reset"@,
        command_named(name) == Some(SlashCommand::EraseData) <==> name == "erase_my_data"@,
        command_named(name) == Some(SlashCommand::Profile) <==> name == "profile"@,
        command_named(name) == Some(SlashCommand::History) <==> name == "history"@,
        command_named(name) == Some(SlashCommand::Privacy) <==> name == "privacy"@,
        command_named(name) == Some(SlashCommand::Memory) <==> name == "memory"@,
{
    reveal_strlit("compact");
    reveal_strlit("lua");
    reveal_strlit("config");
    reveal_strlit("labs");
    reveal_strlit("effort");
    reveal_strlit("status");
    reveal_strlit("help");
    reveal_strlit("commit");
    reveal_strlit("model");
    reveal_strlit("session");
    reveal_strlit("new");
    reveal_strlit("reset");
    reveal_strlit("erase_my_data");
    reveal_strlit("profile");
    reveal_strlit("history");
    reveal_strlit("privacy");
    reveal_strlit("memory");
    assert("compact"@.len() == 7 && "compact"@[0] == 'c');
    assert("session"@.len() == 7 && "session"@[0] == 's');
    assert("history"@.len() == 7 && "history"@[0] == 'h');
    assert("profile"@.len() == 7 && "profile"@[0] == 'p' && "profile"@[2] == 'o');
    assert("privacy"@.len() == 7 && "privacy"@[0] == 'p' && "privacy"@[2] == 'i');
    assert("config"@.len() == 6 && "config"@[0] == 'c' && "config"@[2] == 'n');
    assert("commit"@.len() == 6 && "commit"@[0] == 'c' && "commit"@[2] == 'm');
    assert("effort"@.len() == 6 && "effort"@[0] == 'e');
    assert("status"@.len() == 6 && "status"@[0] == 's');
    assert("memory"@.len() == 6 && "memory"@[0] == 'm');
    assert("model"@.len() == 5 && "model"@[0] == 'm');
    assert("reset"@.len() == 5 && "reset"@[0] == 'r');
    assert("labs"@.len() == 4 && "labs"@[0] == 'l');
    assert("help"@.len() == 4 && "help"@[0] == 'h');
    assert("lua"@.len() == 3 && "lua"@[0] == 'l');
    assert("new"@.len() == 3 && "new"@[0] == 'n');
    assert("erase_my_data"@.len() == 13);
}

/// Which commands close the conversation, and which of them reset the session too: a
/// new conversation and the deletion of one's data do both, a summary only closes it,
/// and no other command touches either.
pub proof fn law_what_commands_close(command: SlashCommand)
    ensures
        ends_conversation(SlashCommand::New) && resets_session(SlashCommand::New),
        ends_conversation(SlashCommand::EraseData) && resets_session(SlashCommand::EraseData),
        ends_conversation(SlashCommand::Compact) && !resets_session(SlashCommand::Compact),
        command != SlashCommand::New && command != SlashCommand::EraseData && command
            != SlashCommand::Compact ==> !ends_conversation(command) && !resets_session(command),
{
}

/// A member holds the named role by having it, or any role that stands as high; one
/// whose roles all stand lower does not, nor does anyone where no role has that name.
pub proof fn law_higher_roles_count(
    member: Seq<u64>,
    roles: Seq<Role>,
    name: Seq<char>,
    named: int,
    held: int,
)
    ensures
        0 <= named < roles.len() && roles[named].name@ == name && 0 <= held < roles.len()
            && member.contains(roles[held].id) && roles[held].position >= roles[named].position
            ==> holds_role(member, roles, name),
        (forall|i: int| 0 <= i < roles.len() ==> (#[trigger] roles[i]).name@ != name)
            ==> !holds_role(member, roles, name),
        (forall|i: int, j: int|
            0 <= i < roles.len() && 0 <= j < roles.len() && (#[trigger] roles[i]).name@ == name
                && member.contains((#[trigger] roles[j]).id) ==> roles[j].position
                < roles[i].position) ==> !holds_role(member, roles, name),
{
}

/// Who may run scripts: the configured owner anywhere; in servers their
/// administrators, and whoever holds the scripting role or a higher one; nobody else.
pub proof fn law_who_may_run_scripts(
    user: ScriptUser,
    owner_id: u64,
    roles: Seq<Role>,
    role_name: Seq<char>,
)
    ensures
        owner_id != 0 && user.user_id == owner_id ==> may_script(
            user,
            owner_id,
            Some(roles),
            role_name,
        ) && may_script(user, owner_id, None, role_name),
        user.in_server && user.administrator ==> may_script(
            user,
            owner_id,
            Some(roles),
            role_name,
        ) && may_script(user, owner_id, None, role_name),
        !(owner_id != 0 && user.user_id == owner_id) && !user.in_server ==> !may_script(
            user,
            owner_id,
            Some(roles),
            role_name,
        ),
        !(owner_id != 0 && user.user_id == owner_id) && user.in_server && !user.administrator ==> {
            &&& may_script(user, owner_id, Some(roles), role_name) == holds_role(
                user.roles@,
                roles,
                role_name,
            )
            &&& !may_script(user, owner_id, None, role_name)
            &&& roles_decide(user, owner_id)
        },
{
}

/// A user who may not run scripts is told which role it takes; one who names no
/// script is asked for one, whether they may run it or not; one who runs too many is
/// told so.
pub proof fn law_what_is_said_instead_of_running(
    options: Seq<CommandOption>,
    permitted: bool,
    role_name: Seq<char>,
    script: Seq<char>,
)
    ensures
        text_option(options, "script"@) is None ==> lua_request(options, permitted, role_name)
            == Err::<Seq<char>, Seq<char>>("Please provide a script to run."@),
        text_option(options, "script"@) is Some ==> lua_request(options, false, role_name) == Err::<
            Seq<char>,
            Seq<char>,
        >("You need the **"@ + role_name + "** role (or a higher one) to run scripts."@),
        lua_run(script, true) == Err::<Seq<char>, Seq<char>>(
            "You're running scripts too quickly — try again in a minute."@,
        ),
{
}

/// What a message asks for is taken as what it is, with its parts in order.
pub proof fn law_message_commands_are_what_they_hold(command: MessageCommand)
    ensures
        command is New <==> command@ is New,
        command is Compact <==> command@ is Compact,
        command is Stats <==> command@ is Stats,
        command is Talk <==> command@ is Talk,
        command matches MessageCommand::Skill(first, rest) ==> command@ == Request::Skill(
            (first@, rest@),
        ),
        command matches MessageCommand::Note(first, rest) ==> command@ == Request::Note(
            (first@, rest@),
        ),
{
}

/// A script, or what is said, is taken as the text that it is; the channels of a
/// server are those it lists, and a direct message has none.
pub proof fn law_scripts_and_servers_are_what_they_hold(
    script: &str,
    said: String,
    server: &ServerConfig,
)
    ensures
        script_text(Ok(script)) == Ok::<Seq<char>, Seq<char>>(script@),
        script_text(Err(said)) == Err::<Seq<char>, Seq<char>>(said@),
        listed_in(Some(server)) == Some(server@),
        listed_in(None) is None,
{
}

/// A conversation without mentions goes on in direct messages, and in servers where
/// the user wants that and the channel is listed.
pub proof fn law_where_conversations_go_on(listed: Seq<u64>, channel_id: u64, user: UserSettings)
    ensures
        follows_up(None, channel_id, user),
        follows_up(Some(listed), channel_id, user) <==> user.followup_enabled && exists|i: int|
            0 <= i < listed.len() && listed[i] == channel_id,
{
}

/// What is dropped is what bots wrote and what stands where the bot may not answer.
pub proof fn law_what_is_dropped(route: Route)
    ensures
        dropped(route) <==> route is Ignored || route is NotAllowed,
{
}

} // verus!
