//! What is known of a user.
use crate::options::{first_name, subcommand, CommandOption};
use crate::text::{
    decimal, has_text, join, joined, law_joined_texts_hold_each_part, no_texts, opt_text, push_text,
    same_text, texts, to_decimal,
};
use vstd::prelude::*;

verus! {

/// What is known of a user: who they are on Discord, and what was learned.
#[derive(Debug, PartialEq, Eq)]
pub struct UserProfile {
    pub username: String,
    pub display_name: String,
    pub nickname: String,
    pub avatar_url: String,
    pub guild_id: u64,
    pub tags: Vec<String>,
    pub quick_actions: Vec<(String, u64)>,
}

/// A profile as values.
pub struct Profile {
    pub username: Seq<char>,
    pub display_name: Seq<char>,
    pub nickname: Seq<char>,
    pub avatar_url: Seq<char>,
    pub guild_id: u64,
    pub tags: Seq<Seq<char>>,
    pub quick_actions: Seq<(Seq<char>, nat)>,
}

/// The names and counts of actions.
pub open spec fn counts(actions: Seq<(String, u64)>) -> Seq<(Seq<char>, nat)> {
    actions.map_values(|a: (String, u64)| (a.0@, a.1 as nat))
}

impl View for UserProfile {
    type V = Profile;

    open spec fn view(&self) -> Profile {
        Profile {
            username: self.username@,
            display_name: self.display_name@,
            nickname: self.nickname@,
            avatar_url: self.avatar_url@,
            guild_id: self.guild_id,
            tags: texts(self.tags@),
            quick_actions: counts(self.quick_actions@),
        }
    }
}

/// What a user is called: the nickname, else the display name, else the user
/// name.
pub open spec fn called(profile: Profile) -> Seq<char> {
    if profile.nickname.len() > 0 {
        profile.nickname
    } else if profile.display_name.len() > 0 {
        profile.display_name
    } else {
        profile.username
    }
}

/// What Discord tells of a user.
#[derive(Debug, PartialEq, Eq)]
pub struct UserInfo {
    pub username: String,
    pub display_name: String,
    pub avatar_url: Option<String>,
}

/// A profile after Discord was asked. In a server where the user was not seen
/// before, who they are is taken over whole; else the display name and the
/// avatar are, and the nickname where the member is known.
pub open spec fn refreshed(
    profile: Profile,
    info: UserInfo,
    guild_id: u64,
    member: Option<Option<Seq<char>>>,
) -> Profile {
    let avatar = match info.avatar_url {
        Some(url) => url@,
        None => Seq::empty(),
    };
    let nick = match member {
        Some(Some(nick)) => nick,
        _ => Seq::empty(),
    };
    if profile.username.len() == 0 || profile.guild_id != guild_id {
        Profile {
            username: info.username@,
            display_name: info.display_name@,
            avatar_url: avatar,
            guild_id,
            nickname: nick,
            ..profile
        }
    } else {
        Profile {
            display_name: info.display_name@,
            avatar_url: avatar,
            nickname: if member is Some {
                nick
            } else {
                profile.nickname
            },
            ..profile
        }
    }
}

/// The nickname of a member, where the member is known and has one.
pub open spec fn member_nick(member: Option<Option<String>>) -> Option<Option<Seq<char>>> {
    match member {
        Some(nick) => Some(opt_text(nick)),
        None => None,
    }
}

/// A profile with what was learned forgotten.
pub open spec fn without_learned(profile: Profile) -> Profile {
    Profile { tags: Seq::empty(), quick_actions: Seq::empty(), ..profile }
}

impl UserProfile {
    /// A profile of nobody.
    pub fn new() -> (r: UserProfile)
        ensures
            r@ == (Profile {
                username: ""@,
                display_name: ""@,
                nickname: ""@,
                avatar_url: ""@,
                guild_id: 0,
                tags: Seq::empty(),
                quick_actions: Seq::empty(),
            }),
    {
        let r = UserProfile {
            username: "".to_owned(),
            display_name: "".to_owned(),
            nickname: "".to_owned(),
            avatar_url: "".to_owned(),
            guild_id: 0,
            tags: Vec::new(),
            quick_actions: Vec::new(),
        };
        proof {
            assert(r@.tags =~= Seq::empty());
            assert(r@.quick_actions =~= Seq::empty());
        }
        r
    }

    /// What the user is called.
    pub fn best_name(&self) -> (r: &str)
        ensures
            r@ == called(self@),
    {
        if self.nickname.as_str().unicode_len() > 0 {
            self.nickname.as_str()
        } else if self.display_name.as_str().unicode_len() > 0 {
            self.display_name.as_str()
        } else {
            self.username.as_str()
        }
    }

    /// Forgets what was learned, and keeps who the user is.
    pub fn clear_learned(&mut self)
        ensures
            final(self)@ == without_learned(old(self)@),
    {
        self.tags = Vec::new();
        self.quick_actions = Vec::new();
        proof {
            assert(self@.tags =~= Seq::empty());
            assert(self@.quick_actions =~= Seq::empty());
        }
    }

    /// Takes over what Discord tells.
    pub fn refresh(&mut self, info: UserInfo, guild_id: u64, member: Option<Option<String>>)
        ensures
            final(self)@ == refreshed(old(self)@, info, guild_id, member_nick(member)),
    {
        let avatar = match info.avatar_url {
            Some(url) => url,
            None => String::new(),
        };
        if self.username.as_str().unicode_len() == 0 || self.guild_id != guild_id {
            self.username = info.username;
            self.display_name = info.display_name;
            self.avatar_url = avatar;
            self.guild_id = guild_id;
            self.nickname = match member {
                Some(Some(nick)) => nick,
                _ => String::new(),
            };
        } else {
            self.display_name = info.display_name;
            self.avatar_url = avatar;
            if let Some(nick) = member {
                self.nickname = match nick {
                    Some(nick) => nick,
                    None => String::new(),
                };
            }
        }
    }
}

// ------------------------------------------------------------------- in words

/// Actions and their counts, each written with what stands between and behind.
pub open spec fn action_texts(
    actions: Seq<(Seq<char>, nat)>,
    between: Seq<char>,
    behind: Seq<char>,
) -> Seq<Seq<char>> {
    actions.map_values(|a: (Seq<char>, nat)| a.0 + between + decimal(a.1) + behind)
}

/// Actions and their counts, each written with what stands between and behind.
fn write_actions(actions: &Vec<(String, u64)>, between: &str, behind: &str) -> (r: Vec<String>)
    ensures
        texts(r@) == action_texts(counts(actions@), between@, behind@),
{
    let mut list = no_texts();
    let n: usize = actions.len();
    let mut i: usize = 0;
    while i < n
        invariant
            n == actions@.len(),
            i <= n,
            texts(list@) == action_texts(counts(actions@.take(i as int)), between@, behind@),
        decreases n - i,
    {
        let count = to_decimal(actions[i].1);
        let word = actions[i].0.as_str().to_owned().concat(between).concat(count.as_str()).concat(
            behind,
        );
        push_text(&mut list, word.as_str());
        i += 1;
        proof {
            let before = actions@.take(i - 1);
            assert(actions@.take(i as int) =~= before.push(actions@[i - 1]));
            assert(action_texts(counts(actions@.take(i as int)), between@, behind@)
                =~= action_texts(counts(before), between@, behind@).push(word@));
        }
    }
    proof {
        assert(actions@.take(n as int) =~= actions@);
    }
    list
}

/// The tags, for the model.
pub open spec fn tag_list(profile: Profile) -> Seq<char> {
    joined(profile.tags, ", "@)
}

/// The actions, for the model.
pub open spec fn action_list(profile: Profile) -> Seq<char> {
    joined(action_texts(profile.quick_actions, " ("@, ")"@), ", "@)
}

/// The tags and the actions, for the model.
pub fn learned(profile: &UserProfile) -> (r: (String, String))
    ensures
        r.0@ == tag_list(profile@),
        r.1@ == action_list(profile@),
{
    let actions = write_actions(&profile.quick_actions, " (", ")");
    (join(&profile.tags, ", "), join(&actions, ", "))
}

/// The lines of a profile.
pub open spec fn profile_lines(profile: Profile, guild_id: Option<u64>) -> Seq<Seq<char>> {
    seq![
        "**Profile for "@ + called(profile) + "**"@,
        "Username: "@ + profile.username,
        "Display name: "@ + profile.display_name,
        "Guild: "@ + (match guild_id {
            Some(id) => decimal(id as nat),
            None => "DM"@,
        }),
    ] + (if profile.nickname.len() > 0 {
        seq!["Nickname: "@ + profile.nickname]
    } else {
        seq![]
    }) + (if profile.avatar_url.len() > 0 {
        seq!["Avatar: (set)"@]
    } else {
        seq![]
    }) + (if profile.tags.len() > 0 {
        seq!["Tags: "@ + tag_list(profile)]
    } else {
        seq![]
    }) + (if profile.quick_actions.len() > 0 {
        seq![
            "Quick actions: "@ + joined(action_texts(profile.quick_actions, ": "@, ""@), ", "@),
        ]
    } else {
        seq![]
    })
}

/// A profile in words.
fn describe_profile(profile: &UserProfile, guild_id: Option<u64>) -> (r: String)
    ensures
        r@ == joined(profile_lines(profile@, guild_id), "\n"@),
{
    let mut lines = no_texts();
    let guild = match guild_id {
        Some(id) => to_decimal(id),
        None => "DM".to_owned(),
    };
    push_text(
        &mut lines,
        "**Profile for ".to_owned().concat(profile.best_name()).concat("**").as_str(),
    );
    push_text(&mut lines, "Username: ".to_owned().concat(profile.username.as_str()).as_str());
    push_text(
        &mut lines,
        "Display name: ".to_owned().concat(profile.display_name.as_str()).as_str(),
    );
    push_text(&mut lines, "Guild: ".to_owned().concat(guild.as_str()).as_str());
    if profile.nickname.as_str().unicode_len() > 0 {
        push_text(&mut lines, "Nickname: ".to_owned().concat(profile.nickname.as_str()).as_str());
    }
    if profile.avatar_url.as_str().unicode_len() > 0 {
        push_text(&mut lines, "Avatar: (set)");
    }
    if profile.tags.len() > 0 {
        let tags = join(&profile.tags, ", ");
        push_text(&mut lines, "Tags: ".to_owned().concat(tags.as_str()).as_str());
    }
    if profile.quick_actions.len() > 0 {
        let list = write_actions(&profile.quick_actions, ": ", "");
        let actions = join(&list, ", ");
        push_text(&mut lines, "Quick actions: ".to_owned().concat(actions.as_str()).as_str());
    }
    proof {
        assert(texts(lines@) =~= profile_lines(profile@, guild_id));
    }
    join(&lines, "\n")
}

// ------------------------------------------------------------------- /profile

/// What is to be done for `/profile`: to reply, or to store the profile, clear
/// the memory and then reply by whether both worked.
#[derive(Debug, PartialEq, Eq)]
pub enum ProfilePlan {
    Reply(String),
    Clear(UserProfile),
}

/// `/profile`.
pub fn handle_profile_interaction(
    options: &Vec<CommandOption>,
    profile: UserProfile,
    guild_id: Option<u64>,
) -> (r: ProfilePlan)
    ensures
        match r {
            ProfilePlan::Clear(kept) => first_name(options@) == Some("clear"@) && kept@
                == without_learned(profile@),
            ProfilePlan::Reply(text) => first_name(options@) != Some("clear"@) && text@ == joined(
                profile_lines(profile@, guild_id),
                "\n"@,
            ),
        },
{
    if let Some(name) = subcommand(options) {
        if same_text(name, "clear") {
            let mut kept = profile;
            kept.clear_learned();
            return ProfilePlan::Clear(kept);
        }
    }
    ProfilePlan::Reply(describe_profile(&profile, guild_id))
}

/// What is replied to `/profile clear`.
pub fn profile_cleared_reply(profile_saved: bool, memory_cleared: bool) -> (r: &'static str)
    ensures
        r@ == (if profile_saved && memory_cleared {
            "✅ Profile learned data and memory cleared. Your Discord identity is preserved."@
        } else {
            "⚠️ Could not clear all learned profile data."@
        }),
{
    if profile_saved && memory_cleared {
        "✅ Profile learned data and memory cleared. Your Discord identity is preserved."
    } else {
        "⚠️ Could not clear all learned profile data."
    }
}

// ----------------------------------------------------------------------- laws

/// Clearing what was learned leaves what the user is called, in every way.
pub proof fn law_identity_survives_clearing(profile: Profile)
    ensures
        ({
            let kept = without_learned(profile);
            called(kept) == called(profile) && kept.username == profile.username
                && kept.display_name == profile.display_name && kept.nickname == profile.nickname
                && kept.avatar_url == profile.avatar_url && kept.guild_id == profile.guild_id
        }),
{
}

/// Asking Discord again without news changes nothing, and what was learned is
/// never touched.
pub proof fn law_refresh_settles(
    profile: Profile,
    info: UserInfo,
    guild_id: u64,
    member: Option<Option<Seq<char>>>,
)
    requires
        info.username@.len() > 0,
    ensures
        ({
            let once = refreshed(profile, info, guild_id, member);
            refreshed(once, info, guild_id, member) == once && once.tags == profile.tags
                && once.quick_actions == profile.quick_actions
        }),
{
}

/// A user is called by the nickname, without one by the display name, and without
/// either by the user name; so whoever has a name is called something.
pub proof fn law_names_are_preferred_in_order(profile: Profile)
    ensures
        profile.nickname.len() > 0 ==> called(profile) == profile.nickname,
        profile.nickname.len() == 0 && profile.display_name.len() > 0 ==> called(profile)
            == profile.display_name,
        profile.nickname.len() == 0 && profile.display_name.len() == 0 ==> called(profile)
            == profile.username,
        called(profile).len() == 0 <==> profile.nickname.len() == 0 && profile.display_name.len()
            == 0 && profile.username.len() == 0,
{
}

/// What Discord tells is taken over: the display name and the avatar always, the
/// nickname where the member is known, the user name and the server where the user
/// was not seen there before.
pub proof fn law_refresh_takes_over_what_is_told(
    profile: Profile,
    info: UserInfo,
    guild_id: u64,
    member: Option<Option<Seq<char>>>,
)
    ensures
        ({
            let after = refreshed(profile, info, guild_id, member);
            let seen = profile.username.len() > 0 && profile.guild_id == guild_id;
            &&& after.display_name == info.display_name@
            &&& info.avatar_url matches Some(url) ==> after.avatar_url == url@
            &&& info.avatar_url is None ==> after.avatar_url.len() == 0
            &&& after.guild_id == guild_id
            &&& seen ==> after.username == profile.username
            &&& !seen ==> after.username == info.username@
            &&& member == Some(Some(after.nickname)) || member is None || after.nickname.len() == 0
            &&& member matches Some(Some(nick)) ==> after.nickname == nick
            &&& member is None && seen ==> after.nickname == profile.nickname
            &&& member is None && !seen ==> after.nickname.len() == 0
            &&& after.tags == profile.tags && after.quick_actions == profile.quick_actions
        }),
{
}

/// A profile is shown by its names and its server, then what else is known of it, in
/// order: the nickname, that there is an avatar, the tags and the actions.
pub proof fn law_profiles_show_what_is_known(profile: Profile, guild_id: Option<u64>)
    ensures
        ({
            let lines = profile_lines(profile, guild_id);
            let a: int = if profile.nickname.len() > 0 {
                1
            } else {
                0
            };
            let b: int = if profile.avatar_url.len() > 0 {
                1
            } else {
                0
            };
            let c: int = if profile.tags.len() > 0 {
                1
            } else {
                0
            };
            let d: int = if profile.quick_actions.len() > 0 {
                1
            } else {
                0
            };
            &&& lines.len() == 4 + a + b + c + d
            &&& lines[0] == "**Profile for "@ + called(profile) + "**"@
            &&& lines[1] == "Username: "@ + profile.username
            &&& lines[2] == "Display name: "@ + profile.display_name
            &&& guild_id matches Some(id) ==> lines[3] == "Guild: "@ + decimal(id as nat)
            &&& guild_id is None ==> lines[3] == "Guild: "@ + "DM"@
            &&& profile.nickname.len() > 0 ==> lines[4] == "Nickname: "@ + profile.nickname
            &&& profile.avatar_url.len() > 0 ==> lines[4 + a] == "Avatar: (set)"@
            &&& profile.tags.len() > 0 ==> lines[4 + a + b] == "Tags: "@ + joined(
                profile.tags,
                ", "@,
            )
            &&& profile.quick_actions.len() > 0 ==> lines[4 + a + b + c] == "Quick actions: "@
                + joined(action_texts(profile.quick_actions, ": "@, ""@), ", "@)
        }),
{
}

/// Each action is written with its own count; for the model in brackets.
pub proof fn law_actions_are_written_with_their_counts(
    actions: Seq<(Seq<char>, nat)>,
    between: Seq<char>,
    behind: Seq<char>,
    i: int,
    profile: Profile,
)
    ensures
        action_texts(actions, between, behind).len() == actions.len(),
        0 <= i < actions.len() ==> action_texts(actions, between, behind)[i] == actions[i].0
            + between + decimal(actions[i].1) + behind,
        0 <= i < profile.quick_actions.len() ==> has_text(
            action_list(profile),
            profile.quick_actions[i].0 + " ("@ + decimal(profile.quick_actions[i].1) + ")"@,
        ),
        0 <= i < profile.tags.len() ==> has_text(tag_list(profile), profile.tags[i]),
{
    if 0 <= i < profile.quick_actions.len() {
        law_joined_texts_hold_each_part(
            action_texts(profile.quick_actions, " ("@, ")"@),
            ", "@,
            i,
        );
    }
    if 0 <= i < profile.tags.len() {
        law_joined_texts_hold_each_part(profile.tags, ", "@, i);
    }
}

/// A profile is what its fields say.
pub proof fn law_profile_is_the_fields(profile: UserProfile, i: int)
    ensures
        profile@.username == profile.username@,
        profile@.display_name == profile.display_name@,
        profile@.nickname == profile.nickname@,
        profile@.avatar_url == profile.avatar_url@,
        profile@.guild_id == profile.guild_id,
        profile@.tags == texts(profile.tags@),
        profile@.quick_actions.len() == profile.quick_actions@.len(),
        0 <= i < profile.quick_actions@.len() ==> profile@.quick_actions[i] == (
            profile.quick_actions@[i].0@,
            profile.quick_actions@[i].1 as nat,
        ),
        without_learned(profile@).tags.len() == 0,
        without_learned(profile@).quick_actions.len() == 0,
{
}

} // verus!
