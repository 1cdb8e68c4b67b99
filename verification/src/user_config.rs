//! What a user and a server have set.
use crate::text::opt_text;
use vstd::prelude::*;

verus! {

// ------------------------------------------------------------------- effort

/// How much the model thinks before it replies.
#[derive(Clone, Copy, Debug, PartialEq, Eq, Structural)]
pub enum ThinkingMode {
    Low,
    Medium,
    High,
    XHigh,
    Max,
}

/// The name of a mode.
pub open spec fn mode_name(mode: ThinkingMode) -> Seq<char> {
    match mode {
        ThinkingMode::Low => "low"@,
        ThinkingMode::Medium => "medium"@,
        ThinkingMode::High => "high"@,
        ThinkingMode::XHigh => "xhigh"@,
        ThinkingMode::Max => "max"@,
    }
}

/// The mode of a name.
pub open spec fn mode_named(name: Seq<char>) -> Option<ThinkingMode> {
    if name == "low"@ {
        Some(ThinkingMode::Low)
    } else if name == "medium"@ {
        Some(ThinkingMode::Medium)
    } else if name == "high"@ {
        Some(ThinkingMode::High)
    } else if name == "xhigh"@ {
        Some(ThinkingMode::XHigh)
    } else if name == "max"@ {
        Some(ThinkingMode::Max)
    } else {
        None
    }
}

impl ThinkingMode {
    /// The name of the mode.
    pub fn as_str(&self) -> (r: &'static str)
        ensures
            r@ == mode_name(*self),
    {
        match self {
            ThinkingMode::Low => "low",
            ThinkingMode::Medium => "medium",
            ThinkingMode::High => "high",
            ThinkingMode::XHigh => "xhigh",
            ThinkingMode::Max => "max",
        }
    }

    /// The mode of a name.
    pub fn parse(name: &str) -> (r: Option<ThinkingMode>)
        ensures
            r == mode_named(name@),
    {
        if crate::text::same_text(name, "low") {
            Some(ThinkingMode::Low)
        } else if crate::text::same_text(name, "medium") {
            Some(ThinkingMode::Medium)
        } else if crate::text::same_text(name, "high") {
            Some(ThinkingMode::High)
        } else if crate::text::same_text(name, "xhigh") {
            Some(ThinkingMode::XHigh)
        } else if crate::text::same_text(name, "max") {
            Some(ThinkingMode::Max)
        } else {
            None
        }
    }
}

/// Every mode can be set by the name it is shown with.
pub proof fn law_mode_is_set_by_its_name(mode: ThinkingMode)
    ensures
        mode_named(mode_name(mode)) == Some(mode),
{
    reveal_strlit("low");
    reveal_strlit("medium");
    reveal_strlit("high");
    reveal_strlit("xhigh");
    reveal_strlit("max");
    assert("low"@[0] == 'l' && "medium"@[0] == 'm' && "high"@[0] == 'h' && "xhigh"@[0] == 'x'
        && "max"@[0] == 'm');
    assert("medium"@.len() != "max"@.len());
}

/// What each mode allows, in words.
#[derive(Debug, PartialEq, Eq)]
pub struct BudgetLabels {
    pub low: String,
    pub medium: String,
    pub high: String,
    pub xhigh: String,
    pub max: String,
}

/// What a mode allows, in words.
pub open spec fn budget(labels: BudgetLabels, mode: ThinkingMode) -> Seq<char> {
    match mode {
        ThinkingMode::Low => labels.low@,
        ThinkingMode::Medium => labels.medium@,
        ThinkingMode::High => labels.high@,
        ThinkingMode::XHigh => labels.xhigh@,
        ThinkingMode::Max => labels.max@,
    }
}

impl BudgetLabels {
    /// What a mode allows, in words.
    pub fn label(&self, mode: ThinkingMode) -> (r: &str)
        ensures
            r@ == budget(*self, mode),
    {
        match mode {
            ThinkingMode::Low => self.low.as_str(),
            ThinkingMode::Medium => self.medium.as_str(),
            ThinkingMode::High => self.high.as_str(),
            ThinkingMode::XHigh => self.xhigh.as_str(),
            ThinkingMode::Max => self.max.as_str(),
        }
    }
}

// --------------------------------------------------------------------- user

/// The settings of a user.
#[derive(Debug, PartialEq, Eq)]
pub struct UserConfig {
    pub personality: Option<String>,
    pub followup_enabled: bool,
    pub followup_timeout_secs: u64,
    pub thinking_mode: ThinkingMode,
    pub labs_pagination_enabled: bool,
    pub deep_memory_enabled: bool,
    pub proactive_assistance_enabled: bool,
}

/// The settings of a user, as values.
pub struct UserSettings {
    pub personality: Option<Seq<char>>,
    pub followup_enabled: bool,
    pub followup_timeout_secs: nat,
    pub thinking_mode: ThinkingMode,
    pub labs_pagination_enabled: bool,
    pub deep_memory_enabled: bool,
    pub proactive_assistance_enabled: bool,
}

impl View for UserConfig {
    type V = UserSettings;

    open spec fn view(&self) -> UserSettings {
        UserSettings {
            personality: opt_text(self.personality),
            followup_enabled: self.followup_enabled,
            followup_timeout_secs: self.followup_timeout_secs as nat,
            thinking_mode: self.thinking_mode,
            labs_pagination_enabled: self.labs_pagination_enabled,
            deep_memory_enabled: self.deep_memory_enabled,
            proactive_assistance_enabled: self.proactive_assistance_enabled,
        }
    }
}

// ------------------------------------------------------------------- server

/// The settings of a server: the channels that the bot may answer in. Without
/// any it answers in all.
#[derive(Debug, PartialEq, Eq)]
pub struct ServerConfig {
    ids: Vec<u64>,
}

/// Are the numbers in order, each once?
pub open spec fn ascending(ids: Seq<u64>) -> bool {
    forall|i: int, j: int| 0 <= i < j < ids.len() ==> ids[i] < ids[j]
}

impl View for ServerConfig {
    type V = Seq<u64>;

    closed spec fn view(&self) -> Seq<u64> {
        self.ids@
    }
}

/// May the bot answer in a channel, where these are listed?
pub open spec fn channel_allowed(listed: Seq<u64>, channel: u64) -> bool {
    listed.len() == 0 || listed.contains(channel)
}

/// Which channels are listed fixes the list.
pub proof fn law_listing_is_fixed_by_its_channels(a: Seq<u64>, b: Seq<u64>)
    requires
        ascending(a),
        ascending(b),
        a.to_set() == b.to_set(),
    ensures
        a == b,
    decreases a.len(),
{
    assert forall|id: u64| a.contains(id) <==> b.contains(id) by {
        assert(a.to_set().contains(id) <==> a.contains(id));
        assert(b.to_set().contains(id) <==> b.contains(id));
    }
    if a.len() == 0 {
        if b.len() > 0 {
            assert(b.contains(b[0]));
            assert(a.contains(b[0]));
        }
        assert(a =~= b);
    } else {
        assert(a.contains(a.last()));
        assert(b.contains(a.last()));
        assert(b.contains(b.last()));
        assert(a.contains(b.last()));
        let i = choose|i: int| 0 <= i < b.len() && b[i] == a.last();
        let j = choose|j: int| 0 <= j < a.len() && a[j] == b.last();
        assert(a.last() == b.last());
        let c = a.drop_last();
        let d = b.drop_last();
        assert forall|id: u64| c.contains(id) <==> d.contains(id) by {
            if c.contains(id) {
                let k = choose|k: int| 0 <= k < c.len() && c[k] == id;
                assert(a[k] == id);
                assert(a.contains(id));
                assert(b.contains(id));
                let m = choose|m: int| 0 <= m < b.len() && b[m] == id;
                assert(id < a.last());
                assert(m < d.len());
                assert(d[m] == id);
            }
            if d.contains(id) {
                let k = choose|k: int| 0 <= k < d.len() && d[k] == id;
                assert(b[k] == id);
                assert(b.contains(id));
                assert(a.contains(id));
                let m = choose|m: int| 0 <= m < a.len() && a[m] == id;
                assert(id < b.last());
                assert(m < c.len());
                assert(c[m] == id);
            }
        }
        assert(c.to_set() =~= d.to_set());
        law_listing_is_fixed_by_its_channels(c, d);
        assert(a =~= c.push(a.last()));
        assert(b =~= d.push(b.last()));
    }
}

impl ServerConfig {
    /// The listed channels stand in order, each once.
    pub open spec fn well_formed(&self) -> bool {
        ascending(self@)
    }

    /// No channel is listed.
    pub fn new() -> (r: ServerConfig)
        ensures
            r.well_formed(),
            r@ == Seq::<u64>::empty(),
    {
        ServerConfig { ids: Vec::new() }
    }

    /// The listed channels.
    pub fn channels(&self) -> (r: &Vec<u64>)
        ensures
            r@ == self@,
    {
        &self.ids
    }

    /// How many listed channels are smaller than the given one.
    fn place(&self, channel: u64) -> (r: usize)
        requires
            self.well_formed(),
        ensures
            r <= self@.len(),
            forall|i: int| 0 <= i < r ==> self@[i] < channel,
            forall|i: int| r <= i < self@.len() ==> channel <= self@[i],
    {
        let n: usize = self.ids.len();
        let mut i: usize = 0;
        while i < n && self.ids[i] < channel
            invariant
                n == self.ids@.len(),
                i <= n,
                ascending(self.ids@),
                forall|k: int| 0 <= k < i ==> self.ids@[k] < channel,
            decreases n - i,
        {
            i += 1;
        }
        i
    }

    /// Lists a channel.
    pub fn allow(&mut self, channel: u64)
        requires
            old(self).well_formed(),
        ensures
            final(self).well_formed(),
            final(self)@.to_set() == old(self)@.to_set().insert(channel),
    {
        let at: usize = self.place(channel);
        let ghost before = self.ids@;
        if at < self.ids.len() && self.ids[at] == channel {
            proof {
                assert(before.contains(channel));
                assert(before.to_set() =~= before.to_set().insert(channel));
            }
            return;
        }
        self.ids.insert(at, channel);
        proof {
            let after = self.ids@;
            assert(after == before.insert(at as int, channel));
            assert(after[at as int] == channel);
            assert forall|id: u64| after.contains(id) <==> before.contains(id) || id == channel by {
                if after.contains(id) {
                    let k = choose|k: int| 0 <= k < after.len() && after[k] == id;
                    if k < at {
                        assert(before[k] == id);
                    } else if k > at {
                        assert(before[k - 1] == id);
                    }
                }
                if before.contains(id) {
                    let k = choose|k: int| 0 <= k < before.len() && before[k] == id;
                    if k < at {
                        assert(after[k] == id);
                    } else {
                        assert(after[k + 1] == id);
                    }
                }
            }
            assert(after.to_set() =~= before.to_set().insert(channel));
        }
    }

    /// Takes a channel off the list; was it there?
    pub fn disallow(&mut self, channel: u64) -> (r: bool)
        requires
            old(self).well_formed(),
        ensures
            final(self).well_formed(),
            r == old(self)@.contains(channel),
            final(self)@.to_set() == old(self)@.to_set().remove(channel),
    {
        let at: usize = self.place(channel);
        let ghost before = self.ids@;
        if at < self.ids.len() && self.ids[at] == channel {
            let _ = self.ids.remove(at);
            proof {
                let after = self.ids@;
                assert(after == before.remove(at as int));
                assert(before.contains(channel));
                assert forall|id: u64|
                    after.contains(id) <==> before.contains(id) && id != channel by {
                    if after.contains(id) {
                        let k = choose|k: int| 0 <= k < after.len() && after[k] == id;
                        if k < at {
                            assert(before[k] == id);
                        } else {
                            assert(before[k + 1] == id);
                        }
                    }
                    if before.contains(id) && id != channel {
                        let k = choose|k: int| 0 <= k < before.len() && before[k] == id;
                        if k < at {
                            assert(after[k] == id);
                        } else {
                            assert(after[k - 1] == id);
                        }
                    }
                }
                assert(after.to_set() =~= before.to_set().remove(channel));
            }
            true
        } else {
            proof {
                assert(!before.contains(channel));
                assert(before.to_set() =~= before.to_set().remove(channel));
            }
            false
        }
    }

    /// Is a channel listed?
    pub fn lists(&self, channel: u64) -> (r: bool)
        requires
            self.well_formed(),
        ensures
            r == self@.contains(channel),
    {
        let at: usize = self.place(channel);
        let r = at < self.ids.len() && self.ids[at] == channel;
        proof {
            if r {
                assert(self@[at as int] == channel);
            }
        }
        r
    }

    /// May the bot answer in a channel?
    pub fn is_channel_allowed(&self, channel: u64) -> (r: bool)
        requires
            self.well_formed(),
        ensures
            r == channel_allowed(self@, channel),
    {
        self.ids.len() == 0 || self.lists(channel)
    }
}

// ---------------------------------------------------------------------- laws

/// The settings of a user are what the fields hold.
pub proof fn law_settings_are_the_fields(config: UserConfig)
    ensures
        config@.personality == opt_text(config.personality),
        config@.followup_enabled == config.followup_enabled,
        config@.followup_timeout_secs == config.followup_timeout_secs,
        config@.thinking_mode == config.thinking_mode,
        config@.labs_pagination_enabled == config.labs_pagination_enabled,
        config@.deep_memory_enabled == config.deep_memory_enabled,
        config@.proactive_assistance_enabled == config.proactive_assistance_enabled,
{
}

/// Only the name of a mode sets a mode, and each mode is known by its own word.
pub proof fn law_only_names_set_a_mode(name: Seq<char>)
    ensures
        mode_named(name) matches Some(mode) ==> mode_name(mode) == name,
        mode_named(name) == Some(ThinkingMode::Low) <==> name == "low"@,
        mode_named(name) == Some(ThinkingMode::Medium) <==> name == "medium"@,
        mode_named(name) == Some(ThinkingMode::High) <==> name == "high"@,
        mode_named(name) == Some(ThinkingMode::XHigh) <==> name == "xhigh"@,
        mode_named(name) == Some(ThinkingMode::Max) <==> name == "max"@,
{
    law_mode_is_set_by_its_name(ThinkingMode::Low);
    law_mode_is_set_by_its_name(ThinkingMode::Medium);
    law_mode_is_set_by_its_name(ThinkingMode::High);
    law_mode_is_set_by_its_name(ThinkingMode::XHigh);
    law_mode_is_set_by_its_name(ThinkingMode::Max);
}

/// What a mode allows is told by the label of that mode and of no other.
pub proof fn law_each_mode_has_its_own_label(labels: BudgetLabels, mode: ThinkingMode)
    ensures
        mode == ThinkingMode::Low ==> budget(labels, mode) == labels.low@,
        mode == ThinkingMode::Medium ==> budget(labels, mode) == labels.medium@,
        mode == ThinkingMode::High ==> budget(labels, mode) == labels.high@,
        mode == ThinkingMode::XHigh ==> budget(labels, mode) == labels.xhigh@,
        mode == ThinkingMode::Max ==> budget(labels, mode) == labels.max@,
{
}

/// A server that lists channels is answered in these and in no others; one that
/// lists none is answered in all.
pub proof fn law_listed_channels_are_the_allowed_ones(listed: Seq<u64>, channel: u64, i: int)
    ensures
        listed.len() == 0 ==> channel_allowed(listed, channel),
        0 <= i < listed.len() ==> channel_allowed(listed, listed[i]),
        listed.len() > 0 && (forall|j: int| 0 <= j < listed.len() ==> listed[j] != channel)
            ==> !channel_allowed(listed, channel),
{
}

/// The listed channels stand in order, from the smallest number up, each once.
pub proof fn law_listed_channels_stand_in_order(config: ServerConfig, i: int, j: int)
    requires
        config.well_formed(),
        0 <= i < j < config@.len(),
    ensures
        config@[i] < config@[j],
{
}

} // verus!
