//! Which conversations are open, which messages were handled, and when the bot
//! may speak up on its own.
use crate::clock::{elapsed, Duration, Instant};
use std::collections::{HashMap, HashSet, VecDeque};
use vstd::prelude::*;

verus! {

broadcast use {
    vstd::std_specs::hash::group_hash_axioms,
    vstd::std_specs::vecdeque::group_vec_dequeue_axioms,
};

// ------------------------------------------------------------------- places

/// A channel and a user in one number.
spec fn packed(channel_id: u64, user_id: u64) -> u128 {
    (channel_id * 0x1_0000_0000_0000_0000 + user_id) as u128
}

/// A channel and a user in one number.
fn pack(channel_id: u64, user_id: u64) -> (r: u128)
    ensures
        r == packed(channel_id, user_id),
{
    channel_id as u128 * 0x1_0000_0000_0000_0000 + user_id as u128
}

/// Different channels or users have different numbers.
proof fn lemma_packed_apart(a: (u64, u64), b: (u64, u64))
    requires
        packed(a.0, a.1) == packed(b.0, b.1),
    ensures
        a == b,
{
}

/// What is kept of each channel and user.
spec fn unpacked<V>(m: Map<u128, V>) -> Map<(u64, u64), V> {
    Map::new(|k: (u64, u64)| m.contains_key(packed(k.0, k.1)), |k: (u64, u64)| m[packed(k.0, k.1)])
}

/// Keeping something of one channel and user.
proof fn lemma_unpacked_insert<V>(m: Map<u128, V>, channel_id: u64, user_id: u64, v: V)
    ensures
        unpacked(m.insert(packed(channel_id, user_id), v)) == unpacked(m).insert(
            (channel_id, user_id),
            v,
        ),
{
    let key = packed(channel_id, user_id);
    let a = unpacked(m.insert(key, v));
    let b = unpacked(m).insert((channel_id, user_id), v);
    assert forall|k: (u64, u64)| a.contains_key(k) <==> b.contains_key(k) by {
        if packed(k.0, k.1) == key {
            lemma_packed_apart(k, (channel_id, user_id));
        }
    }
    assert forall|k: (u64, u64)| a.contains_key(k) implies a[k] == b[k] by {
        if packed(k.0, k.1) == key {
            lemma_packed_apart(k, (channel_id, user_id));
        }
    }
    assert(a =~= b);
}

/// Forgetting one channel and user.
proof fn lemma_unpacked_remove<V>(m: Map<u128, V>, channel_id: u64, user_id: u64)
    ensures
        unpacked(m.remove(packed(channel_id, user_id))) == unpacked(m).remove(
            (channel_id, user_id),
        ),
{
    let key = packed(channel_id, user_id);
    let a = unpacked(m.remove(key));
    let b = unpacked(m).remove((channel_id, user_id));
    assert forall|k: (u64, u64)| a.contains_key(k) <==> b.contains_key(k) by {
        if packed(k.0, k.1) == key {
            lemma_packed_apart(k, (channel_id, user_id));
        }
    }
    assert(a =~= b);
}

// ------------------------------------------------------------ conversations

/// Tracks which conversations of a channel and a user are still within their
/// idle window.
pub struct ConversationTracker {
    default_idle_timeout: Duration,
    last_active: HashMap<u128, (Instant, Duration)>,
}

/// When each conversation was last active and how long it stays open.
pub struct Conversations {
    pub default_timeout: Duration,
    pub last_active: Map<(u64, u64), (Instant, Duration)>,
}

/// Is the conversation open at `now`?
pub open spec fn open_at(c: Conversations, channel_id: u64, user_id: u64, now: Instant) -> bool {
    c.last_active.contains_key((channel_id, user_id)) && elapsed(
        c.last_active[(channel_id, user_id)].0,
        now,
    ) <= c.last_active[(channel_id, user_id)].1.nanos
}

/// Was there a conversation whose window is over at `now`?
pub open spec fn over_at(c: Conversations, channel_id: u64, user_id: u64, now: Instant) -> bool {
    c.last_active.contains_key((channel_id, user_id)) && !open_at(c, channel_id, user_id, now)
}

impl View for ConversationTracker {
    type V = Conversations;

    closed spec fn view(&self) -> Conversations {
        Conversations {
            default_timeout: self.default_idle_timeout,
            last_active: unpacked(self.last_active@),
        }
    }
}

impl ConversationTracker {
    /// No conversation is open.
    pub fn new(idle_timeout: Duration) -> (r: Self)
        ensures
            r@.default_timeout == idle_timeout,
            r@.last_active == Map::<(u64, u64), (Instant, Duration)>::empty(),
    {
        let r = ConversationTracker {
            default_idle_timeout: idle_timeout,
            last_active: HashMap::new(),
        };
        proof {
            assert(r@.last_active =~= Map::empty());
        }
        r
    }

    /// Is the conversation open?
    pub fn is_active(&self, channel_id: u64, user_id: u64, now: Instant) -> (r: bool)
        ensures
            r == open_at(self@, channel_id, user_id, now),
    {
        match self.last_active.get(&pack(channel_id, user_id)) {
            Some(entry) => now.duration_since(entry.0).nanos <= entry.1.nanos,
            None => false,
        }
    }

    /// Remove an expired entry; return whether one existed.
    pub fn pop_timed_out(&mut self, channel_id: u64, user_id: u64, now: Instant) -> (r: bool)
        ensures
            r == over_at(old(self)@, channel_id, user_id, now),
            final(self)@.default_timeout == old(self)@.default_timeout,
            final(self)@.last_active == (if r {
                old(self)@.last_active.remove((channel_id, user_id))
            } else {
                old(self)@.last_active
            }),
    {
        let key: u128 = pack(channel_id, user_id);
        let expired = match self.last_active.get(&key) {
            Some(entry) => now.duration_since(entry.0).nanos > entry.1.nanos,
            None => false,
        };
        if expired {
            proof {
                lemma_unpacked_remove(self.last_active@, channel_id, user_id);
            }
            self.last_active.remove(&key);
        }
        expired
    }

    /// The conversation is open from `now` on, for as long as `timeout`.
    pub fn mark_active(&mut self, channel_id: u64, user_id: u64, now: Instant, timeout: Duration)
        ensures
            final(self)@.default_timeout == old(self)@.default_timeout,
            final(self)@.last_active == old(self)@.last_active.insert(
                (channel_id, user_id),
                (now, timeout),
            ),
    {
        proof {
            lemma_unpacked_insert(self.last_active@, channel_id, user_id, (now, timeout));
        }
        self.last_active.insert(pack(channel_id, user_id), (now, timeout));
    }

    /// The conversation is closed.
    pub fn remove(&mut self, channel_id: u64, user_id: u64)
        ensures
            final(self)@.default_timeout == old(self)@.default_timeout,
            final(self)@.last_active == old(self)@.last_active.remove((channel_id, user_id)),
    {
        proof {
            lemma_unpacked_remove(self.last_active@, channel_id, user_id);
        }
        self.last_active.remove(&pack(channel_id, user_id));
    }

    /// How long a conversation stays open where nothing else is said.
    pub fn default_timeout(&self) -> (r: Duration)
        ensures
            r == self@.default_timeout,
    {
        self.default_idle_timeout
    }
}

/// A conversation that was marked active is open up to the end of its window
/// and not after it, and others stay as they were.
pub proof fn law_marked_conversation_is_open_for_its_window(
    before: Conversations,
    after: Conversations,
    channel_id: u64,
    user_id: u64,
    marked: Instant,
    timeout: Duration,
    now: Instant,
    other: (u64, u64),
)
    requires
        after.last_active == before.last_active.insert((channel_id, user_id), (marked, timeout)),
        other != (channel_id, user_id),
    ensures
        open_at(after, channel_id, user_id, now) <==> elapsed(marked, now) <= timeout.nanos,
        over_at(after, channel_id, user_id, now) <==> elapsed(marked, now) > timeout.nanos,
        open_at(after, other.0, other.1, now) == open_at(before, other.0, other.1, now),
{
}

/// An expired conversation is taken out once: neither open nor expired after.
pub proof fn law_expired_conversation_is_taken_out_once(
    before: Conversations,
    after: Conversations,
    channel_id: u64,
    user_id: u64,
    now: Instant,
    later: Instant,
)
    requires
        over_at(before, channel_id, user_id, now),
        after.last_active == before.last_active.remove((channel_id, user_id)),
    ensures
        !open_at(after, channel_id, user_id, later),
        !over_at(after, channel_id, user_id, later),
{
}

// ---------------------------------------------------------- handled messages

/// How many handled messages are remembered.
pub const REMEMBERED_MESSAGES: usize = 200;

/// The messages in work, and those answered last.
pub struct MessageGate {
    processing: HashSet<u64>,
    responded: VecDeque<u64>,
}

/// The messages in work, and those answered last, oldest first.
pub struct HandledMessages {
    pub processing: Set<u64>,
    pub responded: Seq<u64>,
}

/// Is the message in work or among those answered last?
pub open spec fn known(m: HandledMessages, id: u64) -> bool {
    m.processing.contains(id) || m.responded.contains(id)
}

/// The messages answered last, once `id` is answered too.
pub open spec fn answered(responded: Seq<u64>, id: u64) -> Seq<u64> {
    if responded.len() >= REMEMBERED_MESSAGES {
        responded.drop_first().push(id)
    } else {
        responded.push(id)
    }
}

impl View for MessageGate {
    type V = HandledMessages;

    closed spec fn view(&self) -> HandledMessages {
        HandledMessages { processing: self.processing@, responded: self.responded@ }
    }
}

impl MessageGate {
    /// No message was seen.
    pub fn new() -> (r: Self)
        ensures
            r@.processing == Set::<u64>::empty(),
            r@.responded == Seq::<u64>::empty(),
    {
        MessageGate { processing: HashSet::new(), responded: VecDeque::new() }
    }

    /// Was the message seen? Where it was not, it is in work from now on.
    pub fn already_seen(&mut self, id: u64) -> (r: bool)
        ensures
            r == known(old(self)@, id),
            r ==> final(self)@ == old(self)@,
            !r ==> final(self)@ == (HandledMessages {
                processing: old(self)@.processing.insert(id),
                responded: old(self)@.responded,
            }),
    {
        if self.processing.contains(&id) {
            return true;
        }
        let mut i: usize = 0;
        while i < self.responded.len()
            invariant
                *self == *old(self),
                i <= self.responded@.len(),
                !self.processing@.contains(id),
                forall|j: int| 0 <= j < i ==> self.responded@[j] != id,
            decreases self.responded.len() - i,
        {
            if self.responded[i] == id {
                proof {
                    assert(self.responded@[i as int] == id);
                }
                return true;
            }
            i += 1;
        }
        self.processing.insert(id);
        false
    }

    /// The message is answered.
    pub fn mark_done(&mut self, id: u64)
        ensures
            final(self)@ == (HandledMessages {
                processing: old(self)@.processing.remove(id),
                responded: answered(old(self)@.responded, id),
            }),
    {
        self.processing.remove(&id);
        if self.responded.len() >= REMEMBERED_MESSAGES {
            let _ = self.responded.pop_front();
            proof {
                assert(self.responded@ =~= old(self).responded@.drop_first());
            }
        }
        self.responded.push_back(id);
    }
}

/// The messages answered after all of `ids`, one behind the other.
pub open spec fn answered_all(responded: Seq<u64>, ids: Seq<u64>) -> Seq<u64>
    decreases ids.len(),
{
    if ids.len() == 0 {
        responded
    } else {
        answered(answered_all(responded, ids.drop_last()), ids.last())
    }
}

/// An answered message stays known until as many others are answered as are
/// remembered, and never more than that many are kept.
pub proof fn law_answered_message_stays_known(responded: Seq<u64>, id: u64, ids: Seq<u64>)
    requires
        responded.len() <= REMEMBERED_MESSAGES,
        ids.len() < REMEMBERED_MESSAGES,
    ensures
        answered_all(answered(responded, id), ids).contains(id),
        answered_all(answered(responded, id), ids).len() <= REMEMBERED_MESSAGES,
{
    lemma_answered_position(responded, id, ids);
    let all = answered_all(answered(responded, id), ids);
    assert(all[all.len() - 1 - ids.len()] == id);
}

/// Where an answered message stands after others were answered.
proof fn lemma_answered_position(responded: Seq<u64>, id: u64, ids: Seq<u64>)
    requires
        responded.len() <= REMEMBERED_MESSAGES,
        ids.len() < REMEMBERED_MESSAGES,
    ensures
        ({
            let all = answered_all(answered(responded, id), ids);
            &&& ids.len() < all.len() <= REMEMBERED_MESSAGES
            &&& all[all.len() - 1 - ids.len()] == id
        }),
    decreases ids.len(),
{
    if ids.len() > 0 {
        lemma_answered_position(responded, id, ids.drop_last());
    }
}

/// A message is handled once: taken in work, it is known until it is answered,
/// and known from its answer on.
pub proof fn law_message_is_handled_once(before: HandledMessages, id: u64)
    ensures
        known(
            HandledMessages {
                processing: before.processing.insert(id),
                responded: before.responded,
            },
            id,
        ),
        known(
            HandledMessages {
                processing: before.processing.remove(id),
                responded: answered(before.responded, id),
            },
            id,
        ),
{
    let all = answered(before.responded, id);
    assert(all[all.len() - 1] == id);
}

// ------------------------------------------------------ speaking up unasked

/// When the bot last spoke up unasked to each user in each channel.
pub struct Cooldowns {
    last: HashMap<u128, Instant>,
}

/// May the bot speak up at `now`?
pub open spec fn cooled_down(
    last: Map<(u64, u64), Instant>,
    channel_id: u64,
    user_id: u64,
    now: Instant,
    cooldown: Duration,
) -> bool {
    last.contains_key((channel_id, user_id)) ==> elapsed(last[(channel_id, user_id)], now)
        >= cooldown.nanos
}

impl View for Cooldowns {
    type V = Map<(u64, u64), Instant>;

    closed spec fn view(&self) -> Map<(u64, u64), Instant> {
        unpacked(self.last@)
    }
}

impl Cooldowns {
    /// The bot never spoke up.
    pub fn new() -> (r: Self)
        ensures
            r@ == Map::<(u64, u64), Instant>::empty(),
    {
        let r = Cooldowns { last: HashMap::new() };
        proof {
            assert(r@ =~= Map::empty());
        }
        r
    }

    /// May the bot speak up? Where it may, it is taken to do so now.
    pub fn proactive_cooldown_allows(
        &mut self,
        channel_id: u64,
        user_id: u64,
        now: Instant,
        cooldown: Duration,
    ) -> (r: bool)
        ensures
            r == cooled_down(old(self)@, channel_id, user_id, now, cooldown),
            final(self)@ == (if r {
                old(self)@.insert((channel_id, user_id), now)
            } else {
                old(self)@
            }),
    {
        let key: u128 = pack(channel_id, user_id);
        let waiting = match self.last.get(&key) {
            Some(last) => now.duration_since(*last).nanos < cooldown.nanos,
            None => false,
        };
        if waiting {
            return false;
        }
        proof {
            lemma_unpacked_insert(self.last@, channel_id, user_id, now);
        }
        self.last.insert(key, now);
        true
    }
}

/// Once the bot spoke up, it may not again before the cooldown is over.
pub proof fn law_one_word_per_cooldown(
    last: Map<(u64, u64), Instant>,
    channel_id: u64,
    user_id: u64,
    spoke: Instant,
    now: Instant,
    cooldown: Duration,
)
    ensures
        cooled_down(last.insert((channel_id, user_id), spoke), channel_id, user_id, now, cooldown)
            <==> elapsed(spoke, now) >= cooldown.nanos,
{
}

// ---------------------------------------------------------------------- laws

/// A conversation that was never marked, or was closed, is neither open nor over.
pub proof fn law_unknown_conversations_are_neither_open_nor_over(
    c: Conversations,
    channel_id: u64,
    user_id: u64,
    now: Instant,
)
    ensures
        !c.last_active.contains_key((channel_id, user_id)) ==> !open_at(c, channel_id, user_id, now)
            && !over_at(c, channel_id, user_id, now),
        !(open_at(c, channel_id, user_id, now) && over_at(c, channel_id, user_id, now)),
        c.last_active.contains_key((channel_id, user_id)) ==> open_at(c, channel_id, user_id, now)
            || over_at(c, channel_id, user_id, now),
{
}

/// A conversation that was last active at a moment is open as long after it as its
/// window is long, to the nanosecond, and over from then on.
pub proof fn law_windows_end_to_the_nanosecond(
    c: Conversations,
    channel_id: u64,
    user_id: u64,
    start: Instant,
    window: Duration,
    now: Instant,
)
    requires
        c.last_active.contains_key((channel_id, user_id)),
        c.last_active[(channel_id, user_id)] == (start, window),
    ensures
        now.nanos <= start.nanos + window.nanos ==> open_at(c, channel_id, user_id, now),
        now.nanos > start.nanos + window.nanos ==> over_at(c, channel_id, user_id, now),
{
}

/// An answered message is remembered as the newest; of two hundred remembered ones
/// only the oldest is dropped for it, and of fewer none.
pub proof fn law_only_the_oldest_is_forgotten(responded: Seq<u64>, id: u64, i: int)
    requires
        responded.len() <= 200,
    ensures
        answered(responded, id).last() == id,
        responded.len() < 200 ==> answered(responded, id) == responded.push(id),
        responded.len() == 200 ==> answered(responded, id).len() == 200,
        responded.len() == 200 && 0 <= i < 199 ==> answered(responded, id)[i] == responded[i + 1],
{
}

/// The bot may speak up where it never did, and what it said to others, or
/// elsewhere, is no reason to keep quiet.
pub proof fn law_cooldowns_are_one_users_in_one_channel(
    last: Map<(u64, u64), Instant>,
    channel_id: u64,
    user_id: u64,
    other: (u64, u64),
    spoke: Instant,
    now: Instant,
    cooldown: Duration,
)
    ensures
        !last.contains_key((channel_id, user_id)) ==> cooled_down(
            last,
            channel_id,
            user_id,
            now,
            cooldown,
        ),
        other != (channel_id, user_id) ==> cooled_down(
            last.insert(other, spoke),
            channel_id,
            user_id,
            now,
            cooldown,
        ) == cooled_down(last, channel_id, user_id, now, cooldown),
        cooled_down(last.insert((channel_id, user_id), spoke), channel_id, user_id, now, cooldown)
            <==> now.nanos >= spoke.nanos + cooldown.nanos || cooldown.nanos == 0,
{
}

} // verus!
