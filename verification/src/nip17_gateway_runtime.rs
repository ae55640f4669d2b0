//! Opt-in public-relay runtime for the NIP-17 gateway transport.
//!
//! Each configured public relay has a [`RelayLoop`]; each verified sender has a
//! [`Session`] behind an entry of the [`SessionTable`]. The adapter owns the
//! sockets, the channels and the timers.

use std::collections::VecDeque;
use vstd::prelude::*;
use vstd::string::*;

use crate::connection::{NextFrame, TenantContext};
use crate::envelope;
use crate::envelope::{Keys, PublicKey};
use crate::identifiers;
use crate::nip17_gateway;
use crate::nip17_gateway::{GatewayError, GatewayFailure, GatewayRequest, Nip17Gateway, RequestView};
use crate::protocol;
use crate::text;
use crate::transport::{FrameView, RelayFrame};

verus! {

/// Envelopes that a session remembers in order to serve none of them twice.
pub const SESSION_DEDUP_CAPACITY: usize = 1_024;

/// Seconds that a public relay may stay silent before it is taken for gone.
pub const NEXT_EVENT_TIMEOUT_SECS: u64 = 30;

/// Seconds between two attempts to reach a public relay.
pub const RECONNECT_DELAY_SECS: u64 = 2;

/// Requests that wait for a session at most.
pub const SESSION_QUEUE_CAPACITY: usize = 128;

/// Responses that wait for a public relay at most.
pub const RESPONSE_QUEUE_CAPACITY: usize = 1_024;

/// Sessions that a request is offered to at most.
pub const DELIVERY_ATTEMPTS: u8 = 2;

/// What a session is found by: its tenant and the verified author of the seal.
#[derive(Debug, Clone, PartialEq, Eq)]
pub struct SessionKey {
    /// Community identifier.
    pub community: String,
    /// Verified sender, in hexadecimal.
    pub sender: String,
}

/// The value of a [`SessionKey`].
pub struct SessionKeyView {
    pub community: Seq<char>,
    pub sender: Seq<char>,
}

impl View for SessionKey {
    type V = SessionKeyView;

    open spec fn view(&self) -> SessionKeyView {
        SessionKeyView { community: self.community@, sender: self.sender@ }
    }
}

/// The key of the session of `sender` in `community`.
pub open spec fn session_key(community: u128, sender: Seq<u8>) -> SessionKeyView {
    SessionKeyView { community: identifiers::hyphenated(community), sender: text::hex(sender) }
}

impl SessionKey {
    /// The key of the session of `sender` under `tenant`.
    pub fn new(tenant: &TenantContext, sender: PublicKey) -> (key: SessionKey)
        ensures
            key@ == session_key(tenant.community, sender@),
    {
        SessionKey {
            community: identifiers::uuid_text(tenant.community),
            sender: sender.to_hex(),
        }
    }

    /// Whether both are the same key.
    pub fn same(&self, other: &SessionKey) -> (same: bool)
        ensures
            same == (self@ == other@),
    {
        text::text_eq(self.community.as_str(), other.community.as_str()) && text::text_eq(
            self.sender.as_str(),
            other.sender.as_str(),
        )
    }

    /// A copy of the key.
    pub fn duplicate(&self) -> (copy: SessionKey)
        ensures
            copy@ == self@,
    {
        SessionKey { community: self.community.clone(), sender: self.sender.clone() }
    }
}

/// Sessions are scoped by verified sender and tenant: two requests share a key
/// only if both are the same.
pub proof fn sessions_are_scoped_by_sender_and_tenant(
    community_a: u128,
    sender_a: Seq<u8>,
    community_b: u128,
    sender_b: Seq<u8>,
)
    requires
        session_key(community_a, sender_a) == session_key(community_b, sender_b),
    ensures
        community_a == community_b,
        sender_a == sender_b,
{
    identifiers::hyphenated_is_injective(community_a, community_b);
    text::hex_is_injective(sender_a, sender_b);
}

/// A running session and the channel that leads to it.
#[derive(Debug, Clone, PartialEq, Eq)]
pub struct SessionEntry {
    /// Whose session it is.
    pub key: SessionKey,
    /// The channel that leads to it.
    pub channel: u64,
}

/// The running sessions.
#[derive(Debug)]
pub struct SessionTable {
    /// One entry for each key.
    pub entries: Vec<SessionEntry>,
}

/// Whether no session of `table` is behind `channel`.
pub open spec fn unused(table: Map<SessionKeyView, u64>, channel: u64) -> bool {
    forall|key: SessionKeyView| #[trigger] table.contains_key(key) ==> table[key] != channel
}

/// Whether `entries` has `key` at `i`.
pub open spec fn entry_at(entries: Seq<SessionEntry>, key: SessionKeyView, i: int) -> bool {
    0 <= i < entries.len() && entries[i].key@ == key
}

impl View for SessionTable {
    type V = Map<SessionKeyView, u64>;

    open spec fn view(&self) -> Map<SessionKeyView, u64> {
        Map::new(
            |key: SessionKeyView| exists|i: int| entry_at(self.entries@, key, i),
            |key: SessionKeyView|
                self.entries@[choose|i: int| entry_at(self.entries@, key, i)].channel,
        )
    }
}

impl SessionTable {
    /// Whether no key and no channel occurs twice.
    pub open spec fn wf(&self) -> bool {
        &&& forall|i: int, j: int|
            0 <= i < self.entries@.len() && 0 <= j < self.entries@.len()
                && #[trigger] self.entries@[i].key@ == #[trigger] self.entries@[j].key@ ==> i == j
        &&& forall|i: int, j: int|
            0 <= i < self.entries@.len() && 0 <= j < self.entries@.len()
                && #[trigger] self.entries@[i].channel == #[trigger] self.entries@[j].channel ==> i
                == j
    }

    /// Different keys have different channels, so that no request reaches the
    /// session of another sender or tenant.
    pub proof fn sessions_have_their_own_channels(&self, a: SessionKeyView, b: SessionKeyView)
        requires
            self.wf(),
            self@.contains_key(a),
            self@.contains_key(b),
            self@[a] == self@[b],
        ensures
            a == b,
    {
        let i = choose|i: int| entry_at(self.entries@, a, i);
        let j = choose|j: int| entry_at(self.entries@, b, j);
        assert(entry_at(self.entries@, a, i) && entry_at(self.entries@, b, j));
        assert(self.entries@[i].channel == self.entries@[j].channel);
    }

    /// A table without sessions.
    pub fn new() -> (table: SessionTable)
        ensures
            table.wf(),
            table@ == Map::<SessionKeyView, u64>::empty(),
    {
        let table = SessionTable { entries: Vec::new() };
        assert(table@ =~= Map::empty());
        table
    }

    proof fn lemma_entry(&self, i: int)
        requires
            self.wf(),
            0 <= i < self.entries@.len(),
        ensures
            self@.contains_key(self.entries@[i].key@),
            self@[self.entries@[i].key@] == self.entries@[i].channel,
    {
        let key = self.entries@[i].key@;
        assert(entry_at(self.entries@, key, i));
        let j = choose|j: int| entry_at(self.entries@, key, j);
        assert(entry_at(self.entries@, key, j));
    }

    fn find(&self, key: &SessionKey) -> (at: Option<usize>)
        requires
            self.wf(),
        ensures
            match at {
                Some(i) => i < self.entries@.len() && self.entries@[i as int].key@ == key@
                    && self@.contains_key(key@) && self@[key@] == self.entries@[i as int].channel,
                None => !self@.contains_key(key@),
            },
    {
        let mut i: usize = 0;
        while i < self.entries.len()
            invariant
                self.wf(),
                i <= self.entries@.len(),
                forall|j: int| 0 <= j < i ==> (#[trigger] self.entries@[j]).key@ != key@,
            decreases self.entries@.len() - i,
        {
            if self.entries[i].key.same(key) {
                proof {
                    self.lemma_entry(i as int);
                }
                return Some(i);
            }
            i += 1;
        }
        assert(!self@.contains_key(key@)) by {
            if self@.contains_key(key@) {
                let j = choose|j: int| entry_at(self.entries@, key@, j);
                assert(entry_at(self.entries@, key@, j));
            }
        }
        None
    }

    /// The channel of the session of `key`, and whether that session has yet to
    /// be started, behind the channel `fresh`.
    pub fn acquire(&mut self, key: &SessionKey, fresh: u64) -> (lead: (u64, bool))
        requires
            old(self).wf(),
            unused(old(self)@, fresh),
        ensures
            final(self).wf(),
            if old(self)@.contains_key(key@) {
                lead == (old(self)@[key@], false) && final(self)@ == old(self)@
            } else {
                lead == (fresh, true) && final(self)@ == old(self)@.insert(key@, fresh)
            },
    {
        match self.find(key) {
            Some(i) => (self.entries[i].channel, false),
            None => {
                let ghost before = *self;
                self.entries.push(SessionEntry { key: key.duplicate(), channel: fresh });
                proof {
                    assert forall|j: int| 0 <= j < before.entries@.len() implies (
                    #[trigger] before.entries@[j]).key@ != key@ && before.entries@[j].channel
                        != fresh by {
                        before.lemma_entry(j);
                    }
                    assert(self.wf());
                    assert forall|k: SessionKeyView|
                        self@.contains_key(k) <==> before@.insert(key@, fresh).contains_key(k) by {
                        if before@.contains_key(k) {
                            let j = choose|j: int| entry_at(before.entries@, k, j);
                            assert(entry_at(self.entries@, k, j));
                        }
                        if self@.contains_key(k) {
                            let j = choose|j: int| entry_at(self.entries@, k, j);
                            if j < before.entries@.len() {
                                assert(entry_at(before.entries@, k, j));
                            }
                        }
                        assert(entry_at(self.entries@, key@, before.entries@.len() as int));
                    }
                    assert forall|k: SessionKeyView| self@.contains_key(k) implies self@[k]
                        == before@.insert(key@, fresh)[k] by {
                        let j = choose|j: int| entry_at(self.entries@, k, j);
                        self.lemma_entry(j);
                        if j < before.entries@.len() {
                            before.lemma_entry(j);
                        }
                    }
                    assert(self@ =~= before@.insert(key@, fresh));
                }
                (fresh, true)
            },
        }
    }

    /// Removes the session of `key` if it still is the one behind `channel`.
    pub fn release(&mut self, key: &SessionKey, channel: u64)
        requires
            old(self).wf(),
        ensures
            final(self).wf(),
            final(self)@ == if old(self)@.contains_key(key@) && old(self)@[key@] == channel {
                old(self)@.remove(key@)
            } else {
                old(self)@
            },
    {
        if let Some(i) = self.find(key) {
            if self.entries[i].channel == channel {
                let ghost before = *self;
                self.entries.remove(i);
                proof {
                    assert(forall|j: int|
                        0 <= j < self.entries@.len() ==> (#[trigger] self.entries@[j])
                            == before.entries@[if j < i {
                            j
                        } else {
                            j + 1
                        }]);
                    assert(self.wf());
                    assert forall|k: SessionKeyView|
                        self@.contains_key(k) <==> before@.remove(key@).contains_key(k) by {
                        if before@.remove(key@).contains_key(k) {
                            let j = choose|j: int| entry_at(before.entries@, k, j);
                            assert(entry_at(before.entries@, k, j));
                            assert(entry_at(
                                self.entries@,
                                k,
                                if j < i {
                                    j
                                } else {
                                    j - 1
                                },
                            ));
                        }
                        if self@.contains_key(k) {
                            let j = choose|j: int| entry_at(self.entries@, k, j);
                            assert(entry_at(
                                before.entries@,
                                k,
                                if j < i {
                                    j
                                } else {
                                    j + 1
                                },
                            ));
                        }
                    }
                    assert forall|k: SessionKeyView| self@.contains_key(k) implies self@[k]
                        == before@.remove(key@)[k] by {
                        let j = choose|j: int| entry_at(self.entries@, k, j);
                        self.lemma_entry(j);
                        before.lemma_entry(if j < i {
                            j
                        } else {
                            j + 1
                        });
                    }
                    assert(self@ =~= before@.remove(key@));
                }
            }
        }
    }
}

/// What to do next with a request on its way to a session.
#[derive(Debug, Clone, Copy, PartialEq, Eq)]
pub enum RouteAction {
    /// Offer the request to `channel`, after starting a session behind it if
    /// `start` says so.
    Deliver {
        /// Where to.
        channel: u64,
        /// Whether the session has yet to be started.
        start: bool,
    },
    /// The request was delivered.
    Done,
    /// The request is given up.
    GiveUp,
}

/// A request on its way to a session.
///
/// A cancelled virtual connection can finish before its table entry is
/// observed. Its dead channel is removed, and one replacement session is
/// started.
#[derive(Debug)]
pub struct Route {
    /// Whose session.
    pub key: SessionKey,
    /// The channel that the request was last offered to.
    pub channel: u64,
    /// How often the request may still be offered.
    pub attempts_left: u8,
}

/// A request is offered to the session that its key has, and a session is
/// started exactly if it has none, behind the channel that was free. The table
/// leads to that channel afterwards, and all other keys keep theirs.
pub proof fn requests_reach_the_session_of_their_key(
    before: Map<SessionKeyView, u64>,
    after: Map<SessionKeyView, u64>,
    key: SessionKeyView,
    fresh: u64,
    action: RouteAction,
    other: SessionKeyView,
)
    requires
        offered_to(before, after, key, fresh, action),
        other != key,
    ensures
        action is Deliver,
        action->start <==> !before.contains_key(key),
        !action->start ==> action->channel == before[key],
        action->start ==> action->channel == fresh,
        after.contains_key(key) && after[key] == action->channel,
        after.contains_key(other) <==> before.contains_key(other),
        before.contains_key(other) ==> after[other] == before[other],
{
}

/// A session that turned out dead leaves the table, and one that took its place
/// meanwhile, or that of another key, does not. The next request for the key
/// then starts a new session or reaches the one that took its place.
pub proof fn dead_sessions_make_room(
    table: Map<SessionKeyView, u64>,
    key: SessionKeyView,
    channel: u64,
    other: SessionKeyView,
)
    requires
        other != key,
    ensures
        ({
            let after = released_from(table, key, channel);
            &&& after.contains_key(key) <==> table.contains_key(key) && table[key] != channel
            &&& after.contains_key(key) ==> after[key] == table[key]
            &&& after.contains_key(other) <==> table.contains_key(other)
            &&& table.contains_key(other) ==> after[other] == table[other]
        }),
{
}

/// What follows an attempt to reach the session of `key`: it is offered to the
/// session of the table, or to a new one behind `fresh`.
pub open spec fn offered_to(
    before: Map<SessionKeyView, u64>,
    after: Map<SessionKeyView, u64>,
    key: SessionKeyView,
    fresh: u64,
    action: RouteAction,
) -> bool {
    if before.contains_key(key) {
        action == (RouteAction::Deliver { channel: before[key], start: false }) && after == before
    } else {
        action == (RouteAction::Deliver { channel: fresh, start: true }) && after == before.insert(
            key,
            fresh,
        )
    }
}

/// The table without the session of `key`, if that is the one behind `channel`.
pub open spec fn released_from(
    table: Map<SessionKeyView, u64>,
    key: SessionKeyView,
    channel: u64,
) -> Map<SessionKeyView, u64> {
    if table.contains_key(key) && table[key] == channel {
        table.remove(key)
    } else {
        table
    }
}

/// Whether a request on its way, last offered to `before.channel`, went on as
/// `action` says after it was taken there or not.
pub open spec fn route_went_on(
    before: Route,
    table: Map<SessionKeyView, u64>,
    delivered: bool,
    fresh: u64,
    after: Route,
    table_after: Map<SessionKeyView, u64>,
    action: RouteAction,
) -> bool {
    &&& after.key@ == before.key@
    &&& if delivered {
        action is Done && table_after == table && after == before
    } else {
        let freed = released_from(table, before.key@, before.channel);
        &&& after.attempts_left == before.attempts_left - 1
        &&& if before.attempts_left == 1 {
            action is GiveUp && table_after == freed
        } else {
            &&& action matches RouteAction::Deliver { channel, .. }
            &&& channel == after.channel
            &&& offered_to(freed, table_after, before.key@, fresh, action)
        }
    }
}

/// Whether `route` has set out, and `action` offers its request.
pub open spec fn route_set_out(
    key: SessionKeyView,
    table: Map<SessionKeyView, u64>,
    fresh: u64,
    route: Route,
    table_after: Map<SessionKeyView, u64>,
    action: RouteAction,
) -> bool {
    &&& route.key@ == key
    &&& route.attempts_left == DELIVERY_ATTEMPTS
    &&& action matches RouteAction::Deliver { channel, .. }
    &&& channel == route.channel
    &&& offered_to(table, table_after, key, fresh, action)
}

/// A request whose session is dead is offered once more: to a new session, which
/// the table then leads to, unless the dead one has been replaced already. If that
/// one is dead too it is given up, and the table is rid of both. A request that
/// was taken is done with.
pub proof fn requests_outlive_one_dead_session(
    key: SessionKeyView,
    table: Map<SessionKeyView, u64>,
    first: (Route, Map<SessionKeyView, u64>, RouteAction),
    fresh: u64,
    second: (Route, Map<SessionKeyView, u64>, RouteAction),
    other: u64,
    third: (Route, Map<SessionKeyView, u64>, RouteAction),
    more: u64,
    taken: bool,
)
    requires
        route_set_out(key, table, fresh, first.0, first.1, first.2),
    ensures
        first.2 is Deliver,
        first.2->channel == if table.contains_key(key) {
            table[key]
        } else {
            fresh
        },
        first.0.attempts_left == 2,
        route_went_on(first.0, first.1, false, other, second.0, second.1, second.2) ==> {
            &&& second.2 == (RouteAction::Deliver { channel: other, start: true })
            &&& second.1 == table.insert(key, other)
            &&& second.0.attempts_left == 1
            &&& second.0.key@ == key
            &&& second.0.channel == other
            &&& route_went_on(second.0, second.1, taken, more, third.0, third.1, third.2) ==> {
                &&& taken ==> third.2 is Done && third.1 == second.1 && third.0 == second.0
                &&& !taken ==> third.2 is GiveUp && third.1 == table.remove(key)
            }
        },
{
    assert(first.1.remove(key).insert(key, other) =~= table.insert(key, other));
    assert(table.insert(key, other).remove(key) =~= table.remove(key));
}

impl Route {
    /// Sets out with a request for the session of `key`. A session that has to
    /// be started is put behind `fresh`.
    pub fn set_out(key: SessionKey, sessions: &mut SessionTable, fresh: u64) -> (step: (
        Route,
        RouteAction,
    ))
        requires
            old(sessions).wf(),
            unused(old(sessions)@, fresh),
        ensures
            final(sessions).wf(),
            route_set_out(key@, old(sessions)@, fresh, step.0, final(sessions)@, step.1),
            step.0.key@ == key@,
            step.0.attempts_left == DELIVERY_ATTEMPTS,
            step.1 matches RouteAction::Deliver { channel, .. } && channel == step.0.channel,
            offered_to(old(sessions)@, final(sessions)@, key@, fresh, step.1),
    {
        let (channel, start) = sessions.acquire(&key, fresh);
        (
            Route { key, channel, attempts_left: DELIVERY_ATTEMPTS },
            RouteAction::Deliver { channel, start },
        )
    }

    /// Goes on after the request was taken or its session turned out dead.
    pub fn on_delivery(&mut self, delivered: bool, sessions: &mut SessionTable, fresh: u64) -> (action:
        RouteAction)
        requires
            old(sessions).wf(),
            unused(old(sessions)@, fresh),
            old(self).attempts_left > 0,
        ensures
            final(sessions).wf(),
            route_went_on(
                *old(self),
                old(sessions)@,
                delivered,
                fresh,
                *final(self),
                final(sessions)@,
                action,
            ),
            final(self).key@ == old(self).key@,
            delivered ==> action is Done && final(sessions)@ == old(sessions)@ && *final(self)
                == *old(self),
            !delivered ==> final(self).attempts_left == old(self).attempts_left - 1,
            !delivered && final(self).attempts_left == 0 ==> action is GiveUp && final(sessions)@
                == released_from(old(sessions)@, old(self).key@, old(self).channel),
            !delivered && final(self).attempts_left > 0 ==> {
                &&& action matches RouteAction::Deliver { channel, .. }
                &&& channel == final(self).channel
                &&& offered_to(
                    released_from(old(sessions)@, old(self).key@, old(self).channel),
                    final(sessions)@,
                    old(self).key@,
                    fresh,
                    action,
                )
            },
    {
        if delivered {
            return RouteAction::Done;
        }
        sessions.release(&self.key, self.channel);
        self.attempts_left = self.attempts_left - 1;
        if self.attempts_left == 0 {
            return RouteAction::GiveUp;
        }
        let (channel, start) = sessions.acquire(&self.key, fresh);
        self.channel = channel;
        RouteAction::Deliver { channel, start }
    }
}

/// The identifiers of the most recent envelopes, oldest first.
#[derive(Debug)]
pub struct DedupWindow {
    /// The identifiers.
    pub ids: VecDeque<String>,
}

/// The window after `id` was accepted.
pub open spec fn window_after(window: Seq<Seq<char>>, id: Seq<char>) -> Seq<Seq<char>> {
    let longer = window.push(id);
    if longer.len() > SESSION_DEDUP_CAPACITY {
        longer.drop_first()
    } else {
        longer
    }
}

impl DedupWindow {
    /// The remembered identifiers, oldest first.
    pub open spec fn window(&self) -> Seq<Seq<char>> {
        text::texts(self.ids@)
    }

    /// Whether the window keeps its capacity and remembers nothing twice.
    pub open spec fn wf(&self) -> bool {
        self.window().len() <= SESSION_DEDUP_CAPACITY && self.window().no_duplicates()
    }

    /// A window that remembers nothing.
    pub fn new() -> (window: DedupWindow)
        ensures
            window.wf(),
            window.window() == Seq::<Seq<char>>::empty(),
    {
        let window = DedupWindow { ids: VecDeque::new() };
        assert(window.window() =~= Seq::empty());
        window
    }

    /// Whether `id` is remembered.
    pub fn contains(&self, id: &str) -> (yes: bool)
        ensures
            yes == self.window().contains(id@),
    {
        let mut i: usize = 0;
        while i < self.ids.len()
            invariant
                i <= self.ids@.len(),
                forall|j: int| 0 <= j < i ==> #[trigger] self.window()[j] != id@,
            decreases self.ids@.len() - i,
        {
            assert(self.window()[i as int] == self.ids@[i as int]@);
            if text::text_eq(self.ids[i].as_str(), id) {
                assert(self.window().contains(id@));
                return true;
            }
            i += 1;
        }
        false
    }

    /// Remembers `id` in place of the oldest, unless it is remembered already.
    /// Returns whether it was new.
    pub fn insert(&mut self, id: String) -> (fresh: bool)
        requires
            old(self).wf(),
        ensures
            final(self).wf(),
            fresh == !old(self).window().contains(id@),
            final(self).window() == if fresh {
                window_after(old(self).window(), id@)
            } else {
                old(self).window()
            },
    {
        if self.contains(id.as_str()) {
            return false;
        }
        let ghost before = self.window();
        self.ids.push_back(id);
        assert(self.window() =~= before.push(id@));
        if self.ids.len() > SESSION_DEDUP_CAPACITY {
            self.ids.pop_front();
            assert(self.window() =~= before.push(id@).drop_first());
        }
        true
    }
}

/// A window keeps the latest identifiers, as many as its capacity, and
/// remembers none of them twice.
pub proof fn windows_keep_the_latest(window: Seq<Seq<char>>, id: Seq<char>)
    requires
        window.len() <= SESSION_DEDUP_CAPACITY,
        window.no_duplicates(),
        !window.contains(id),
    ensures
        ({
            let all = window.push(id);
            let after = window_after(window, id);
            &&& after.len() <= SESSION_DEDUP_CAPACITY
            &&& after.len() == all.len() || after.len() == SESSION_DEDUP_CAPACITY
            &&& after == all.skip(all.len() - after.len())
            &&& all.len() <= 1_024 ==> after == all
            &&& all.len() > 1_024 ==> after.len() == 1_024
            &&& after.no_duplicates()
            &&& after.contains(id)
        }),
{
    let after = window_after(window, id);
    assert(after.last() == id);
    assert(after =~= window.push(id).skip(window.push(id).len() - after.len()));
}

/// The window after all of `ids` were accepted, one after the other.
pub open spec fn window_after_all(window: Seq<Seq<char>>, ids: Seq<Seq<char>>) -> Seq<Seq<char>>
    decreases ids.len(),
{
    if ids.len() == 0 {
        window
    } else {
        window_after(window_after_all(window, ids.drop_last()), ids.last())
    }
}

/// An accepted envelope is recognised for as long as fewer than
/// [`SESSION_DEDUP_CAPACITY`] others have been accepted after it.
pub proof fn accepted_envelopes_are_remembered(
    window: Seq<Seq<char>>,
    id: Seq<char>,
    later: Seq<Seq<char>>,
)
    requires
        window.len() <= SESSION_DEDUP_CAPACITY,
        later.len() < SESSION_DEDUP_CAPACITY,
    ensures
        window_after_all(window_after(window, id), later).contains(id),
{
    lemma_window_holds(window, id, later);
}

proof fn lemma_window_holds(window: Seq<Seq<char>>, id: Seq<char>, later: Seq<Seq<char>>)
    requires
        window.len() <= SESSION_DEDUP_CAPACITY,
        later.len() < SESSION_DEDUP_CAPACITY,
    ensures
        ({
            let after = window_after_all(window_after(window, id), later);
            &&& later.len() < after.len() <= SESSION_DEDUP_CAPACITY
            &&& after[after.len() - 1 - later.len()] == id
        }),
    decreases later.len(),
{
    if later.len() > 0 {
        lemma_window_holds(window, id, later.drop_last());
    }
}

/// A request on its way through a session.
#[derive(Debug, Clone, PartialEq, Eq)]
pub struct SessionInput {
    /// Identifier of the envelope.
    pub event_id: String,
    /// Public relay that the envelope came from.
    pub relay_url: String,
    /// The decrypted request.
    pub request: GatewayRequest,
}

/// An encrypted response and the public relay that it goes to.
#[derive(Debug, Clone, PartialEq, Eq)]
pub struct EncryptedResponse {
    /// Public relay.
    pub relay_url: String,
    /// Serialized kind `1059` event.
    pub event: String,
}

/// The session of one verified sender.
///
/// Responses go to the relay that the latest accepted request came from, in the
/// client launch that sent it.
#[derive(Debug)]
pub struct Session {
    /// Verified sender whose requests are served.
    pub owner: PublicKey,
    /// Envelopes that were served.
    pub seen: DedupWindow,
    /// Where responses go.
    pub relay_url: String,
    /// Client launch that responses are for.
    pub session_id: String,
}

/// The value of a [`Session`].
pub struct SessionView {
    pub owner: Seq<u8>,
    pub seen: Seq<Seq<char>>,
    pub relay_url: Seq<char>,
    pub session_id: Seq<char>,
}

impl View for Session {
    type V = SessionView;

    open spec fn view(&self) -> SessionView {
        SessionView {
            owner: self.owner@,
            seen: self.seen.window(),
            relay_url: self.relay_url@,
            session_id: self.session_id@,
        }
    }
}

/// Whether a session serves `input`: it is the owner's, and it is new.
pub open spec fn serves(session: SessionView, input: SessionInput) -> bool {
    input.request.sender@ == session.owner && !session.seen.contains(input.event_id@)
}

/// A session after it served `input`.
pub open spec fn session_after(session: SessionView, input: SessionInput) -> SessionView {
    SessionView {
        owner: session.owner,
        seen: window_after(session.seen, input.event_id@),
        relay_url: input.relay_url@,
        session_id: input.request.session_id@,
    }
}

/// Whether `encrypted` can be what a session makes of a response: an envelope
/// for its owner, in the client launch and for the relay of the latest accepted
/// request, or an error.
pub open spec fn response_of(
    secret: Seq<u8>,
    max: nat,
    session: SessionView,
    response: FrameView,
    encrypted: Result<EncryptedResponse, GatewayError>,
) -> bool {
    exists|envelope: Result<RelayFrame, GatewayError>|
        {
            &&& #[trigger] nip17_gateway::response_wrapped(
                secret,
                max,
                session.owner,
                session.session_id,
                response,
                envelope,
            )
            &&& match encrypted {
                Ok(encrypted) => {
                    &&& encrypted.relay_url@ == session.relay_url
                    &&& envelope matches Ok(frame)
                    &&& frame@ == FrameView::Text(encrypted.event@)
                },
                Err(error) => envelope == Err::<RelayFrame, GatewayError>(error),
            }
        }
}

/// A session after its first request.
pub open spec fn session_started(first: SessionInput) -> SessionView {
    SessionView {
        owner: first.request.sender@,
        seen: seq![first.event_id@],
        relay_url: first.relay_url@,
        session_id: first.request.session_id@,
    }
}

/// Whether a session that took in the frame of the envelope `id` turned from
/// `before` into `after` and gave `dispatched`.
pub open spec fn frame_taken_in(
    before: SessionView,
    id: Seq<char>,
    frame: RelayFrame,
    after: SessionView,
    dispatched: Option<RelayFrame>,
) -> bool {
    if before.seen.contains(id) {
        dispatched is None && after == before
    } else {
        &&& dispatched == Some(frame)
        &&& after == (SessionView { seen: window_after(before.seen, id), ..before })
    }
}

/// The sender of the first request owns the session: it serves their next
/// envelopes, and neither the first one again nor those of anybody else. It answers
/// to where the first request came from.
pub proof fn sessions_begin_with_their_owner(first: SessionInput, next: SessionInput)
    ensures
        session_started(first).owner == first.request.sender@,
        session_started(first).relay_url == first.relay_url@,
        session_started(first).session_id == first.request.session_id@,
        !serves(session_started(first), first),
        serves(session_started(first), next) <==> next.request.sender@ == first.request.sender@
            && next.event_id@ != first.event_id@,
{
    let seen = session_started(first).seen;
    assert(seen[0] == first.event_id@);
    assert(seen.contains(first.event_id@));
}

/// A frame is dispatched as it is the first time that its envelope is taken in, and
/// not at all the second time; where the session answers to stays as it is.
pub proof fn frames_are_dispatched_once(
    before: SessionView,
    id: Seq<char>,
    frame: RelayFrame,
    after: SessionView,
    dispatched: Option<RelayFrame>,
    again: SessionView,
    second: Option<RelayFrame>,
)
    requires
        frame_taken_in(before, id, frame, after, dispatched),
    ensures
        dispatched == if before.seen.contains(id) {
            None
        } else {
            Some(frame)
        },
        after.seen.contains(id),
        after.owner == before.owner,
        after.relay_url == before.relay_url,
        after.session_id == before.session_id,
        frame_taken_in(after, id, frame, again, second) ==> second is None && again == after,
{
    if !before.seen.contains(id) {
        assert(after.seen.last() == id);
    }
}

impl Session {
    /// Whether the session's window is well formed.
    pub open spec fn wf(&self) -> bool {
        self.seen.wf()
    }

    /// Starts a session with its first request, and gives the frame to
    /// dispatch. The sender of that request owns the session.
    pub fn start(first: SessionInput) -> (step: (Session, RelayFrame))
        ensures
            step.0.wf(),
            step.0@ == session_started(first),
            step.0@.owner == first.request.sender@,
            step.0@.seen == seq![first.event_id@],
            step.0@.relay_url == first.relay_url@,
            step.0@.session_id == first.request.session_id@,
            step.1 == first.request.frame,
    {
        let mut seen = DedupWindow::new();
        seen.insert(first.event_id);
        assert(seen.window() =~= seq![first.event_id@]);
        (
            Session {
                owner: first.request.sender,
                seen,
                relay_url: first.relay_url,
                session_id: first.request.session_id,
            },
            first.request.frame,
        )
    }

    /// Takes in the frame of an envelope, whoever sealed it, and gives it back to
    /// be dispatched unless that envelope was dispatched before.
    pub fn dispatch_request(&mut self, event_id: String, frame: RelayFrame) -> (dispatched: Option<
        RelayFrame,
    >)
        requires
            old(self).wf(),
        ensures
            final(self).wf(),
            frame_taken_in(old(self)@, event_id@, frame, final(self)@, dispatched),
            dispatched == if old(self)@.seen.contains(event_id@) {
                None
            } else {
                Some(frame)
            },
            final(self)@ == if old(self)@.seen.contains(event_id@) {
                old(self)@
            } else {
                (SessionView { seen: window_after(old(self)@.seen, event_id@), ..old(self)@ })
            },
    {
        if self.seen.insert(event_id) {
            Some(frame)
        } else {
            None
        }
    }

    /// Encrypts a response of the virtual connection for the session's owner.
    pub fn encrypt_response(&self, gateway: &Nip17Gateway, response: RelayFrame) -> (encrypted:
        Result<EncryptedResponse, GatewayError>)
        ensures
            response_of(gateway.secret(), gateway.limit(), self@, response@, encrypted),
    {
        let request = GatewayRequest {
            sender: self.owner,
            session_id: self.session_id.clone(),
            frame: RelayFrame::Text(String::new()),
        };
        let envelope = gateway.wrap_response(&request, response);
        assert(nip17_gateway::response_wrapped(
            gateway.secret(),
            gateway.limit(),
            self@.owner,
            self@.session_id,
            response@,
            envelope,
        ));
        match envelope {
            Ok(RelayFrame::Text(event)) => Ok(
                EncryptedResponse { relay_url: self.relay_url.clone(), event },
            ),
            Ok(_) => Err(GatewayError::NonTextFrame),
            Err(error) => Err(error),
        }
    }
}

/// What a session wakes up for.
#[derive(Debug)]
pub enum SessionEvent {
    /// A request arrived; `None` if there will be no more.
    Request(Option<SessionInput>),
    /// The virtual connection has something.
    Response(NextFrame),
}

/// What to do next for a session.
#[derive(Debug)]
pub enum SessionAction {
    /// Hand this frame to the virtual connection.
    Receive(RelayFrame),
    /// Hand this response to the loop of its public relay.
    Publish(EncryptedResponse),
    /// Wait; a response, if there was one, could not be encrypted.
    Wait,
    /// Close the virtual connection and end.
    Close,
}

/// Whether `action` is what a session of the gateway with `secret` and frame
/// limit `max` does on `event`, which turns it from `before` into `after`.
pub open spec fn session_turn(
    secret: Seq<u8>,
    max: nat,
    before: SessionView,
    event: SessionEvent,
    after: SessionView,
    action: SessionAction,
) -> bool {
    match event {
        SessionEvent::Request(Some(input)) => if serves(before, input) {
            &&& action == SessionAction::Receive(input.request.frame)
            &&& after == session_after(before, input)
        } else {
            action is Wait && after == before
        },
        SessionEvent::Request(None) => action is Close && after == before,
        SessionEvent::Response(NextFrame::Ended) => action is Close && after == before,
        SessionEvent::Response(NextFrame::Wait) => action is Wait && after == before,
        SessionEvent::Response(NextFrame::Frame(response)) => {
            &&& after == before
            &&& match action {
                SessionAction::Publish(encrypted) => response_of(
                    secret,
                    max,
                    before,
                    response@,
                    Ok(encrypted),
                ),
                SessionAction::Wait => exists|error: GatewayError| #[trigger]
                    response_of(secret, max, before, response@, Err(error)),
                _ => false,
            }
        },
    }
}

/// The frame of a request is handed on exactly if its envelope is the owner's and
/// new, as it is; responses go from then on to the relay and the client launch
/// that it names. Any other request changes nothing.
pub proof fn new_requests_of_the_owner_are_handed_on(
    secret: Seq<u8>,
    max: nat,
    before: SessionView,
    input: SessionInput,
    after: SessionView,
    action: SessionAction,
)
    requires
        session_turn(secret, max, before, SessionEvent::Request(Some(input)), after, action),
    ensures
        ({
            let handed_on = input.request.sender@ == before.owner && !before.seen.contains(
                input.event_id@,
            );
            &&& action is Receive <==> handed_on
            &&& handed_on ==> {
                &&& action == SessionAction::Receive(input.request.frame)
                &&& after.owner == before.owner
                &&& after.relay_url == input.relay_url@
                &&& after.session_id == input.request.session_id@
                &&& after.seen.contains(input.event_id@)
            }
            &&& !handed_on ==> action is Wait && after == before
        }),
{
    if serves(before, input) {
        assert(after.seen.last() == input.event_id@);
    }
}

/// A session closes when there will be no more requests or its connection has
/// ended, and only then; it goes on whatever a response is, and publishes each
/// that it can encrypt.
pub proof fn sessions_end_with_their_connection(
    secret: Seq<u8>,
    max: nat,
    before: SessionView,
    event: SessionEvent,
    after: SessionView,
    action: SessionAction,
)
    requires
        session_turn(secret, max, before, event, after, action),
    ensures
        action is Close <==> event == SessionEvent::Request(None) || event
            == SessionEvent::Response(NextFrame::Ended),
        event is Response || action is Close ==> after == before,
        action matches SessionAction::Publish(encrypted) ==> {
            &&& event is Response
            &&& encrypted.relay_url@ == before.relay_url
        },
        event matches SessionEvent::Response(NextFrame::Frame(response)) ==> response@ matches FrameView::Text(
            content,
        ) ==> envelope::is_key(before.owner) && before.owner.len() == 32 && text::utf8_len(content)
            <= max && protocol::json_size(before.session_id) + protocol::json_size(content) <= 40_648
            ==> action is Publish,
{
    if let SessionEvent::Response(NextFrame::Frame(response)) = event {
        if let FrameView::Text(content) = response@ {
            if envelope::is_key(before.owner) && before.owner.len() == 32 && text::utf8_len(content)
                <= max && protocol::json_size(before.session_id) + protocol::json_size(content)
                <= 40_648 && action is Wait {
                let error = choose|error: GatewayError| #[trigger]
                    response_of(secret, max, before, response@, Err(error));
                responses_within_the_bound_are_published(
                    secret,
                    max,
                    before,
                    content,
                    Err(error),
                );
            }
        }
    }
}

impl Session {
    /// One turn of a session. Requests of other senders and repeated envelopes
    /// are passed over.
    pub fn run_session(&mut self, gateway: &Nip17Gateway, event: SessionEvent) -> (action:
        SessionAction)
        requires
            old(self).wf(),
        ensures
            final(self).wf(),
            session_turn(
                gateway.secret(),
                gateway.limit(),
                old(self)@,
                event,
                final(self)@,
                action,
            ),
            match event {
                SessionEvent::Request(Some(input)) => if serves(old(self)@, input) {
                    &&& action == SessionAction::Receive(input.request.frame)
                    &&& final(self)@ == session_after(old(self)@, input)
                } else {
                    action is Wait && final(self)@ == old(self)@
                },
                SessionEvent::Request(None) => action is Close && final(self)@ == old(self)@,
                SessionEvent::Response(NextFrame::Ended) => action is Close && final(self)@
                    == old(self)@,
                SessionEvent::Response(NextFrame::Wait) => action is Wait && final(self)@
                    == old(self)@,
                SessionEvent::Response(NextFrame::Frame(response)) => {
                    &&& final(self)@ == old(self)@
                    &&& match action {
                        SessionAction::Publish(encrypted) => response_of(
                            gateway.secret(),
                            gateway.limit(),
                            old(self)@,
                            response@,
                            Ok(encrypted),
                        ),
                        SessionAction::Wait => exists|error: GatewayError| #[trigger]
                            response_of(
                                gateway.secret(),
                                gateway.limit(),
                                old(self)@,
                                response@,
                                Err(error),
                            ),
                        _ => false,
                    }
                },
            },
    {
        match event {
            SessionEvent::Request(Some(input)) => {
                if !input.request.sender.same(&self.owner) {
                    return SessionAction::Wait;
                }
                match self.dispatch_request(input.event_id, input.request.frame) {
                    Some(frame) => {
                        self.relay_url = input.relay_url;
                        self.session_id = input.request.session_id;
                        SessionAction::Receive(frame)
                    },
                    None => SessionAction::Wait,
                }
            },
            SessionEvent::Request(None) => SessionAction::Close,
            SessionEvent::Response(NextFrame::Ended) => SessionAction::Close,
            SessionEvent::Response(NextFrame::Wait) => SessionAction::Wait,
            SessionEvent::Response(NextFrame::Frame(response)) => {
                match self.encrypt_response(gateway, response) {
                    Ok(encrypted) => SessionAction::Publish(encrypted),
                    Err(error) => {
                        assert(response_of(
                            gateway.secret(),
                            gateway.limit(),
                            self@,
                            response@,
                            Err(error),
                        ));
                        SessionAction::Wait
                    },
                }
            },
        }
    }
}

/// A session after `input` arrived, whether it served it or not.
pub open spec fn session_given(session: SessionView, input: SessionInput) -> SessionView {
    if serves(session, input) {
        session_after(session, input)
    } else {
        session
    }
}

/// A session after `inputs` arrived, one after the other.
pub open spec fn session_given_all(session: SessionView, inputs: Seq<SessionInput>) -> SessionView
    decreases inputs.len(),
{
    if inputs.len() == 0 {
        session
    } else {
        session_given(session_given_all(session, inputs.drop_last()), inputs.last())
    }
}

/// Whether the owner of `session` sealed an input under the identifier `id`.
pub open spec fn sealed_under(session: SessionView, input: SessionInput, id: Seq<char>) -> bool {
    input.request.sender@ == session.owner && input.event_id@ == id
}

/// Every new envelope of the owner is served, whatever else it says and
/// wherever it comes from, and nothing else is.
pub proof fn new_requests_of_the_owner_are_served(session: SessionView, input: SessionInput)
    ensures
        input.request.sender@ == session.owner && !session.seen.contains(input.event_id@)
            ==> serves(session, input),
        serves(session, input) ==> input.request.sender@ == session.owner,
        serves(session, input) ==> !session.seen.contains(input.event_id@),
{
}

/// Over a run that the window can remember, every envelope of the owner is
/// served exactly once: when it arrives first. Envelopes of others never are, and
/// do not keep the owner's from being served.
pub proof fn every_envelope_of_the_owner_is_served_once(
    session: SessionView,
    inputs: Seq<SessionInput>,
    i: int,
)
    requires
        session.seen.len() + inputs.len() <= SESSION_DEDUP_CAPACITY,
        0 <= i < inputs.len(),
    ensures
        serves(session_given_all(session, inputs.take(i)), inputs[i]) <==> {
            &&& inputs[i].request.sender@ == session.owner
            &&& !session.seen.contains(inputs[i].event_id@)
            &&& forall|j: int|
                0 <= j < i ==> !sealed_under(session, #[trigger] inputs[j], inputs[i].event_id@)
        },
{
    let id = inputs[i].event_id@;
    let before = inputs.take(i);
    lemma_seen(session, before, id);
    assert forall|j: int| 0 <= j < i implies before[j] == #[trigger] inputs[j] by {}
    if exists|j: int| 0 <= j < i && sealed_under(session, #[trigger] inputs[j], id) {
        let j = choose|j: int| 0 <= j < i && sealed_under(session, #[trigger] inputs[j], id);
        assert(sealed_under(session, before[j], id));
    }
}

proof fn lemma_seen(session: SessionView, inputs: Seq<SessionInput>, id: Seq<char>)
    requires
        session.seen.len() + inputs.len() <= SESSION_DEDUP_CAPACITY,
    ensures
        ({
            let after = session_given_all(session, inputs);
            &&& after.owner == session.owner
            &&& after.seen.len() <= session.seen.len() + inputs.len()
            &&& after.seen.contains(id) <==> session.seen.contains(id) || exists|j: int|
                0 <= j < inputs.len() && sealed_under(session, #[trigger] inputs[j], id)
        }),
    decreases inputs.len(),
{
    if inputs.len() > 0 {
        let earlier = inputs.drop_last();
        let input = inputs.last();
        lemma_seen(session, earlier, id);
        lemma_seen(session, earlier, input.event_id@);
        let prior = session_given_all(session, earlier);
        let after = session_given_all(session, inputs);
        if serves(prior, input) {
            assert(after.seen =~= prior.seen.push(input.event_id@));
            assert(after.seen[prior.seen.len() as int] == input.event_id@);
            assert(after.seen.contains(id) <==> prior.seen.contains(id) || id == input.event_id@) by {
                if prior.seen.contains(id) {
                    let k = choose|k: int| 0 <= k < prior.seen.len() && prior.seen[k] == id;
                    assert(after.seen[k] == id);
                }
                if after.seen.contains(id) {
                    let k = choose|k: int| 0 <= k < after.seen.len() && after.seen[k] == id;
                    if k < prior.seen.len() {
                        assert(prior.seen[k] == id);
                    }
                }
            }
        }
        if exists|j: int| 0 <= j < earlier.len() && sealed_under(
            session,
            #[trigger] earlier[j],
            id,
        ) {
            let j = choose|j: int|
                0 <= j < earlier.len() && sealed_under(session, #[trigger] earlier[j], id);
            assert(sealed_under(session, inputs[j], id));
        }
        if exists|j: int| 0 <= j < inputs.len() && sealed_under(
            session,
            #[trigger] inputs[j],
            id,
        ) {
            let j = choose|j: int|
                0 <= j < inputs.len() && sealed_under(session, #[trigger] inputs[j], id);
            if j < earlier.len() {
                assert(sealed_under(session, earlier[j], id));
            }
        }
        if sealed_under(session, input, id) {
            assert(sealed_under(session, inputs[inputs.len() - 1], id));
        }
    }
}

/// A session never serves an envelope twice, nor one that its owner did not
/// seal, and it keeps its owner.
pub proof fn sessions_stay_with_their_owner(session: SessionView, input: SessionInput)
    requires
        session.seen.len() <= SESSION_DEDUP_CAPACITY,
        serves(session, input),
    ensures
        session_after(session, input).owner == session.owner,
        session_after(session, input).relay_url == input.relay_url@,
        session_after(session, input).session_id == input.request.session_id@,
        input.request.sender@ == session.owner,
        !serves(session_after(session, input), input),
{
    let after = session_after(session, input).seen;
    assert(after.last() == input.event_id@);
    assert(after.contains(input.event_id@));
}

/// Responses are encrypted to the session's owner, in the client launch of the
/// latest accepted request, and go to the public relay that delivered it.
pub proof fn responses_follow_the_latest_request(
    secret: Seq<u8>,
    max: nat,
    session: SessionView,
    input: SessionInput,
    content: Seq<char>,
    encrypted: EncryptedResponse,
)
    requires
        serves(session, input),
        response_of(
            secret,
            max,
            session_after(session, input),
            FrameView::Text(content),
            Ok(encrypted),
        ),
    ensures
        encrypted.relay_url@ == input.relay_url@,
        envelope::wrapped_for(
            secret,
            input.request.sender@,
            nip17_gateway::frame_rumor(
                input.request.sender@,
                input.request.session_id@,
                content,
            ),
            encrypted.event@,
        ),
{
}

/// A response in text that is within the frame limit of the gateway and not too
/// large for NIP-44 is published: no session of a key fails to encrypt it.
pub proof fn responses_within_the_bound_are_published(
    secret: Seq<u8>,
    max: nat,
    session: SessionView,
    content: Seq<char>,
    encrypted: Result<EncryptedResponse, GatewayError>,
)
    requires
        envelope::is_key(session.owner),
        session.owner.len() == 32,
        text::utf8_len(content) <= max,
        protocol::json_size(session.session_id) + protocol::json_size(content) <= 40_648,
        response_of(secret, max, session, FrameView::Text(content), encrypted),
    ensures
        encrypted is Ok,
        envelope::publish_command(encrypted->Ok_0.event@) is Ok,
{
    nip17_gateway::frames_within_the_bound_are_wrapped(
        session.owner,
        session.session_id,
        content,
    );
}

/// A response that is no text, or is over the frame limit in bytes, is refused as
/// such and published nowhere.
pub proof fn oversize_responses_are_refused(
    secret: Seq<u8>,
    max: nat,
    session: SessionView,
    response: FrameView,
    encrypted: Result<EncryptedResponse, GatewayError>,
)
    requires
        response_of(secret, max, session, response, encrypted),
    ensures
        response !is Text ==> {
            &&& encrypted matches Err(error)
            &&& error@ == GatewayFailure::NonTextFrame
        },
        response matches FrameView::Text(content) ==> text::utf8_len(content) > max ==> {
            &&& encrypted matches Err(error)
            &&& error@ == (GatewayFailure::FrameTooLarge { max, got: text::utf8_len(content) })
        },
{
}

/// The request and the session that an envelope from a public relay leads to.
///
/// The session is found by the tenant and the verified author of the seal,
/// never by the unauthenticated author of the outer gift wrap.
pub open spec fn routed_envelope(
    secret: Seq<u8>,
    max: nat,
    community: u128,
    json: Seq<char>,
) -> Option<(SessionKeyView, Seq<char>, RequestView)> {
    match (
        envelope::event_of_json(json),
        nip17_gateway::request_of_envelope(secret, max, FrameView::Text(json)),
    ) {
        (Ok(event), Ok(request)) => Some(
            (session_key(community, request.sender), event.id, request),
        ),
        _ => None,
    }
}

/// An envelope leads to the session of the tenant that the gateway is bound to
/// and of the key that sealed it: neither its content nor the author of the
/// outer gift wrap can select another.
pub proof fn envelopes_are_routed_by_tenant_and_seal(
    secret: Seq<u8>,
    max: nat,
    community: u128,
    json: Seq<char>,
)
    requires
        routed_envelope(secret, max, community, json) is Some,
    ensures
        nip17_gateway::request_of_envelope(secret, max, FrameView::Text(json)) is Ok,
        ({
            let (key, _, request) = routed_envelope(secret, max, community, json)->Some_0;
            let gift = envelope::gift_of(secret, envelope::event_of_json(json)->Ok_0);
            &&& gift is Ok
            &&& key == session_key(community, gift->Ok_0.sender)
            &&& request.sender == gift->Ok_0.sender
            &&& request.frame == FrameView::Text(gift->Ok_0.rumor.content)
        }),
{
}

/// Every envelope that can be read leads somewhere: to its sender's session, with
/// the identifier of the outer event.
pub proof fn readable_envelopes_are_routed(
    secret: Seq<u8>,
    max: nat,
    community: u128,
    json: Seq<char>,
)
    requires
        nip17_gateway::request_of_envelope(secret, max, FrameView::Text(json)) is Ok,
    ensures
        ({
            let request = nip17_gateway::request_of_envelope(
                secret,
                max,
                FrameView::Text(json),
            )->Ok_0;
            &&& routed_envelope(secret, max, community, json) is Some
            &&& routed_envelope(secret, max, community, json)->Some_0 == (
                (SessionKeyView {
                    community: identifiers::hyphenated(community),
                    sender: text::hex(request.sender),
                }),
                envelope::event_of_json(json)->Ok_0.id,
                request,
            )
        }),
{
}

/// Opens an envelope from a public relay, and tells which session it is for.
/// Envelopes that the gateway rejects are dropped.
pub fn route_envelope(
    gateway: &Nip17Gateway,
    tenant: &TenantContext,
    relay_url: &str,
    event: String,
) -> (routed: Option<(SessionKey, SessionInput)>)
    ensures
        match routed {
            Some((key, input)) => routed_envelope(
                gateway.secret(),
                gateway.limit(),
                tenant.community,
                event@,
            ) == Some((key@, input.event_id@, input.request@)) && input.relay_url@ == relay_url@
                && envelope::is_key(input.request.sender@),
            None => routed_envelope(
                gateway.secret(),
                gateway.limit(),
                tenant.community,
                event@,
            ) is None,
        },
{
    let event_id = match envelope::parse_event(event.as_str()) {
        Ok(parsed) => parsed.id,
        Err(_) => {
            return None;
        },
    };
    match gateway.unwrap_request(RelayFrame::Text(event)) {
        Ok(request) => {
            let key = SessionKey::new(tenant, request.sender);
            Some((key, SessionInput { event_id, relay_url: relay_url.to_owned(), request }))
        },
        Err(_) => None,
    }
}

/// The subscription of the gateway identity `hex` to its gift wraps.
pub open spec fn gift_wrap_subscription(hex: Seq<char>) -> Seq<char> {
    protocol::gift_wrap_filter("buzz-nip17-"@ + hex, hex)
}

/// The subscription of the gateway identity to its gift wraps.
pub fn subscription_request(identity: &PublicKey) -> (request: String)
    ensures
        request@ == gift_wrap_subscription(text::hex(identity@)),
{
    let hex = identity.to_hex();
    let id = text::join2("buzz-nip17-", hex.as_str());
    protocol::gift_wrap_request(id.as_str(), hex.as_str())
}

/// Where the loop of a public relay stands.
#[derive(Debug, Clone, Copy, PartialEq, Eq)]
pub enum RelayState {
    /// Connects.
    Connecting,
    /// Asks for gift wraps.
    Subscribing,
    /// Waits for responses and messages.
    Listening,
    /// Publishes a response.
    Publishing,
    /// Waits before it connects again.
    Waiting,
    /// Has ended.
    Ended,
}

/// What happened to the loop of a public relay.
#[derive(Debug, Clone, PartialEq, Eq)]
pub enum RelayEvent {
    /// The connection stands, or could not be made.
    Connected(bool),
    /// The subscription was sent, or could not be.
    Subscribed(bool),
    /// A session has a response.
    Response(EncryptedResponse),
    /// Responses were lost.
    ResponsesLagged,
    /// There will be no more responses.
    ResponsesClosed,
    /// The response was published, or could not be.
    Published(bool),
    /// The relay delivered an event, as JSON.
    Delivered(String),
    /// The relay sent something else.
    OtherMessage,
    /// The relay is gone.
    Disconnected,
    /// The delay is over.
    DelayOver,
}

/// What to do next for a public relay.
#[derive(Debug, Clone, PartialEq, Eq)]
pub enum RelayAction {
    /// Connect.
    Connect,
    /// Send this subscription.
    Subscribe(String),
    /// Wait for responses and messages.
    Listen,
    /// Publish with this command.
    Publish(String),
    /// Open this envelope and hand it to its session, and listen on.
    Route(String),
    /// Wait this many seconds.
    Wait(u64),
    /// End the loop.
    End,
}

/// The value of a [`RelayAction`].
pub enum RelayActionView {
    Connect,
    Subscribe(Seq<char>),
    Listen,
    Publish(Seq<char>),
    Route(Seq<char>),
    Wait(u64),
    End,
}

impl View for RelayAction {
    type V = RelayActionView;

    open spec fn view(&self) -> RelayActionView {
        match self {
            RelayAction::Connect => RelayActionView::Connect,
            RelayAction::Subscribe(request) => RelayActionView::Subscribe(request@),
            RelayAction::Listen => RelayActionView::Listen,
            RelayAction::Publish(command) => RelayActionView::Publish(command@),
            RelayAction::Route(event) => RelayActionView::Route(event@),
            RelayAction::Wait(secs) => RelayActionView::Wait(*secs),
            RelayAction::End => RelayActionView::End,
        }
    }
}

/// The loop of one public relay.
#[derive(Debug)]
pub struct RelayLoop {
    /// Address of the relay.
    pub relay_url: String,
    /// The gateway identity.
    pub identity: PublicKey,
    /// Where the loop stands.
    pub state: RelayState,
}

/// Whether `event` can happen in `state`.
pub open spec fn relay_awaits(state: RelayState, event: RelayEvent) -> bool {
    match state {
        RelayState::Connecting => event is Connected,
        RelayState::Subscribing => event is Subscribed,
        RelayState::Listening => !(event is Connected || event is Subscribed || event is Published
            || event is DelayOver),
        RelayState::Publishing => event is Published,
        RelayState::Waiting => event is DelayOver,
        RelayState::Ended => false,
    }
}

/// Where the loop of the relay at `url` goes on `event`, and what it does.
///
/// A failure of any kind leads back to a new connection after a delay; the loop
/// ends only when there are no more responses. Responses for other relays are
/// passed over, and so are events other than gift wraps.
pub open spec fn relay_step(url: Seq<char>, identity: Seq<u8>, event: RelayEvent) -> (
    RelayState,
    RelayActionView,
) {
    let wait = (RelayState::Waiting, RelayActionView::Wait(RECONNECT_DELAY_SECS));
    let listen = (RelayState::Listening, RelayActionView::Listen);
    match event {
        RelayEvent::Connected(ok) => if ok {
            (
                RelayState::Subscribing,
                RelayActionView::Subscribe(gift_wrap_subscription(text::hex(identity))),
            )
        } else {
            wait
        },
        RelayEvent::Subscribed(ok) => if ok {
            listen
        } else {
            wait
        },
        RelayEvent::Response(response) => match envelope::publish_command(response.event@) {
            Ok(command) if response.relay_url@ == url => (
                RelayState::Publishing,
                RelayActionView::Publish(command),
            ),
            _ => listen,
        },
        RelayEvent::ResponsesLagged => listen,
        RelayEvent::ResponsesClosed => (RelayState::Ended, RelayActionView::End),
        RelayEvent::Published(ok) => if ok {
            listen
        } else {
            wait
        },
        RelayEvent::Delivered(event) => match envelope::event_of_json(event@) {
            Ok(parsed) if parsed.kind == envelope::GIFT_WRAP_KIND => (
                RelayState::Listening,
                RelayActionView::Route(event@),
            ),
            _ => listen,
        },
        RelayEvent::OtherMessage => listen,
        RelayEvent::Disconnected => wait,
        RelayEvent::DelayOver => (RelayState::Connecting, RelayActionView::Connect),
    }
}

impl RelayLoop {
    /// Starts the loop of the relay at `relay_url`.
    pub fn start(relay_url: String, identity: PublicKey) -> (step: (RelayLoop, RelayAction))
        ensures
            step.0.relay_url == relay_url,
            step.0.identity == identity,
            step.0.state is Connecting,
            step.1@ == RelayActionView::Connect,
    {
        (
            RelayLoop { relay_url, identity, state: RelayState::Connecting },
            RelayAction::Connect,
        )
    }

    fn reconnect(&mut self) -> (action: RelayAction)
        ensures
            final(self).relay_url == old(self).relay_url,
            final(self).identity == old(self).identity,
            final(self).state is Waiting,
            action@ == RelayActionView::Wait(RECONNECT_DELAY_SECS),
    {
        self.state = RelayState::Waiting;
        RelayAction::Wait(RECONNECT_DELAY_SECS)
    }

    fn listen(&mut self) -> (action: RelayAction)
        ensures
            final(self).relay_url == old(self).relay_url,
            final(self).identity == old(self).identity,
            final(self).state is Listening,
            action@ == RelayActionView::Listen,
    {
        self.state = RelayState::Listening;
        RelayAction::Listen
    }

    /// Goes on after `event`.
    pub fn run_public_relay(&mut self, event: RelayEvent) -> (action: RelayAction)
        requires
            relay_awaits(old(self).state, event),
        ensures
            final(self).relay_url == old(self).relay_url,
            final(self).identity == old(self).identity,
            (final(self).state, action@) == relay_step(
                old(self).relay_url@,
                old(self).identity@,
                event,
            ),
    {
        match event {
            RelayEvent::Connected(true) => {
                self.state = RelayState::Subscribing;
                RelayAction::Subscribe(subscription_request(&self.identity))
            },
            RelayEvent::Subscribed(true) => self.listen(),
            RelayEvent::Response(response) => {
                let ours = text::text_eq(response.relay_url.as_str(), self.relay_url.as_str());
                match envelope::event_command(response.event.as_str()) {
                    Ok(command) => {
                        if ours {
                            self.state = RelayState::Publishing;
                            RelayAction::Publish(command)
                        } else {
                            self.listen()
                        }
                    },
                    Err(_) => self.listen(),
                }
            },
            RelayEvent::ResponsesLagged => self.listen(),
            RelayEvent::ResponsesClosed => {
                self.state = RelayState::Ended;
                RelayAction::End
            },
            RelayEvent::Published(true) => self.listen(),
            RelayEvent::Delivered(event) => {
                let wrapped = match envelope::parse_event(event.as_str()) {
                    Ok(parsed) => parsed.kind == envelope::GIFT_WRAP_KIND,
                    Err(_) => false,
                };
                let action = self.listen();
                if wrapped {
                    RelayAction::Route(event)
                } else {
                    action
                }
            },
            RelayEvent::OtherMessage => self.listen(),
            RelayEvent::DelayOver => {
                self.state = RelayState::Connecting;
                RelayAction::Connect
            },
            _ => self.reconnect(),
        }
    }
}

/// Prepares the runtime: the gateway for the configured identity, or why the
/// configuration does not do.
pub fn spawn(private_key: &str, max_frame_bytes: usize) -> (runtime: Result<
    (Keys, Nip17Gateway),
    String,
>)
    ensures
        match envelope::secret_of_text(private_key@) {
            Err(reason) => runtime matches Err(error) && error@
                == "invalid NIP-17 gateway key after config validation: "@ + reason,
            Ok(secret) => if max_frame_bytes == 0 {
                runtime matches Err(error) && error@ == "invalid NIP-17 gateway: "@
                    + nip17_gateway::failure_message(GatewayFailure::InvalidFrameLimit)
            } else {
                &&& runtime matches Ok((keys, gateway))
                &&& keys.secret() == secret
                &&& gateway.secret() == secret
                &&& gateway.limit() == max_frame_bytes
            },
        },
{
    let keys = match Keys::parse(private_key) {
        Ok(keys) => keys,
        Err(reason) => {
            return Err(
                text::join2(
                    "invalid NIP-17 gateway key after config validation: ",
                    reason.as_str(),
                ),
            );
        },
    };
    match Nip17Gateway::new(keys, max_frame_bytes) {
        Ok(gateway) => Ok((keys, gateway)),
        Err(error) => Err(
            text::join2("invalid NIP-17 gateway: ", error.message().as_str()),
        ),
    }
}

/// A relay's loop goes on for as long as there may be responses: only their end
/// ends it, and any failure leads, after two seconds, to a new connection. While
/// the relay is listened to, nothing but its loss or a response of its own
/// interrupts that.
pub proof fn relay_loops_go_on(
    url: Seq<char>,
    identity: Seq<u8>,
    state: RelayState,
    event: RelayEvent,
)
    requires
        relay_awaits(state, event),
    ensures
        ({
            let (next, action) = relay_step(url, identity, event);
            &&& next is Ended <==> event is ResponsesClosed
            &&& action is End <==> next is Ended
            &&& event matches RelayEvent::Connected(false) ==> next is Waiting
            &&& event matches RelayEvent::Subscribed(false) ==> next is Waiting
            &&& event matches RelayEvent::Published(false) ==> next is Waiting
            &&& event is Disconnected ==> next is Waiting
            &&& next is Waiting <==> action == RelayActionView::Wait(2)
            &&& event is DelayOver <==> next is Connecting
            &&& next is Connecting <==> action is Connect
            &&& event == RelayEvent::Subscribed(true) ==> next is Listening && action is Listen
            &&& event == RelayEvent::Published(true) ==> next is Listening && action is Listen
            &&& event is ResponsesLagged || event is OtherMessage ==> next is Listening && action
                is Listen
            &&& event == RelayEvent::Connected(true) ==> next is Subscribing && action
                == RelayActionView::Subscribe(
                protocol::gift_wrap_filter("buzz-nip17-"@ + text::hex(identity), text::hex(identity)),
            )
        }),
{
}

/// Every response for a relay that can be published is published by the loop of
/// that relay, as an `EVENT` command, and by no other; every gift wrap that a
/// relay delivers is opened.
pub proof fn responses_and_gift_wraps_are_passed_on(
    url: Seq<char>,
    identity: Seq<u8>,
    response: EncryptedResponse,
    delivered: String,
)
    ensures
        relay_step(url, identity, RelayEvent::Response(response)).1 matches RelayActionView::Publish(
            command,
        ) ==> {
            &&& response.relay_url@ == url
            &&& envelope::compact_json(response.event@) matches Ok(event)
            &&& command == "[\"EVENT\","@ + event + "]"@
            &&& relay_step(url, identity, RelayEvent::Response(response)).0 is Publishing
        },
        response.relay_url@ == url && envelope::compact_json(response.event@) is Ok ==> relay_step(
            url,
            identity,
            RelayEvent::Response(response),
        ).1 is Publish,
        response.relay_url@ != url ==> relay_step(url, identity, RelayEvent::Response(response))
            == (RelayState::Listening, RelayActionView::Listen),
        relay_step(url, identity, RelayEvent::Delivered(delivered)).0 is Listening,
        ({
            let wrapped = envelope::event_of_json(delivered@) is Ok && envelope::event_of_json(
                delivered@,
            )->Ok_0.kind == 1059;
            relay_step(url, identity, RelayEvent::Delivered(delivered)).1 == if wrapped {
                RelayActionView::Route(delivered@)
            } else {
                RelayActionView::Listen
            }
        }),
{
}

}
