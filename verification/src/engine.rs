//! The lifecycle engine: identity allocation, the store of active
//! notifications, and the close/replace/expire transitions.
//!
//! Expiry timers are represented by generation numbers. Arming a timer
//! hands the caller a fresh generation; when the timer elapses the caller
//! reports it back through [`Engine::timer_fired`] with that generation.
//! Cancellation is logical: replacing a notification re-arms it under a
//! fresh generation, and closing removes the entry, so a stale fire finds
//! no matching generation and is a no-op. Removal from the store is the
//! single atomic "ownership" event: whichever path removes the entry owns
//! the one closed signal for that id, and the loser of a race does nothing.

use std::collections::HashMap;

use vstd::prelude::*;

use crate::types::CloseReason;
use crate::types::ClosedSignal;
use crate::types::EngineError;
use crate::types::Notification;
use crate::types::NotificationModel;
use crate::types::NotifyOutcome;
use crate::types::TimerCmd;

verus! {

broadcast use vstd::std_specs::hash::group_hash_axioms;

/// One active notification as stored: its payload and, if an expiry timer
/// is armed for it, the generation that timer was armed under.
pub struct Entry {
    pub content: Notification,
    pub timer: Option<u64>,
}

/// Mathematical form of a stored entry.
#[verifier::ext_equal]
pub struct EntryModel {
    pub content: NotificationModel,
    pub timer: Option<u64>,
}

impl View for Entry {
    type V = EntryModel;

    open spec fn view(&self) -> EntryModel {
        EntryModel { content: self.content@, timer: self.timer }
    }
}

/// Mathematical form of the whole engine state.
#[verifier::ext_equal]
pub struct EngineModel {
    /// Where the identity allocator continues scanning.
    pub next_id: u32,
    /// Next unused timer generation; grows on every timer arming.
    pub timer_seq: u64,
    /// Expiry applied when a notification asks for the engine default.
    pub default_timeout_ms: u32,
    /// The active notifications, keyed by identity.
    pub store: Map<u32, EntryModel>,
}

impl EngineModel {
    /// Well-formedness: ids are never 0, the store is finite, and every
    /// armed timer generation was drawn from the generation counter.
    pub open spec fn wf(self) -> bool {
        &&& 1 <= self.next_id
        &&& self.store.dom().finite()
        &&& forall|id: u32| #[trigger] self.store.dom().contains(id) ==> 1 <= id
        &&& forall|id: u32|
            #[trigger] self.store.dom().contains(id) && self.store[id].timer is Some
                ==> self.store[id].timer->0 < self.timer_seq
    }
}

/// The number of distinct non-zero 32-bit identities, and so the length of
/// the allocator's scanning cycle.
pub open spec fn id_space() -> int {
    0xFFFF_FFFF
}

/// Successor of an id in the allocator's cycle over 1..=u32::MAX.
pub open spec fn id_succ(a: u32) -> u32 {
    if a == u32::MAX {
        1u32
    } else {
        (a + 1) as u32
    }
}

/// How many steps the allocator's cycle takes from `a` to `b`, both in
/// 1..=u32::MAX. Zero means `b == a`; the maximum is `id_space() - 1`.
pub open spec fn cyc_dist(a: u32, b: u32) -> int
    recommends
        1 <= a,
        1 <= b,
{
    if b >= a {
        b - a
    } else {
        (u32::MAX - a) + b
    }
}

/// The timeout a notification actually gets: `None` for "never expire",
/// otherwise the delay in milliseconds, with negative requests mapped to
/// the engine default.
pub open spec fn resolved_timeout(expire_timeout: i32, default_ms: u32) -> Option<u32> {
    if expire_timeout == 0 {
        None
    } else if expire_timeout < 0 {
        Some(default_ms)
    } else {
        Some(expire_timeout as u32)
    }
}

/// Does a fire report for `(id, gen)` still name an armed timer? Only then
/// does the fire close anything.
pub open spec fn fire_hits(m: EngineModel, id: u32, gen: u64) -> bool {
    m.store.dom().contains(id) && m.store[id].timer == Some(gen)
}

/// Is `key` a registered action key of the active notification `id`?
/// Action lists are (key, label) pairs, so the keys are the even positions.
pub open spec fn action_registered(m: EngineModel, id: u32, key: Seq<char>) -> bool {
    &&& m.store.dom().contains(id)
    &&& exists|i: int|
        0 <= i < m.store[id].content.actions.len() && i % 2 == 0 && m.store[id].content.actions[i]
            == key
}

/// State after an explicit close of `id`: the entry is gone (closing an
/// absent id changes nothing). Allocation and generation state are kept.
pub open spec fn close_model(m: EngineModel, id: u32) -> EngineModel {
    EngineModel { store: m.store.remove(id), ..m }
}

/// Signal owed by an explicit close of `id`: exactly one dismissal signal
/// if the id was active, none otherwise.
pub open spec fn close_signal_model(m: EngineModel, id: u32) -> Option<ClosedSignal> {
    if m.store.dom().contains(id) {
        Some(ClosedSignal { id, reason: CloseReason::DismissedByRequest })
    } else {
        None
    }
}

/// State after a timer fire report for `(id, gen)`: the entry is removed
/// if the report names the currently armed timer, and nothing changes
/// otherwise (the fire lost a race and is a no-op).
pub open spec fn fired_model(m: EngineModel, id: u32, gen: u64) -> EngineModel {
    if fire_hits(m, id, gen) {
        EngineModel { store: m.store.remove(id), ..m }
    } else {
        m
    }
}

/// Signal owed by a timer fire report: exactly one expiry signal if the
/// report names the currently armed timer, none otherwise.
pub open spec fn fired_signal_model(m: EngineModel, id: u32, gen: u64) -> Option<ClosedSignal> {
    if fire_hits(m, id, gen) {
        Some(ClosedSignal { id, reason: CloseReason::Expired })
    } else {
        None
    }
}

/// The full effect of a successful notify call: relates the state before,
/// the state after, the submitted payload and the outcome handed back.
pub open spec fn notify_transition(
    pre: EngineModel,
    post: EngineModel,
    n: NotificationModel,
    out: NotifyOutcome,
) -> bool {
    let armed = resolved_timeout(n.expire_timeout, pre.default_timeout_ms);
    &&& if n.replaces_id == 0 {
        // A fresh identity: the first free id on the cycle from next_id.
        &&& 1 <= out.id
        &&& !pre.store.dom().contains(out.id)
        &&& forall|v: u32|
            1 <= v && cyc_dist(pre.next_id, v) < cyc_dist(pre.next_id, out.id)
                ==> pre.store.dom().contains(v)
        &&& post.next_id == id_succ(out.id)
    } else {
        // Replacement (or revival) keeps the caller's id and the allocator.
        &&& out.id == n.replaces_id
        &&& post.next_id == pre.next_id
    }
    &&& post.default_timeout_ms == pre.default_timeout_ms
    &&& match armed {
        None => {
            &&& out.timer == TimerCmd::NoTimer
            &&& post.timer_seq == pre.timer_seq
            &&& post.store == pre.store.insert(
                out.id,
                EntryModel { content: n, timer: None::<u64> },
            )
        },
        Some(delay) => {
            &&& out.timer == (TimerCmd::Arm { id: out.id, gen: pre.timer_seq, delay_ms: delay })
            &&& post.timer_seq == pre.timer_seq + 1
            &&& post.store == pre.store.insert(
                out.id,
                EntryModel { content: n, timer: Some(pre.timer_seq) },
            )
        },
    }
}

/// The lifecycle engine. All state of the notification daemon's core lives
/// here: the identity allocator, the store of active notifications, and
/// the timer generations of the expiry scheduler.
pub struct Engine {
    next_id: u32,
    timer_seq: u64,
    default_timeout_ms: u32,
    store: HashMap<u32, Entry>,
}

impl View for Engine {
    type V = EngineModel;

    closed spec fn view(&self) -> EngineModel {
        EngineModel {
            next_id: self.next_id,
            timer_seq: self.timer_seq,
            default_timeout_ms: self.default_timeout_ms,
            store: self.store@.map_values(|e: Entry| e@),
        }
    }
}

impl Engine {
    /// Well-formedness of the engine's state.
    pub open spec fn wf(self) -> bool {
        self@.wf()
    }

    /// A fresh engine: empty store, identities starting at 1, and the
    /// given default expiry for notifications that ask for one.
    pub fn new(default_timeout_ms: u32) -> (r: Engine)
        ensures
            r.wf(),
            r@.next_id == 1,
            r@.timer_seq == 0,
            r@.default_timeout_ms == default_timeout_ms,
            r@.store == Map::<u32, EntryModel>::empty(),
    {
        let e = Engine { next_id: 1, timer_seq: 0, default_timeout_ms, store: HashMap::new() };
        proof {
            assert(e@.store =~= Map::<u32, EntryModel>::empty());
        }
        e
    }

    /// How many notifications are active.
    pub fn active_count(&self) -> (r: usize)
        ensures
            r == self@.store.dom().len(),
    {
        proof {
            assert(self@.store.dom() =~= self.store@.dom());
        }
        self.store.len()
    }

    /// How many timer generations have been handed out so far. Callers
    /// that must establish the headroom `notify` asks for can read it
    /// here.
    pub fn timer_generations(&self) -> (r: u64)
        ensures
            r == self@.timer_seq,
    {
        self.timer_seq
    }

    /// The identity allocator: the first id not currently active on the
    /// cycle 1..=u32::MAX starting at `next_id`. Scanning terminates
    /// because fewer ids are active than the cycle is long, so a free one
    /// exists within `active count + 1` steps.
    fn fresh_id(&self) -> (r: u32)
        requires
            self.wf(),
            self@.store.dom().len() < id_space(),
        ensures
            1 <= r,
            !self@.store.dom().contains(r),
            forall|v: u32|
                1 <= v && cyc_dist(self@.next_id, v) < cyc_dist(self@.next_id, r)
                    ==> self@.store.dom().contains(v),
    {
        proof {
            assert(self@.store.dom() =~= self.store@.dom());
        }
        let ghost dom = self@.store.dom();
        let start: u32 = self.next_id;
        let mut cand: u32 = start;
        let ghost mut tried: Set<u32> = Set::empty();
        proof {
            broadcast use vstd::set::axiom_set_empty_len;

            assert(tried.len() == 0);
        }
        loop
            invariant
                self.wf(),
                self@.store.dom() == dom,
                self.store@.dom() == dom,
                dom.finite(),
                dom.len() < id_space(),
                start == self@.next_id,
                1 <= start,
                1 <= cand,
                tried.finite(),
                tried.subset_of(dom),
                tried.len() == cyc_dist(start, cand),
                forall|v: u32|
                    tried.contains(v) <==> (1 <= v && cyc_dist(start, v) < cyc_dist(
                        start,
                        cand,
                    )),
            decreases dom.len() - tried.len(),
        {
            if !self.store.contains_key(&cand) {
                return cand;
            }
            proof {
                assert(dom.contains(cand));
                assert(!tried.contains(cand));
                vstd::set::axiom_set_insert_len(tried, cand);
                vstd::set_lib::lemma_len_subset(tried.insert(cand), dom);
                assert(tried.insert(cand).len() == tried.len() + 1);
            }
            let ghost prev = cand;
            cand = if cand == u32::MAX { 1 } else { cand + 1 };
            proof {
                tried = tried.insert(prev);
                // One more step along the cycle: the distance grows by one,
                // since the scan has not come full circle (fewer ids were
                // tried than the cycle is long).
                assert(tried.len() < id_space());
                assert(cyc_dist(start, cand) == cyc_dist(start, prev) + 1);
                // The candidate at each distance is unique, so the tried set
                // is exactly the candidates strictly before `cand`.
                assert forall|v: u32| 1 <= v && cyc_dist(start, v) == cyc_dist(start, prev)
                    implies v == prev by {};
            }
        }
    }

    /// Submit a notification. A zero `replaces_id` allocates a fresh id;
    /// a non-zero one stores the payload under that id, replacing any
    /// active entry in place or reviving the id if it is absent. Either
    /// way the previously armed timer (if any) is logically cancelled and
    /// the returned outcome says which timer to arm in its place. The one
    /// rejected input is an action list of odd length, which leaves the
    /// engine unchanged.
    pub fn notify(&mut self, n: Notification) -> (r: Result<NotifyOutcome, EngineError>)
        requires
            old(self).wf(),
            n.expire_timeout != 0 ==> old(self)@.timer_seq < u64::MAX,
            n.replaces_id == 0 ==> old(self)@.store.dom().len() < id_space(),
        ensures
            final(self).wf(),
            n.actions@.len() % 2 != 0 ==> r == Err::<NotifyOutcome, EngineError>(
                EngineError::InvalidArgument,
            ) && final(self)@ == old(self)@,
            n.actions@.len() % 2 == 0 ==> r is Ok && notify_transition(
                old(self)@,
                final(self)@,
                n@,
                r->Ok_0,
            ),
    {
        if n.actions.len() % 2 != 0 {
            return Err(EngineError::InvalidArgument);
        }
        let id: u32 = if n.replaces_id == 0 {
            let fresh: u32 = self.fresh_id();
            self.next_id = if fresh == u32::MAX { 1 } else { fresh + 1 };
            fresh
        } else {
            n.replaces_id
        };
        let (cmd, armed_gen): (TimerCmd, Option<u64>) = if n.expire_timeout == 0 {
            (TimerCmd::NoTimer, None)
        } else {
            let delay: u32 = if n.expire_timeout < 0 {
                self.default_timeout_ms
            } else {
                n.expire_timeout as u32
            };
            let g: u64 = self.timer_seq;
            self.timer_seq = g + 1;
            (TimerCmd::Arm { id, gen: g, delay_ms: delay }, Some(g))
        };
        let ghost pre_store = self@.store;
        let entry = Entry { content: n, timer: armed_gen };
        let ghost entry_model = entry@;
        self.store.insert(id, entry);
        proof {
            assert(self@.store =~= pre_store.insert(id, entry_model));
            assert(pre_store == old(self)@.store);
        }
        Ok(NotifyOutcome { id, timer: cmd })
    }

    /// Explicit close. If `id` is active, it is removed, its timer is
    /// logically cancelled, and the one dismissal signal for it is handed
    /// back for emission. Closing an absent id is a soft no-op, never an
    /// error.
    pub fn close_notification(&mut self, id: u32) -> (r: Option<ClosedSignal>)
        requires
            old(self).wf(),
        ensures
            final(self).wf(),
            final(self)@ == close_model(old(self)@, id),
            r == close_signal_model(old(self)@, id),
    {
        let removed = self.store.remove(&id);
        proof {
            assert(self@.store =~= old(self)@.store.remove(id));
            assert(self@ =~= close_model(old(self)@, id));
        }
        match removed {
            Some(_) => Some(ClosedSignal { id, reason: CloseReason::DismissedByRequest }),
            None => None,
        }
    }

    /// Report that the one-shot timer armed under `(id, gen)` has elapsed.
    /// If that timer is still the one armed for an active `id`, the entry
    /// is removed and the one expiry signal for it is handed back; any
    /// stale report (the id was closed or replaced meanwhile) is a no-op.
    pub fn timer_fired(&mut self, id: u32, gen: u64) -> (r: Option<ClosedSignal>)
        requires
            old(self).wf(),
        ensures
            final(self).wf(),
            final(self)@ == fired_model(old(self)@, id, gen),
            r == fired_signal_model(old(self)@, id, gen),
    {
        let hit = match self.store.get(&id) {
            Some(e) => match e.timer {
                Some(g) => g == gen,
                None => false,
            },
            None => false,
        };
        if hit {
            self.store.remove(&id);
            proof {
                assert(self@.store =~= old(self)@.store.remove(id));
                assert(self@ =~= fired_model(old(self)@, id, gen));
            }
            Some(ClosedSignal { id, reason: CloseReason::Expired })
        } else {
            proof {
                assert(self@ =~= fired_model(old(self)@, id, gen));
            }
            None
        }
    }

    /// Gate for the action-invoked signal: it may be emitted only while
    /// `id` is still active and `key` is one of the notification's
    /// registered action keys (the even positions of its action list).
    /// A stale action from an already-closed notification is refused.
    pub fn action_invoked(&self, id: u32, key: &String) -> (r: bool)
        ensures
            r == action_registered(self@, id, key@),
    {
        match self.store.get(&id) {
            None => false,
            Some(e) => {
                let actions = &e.content.actions;
                let count: usize = actions.len();
                let mut i: usize = 0;
                loop
                    invariant
                        i % 2 == 0,
                        self@.store.dom().contains(id),
                        *e == self.store@[id],
                        actions == &e.content.actions,
                        count == actions@.len(),
                        forall|j: int|
                            0 <= j < i && j % 2 == 0 ==> self@.store[id].content.actions[j]
                                != key@,
                    decreases count + 2 - i,
                {
                    if i >= count {
                        return false;
                    }
                    if actions[i] == *key {
                        assert(self@.store[id].content.actions[i as int] == key@);
                        return true;
                    }
                    assert(self@.store[id].content.actions[i as int] != key@);
                    if count - i <= 2 {
                        return false;
                    }
                    i = i + 2;
                }
            },
        }
    }

    /// Look up an active notification's payload.
    pub fn get(&self, id: u32) -> (r: Option<&Notification>)
        ensures
            match r {
                Some(n) => self@.store.dom().contains(id) && n@ == self@.store[id].content,
                None => !self@.store.dom().contains(id),
            },
    {
        match self.store.get(&id) {
            Some(e) => Some(&e.content),
            None => None,
        }
    }
}

} // verus!
