//! The lifecycle laws: proof functions stating, over the engine's model
//! and the transition specifications of [`crate::engine`], what the
//! contracts of the operations jointly guarantee.

use vstd::prelude::*;

use crate::engine::EngineModel;
use crate::engine::close_model;
use crate::engine::close_signal_model;
use crate::engine::cyc_dist;
use crate::engine::fire_hits;
use crate::engine::fired_model;
use crate::engine::fired_signal_model;
use crate::engine::id_succ;
use crate::engine::notify_transition;
use crate::types::CloseReason;
use crate::types::ClosedSignal;
use crate::types::NotificationModel;
use crate::types::NotifyOutcome;

verus! {

/// Ids handed out for fresh notifications are strictly increasing — and so
/// pairwise distinct — as long as the allocator has not wrapped around:
/// two notify calls with `replaces_id == 0`, the second made from a state
/// whose allocator position the first call produced (closes and timer
/// fires in between keep that position), return ids with the second
/// strictly above the first. The wraparound inputs are excluded by the
/// hypotheses that the first id is below `u32::MAX` and that the second
/// id lies at or above the allocator position it was drawn from.
pub proof fn lemma_fresh_ids_increase(
    pre1: EngineModel,
    post1: EngineModel,
    n1: NotificationModel,
    out1: NotifyOutcome,
    pre2: EngineModel,
    post2: EngineModel,
    n2: NotificationModel,
    out2: NotifyOutcome,
)
    requires
        n1.replaces_id == 0,
        n2.replaces_id == 0,
        notify_transition(pre1, post1, n1, out1),
        notify_transition(pre2, post2, n2, out2),
        pre2.next_id == post1.next_id,
        out1.id < u32::MAX,
        out2.id >= pre2.next_id,
    ensures
        out2.id > out1.id,
{
    assert(post1.next_id == id_succ(out1.id));
}

/// Closing or expiring a notification never moves the allocator: the
/// position fresh ids are drawn from is changed by fresh notify calls
/// alone.
pub proof fn lemma_close_keeps_allocator(m: EngineModel, id: u32, gen: u64)
    ensures
        close_model(m, id).next_id == m.next_id,
        fired_model(m, id, gen).next_id == m.next_id,
{
}

/// Replacing an active notification keeps its id, stores exactly the new
/// payload, and disarms the previously armed timer: after the replacement
/// the old timer's fire report names no armed timer any more, so it is a
/// no-op and emits nothing.
pub proof fn lemma_replace_disarms_old_timer(
    pre: EngineModel,
    post: EngineModel,
    n: NotificationModel,
    out: NotifyOutcome,
    old_gen: u64,
)
    requires
        pre.wf(),
        n.replaces_id != 0,
        pre.store.dom().contains(n.replaces_id),
        pre.store[n.replaces_id].timer == Some(old_gen),
        notify_transition(pre, post, n, out),
    ensures
        out.id == n.replaces_id,
        post.store.dom().contains(n.replaces_id),
        post.store[n.replaces_id].content == n,
        !fire_hits(post, n.replaces_id, old_gen),
        fired_signal_model(post, n.replaces_id, old_gen) is None,
        fired_model(post, n.replaces_id, old_gen) == post,
{
    assert(pre.store.dom().contains(n.replaces_id) && pre.store[n.replaces_id].timer is Some);
    assert(old_gen < pre.timer_seq);
}

/// Closing an active id emits exactly one dismissal signal and removes the
/// id; afterwards no timer fire for that id hits, and a second close of
/// the same id changes nothing and emits nothing.
pub proof fn lemma_close_exactly_once(m: EngineModel, id: u32)
    requires
        m.store.dom().contains(id),
    ensures
        close_signal_model(m, id) == Some(
            ClosedSignal { id, reason: CloseReason::DismissedByRequest },
        ),
        !close_model(m, id).store.dom().contains(id),
        forall|g: u64| !fire_hits(close_model(m, id), id, g),
        close_signal_model(close_model(m, id), id) is None,
        close_model(close_model(m, id), id) == close_model(m, id),
{
    assert(close_model(close_model(m, id), id).store =~= close_model(m, id).store);
}

/// A timer fire that names the armed timer of an active id closes it
/// exactly once: the one expiry signal is emitted, the id is gone from
/// the store, and every further fire report or close for that id is a
/// no-op that emits nothing.
pub proof fn lemma_expiry_exactly_once(m: EngineModel, id: u32, gen: u64)
    requires
        fire_hits(m, id, gen),
    ensures
        fired_signal_model(m, id, gen) == Some(ClosedSignal { id, reason: CloseReason::Expired }),
        !fired_model(m, id, gen).store.dom().contains(id),
        forall|g: u64| !fire_hits(fired_model(m, id, gen), id, g),
        close_signal_model(fired_model(m, id, gen), id) is None,
{
}

/// Race determinism: for an active id with an armed timer, an explicit
/// close and the timer's fire, applied in either order, emit exactly one
/// closed signal for that id — the first transition emits it and the
/// second finds nothing and emits none.
pub proof fn lemma_close_fire_race(m: EngineModel, id: u32, gen: u64)
    requires
        m.store.dom().contains(id),
    ensures
        close_signal_model(m, id) is Some,
        fired_signal_model(close_model(m, id), id, gen) is None,
        fire_hits(m, id, gen) ==> fired_signal_model(m, id, gen) is Some && close_signal_model(
            fired_model(m, id, gen),
            id,
        ) is None,
{
}

/// A notify call touches no other notification: every active id other
/// than the one the call returns keeps exactly its entry, and ids absent
/// before stay absent.
pub proof fn lemma_notify_is_local(
    pre: EngineModel,
    post: EngineModel,
    n: NotificationModel,
    out: NotifyOutcome,
)
    requires
        notify_transition(pre, post, n, out),
    ensures
        forall|other: u32|
            other != out.id ==> #[trigger] post.store.dom().contains(other)
                == pre.store.dom().contains(other),
        forall|other: u32|
            other != out.id && #[trigger] pre.store.dom().contains(other) ==> post.store[other]
                == pre.store[other],
{
}

/// A close or fire touches no other notification either: errors and races
/// stay local to the one id involved.
pub proof fn lemma_close_is_local(m: EngineModel, id: u32, gen: u64)
    ensures
        forall|other: u32|
            other != id ==> #[trigger] close_model(m, id).store.dom().contains(other)
                == m.store.dom().contains(other),
        forall|other: u32|
            other != id && #[trigger] m.store.dom().contains(other) ==> close_model(
                m,
                id,
            ).store[other] == m.store[other] && fired_model(m, id, gen).store[other]
                == m.store[other],
        forall|other: u32|
            other != id ==> #[trigger] fired_model(m, id, gen).store.dom().contains(other)
                == m.store.dom().contains(other),
{
}

/// Fresh ids really are fresh: the id returned for `replaces_id == 0` was
/// not active before the call, and is active, holding exactly the new
/// payload, after it.
pub proof fn lemma_fresh_id_is_fresh(
    pre: EngineModel,
    post: EngineModel,
    n: NotificationModel,
    out: NotifyOutcome,
)
    requires
        n.replaces_id == 0,
        notify_transition(pre, post, n, out),
    ensures
        1 <= out.id,
        !pre.store.dom().contains(out.id),
        post.store.dom().contains(out.id),
        post.store[out.id].content == n,
{
}

/// The allocator never skips a free id: every id strictly between the
/// allocator position and the returned id on the scanning cycle was
/// active at the time of the call.
pub proof fn lemma_allocator_takes_first_free(
    pre: EngineModel,
    post: EngineModel,
    n: NotificationModel,
    out: NotifyOutcome,
    v: u32,
)
    requires
        n.replaces_id == 0,
        notify_transition(pre, post, n, out),
        1 <= v,
        cyc_dist(pre.next_id, v) < cyc_dist(pre.next_id, out.id),
    ensures
        pre.store.dom().contains(v),
{
}

} // verus!
