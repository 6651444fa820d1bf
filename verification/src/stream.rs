//! Lifecycle laws of the contact synthesis engine.
//!
//! A single slot's history is a sequence of [`SlotEvent`]s: the caller
//! requests that touch it, and ticker passes whose batch the backend accepted
//! or rejected. [`slot_step`] is what each event writes into the slot — the
//! same states the table operations write, per slot — and [`slot_emit`] is
//! what each event delivers to the backend for that slot. The proof functions
//! below state the engine's guarantees over whole runs: each edge-triggered
//! transition is delivered exactly once, moves coalesce, identical moves are
//! idempotent, and a rejected batch is retried unchanged.

use vstd::prelude::*;

use crate::touch::ContactState;
use crate::touch::Frame;
use crate::touch::FrameKind;
use crate::touch::PendingKind;
use crate::touch::commit_slot;
use crate::touch::frame_for;
use crate::touch::idle;
use crate::touch::mk_frame;

verus! {

/// One thing that can happen to a single slot: a caller request against it,
/// or one ticker pass whose batch the backend accepted (`ok`) or rejected.
pub enum SlotEvent {
    Down { x: i32, y: i32 },
    Move { x: i32, y: i32 },
    Up,
    Tick { time: i64, ok: bool },
}

/// What an event writes into a slot. Requests write exactly the states the
/// table's `record_*` operations write; an accepted tick commits the slot; a
/// rejected tick leaves it untouched.
pub open spec fn slot_step(c: ContactState, ev: SlotEvent) -> ContactState {
    match ev {
        SlotEvent::Down { x, y } => ContactState {
            x,
            y,
            active: true,
            pending: Some(PendingKind::Down),
        },
        SlotEvent::Move { x, y } => ContactState { x, y, active: true, pending: c.pending },
        SlotEvent::Up => ContactState {
            x: c.x,
            y: c.y,
            active: c.active,
            pending: Some(PendingKind::Up),
        },
        SlotEvent::Tick { time: _, ok } => if ok {
            commit_slot(c)
        } else {
            c
        },
    }
}

/// What an event delivers to the backend for the slot: an accepted tick
/// delivers the slot's frame, if it contributes one; everything else
/// delivers nothing.
pub open spec fn slot_emit(c: ContactState, slot: u32, ev: SlotEvent) -> Seq<Frame> {
    match ev {
        SlotEvent::Tick { time, ok } => if ok {
            match frame_for(c, slot, time) {
                Some(f) => seq![f],
                None => Seq::empty(),
            }
        } else {
            Seq::empty()
        },
        _ => Seq::empty(),
    }
}

/// The slot's state after a run of events.
pub open spec fn slot_run(c: ContactState, evs: Seq<SlotEvent>) -> ContactState
    decreases evs.len(),
{
    if evs.len() == 0 {
        c
    } else {
        slot_run(slot_step(c, evs.first()), evs.drop_first())
    }
}

/// Every frame delivered for the slot over a run of events, in order.
pub open spec fn slot_stream(c: ContactState, slot: u32, evs: Seq<SlotEvent>) -> Seq<Frame>
    decreases evs.len(),
{
    if evs.len() == 0 {
        Seq::empty()
    } else {
        slot_emit(c, slot, evs.first()) + slot_stream(
            slot_step(c, evs.first()),
            slot,
            evs.drop_first(),
        )
    }
}

/// A tick whose batch the backend accepted.
pub open spec fn is_ok_tick(ev: SlotEvent) -> bool {
    match ev {
        SlotEvent::Tick { time: _, ok } => ok,
        _ => false,
    }
}

/// Only ticker passes: no request touches the slot.
pub open spec fn all_ticks(evs: Seq<SlotEvent>) -> bool {
    forall|i: int| 0 <= i < evs.len() ==> (#[trigger] evs[i]) is Tick
}

/// Only moves and ticker passes: no down or up request touches the slot.
pub open spec fn moves_and_ticks(evs: Seq<SlotEvent>) -> bool {
    forall|i: int| 0 <= i < evs.len() ==> (#[trigger] evs[i]) is Tick || evs[i] is Move
}

/// At least one batch in the run was accepted.
pub open spec fn has_ok_tick(evs: Seq<SlotEvent>) -> bool {
    exists|i: int| 0 <= i < evs.len() && is_ok_tick(#[trigger] evs[i])
}

/// Running a concatenation runs the two halves in sequence.
pub proof fn lemma_run_concat(c: ContactState, a: Seq<SlotEvent>, b: Seq<SlotEvent>)
    ensures
        slot_run(c, a + b) == slot_run(slot_run(c, a), b),
    decreases a.len(),
{
    if a.len() == 0 {
        assert(a + b =~= b);
    } else {
        assert((a + b).first() == a.first());
        assert((a + b).drop_first() =~= a.drop_first() + b);
        lemma_run_concat(slot_step(c, a.first()), a.drop_first(), b);
    }
}

/// The stream of a concatenation is the first half's stream followed by the
/// second half's, started from where the first half left the slot.
pub proof fn lemma_stream_concat(c: ContactState, slot: u32, a: Seq<SlotEvent>, b: Seq<SlotEvent>)
    ensures
        slot_stream(c, slot, a + b) == slot_stream(c, slot, a) + slot_stream(
            slot_run(c, a),
            slot,
            b,
        ),
    decreases a.len(),
{
    if a.len() == 0 {
        assert(a + b =~= b);
        assert(slot_stream(c, slot, a) + slot_stream(slot_run(c, a), slot, b) =~= slot_stream(
            c,
            slot,
            b,
        ));
    } else {
        assert((a + b).first() == a.first());
        assert((a + b).drop_first() =~= a.drop_first() + b);
        lemma_stream_concat(slot_step(c, a.first()), slot, a.drop_first(), b);
        assert(slot_emit(c, slot, a.first()) + (slot_stream(slot_step(c, a.first()), slot,
        a.drop_first()) + slot_stream(slot_run(c, a), slot, b)) =~= slot_stream(c, slot, a)
            + slot_stream(slot_run(c, a), slot, b));
    }
}

/// An idle slot stays idle and delivers nothing while only ticks arrive.
pub proof fn lemma_idle_quiescent(c: ContactState, slot: u32, evs: Seq<SlotEvent>)
    requires
        idle(c),
        all_ticks(evs),
    ensures
        slot_run(c, evs) == c,
        slot_stream(c, slot, evs) == Seq::<Frame>::empty(),
    decreases evs.len(),
{
    if evs.len() > 0 {
        let ev = evs.first();
        assert(ev is Tick);
        assert(slot_step(c, ev) == c);
        assert(slot_emit(c, slot, ev) =~= Seq::<Frame>::empty());
        assert(all_ticks(evs.drop_first())) by {
            assert forall|i: int| 0 <= i < evs.drop_first().len() implies (#[trigger] evs.drop_first()[i]) is Tick by {
                assert(evs.drop_first()[i] == evs[i + 1]);
            }
        }
        lemma_idle_quiescent(c, slot, evs.drop_first());
        assert(slot_stream(c, slot, evs) =~= Seq::<Frame>::empty());
    }
}

/// Event-shape facts carried from a run to its tail.
proof fn lemma_tail_props(evs: Seq<SlotEvent>)
    requires
        evs.len() > 0,
    ensures
        all_ticks(evs) ==> all_ticks(evs.drop_first()),
        moves_and_ticks(evs) ==> moves_and_ticks(evs.drop_first()),
        has_ok_tick(evs) && !is_ok_tick(evs.first()) ==> has_ok_tick(evs.drop_first()),
        has_ok_tick(evs.drop_first()) ==> has_ok_tick(evs),
{
    let tail = evs.drop_first();
    assert forall|i: int| 0 <= i < tail.len() implies #[trigger] tail[i] == evs[i + 1] by {}
    if all_ticks(evs) {
        assert forall|i: int| 0 <= i < tail.len() implies (#[trigger] tail[i]) is Tick by {
            assert(tail[i] == evs[i + 1]);
        }
    }
    if moves_and_ticks(evs) {
        assert forall|i: int| 0 <= i < tail.len() implies (#[trigger] tail[i]) is Tick || tail[i]
            is Move by {
            assert(tail[i] == evs[i + 1]);
        }
    }
    if has_ok_tick(evs) && !is_ok_tick(evs.first()) {
        let w = choose|i: int| 0 <= i < evs.len() && is_ok_tick(#[trigger] evs[i]);
        assert(w != 0);
        assert(tail[w - 1] == evs[w]);
        assert(has_ok_tick(tail));
    }
    if has_ok_tick(tail) {
        let w = choose|i: int| 0 <= i < tail.len() && is_ok_tick(#[trigger] tail[i]);
        assert(evs[w + 1] == tail[w]);
        assert(has_ok_tick(evs));
    }
}

/// An active contact with nothing pending only refreshes: while moves and
/// ticks arrive, it stays active with nothing pending, and every delivered
/// frame is an update.
pub proof fn lemma_active_refreshes(c: ContactState, slot: u32, evs: Seq<SlotEvent>)
    requires
        c.active,
        c.pending is None,
        moves_and_ticks(evs),
    ensures
        slot_run(c, evs).active,
        slot_run(c, evs).pending is None,
        forall|i: int|
            0 <= i < slot_stream(c, slot, evs).len() ==> (#[trigger] slot_stream(c, slot, evs)[i]).kind
                == FrameKind::Update,
    decreases evs.len(),
{
    if evs.len() > 0 {
        let ev = evs.first();
        let c2 = slot_step(c, ev);
        assert(c2.active && c2.pending is None);
        lemma_tail_props(evs);
        lemma_active_refreshes(c2, slot, evs.drop_first());
        let em = slot_emit(c, slot, ev);
        let rest = slot_stream(c2, slot, evs.drop_first());
        let st = slot_stream(c, slot, evs);
        assert(st == em + rest);
        assert forall|i: int| 0 <= i < st.len() implies (#[trigger] st[i]).kind
            == FrameKind::Update by {
            if i < em.len() {
                assert(em[i].kind == FrameKind::Update);
            } else {
                assert(st[i] == rest[i - em.len()]);
            }
        }
    }
}

/// A queued down transition is delivered exactly once: the first accepted
/// tick delivers the down frame, after which the slot is active with nothing
/// pending and only update frames follow. Until a batch is accepted, nothing
/// is delivered and the down stays queued.
pub proof fn lemma_pending_down_delivery(c: ContactState, slot: u32, evs: Seq<SlotEvent>)
    requires
        c.active,
        c.pending == Some(PendingKind::Down),
        moves_and_ticks(evs),
    ensures
        has_ok_tick(evs) ==> ({
            let st = slot_stream(c, slot, evs);
            &&& st.len() >= 1
            &&& st[0].kind == FrameKind::Down
            &&& (forall|i: int| 1 <= i < st.len() ==> (#[trigger] st[i]).kind == FrameKind::Update)
            &&& slot_run(c, evs).active
            &&& slot_run(c, evs).pending is None
        }),
        !has_ok_tick(evs) ==> slot_stream(c, slot, evs) == Seq::<Frame>::empty() && slot_run(
            c,
            evs,
        ).active && slot_run(c, evs).pending == Some(PendingKind::Down),
    decreases evs.len(),
{
    if evs.len() == 0 {
        assert(slot_stream(c, slot, evs) =~= Seq::<Frame>::empty());
    } else {
        let ev = evs.first();
        let c2 = slot_step(c, ev);
        let tail = evs.drop_first();
        lemma_tail_props(evs);
        let em = slot_emit(c, slot, ev);
        let st = slot_stream(c, slot, evs);
        if is_ok_tick(ev) {
            assert(c2 == commit_slot(c));
            assert(c2.active && c2.pending is None);
            lemma_active_refreshes(c2, slot, tail);
            let rest = slot_stream(c2, slot, tail);
            assert(em.len() == 1 && em[0].kind == FrameKind::Down);
            assert(st == em + rest);
            assert(st[0].kind == FrameKind::Down);
            assert forall|i: int| 1 <= i < st.len() implies (#[trigger] st[i]).kind
                == FrameKind::Update by {
                assert(st[i] == rest[i - 1]);
            }
            assert(has_ok_tick(evs));
        } else {
            assert(c2.active && c2.pending == Some(PendingKind::Down));
            lemma_pending_down_delivery(c2, slot, tail);
            assert(em =~= Seq::<Frame>::empty());
            assert(st =~= slot_stream(c2, slot, tail));
            assert(has_ok_tick(evs) ==> has_ok_tick(tail));
            assert(has_ok_tick(tail) ==> has_ok_tick(evs));
        }
    }
}

/// A queued up transition is delivered exactly once: the first accepted tick
/// delivers the up frame and idles the slot, and nothing more is ever
/// delivered for it. Until a batch is accepted, nothing is delivered and the
/// up stays queued.
pub proof fn lemma_pending_up_delivery(c: ContactState, slot: u32, evs: Seq<SlotEvent>)
    requires
        c.pending == Some(PendingKind::Up),
        all_ticks(evs),
    ensures
        has_ok_tick(evs) ==> ({
            let st = slot_stream(c, slot, evs);
            &&& st.len() == 1
            &&& st[0].kind == FrameKind::Up
            &&& idle(slot_run(c, evs))
        }),
        !has_ok_tick(evs) ==> slot_stream(c, slot, evs) == Seq::<Frame>::empty() && slot_run(
            c,
            evs,
        ) == c,
    decreases evs.len(),
{
    if evs.len() == 0 {
        assert(slot_stream(c, slot, evs) =~= Seq::<Frame>::empty());
    } else {
        let ev = evs.first();
        let c2 = slot_step(c, ev);
        let tail = evs.drop_first();
        lemma_tail_props(evs);
        let em = slot_emit(c, slot, ev);
        let st = slot_stream(c, slot, evs);
        if is_ok_tick(ev) {
            assert(c2 == commit_slot(c));
            assert(idle(c2));
            lemma_idle_quiescent(c2, slot, tail);
            assert(em.len() == 1 && em[0].kind == FrameKind::Up);
            assert(st =~= em);
            assert(has_ok_tick(evs));
        } else {
            assert(c2 == c);
            lemma_pending_up_delivery(c2, slot, tail);
            assert(em =~= Seq::<Frame>::empty());
            assert(st =~= slot_stream(c2, slot, tail));
            assert(has_ok_tick(evs) ==> has_ok_tick(tail));
            assert(has_ok_tick(tail) ==> has_ok_tick(evs));
        }
    }
}

/// A one-event run takes one step and delivers one emission.
proof fn lemma_single(c: ContactState, slot: u32, ev: SlotEvent)
    ensures
        slot_run(c, seq![ev]) == slot_step(c, ev),
        slot_stream(c, slot, seq![ev]) == slot_emit(c, slot, ev),
{
    let s = seq![ev];
    assert(s.first() == ev);
    assert(s.drop_first() =~= Seq::<SlotEvent>::empty());
    assert(slot_run(slot_step(c, ev), s.drop_first()) == slot_step(c, ev));
    assert(slot_stream(slot_step(c, ev), slot, s.drop_first()) =~= Seq::<Frame>::empty());
    assert(slot_stream(c, slot, s) =~= slot_emit(c, slot, ev));
}

/// The slot machine is exactly what the table writes: each request event
/// yields the state the corresponding `record_*` operation stores, an
/// accepted tick commits the slot, and a rejected tick changes nothing.
pub proof fn lemma_requests_match_slot_machine(c: ContactState, x: i32, y: i32, time: i64)
    ensures
        slot_step(c, SlotEvent::Down { x, y }) == (ContactState {
            x,
            y,
            active: true,
            pending: Some(PendingKind::Down),
        }),
        slot_step(c, SlotEvent::Move { x, y }) == (ContactState {
            x,
            y,
            active: true,
            pending: c.pending,
        }),
        slot_step(c, SlotEvent::Up) == (ContactState {
            x: c.x,
            y: c.y,
            active: c.active,
            pending: Some(PendingKind::Up),
        }),
        slot_step(c, SlotEvent::Tick { time, ok: true }) == commit_slot(c),
        slot_step(c, SlotEvent::Tick { time, ok: false }) == c,
{
}

/// One full contact: a down request, then only moves and ticks, then an up
/// request, then only ticks. Provided some batch is accepted between the two
/// requests and some batch after the up, the frame stream for the slot is
/// exactly one down frame, then zero or more update frames, then exactly one
/// up frame — and the slot ends idle.
pub proof fn lemma_contact_lifecycle(
    c: ContactState,
    slot: u32,
    x: i32,
    y: i32,
    mid: Seq<SlotEvent>,
    post: Seq<SlotEvent>,
)
    requires
        idle(c),
        moves_and_ticks(mid),
        has_ok_tick(mid),
        all_ticks(post),
        has_ok_tick(post),
    ensures
        ({
            let evs = seq![SlotEvent::Down { x, y }] + mid + seq![SlotEvent::Up] + post;
            let st = slot_stream(c, slot, evs);
            &&& st.len() >= 2
            &&& st[0].kind == FrameKind::Down
            &&& st[st.len() - 1].kind == FrameKind::Up
            &&& (forall|i: int|
                0 < i < st.len() - 1 ==> (#[trigger] st[i]).kind == FrameKind::Update)
            &&& idle(slot_run(c, evs))
        }),
{
    let d = seq![SlotEvent::Down { x, y }];
    let u = seq![SlotEvent::Up];
    let pre1 = d + mid;
    let pre2 = pre1 + u;
    let evs = pre2 + post;

    lemma_single(c, slot, SlotEvent::Down { x, y });
    let c1 = slot_step(c, SlotEvent::Down { x, y });
    assert(c1.active && c1.pending == Some(PendingKind::Down));

    lemma_run_concat(c, d, mid);
    lemma_stream_concat(c, slot, d, mid);
    let m = slot_run(c1, mid);
    lemma_pending_down_delivery(c1, slot, mid);
    let st_mid = slot_stream(c1, slot, mid);
    assert(slot_stream(c, slot, pre1) =~= st_mid);
    assert(m.active && m.pending is None);

    lemma_run_concat(c, pre1, u);
    lemma_stream_concat(c, slot, pre1, u);
    lemma_single(m, slot, SlotEvent::Up);
    let m2 = slot_step(m, SlotEvent::Up);
    assert(m2.pending == Some(PendingKind::Up));
    assert(slot_stream(c, slot, pre2) =~= st_mid);

    lemma_run_concat(c, pre2, post);
    lemma_stream_concat(c, slot, pre2, post);
    lemma_pending_up_delivery(m2, slot, post);
    let st_up = slot_stream(m2, slot, post);
    let st = slot_stream(c, slot, evs);
    assert(st =~= st_mid + st_up);
    assert(st.len() == st_mid.len() + 1);
    assert(st[0] == st_mid[0]);
    assert(st[st.len() - 1] == st_up[0]);
    assert forall|i: int| 0 < i < st.len() - 1 implies (#[trigger] st[i]).kind
        == FrameKind::Update by {
        assert(st[i] == st_mid[i]);
    }
    assert(idle(slot_run(m2, post)));
}

/// Idempotence: moves to the position the contact already holds leave its
/// state unchanged, and every delivered frame is the same update frame at
/// that position (only the shared tick timestamp varies). No down or up is
/// ever re-emitted.
pub proof fn lemma_move_idempotent(c: ContactState, slot: u32, evs: Seq<SlotEvent>)
    requires
        c.active,
        c.pending is None,
        forall|i: int|
            0 <= i < evs.len() ==> (#[trigger] evs[i]) == (SlotEvent::Move { x: c.x, y: c.y })
                || evs[i] is Tick,
    ensures
        slot_run(c, evs) == c,
        forall|i: int|
            0 <= i < slot_stream(c, slot, evs).len() ==> (#[trigger] slot_stream(c, slot, evs)[i])
                == mk_frame(c, slot, FrameKind::Update, slot_stream(c, slot, evs)[i].time),
    decreases evs.len(),
{
    if evs.len() > 0 {
        let ev = evs.first();
        let tail = evs.drop_first();
        assert(slot_step(c, ev) == c);
        assert forall|i: int|
            0 <= i < tail.len() implies (#[trigger] tail[i]) == (SlotEvent::Move {
            x: c.x,
            y: c.y,
        }) || tail[i] is Tick by {
            assert(tail[i] == evs[i + 1]);
        }
        lemma_move_idempotent(c, slot, tail);
        let em = slot_emit(c, slot, ev);
        let st = slot_stream(c, slot, evs);
        let rest = slot_stream(c, slot, tail);
        assert(st == em + rest);
        assert forall|i: int| 0 <= i < st.len() implies (#[trigger] st[i]) == mk_frame(
            c,
            slot,
            FrameKind::Update,
            st[i].time,
        ) by {
            if i < em.len() {
                assert(st[i] == em[i]);
            } else {
                assert(st[i] == rest[i - em.len()]);
            }
        }
    }
}

/// A run of nothing but moves never delivers a frame, and leaves the slot
/// exactly where the last move alone would have put it.
proof fn lemma_moves_run(c: ContactState, slot: u32, moves: Seq<SlotEvent>)
    requires
        moves.len() > 0,
        forall|i: int| 0 <= i < moves.len() ==> (#[trigger] moves[i]) is Move,
    ensures
        slot_run(c, moves) == slot_step(c, moves.last()),
        slot_stream(c, slot, moves) == Seq::<Frame>::empty(),
    decreases moves.len(),
{
    let ev = moves.first();
    let c2 = slot_step(c, ev);
    let tail = moves.drop_first();
    assert(slot_emit(c, slot, ev) =~= Seq::<Frame>::empty());
    if tail.len() == 0 {
        assert(moves.last() == ev);
        assert(slot_run(c2, tail) == c2);
        assert(slot_stream(c2, slot, tail) =~= Seq::<Frame>::empty());
        assert(slot_stream(c, slot, moves) =~= Seq::<Frame>::empty());
    } else {
        assert forall|i: int| 0 <= i < tail.len() implies (#[trigger] tail[i]) is Move by {
            assert(tail[i] == moves[i + 1]);
        }
        lemma_moves_run(c2, slot, tail);
        assert(tail.last() == moves.last());
        assert(c2.pending == c.pending);
        assert(slot_step(c2, moves.last()) == slot_step(c, moves.last()));
        assert(slot_stream(c, slot, moves) =~= Seq::<Frame>::empty());
    }
}

/// Coalescing: a burst of moves between two ticks leaves the slot exactly
/// where the last move put it, delivers nothing by itself, and the next
/// accepted tick delivers exactly one frame, carrying the last coordinates.
/// In the steady state (nothing pending) that frame is an update.
pub proof fn lemma_moves_coalesce(c: ContactState, slot: u32, moves: Seq<SlotEvent>, time: i64)
    requires
        moves.len() > 0,
        forall|i: int| 0 <= i < moves.len() ==> (#[trigger] moves[i]) is Move,
    ensures
        slot_run(c, moves) == slot_step(c, moves.last()),
        slot_stream(c, slot, moves) == Seq::<Frame>::empty(),
        ({
            let evs = moves + seq![SlotEvent::Tick { time, ok: true }];
            let m = slot_step(c, moves.last());
            let st = slot_stream(c, slot, evs);
            &&& st.len() == 1
            &&& Some(st[0]) == frame_for(m, slot, time)
            &&& st[0].x == m.x
            &&& st[0].y == m.y
            &&& (c.pending is None ==> st[0] == mk_frame(m, slot, FrameKind::Update, time))
        }),
{
    lemma_moves_run(c, slot, moves);
    let m = slot_step(c, moves.last());
    let tick = seq![SlotEvent::Tick { time, ok: true }];
    let evs = moves + tick;
    lemma_run_concat(c, moves, tick);
    lemma_stream_concat(c, slot, moves, tick);
    lemma_single(m, slot, SlotEvent::Tick { time, ok: true });
    assert(m.active);
    let st = slot_stream(c, slot, evs);
    assert(st =~= slot_emit(m, slot, SlotEvent::Tick { time, ok: true }));
    assert(frame_for(m, slot, time) is Some);
}

/// Retry correctness: while a slot has a queued up transition, a rejected
/// batch changes nothing and delivers nothing — the same up frame is rebuilt
/// on the next tick — and once a later batch is accepted the slot goes idle
/// having delivered exactly one up frame, with nothing after it.
pub proof fn lemma_retry_pending_up(
    c: ContactState,
    slot: u32,
    time: i64,
    post: Seq<SlotEvent>,
)
    requires
        c.active,
        c.pending == Some(PendingKind::Up),
        all_ticks(post),
        has_ok_tick(post),
    ensures
        slot_step(c, SlotEvent::Tick { time, ok: false }) == c,
        slot_emit(c, slot, SlotEvent::Tick { time, ok: false }) == Seq::<Frame>::empty(),
        slot_stream(c, slot, post).len() == 1,
        slot_stream(c, slot, post)[0].kind == FrameKind::Up,
        idle(slot_run(c, post)),
{
    lemma_pending_up_delivery(c, slot, post);
}

} // verus!
