//! Multi-touch contact synthesis engine.
//!
//! Callers record down / move / up requests against a fixed table of contact
//! slots; a ticker periodically turns the table into a batch of injection
//! frames, hands the batch to a backend, and commits the recorded one-shot
//! transitions only once the backend has accepted the whole batch. A rejected
//! batch leaves the table untouched, so the same transitions are retried on
//! the next tick.

use vstd::prelude::*;

verus! {

/// Number of simultaneous touch contacts the engine tracks.
pub const MAX_SLOTS: usize = 10;

/// Errors surfaced by the engine and the simulator built around it.
#[derive(Clone, Copy, Debug, PartialEq, Eq, Structural)]
pub enum SimulationError {
    /// A slot index outside `[0, MAX_SLOTS)` was passed to a request.
    InvalidSlot,
    /// The injection channel could not be created at construction time.
    ChannelCreationFailed,
    /// The backend rejected a batch; the ticker retries on the next tick.
    TransientInjectionError,
}

/// A one-shot edge-triggered transition recorded for a slot, consumed by the
/// first successfully injected batch after it was recorded.
#[derive(Clone, Copy, Debug, PartialEq, Eq, Structural)]
pub enum PendingKind {
    Down,
    Up,
}

/// The state of one contact slot.
#[derive(Clone, Copy, Debug, PartialEq, Eq)]
pub struct ContactState {
    /// Last known pixel coordinates.
    pub x: i32,
    pub y: i32,
    /// True from a queued down until a successfully injected up.
    pub active: bool,
    /// Outstanding one-shot transition, if any. A new request overwrites an
    /// unconsumed one: the most recent request wins.
    pub pending: Option<PendingKind>,
}

impl Default for ContactState {
    /// An idle slot: origin position, inactive, nothing pending.
    fn default() -> (c: Self)
        ensures
            c == (ContactState { x: 0, y: 0, active: false, pending: None }),
    {
        ContactState { x: 0, y: 0, active: false, pending: None }
    }
}

/// A slot that is neither active nor has a pending transition emits nothing.
pub open spec fn idle(c: ContactState) -> bool {
    !c.active && c.pending is None
}

/// The event flag carried by one injection frame.
#[derive(Clone, Copy, Debug, PartialEq, Eq, Structural)]
pub enum FrameKind {
    /// The contact begins: down, in range, in contact.
    Down,
    /// The contact is refreshed at its current position: update, in range,
    /// in contact.
    Update,
    /// The contact ends.
    Up,
}

/// An injection-ready record for one slot: its id, event flag, coordinates,
/// contact bounding rectangle, and the shared tick timestamp.
#[derive(Clone, Copy, Debug, PartialEq, Eq, Structural)]
pub struct Frame {
    pub slot: u32,
    pub kind: FrameKind,
    pub x: i32,
    pub y: i32,
    pub contact_left: i64,
    pub contact_top: i64,
    pub contact_right: i64,
    pub contact_bottom: i64,
    pub time: i64,
}

/// Which event flag a slot contributes this tick: a pending transition is
/// applied exactly once; an active slot with nothing pending is refreshed;
/// an idle slot contributes nothing.
pub open spec fn frame_kind_for(c: ContactState) -> Option<FrameKind> {
    match c.pending {
        Some(PendingKind::Down) => Some(FrameKind::Down),
        Some(PendingKind::Up) => Some(FrameKind::Up),
        None => if c.active {
            Some(FrameKind::Update)
        } else {
            None
        },
    }
}

/// The frame built for slot `slot` from contact `c`: its coordinates, a
/// bounding rectangle two pixels around them, and the tick timestamp.
pub open spec fn mk_frame(c: ContactState, slot: u32, kind: FrameKind, time: i64) -> Frame {
    Frame {
        slot,
        kind,
        x: c.x,
        y: c.y,
        contact_left: (c.x as i64 - 2) as i64,
        contact_top: (c.y as i64 - 2) as i64,
        contact_right: (c.x as i64 + 2) as i64,
        contact_bottom: (c.y as i64 + 2) as i64,
        time,
    }
}

/// The frame slot `slot` contributes to a tick, if any.
pub open spec fn frame_for(c: ContactState, slot: u32, time: i64) -> Option<Frame> {
    match frame_kind_for(c) {
        Some(k) => Some(mk_frame(c, slot, k, time)),
        None => None,
    }
}

/// The batch one tick builds from the whole table: the frames of the
/// contributing slots, in slot order.
pub open spec fn batch_of(slots: Seq<ContactState>, time: i64) -> Seq<Frame>
    decreases slots.len(),
{
    if slots.len() == 0 {
        Seq::empty()
    } else {
        batch_of(slots.drop_last(), time) + match frame_for(
            slots.last(),
            (slots.len() - 1) as u32,
            time,
        ) {
            Some(f) => seq![f],
            None => Seq::empty(),
        }
    }
}

/// What a successful injection does to one slot: the pending transition is
/// retired, and a slot whose committed transition was up is deactivated.
pub open spec fn commit_slot(c: ContactState) -> ContactState {
    ContactState {
        x: c.x,
        y: c.y,
        active: if c.pending == Some(PendingKind::Up) {
            false
        } else {
            c.active
        },
        pending: None,
    }
}

/// A tick whose batch is empty has nothing to inject and nothing to commit:
/// the batch is empty exactly when every slot is idle, and committing an idle
/// slot changes nothing.
pub proof fn lemma_empty_batch_is_quiescent(slots: Seq<ContactState>, time: i64)
    ensures
        batch_of(slots, time).len() == 0 <==> (forall|i: int|
            0 <= i < slots.len() ==> idle(#[trigger] slots[i])),
        forall|i: int|
            0 <= i < slots.len() && idle(#[trigger] slots[i]) ==> commit_slot(slots[i])
                == slots[i],
    decreases slots.len(),
{
    if slots.len() > 0 {
        let n = slots.len() - 1;
        let prefix = slots.drop_last();
        lemma_empty_batch_is_quiescent(prefix, time);
        assert forall|i: int| 0 <= i < prefix.len() implies #[trigger] prefix[i] == slots[i] by {}
        let tail_frame = frame_for(slots.last(), n as u32, time);
        assert(idle(slots.last()) <==> tail_frame is None);
        if batch_of(slots, time).len() == 0 {
            assert(batch_of(prefix, time).len() == 0);
            assert(tail_frame is None);
            assert forall|i: int| 0 <= i < slots.len() implies idle(#[trigger] slots[i]) by {
                if i < n {
                    assert(idle(prefix[i]));
                } else {
                    assert(slots[i] == slots.last());
                }
            }
        }
        if forall|i: int| 0 <= i < slots.len() ==> idle(#[trigger] slots[i]) {
            assert forall|i: int| 0 <= i < prefix.len() implies idle(#[trigger] prefix[i]) by {
                assert(idle(slots[i]));
            }
            assert(batch_of(prefix, time).len() == 0);
            assert(idle(slots.last()));
            assert(batch_of(slots, time).len() == 0);
        }
    }
}

/// Slot isolation: every frame in a batch names the slot it was built from
/// and is a function of that slot's state alone; frames appear in strictly
/// increasing slot order, so a batch holds at most one frame per slot; and
/// every slot that contributes a frame appears.
pub proof fn lemma_slot_isolation(slots: Seq<ContactState>, time: i64)
    requires
        slots.len() <= 0x1_0000_0000,
    ensures
        ({
            let batch = batch_of(slots, time);
            &&& (forall|j: int|
                0 <= j < batch.len() ==> {
                    let f = #[trigger] batch[j];
                    &&& f.slot < slots.len()
                    &&& Some(f) == frame_for(slots[f.slot as int], f.slot, time)
                })
            &&& (forall|j1: int, j2: int|
                0 <= j1 < j2 < batch.len() ==> (#[trigger] batch[j1]).slot < (
                #[trigger] batch[j2]).slot)
            &&& (forall|i: int|
                0 <= i < slots.len() && (#[trigger] frame_for(slots[i], i as u32, time)) is Some
                    ==> exists|j: int|
                    0 <= j < batch.len() && Some(#[trigger] batch[j]) == frame_for(
                        slots[i],
                        i as u32,
                        time,
                    ))
        }),
    decreases slots.len(),
{
    if slots.len() > 0 {
        let n = slots.len() - 1;
        let prefix = slots.drop_last();
        lemma_slot_isolation(prefix, time);
        let pre_batch = batch_of(prefix, time);
        let batch = batch_of(slots, time);
        assert forall|i: int| 0 <= i < prefix.len() implies #[trigger] prefix[i] == slots[i] by {}
        match frame_for(slots.last(), n as u32, time) {
            Some(f) => {
                assert(batch == pre_batch + seq![f]);
                assert(f.slot == n as u32);
                assert(batch[batch.len() - 1] == f);
            },
            None => {
                assert(batch == pre_batch + Seq::<Frame>::empty());
                assert(batch =~= pre_batch);
            },
        }
        assert forall|i: int|
            0 <= i < slots.len() && (#[trigger] frame_for(slots[i], i as u32, time))
                is Some implies exists|j: int|
            0 <= j < batch.len() && Some(#[trigger] batch[j]) == frame_for(
                slots[i],
                i as u32,
                time,
            ) by {
            if i < n {
                let j = choose|j: int|
                    0 <= j < pre_batch.len() && Some(#[trigger] pre_batch[j]) == frame_for(
                        prefix[i],
                        i as u32,
                        time,
                    );
                assert(batch[j] == pre_batch[j]);
            } else {
                assert(slots[i] == slots.last());
                assert(Some(batch[batch.len() - 1]) == frame_for(slots[i], i as u32, time));
            }
        }
    }
}

/// The shared table of per-slot contact state. Callers mutate it through the
/// `record_*` requests; the ticker reads it with [`ContactTable::snapshot_and_build`]
/// and retires transitions with [`ContactTable::commit`] once a batch has been
/// accepted.
pub struct ContactTable {
    slots: Vec<ContactState>,
}

impl View for ContactTable {
    type V = Seq<ContactState>;

    closed spec fn view(&self) -> Seq<ContactState> {
        self.slots@
    }
}

impl ContactTable {
    /// The table always holds exactly one state per slot.
    pub open spec fn wf(&self) -> bool {
        self@.len() == MAX_SLOTS
    }

    /// A fresh table: every slot idle.
    pub fn new() -> (t: Self)
        ensures
            t.wf(),
            forall|i: int|
                0 <= i < MAX_SLOTS ==> #[trigger] t@[i] == (ContactState {
                    x: 0,
                    y: 0,
                    active: false,
                    pending: None,
                }),
    {
        let mut slots: Vec<ContactState> = Vec::new();
        let mut i: usize = 0;
        while i < MAX_SLOTS
            invariant
                i <= MAX_SLOTS,
                slots@.len() == i,
                forall|j: int|
                    0 <= j < i ==> #[trigger] slots@[j] == (ContactState {
                        x: 0,
                        y: 0,
                        active: false,
                        pending: None,
                    }),
            decreases MAX_SLOTS - i,
        {
            slots.push(ContactState::default());
            i += 1;
        }
        ContactTable { slots }
    }

    /// Record a finger-down request: the slot takes the given position,
    /// becomes active, and a down transition is queued, overwriting any prior
    /// unconsumed transition.
    pub fn record_down(&mut self, slot: usize, x: i32, y: i32) -> (r: Result<
        (),
        SimulationError,
    >)
        requires
            old(self).wf(),
        ensures
            final(self).wf(),
            slot < MAX_SLOTS ==> r == Ok::<(), SimulationError>(()) && final(self)@ == old(
                self,
            )@.update(
                slot as int,
                (ContactState { x, y, active: true, pending: Some(PendingKind::Down) }),
            ),
            slot >= MAX_SLOTS ==> r == Err::<(), SimulationError>(SimulationError::InvalidSlot)
                && final(self)@ == old(self)@,
    {
        if slot >= MAX_SLOTS {
            return Err(SimulationError::InvalidSlot);
        }
        self.slots[slot] = ContactState { x, y, active: true, pending: Some(PendingKind::Down) };
        Ok(())
    }

    /// Record a move request: the slot takes the given position and is made
    /// active (a move can implicitly begin a contact); any pending transition
    /// is left untouched.
    pub fn record_move(&mut self, slot: usize, x: i32, y: i32) -> (r: Result<
        (),
        SimulationError,
    >)
        requires
            old(self).wf(),
        ensures
            final(self).wf(),
            slot < MAX_SLOTS ==> r == Ok::<(), SimulationError>(()) && final(self)@ == old(
                self,
            )@.update(
                slot as int,
                (ContactState { x, y, active: true, pending: old(self)@[slot as int].pending }),
            ),
            slot >= MAX_SLOTS ==> r == Err::<(), SimulationError>(SimulationError::InvalidSlot)
                && final(self)@ == old(self)@,
    {
        if slot >= MAX_SLOTS {
            return Err(SimulationError::InvalidSlot);
        }
        let c = self.slots[slot];
        self.slots[slot] = ContactState { x, y, active: true, pending: c.pending };
        Ok(())
    }

    /// Record a finger-up request: an up transition is queued. The slot stays
    /// active until the up frame is successfully injected.
    pub fn record_up(&mut self, slot: usize) -> (r: Result<(), SimulationError>)
        requires
            old(self).wf(),
        ensures
            final(self).wf(),
            slot < MAX_SLOTS ==> r == Ok::<(), SimulationError>(()) && final(self)@ == old(
                self,
            )@.update(
                slot as int,
                (ContactState {
                    x: old(self)@[slot as int].x,
                    y: old(self)@[slot as int].y,
                    active: old(self)@[slot as int].active,
                    pending: Some(PendingKind::Up),
                }),
            ),
            slot >= MAX_SLOTS ==> r == Err::<(), SimulationError>(SimulationError::InvalidSlot)
                && final(self)@ == old(self)@,
    {
        if slot >= MAX_SLOTS {
            return Err(SimulationError::InvalidSlot);
        }
        let c = self.slots[slot];
        self.slots[slot] = ContactState {
            x: c.x,
            y: c.y,
            active: c.active,
            pending: Some(PendingKind::Up),
        };
        Ok(())
    }

    /// Read one slot's current state; `None` for a slot index out of range.
    pub fn slot_state(&self, slot: usize) -> (r: Option<ContactState>)
        requires
            self.wf(),
        ensures
            slot < MAX_SLOTS ==> r == Some(self@[slot as int]),
            slot >= MAX_SLOTS ==> r is None,
    {
        if slot < MAX_SLOTS {
            Some(self.slots[slot])
        } else {
            None
        }
    }

    /// One consistent read of the whole table, turned into the batch for this
    /// tick: every active slot and every slot with a pending transition
    /// contributes one frame, in slot order, all sharing `time`.
    pub fn snapshot_and_build(&self, time: i64) -> (batch: Vec<Frame>)
        requires
            self.wf(),
        ensures
            batch@ == batch_of(self@, time),
    {
        let mut batch: Vec<Frame> = Vec::new();
        let mut i: usize = 0;
        while i < MAX_SLOTS
            invariant
                self.wf(),
                i <= MAX_SLOTS,
                batch@ == batch_of(self@.take(i as int), time),
            decreases MAX_SLOTS - i,
        {
            let c = self.slots[i];
            let kind: Option<FrameKind> = match c.pending {
                Some(PendingKind::Down) => Some(FrameKind::Down),
                Some(PendingKind::Up) => Some(FrameKind::Up),
                None => if c.active {
                    Some(FrameKind::Update)
                } else {
                    None
                },
            };
            match kind {
                Some(k) => {
                    let f = Frame {
                        slot: i as u32,
                        kind: k,
                        x: c.x,
                        y: c.y,
                        contact_left: c.x as i64 - 2,
                        contact_top: c.y as i64 - 2,
                        contact_right: c.x as i64 + 2,
                        contact_bottom: c.y as i64 + 2,
                        time,
                    };
                    batch.push(f);
                },
                None => {},
            }
            proof {
                let pre = self@.take(i as int);
                let cur = self@.take(i as int + 1);
                assert(cur.drop_last() =~= pre);
                assert(cur.last() == self@[i as int]);
                assert(batch@ =~= batch_of(cur, time));
            }
            i += 1;
        }
        proof {
            assert(self@.take(MAX_SLOTS as int) =~= self@);
        }
        batch
    }

    /// Retire the transitions of a batch the backend has accepted: every
    /// pending transition is cleared, and a slot whose committed transition
    /// was up is deactivated. Positions are kept.
    pub fn commit(&mut self)
        requires
            old(self).wf(),
        ensures
            final(self).wf(),
            forall|i: int|
                0 <= i < MAX_SLOTS ==> #[trigger] final(self)@[i] == commit_slot(old(self)@[i]),
    {
        let ghost orig = self@;
        let mut i: usize = 0;
        while i < MAX_SLOTS
            invariant
                self.wf(),
                orig.len() == MAX_SLOTS,
                i <= MAX_SLOTS,
                forall|j: int| 0 <= j < i ==> #[trigger] self@[j] == commit_slot(orig[j]),
                forall|j: int| i <= j < MAX_SLOTS ==> #[trigger] self@[j] == orig[j],
            decreases MAX_SLOTS - i,
        {
            let c = self.slots[i];
            let was_up = match c.pending {
                Some(PendingKind::Up) => true,
                _ => false,
            };
            self.slots[i] = ContactState {
                x: c.x,
                y: c.y,
                active: if was_up {
                    false
                } else {
                    c.active
                },
                pending: None,
            };
            i += 1;
        }
    }

    /// The ticker's decision after handing a batch to the backend: a batch
    /// the backend accepted is committed; a rejected one leaves the table
    /// untouched, so the same transitions are rebuilt and retried on the
    /// next tick.
    pub fn apply_injection_result(&mut self, accepted: bool)
        requires
            old(self).wf(),
        ensures
            final(self).wf(),
            accepted ==> forall|i: int|
                0 <= i < MAX_SLOTS ==> #[trigger] final(self)@[i] == commit_slot(old(self)@[i]),
            !accepted ==> final(self)@ == old(self)@,
    {
        if accepted {
            self.commit();
        }
    }
}

} // verus!
