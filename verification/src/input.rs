//! Input aggregation: raw window and pointer events become per-tick camera
//! events.
//!
//! The aggregator keeps four level-triggered key-held flags, a drag flag with
//! a note of whether a pointer reference sample has been seen, and at most
//! one pending rotation delta. Once per tick the pending state is drained
//! into an ordered batch of camera events; the rotation delta is consumed
//! exactly once per tick however many pointer samples arrived, and a later
//! sample replaces — never adds to — an earlier one's delta. The delta
//! payload `D` is a 2D vector to the caller (the pointer movement since the
//! previous sample, scaled by the fixed sensitivity constant); this module
//! never looks inside it, so its guarantees hold for any payload.

use vstd::prelude::*;

use crate::camera::{step_of_event_spec, CameraEvent};

verus! {

/// The four held-movement keys, named for the camera motion they drive:
/// `Up` moves forward along `ww`, `Down` backward, `Left` and `Right` strafe
/// along `uu`.
#[derive(Clone, Copy, PartialEq, Eq, Structural, Debug)]
pub enum MotionKey {
    Up,
    Down,
    Left,
    Right,
}

/// Accumulates raw input between redraw ticks.
#[derive(Clone, PartialEq, Debug)]
pub struct InputAggregator<D> {
    pub up_held: bool,
    pub down_held: bool,
    pub left_held: bool,
    pub right_held: bool,
    /// The drag button is currently pressed.
    pub drag_active: bool,
    /// A pointer sample has been seen since the drag started, so the next
    /// sample has a reference point to take a delta from.
    pub have_reference: bool,
    /// The rotation delta staged for the next tick, if any.
    pub pending_rotation: Option<D>,
}

impl<D> InputAggregator<D> {
    /// The key flag addressed by `key` equals `pressed`; everything else is
    /// unchanged. Auto-repeat transitions are ignored by the caller.
    pub open spec fn key_updated(self, key: MotionKey, pressed: bool) -> InputAggregator<D> {
        match key {
            MotionKey::Up => InputAggregator { up_held: pressed, ..self },
            MotionKey::Down => InputAggregator { down_held: pressed, ..self },
            MotionKey::Left => InputAggregator { left_held: pressed, ..self },
            MotionKey::Right => InputAggregator { right_held: pressed, ..self },
        }
    }

    /// A drag begins: the reference point is still unset, so the first
    /// pointer sample only seeds it.
    pub open spec fn drag_begun(self) -> InputAggregator<D> {
        InputAggregator { drag_active: true, ..self }
    }

    /// A drag ends: any pending rotation is discarded and the reference
    /// point is reset.
    pub open spec fn drag_finished(self) -> InputAggregator<D> {
        InputAggregator {
            drag_active: false,
            have_reference: false,
            pending_rotation: None,
            ..self
        }
    }

    /// A pointer sample was observed during a drag: from now on there is a
    /// reference point.
    pub open spec fn pointer_noted(self) -> InputAggregator<D> {
        InputAggregator { have_reference: true, ..self }
    }

    /// A nonzero delta was staged; it replaces whatever was pending.
    pub open spec fn staged(self, delta: D) -> InputAggregator<D> {
        InputAggregator { pending_rotation: Some(delta), ..self }
    }

    /// The pending rotation was consumed by a tick; the key flags stay, held
    /// keys being level-triggered.
    pub open spec fn tick_taken(self) -> InputAggregator<D> {
        InputAggregator { pending_rotation: None, ..self }
    }

    /// The motion events a tick emits for the currently held keys, in the
    /// fixed order forward, backward, left, right.
    pub open spec fn held_motion_events(self) -> Seq<CameraEvent<D>> {
        (if self.up_held {
            seq![CameraEvent::<D>::Up]
        } else {
            Seq::empty()
        }) + (if self.down_held {
            seq![CameraEvent::<D>::Down]
        } else {
            Seq::empty()
        }) + (if self.left_held {
            seq![CameraEvent::<D>::Left]
        } else {
            Seq::empty()
        }) + (if self.right_held {
            seq![CameraEvent::<D>::Right]
        } else {
            Seq::empty()
        })
    }

    /// Everything a tick emits: the held-key motion events followed by at
    /// most one rotation event carrying the pending delta.
    pub open spec fn tick_events(self) -> Seq<CameraEvent<D>> {
        self.held_motion_events() + (match self.pending_rotation {
            Some(d) => seq![CameraEvent::<D>::RotateXY { delta: d }],
            None => Seq::empty(),
        })
    }

    /// A fresh aggregator: no key held, no drag, nothing pending.
    pub fn new() -> (a: InputAggregator<D>)
        ensures
            !a.up_held,
            !a.down_held,
            !a.left_held,
            !a.right_held,
            !a.drag_active,
            !a.have_reference,
            a.pending_rotation is None,
    {
        InputAggregator {
            up_held: false,
            down_held: false,
            left_held: false,
            right_held: false,
            drag_active: false,
            have_reference: false,
            pending_rotation: None,
        }
    }

    /// A discrete key-state transition: sets or clears the matching held
    /// flag. Auto-repeat events carry `repeat` and change nothing, so a held
    /// key keeps producing its event once per tick until released.
    pub fn key_event(&mut self, key: MotionKey, pressed: bool, repeat: bool)
        ensures
            *final(self) == (if repeat {
                *old(self)
            } else {
                old(self).key_updated(key, pressed)
            }),
    {
        if !repeat {
            match key {
                MotionKey::Up => self.up_held = pressed,
                MotionKey::Down => self.down_held = pressed,
                MotionKey::Left => self.left_held = pressed,
                MotionKey::Right => self.right_held = pressed,
            }
        }
    }

    /// The drag button went down. Hiding the pointer is the caller's paired
    /// side effect.
    pub fn drag_started(&mut self)
        ensures
            *final(self) == old(self).drag_begun(),
    {
        self.drag_active = true;
    }

    /// The drag button was released: the pending rotation is cleared, the
    /// reference point is reset, and the caller restores pointer visibility.
    pub fn drag_ended(&mut self)
        ensures
            *final(self) == old(self).drag_finished(),
    {
        self.drag_active = false;
        self.have_reference = false;
        self.pending_rotation = None;
    }

    /// A pointer motion sample arrived. Outside a drag it changes nothing.
    /// During a drag it returns whether a reference point already existed:
    /// the first sample after a drag starts only seeds the reference and
    /// produces no delta; for every later sample the caller computes the
    /// scaled delta from the previous position and stages it if nonzero.
    pub fn note_pointer_sample(&mut self) -> (had_reference: bool)
        ensures
            *final(self) == (if old(self).drag_active {
                old(self).pointer_noted()
            } else {
                *old(self)
            }),
            had_reference == (old(self).drag_active && old(self).have_reference),
    {
        if self.drag_active {
            let had: bool = self.have_reference;
            self.have_reference = true;
            had
        } else {
            false
        }
    }

    /// Stages a rotation delta for the next tick, replacing any pending one:
    /// however many samples arrive within a tick, only the latest delta is
    /// kept, never a sum.
    pub fn stage_rotation(&mut self, delta: D)
        requires
            old(self).drag_active,
            old(self).have_reference,
        ensures
            *final(self) == old(self).staged(delta),
    {
        self.pending_rotation = Some(delta);
    }

    /// Drains the aggregator into this tick's ordered batch of camera
    /// events: one motion event per held key, then at most one rotation
    /// event. The pending rotation is consumed exactly once; the key flags
    /// persist until the keys are released.
    pub fn take_tick_events(&mut self) -> (events: Vec<CameraEvent<D>>)
        ensures
            events@ == old(self).tick_events(),
            *final(self) == old(self).tick_taken(),
    {
        let mut events: Vec<CameraEvent<D>> = Vec::new();
        if self.up_held {
            events.push(CameraEvent::Up);
        }
        if self.down_held {
            events.push(CameraEvent::Down);
        }
        if self.left_held {
            events.push(CameraEvent::Left);
        }
        if self.right_held {
            events.push(CameraEvent::Right);
        }
        let pending = self.pending_rotation.take();
        match pending {
            Some(d) => events.push(CameraEvent::RotateXY { delta: d }),
            None => {},
        }
        proof {
            assert(events@ =~= old(self).tick_events());
        }
        events
    }
}

/// With no held movement key and no pending rotation, a tick emits no camera
/// event at all, whatever elapsed time the caller passes along with it: the
/// camera is left untouched.
pub proof fn lemma_idle_tick_is_empty<D>(a: InputAggregator<D>)
    requires
        !a.up_held,
        !a.down_held,
        !a.left_held,
        !a.right_held,
        a.pending_rotation is None,
    ensures
        a.tick_events().len() == 0,
{
    assert(a.tick_events() =~= Seq::<CameraEvent<D>>::empty());
}

/// With no held movement key and no pending rotation, a tick hands the
/// camera no event and so plans no motion step: whatever elapsed time the
/// caller passes, position, basis and resolution are untouched.
pub proof fn lemma_idle_tick_plans_nothing<D>(a: InputAggregator<D>)
    requires
        !a.up_held,
        !a.down_held,
        !a.left_held,
        !a.right_held,
        a.pending_rotation is None,
    ensures
        a.tick_events().map_values(|e: CameraEvent<D>| step_of_event_spec(e)).len() == 0,
{
    lemma_idle_tick_is_empty(a);
}

/// The motion events of a tick are never rotations.
pub proof fn lemma_held_motion_events_are_moves<D>(a: InputAggregator<D>)
    ensures
        forall|i: int|
            0 <= i < a.held_motion_events().len()
                ==> !(#[trigger] a.held_motion_events()[i] is RotateXY),
{
    let held = a.held_motion_events();
    assert forall|i: int| 0 <= i < held.len() implies !(#[trigger] held[i] is RotateXY) by {
        assert(held[i] == CameraEvent::<D>::Up || held[i] == CameraEvent::<D>::Down
            || held[i] == CameraEvent::<D>::Left || held[i] == CameraEvent::<D>::Right);
    }
}

/// Two pointer samples staged within the same tick produce exactly one
/// rotation event, and its delta is the delta of the second sample alone —
/// the deltas are not summed.
pub proof fn lemma_one_rotation_per_tick<D>(a: InputAggregator<D>, d1: D, d2: D)
    ensures
        ({
            let events = a.staged(d1).staged(d2).tick_events();
            &&& events.len() >= 1
            &&& events.last() == (CameraEvent::RotateXY { delta: d2 })
            &&& forall|i: int| 0 <= i < events.len() - 1 ==> !(#[trigger] events[i] is RotateXY)
        }),
{
    let staged = a.staged(d1).staged(d2);
    let events = staged.tick_events();
    lemma_held_motion_events_are_moves(staged);
    assert(events.last() == (CameraEvent::RotateXY { delta: d2 }));
    assert forall|i: int| 0 <= i < events.len() - 1 implies !(#[trigger] events[i] is RotateXY) by {
        assert(events[i] == staged.held_motion_events()[i]);
    }
}

} // verus!
