//! Camera events and their translation into motion steps.
//!
//! The camera itself owns a position, a right-handed orthonormal basis
//! (`uu` right, `vv` up, `ww` forward) and a screen resolution, all of them
//! floating-point state updated by vector arithmetic outside this crate. What
//! this module pins down is the discrete half of that contract: which step
//! each event maps to — the axis and sign of each translation, that a resize
//! touches the resolution and nothing else — and that an ordered batch of
//! events becomes the same ordered batch of steps. The rotation delta payload
//! `D` is carried through untouched, so every result here holds for any
//! payload type.

use vstd::prelude::*;

verus! {

/// One discrete camera input signal, active this tick. Motion events are
/// level-triggered (one per tick while the key is held); a rotation is
/// edge-triggered from the pointer delta; a resize carries the new extent in
/// pixels. `D` is the rotation delta payload, a 2D vector to the caller.
#[derive(Clone, PartialEq, Debug)]
pub enum CameraEvent<D> {
    Resize { w: usize, h: usize },
    RotateXY { delta: D },
    Up,
    Down,
    Left,
    Right,
}

/// The camera-local axis a translation moves along: the forward vector `ww`
/// or the right vector `uu`.
#[derive(Clone, Copy, PartialEq, Eq, Structural, Debug)]
pub enum MoveAxis {
    Forward,
    Right,
}

/// One primitive update of the camera state. The caller applies translations
/// as `position ± axis_vector * speed * elapsed`, rotations by rotating `ww`
/// and re-deriving `uu` and `vv` from the fixed world-up vector, and a
/// resolution update by storing the new extent; only the last one exists so
/// that a resize can be seen to touch nothing else.
#[derive(Clone, PartialEq, Debug)]
pub enum CameraStep<D> {
    /// Translate along the given camera axis; `positive` gives the sign.
    Translate { axis: MoveAxis, positive: bool },
    /// Rotate the basis by this pitch/yaw delta, renormalize `ww`, then
    /// re-derive `uu` and `vv` by cross products against world-up.
    Rotate { delta: D },
    /// Store a new screen resolution; basis and position are untouched.
    SetResolution { w: usize, h: usize },
}

/// The step each event stands for: forward and backward moves translate along
/// the forward axis with opposite signs, the strafe moves along the right
/// axis with opposite signs, a rotation keeps its delta, and a resize only
/// updates the resolution.
pub open spec fn step_of_event_spec<D>(e: CameraEvent<D>) -> CameraStep<D> {
    match e {
        CameraEvent::Up => CameraStep::Translate { axis: MoveAxis::Forward, positive: true },
        CameraEvent::Down => CameraStep::Translate { axis: MoveAxis::Forward, positive: false },
        CameraEvent::Left => CameraStep::Translate { axis: MoveAxis::Right, positive: false },
        CameraEvent::Right => CameraStep::Translate { axis: MoveAxis::Right, positive: true },
        CameraEvent::RotateXY { delta } => CameraStep::Rotate { delta },
        CameraEvent::Resize { w, h } => CameraStep::SetResolution { w, h },
    }
}

pub fn step_of_event<D>(e: CameraEvent<D>) -> (s: CameraStep<D>)
    ensures
        s == step_of_event_spec(e),
{
    match e {
        CameraEvent::Up => CameraStep::Translate { axis: MoveAxis::Forward, positive: true },
        CameraEvent::Down => CameraStep::Translate { axis: MoveAxis::Forward, positive: false },
        CameraEvent::Left => CameraStep::Translate { axis: MoveAxis::Right, positive: false },
        CameraEvent::Right => CameraStep::Translate { axis: MoveAxis::Right, positive: true },
        CameraEvent::RotateXY { delta } => CameraStep::Rotate { delta },
        CameraEvent::Resize { w, h } => CameraStep::SetResolution { w, h },
    }
}

/// Translates an ordered batch of events into the ordered batch of steps the
/// camera applies, one step per event, in the order the events were recorded.
pub fn plan_update<D>(events: Vec<CameraEvent<D>>) -> (steps: Vec<CameraStep<D>>)
    ensures
        steps@ == events@.map_values(|e: CameraEvent<D>| step_of_event_spec(e)),
{
    let ghost all = events@;
    let mut input = events;
    let mut steps: Vec<CameraStep<D>> = Vec::new();
    while input.len() > 0
        invariant
            steps@.len() + input@.len() == all.len(),
            input@ =~= all.skip(steps@.len() as int),
            steps@ =~= all.take(steps@.len() as int).map_values(
                |e: CameraEvent<D>| step_of_event_spec(e),
            ),
        decreases input.len(),
    {
        let ghost done = steps@.len() as int;
        let e = input.remove(0);
        steps.push(step_of_event(e));
        proof {
            assert(input@ =~= all.skip(done + 1));
            assert(steps@ =~= all.take(done + 1).map_values(
                |ev: CameraEvent<D>| step_of_event_spec(ev),
            ));
        }
    }
    proof {
        assert(steps@ =~= all.map_values(|e: CameraEvent<D>| step_of_event_spec(e)));
    }
    steps
}

/// A resize event plans exactly one resolution update: never a translation,
/// never a rotation, so the basis and the position are unaffected by it.
pub proof fn lemma_resize_touches_resolution_only<D>(w: usize, h: usize)
    ensures
        step_of_event_spec::<D>(CameraEvent::Resize { w, h })
            == (CameraStep::<D>::SetResolution { w, h }),
        !(step_of_event_spec::<D>(CameraEvent::Resize { w, h }) is Translate),
        !(step_of_event_spec::<D>(CameraEvent::Resize { w, h }) is Rotate),
{
}

/// A forward move followed by a backward move plan to two translations along
/// the same axis with opposite signs — the inverse-motion pair. The equal
/// step length (speed times the same elapsed time) is applied by the caller.
pub proof fn lemma_forward_backward_steps_inverse<D>()
    ensures
        step_of_event_spec::<D>(CameraEvent::Up)
            == (CameraStep::<D>::Translate { axis: MoveAxis::Forward, positive: true }),
        step_of_event_spec::<D>(CameraEvent::Down)
            == (CameraStep::<D>::Translate { axis: MoveAxis::Forward, positive: false }),
{
}

} // verus!
