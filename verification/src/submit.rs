//! The per-tick frame-submission and presentation protocol.
//!
//! One redraw thread drives the sequence acquire → record → submit → present
//! against the presentation surface. This module is the protocol's state
//! machine: a phase that enforces the order of the steps within a tick, the
//! staleness decisions for out-of-date and suboptimal reports, the in-flight
//! completion token that is replaced — never composed — on each submission,
//! and the exact list of commands one frame records. The GPU calls themselves
//! are made by the caller, which reports each outcome here; errors other than
//! out-of-date are fatal to the whole process and never reach this state.

use vstd::prelude::*;

use crate::surface::{Extent, PresentationSurface, SurfaceView};

verus! {

/// The GPU-side completion of the most recently submitted frame. At most one
/// is live; each submission replaces it, and a failed present resets it to an
/// already-satisfied one so that no stale wait can block future frames.
#[derive(Clone, Copy, PartialEq, Eq, Structural, Debug)]
pub enum InFlightToken {
    /// Nothing submitted, or the token was reset after a failed present.
    Satisfied,
    /// The last submitted frame's work may still be running.
    Pending,
}

/// Where the submitter stands inside a tick. The protocol's order is enforced
/// by these phases: an image may be acquired only after the tick began with a
/// drawable window and a valid surface, and commands may be recorded and
/// presented only for an acquired image.
#[derive(Clone, Copy, PartialEq, Eq, Structural, Debug)]
pub enum TickPhase {
    /// Between ticks; window events may arrive.
    Idle,
    /// The tick began and the next image may be acquired.
    Acquiring,
    /// An image was acquired and commands for it may be recorded.
    Drawing { image_index: usize },
}

/// What the acquire call reported. Any error other than these is fatal and
/// handled by the caller before it reaches the submitter.
#[derive(Clone, Copy, PartialEq, Eq, Structural, Debug)]
pub enum AcquireOutcome {
    /// An image is usable; `suboptimal` says it no longer matches the surface
    /// perfectly, so the surface must be rebuilt next tick — this image is
    /// still drawn to.
    Acquired { image_index: usize, suboptimal: bool },
    /// The swapchain no longer matches the window; nothing was acquired.
    OutOfDate,
}

/// What the submit-and-present chain reported. Any error other than these is
/// fatal and handled by the caller.
#[derive(Clone, Copy, PartialEq, Eq, Structural, Debug)]
pub enum PresentOutcome {
    Presented,
    OutOfDate,
}

/// Whether a tick goes ahead after its opening checks.
#[derive(Clone, Copy, PartialEq, Eq, Structural, Debug)]
pub enum TickStart {
    /// The window has zero area; nothing may be drawn this tick.
    Skip,
    /// The surface is valid (rebuilt if it was stale); acquire may proceed.
    Proceed,
}

/// What to do with the acquire outcome.
#[derive(Clone, Copy, PartialEq, Eq, Structural, Debug)]
pub enum AcquireAction {
    /// Record and submit a frame for this image.
    Record { image_index: usize },
    /// Abandon the tick without submitting; wait for the next one.
    Abandon,
}

/// The per-frame parameter block pushed to the shader stage once per frame:
/// the screen extent in pixels, the camera position and basis vectors, and
/// the fixed material table. The vector payload `V` and the material payload
/// `M` are floating-point data assembled by the caller and carried through
/// untouched.
#[derive(Clone, PartialEq, Debug)]
pub struct FrameParams<V, M> {
    pub screen: Extent,
    pub position: V,
    pub uu: V,
    pub vv: V,
    pub ww: V,
    pub materials: M,
}

/// One command of the single render pass a frame records.
#[derive(Clone, PartialEq, Debug)]
pub enum RenderCommand<V, M> {
    /// Begin the render pass on the framebuffer of the acquired image.
    BeginRenderPass { framebuffer_index: usize },
    /// Bind the viewport at its current extent.
    SetViewport { extent: Extent },
    /// Push the per-frame parameter block.
    PushFrameParams { params: FrameParams<V, M> },
    /// Bind the graphics pipeline.
    BindPipeline,
    /// Bind the fullscreen-quad vertex buffer.
    BindVertexBuffer { vertex_count: usize },
    /// One non-indexed draw over the bound vertices.
    Draw { vertices: usize, instances: usize, first_vertex: usize, first_instance: usize },
    EndRenderPass,
}

/// One vertex of the fullscreen quad, in clip-space units.
#[derive(Clone, Copy, PartialEq, Eq, Structural, Debug)]
pub struct QuadVertex {
    pub x: i32,
    pub y: i32,
}

/// The six vertices of the fullscreen quad: two triangles spanning the
/// clip-space corners (-1,-1) to (1,1).
pub open spec fn fullscreen_quad_spec() -> Seq<QuadVertex> {
    seq![
        QuadVertex { x: -1i32, y: -1i32 },
        QuadVertex { x: -1i32, y: 1i32 },
        QuadVertex { x: 1i32, y: -1i32 },
        QuadVertex { x: 1i32, y: 1i32 },
        QuadVertex { x: 1i32, y: -1i32 },
        QuadVertex { x: -1i32, y: 1i32 },
    ]
}

/// The vertex data of the fullscreen-quad vertex buffer.
pub fn fullscreen_quad() -> (v: Vec<QuadVertex>)
    ensures
        v@ == fullscreen_quad_spec(),
        v@.len() == 6,
{
    let mut v: Vec<QuadVertex> = Vec::new();
    v.push(QuadVertex { x: -1, y: -1 });
    v.push(QuadVertex { x: -1, y: 1 });
    v.push(QuadVertex { x: 1, y: -1 });
    v.push(QuadVertex { x: 1, y: 1 });
    v.push(QuadVertex { x: 1, y: -1 });
    v.push(QuadVertex { x: -1, y: 1 });
    proof {
        assert(v@ =~= fullscreen_quad_spec());
    }
    v
}

/// The exact command list of one frame: one render pass over the acquired
/// image's framebuffer, the viewport bound at its current extent, the
/// parameter block pushed, the pipeline and the six-vertex fullscreen quad
/// bound, and a single non-indexed draw of those six vertices.
pub open spec fn frame_commands_spec<V, M>(
    image_index: usize,
    viewport: Extent,
    params: FrameParams<V, M>,
) -> Seq<RenderCommand<V, M>> {
    seq![
        RenderCommand::BeginRenderPass { framebuffer_index: image_index },
        RenderCommand::SetViewport { extent: viewport },
        RenderCommand::PushFrameParams { params },
        RenderCommand::BindPipeline,
        RenderCommand::BindVertexBuffer { vertex_count: 6 },
        RenderCommand::Draw { vertices: 6, instances: 1, first_vertex: 0, first_instance: 0 },
        RenderCommand::EndRenderPass,
    ]
}

/// Abstract state of the frame submitter.
#[verifier::ext_equal]
pub struct SubmitterView {
    pub surface: SurfaceView,
    pub token: InFlightToken,
    pub phase: TickPhase,
}

impl SubmitterView {
    /// Protocol invariant: the surface is well formed; acquiring only
    /// happens on a valid surface; a held image index addresses one of the
    /// surface's framebuffers.
    pub open spec fn wf(self) -> bool {
        &&& self.surface.wf()
        &&& (self.phase is Acquiring ==> !self.surface.stale)
        &&& (self.phase matches TickPhase::Drawing { image_index }
            ==> image_index < self.surface.framebuffers.len())
    }

    /// A resize notification from the window shell: the surface is stale.
    pub open spec fn resized(self) -> SubmitterView {
        SubmitterView { surface: self.surface.marked_stale(), ..self }
    }

    /// The opening of a tick: a zero-area window skips the tick entirely;
    /// otherwise a stale surface is rebuilt at the window's extent — which
    /// succeeds, the extent being nonzero — and acquiring may begin.
    pub open spec fn tick_begun(self, window_extent: Extent) -> (SubmitterView, TickStart) {
        if window_extent.spec_is_zero() {
            (self, TickStart::Skip)
        } else {
            (
                SubmitterView {
                    surface: if self.surface.stale {
                        self.surface.rebuilt(window_extent)
                    } else {
                        self.surface
                    },
                    phase: TickPhase::Acquiring,
                    ..self
                },
                TickStart::Proceed,
            )
        }
    }

    /// The acquire outcome's effect: out-of-date marks the surface stale and
    /// abandons the tick without submitting; an acquired image moves the tick
    /// to the drawing phase, marking the surface stale as well when the image
    /// is suboptimal — the image is still drawn this tick and the rebuild is
    /// deferred to the next one.
    pub open spec fn acquired(self, outcome: AcquireOutcome) -> (SubmitterView, AcquireAction) {
        match outcome {
            AcquireOutcome::OutOfDate => (
                SubmitterView {
                    surface: self.surface.marked_stale(),
                    phase: TickPhase::Idle,
                    ..self
                },
                AcquireAction::Abandon,
            ),
            AcquireOutcome::Acquired { image_index, suboptimal } => (
                SubmitterView {
                    surface: if suboptimal {
                        self.surface.marked_stale()
                    } else {
                        self.surface
                    },
                    phase: TickPhase::Drawing { image_index },
                    ..self
                },
                AcquireAction::Record { image_index },
            ),
        }
    }

    /// The present outcome's effect: on success the stored token is replaced
    /// by the new frame's pending token; on out-of-date the surface is marked
    /// stale and the token reset to an already-satisfied one. Either way the
    /// tick is over, and these are the only effects carried into the next.
    pub open spec fn presented(self, outcome: PresentOutcome) -> SubmitterView {
        match outcome {
            PresentOutcome::Presented => SubmitterView {
                token: InFlightToken::Pending,
                phase: TickPhase::Idle,
                ..self
            },
            PresentOutcome::OutOfDate => SubmitterView {
                surface: self.surface.marked_stale(),
                token: InFlightToken::Satisfied,
                phase: TickPhase::Idle,
                ..self
            },
        }
    }
}

/// Executable state of the frame submitter: the surface model, the in-flight
/// token, and the phase within the current tick.
pub struct FrameSubmitter {
    pub surface: PresentationSurface,
    pub token: InFlightToken,
    pub phase: TickPhase,
}

impl View for FrameSubmitter {
    type V = SubmitterView;

    open spec fn view(&self) -> SubmitterView {
        SubmitterView { surface: self.surface@, token: self.token, phase: self.phase }
    }
}

impl FrameSubmitter {
    /// A fresh submitter over a freshly built surface: idle, with an
    /// already-satisfied token standing for "nothing submitted yet".
    pub fn new(surface: PresentationSurface) -> (s: Self)
        requires
            surface@.wf(),
            !surface@.stale,
        ensures
            s@.wf(),
            s@.surface == surface@,
            s@.token == InFlightToken::Satisfied,
            s@.phase == TickPhase::Idle,
    {
        FrameSubmitter { surface, token: InFlightToken::Satisfied, phase: TickPhase::Idle }
    }

    /// The window shell reported a resize: the surface no longer matches the
    /// window and must be rebuilt before the next acquire.
    pub fn notify_resize(&mut self)
        requires
            old(self)@.wf(),
            old(self)@.phase == TickPhase::Idle,
        ensures
            final(self)@ == old(self)@.resized(),
            final(self)@.wf(),
    {
        self.surface.mark_stale();
    }

    /// Opens a redraw tick. A zero-area window skips the tick; otherwise a
    /// stale surface is rebuilt at the window's current extent first, so no
    /// acquire ever runs against a stale surface. A failure of the real
    /// rebuild is fatal and never reported back here.
    pub fn begin_tick(&mut self, window_extent: Extent) -> (r: TickStart)
        requires
            old(self)@.wf(),
            old(self)@.phase == TickPhase::Idle,
        ensures
            (final(self)@, r) == old(self)@.tick_begun(window_extent),
            final(self)@.wf(),
            r == TickStart::Proceed ==> !final(self)@.surface.stale && final(self)@.phase
                == TickPhase::Acquiring,
    {
        if window_extent.is_zero() {
            TickStart::Skip
        } else {
            if self.surface.is_stale() {
                let _outcome = self.surface.rebuild(window_extent);
            }
            self.phase = TickPhase::Acquiring;
            proof {
                assert((self@, TickStart::Proceed) =~= old(self)@.tick_begun(window_extent));
            }
            TickStart::Proceed
        }
    }

    /// Applies the acquire outcome. Out-of-date abandons the tick — the
    /// surface is stale, the submitter returns to idle, and no commands can
    /// be recorded until a later tick rebuilds and acquires again. An
    /// acquired image moves to the drawing phase; a suboptimal one also
    /// marks the surface stale for the next tick while this tick still
    /// draws. The caller reports image indices as handed out by the
    /// presentation engine, which addresses an existing framebuffer.
    pub fn on_acquire(&mut self, outcome: AcquireOutcome) -> (r: AcquireAction)
        requires
            old(self)@.wf(),
            old(self)@.phase == TickPhase::Acquiring,
            (outcome matches AcquireOutcome::Acquired { image_index, .. }
                ==> image_index < old(self)@.surface.framebuffers.len()),
        ensures
            (final(self)@, r) == old(self)@.acquired(outcome),
            final(self)@.wf(),
    {
        match outcome {
            AcquireOutcome::OutOfDate => {
                self.surface.mark_stale();
                self.phase = TickPhase::Idle;
                proof {
                    assert((self@, AcquireAction::Abandon) =~= old(self)@.acquired(outcome));
                }
                AcquireAction::Abandon
            },
            AcquireOutcome::Acquired { image_index, suboptimal } => {
                if suboptimal {
                    self.surface.mark_stale();
                }
                self.phase = TickPhase::Drawing { image_index };
                proof {
                    assert((self@, AcquireAction::Record { image_index }) =~= old(self)@.acquired(
                        outcome,
                    ));
                }
                AcquireAction::Record { image_index }
            },
        }
    }

    /// Records the one render pass of this frame, for the acquired image and
    /// the current viewport, with the parameter block as handed in. Only the
    /// drawing phase allows this: a tick abandoned at acquire records
    /// nothing.
    pub fn record_frame<V, M>(&self, params: FrameParams<V, M>) -> (cmds: Vec<
        RenderCommand<V, M>,
    >)
        requires
            self@.wf(),
            self@.phase matches TickPhase::Drawing { .. },
        ensures
            (self@.phase matches TickPhase::Drawing { image_index } ==> cmds@
                == frame_commands_spec(image_index, self@.surface.viewport, params)),
    {
        let image_index: usize = match self.phase {
            TickPhase::Drawing { image_index } => image_index,
            _ => 0,
        };
        let mut cmds: Vec<RenderCommand<V, M>> = Vec::new();
        cmds.push(RenderCommand::BeginRenderPass { framebuffer_index: image_index });
        cmds.push(RenderCommand::SetViewport { extent: self.surface.viewport });
        cmds.push(RenderCommand::PushFrameParams { params });
        cmds.push(RenderCommand::BindPipeline);
        cmds.push(RenderCommand::BindVertexBuffer { vertex_count: 6 });
        cmds.push(
            RenderCommand::Draw { vertices: 6, instances: 1, first_vertex: 0, first_instance: 0 },
        );
        cmds.push(RenderCommand::EndRenderPass);
        proof {
            assert(cmds@ =~= frame_commands_spec(image_index, self@.surface.viewport, params));
        }
        cmds
    }

    /// Applies the outcome of the submit-and-present chain. On success the
    /// stored completion token is replaced by the new frame's pending token —
    /// the old one's work is ordered before the new submission, so dropping
    /// it is safe. On out-of-date the surface is marked stale and the token
    /// is reset to an already-satisfied one, so no stale in-flight wait can
    /// block future frames. Any other submission failure is fatal and
    /// handled by the caller.
    pub fn on_present(&mut self, outcome: PresentOutcome)
        requires
            old(self)@.wf(),
            old(self)@.phase matches TickPhase::Drawing { .. },
        ensures
            final(self)@ == old(self)@.presented(outcome),
            final(self)@.wf(),
    {
        match outcome {
            PresentOutcome::Presented => {
                self.token = InFlightToken::Pending;
                self.phase = TickPhase::Idle;
                proof {
                    assert(self@ =~= old(self)@.presented(outcome));
                }
            },
            PresentOutcome::OutOfDate => {
                self.surface.mark_stale();
                self.token = InFlightToken::Satisfied;
                self.phase = TickPhase::Idle;
                proof {
                    assert(self@ =~= old(self)@.presented(outcome));
                }
            },
        }
    }
}

/// An acquire that reports out-of-date leaves the surface stale and abandons
/// the tick: the submitter returns to idle, the phase in which no frame can
/// be recorded, so no draw commands exist for that tick. The next tick that
/// opens with a nonzero window extent rebuilds the surface — valid again, at
/// the window's extent — before any new acquire can happen.
pub proof fn lemma_out_of_date_acquire_recovery(v: SubmitterView, window_extent: Extent)
    requires
        v.wf(),
        v.phase == TickPhase::Acquiring,
        !window_extent.spec_is_zero(),
    ensures
        v.acquired(AcquireOutcome::OutOfDate).1 == AcquireAction::Abandon,
        v.acquired(AcquireOutcome::OutOfDate).0.surface.stale,
        v.acquired(AcquireOutcome::OutOfDate).0.phase == TickPhase::Idle,
        ({
            let next = v.acquired(AcquireOutcome::OutOfDate).0.tick_begun(window_extent);
            &&& next.1 == TickStart::Proceed
            &&& !next.0.surface.stale
            &&& next.0.surface.extent == window_extent
            &&& next.0.surface.viewport == window_extent
            &&& next.0.phase == TickPhase::Acquiring
        }),
{
}

/// A tick that fails at present carries exactly two effects into the next
/// tick: the surface is stale — everything else about it unchanged — and the
/// completion token is reset; the key state and the rest of the submitter
/// are untouched.
pub proof fn lemma_failed_present_carries_only_stale_and_token(v: SubmitterView)
    requires
        v.wf(),
        v.phase matches TickPhase::Drawing { .. },
    ensures
        v.presented(PresentOutcome::OutOfDate).surface == v.surface.marked_stale(),
        v.presented(PresentOutcome::OutOfDate).surface.extent == v.surface.extent,
        v.presented(PresentOutcome::OutOfDate).surface.framebuffers == v.surface.framebuffers,
        v.presented(PresentOutcome::OutOfDate).surface.viewport == v.surface.viewport,
        v.presented(PresentOutcome::OutOfDate).token == InFlightToken::Satisfied,
        v.presented(PresentOutcome::OutOfDate).phase == TickPhase::Idle,
{
}

} // verus!
