//! Presentation-surface state machine.
//!
//! The surface owns the swapchain extent, one framebuffer per swapchain image,
//! a viewport, and a staleness flag. While the flag is clear, the framebuffers
//! and the viewport are consistent with the swapchain extent; a resize or an
//! out-of-date report sets the flag, and a rebuild at the window's current
//! extent clears it again. A zero-area window defers the rebuild.

use vstd::prelude::*;

verus! {

/// A pixel extent: width and height of a window or image in pixels.
#[derive(Clone, Copy, PartialEq, Eq, Structural, Debug)]
pub struct Extent {
    pub width: u32,
    pub height: u32,
}

impl Extent {
    /// The window has no drawable area (it is minimized in at least one
    /// dimension), so no swapchain can be built for it.
    pub open spec fn spec_is_zero(self) -> bool {
        self.width == 0 || self.height == 0
    }

    pub fn is_zero(&self) -> (r: bool)
        ensures
            r == self.spec_is_zero(),
    {
        self.width == 0 || self.height == 0
    }
}

/// Outcome of a rebuild attempt on a stale surface.
#[derive(Clone, Copy, PartialEq, Eq, Structural, Debug)]
pub enum RebuildOutcome {
    /// Swapchain, framebuffers and viewport were recreated at the new extent.
    Rebuilt,
    /// The window currently has zero area; the rebuild is deferred to a later
    /// tick and the surface stays stale. This is not an error.
    Deferred,
}

/// Abstract state of the presentation surface: the swapchain extent, the
/// extent of each framebuffer (one per swapchain image), the viewport extent,
/// and the staleness flag.
#[verifier::ext_equal]
pub struct SurfaceView {
    pub extent: Extent,
    pub framebuffers: Seq<Extent>,
    pub viewport: Extent,
    pub stale: bool,
}

impl SurfaceView {
    /// Structural invariant: at least two images are kept for double
    /// buffering, and whenever the surface is not stale the viewport and every
    /// framebuffer match the swapchain extent.
    pub open spec fn wf(self) -> bool {
        &&& self.framebuffers.len() >= 2
        &&& (!self.stale ==> {
            &&& self.viewport == self.extent
            &&& forall|i: int|
                0 <= i < self.framebuffers.len() ==> self.framebuffers[i] == self.extent
        })
    }

    /// The surface no longer matches the window; nothing but the flag changes.
    pub open spec fn marked_stale(self) -> SurfaceView {
        SurfaceView { stale: true, ..self }
    }

    /// Result of a rebuild at the window's current extent: at a zero extent
    /// nothing happens; otherwise the swapchain is recreated at that extent,
    /// each image gets a fresh framebuffer at the same extent, the viewport is
    /// resized to match, and the surface is valid again.
    pub open spec fn rebuilt(self, window_extent: Extent) -> SurfaceView {
        if window_extent.spec_is_zero() {
            self
        } else {
            SurfaceView {
                extent: window_extent,
                framebuffers: Seq::new(self.framebuffers.len(), |i: int| window_extent),
                viewport: window_extent,
                stale: false,
            }
        }
    }
}

/// The swapchain minimum image count requested of the presentation engine:
/// the device's reported minimum, clamped up to at least two so the swapchain
/// can double-buffer.
pub fn requested_image_count(device_min: u32) -> (r: u32)
    ensures
        r == (if device_min < 2 { 2u32 } else { device_min }),
        r >= 2,
{
    if device_min < 2 {
        2
    } else {
        device_min
    }
}

/// Executable model of the presentation surface. The swapchain, framebuffer
/// and viewport handles live with the GPU device outside this crate; this
/// state records their extents and drives every staleness decision.
pub struct PresentationSurface {
    pub extent: Extent,
    pub framebuffers: Vec<Extent>,
    pub viewport: Extent,
    pub stale: bool,
}

impl View for PresentationSurface {
    type V = SurfaceView;

    open spec fn view(&self) -> SurfaceView {
        SurfaceView {
            extent: self.extent,
            framebuffers: self.framebuffers@,
            viewport: self.viewport,
            stale: self.stale,
        }
    }
}

impl PresentationSurface {
    /// One framebuffer extent per swapchain image, all matching the swapchain
    /// extent.
    fn framebuffers_for(extent: Extent, count: usize) -> (v: Vec<Extent>)
        ensures
            v@ == Seq::new(count as nat, |i: int| extent),
    {
        let mut v: Vec<Extent> = Vec::new();
        let mut i: usize = 0;
        while i < count
            invariant
                i <= count,
                v@ =~= Seq::new(i as nat, |j: int| extent),
            decreases count - i,
        {
            v.push(extent);
            i = i + 1;
        }
        proof {
            assert(v@ =~= Seq::new(count as nat, |j: int| extent));
        }
        v
    }

    /// Initial construction from the window's current extent and the number
    /// of images the presentation engine returned (at least two, because the
    /// requested minimum was clamped). The surface starts valid.
    pub fn new(window_extent: Extent, image_count: usize) -> (s: Self)
        requires
            image_count >= 2,
        ensures
            s@.wf(),
            !s@.stale,
            s@.extent == window_extent,
            s@.viewport == window_extent,
            s@.framebuffers == Seq::new(image_count as nat, |i: int| window_extent),
    {
        let framebuffers = Self::framebuffers_for(window_extent, image_count);
        PresentationSurface {
            extent: window_extent,
            framebuffers,
            viewport: window_extent,
            stale: false,
        }
    }

    /// Records that the surface no longer matches the window: after an
    /// explicit resize notification, or after acquire or present reported the
    /// swapchain out of date. No frame may be submitted until a rebuild.
    pub fn mark_stale(&mut self)
        ensures
            final(self)@ == old(self)@.marked_stale(),
    {
        self.stale = true;
        proof {
            assert(self@ =~= old(self)@.marked_stale());
        }
    }

    pub fn is_stale(&self) -> (r: bool)
        ensures
            r == self@.stale,
    {
        self.stale
    }

    /// Recreates the swapchain-dependent state at the window's current
    /// extent, reusing the other creation parameters: one fresh framebuffer
    /// per image and a viewport resized to match. A zero-area window defers
    /// the rebuild and leaves the surface stale; the caller must not draw
    /// this tick. A failure of the real recreation is fatal and is handled
    /// outside this model.
    pub fn rebuild(&mut self, window_extent: Extent) -> (r: RebuildOutcome)
        requires
            old(self)@.wf(),
            old(self)@.stale,
        ensures
            final(self)@ == old(self)@.rebuilt(window_extent),
            final(self)@.wf(),
            r == (if window_extent.spec_is_zero() {
                RebuildOutcome::Deferred
            } else {
                RebuildOutcome::Rebuilt
            }),
    {
        if window_extent.is_zero() {
            RebuildOutcome::Deferred
        } else {
            let count = self.framebuffers.len();
            self.extent = window_extent;
            self.framebuffers = Self::framebuffers_for(window_extent, count);
            self.viewport = window_extent;
            self.stale = false;
            proof {
                assert(self@ =~= old(self)@.rebuilt(window_extent));
            }
            RebuildOutcome::Rebuilt
        }
    }
}

/// After a resize marks the surface stale and a rebuild runs at a nonzero
/// extent, the surface is valid again and its viewport extent and every
/// framebuffer's extent equal the rebuild extent.
pub proof fn lemma_rebuild_restores_consistency(s: SurfaceView, window_extent: Extent)
    requires
        s.wf(),
        !window_extent.spec_is_zero(),
    ensures
        !s.marked_stale().rebuilt(window_extent).stale,
        s.marked_stale().rebuilt(window_extent).extent == window_extent,
        s.marked_stale().rebuilt(window_extent).viewport == window_extent,
        s.marked_stale().rebuilt(window_extent).framebuffers.len() == s.framebuffers.len(),
        forall|i: int|
            0 <= i < s.marked_stale().rebuilt(window_extent).framebuffers.len()
                ==> s.marked_stale().rebuilt(window_extent).framebuffers[i] == window_extent,
        s.marked_stale().rebuilt(window_extent).wf(),
{
}

} // verus!
