//! Frame orchestration.
//!
//! [`FrameScheduler`] is the hazard gate: it stores, per in-flight slot,
//! the completion signal of the most recent submission that reads that
//! slot's buffers, and refuses a new CPU write to the slot until that
//! signal has been observed. [`FrameDriver`] holds the per-tick decisions
//! of the steady-state loop: skip zero-size frames, recreate a stale
//! surface and notify dependents once, lazily initialize the scene on the
//! first acquired image, and alternate the frame parity. The blocking
//! waits, submissions and presents themselves happen outside; only their
//! outcomes are reported back here.

use vstd::prelude::*;

use crate::ShaderId;

verus! {

/// Per-slot completion signals for frames in flight.
pub struct FrameScheduler {
    pending: Vec<Option<u64>>,
    next_signal: u64,
}

impl FrameScheduler {
    /// Number of in-flight slots.
    pub closed spec fn frames_spec(self) -> nat {
        self.pending@.len()
    }

    /// The stored completion signal for one slot, if a submission reading
    /// that slot is still outstanding.
    pub closed spec fn pending_spec(self, parity: int) -> Option<u64> {
        self.pending@[parity]
    }

    /// The next signal value to be handed out.
    pub closed spec fn next_signal_spec(self) -> u64 {
        self.next_signal
    }

    /// A slot may be written only when no submission reading it is
    /// outstanding.
    pub open spec fn can_write_spec(self, parity: int) -> bool {
        self.pending_spec(parity) is None
    }

    /// Every stored signal was handed out earlier than the next one, and
    /// no two slots share a signal.
    pub closed spec fn wf(self) -> bool {
        &&& forall|i: int|
            0 <= i < self.pending@.len() && self.pending@[i] is Some
                ==> (#[trigger] self.pending@[i])->0 < self.next_signal
        &&& forall|i: int, j: int|
            0 <= i < self.pending@.len() && 0 <= j < self.pending@.len() && i != j
                && self.pending@[i] is Some && #[trigger] self.pending@[i]
                == #[trigger] self.pending@[j] ==> false
    }

    /// Public face of the invariant.
    pub open spec fn inv(self) -> bool {
        self.wf()
    }

    /// Builds a scheduler for `frames` slots, none with outstanding work.
    pub fn new(frames: usize) -> (r: Self)
        requires
            frames >= 1,
        ensures
            r.inv(),
            r.frames_spec() == frames,
            forall|i: int| 0 <= i < frames ==> #[trigger] r.pending_spec(i) is None,
    {
        let mut pending: Vec<Option<u64>> = Vec::new();
        let mut i: usize = 0;
        while i < frames
            invariant
                i <= frames,
                pending@.len() == i,
                forall|k: int| 0 <= k < i ==> #[trigger] pending@[k] is None,
            decreases frames - i,
        {
            pending.push(None);
            i = i + 1;
        }
        FrameScheduler { pending, next_signal: 0 }
    }

    /// Number of in-flight slots, as a runtime value.
    pub fn frames(&self) -> (r: usize)
        ensures
            r == self.frames_spec(),
    {
        self.pending.len()
    }

    /// The completion signal to wait on before writing slot `parity`, if
    /// any prior submission reading that slot is still outstanding.
    pub fn pending_signal(&self, parity: usize) -> (r: Option<u64>)
        requires
            parity < self.frames_spec(),
        ensures
            r == self.pending_spec(parity as int),
    {
        self.pending[parity]
    }

    /// Whether slot `parity` may be written right now.
    pub fn can_write(&self, parity: usize) -> (r: bool)
        requires
            parity < self.frames_spec(),
        ensures
            r == self.can_write_spec(parity as int),
    {
        match self.pending[parity] {
            Some(_) => false,
            None => true,
        }
    }

    /// Whether another completion signal can still be handed out: the
    /// runtime form of `submit`'s precondition, for callers outside the
    /// verified core.
    pub fn has_fresh_signals(&self) -> (r: bool)
        ensures
            r == (self.next_signal_spec() < u64::MAX),
    {
        self.next_signal < u64::MAX
    }

    /// Records that the stored signal for slot `parity` was observed
    /// complete (the blocking wait returned): the slot's buffers may be
    /// written again.
    pub fn observe_signaled(&mut self, parity: usize)
        requires
            old(self).inv(),
            parity < old(self).frames_spec(),
        ensures
            final(self).inv(),
            final(self).frames_spec() == old(self).frames_spec(),
            final(self).can_write_spec(parity as int),
            forall|i: int|
                0 <= i < old(self).frames_spec() && i != parity
                    ==> #[trigger] final(self).pending_spec(i) == old(self).pending_spec(i),
    {
        self.pending.set(parity, None);
    }

    /// Records a submission whose commands read slot `parity`, returning
    /// its fresh completion signal; it supersedes any signal stored for
    /// the slot before.
    pub fn submit(&mut self, parity: usize) -> (signal: u64)
        requires
            old(self).inv(),
            parity < old(self).frames_spec(),
            old(self).next_signal_spec() < u64::MAX,
        ensures
            final(self).inv(),
            final(self).frames_spec() == old(self).frames_spec(),
            final(self).pending_spec(parity as int) == Some(signal),
            forall|i: int|
                0 <= i < old(self).frames_spec() && i != parity
                    ==> #[trigger] final(self).pending_spec(i) == old(self).pending_spec(i),
            forall|i: int|
                0 <= i < old(self).frames_spec() && i != parity && old(self).pending_spec(i)
                    is Some ==> (#[trigger] old(self).pending_spec(i))->0 != signal,
    {
        let signal = self.next_signal;
        self.pending.set(parity, Some(signal));
        self.next_signal = self.next_signal + 1;
        signal
    }
}

/// Frame-hazard non-overlap: while the completion signal of the prior
/// submission that reads slot `parity` has not been observed, the
/// scheduler refuses a new write to that slot; `observe_signaled` (the
/// blocking wait on that very signal) is the only step that clears it. In
/// a two-frames-in-flight run, the write for frame f + 2 therefore cannot
/// begin before the signal of frame f's submission on the same parity is
/// observed.
pub proof fn lemma_frame_hazard_non_overlap(s: FrameScheduler, parity: int)
    requires
        s.inv(),
        0 <= parity < s.frames_spec(),
        s.pending_spec(parity) is Some,
    ensures
        !s.can_write_spec(parity),
{
}

/// What one redraw tick should do next.
#[derive(Debug, Clone, Copy, PartialEq, Eq, Structural)]
pub enum RedrawStep {
    /// The surface has no area; do not even try to acquire an image.
    Skip,
    /// Tear the image set down and rebuild it first; pipelines too when
    /// the viewport changed.
    Recreate { rebuild_pipelines: bool },
    /// Go straight to acquiring the next presentable image.
    Acquire,
}

/// What follows a successful surface rebuild.
#[derive(Debug, Clone, Copy, PartialEq, Eq, Structural)]
pub enum AfterRecreate {
    /// Nothing was initialized yet, so there is nothing to notify; retry
    /// the frame on the next tick.
    SkipFrame,
    /// Notify dependents that pipelines and resources were swapped, then
    /// go on to acquire; `resize_scene` is set when the scene callback
    /// must also learn the new aspect ratio.
    Proceed { resize_scene: bool },
}

/// The work one acquired image implies.
#[derive(Debug, Clone, Copy, PartialEq, Eq, Structural)]
pub struct FrameWork {
    /// This is the first frame ever acquired: build the scene's initial
    /// GPU resources before updating and drawing.
    pub first_frame: bool,
    /// The buffer parity this frame's update and draw must use.
    pub frame_parity: bool,
}

/// The per-tick decisions of the frame loop: surface size, lazy
/// first-frame initialization, the recreate flags, and the frame parity.
pub struct FrameDriver {
    width: u32,
    height: u32,
    initialized: bool,
    recreate_swapchain: bool,
    window_resized: bool,
    frame_parity: bool,
}

impl FrameDriver {
    /// Current surface width in pixels.
    pub closed spec fn width_spec(self) -> u32 {
        self.width
    }

    /// Current surface height in pixels.
    pub closed spec fn height_spec(self) -> u32 {
        self.height
    }

    /// Whether the scene's initial GPU resources were built.
    pub closed spec fn initialized_spec(self) -> bool {
        self.initialized
    }

    /// Whether the image set must be rebuilt before the next frame.
    pub closed spec fn needs_recreate_spec(self) -> bool {
        self.recreate_swapchain
    }

    /// Whether a resize event is waiting to be applied.
    pub closed spec fn window_resized_spec(self) -> bool {
        self.window_resized
    }

    /// The parity the next acquired frame will use.
    pub closed spec fn frame_parity_spec(self) -> bool {
        self.frame_parity
    }

    /// The surface has no area right now (for example a minimized
    /// window): no image may be acquired.
    pub open spec fn zero_size(self) -> bool {
        self.width_spec() == 0 || self.height_spec() == 0
    }

    /// The image set must be rebuilt before this tick can draw.
    pub open spec fn wants_recreate(self) -> bool {
        self.needs_recreate_spec() || (self.initialized_spec() && self.window_resized_spec())
    }

    /// A fresh driver: nothing initialized, no pending flags.
    pub fn new(width: u32, height: u32) -> (r: Self)
        ensures
            r.width_spec() == width,
            r.height_spec() == height,
            !r.initialized_spec(),
            !r.needs_recreate_spec(),
            !r.window_resized_spec(),
            !r.frame_parity_spec(),
    {
        FrameDriver {
            width,
            height,
            initialized: false,
            recreate_swapchain: false,
            window_resized: false,
            frame_parity: false,
        }
    }

    /// The window was resized: remember the new size and flag the resize.
    pub fn resized(&mut self, width: u32, height: u32)
        ensures
            final(self).width_spec() == width,
            final(self).height_spec() == height,
            final(self).window_resized_spec(),
            final(self).initialized_spec() == old(self).initialized_spec(),
            final(self).needs_recreate_spec() == old(self).needs_recreate_spec(),
            final(self).frame_parity_spec() == old(self).frame_parity_spec(),
    {
        self.width = width;
        self.height = height;
        self.window_resized = true;
    }

    /// Decides what this redraw tick does first. A zero-area surface is
    /// skipped outright (no acquire is attempted); a pending recreate flag
    /// or an applied resize forces a surface rebuild; otherwise the tick
    /// goes straight to acquiring an image.
    pub fn begin_redraw(&mut self) -> (r: RedrawStep)
        ensures
            final(self).width_spec() == old(self).width_spec(),
            final(self).height_spec() == old(self).height_spec(),
            final(self).initialized_spec() == old(self).initialized_spec(),
            final(self).window_resized_spec() == old(self).window_resized_spec(),
            final(self).frame_parity_spec() == old(self).frame_parity_spec(),
            old(self).zero_size() ==> r == RedrawStep::Skip && final(self).needs_recreate_spec()
                == old(self).needs_recreate_spec(),
            !old(self).zero_size() && old(self).wants_recreate() ==> r == (RedrawStep::Recreate {
                rebuild_pipelines: old(self).window_resized_spec(),
            }) && !final(self).needs_recreate_spec(),
            !old(self).zero_size() && !old(self).wants_recreate() ==> r == RedrawStep::Acquire
                && final(self).needs_recreate_spec() == old(self).needs_recreate_spec(),
    {
        if self.width == 0 || self.height == 0 {
            return RedrawStep::Skip;
        }
        if self.recreate_swapchain || (self.initialized && self.window_resized) {
            self.recreate_swapchain = false;
            return RedrawStep::Recreate { rebuild_pipelines: self.window_resized };
        }
        RedrawStep::Acquire
    }

    /// The surface rebuild succeeded. Before anything was initialized
    /// there is nothing to notify and the frame is skipped; otherwise
    /// dependents are told that pipelines were swapped, the scene learns
    /// the new aspect ratio when a resize was pending, and the resize flag
    /// is consumed.
    pub fn recreate_succeeded(&mut self) -> (r: AfterRecreate)
        ensures
            final(self).width_spec() == old(self).width_spec(),
            final(self).height_spec() == old(self).height_spec(),
            final(self).initialized_spec() == old(self).initialized_spec(),
            final(self).needs_recreate_spec() == old(self).needs_recreate_spec(),
            final(self).frame_parity_spec() == old(self).frame_parity_spec(),
            !old(self).initialized_spec() ==> r == AfterRecreate::SkipFrame
                && final(self).window_resized_spec() == old(self).window_resized_spec(),
            old(self).initialized_spec() ==> r == (AfterRecreate::Proceed {
                resize_scene: old(self).window_resized_spec(),
            }) && !final(self).window_resized_spec(),
    {
        if !self.initialized {
            return AfterRecreate::SkipFrame;
        }
        let resize_scene = self.window_resized;
        self.window_resized = false;
        AfterRecreate::Proceed { resize_scene }
    }

    /// The surface rebuild failed (for example, the size went to zero in
    /// the middle of a resize drag). That is transient: the frame is
    /// skipped and the rebuild retried on the next tick.
    pub fn recreate_failed(&mut self)
        ensures
            final(self).needs_recreate_spec(),
            final(self).width_spec() == old(self).width_spec(),
            final(self).height_spec() == old(self).height_spec(),
            final(self).initialized_spec() == old(self).initialized_spec(),
            final(self).window_resized_spec() == old(self).window_resized_spec(),
            final(self).frame_parity_spec() == old(self).frame_parity_spec(),
    {
        self.recreate_swapchain = true;
    }

    /// Acquiring an image reported the surface stale: flag the rebuild
    /// and skip this frame.
    pub fn acquire_out_of_date(&mut self)
        ensures
            final(self).needs_recreate_spec(),
            final(self).width_spec() == old(self).width_spec(),
            final(self).height_spec() == old(self).height_spec(),
            final(self).initialized_spec() == old(self).initialized_spec(),
            final(self).window_resized_spec() == old(self).window_resized_spec(),
            final(self).frame_parity_spec() == old(self).frame_parity_spec(),
    {
        self.recreate_swapchain = true;
    }

    /// An image was acquired: the scene is initialized lazily on the very
    /// first acquired frame, this frame runs on the current parity, the
    /// parity alternates for the next frame, and a suboptimal surface is
    /// flagged for rebuild on the next tick rather than failing now.
    pub fn acquired(&mut self, suboptimal: bool) -> (r: FrameWork)
        ensures
            r.first_frame == !old(self).initialized_spec(),
            r.frame_parity == old(self).frame_parity_spec(),
            final(self).initialized_spec(),
            final(self).frame_parity_spec() == !old(self).frame_parity_spec(),
            final(self).needs_recreate_spec() == (old(self).needs_recreate_spec() || suboptimal),
            final(self).width_spec() == old(self).width_spec(),
            final(self).height_spec() == old(self).height_spec(),
            final(self).window_resized_spec() == old(self).window_resized_spec(),
    {
        let first_frame = !self.initialized;
        self.initialized = true;
        let frame_parity = self.frame_parity;
        self.frame_parity = !self.frame_parity;
        if suboptimal {
            self.recreate_swapchain = true;
        }
        FrameWork { first_frame, frame_parity }
    }

    /// The present reported the surface out of date: rebuild next tick.
    pub fn present_result(&mut self, out_of_date: bool)
        ensures
            final(self).needs_recreate_spec() == (old(self).needs_recreate_spec() || out_of_date),
            final(self).width_spec() == old(self).width_spec(),
            final(self).height_spec() == old(self).height_spec(),
            final(self).initialized_spec() == old(self).initialized_spec(),
            final(self).window_resized_spec() == old(self).window_resized_spec(),
            final(self).frame_parity_spec() == old(self).frame_parity_spec(),
    {
        if out_of_date {
            self.recreate_swapchain = true;
        }
    }

    /// Current surface size in pixels.
    pub fn size(&self) -> (r: (u32, u32))
        ensures
            r.0 == self.width_spec(),
            r.1 == self.height_spec(),
    {
        (self.width, self.height)
    }

    /// Whether the scene's initial resources were built.
    pub fn initialized(&self) -> (r: bool)
        ensures
            r == self.initialized_spec(),
    {
        self.initialized
    }
}

/// The ambient "currently bound pipeline" of a frame's draw pass, made
/// explicit: draw calls consult this context instead of hidden global
/// state.
pub struct DrawContext {
    current_pipeline: Option<ShaderId>,
}

impl DrawContext {
    /// The pipeline bound so far, if any.
    pub closed spec fn current_spec(self) -> Option<ShaderId> {
        self.current_pipeline
    }

    /// A fresh context: no pipeline bound yet.
    pub fn new() -> (r: Self)
        ensures
            r.current_spec() is None,
    {
        DrawContext { current_pipeline: None }
    }

    /// Binds a pipeline; subsequent draws use it.
    pub fn bind_pipeline(&mut self, shader: ShaderId)
        ensures
            final(self).current_spec() == Some(shader),
    {
        self.current_pipeline = Some(shader);
    }

    /// The bound pipeline, if any.
    pub fn current_pipeline_id(&self) -> (r: Option<ShaderId>)
        ensures
            r == self.current_spec(),
    {
        self.current_pipeline
    }

    /// The bound pipeline; drawing without one bound is a contract bug,
    /// so it is a precondition.
    pub fn current_pipeline(&self) -> (r: ShaderId)
        requires
            self.current_spec() is Some,
        ensures
            Some(r) == self.current_spec(),
    {
        match self.current_pipeline {
            Some(id) => id,
            None => unreached(),
        }
    }
}

} // verus!
