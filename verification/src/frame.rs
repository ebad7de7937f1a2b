//! Render-loop state and per-frame control decisions.
//!
//! The render loop itself talks to the window system and the GPU; those calls
//! stay outside this library. What is verified here is every decision the
//! loop makes: when to stop, when to rebuild the size-dependent targets, when
//! a frame is skipped, which image the frame is recorded against, and how the
//! previous frame's completion token is recycled after a submission.
//!
//! The driver calls the transition functions in order each frame and performs
//! the returned action, feeding the outcome of each outside operation back in.
//! The state holds exactly one completion token at all times: a submission
//! consumes the old token (the GPU work is joined on it) and installs either
//! a fresh pending token or an already-completed one.

use vstd::prelude::*;

verus! {

/// Size of the output surface, in pixels.
#[derive(Clone, Copy, Debug, PartialEq, Eq, Structural)]
pub struct Extent {
    pub width: u32,
    pub height: u32,
}

impl Extent {
    /// An extent is usable as a render target only if both sides are positive.
    pub open spec fn is_valid(self) -> bool {
        self.width > 0 && self.height > 0
    }

    /// Builds an extent from a width and a height.
    pub fn new(width: u32, height: u32) -> (e: Extent)
        ensures
            e.width == width,
            e.height == height,
    {
        Extent { width, height }
    }
}

/// Completion token of the previously submitted frame. `Done` stands for GPU
/// work that needs no further waiting (a no-op token); `Pending` carries the
/// index of the submission it belongs to.
#[derive(Clone, Copy, Debug, PartialEq, Eq, Structural)]
pub enum FrameToken {
    Done,
    Pending { frame: u64 },
}

/// A notification from the window system, one per loop iteration.
#[derive(Clone, Copy, Debug, PartialEq, Eq, Structural)]
pub enum LoopEvent {
    CloseRequested,
    Resized { extent: Extent },
    RedrawRequested,
}

/// What the driver must do after an event was handled.
#[derive(Clone, Copy, Debug, PartialEq, Eq, Structural)]
pub enum LoopAction {
    Stop,
    Idle,
    RenderFrame,
}

/// First decision of a frame: rebuild the size-dependent targets, or go
/// straight to acquiring the next image.
#[derive(Clone, Copy, Debug, PartialEq, Eq, Structural)]
pub enum FrameStep {
    RebuildTargets { extent: Extent },
    AcquireImage,
}

/// Outcome of rebuilding the swapchain and its size-dependent targets.
#[derive(Clone, Copy, Debug, PartialEq, Eq, Structural)]
pub enum RebuildOutcome {
    /// The new targets were built; `extent` is the size of the new images.
    Rebuilt { extent: Extent },
    /// The surface rejected the requested extent; recoverable, retried on a
    /// later frame.
    ExtentUnsupported,
    /// Any other rebuild failure; fatal.
    Failed,
}

/// What the driver must do after a rebuild outcome was handled.
#[derive(Clone, Copy, Debug, PartialEq, Eq, Structural)]
pub enum RebuildAction {
    ProceedToAcquire,
    SkipFrame,
    Abort,
}

/// Outcome of acquiring the next presentable image.
#[derive(Clone, Copy, Debug, PartialEq, Eq, Structural)]
pub enum AcquireOutcome {
    Acquired { image_index: u32, suboptimal: bool },
    /// The surface no longer matches the swapchain; recoverable.
    OutOfDate,
    /// Any other acquisition failure; fatal.
    Failed,
}

/// What the driver must do after an acquire outcome was handled.
#[derive(Clone, Copy, Debug, PartialEq, Eq, Structural)]
pub enum AcquireAction {
    /// Record one render pass against the image at `image_index`, join the
    /// acquire signal with the previous frame's token, submit and present.
    Submit { image_index: u32 },
    SkipFrame,
    Abort,
}

/// Outcome of submitting the recorded command buffer and chaining a present.
#[derive(Clone, Copy, Debug, PartialEq, Eq, Structural)]
pub enum SubmitOutcome {
    /// The submission was flushed; its completion token is now pending.
    Submitted,
    /// The surface went out of date between acquire and present; recoverable.
    OutOfDate,
    /// Any other flush failure; the frame is dropped and logged, the loop
    /// continues.
    OtherError,
}

/// The render loop's mutable state, passed by exclusive reference each
/// iteration.
#[derive(Clone, Copy, Debug, PartialEq, Eq, Structural)]
pub struct RenderState {
    /// False once a close was requested.
    pub running: bool,
    /// True when the swapchain and its targets must be rebuilt before the
    /// next frame is rendered.
    pub recreate_swapchain: bool,
    /// The most recently reported surface size.
    pub window_extent: Extent,
    /// The size the framebuffers, depth target and viewport were built with.
    pub target_extent: Extent,
    /// Completion token of the previous frame; exactly one exists at a time.
    pub previous_frame_end: FrameToken,
    /// Number of submissions flushed so far; also the index of the next one.
    pub frames_submitted: u64,
}

impl RenderState {
    /// A pending token always belongs to a submission that already happened.
    pub open spec fn wf(self) -> bool {
        self.previous_frame_end matches FrameToken::Pending { frame } ==> frame
            < self.frames_submitted
    }

    /// Initial state: targets built once at startup against the initial
    /// window size, with a no-op token standing in for the previous frame.
    pub fn new(initial_extent: Extent) -> (s: RenderState)
        ensures
            s == spec_initial_state(initial_extent),
            s.wf(),
    {
        RenderState {
            running: true,
            recreate_swapchain: false,
            window_extent: initial_extent,
            target_extent: initial_extent,
            previous_frame_end: FrameToken::Done,
            frames_submitted: 0,
        }
    }

    /// Handles one window event and says whether the loop stops, idles, or
    /// renders a frame. A resize only records the new size and schedules a
    /// rebuild; the targets are rebuilt at the start of the next frame.
    pub fn handle_event(&mut self, event: LoopEvent) -> (action: LoopAction)
        ensures
            (*final(self), action) == spec_handle_event(*old(self), event),
            old(self).wf() ==> final(self).wf(),
    {
        match event {
            LoopEvent::CloseRequested => {
                self.running = false;
                LoopAction::Stop
            },
            LoopEvent::Resized { extent } => {
                self.recreate_swapchain = true;
                self.window_extent = extent;
                LoopAction::Idle
            },
            LoopEvent::RedrawRequested => LoopAction::RenderFrame,
        }
    }

    /// First decision of a frame, taken after the driver has reclaimed
    /// finished GPU resources: rebuild the size-dependent targets at the
    /// current window size if a rebuild is due, otherwise acquire an image.
    pub fn begin_frame(&self) -> (step: FrameStep)
        ensures
            step == spec_begin_frame(*self),
    {
        if self.recreate_swapchain {
            FrameStep::RebuildTargets { extent: self.window_extent }
        } else {
            FrameStep::AcquireImage
        }
    }

    /// Handles the outcome of a rebuild. On success the targets now match the
    /// rebuilt extent and the rebuild is no longer due. An unsupported extent
    /// skips the frame and leaves the rebuild due, to be retried later. Any
    /// other failure is fatal.
    pub fn handle_rebuild(&mut self, outcome: RebuildOutcome) -> (action: RebuildAction)
        ensures
            (*final(self), action) == spec_handle_rebuild(*old(self), outcome),
            old(self).wf() ==> final(self).wf(),
    {
        match outcome {
            RebuildOutcome::Rebuilt { extent } => {
                self.recreate_swapchain = false;
                self.target_extent = extent;
                RebuildAction::ProceedToAcquire
            },
            RebuildOutcome::ExtentUnsupported => RebuildAction::SkipFrame,
            RebuildOutcome::Failed => {
                self.running = false;
                RebuildAction::Abort
            },
        }
    }

    /// Handles the outcome of acquiring the next image. An out-of-date
    /// surface skips the frame and schedules a rebuild, so nothing is
    /// submitted. A suboptimal acquire still renders but schedules a rebuild
    /// for the next frame.
    pub fn handle_acquire(&mut self, outcome: AcquireOutcome) -> (action: AcquireAction)
        ensures
            (*final(self), action) == spec_handle_acquire(*old(self), outcome),
            old(self).wf() ==> final(self).wf(),
    {
        match outcome {
            AcquireOutcome::Acquired { image_index, suboptimal } => {
                if suboptimal {
                    self.recreate_swapchain = true;
                }
                AcquireAction::Submit { image_index }
            },
            AcquireOutcome::OutOfDate => {
                self.recreate_swapchain = true;
                AcquireAction::SkipFrame
            },
            AcquireOutcome::Failed => {
                self.running = false;
                AcquireAction::Abort
            },
        }
    }

    /// Handles the outcome of the submission. The old token was consumed by
    /// the join before the submission, and exactly one new token is
    /// installed: the fresh pending token of this submission on success, a
    /// no-op token otherwise. An out-of-date present schedules a rebuild; any
    /// other flush error drops the frame and the loop continues.
    pub fn handle_submit(&mut self, outcome: SubmitOutcome)
        requires
            old(self).frames_submitted < u64::MAX,
        ensures
            *final(self) == spec_handle_submit(*old(self), outcome),
            old(self).wf() ==> final(self).wf(),
            outcome is Submitted ==> (final(self).previous_frame_end matches FrameToken::Pending {
                frame,
            } && frame == old(self).frames_submitted),
    {
        match outcome {
            SubmitOutcome::Submitted => {
                self.previous_frame_end = FrameToken::Pending { frame: self.frames_submitted };
                self.frames_submitted = self.frames_submitted + 1;
            },
            SubmitOutcome::OutOfDate => {
                self.recreate_swapchain = true;
                self.previous_frame_end = FrameToken::Done;
            },
            SubmitOutcome::OtherError => {
                self.previous_frame_end = FrameToken::Done;
            },
        }
    }
}

/// The state `RenderState::new` returns.
pub open spec fn spec_initial_state(initial_extent: Extent) -> RenderState {
    RenderState {
        running: true,
        recreate_swapchain: false,
        window_extent: initial_extent,
        target_extent: initial_extent,
        previous_frame_end: FrameToken::Done,
        frames_submitted: 0,
    }
}

/// Transition taken by `RenderState::handle_event`.
pub open spec fn spec_handle_event(s: RenderState, event: LoopEvent) -> (RenderState, LoopAction) {
    match event {
        LoopEvent::CloseRequested => (
            (RenderState { running: false, ..s }),
            LoopAction::Stop,
        ),
        LoopEvent::Resized { extent } => (
            (RenderState { recreate_swapchain: true, window_extent: extent, ..s }),
            LoopAction::Idle,
        ),
        LoopEvent::RedrawRequested => (s, LoopAction::RenderFrame),
    }
}

/// Decision taken by `RenderState::begin_frame`.
pub open spec fn spec_begin_frame(s: RenderState) -> FrameStep {
    if s.recreate_swapchain {
        FrameStep::RebuildTargets { extent: s.window_extent }
    } else {
        FrameStep::AcquireImage
    }
}

/// Transition taken by `RenderState::handle_rebuild`.
pub open spec fn spec_handle_rebuild(s: RenderState, outcome: RebuildOutcome) -> (
    RenderState,
    RebuildAction,
) {
    match outcome {
        RebuildOutcome::Rebuilt { extent } => (
            (RenderState { recreate_swapchain: false, target_extent: extent, ..s }),
            RebuildAction::ProceedToAcquire,
        ),
        RebuildOutcome::ExtentUnsupported => (s, RebuildAction::SkipFrame),
        RebuildOutcome::Failed => ((RenderState { running: false, ..s }), RebuildAction::Abort),
    }
}

/// Transition taken by `RenderState::handle_acquire`.
pub open spec fn spec_handle_acquire(s: RenderState, outcome: AcquireOutcome) -> (
    RenderState,
    AcquireAction,
) {
    match outcome {
        AcquireOutcome::Acquired { image_index, suboptimal } => (
            (RenderState { recreate_swapchain: s.recreate_swapchain || suboptimal, ..s }),
            AcquireAction::Submit { image_index },
        ),
        AcquireOutcome::OutOfDate => (
            (RenderState { recreate_swapchain: true, ..s }),
            AcquireAction::SkipFrame,
        ),
        AcquireOutcome::Failed => ((RenderState { running: false, ..s }), AcquireAction::Abort),
    }
}

/// Transition taken by `RenderState::handle_submit`.
pub open spec fn spec_handle_submit(s: RenderState, outcome: SubmitOutcome) -> RenderState {
    match outcome {
        SubmitOutcome::Submitted => RenderState {
            previous_frame_end: FrameToken::Pending { frame: s.frames_submitted },
            frames_submitted: (s.frames_submitted + 1) as u64,
            ..s
        },
        SubmitOutcome::OutOfDate => RenderState {
            recreate_swapchain: true,
            previous_frame_end: FrameToken::Done,
            ..s
        },
        SubmitOutcome::OtherError => RenderState { previous_frame_end: FrameToken::Done, ..s },
    }
}

/// The loop always holds exactly one completion token — the state's single
/// token field — and a successful submission installs a fresh one: the new
/// pending token belongs to the frame just submitted and is distinct from
/// the token that was joined on, so no earlier frame's token is ever reused.
pub proof fn lemma_submission_token_is_fresh(s: RenderState)
    requires
        s.wf(),
        s.frames_submitted < u64::MAX,
    ensures
        ({
            let s2 = spec_handle_submit(s, SubmitOutcome::Submitted);
            &&& s2.wf()
            &&& s2.previous_frame_end == (FrameToken::Pending { frame: s.frames_submitted })
            &&& s2.previous_frame_end != s.previous_frame_end
        }),
{
}

/// An out-of-date surface at acquire time never submits: the frame is
/// skipped, nothing is recorded, and a rebuild is scheduled for the next
/// frame.
pub proof fn lemma_out_of_date_acquire_never_submits(s: RenderState)
    ensures
        ({
            let (s2, action) = spec_handle_acquire(s, AcquireOutcome::OutOfDate);
            &&& action == AcquireAction::SkipFrame
            &&& !(action is Submit)
            &&& s2.recreate_swapchain
        }),
{
}

/// Resizing the surface to a valid extent and then rendering one frame never
/// aborts, as long as no outside operation fails fatally: the frame first
/// rebuilds the size-dependent targets at the new size, and once the rebuild
/// succeeds the targets match the new extent exactly. Whatever the acquire
/// and submit outcomes short of a fatal failure, every step of that frame
/// returns a non-aborting action.
pub proof fn lemma_resize_then_frame_succeeds(
    s: RenderState,
    new_extent: Extent,
    acquire: AcquireOutcome,
    submit: SubmitOutcome,
)
    requires
        new_extent.is_valid(),
        !(acquire is Failed),
    ensures
        ({
            let (after_resize, _) = spec_handle_event(
                s,
                (LoopEvent::Resized { extent: new_extent }),
            );
            let step = spec_begin_frame(after_resize);
            let (after_rebuild, rebuild_action) = spec_handle_rebuild(
                after_resize,
                (RebuildOutcome::Rebuilt { extent: new_extent }),
            );
            let (after_acquire, acquire_action) = spec_handle_acquire(after_rebuild, acquire);
            let after_submit = spec_handle_submit(after_acquire, submit);
            &&& step == (FrameStep::RebuildTargets { extent: new_extent })
            &&& rebuild_action == RebuildAction::ProceedToAcquire
            &&& after_rebuild.target_extent == new_extent
            &&& !after_rebuild.recreate_swapchain
            &&& !(acquire_action is Abort)
            &&& after_acquire.target_extent == new_extent
            &&& after_submit.target_extent == new_extent
            &&& after_submit.running == s.running
        }),
{
}

} // verus!
