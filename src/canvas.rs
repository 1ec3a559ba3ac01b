use vstd::prelude::*;

use chrono::{SecondsFormat, Utc};

verus! {

/// Scan code of the key that closes the window.
pub const ESCAPE_SCANCODE: u32 = 1;

/// Scan code of the key that starts and stops frame capture.
pub const CAPTURE_SCANCODE: u32 = 60;

/// Frames between two reports of the frame time.
pub const LOG_RATE: u64 = 300;

/// Relies on `String::push`: the character is appended at the end.
pub assume_specification[ String::push ](s: &mut String, ch: char)
    ensures
        final(s)@ == old(s)@.push(ch),
;

/// Relies on chrono's `Utc::now` and `DateTime::to_rfc3339_opts`: the current time in UTC,
/// written in RFC 3339 with whole seconds; nothing is known of which time it is.
#[verifier::external_body]
fn utc_timestamp() -> String {
    Utc::now().to_rfc3339_opts(SecondsFormat::Secs, false)
}

/// A width and a height in pixels.
#[derive(Clone, Copy, Debug, PartialEq, Eq, Structural)]
pub struct Extent {
    pub width: u32,
    pub height: u32,
}

impl Extent {
    pub open spec fn is_empty(self) -> bool {
        self.width == 0 || self.height == 0
    }
}

/// Where the frame loop stands.
#[derive(Clone, Copy, Debug, PartialEq, Eq, Structural)]
pub enum Phase {
    /// Frames are rendered and presented.
    Running,
    /// The swapchain and the frame resources are being rebuilt for a new surface size.
    Resizing,
    /// The window has no area: no frame work is done until it is resized.
    Minimized,
    /// The loop is ending.
    Exiting,
}

/// The decisions of the presentation loop, kept apart from the window and the GPU: each
/// `on_*` method takes what happened and says what to do next.
#[derive(Debug)]
pub struct FrameLoop {
    pub phase: Phase,
    /// The swapchain and the frame resources must be rebuilt before the next frame renders.
    pub resize_pending: bool,
    /// Extent of the presented images: the destination of the blit.
    pub window: Extent,
    /// Extent of the rendered image: the source of the blit.
    pub output: Extent,
    /// The window extent at start, against which the scale factors are taken.
    pub scale_window: Extent,
    /// The output extent at start, against which the scale factors are taken.
    pub scale_output: Extent,
    /// Redraws since the frame time was last reported.
    pub frames: u64,
    /// Redraws since the start: drives the animation time.
    pub animation_frames: u64,
    /// Compute dispatches recorded so far.
    pub dispatches: u64,
    /// Frames are being written to disk.
    pub capturing: bool,
    /// Directory that captured frames are written to.
    pub capture_folder: String,
    /// Number given to the next captured frame.
    pub captured: u64,
}

/// The abstract content of a `FrameLoop`.
pub struct FrameLoopView {
    pub phase: Phase,
    pub resize_pending: bool,
    pub window: Extent,
    pub output: Extent,
    pub scale_window: Extent,
    pub scale_output: Extent,
    pub frames: u64,
    pub animation_frames: u64,
    pub dispatches: u64,
    pub capturing: bool,
    pub capture_folder: Seq<char>,
    pub captured: u64,
}

impl View for FrameLoop {
    type V = FrameLoopView;

    open spec fn view(&self) -> FrameLoopView {
        FrameLoopView {
            phase: self.phase,
            resize_pending: self.resize_pending,
            window: self.window,
            output: self.output,
            scale_window: self.scale_window,
            scale_output: self.scale_output,
            frames: self.frames,
            animation_frames: self.animation_frames,
            dispatches: self.dispatches,
            capturing: self.capturing,
            capture_folder: self.capture_folder@,
            captured: self.captured,
        }
    }
}

/// What to do on a redraw.
#[derive(Clone, Copy, Debug, PartialEq, Eq, Structural)]
pub enum RedrawAction {
    /// No GPU work this frame.
    Skip { log: bool },
    /// Go on with the frame: first write out frame `capture` if there is one, then rebuild
    /// the swapchain if `recreate_swapchain`, then acquire an image.
    Render { log: bool, capture: Option<u64>, recreate_swapchain: bool },
}

/// How recreating the swapchain went.
#[derive(Clone, Copy, Debug, PartialEq, Eq, Structural)]
pub enum SwapchainOutcome {
    /// New images of this extent.
    Recreated(Extent),
    /// The surface refused the dimensions for now.
    UnsupportedDimensions,
    /// Any other failure.
    Failed,
}

/// What to do after recreating the swapchain.
#[derive(Clone, Copy, Debug, PartialEq, Eq, Structural)]
pub enum RebuildAction {
    /// Call the resize function and reallocate the capture image and buffer, all at this
    /// resolution, then acquire an image.
    Rebuild { resolution: Extent },
    /// Drop this frame; the rebuild is tried again on the next one.
    SkipFrame,
    /// Stop: the swapchain cannot be had.
    Exit,
}

/// How acquiring the next swapchain image went.
#[derive(Clone, Copy, Debug, PartialEq, Eq, Structural)]
pub enum AcquireOutcome {
    Acquired { suboptimal: bool },
    OutOfDate,
    Failed,
}

/// What to do after acquiring an image.
#[derive(Clone, Copy, Debug, PartialEq, Eq, Structural)]
pub enum AcquireAction {
    /// Clear the output image, dispatch, blit the `source` extent of the output image onto the
    /// `dest` extent of the capture image when `blit_capture` and of the acquired image, then
    /// submit and present.
    Record { source: Extent, dest: Extent, blit_capture: bool },
    /// Drop this frame without any dispatch.
    SkipFrame,
    /// Stop.
    Exit,
}

/// How submitting and presenting went.
#[derive(Clone, Copy, Debug, PartialEq, Eq, Structural)]
pub enum PresentOutcome {
    Presented,
    OutOfDate,
    Failed,
}

/// What to do after presenting.
#[derive(Clone, Copy, Debug, PartialEq, Eq, Structural)]
pub enum PresentAction {
    /// Block until the GPU has finished the frame.
    WaitForCompletion,
    /// Forget the frame and start the next from a fresh synchronisation point.
    ResetSync,
    /// Report the failure and go on.
    LogFailure,
}

/// What to do after a key was released.
#[derive(Clone, Copy, Debug, PartialEq, Eq, Structural)]
pub enum KeyAction {
    Nothing,
    Exit,
    /// Create the capture directory; frames go there from now on.
    CaptureStarted,
    CaptureStopped,
}

/// `x + 1`, held at the largest value.
pub open spec fn bump(x: u64) -> u64 {
    if x < u64::MAX {
        (x + 1) as u64
    } else {
        x
    }
}

fn next_count(x: u64) -> (r: u64)
    ensures
        r == bump(x),
{
    if x < u64::MAX {
        x + 1
    } else {
        x
    }
}

/// `dim` scaled by `num / den`, rounded down and held within `u32`.
pub open spec fn scaled_dim(dim: u32, num: u32, den: u32) -> u32 {
    if den == 0 {
        0
    } else {
        let q = (dim as int) * (num as int) / (den as int);
        if q > u32::MAX {
            u32::MAX
        } else {
            q as u32
        }
    }
}

fn scale_dim(dim: u32, num: u32, den: u32) -> (r: u32)
    ensures
        r == scaled_dim(dim, num, den),
{
    if den == 0 {
        return 0;
    }
    assert((dim as int) * (num as int) <= (u32::MAX as int) * (u32::MAX as int)) by (nonlinear_arith)
        requires
            dim <= u32::MAX,
            num <= u32::MAX,
    ;
    let p: u64 = dim as u64 * num as u64;
    let q: u64 = p / den as u64;
    if q > u32::MAX as u64 {
        u32::MAX
    } else {
        q as u32
    }
}

/// The output extent that keeps the start-time ratio between window and output.
pub open spec fn derived_output(s: FrameLoopView, window: Extent) -> Extent {
    Extent {
        width: scaled_dim(window.width, s.scale_output.width, s.scale_window.width),
        height: scaled_dim(window.height, s.scale_output.height, s.scale_window.height),
    }
}

pub open spec fn rect(e: Extent) -> Seq<u32> {
    seq![e.width, e.height, 1u32]
}

/// The capture directory for a timestamp: colons, which some file systems refuse, become
/// underscores.
pub open spec fn capture_folder_for(timestamp: Seq<char>) -> Seq<char> {
    "Captures/"@ + timestamp.map_values(|c: char| if c == ':' { '_' } else { c })
}

pub open spec fn start_view(window: Extent, output: Extent) -> FrameLoopView {
    FrameLoopView {
        phase: Phase::Running,
        resize_pending: false,
        window,
        output,
        scale_window: window,
        scale_output: output,
        frames: 0,
        animation_frames: 0,
        dispatches: 0,
        capturing: false,
        capture_folder: Seq::empty(),
        captured: 0,
    }
}

pub open spec fn update_step(s: FrameLoopView, need_rebuild: bool) -> FrameLoopView {
    FrameLoopView { resize_pending: s.resize_pending || need_rebuild, ..s }
}

pub open spec fn resized_step(s: FrameLoopView, size: Extent) -> FrameLoopView {
    FrameLoopView {
        resize_pending: true,
        phase: if s.phase is Exiting {
            Phase::Exiting
        } else if size.is_empty() {
            Phase::Minimized
        } else {
            Phase::Running
        },
        ..s
    }
}

pub open spec fn enable_capture_step(s: FrameLoopView, timestamp: Seq<char>) -> (FrameLoopView, bool) {
    if s.capturing {
        (s, false)
    } else {
        (
            FrameLoopView {
                capturing: true,
                capture_folder: capture_folder_for(timestamp),
                ..s
            },
            true,
        )
    }
}

pub open spec fn disable_capture_step(s: FrameLoopView) -> (FrameLoopView, bool) {
    (FrameLoopView { capturing: false, ..s }, s.capturing)
}

pub open spec fn key_step(s: FrameLoopView, scancode: u32, timestamp: Seq<char>) -> (
    FrameLoopView,
    KeyAction,
) {
    if scancode == ESCAPE_SCANCODE {
        (FrameLoopView { phase: Phase::Exiting, ..s }, KeyAction::Exit)
    } else if scancode == CAPTURE_SCANCODE {
        if s.capturing {
            (disable_capture_step(s).0, KeyAction::CaptureStopped)
        } else {
            (enable_capture_step(s, timestamp).0, KeyAction::CaptureStarted)
        }
    } else {
        (s, KeyAction::Nothing)
    }
}

pub open spec fn redraw_step(s: FrameLoopView) -> (FrameLoopView, RedrawAction) {
    let counted = bump(s.frames);
    let log = counted % LOG_RATE == 0;
    let frames = if log {
        0
    } else {
        counted
    };
    let t = FrameLoopView { frames, animation_frames: bump(s.animation_frames), ..s };
    if s.phase is Minimized || s.phase is Exiting {
        (t, RedrawAction::Skip { log })
    } else {
        let capture = if s.capturing {
            Some(s.captured)
        } else {
            None
        };
        let captured = if s.capturing {
            bump(s.captured)
        } else {
            s.captured
        };
        let phase = if s.resize_pending {
            Phase::Resizing
        } else {
            s.phase
        };
        (
            FrameLoopView { captured, phase, ..t },
            RedrawAction::Render { log, capture, recreate_swapchain: s.resize_pending },
        )
    }
}

pub open spec fn swapchain_step(s: FrameLoopView, outcome: SwapchainOutcome) -> (
    FrameLoopView,
    RebuildAction,
) {
    match outcome {
        SwapchainOutcome::Recreated(e) => if e.is_empty() {
            (FrameLoopView { phase: Phase::Minimized, ..s }, RebuildAction::SkipFrame)
        } else {
            (
                FrameLoopView {
                    phase: Phase::Running,
                    resize_pending: false,
                    window: e,
                    output: derived_output(s, e),
                    ..s
                },
                RebuildAction::Rebuild { resolution: e },
            )
        },
        SwapchainOutcome::UnsupportedDimensions => (
            FrameLoopView { phase: Phase::Running, ..s },
            RebuildAction::SkipFrame,
        ),
        SwapchainOutcome::Failed => (
            FrameLoopView { phase: Phase::Exiting, ..s },
            RebuildAction::Exit,
        ),
    }
}

pub open spec fn acquire_step(s: FrameLoopView, outcome: AcquireOutcome) -> (
    FrameLoopView,
    AcquireAction,
) {
    match outcome {
        AcquireOutcome::Acquired { suboptimal } => (
            FrameLoopView {
                resize_pending: s.resize_pending || suboptimal,
                dispatches: bump(s.dispatches),
                ..s
            },
            AcquireAction::Record {
                source: s.output,
                dest: s.window,
                blit_capture: s.capturing,
            },
        ),
        AcquireOutcome::OutOfDate => (
            FrameLoopView { resize_pending: true, ..s },
            AcquireAction::SkipFrame,
        ),
        AcquireOutcome::Failed => (
            FrameLoopView { phase: Phase::Exiting, ..s },
            AcquireAction::Exit,
        ),
    }
}

pub open spec fn present_step(s: FrameLoopView, outcome: PresentOutcome) -> (
    FrameLoopView,
    PresentAction,
) {
    match outcome {
        PresentOutcome::Presented => (s, PresentAction::WaitForCompletion),
        PresentOutcome::OutOfDate => (
            FrameLoopView { resize_pending: true, ..s },
            PresentAction::ResetSync,
        ),
        PresentOutcome::Failed => (s, PresentAction::LogFailure),
    }
}

/// Rebuilding twice in a row for the same surface extent gives the state and the action that
/// rebuilding once gives: the same window and output extents, and the same resolution for the
/// resize function.
pub proof fn lemma_rebuild_idempotent(s: FrameLoopView, e: Extent)
    ensures
        swapchain_step(swapchain_step(s, SwapchainOutcome::Recreated(e)).0, SwapchainOutcome::Recreated(e))
            == swapchain_step(s, SwapchainOutcome::Recreated(e)),
{
}

/// A resize to an extent without area makes every following redraw skip all GPU work, and
/// images of such an extent are never handed out for allocation.
pub proof fn lemma_minimized_skips(s: FrameLoopView, size: Extent)
    requires
        size.is_empty(),
    ensures
        redraw_step(resized_step(s, size)).1 is Skip,
        redraw_step(resized_step(s, size)).0.phase == resized_step(s, size).phase,
        swapchain_step(s, SwapchainOutcome::Recreated(size)).1 == RebuildAction::SkipFrame,
        swapchain_step(s, SwapchainOutcome::Recreated(size)).0.window == s.window,
{
}

/// Enabling capture while it is already on changes nothing: no second directory is asked
/// for and the first one is kept.
pub proof fn lemma_enable_capture_twice(s: FrameLoopView, first: Seq<char>, second: Seq<char>)
    ensures
        enable_capture_step(enable_capture_step(s, first).0, second) == (
        enable_capture_step(s, first).0,
        false,
        ),
        !s.capturing ==> enable_capture_step(s, first).0.capture_folder == capture_folder_for(
            first,
        ),
{
}

/// When the update function asks for a rebuild, the next redraw that renders rebuilds the
/// swapchain and the frame resources.
pub proof fn lemma_update_rebuild_next_frame(s: FrameLoopView)
    requires
        !(s.phase is Minimized || s.phase is Exiting),
    ensures
        redraw_step(update_step(s, true)).1 matches RedrawAction::Render {
            recreate_swapchain,
            ..
        } && recreate_swapchain,
{
}

/// The capture directory for a timestamp.
pub fn capture_folder_name(timestamp: &str) -> (r: String)
    ensures
        r@ == capture_folder_for(timestamp@),
{
    let mut r = String::from_str("Captures/");
    let ghost prefix = r@;
    let n = timestamp.unicode_len();
    let mut i: usize = 0;
    while i < n
        invariant
            n == timestamp@.len(),
            i <= n,
            prefix == "Captures/"@,
            r@ == prefix + timestamp@.subrange(0, i as int).map_values(
                |c: char| if c == ':' { '_' } else { c },
            ),
        decreases n - i,
    {
        let c = timestamp.get_char(i);
        let ghost before = r@;
        if c == ':' {
            r.push('_');
        } else {
            r.push(c);
        }
        proof {
            assert(timestamp@.subrange(0, i + 1) =~= timestamp@.subrange(0, i as int).push(c));
        }
        i = i + 1;
        assert(r@ =~= prefix + timestamp@.subrange(0, i as int).map_values(
            |c: char| if c == ':' { '_' } else { c },
        ));
    }
    assert(timestamp@.subrange(0, n as int) =~= timestamp@);
    r
}

impl FrameLoop {
    /// The loop state once the first frame resources exist: `window` is the extent of the
    /// swapchain images and `output` that of the image the shader renders into. `None` when
    /// either has no area, as no image of that extent can be made.
    pub fn new(window: Extent, output: Extent) -> (r: Option<FrameLoop>)
        ensures
            window.is_empty() || output.is_empty() ==> r is None,
            !window.is_empty() && !output.is_empty() ==> (r matches Some(l) && l@ == start_view(
                window,
                output,
            )),
    {
        if window.width == 0 || window.height == 0 || output.width == 0 || output.height == 0 {
            return None;
        }
        Some(
            FrameLoop {
                phase: Phase::Running,
                resize_pending: false,
                window,
                output,
                scale_window: window,
                scale_output: output,
                frames: 0,
                animation_frames: 0,
                dispatches: 0,
                capturing: false,
                capture_folder: String::new(),
                captured: 0,
            },
        )
    }

    /// Horizontal scale factor from output to window, as numerator and denominator.
    pub fn scale_x(&self) -> (r: (u32, u32))
        ensures
            r == (self.scale_window.width, self.scale_output.width),
    {
        (self.scale_window.width, self.scale_output.width)
    }

    /// Vertical scale factor from output to window, as numerator and denominator.
    pub fn scale_y(&self) -> (r: (u32, u32))
        ensures
            r == (self.scale_window.height, self.scale_output.height),
    {
        (self.scale_window.height, self.scale_output.height)
    }

    /// The blit rectangle on the presented image.
    pub fn window_rect(&self) -> (r: [u32; 3])
        ensures
            r@ == rect(self.window),
    {
        let r = [self.window.width, self.window.height, 1];
        assert(r@ =~= rect(self.window));
        r
    }

    /// The blit rectangle on the rendered image.
    pub fn output_rect(&self) -> (r: [u32; 3])
        ensures
            r@ == rect(self.output),
    {
        let r = [self.output.width, self.output.height, 1];
        assert(r@ =~= rect(self.output));
        r
    }

    /// The update function has run; `need_rebuild` asks for fresh frame resources.
    pub fn on_update(&mut self, need_rebuild: bool)
        ensures
            final(self)@ == update_step(old(self)@, need_rebuild),
    {
        if need_rebuild {
            self.resize_pending = true;
        }
    }

    /// The window was resized to `size`.
    pub fn on_window_resized(&mut self, size: Extent)
        ensures
            final(self)@ == resized_step(old(self)@, size),
    {
        self.resize_pending = true;
        if !matches!(self.phase, Phase::Exiting) {
            self.phase = if size.width == 0 || size.height == 0 {
                Phase::Minimized
            } else {
                Phase::Running
            };
        }
    }

    /// The window was asked to close.
    pub fn on_close_requested(&mut self)
        ensures
            final(self)@ == (FrameLoopView { phase: Phase::Exiting, ..old(self)@ }),
    {
        self.phase = Phase::Exiting;
    }

    /// Starts writing frames under a directory named after `timestamp`; returns whether capture
    /// started, which it does not when it is already on.
    pub fn enable_capture(&mut self, timestamp: &str) -> (r: bool)
        ensures
            (final(self)@, r) == enable_capture_step(old(self)@, timestamp@),
    {
        if self.capturing {
            return false;
        }
        self.capture_folder = capture_folder_name(timestamp);
        self.capturing = true;
        true
    }

    /// Stops writing frames; returns whether capture was on.
    pub fn disable_capture(&mut self) -> (r: bool)
        ensures
            (final(self)@, r) == disable_capture_step(old(self)@),
    {
        let was = self.capturing;
        self.capturing = false;
        was
    }

    /// A key with `scancode` was released; a capture that starts is named after `timestamp`.
    pub fn on_key_released_at(&mut self, scancode: u32, timestamp: &str) -> (r: KeyAction)
        ensures
            (final(self)@, r) == key_step(old(self)@, scancode, timestamp@),
    {
        if scancode == ESCAPE_SCANCODE {
            self.phase = Phase::Exiting;
            KeyAction::Exit
        } else if scancode == CAPTURE_SCANCODE {
            if self.capturing {
                self.disable_capture();
                KeyAction::CaptureStopped
            } else {
                self.enable_capture(timestamp);
                KeyAction::CaptureStarted
            }
        } else {
            KeyAction::Nothing
        }
    }

    /// A key with `scancode` was released; a capture that starts is named after the current
    /// time in UTC.
    pub fn on_key_released(&mut self, scancode: u32) -> (r: KeyAction)
        ensures
            exists|timestamp: Seq<char>|
                (final(self)@, r) == key_step(old(self)@, scancode, timestamp),
    {
        if scancode == CAPTURE_SCANCODE && !self.capturing {
            let timestamp = utc_timestamp();
            self.on_key_released_at(scancode, timestamp.as_str())
        } else {
            self.on_key_released_at(scancode, "")
        }
    }

    /// The window is ready for the next frame.
    pub fn on_redraw(&mut self) -> (r: RedrawAction)
        ensures
            (final(self)@, r) == redraw_step(old(self)@),
    {
        let counted = next_count(self.frames);
        let log = counted % LOG_RATE == 0;
        self.frames = if log {
            0
        } else {
            counted
        };
        self.animation_frames = next_count(self.animation_frames);
        if matches!(self.phase, Phase::Minimized) || matches!(self.phase, Phase::Exiting) {
            return RedrawAction::Skip { log };
        }
        let capture = if self.capturing {
            let n = self.captured;
            self.captured = next_count(n);
            Some(n)
        } else {
            None
        };
        if self.resize_pending {
            self.phase = Phase::Resizing;
        }
        RedrawAction::Render { log, capture, recreate_swapchain: self.resize_pending }
    }

    /// The swapchain was recreated, or not, for a pending rebuild.
    pub fn on_swapchain_recreated(&mut self, outcome: SwapchainOutcome) -> (r: RebuildAction)
        ensures
            (final(self)@, r) == swapchain_step(old(self)@, outcome),
    {
        match outcome {
            SwapchainOutcome::Recreated(e) => {
                if e.width == 0 || e.height == 0 {
                    self.phase = Phase::Minimized;
                    RebuildAction::SkipFrame
                } else {
                    self.phase = Phase::Running;
                    self.resize_pending = false;
                    self.window = e;
                    self.output = Extent {
                        width: scale_dim(e.width, self.scale_output.width, self.scale_window.width),
                        height: scale_dim(
                            e.height,
                            self.scale_output.height,
                            self.scale_window.height,
                        ),
                    };
                    RebuildAction::Rebuild { resolution: e }
                }
            },
            SwapchainOutcome::UnsupportedDimensions => {
                self.phase = Phase::Running;
                RebuildAction::SkipFrame
            },
            SwapchainOutcome::Failed => {
                self.phase = Phase::Exiting;
                RebuildAction::Exit
            },
        }
    }

    /// The next swapchain image was acquired, or not.
    pub fn on_acquire(&mut self, outcome: AcquireOutcome) -> (r: AcquireAction)
        ensures
            (final(self)@, r) == acquire_step(old(self)@, outcome),
    {
        match outcome {
            AcquireOutcome::Acquired { suboptimal } => {
                if suboptimal {
                    self.resize_pending = true;
                }
                self.dispatches = next_count(self.dispatches);
                AcquireAction::Record {
                    source: self.output,
                    dest: self.window,
                    blit_capture: self.capturing,
                }
            },
            AcquireOutcome::OutOfDate => {
                self.resize_pending = true;
                AcquireAction::SkipFrame
            },
            AcquireOutcome::Failed => {
                self.phase = Phase::Exiting;
                AcquireAction::Exit
            },
        }
    }

    /// The frame was submitted and presented, or not.
    pub fn on_present(&mut self, outcome: PresentOutcome) -> (r: PresentAction)
        ensures
            (final(self)@, r) == present_step(old(self)@, outcome),
    {
        match outcome {
            PresentOutcome::Presented => PresentAction::WaitForCompletion,
            PresentOutcome::OutOfDate => {
                self.resize_pending = true;
                PresentAction::ResetSync
            },
            PresentOutcome::Failed => PresentAction::LogFailure,
        }
    }
}

} // verus!
