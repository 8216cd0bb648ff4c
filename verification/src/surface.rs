//! Surface lifecycle: the presentation-surface configuration, resize
//! handling, and the per-tick recovery decision of the render loop.

use vstd::prelude::*;

verus! {

/// Composite alpha blending mode of the presentation surface.
#[derive(Clone, Copy, PartialEq, Eq, Structural, Debug)]
pub enum AlphaMode {
    Auto,
    Opaque,
    PreMultiplied,
    PostMultiplied,
    Inherit,
}

/// Presentation scheduling mode.
#[derive(Clone, Copy, PartialEq, Eq, Structural, Debug)]
pub enum PresentMode {
    Fifo,
    FifoRelaxed,
    Immediate,
    Mailbox,
}

/// Pixel format of the presentation surface, as the adapter reports it.
#[derive(Clone, Copy, PartialEq, Eq, Structural, Debug)]
pub enum PixelFormat {
    Bgra8Unorm,
    Bgra8UnormSrgb,
    Rgba8Unorm,
    Rgba8UnormSrgb,
    Rgba16Float,
}

/// Current configuration of the presentation surface. Always reflects the
/// most recent window size; reapplied to the surface whenever it changes.
pub struct SurfaceConfig {
    pub width: u32,
    pub height: u32,
    pub format: PixelFormat,
    pub alpha_mode: AlphaMode,
    pub present_mode: PresentMode,
}

impl SurfaceConfig {
    /// Dimensions are never zero.
    pub open spec fn wf(self) -> bool {
        self.width >= 1 && self.height >= 1
    }

    /// Applies a window resize: the new dimensions are clamped to at least
    /// 1x1; format, alpha mode and present mode are untouched.
    pub fn on_resize(&mut self, new_width: u32, new_height: u32)
        ensures
            final(self).width == if new_width == 0 {
                1u32
            } else {
                new_width
            },
            final(self).height == if new_height == 0 {
                1u32
            } else {
                new_height
            },
            final(self).format == old(self).format,
            final(self).alpha_mode == old(self).alpha_mode,
            final(self).present_mode == old(self).present_mode,
            final(self).wf(),
    {
        self.width = if new_width == 0 {
            1
        } else {
            new_width
        };
        self.height = if new_height == 0 {
            1
        } else {
            new_height
        };
    }
}

/// Picks the composite alpha mode the surface will be configured with:
/// pre-multiplied alpha whenever the adapter supports it (transparency
/// works), otherwise the first mode the adapter reports.
pub fn choose_alpha_mode(supported: &Vec<AlphaMode>) -> (m: AlphaMode)
    requires
        supported@.len() >= 1,
    ensures
        m == if supported@.contains(AlphaMode::PreMultiplied) {
            AlphaMode::PreMultiplied
        } else {
            supported@[0]
        },
{
    let mut i: usize = 0;
    while i < supported.len()
        invariant
            i <= supported@.len(),
            forall|k: int| 0 <= k < i ==> supported@[k] != AlphaMode::PreMultiplied,
        decreases supported@.len() - i,
    {
        if supported[i] == AlphaMode::PreMultiplied {
            return AlphaMode::PreMultiplied;
        }
        i = i + 1;
    }
    proof {
        assert(!supported@.contains(AlphaMode::PreMultiplied));
    }
    supported[0]
}

/// Builds the surface configuration negotiated once at startup: the first
/// format the adapter reports, pre-multiplied alpha when available, vsync'd
/// presentation, and the window size clamped to at least 1x1.
pub fn initial_surface_config(
    width: u32,
    height: u32,
    formats: &Vec<PixelFormat>,
    alpha_modes: &Vec<AlphaMode>,
) -> (c: SurfaceConfig)
    requires
        formats@.len() >= 1,
        alpha_modes@.len() >= 1,
    ensures
        c.width == if width == 0 {
            1u32
        } else {
            width
        },
        c.height == if height == 0 {
            1u32
        } else {
            height
        },
        c.format == formats@[0],
        c.alpha_mode == if alpha_modes@.contains(AlphaMode::PreMultiplied) {
            AlphaMode::PreMultiplied
        } else {
            alpha_modes@[0]
        },
        c.present_mode == PresentMode::Fifo,
        c.wf(),
{
    let alpha_mode = choose_alpha_mode(alpha_modes);
    SurfaceConfig {
        width: if width == 0 {
            1
        } else {
            width
        },
        height: if height == 0 {
            1
        } else {
            height
        },
        format: formats[0],
        alpha_mode,
        present_mode: PresentMode::Fifo,
    }
}

/// Kind of graphics adapter the platform reports.
#[derive(Clone, Copy, PartialEq, Eq, Structural, Debug)]
pub enum AdapterKind {
    /// Hardware-accelerated.
    Hardware,
    /// A software rasterizer.
    Software,
}

/// Picks the adapter the graphics context is built on: the first
/// hardware-accelerated adapter; a software adapter only when explicitly
/// allowed; `None` — a fatal condition at startup — otherwise.
pub fn select_adapter(kinds: &Vec<AdapterKind>, allow_software: bool) -> (r: Option<usize>)
    ensures
        (exists|i: int| 0 <= i < kinds@.len() && kinds@[i] is Hardware) ==> {
            &&& r is Some
            &&& 0 <= r->Some_0 < kinds@.len()
            &&& kinds@[r->Some_0 as int] is Hardware
            &&& forall|j: int| 0 <= j < r->Some_0 ==> !(kinds@[j] is Hardware)
        },
        !(exists|i: int| 0 <= i < kinds@.len() && kinds@[i] is Hardware) ==> r == (
        if allow_software && kinds@.len() > 0 {
            Some(0usize)
        } else {
            None
        }),
{
    let mut i: usize = 0;
    while i < kinds.len()
        invariant
            i <= kinds@.len(),
            forall|j: int| 0 <= j < i ==> !(kinds@[j] is Hardware),
        decreases kinds@.len() - i,
    {
        if kinds[i] == AdapterKind::Hardware {
            return Some(i);
        }
        i = i + 1;
    }
    if allow_software && kinds.len() > 0 {
        Some(0)
    } else {
        None
    }
}

/// What acquiring the next presentable image reported.
#[derive(Clone, Copy, PartialEq, Eq, Structural, Debug)]
pub enum AcquireOutcome {
    /// An image is available; the frame can be rendered and presented.
    Acquired,
    /// The surface was lost and must be reconfigured.
    Lost,
    /// The surface could not allocate; treated like a loss.
    OutOfMemory,
    /// The surface is outdated or timed out; the frame is skipped.
    Outdated,
}

/// What the render loop must do with the current tick.
#[derive(Clone, Copy, PartialEq, Eq, Structural, Debug)]
pub enum TickDirective {
    /// Render, capture and present this frame.
    Proceed,
    /// Skip this frame, reapply the last known-good configuration before the
    /// next one, and do not present.
    SkipAndReconfigure,
    /// Skip this frame without touching the configuration.
    Skip,
    /// Surface loss on consecutive ticks: not recoverable.
    Fatal,
}

/// The tick decision for an acquire outcome: success proceeds; loss or
/// out-of-memory reconfigures and skips once, and escalates to fatal when
/// the previous tick already failed the same way; an outdated surface only
/// skips the frame.
pub open spec fn spec_tick_directive(failed_last_tick: bool, outcome: AcquireOutcome) -> TickDirective {
    match outcome {
        AcquireOutcome::Acquired => TickDirective::Proceed,
        AcquireOutcome::Lost | AcquireOutcome::OutOfMemory => if failed_last_tick {
            TickDirective::Fatal
        } else {
            TickDirective::SkipAndReconfigure
        },
        AcquireOutcome::Outdated => TickDirective::Skip,
    }
}

/// Per-window render-loop state: remembers whether the previous tick failed
/// to acquire, so that repeated consecutive loss escalates to fatal.
pub struct FrameLoop {
    pub failed_last_tick: bool,
}

impl FrameLoop {
    /// A fresh render loop has no failed tick behind it.
    pub fn new() -> (s: Self)
        ensures
            !s.failed_last_tick,
    {
        FrameLoop { failed_last_tick: false }
    }

    /// Decides the current tick from the acquire outcome and updates the
    /// consecutive-failure record.
    pub fn on_acquire(&mut self, outcome: AcquireOutcome) -> (d: TickDirective)
        ensures
            d == spec_tick_directive(old(self).failed_last_tick, outcome),
            final(self).failed_last_tick == (outcome is Lost || outcome is OutOfMemory),
    {
        let d = match outcome {
            AcquireOutcome::Acquired => TickDirective::Proceed,
            AcquireOutcome::Lost | AcquireOutcome::OutOfMemory => {
                if self.failed_last_tick {
                    TickDirective::Fatal
                } else {
                    TickDirective::SkipAndReconfigure
                }
            },
            AcquireOutcome::Outdated => TickDirective::Skip,
        };
        self.failed_last_tick = match outcome {
            AcquireOutcome::Lost | AcquireOutcome::OutOfMemory => true,
            _ => false,
        };
        d
    }
}

} // verus!
