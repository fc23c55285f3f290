//! The graphics context: presentation-chain lifecycle and frame protocol.
//!
//! [`State`] owns the model of everything the GPU side of the program keeps:
//! the current window dimensions, the presentation-chain descriptor, the
//! chain's validity, and counters for chain recreations and queue
//! submissions. The unverified shell owns the real device, queue, surface and
//! chain; it mirrors every descriptor change and recreation this model
//! decides, and reports every frame-acquisition outcome back into
//! [`State::render`].

use vstd::prelude::*;

verus! {

/// Window dimensions in physical pixels. Zero components are possible (a
/// minimized window reports them) but must never reach chain creation.
#[derive(Clone, Copy, PartialEq, Eq, Structural, Debug)]
pub struct Dimensions {
    pub width: u32,
    pub height: u32,
}

/// How the chain is synchronized with the display. The design always uses
/// `Fifo` (vsync-locked, no tearing, bounded latency), preferring portability
/// over latency.
#[derive(Clone, Copy, PartialEq, Eq, Structural, Debug)]
pub enum PresentMode {
    Immediate,
    Mailbox,
    Fifo,
}

/// Configuration from which the presentation chain is (re)created. The
/// texture-usage flag is not modeled: it is fixed to render-attachment by
/// every creation path. `format` is the backend's preferred surface format,
/// an opaque identifier chosen once at construction and never changed.
#[derive(Clone, Copy, PartialEq, Eq, Structural, Debug)]
pub struct ChainDescriptor {
    pub format: u32,
    pub width: u32,
    pub height: u32,
    pub present_mode: PresentMode,
}

/// Validity of the presentation chain.
#[derive(Clone, Copy, PartialEq, Eq, Structural, Debug)]
pub enum ChainState {
    /// No chain exists; only before construction completes.
    Absent,
    /// The chain can be asked for frames.
    Valid,
    /// An acquisition reported the chain lost; only a resize restores it.
    Invalid,
}

/// What the backend reported when asked for the next drawable frame.
#[derive(Clone, Copy, PartialEq, Eq, Structural, Debug)]
pub enum AcquireOutcome {
    /// A frame was handed out and can be rendered to.
    Success,
    /// The chain is lost and must be recreated before the next attempt.
    Lost,
    /// The chain no longer matches the surface; resolves once pending resize
    /// events are processed.
    Outdated,
    /// The backend did not produce a frame in time; transient.
    Timeout,
    /// GPU memory is exhausted; unrecoverable at this layer.
    OutOfMemory,
}

/// Why a frame was not rendered. Mirrors the non-success acquisition
/// outcomes; the loop's policy table decides retry, resize, or terminate.
#[derive(Clone, Copy, PartialEq, Eq, Structural, Debug)]
pub enum RenderError {
    Lost,
    Outdated,
    Timeout,
    OutOfMemory,
}

/// One color channel is stored in tenths of the [0, 1] linear scale, so the
/// fixed clear color is representable without floating point; the shell
/// divides by ten when building the real pass.
#[derive(Clone, Copy, PartialEq, Eq, Structural, Debug)]
pub struct Color {
    pub r_tenths: u8,
    pub g_tenths: u8,
    pub b_tenths: u8,
    pub a_tenths: u8,
}

/// Everything a frame's single render pass does. The design clears the color
/// attachment and draws nothing; the pass has no resolve target and no
/// depth/stencil attachment, and stores its result so it is presented.
#[derive(Clone, Copy, PartialEq, Eq, Structural, Debug)]
pub struct PassDescription {
    pub clear: Color,
    pub store: bool,
    pub draw_count: u32,
    pub has_resolve_target: bool,
    pub has_depth_stencil: bool,
}

/// The fixed color every frame is cleared to: (0.1, 0.2, 0.3, 1.0) RGBA on a
/// [0, 1] linear scale, in tenths.
pub open spec fn clear_color_spec() -> Color {
    Color { r_tenths: 1, g_tenths: 2, b_tenths: 3, a_tenths: 10 }
}

/// The one render pass each frame submits: clear to the fixed color, store
/// the result, no draws, no resolve target, no depth/stencil.
pub open spec fn clear_pass_spec() -> PassDescription {
    PassDescription {
        clear: clear_color_spec(),
        store: true,
        draw_count: 0,
        has_resolve_target: false,
        has_depth_stencil: false,
    }
}

/// The fixed clear color, for the shell and for callers outside `verus!`.
pub fn clear_color() -> (c: Color)
    ensures
        c == clear_color_spec(),
{
    Color { r_tenths: 1, g_tenths: 2, b_tenths: 3, a_tenths: 10 }
}

/// Records the commands of one frame: a single render pass that clears the
/// acquired frame's view to the fixed color and issues no draw calls.
pub fn record_clear_pass() -> (p: PassDescription)
    ensures
        p == clear_pass_spec(),
{
    PassDescription {
        clear: clear_color(),
        store: true,
        draw_count: 0,
        has_resolve_target: false,
        has_depth_stencil: false,
    }
}

/// A chain dimension actually used for creation: zero is clamped to one, so
/// no zero-area chain is ever requested from the backend.
pub open spec fn chain_dim(px: u32) -> u32 {
    if px == 0 {
        1u32
    } else {
        px
    }
}

/// The graphics context. Aggregates the model of the presentation chain and
/// its descriptor; single-owner, single-threaded. `chain_epoch` counts chain
/// creations (construction and every recreation), `submissions` counts queue
/// submissions; both let callers state "exactly once" facts about the
/// protocol. `last_submitted` is the most recent frame's command content.
#[derive(Clone, Copy, PartialEq, Eq, Structural, Debug)]
pub struct State {
    pub size: Dimensions,
    pub desc: ChainDescriptor,
    pub chain: ChainState,
    pub chain_epoch: u64,
    pub submissions: u64,
    pub last_submitted: Option<PassDescription>,
}

impl State {
    /// Well-formedness: a chain exists (construction never leaves it
    /// absent), it was created at least once, it always uses `Fifo`, and the
    /// descriptor's extent is the stored dimensions with zero clamped to
    /// one, so no zero-area chain is ever described.
    pub open spec fn wf(self) -> bool {
        &&& self.chain !is Absent
        &&& self.chain_epoch >= 1
        &&& self.desc.present_mode is Fifo
        &&& self.desc.width == chain_dim(self.size.width)
        &&& self.desc.height == chain_dim(self.size.height)
        &&& self.desc.width >= 1
        &&& self.desc.height >= 1
    }

    /// The context construction builds: initial dimensions stored as given,
    /// descriptor at the clamped extent with the backend's preferred format,
    /// a freshly created (first-epoch) valid chain, and nothing submitted.
    pub open spec fn new_spec(format: u32, size: Dimensions) -> State {
        State {
            size,
            desc: ChainDescriptor {
                format,
                width: chain_dim(size.width),
                height: chain_dim(size.height),
                present_mode: PresentMode::Fifo,
            },
            chain: ChainState::Valid,
            chain_epoch: 1,
            submissions: 0,
            last_submitted: None,
        }
    }

    /// What a resize leaves behind: dimensions overwritten unconditionally,
    /// descriptor extent re-derived (clamped), and the chain destroyed and
    /// recreated — one more epoch — even if the dimensions did not change.
    pub open spec fn resize_spec(self, new_size: Dimensions) -> State {
        State {
            size: new_size,
            desc: ChainDescriptor {
                width: chain_dim(new_size.width),
                height: chain_dim(new_size.height),
                ..self.desc
            },
            chain: ChainState::Valid,
            chain_epoch: (self.chain_epoch + 1) as u64,
            ..self
        }
    }

    /// The context a frame attempt leaves behind, given what acquisition
    /// reported: one submission of the clear pass on success, chain
    /// invalidated on loss, untouched otherwise (out-of-memory does not
    /// transition the chain; it is the caller that terminates).
    pub open spec fn render_next_spec(self, acquired: AcquireOutcome) -> State {
        match acquired {
            AcquireOutcome::Success => State {
                submissions: (self.submissions + 1) as u64,
                last_submitted: Some(clear_pass_spec()),
                ..self
            },
            AcquireOutcome::Lost => State { chain: ChainState::Invalid, ..self },
            _ => self,
        }
    }

    /// A frame attempt's result: `Ok` exactly on successful acquisition,
    /// otherwise the error naming the outcome.
    pub open spec fn render_result_spec(acquired: AcquireOutcome) -> Result<(), RenderError> {
        match acquired {
            AcquireOutcome::Success => Ok(()),
            AcquireOutcome::Lost => Err(RenderError::Lost),
            AcquireOutcome::Outdated => Err(RenderError::Outdated),
            AcquireOutcome::Timeout => Err(RenderError::Timeout),
            AcquireOutcome::OutOfMemory => Err(RenderError::OutOfMemory),
        }
    }

    /// Constructs the context model once the shell has created the surface,
    /// device and queue, and has queried the preferred surface `format`.
    /// Backend selection itself can fail fatally; that failure precedes this
    /// call and is handled by the shell, which then never constructs a
    /// context. The shell creates the real chain from `s.desc`.
    pub fn new(format: u32, size: Dimensions) -> (s: State)
        ensures
            s == State::new_spec(format, size),
            s.wf(),
    {
        State {
            size,
            desc: ChainDescriptor {
                format,
                width: if size.width == 0 { 1 } else { size.width },
                height: if size.height == 0 { 1 } else { size.height },
                present_mode: PresentMode::Fifo,
            },
            chain: ChainState::Valid,
            chain_epoch: 1,
            submissions: 0,
            last_submitted: None,
        }
    }

    /// Unconditionally overwrites the stored dimensions and the descriptor's
    /// extent, then recreates the chain. Recreation is never suppressed, not
    /// even for unchanged dimensions. A zero dimension is clamped to one in
    /// the descriptor so the chain the shell creates from it is never
    /// zero-area. Restores a lost chain: this is the only transition out of
    /// `Invalid`.
    pub fn resize(&mut self, new_size: Dimensions)
        requires
            old(self).wf(),
            old(self).chain_epoch < u64::MAX,
        ensures
            *final(self) == old(self).resize_spec(new_size),
            final(self).wf(),
            final(self).size == new_size,
            final(self).chain is Valid,
            final(self).chain_epoch == old(self).chain_epoch + 1,
            final(self).submissions == old(self).submissions,
            final(self).desc.format == old(self).desc.format,
    {
        self.size = new_size;
        self.desc.width = if new_size.width == 0 { 1 } else { new_size.width };
        self.desc.height = if new_size.height == 0 { 1 } else { new_size.height };
        self.chain = ChainState::Valid;
        self.chain_epoch = self.chain_epoch + 1;
    }

    /// Reports whether a window event was fully consumed by the input hook.
    /// Only cursor movement is consumed (a placeholder for future input
    /// handling); everything else is left to the loop's own dispatch.
    pub fn input(&mut self, event: &crate::driver::LoopEvent) -> (consumed: bool)
        ensures
            *final(self) == *old(self),
            consumed == (*event is CursorMoved),
    {
        match event {
            crate::driver::LoopEvent::CursorMoved => true,
            _ => false,
        }
    }

    /// Per-frame update hook; placeholder for future scene logic, changes
    /// nothing.
    pub fn update(&mut self)
        ensures
            *final(self) == *old(self),
    {
    }

    /// One frame attempt. The shell has asked the real chain for the next
    /// frame and passes what acquisition reported. On success, exactly one
    /// command buffer — the single clear pass, no draws — is recorded and
    /// submitted to the queue, and `Ok` is returned. On loss the chain
    /// becomes invalid and the caller must resize before retrying. Any other
    /// failure changes nothing here: out-of-memory is fatal to the caller,
    /// the rest resolve themselves by the next iteration. Never more than
    /// one submission per call.
    pub fn render(&mut self, acquired: AcquireOutcome) -> (r: Result<(), RenderError>)
        requires
            old(self).wf(),
            old(self).submissions < u64::MAX,
        ensures
            *final(self) == old(self).render_next_spec(acquired),
            r == State::render_result_spec(acquired),
            final(self).wf(),
            r is Ok <==> acquired is Success,
            acquired is Success ==> final(self).submissions == old(self).submissions + 1
                && final(self).last_submitted == Some(clear_pass_spec())
                && final(self).chain == old(self).chain,
            !(acquired is Success) ==> final(self).submissions == old(self).submissions,
            acquired is Lost ==> final(self).chain is Invalid,
            final(self).chain_epoch == old(self).chain_epoch,
            final(self).size == old(self).size,
            final(self).desc == old(self).desc,
    {
        match acquired {
            AcquireOutcome::Success => {
                let pass = record_clear_pass();
                self.submissions = self.submissions + 1;
                self.last_submitted = Some(pass);
                Ok(())
            },
            AcquireOutcome::Lost => {
                self.chain = ChainState::Invalid;
                Err(RenderError::Lost)
            },
            AcquireOutcome::Outdated => Err(RenderError::Outdated),
            AcquireOutcome::Timeout => Err(RenderError::Timeout),
            AcquireOutcome::OutOfMemory => Err(RenderError::OutOfMemory),
        }
    }
}

/// Constructing a context and then resizing it to any non-zero dimensions
/// leaves both the stored dimensions and the descriptor's extent equal to
/// those dimensions, whatever dimensions construction started from.
pub proof fn lemma_construct_then_resize_sets_dimensions(
    format: u32,
    initial: Dimensions,
    d: Dimensions,
)
    requires
        d.width > 0,
        d.height > 0,
    ensures
        State::new_spec(format, initial).resize_spec(d).size == d,
        State::new_spec(format, initial).resize_spec(d).desc.width == d.width,
        State::new_spec(format, initial).resize_spec(d).desc.height == d.height,
{
}

/// Two consecutive resizes to identical dimensions produce two independent
/// chain recreations: the second is not suppressed by equality.
pub proof fn lemma_resize_twice_recreates(c: State, d: Dimensions)
    requires
        c.wf(),
        c.chain_epoch + 2 <= u64::MAX,
    ensures
        c.resize_spec(d).chain_epoch == c.chain_epoch + 1,
        c.resize_spec(d).resize_spec(d).chain_epoch == c.chain_epoch + 2,
        c.resize_spec(d).chain is Valid,
        c.resize_spec(d).resize_spec(d).chain is Valid,
{
}

/// A frame rendered against a valid chain submits exactly once, returns
/// `Ok`, submits the single clear pass, and leaves the chain valid.
pub proof fn lemma_render_success_submits_once(c: State)
    requires
        c.wf(),
        c.chain is Valid,
        c.submissions < u64::MAX,
    ensures
        State::render_result_spec(AcquireOutcome::Success) is Ok,
        c.render_next_spec(AcquireOutcome::Success).submissions == c.submissions + 1,
        c.render_next_spec(AcquireOutcome::Success).last_submitted == Some(clear_pass_spec()),
        c.render_next_spec(AcquireOutcome::Success).chain is Valid,
{
}

/// No resize — not even to dimensions with a zero component — ever leaves a
/// zero extent in the descriptor, so the chain the shell creates from it is
/// never one a conforming backend would reject.
pub proof fn lemma_resize_never_zero_extent(c: State, format: u32, d: Dimensions)
    ensures
        c.resize_spec(d).desc.width >= 1,
        c.resize_spec(d).desc.height >= 1,
        State::new_spec(format, d).desc.width >= 1,
        State::new_spec(format, d).desc.height >= 1,
{
}

} // verus!
