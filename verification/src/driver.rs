//! The application loop: event translation and per-frame policy.
//!
//! [`ApplicationLoop`] is the driver's state: the graphics context plus the
//! loop's own exit flags. The unverified shell pumps the platform's events,
//! filters them to the managed window, and translates each into one
//! [`LoopEvent`]; [`ApplicationLoop::step`] decides what the shell must do
//! ([`LoopAction`]). When a frame is begun, the shell acquires it and reports
//! the outcome to [`ApplicationLoop::finish_frame`], which applies the
//! policy table: success continues, a lost chain is resized and retried,
//! out-of-memory terminates, everything else is retried unchanged.

use vstd::prelude::*;
use crate::context::AcquireOutcome;
use crate::context::Dimensions;
use crate::context::State;

verus! {

/// A platform event concerning the managed window, already filtered and
/// translated by the shell.
#[derive(Clone, Copy, PartialEq, Eq, Structural, Debug)]
pub enum LoopEvent {
    /// The user asked to close the window.
    CloseRequested,
    /// A keyboard event; `escape` says whether the key is the escape key.
    Key { pressed: bool, escape: bool },
    /// The pointer moved inside the window.
    CursorMoved,
    /// The window was resized to the given physical size.
    Resized(Dimensions),
    /// The display scale changed, giving the window a new physical size.
    ScaleFactorChanged(Dimensions),
    /// The platform asked for a redraw; one render attempt is due.
    RedrawRequested,
    /// All pending events were dispatched; the idle slot of this iteration.
    MainEventsCleared,
    /// Any other window event; ignored.
    Other,
}

/// What the shell must do after handing an event or an outcome to the loop.
#[derive(Clone, Copy, PartialEq, Eq, Structural, Debug)]
pub enum LoopAction {
    /// Nothing; pump the next event.
    Continue,
    /// Ask the platform to schedule exactly one redraw.
    RequestRedraw,
    /// Destroy the real chain and create a new one of this extent from the
    /// context's descriptor.
    RecreateChain { width: u32, height: u32 },
    /// Acquire the next frame from the real chain and report the outcome to
    /// [`ApplicationLoop::finish_frame`].
    BeginFrame,
    /// Stop the platform loop; the process exits with the loop's exit code.
    Exit,
}

/// The driver's state: the graphics context and whether (and how) the loop
/// has terminated.
#[derive(Clone, Copy, PartialEq, Eq, Structural, Debug)]
pub struct ApplicationLoop {
    pub state: State,
    /// The loop has terminated; no further work is started.
    pub exited: bool,
    /// Termination was caused by a fatal GPU error, not by a close request.
    pub fatal: bool,
}

impl ApplicationLoop {
    /// Well-formedness: the context is well-formed, and only a terminated
    /// loop can record a fatal cause.
    pub open spec fn wf(self) -> bool {
        &&& self.state.wf()
        &&& self.fatal ==> self.exited
    }

    /// The driver a fresh context starts with: running, nothing fatal.
    pub open spec fn new_spec(state: State) -> ApplicationLoop {
        ApplicationLoop { state, exited: false, fatal: false }
    }

    /// The loop one event leaves behind. A terminated loop absorbs every
    /// event unchanged. Close and a pressed escape terminate; a resize or a
    /// scale change resizes the context; everything else leaves it alone.
    pub open spec fn step_next_spec(self, event: LoopEvent) -> ApplicationLoop {
        if self.exited {
            self
        } else {
            match event {
                LoopEvent::CloseRequested => ApplicationLoop { exited: true, ..self },
                LoopEvent::Key { pressed, escape } => if pressed && escape {
                    ApplicationLoop { exited: true, ..self }
                } else {
                    self
                },
                LoopEvent::Resized(d) => ApplicationLoop {
                    state: self.state.resize_spec(d),
                    ..self
                },
                LoopEvent::ScaleFactorChanged(d) => ApplicationLoop {
                    state: self.state.resize_spec(d),
                    ..self
                },
                _ => self,
            }
        }
    }

    /// The action one event demands of the shell.
    pub open spec fn step_action_spec(self, event: LoopEvent) -> LoopAction {
        if self.exited {
            LoopAction::Exit
        } else {
            match event {
                LoopEvent::CloseRequested => LoopAction::Exit,
                LoopEvent::Key { pressed, escape } => if pressed && escape {
                    LoopAction::Exit
                } else {
                    LoopAction::Continue
                },
                LoopEvent::CursorMoved => LoopAction::Continue,
                LoopEvent::Resized(d) => LoopAction::RecreateChain {
                    width: crate::context::chain_dim(d.width),
                    height: crate::context::chain_dim(d.height),
                },
                LoopEvent::ScaleFactorChanged(d) => LoopAction::RecreateChain {
                    width: crate::context::chain_dim(d.width),
                    height: crate::context::chain_dim(d.height),
                },
                LoopEvent::RedrawRequested => LoopAction::BeginFrame,
                LoopEvent::MainEventsCleared => LoopAction::RequestRedraw,
                LoopEvent::Other => LoopAction::Continue,
            }
        }
    }

    /// The loop a reported frame outcome leaves behind: the context after
    /// its frame attempt, then the policy table. A lost chain is resized at
    /// the current dimensions at once — the one automatic recovery;
    /// out-of-memory terminates fatally; the rest change nothing further.
    pub open spec fn finish_next_spec(self, acquired: AcquireOutcome) -> ApplicationLoop {
        let rendered = self.state.render_next_spec(acquired);
        match acquired {
            AcquireOutcome::Lost => ApplicationLoop {
                state: rendered.resize_spec(rendered.size),
                ..self
            },
            AcquireOutcome::OutOfMemory => ApplicationLoop {
                state: rendered,
                exited: true,
                fatal: true,
            },
            _ => ApplicationLoop { state: rendered, ..self },
        }
    }

    /// The action a reported frame outcome demands of the shell.
    pub open spec fn finish_action_spec(self, acquired: AcquireOutcome) -> LoopAction {
        match acquired {
            AcquireOutcome::Lost => LoopAction::RecreateChain {
                width: self.state.desc.width,
                height: self.state.desc.height,
            },
            AcquireOutcome::OutOfMemory => LoopAction::Exit,
            _ => LoopAction::Continue,
        }
    }

    /// Wraps a freshly constructed context into a running loop.
    pub fn new(state: State) -> (l: ApplicationLoop)
        requires
            state.wf(),
        ensures
            l == ApplicationLoop::new_spec(state),
            l.wf(),
    {
        ApplicationLoop { state, exited: false, fatal: false }
    }

    /// Translates one platform event. A terminated loop does nothing and
    /// keeps demanding exit: no event restarts it, so no render attempt and
    /// no resize follows termination. A close request or a pressed escape
    /// key terminates (never fatally). A resize or scale change overwrites
    /// the context's dimensions and recreates the chain. A cursor move is
    /// fully consumed by the input hook. A redraw request begins a frame —
    /// the shell must then report the acquisition outcome to
    /// [`ApplicationLoop::finish_frame`] — and an idle slot requests exactly
    /// one redraw.
    pub fn step(&mut self, event: LoopEvent) -> (action: LoopAction)
        requires
            old(self).wf(),
            old(self).state.chain_epoch < u64::MAX,
        ensures
            *final(self) == old(self).step_next_spec(event),
            action == old(self).step_action_spec(event),
            final(self).wf(),
            action is BeginFrame ==> !final(self).exited,
            final(self).state.submissions == old(self).state.submissions,
            old(self).exited ==> *final(self) == *old(self),
    {
        if self.exited {
            return LoopAction::Exit;
        }
        let consumed = self.state.input(&event);
        if consumed {
            return LoopAction::Continue;
        }
        match event {
            LoopEvent::CloseRequested => {
                self.exited = true;
                LoopAction::Exit
            },
            LoopEvent::Key { pressed, escape } => {
                if pressed && escape {
                    self.exited = true;
                    LoopAction::Exit
                } else {
                    LoopAction::Continue
                }
            },
            LoopEvent::CursorMoved => LoopAction::Continue,
            LoopEvent::Resized(d) => {
                self.state.resize(d);
                LoopAction::RecreateChain { width: self.state.desc.width, height: self.state.desc.height }
            },
            LoopEvent::ScaleFactorChanged(d) => {
                self.state.resize(d);
                LoopAction::RecreateChain { width: self.state.desc.width, height: self.state.desc.height }
            },
            LoopEvent::RedrawRequested => {
                self.state.update();
                LoopAction::BeginFrame
            },
            LoopEvent::MainEventsCleared => LoopAction::RequestRedraw,
            LoopEvent::Other => LoopAction::Continue,
        }
    }

    /// Applies the policy table to what frame acquisition reported, after
    /// [`ApplicationLoop::step`] returned [`LoopAction::BeginFrame`].
    /// Success: the frame was rendered and submitted; continue. Lost: the
    /// context is resized at its current dimensions, exactly once, restoring
    /// the chain; the shell recreates it and retries next iteration.
    /// Out-of-memory: terminate fatally; no submission happened. Outdated or
    /// timeout: continue unchanged; the condition resolves itself.
    pub fn finish_frame(&mut self, acquired: AcquireOutcome) -> (action: LoopAction)
        requires
            old(self).wf(),
            !old(self).exited,
            old(self).state.chain_epoch < u64::MAX,
            old(self).state.submissions < u64::MAX,
        ensures
            *final(self) == old(self).finish_next_spec(acquired),
            action == old(self).finish_action_spec(acquired),
            final(self).wf(),
    {
        let r = self.state.render(acquired);
        match r {
            Ok(()) => LoopAction::Continue,
            Err(crate::context::RenderError::Lost) => {
                let current = self.state.size;
                self.state.resize(current);
                LoopAction::RecreateChain {
                    width: self.state.desc.width,
                    height: self.state.desc.height,
                }
            },
            Err(crate::context::RenderError::OutOfMemory) => {
                self.exited = true;
                self.fatal = true;
                LoopAction::Exit
            },
            Err(_) => LoopAction::Continue,
        }
    }

    /// The process exit code once the loop has terminated: zero for a normal
    /// close, nonzero for a fatal GPU error.
    pub fn exit_code(&self) -> (code: u32)
        ensures
            code == 0 <==> !self.fatal,
    {
        if self.fatal {
            1
        } else {
            0
        }
    }

    /// The loop a whole script of iterations leaves behind: each element is
    /// one platform event, paired with the outcome frame acquisition would
    /// report if that event begins a frame (ignored otherwise).
    pub open spec fn run_spec(self, script: Seq<(LoopEvent, AcquireOutcome)>) -> ApplicationLoop
        decreases script.len(),
    {
        if script.len() == 0 {
            self
        } else {
            let stepped = self.step_next_spec(script[0].0);
            let after = if self.step_action_spec(script[0].0) is BeginFrame {
                stepped.finish_next_spec(script[0].1)
            } else {
                stepped
            };
            after.run_spec(script.skip(1))
        }
    }

    /// Drives the loop through a script, exactly as the shell would: one
    /// [`ApplicationLoop::step`] per event, and one
    /// [`ApplicationLoop::finish_frame`] whenever a frame was begun. The
    /// counter headroom asked for is a machine limit: each iteration adds at
    /// most one chain recreation and one submission.
    pub fn run_script(&mut self, script: &Vec<(LoopEvent, AcquireOutcome)>)
        requires
            old(self).wf(),
            old(self).state.chain_epoch + script@.len() <= u64::MAX,
            old(self).state.submissions + script@.len() <= u64::MAX,
        ensures
            *final(self) == old(self).run_spec(script@),
            final(self).wf(),
    {
        self.run_script_from(script, 0);
        proof {
            assert(script@.skip(0) =~= script@);
        }
    }

    /// Recursive worker for [`ApplicationLoop::run_script`]: runs the script
    /// from position `i` on.
    fn run_script_from(&mut self, script: &Vec<(LoopEvent, AcquireOutcome)>, i: usize)
        requires
            old(self).wf(),
            i <= script@.len(),
            old(self).state.chain_epoch + (script@.len() - i) <= u64::MAX,
            old(self).state.submissions + (script@.len() - i) <= u64::MAX,
        ensures
            *final(self) == old(self).run_spec(script@.skip(i as int)),
            final(self).wf(),
        decreases script@.len() - i,
    {
        if i == script.len() {
            return ;
        }
        let (event, outcome) = script[i];
        let action = self.step(event);
        match action {
            LoopAction::BeginFrame => {
                self.finish_frame(outcome);
            },
            _ => {},
        }
        self.run_script_from(script, i + 1);
        proof {
            assert(script@.skip(i as int)[0] == script@[i as int]);
            assert(script@.skip(i as int).skip(1) =~= script@.skip((i + 1) as int));
        }
    }
}

/// Once the loop has terminated, it is inert: no script of further events
/// changes it in any way — in particular, no further frame is rendered and
/// no further submission occurs.
pub proof fn lemma_terminated_loop_is_inert(l: ApplicationLoop, script: Seq<(LoopEvent, AcquireOutcome)>)
    requires
        l.exited,
    ensures
        l.run_spec(script) == l,
    decreases script.len(),
{
    if script.len() > 0 {
        lemma_terminated_loop_is_inert(l, script.skip(1));
    }
}

/// An out-of-memory acquisition terminates the loop fatally, with no
/// submission for that frame, and no event that follows — however long the
/// script — renders anything further or changes the loop at all.
pub proof fn lemma_oom_terminates(l: ApplicationLoop, script: Seq<(LoopEvent, AcquireOutcome)>)
    requires
        l.wf(),
        !l.exited,
    ensures
        l.finish_next_spec(AcquireOutcome::OutOfMemory).exited,
        l.finish_next_spec(AcquireOutcome::OutOfMemory).fatal,
        l.finish_action_spec(AcquireOutcome::OutOfMemory) is Exit,
        l.finish_next_spec(AcquireOutcome::OutOfMemory).state.submissions == l.state.submissions,
        l.finish_next_spec(AcquireOutcome::OutOfMemory).run_spec(script)
            == l.finish_next_spec(AcquireOutcome::OutOfMemory),
{
    lemma_terminated_loop_is_inert(l.finish_next_spec(AcquireOutcome::OutOfMemory), script);
}

/// A lost acquisition makes the driver resize at the current dimensions
/// exactly once before the next frame attempt: the chain passes through
/// `Invalid` and is restored to `Valid` by exactly one recreation, the
/// dimensions are unchanged, nothing was submitted, and the loop keeps
/// running while the shell is told to recreate the chain.
pub proof fn lemma_lost_resizes_once(l: ApplicationLoop)
    requires
        l.wf(),
        !l.exited,
        l.state.chain_epoch < u64::MAX,
    ensures
        l.state.render_next_spec(AcquireOutcome::Lost).chain is Invalid,
        l.finish_next_spec(AcquireOutcome::Lost).state.chain is Valid,
        l.finish_next_spec(AcquireOutcome::Lost).state.chain_epoch == l.state.chain_epoch + 1,
        l.finish_next_spec(AcquireOutcome::Lost).state.size == l.state.size,
        l.finish_next_spec(AcquireOutcome::Lost).state.submissions == l.state.submissions,
        !l.finish_next_spec(AcquireOutcome::Lost).exited,
        l.finish_action_spec(AcquireOutcome::Lost) == (LoopAction::RecreateChain {
            width: l.state.desc.width,
            height: l.state.desc.height,
        }),
{
}

} // verus!
