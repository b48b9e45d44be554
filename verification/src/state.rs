//! The application lifecycle: a three-callback state machine driven by an
//! external runtime.
//!
//! Initialization performs, in order, library init, window creation and
//! renderer creation, each through one native call the runtime makes.
//! `InitPhase` is that sequence as a state machine over the raw outcomes:
//! the runtime performs the call a phase stands before and hands the
//! outcome back; any failed step moves to `Failed`, which is terminal, so
//! a later step is never attempted after an earlier failure.  Full
//! success yields a running `ApplicationState`, which the `iterate` and
//! `event` callbacks then advance.

use vstd::prelude::*;
use crate::enums::SDL3RendererType;
use crate::events::EventRecord;
use crate::events::spec_classify;
use crate::facade::SDL3Wrapper;
use crate::handles::SDL3RendererWrapper;
use crate::handles::SDL3WindowWrapper;

verus! {

/// The three-valued lifecycle signal a callback returns to the external
/// runtime: keep running, or stop with success or failure.
#[derive(Clone, Copy, Debug, PartialEq, Eq, Structural)]
pub enum AppResult {
    Continue,
    Success,
    Failure,
}

/// The fixed parameters of one initialization run: the subsystem flags,
/// the window parameters and the renderer backend.
pub struct InitConfig {
    pub init_flags: u32,
    pub title: String,
    pub width: i32,
    pub height: i32,
    pub window_flags: u64,
    pub renderer_type: SDL3RendererType,
}

/// The running application: the facade, the two owned handles and the
/// current lifecycle result.
pub struct ApplicationState {
    pub current_state: AppResult,
    pub sdl3: SDL3Wrapper,
    pub window: SDL3WindowWrapper,
    pub renderer: SDL3RendererWrapper,
}

impl ApplicationState {
    /// The per-frame callback.  It performs no work and always reports
    /// that execution should continue, leaving the state unchanged.
    pub fn app_iterate(&mut self) -> (r: AppResult)
        ensures
            r is Continue,
            *final(self) == *old(self),
    {
        AppResult::Continue
    }

    /// The per-event callback.  It reports success — asking the runtime
    /// to stop — exactly when the event classifies as a quit request, and
    /// continues on every other event; the handles are untouched and the
    /// current result records the report.
    pub fn app_event(&mut self, event: &EventRecord) -> (r: AppResult)
        ensures
            r is Success <==> spec_classify(event.event_type) is Quit,
            r is Success || r is Continue,
            final(self).current_state == r,
            final(self).window == old(self).window,
            final(self).renderer == old(self).renderer,
            final(self).sdl3 == old(self).sdl3,
    {
        let kind = self.sdl3.sdl_get_sdl_event(event);
        let r = match kind {
            crate::events::EventKind::Quit => AppResult::Success,
            crate::events::EventKind::Other(_) => AppResult::Continue,
        };
        self.current_state = r;
        r
    }
}

/// Where an initialization run stands: before any step, after each
/// successful step, complete, or failed for good.
pub enum InitPhase {
    Start,
    LibraryReady,
    WindowReady(SDL3WindowWrapper),
    Complete(ApplicationState),
    Failed,
}

impl InitPhase {
    /// Whether the run is over, successfully or not.  A terminal phase
    /// stands before no native call.
    pub open spec fn is_terminal(self) -> bool {
        self is Complete || self is Failed
    }

    /// The phase after the library-init step returned `ok`.
    pub open spec fn spec_on_library_init(self, ok: bool) -> InitPhase {
        if ok {
            InitPhase::LibraryReady
        } else {
            InitPhase::Failed
        }
    }

    /// Advances past the library-init step: failure is terminal.
    pub fn on_library_init(self, ok: bool) -> (r: InitPhase)
        requires
            self is Start,
        ensures
            r == self.spec_on_library_init(ok),
    {
        if ok {
            InitPhase::LibraryReady
        } else {
            InitPhase::Failed
        }
    }

    /// The phase after the window-creation step returned the raw
    /// reference `raw`.
    pub open spec fn spec_on_window_created(self, raw: usize) -> InitPhase {
        if raw == 0 {
            InitPhase::Failed
        } else {
            InitPhase::WindowReady(SDL3WindowWrapper::spec_wrap(raw))
        }
    }

    /// Advances past the window-creation step: a null reference is
    /// terminal failure, a non-null one is wrapped and held.
    pub fn on_window_created(self, raw: usize) -> (r: InitPhase)
        requires
            self is LibraryReady,
        ensures
            r == self.spec_on_window_created(raw),
    {
        match SDL3WindowWrapper::wrap(raw) {
            Some(window) => InitPhase::WindowReady(window),
            None => InitPhase::Failed,
        }
    }

    /// The phase after the renderer-creation step returned the raw
    /// reference `raw`.
    pub open spec fn spec_on_renderer_created(self, raw: usize) -> InitPhase {
        if raw == 0 {
            InitPhase::Failed
        } else {
            InitPhase::Complete(
                ApplicationState {
                    current_state: AppResult::Continue,
                    sdl3: SDL3Wrapper {  },
                    window: self->WindowReady_0,
                    renderer: SDL3RendererWrapper::spec_wrap(raw),
                },
            )
        }
    }

    /// Advances past the renderer-creation step: a null reference is
    /// terminal failure; a non-null one completes the run with a state
    /// holding both handles and the `Continue` result.
    pub fn on_renderer_created(self, raw: usize) -> (r: InitPhase)
        requires
            self is WindowReady,
        ensures
            r == self.spec_on_renderer_created(raw),
    {
        match self {
            InitPhase::WindowReady(window) => match SDL3RendererWrapper::wrap(raw) {
                Some(renderer) => InitPhase::Complete(
                    ApplicationState {
                        current_state: AppResult::Continue,
                        sdl3: SDL3Wrapper {  },
                        window,
                        renderer,
                    },
                ),
                None => InitPhase::Failed,
            },
            _ => {
                proof {
                    assert(false);
                }
                InitPhase::Failed
            },
        }
    }
}

/// The phase an initialization run reaches from the three raw outcomes,
/// taking each step only while no earlier step has failed.
pub open spec fn spec_init_run(ok: bool, wraw: usize, rraw: usize) -> InitPhase {
    let after_init = InitPhase::Start.spec_on_library_init(ok);
    if after_init is Failed {
        after_init
    } else {
        let after_window = after_init.spec_on_window_created(wraw);
        if after_window is Failed {
            after_window
        } else {
            after_window.spec_on_renderer_created(rraw)
        }
    }
}

/// Law: initialization is all-or-nothing and short-circuits.  The run
/// completes exactly when all three steps succeed, and then holds the two
/// wrapped references and the `Continue` result; any failed step ends the
/// run in the terminal `Failed` phase, the steps after a failure never
/// being taken — a failed library init stops the run at that step, and a
/// null window stops it before the renderer step.
pub proof fn lemma_init_short_circuit(ok: bool, wraw: usize, rraw: usize)
    ensures
        spec_init_run(ok, wraw, rraw) is Complete <==> (ok && wraw != 0 && rraw != 0),
        !(ok && wraw != 0 && rraw != 0) ==> spec_init_run(ok, wraw, rraw) is Failed,
        !ok ==> spec_init_run(ok, wraw, rraw) == InitPhase::Start.spec_on_library_init(ok),
        ok && wraw == 0 ==> spec_init_run(ok, wraw, rraw)
            == InitPhase::LibraryReady.spec_on_window_created(wraw),
        spec_init_run(ok, wraw, rraw) matches InitPhase::Complete(s) ==> s.current_state
            is Continue && s.window.addr() == wraw && s.renderer.addr() == rraw,
        spec_init_run(ok, wraw, rraw).is_terminal(),
{
    if wraw != 0 {
        SDL3WindowWrapper::lemma_wrap_identity(wraw);
    }
    if rraw != 0 {
        SDL3RendererWrapper::lemma_wrap_identity(rraw);
    }
}

} // verus!
