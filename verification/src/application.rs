//! The life of an application: the window class is registered once, then the
//! message loop runs until it is told to stop or the platform ends it.
//!
//! The loop itself is the caller's: it retrieves and dispatches messages, and
//! asks the application after each step what to do next.

use crate::builder::FRAME_CLASS;
use crate::platform::{
    PlatformError, Request, RequestView, COLOR_WINDOW, CS_DBLCLKS, CS_HREDRAW, CS_VREDRAW,
};
use crate::text::{to_wchar, wide};
use vstd::prelude::*;

verus! {

/// Whether the message loop runs.
#[derive(Clone, Copy, Debug, PartialEq, Eq, Structural)]
pub enum LoopState {
    /// The loop was not entered yet.
    Idle,
    /// The loop retrieves and dispatches messages.
    Running,
    /// The loop has returned.
    Stopped,
}

/// Where an application stands in its life.
#[derive(Clone, Copy, Debug, PartialEq, Eq, Structural)]
pub enum Phase {
    Uninitialized,
    Registered,
    Running,
    Stopped,
}

/// What happened in the message loop.
#[derive(Clone, Copy, Debug, PartialEq, Eq, Structural)]
pub enum LoopEvent {
    /// The platform handed out a message, or, with the status zero, signalled
    /// shutdown.
    Retrieved { status: i32 },
    /// The message was translated and dispatched, and every handler that it
    /// reached has returned.
    Dispatched,
}

/// What the message loop is to do next.
#[derive(Clone, Copy, Debug, PartialEq, Eq, Structural)]
pub enum LoopAction {
    /// Wait for the next message.
    Retrieve,
    /// Translate and dispatch the message that was retrieved.
    Dispatch,
    /// Leave the loop.
    Return,
}

/// The state of an application.
pub struct AppState {
    pub class_registered: bool,
    pub looping: LoopState,
    pub continue_loop: bool,
}

/// The style of the toolkit's window class.
pub open spec fn class_style() -> u32 {
    CS_HREDRAW | CS_VREDRAW | CS_DBLCLKS
}

/// The request that registers the window class `class_name`.
pub open spec fn registration(class_name: Seq<char>) -> RequestView {
    RequestView::RegisterClass {
        style: class_style(),
        class_name: wide(class_name),
        background: COLOR_WINDOW,
    }
}

/// The phase that a state belongs to.
pub open spec fn phase_of(state: AppState) -> Phase {
    match state.looping {
        LoopState::Running => Phase::Running,
        LoopState::Stopped => Phase::Stopped,
        LoopState::Idle => if state.class_registered {
            Phase::Registered
        } else {
            Phase::Uninitialized
        },
    }
}

/// The state in which the loop is entered: it runs, and is to continue.
pub open spec fn entered(state: AppState) -> AppState {
    AppState { looping: LoopState::Running, continue_loop: true, ..state }
}

/// The state after a request to leave the loop: the loop is not to continue.
/// Nothing else changes: a dispatch that is under way is not cut short.
pub open spec fn exit_requested(state: AppState) -> AppState {
    AppState { continue_loop: false, ..state }
}

/// One step of the message loop.
///
/// A loop that does not run is left. After a message was retrieved it is
/// dispatched, unless the platform signalled shutdown, which stops the loop.
/// After a dispatch the loop looks once at whether it is to continue: if so it
/// waits for the next message, if not it stops.
pub open spec fn stepped(state: AppState, event: LoopEvent) -> (AppState, LoopAction) {
    if state.looping != LoopState::Running {
        (state, LoopAction::Return)
    } else {
        match event {
            LoopEvent::Retrieved { status } => if status == 0 {
                (AppState { looping: LoopState::Stopped, ..state }, LoopAction::Return)
            } else {
                (state, LoopAction::Dispatch)
            },
            LoopEvent::Dispatched => if state.continue_loop {
                (state, LoopAction::Retrieve)
            } else {
                (AppState { looping: LoopState::Stopped, ..state }, LoopAction::Return)
            },
        }
    }
}

/// The process-wide state of the toolkit.
pub struct Application {
    class_registered: bool,
    looping: LoopState,
    continue_loop: bool,
}

impl View for Application {
    type V = AppState;

    closed spec fn view(&self) -> AppState {
        AppState {
            class_registered: self.class_registered,
            looping: self.looping,
            continue_loop: self.continue_loop,
        }
    }
}

impl Application {
    /// An application on which nothing has happened yet.
    pub fn new() -> (app: Application)
        ensures
            app@ == (AppState {
                class_registered: false,
                looping: LoopState::Idle,
                continue_loop: false,
            }),
    {
        Application { class_registered: false, looping: LoopState::Idle, continue_loop: false }
    }

    /// Where the application stands.
    pub fn phase(&self) -> (phase: Phase)
        ensures
            phase == phase_of(self@),
    {
        match self.looping {
            LoopState::Running => Phase::Running,
            LoopState::Stopped => Phase::Stopped,
            LoopState::Idle => if self.class_registered {
                Phase::Registered
            } else {
                Phase::Uninitialized
            },
        }
    }

    /// Initializes the toolkit: the first call hands out the request that
    /// registers the class of frame windows, every later call nothing, so
    /// that the class is registered exactly once.
    pub fn init(&mut self) -> (request: Option<Request>)
        ensures
            final(self)@ == (AppState { class_registered: true, ..old(self)@ }),
            request is Some <==> !old(self)@.class_registered,
            request matches Some(r) ==> r@ == registration(FRAME_CLASS@),
    {
        if self.class_registered {
            None
        } else {
            self.class_registered = true;
            Some(Application::register_class(FRAME_CLASS))
        }
    }

    /// What came of asking the platform for the handle of the running module:
    /// the handle, or, where the platform gave null, the failure with the
    /// error code that it reported.
    pub fn get_instance(raw: usize, last_error: u32) -> (instance: Result<usize, PlatformError>)
        ensures
            instance == (if raw != 0 {
                Ok::<usize, PlatformError>(raw)
            } else {
                Err::<usize, PlatformError>(PlatformError::ModuleHandle { code: last_error })
            }),
    {
        if raw != 0 {
            Ok(raw)
        } else {
            Err(PlatformError::ModuleHandle { code: last_error })
        }
    }

    /// The request that registers the window class `class_name`: its windows
    /// are redrawn when their size changes, take double clicks and have the
    /// system's window colour as background.
    pub fn register_class(class_name: &str) -> (request: Request)
        ensures
            request@ == registration(class_name@),
    {
        Request::RegisterClass {
            style: CS_HREDRAW | CS_VREDRAW | CS_DBLCLKS,
            class_name: to_wchar(class_name),
            background: COLOR_WINDOW,
        }
    }

    /// What came of a registration: nothing to report where the platform gave
    /// an atom for the class, the failure with the error code that it
    /// reported where it gave zero.
    pub fn class_registered(atom: u16, last_error: u32) -> (outcome: Result<(), PlatformError>)
        ensures
            outcome == (if atom != 0 {
                Ok::<(), PlatformError>(())
            } else {
                Err::<(), PlatformError>(PlatformError::RegisterClass { code: last_error })
            }),
    {
        if atom != 0 {
            Ok(())
        } else {
            Err(PlatformError::RegisterClass { code: last_error })
        }
    }

    /// Enters the message loop. The loop starts by waiting for a message,
    /// whatever was asked of an earlier loop.
    pub fn main_loop(&mut self) -> (action: LoopAction)
        ensures
            final(self)@ == entered(old(self)@),
            action == LoopAction::Retrieve,
    {
        self.continue_loop = true;
        self.looping = LoopState::Running;
        LoopAction::Retrieve
    }

    /// Takes the message loop one step further: told what happened, it says
    /// what to do next.
    pub fn step(&mut self, event: LoopEvent) -> (action: LoopAction)
        ensures
            (final(self)@, action) == stepped(old(self)@, event),
    {
        match self.looping {
            LoopState::Running => {
                let goes_on = match event {
                    LoopEvent::Retrieved { status } => status != 0,
                    LoopEvent::Dispatched => self.continue_loop,
                };
                if !goes_on {
                    self.looping = LoopState::Stopped;
                    LoopAction::Return
                } else {
                    match event {
                        LoopEvent::Retrieved { .. } => LoopAction::Dispatch,
                        LoopEvent::Dispatched => LoopAction::Retrieve,
                    }
                }
            },
            _ => LoopAction::Return,
        }
    }

    /// Asks the message loop to return. The loop sees the request when it
    /// next looks, after the dispatch that is under way.
    pub fn exit_loop(&mut self)
        ensures
            final(self)@ == exit_requested(old(self)@),
    {
        self.continue_loop = false;
    }
}

/// The style of the window class as a number.
pub proof fn lemma_class_style()
    ensures
        class_style() == 0x000B,
{
    assert(0x0002u32 | 0x0001u32 | 0x0008u32 == 0x000Bu32) by (bit_vector);
}

/// A request to leave the loop that is made while a message is dispatched
/// leaves the loop running until that dispatch is done, and makes the loop
/// return at its next step instead of waiting for another message.
pub proof fn lemma_exit_after_dispatch(state: AppState)
    requires
        state.looping == LoopState::Running,
    ensures
        exit_requested(state).looping == LoopState::Running,
        stepped(exit_requested(state), LoopEvent::Dispatched).1 == LoopAction::Return,
        stepped(exit_requested(state), LoopEvent::Dispatched).0.looping == LoopState::Stopped,
{
}

/// Without a request to leave, a running loop that was entered goes on: it
/// dispatches every message that the platform hands out and then waits for
/// the next, and returns only when the platform signals shutdown.
pub proof fn lemma_loop_goes_on(state: AppState, status: i32)
    requires
        state.looping == LoopState::Running,
        state.continue_loop,
    ensures
        stepped(state, LoopEvent::Dispatched) == (state, LoopAction::Retrieve),
        status != 0 ==> stepped(state, LoopEvent::Retrieved { status }) == (
            state,
            LoopAction::Dispatch,
        ),
        stepped(state, LoopEvent::Retrieved { status: 0 }).1 == LoopAction::Return,
{
}

} // verus!
