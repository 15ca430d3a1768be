//! The handler registry: it binds windows to the handlers of their events, so
//! that the one callback through which the platform delivers every message
//! can find the handler by the window alone.
//!
//! The registry owns the handlers. A window has at most one; attaching
//! another replaces it. A binding ends when it is detached or when its window
//! is destroyed, so no message ever reaches a handler of a window that is
//! gone.

use crate::event::{decode_event, reaction, Event, WindowEventHandler};
use crate::platform::{Handle, WM_DESTROY};
use std::collections::HashMap;
use vstd::prelude::*;

verus! {

/// What the dispatch callback is to answer the platform.
#[derive(Clone, Copy, Debug, PartialEq, Eq, Structural)]
pub enum Disposition {
    /// The message was handled: the answer is zero.
    Handled,
    /// The message is left to the platform's default processing, and the
    /// answer is what that gives.
    Default,
}

/// What a message to `window` does to the bindings `before`, and what is
/// answered.
///
/// A window without a handler, and a message that stands for no event, change
/// nothing and are left to the platform. Otherwise the handler of the window
/// reacts to the event, and the message counts as handled. The handler that
/// learns of its window's destruction is released with it.
pub open spec fn dispatched<H: WindowEventHandler>(
    before: Map<usize, H>,
    window: Handle,
    message: u32,
    w_param: usize,
    l_param: isize,
    after: Map<usize, H>,
    disposition: Disposition,
) -> bool {
    if !before.contains_key(window@) {
        after == before && disposition == Disposition::Default
    } else {
        match decode_event(message, w_param, l_param) {
            None => after == before && disposition == Disposition::Default,
            Some(Event::Destroy) => after == before.remove(window@) && disposition
                == Disposition::Handled,
            Some(event) => disposition == Disposition::Handled && exists|handler: H|
                #![trigger before.insert(window@, handler)]
                reaction(before[window@], event, handler) && after == before.insert(
                    window@,
                    handler,
                ),
        }
    }
}

/// What the firing of the timer `id` of `window` does to the bindings
/// `before`: the handler of the window, if it has one, reacts to it.
pub open spec fn timer_fired<H: WindowEventHandler>(
    before: Map<usize, H>,
    window: Handle,
    id: usize,
    after: Map<usize, H>,
) -> bool {
    if !before.contains_key(window@) {
        after == before
    } else {
        exists|handler: H|
            #![trigger before.insert(window@, handler)]
            reaction(before[window@], Event::Timer { window, id }, handler) && after
                == before.insert(window@, handler)
    }
}

/// The handlers of the windows of an application, by the value of the
/// window's handle.
pub struct Registry<H: WindowEventHandler> {
    bindings: HashMap<usize, H>,
}

impl<H: WindowEventHandler> View for Registry<H> {
    type V = Map<usize, H>;

    closed spec fn view(&self) -> Map<usize, H> {
        self.bindings@
    }
}

impl<H: WindowEventHandler> Registry<H> {
    /// A registry without bindings.
    pub fn new() -> (registry: Registry<H>)
        ensures
            registry@ == Map::<usize, H>::empty(),
    {
        Registry { bindings: HashMap::new() }
    }

    /// Binds `handler` to `window`. A handler that was bound to the window
    /// before is replaced and handed back.
    pub fn attach_event_handler(&mut self, window: Handle, handler: H) -> (replaced: Option<H>)
        ensures
            final(self)@ == old(self)@.insert(window@, handler),
            replaced == (if old(self)@.contains_key(window@) {
                Some(old(self)@[window@])
            } else {
                None::<H>
            }),
    {
        broadcast use vstd::std_specs::hash::group_hash_axioms;

        let key = window.raw();
        self.bindings.insert(key, handler)
    }

    /// Ends the binding of `window` and hands its handler back. A window
    /// without a handler is left as it is, so the call may be repeated.
    pub fn detach_event_handler(&mut self, window: Handle) -> (handler: Option<H>)
        ensures
            final(self)@ == old(self)@.remove(window@),
            handler == (if old(self)@.contains_key(window@) {
                Some(old(self)@[window@])
            } else {
                None::<H>
            }),
    {
        broadcast use vstd::std_specs::hash::group_hash_axioms;

        let key = window.raw();
        self.bindings.remove(&key)
    }

    /// The handler of `window`, if it has one.
    pub fn get_event_handler(&self, window: Handle) -> (handler: Option<&H>)
        ensures
            handler is Some <==> self@.contains_key(window@),
            handler matches Some(h) ==> *h == self@[window@],
    {
        broadcast use vstd::std_specs::hash::group_hash_axioms;

        let key = window.raw();
        self.bindings.get(&key)
    }

    /// The dispatch callback: delivers a message that the platform sends to
    /// `window`.
    pub fn wnd_proc(
        &mut self,
        window: Handle,
        message: u32,
        w_param: usize,
        l_param: isize,
    ) -> (disposition: Disposition)
        ensures
            dispatched(
                old(self)@,
                window,
                message,
                w_param,
                l_param,
                final(self)@,
                disposition,
            ),
    {
        broadcast use vstd::std_specs::hash::group_hash_axioms;

        let key = window.raw();
        let ghost before = self.bindings@;
        match self.bindings.remove(&key) {
            None => {
                assert(self.bindings@ =~= before);
                Disposition::Default
            },
            Some(mut handler) => {
                let handled = handler.on_event(window, message, w_param, l_param);
                if message != WM_DESTROY {
                    self.bindings.insert(key, handler);
                    assert(self.bindings@ =~= before.insert(key, handler));
                    if !handled {
                        assert(self.bindings@ =~= before);
                    }
                }
                if handled {
                    Disposition::Handled
                } else {
                    Disposition::Default
                }
            },
        }
    }

    /// The timer callback: tells the handler of `window`, if it has one, that
    /// the timer `id` fired.
    pub fn timer_proc(&mut self, window: Handle, message: u32, id: usize, time: u32)
        ensures
            timer_fired(old(self)@, window, id, final(self)@),
    {
        broadcast use vstd::std_specs::hash::group_hash_axioms;

        let key = window.raw();
        let ghost before = self.bindings@;
        match self.bindings.remove(&key) {
            None => {
                assert(self.bindings@ =~= before);
            },
            Some(mut handler) => {
                handler.on_timer(window, id);
                self.bindings.insert(key, handler);
                assert(self.bindings@ =~= before.insert(key, handler));
            },
        }
    }
}

/// A message to a window whose handler was detached is left to the platform
/// and touches no handler.
pub proof fn lemma_detached_falls_through<H: WindowEventHandler>(
    bindings: Map<usize, H>,
    window: Handle,
    message: u32,
    w_param: usize,
    l_param: isize,
    after: Map<usize, H>,
    disposition: Disposition,
)
    requires
        dispatched(bindings.remove(window@), window, message, w_param, l_param, after, disposition),
    ensures
        disposition == Disposition::Default,
        after == bindings.remove(window@),
{
}

/// Attaching a handler to a window and detaching it again leaves the
/// bindings as if no handler had ever been attached, so every message is
/// dispatched as it would have been then.
pub proof fn lemma_detach_undoes_attach<H: WindowEventHandler>(
    bindings: Map<usize, H>,
    window: Handle,
    handler: H,
)
    requires
        !bindings.contains_key(window@),
    ensures
        bindings.insert(window@, handler).remove(window@) == bindings,
{
    assert(bindings.insert(window@, handler).remove(window@) =~= bindings);
}

/// Detaching twice is detaching once.
pub proof fn lemma_detach_again<H: WindowEventHandler>(bindings: Map<usize, H>, window: Handle)
    ensures
        bindings.remove(window@).remove(window@) == bindings.remove(window@),
{
    assert(bindings.remove(window@).remove(window@) =~= bindings.remove(window@));
}

/// A message that is dispatched to one window leaves the handlers of all
/// other windows as they were.
pub proof fn lemma_others_untouched<H: WindowEventHandler>(
    bindings: Map<usize, H>,
    window: Handle,
    message: u32,
    w_param: usize,
    l_param: isize,
    after: Map<usize, H>,
    disposition: Disposition,
    other: Handle,
)
    requires
        dispatched(bindings, window, message, w_param, l_param, after, disposition),
        other@ != window@,
    ensures
        after.contains_key(other@) == bindings.contains_key(other@),
        bindings.contains_key(other@) ==> after[other@] == bindings[other@],
{
}

} // verus!
