//! Events: what a raw platform message means, and the handler that reacts to
//! it.
//!
//! A message is a numeric code with two word-sized parameters. Decoding takes
//! the sub-fields that the code's layout prescribes out of the parameters and
//! names the event. A handler overrides the callbacks it cares about; the
//! others leave it unchanged.

use crate::platform::{
    low_bits, signed_low_bits, unsigned_low_bits, Handle, WM_CLOSE, WM_COMMAND, WM_DESTROY,
    WM_LBUTTONDOWN, WM_LBUTTONUP, WM_MOUSEMOVE, WM_MOVE, WM_RBUTTONDOWN, WM_RBUTTONUP, WM_SIZE,
};
use vstd::prelude::*;

verus! {

/// The low 16 bits of a double word.
pub open spec fn low_word(l: u32) -> u16 {
    (l % 0x1_0000) as u16
}

/// The high 16 bits of a double word.
pub open spec fn high_word(l: u32) -> u16 {
    (l / 0x1_0000) as u16
}

/// A word read as a signed number in two's complement.
pub open spec fn signed_word(w: u16) -> i32 {
    if w < 0x8000 {
        w as i32
    } else {
        (w - 0x1_0000) as i32
    }
}

/// The horizontal coordinate in a message parameter: its low word, signed.
pub open spec fn x_of(l_param: isize) -> i32 {
    signed_word(low_word(low_bits(l_param as int)))
}

/// The vertical coordinate in a message parameter: its high word, signed.
pub open spec fn y_of(l_param: isize) -> i32 {
    signed_word(high_word(low_bits(l_param as int)))
}

/// The low word of `l`.
pub fn loword(l: u32) -> (w: u16)
    ensures
        w == low_word(l),
{
    assert(l & 0xffff == l % 0x1_0000) by (bit_vector);
    (l & 0xffff) as u16
}

/// The high word of `l`.
pub fn hiword(l: u32) -> (w: u16)
    ensures
        w == high_word(l),
{
    assert((l >> 16) & 0xffff == l / 0x1_0000) by (bit_vector);
    ((l >> 16) & 0xffff) as u16
}

/// The signed reading of a word.
fn signed(w: u16) -> (v: i32)
    ensures
        v == signed_word(w),
{
    if w < 0x8000 {
        w as i32
    } else {
        w as i32 - 0x1_0000
    }
}

/// The horizontal coordinate that a mouse or move message carries.
pub fn get_x_lparam(l_param: isize) -> (x: i32)
    ensures
        x == x_of(l_param),
{
    signed(loword(signed_low_bits(l_param)))
}

/// The vertical coordinate that a mouse or move message carries.
pub fn get_y_lparam(l_param: isize) -> (y: i32)
    ensures
        y == y_of(l_param),
{
    signed(hiword(signed_low_bits(l_param)))
}

/// A platform message, decoded.
#[derive(Clone, Copy, Debug, PartialEq, Eq, Structural)]
pub enum Event {
    /// The window's client area now has this size.
    Size { width: u16, height: u16 },
    /// A control or menu item with the identifier `source_id` sent a
    /// notification.
    Command { source_id: u16, command_type: u16 },
    /// The window moved to this position.
    Move { x: i32, y: i32 },
    MouseMove { x: i32, y: i32 },
    LeftMouseDown { x: i32, y: i32 },
    LeftMouseUp { x: i32, y: i32 },
    RightMouseDown { x: i32, y: i32 },
    RightMouseUp { x: i32, y: i32 },
    /// The user asked to close the window.
    Close,
    /// The window is being destroyed.
    Destroy,
    /// The timer `id` of `window` fired.
    Timer { window: Handle, id: usize },
}

/// The event that a message stands for; none for a message whose code is
/// none of those that are dispatched.
///
/// A size message carries width and height in the low and high word of its
/// second parameter; a command its source and notification code in the low
/// and high word of its first; mouse and move messages their coordinates as
/// the signed low and high word of the second.
pub open spec fn decode_event(message: u32, w_param: usize, l_param: isize) -> Option<Event> {
    let w = low_bits(w_param as int);
    let l = low_bits(l_param as int);
    let x = x_of(l_param);
    let y = y_of(l_param);
    if message == WM_SIZE {
        Some(Event::Size { width: low_word(l), height: high_word(l) })
    } else if message == WM_COMMAND {
        Some(Event::Command { source_id: low_word(w), command_type: high_word(w) })
    } else if message == WM_MOUSEMOVE {
        Some(Event::MouseMove { x, y })
    } else if message == WM_RBUTTONDOWN {
        Some(Event::RightMouseDown { x, y })
    } else if message == WM_RBUTTONUP {
        Some(Event::RightMouseUp { x, y })
    } else if message == WM_LBUTTONDOWN {
        Some(Event::LeftMouseDown { x, y })
    } else if message == WM_LBUTTONUP {
        Some(Event::LeftMouseUp { x, y })
    } else if message == WM_MOVE {
        Some(Event::Move { x, y })
    } else if message == WM_CLOSE {
        Some(Event::Close)
    } else if message == WM_DESTROY {
        Some(Event::Destroy)
    } else {
        None
    }
}

impl Event {
    /// Decodes a message.
    pub fn decode(message: u32, w_param: usize, l_param: isize) -> (event: Option<Event>)
        ensures
            event == decode_event(message, w_param, l_param),
    {
        if message == WM_SIZE {
            let l = signed_low_bits(l_param);
            Some(Event::Size { width: loword(l), height: hiword(l) })
        } else if message == WM_COMMAND {
            let w = unsigned_low_bits(w_param);
            Some(Event::Command { source_id: loword(w), command_type: hiword(w) })
        } else if message == WM_CLOSE {
            Some(Event::Close)
        } else if message == WM_DESTROY {
            Some(Event::Destroy)
        } else {
            let x = get_x_lparam(l_param);
            let y = get_y_lparam(l_param);
            if message == WM_MOUSEMOVE {
                Some(Event::MouseMove { x, y })
            } else if message == WM_RBUTTONDOWN {
                Some(Event::RightMouseDown { x, y })
            } else if message == WM_RBUTTONUP {
                Some(Event::RightMouseUp { x, y })
            } else if message == WM_LBUTTONDOWN {
                Some(Event::LeftMouseDown { x, y })
            } else if message == WM_LBUTTONUP {
                Some(Event::LeftMouseUp { x, y })
            } else if message == WM_MOVE {
                Some(Event::Move { x, y })
            } else {
                None
            }
        }
    }
}

/// The callbacks of a window. Every callback has a default that ignores the
/// event, so a handler overrides only those it needs.
pub trait WindowEventHandler: Sized {
    /// The changes that this handler makes to itself when it reacts to
    /// `event`. A handler that does not say is free to change in any way.
    open spec fn reacts(&self, event: Event, after: &Self) -> bool {
        true
    }

    fn on_command(&mut self, source_id: u16, command_type: u16)
        ensures
            *final(self) == *old(self) || old(self).reacts(
                Event::Command { source_id, command_type },
                final(self),
            ),
    {
    }

    fn on_size(&mut self, width: u16, height: u16)
        ensures
            *final(self) == *old(self) || old(self).reacts(
                Event::Size { width, height },
                final(self),
            ),
    {
    }

    fn on_move(&mut self, x: i32, y: i32)
        ensures
            *final(self) == *old(self) || old(self).reacts(
                Event::Move { x, y },
                final(self),
            ),
    {
    }

    fn on_mouse_move(&mut self, x: i32, y: i32)
        ensures
            *final(self) == *old(self) || old(self).reacts(
                Event::MouseMove { x, y },
                final(self),
            ),
    {
    }

    fn on_right_mouse_down(&mut self, x: i32, y: i32)
        ensures
            *final(self) == *old(self) || old(self).reacts(
                Event::RightMouseDown { x, y },
                final(self),
            ),
    {
    }

    fn on_right_mouse_up(&mut self, x: i32, y: i32)
        ensures
            *final(self) == *old(self) || old(self).reacts(
                Event::RightMouseUp { x, y },
                final(self),
            ),
    {
    }

    fn on_left_mouse_down(&mut self, x: i32, y: i32)
        ensures
            *final(self) == *old(self) || old(self).reacts(
                Event::LeftMouseDown { x, y },
                final(self),
            ),
    {
    }

    fn on_left_mouse_up(&mut self, x: i32, y: i32)
        ensures
            *final(self) == *old(self) || old(self).reacts(
                Event::LeftMouseUp { x, y },
                final(self),
            ),
    {
    }

    fn on_close(&mut self)
        ensures
            *final(self) == *old(self) || old(self).reacts(
                Event::Close,
                final(self),
            ),
    {
    }

    fn on_destroy(&mut self)
        ensures
            *final(self) == *old(self) || old(self).reacts(
                Event::Destroy,
                final(self),
            ),
    {
    }

    fn on_timer(&mut self, window: Handle, id: usize)
        ensures
            *final(self) == *old(self) || old(self).reacts(
                Event::Timer { window, id },
                final(self),
            ),
    {
    }

    /// Tells the handler of `event` through the callback that belongs to it.
    fn deliver(&mut self, event: Event)
        ensures
            *final(self) == *old(self) || old(self).reacts(event, final(self)),
    {
        match event {
            Event::Size { width, height } => self.on_size(width, height),
            Event::Command { source_id, command_type } => self.on_command(source_id, command_type),
            Event::Move { x, y } => self.on_move(x, y),
            Event::MouseMove { x, y } => self.on_mouse_move(x, y),
            Event::LeftMouseDown { x, y } => self.on_left_mouse_down(x, y),
            Event::LeftMouseUp { x, y } => self.on_left_mouse_up(x, y),
            Event::RightMouseDown { x, y } => self.on_right_mouse_down(x, y),
            Event::RightMouseUp { x, y } => self.on_right_mouse_up(x, y),
            Event::Close => self.on_close(),
            Event::Destroy => self.on_destroy(),
            Event::Timer { window, id } => self.on_timer(window, id),
        }
    }

    /// Dispatches a raw message sent to `window`: decodes it and calls the
    /// callback of the event it stands for. Returns whether the message was
    /// handled; one that was not is left to the platform's default
    /// processing, and leaves the handler untouched.
    fn on_event(
        &mut self,
        window: Handle,
        message: u32,
        w_param: usize,
        l_param: isize,
    ) -> (handled: bool)
        ensures
            handled == decode_event(message, w_param, l_param) is Some,
            match decode_event(message, w_param, l_param) {
                Some(event) => *final(self) == *old(self) || old(self).reacts(
                    event,
                    final(self),
                ),
                None => *final(self) == *old(self),
            },
    {
        match Event::decode(message, w_param, l_param) {
            Some(event) => {
                self.deliver(event);
                true
            },
            None => false,
        }
    }
}

/// What a callback may do to its handler when it is told of `event`: leave it
/// as it was, or change it in a way that the handler declares as its reaction
/// to that very event.
pub open spec fn reaction<H: WindowEventHandler>(before: H, event: Event, after: H) -> bool {
    after == before || before.reacts(event, &after)
}

} // verus!
