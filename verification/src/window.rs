//! What every window can do: be shown and hidden, moved, given and asked for
//! its text, run timers and show message boxes.
//!
//! An operation that only tells the platform something returns the request to
//! carry out. One that asks for something comes in two parts: the request, and
//! a function with the suffix `_reply` that reads the platform's answer.

use crate::platform::{
    as_signed, low_bits, reply_value, unsigned_low_bits, Handle, Payload, PayloadView, Request,
    RequestView, IDOK, IDYES, MB_ICONERROR, MB_ICONINFORMATION, MB_ICONQUESTION, MB_OK,
    MB_OKCANCEL, MB_YESNO, SW_HIDE, SW_SHOW, WM_GETTEXT, WM_GETTEXTLENGTH, WM_SETTEXT,
};
use crate::text::{decoded, from_wchar, lemma_decoded_utf16, to_wchar, utf16, wide};
use vstd::prelude::*;
use vstd::slice::slice_subrange;

verus! {

/// A message without text or buffer.
pub open spec fn plain_message(window: Handle, message: u32, w_param: usize) -> RequestView {
    RequestView::SendMessage { window, message, w_param, l_param: PayloadView::Value(0) }
}

/// A message that carries `text`, encoded for the platform.
pub open spec fn text_message(window: Handle, message: u32, text: Seq<char>) -> RequestView {
    RequestView::SendMessage { window, message, w_param: 0, l_param: PayloadView::Text(wide(text)) }
}

/// A message box on `window`.
pub open spec fn message_box_request(
    window: Handle,
    text: Seq<char>,
    caption: Seq<char>,
    flags: u32,
) -> RequestView {
    RequestView::MessageBox { window, text: wide(text), caption: wide(caption), flags }
}

/// The text in a buffer that the platform filled: what the units before the
/// terminator, which closes the buffer, decode to.
pub open spec fn fetched_text(buffer: Seq<u16>) -> Option<Seq<char>> {
    if buffer.len() == 0 {
        decoded(buffer)
    } else {
        decoded(buffer.drop_last())
    }
}

/// A message without text or buffer.
pub fn send(window: Handle, message: u32, w_param: usize) -> (request: Request)
    ensures
        request@ == plain_message(window, message, w_param),
{
    Request::SendMessage { window, message, w_param, l_param: Payload::Value(0) }
}

/// A message that carries `text`.
pub fn send_text(window: Handle, message: u32, text: &str) -> (request: Request)
    ensures
        request@ == text_message(window, message, text@),
{
    Request::SendMessage { window, message, w_param: 0, l_param: Payload::Text(to_wchar(text)) }
}

/// Anything that stands for a native window.
pub trait Window {
    /// The window that this value stands for.
    spec fn hwnd(&self) -> Handle;

    fn get_hwnd(&self) -> (window: Handle)
        ensures
            window == self.hwnd(),
    ;

    /// Makes the window visible.
    fn show(&self) -> (request: Request)
        ensures
            request@ == (RequestView::ShowWindow { window: self.hwnd(), command: SW_SHOW }),
    {
        Request::ShowWindow { window: self.get_hwnd(), command: SW_SHOW }
    }

    /// Hides the window.
    fn hide_window(&self) -> (request: Request)
        ensures
            request@ == (RequestView::ShowWindow { window: self.hwnd(), command: SW_HIDE }),
    {
        Request::ShowWindow { window: self.get_hwnd(), command: SW_HIDE }
    }

    /// Moves the window to `x`, `y` and gives it the size `width` by
    /// `height`; the window is painted anew.
    fn resize(&self, x: i32, y: i32, width: i32, height: i32) -> (request: Request)
        ensures
            request@ == (RequestView::MoveWindow {
                window: self.hwnd(),
                x,
                y,
                width,
                height,
                repaint: true,
            }),
    {
        Request::MoveWindow { window: self.get_hwnd(), x, y, width, height, repaint: true }
    }

    /// Asks for the length of the window's text, in code units.
    fn get_text_length(&self) -> (request: Request)
        ensures
            request@ == plain_message(self.hwnd(), WM_GETTEXTLENGTH, 0),
    {
        send(self.get_hwnd(), WM_GETTEXTLENGTH, 0)
    }

    /// The length that the platform answered.
    fn get_text_length_reply(&self, reply: isize) -> (length: i32)
        ensures
            length == as_signed(low_bits(reply as int)),
            i32::MIN <= reply <= i32::MAX ==> length == reply,
    {
        reply_value(reply)
    }

    /// Sets the window's text.
    fn set_text(&self, txt: &str) -> (request: Request)
        ensures
            request@ == text_message(self.hwnd(), WM_SETTEXT, txt@),
    {
        send_text(self.get_hwnd(), WM_SETTEXT, txt)
    }

    /// Asks for the window's text, which is `length` code units long: the
    /// platform is to fill a buffer of exactly one unit more, for the
    /// terminator that it adds. There is no such request for a negative
    /// length, nor for one that leaves no room for the terminator.
    fn get_text(&self, length: i32) -> (request: Option<Request>)
        ensures
            request is Some <==> 0 <= length < i32::MAX,
            request matches Some(r) ==> r@ == (RequestView::SendMessage {
                window: self.hwnd(),
                message: WM_GETTEXT,
                w_param: (length + 1) as usize,
                l_param: PayloadView::Buffer((length + 1) as usize),
            }),
    {
        if 0 <= length && length < i32::MAX {
            let size: usize = (length + 1) as usize;
            Some(
                Request::SendMessage {
                    window: self.get_hwnd(),
                    message: WM_GETTEXT,
                    w_param: size,
                    l_param: Payload::Buffer(size),
                },
            )
        } else {
            None
        }
    }

    /// The text in the buffer that the platform filled, without the
    /// terminator; none where the buffer holds no well-formed text.
    fn get_text_reply(&self, buffer: &[u16]) -> (text: Option<String>)
        ensures
            match text {
                Some(s) => fetched_text(buffer@) == Some(s@),
                None => fetched_text(buffer@) is None,
            },
    {
        let n = buffer.len();
        if n == 0 {
            from_wchar(buffer)
        } else {
            from_wchar(slice_subrange(buffer, 0, n - 1))
        }
    }

    /// Starts the timer `id`, which fires every `interval` milliseconds. Of
    /// the interval the platform takes the low 32 bits.
    fn set_timer(&self, id: usize, interval: usize) -> (request: Request)
        ensures
            request@ == (RequestView::SetTimer {
                window: self.hwnd(),
                timer: id,
                interval: low_bits(interval as int),
            }),
    {
        Request::SetTimer {
            window: self.get_hwnd(),
            timer: id,
            interval: unsigned_low_bits(interval),
        }
    }

    /// Stops the timer `id`.
    fn kill_timer(&self, id: usize) -> (request: Request)
        ensures
            request@ == (RequestView::KillTimer { window: self.hwnd(), timer: id }),
    {
        Request::KillTimer { window: self.get_hwnd(), timer: id }
    }

    /// Shows `msg` in a box with an OK button.
    fn message_box(&self, msg: &str) -> (request: Request)
        ensures
            request@ == message_box_request(self.hwnd(), msg@, "Message"@, MB_OK),
    {
        Request::MessageBox {
            window: self.get_hwnd(),
            text: to_wchar(msg),
            caption: to_wchar("Message"),
            flags: MB_OK,
        }
    }

    /// Shows `msg` in a box with an OK button and the error icon.
    fn error_box(&self, msg: &str) -> (request: Request)
        ensures
            request@ == message_box_request(self.hwnd(), msg@, "Error"@, MB_OK | MB_ICONERROR),
    {
        Request::MessageBox {
            window: self.get_hwnd(),
            text: to_wchar(msg),
            caption: to_wchar("Error"),
            flags: MB_OK | MB_ICONERROR,
        }
    }

    /// Asks the question `msg` in a box with the buttons Yes and No.
    fn question_box(&self, msg: &str) -> (request: Request)
        ensures
            request@ == message_box_request(
                self.hwnd(),
                msg@,
                "Question"@,
                MB_YESNO | MB_ICONQUESTION,
            ),
    {
        Request::MessageBox {
            window: self.get_hwnd(),
            text: to_wchar(msg),
            caption: to_wchar("Question"),
            flags: MB_YESNO | MB_ICONQUESTION,
        }
    }

    /// Whether the user chose Yes.
    fn question_box_reply(&self, choice: i32) -> (yes: bool)
        ensures
            yes == (choice == IDYES),
    {
        choice == IDYES
    }

    /// Asks for confirmation of `msg` in a box with the buttons OK and
    /// Cancel.
    fn confirm_box(&self, msg: &str) -> (request: Request)
        ensures
            request@ == message_box_request(
                self.hwnd(),
                msg@,
                "Confirm"@,
                MB_OKCANCEL | MB_ICONINFORMATION,
            ),
    {
        Request::MessageBox {
            window: self.get_hwnd(),
            text: to_wchar(msg),
            caption: to_wchar("Confirm"),
            flags: MB_OKCANCEL | MB_ICONINFORMATION,
        }
    }

    /// Whether the user chose OK.
    fn confirm_box_reply(&self, choice: i32) -> (ok: bool)
        ensures
            ok == (choice == IDOK),
    {
        choice == IDOK
    }
}

impl Window for Handle {
    open spec fn hwnd(&self) -> Handle {
        *self
    }

    fn get_hwnd(&self) -> (window: Handle) {
        *self
    }
}

/// The flags of the four message boxes as numbers.
pub proof fn lemma_message_box_flags()
    ensures
        MB_OK | MB_ICONERROR == 0x10,
        MB_YESNO | MB_ICONQUESTION == 0x24,
        MB_OKCANCEL | MB_ICONINFORMATION == 0x41,
{
    assert(0x0u32 | 0x10u32 == 0x10u32) by (bit_vector);
    assert(0x4u32 | 0x20u32 == 0x24u32) by (bit_vector);
    assert(0x1u32 | 0x40u32 == 0x41u32) by (bit_vector);
}

/// Text that was set is the text that is fetched: the buffer that holds what
/// `txt` was encoded to yields `txt` again.
pub proof fn lemma_text_round_trip(txt: Seq<char>)
    ensures
        fetched_text(wide(txt)) == Some(txt),
{
    lemma_decoded_utf16(txt);
    assert(wide(txt).drop_last() =~= utf16(txt));
}

} // verus!
