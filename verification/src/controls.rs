//! The concrete windows: frame, button, checkbox, edit field and list box.
//!
//! `new` describes the window to create; `created` turns what the platform
//! answered into the control. The other operations are messages of the
//! control's class.

use crate::builder::{
    blank, button_style, checkbox_style, creation, frame_style, WindowBuilder, WindowSpec,
    FRAME_CLASS,
};
use crate::platform::{
    as_signed, low_bits, reply_value, Handle, PayloadView, PlatformError, Request, RequestView,
    BM_GETCHECK, BM_SETCHECK, BST_CHECKED, BST_UNCHECKED, EM_SETREADONLY, ES_AUTOVSCROLL,
    ES_LEFT, ES_MULTILINE, ES_WANTRETURN, LBS_HASSTRINGS, LBS_NOTIFY, LB_ADDSTRING,
    LB_DELETESTRING, LB_GETCOUNT, LB_GETCURSEL, LB_RESETCONTENT, LB_SETCURSEL, WM_SETTEXT,
    WS_CHILD, WS_EX_CLIENTEDGE, WS_VISIBLE, WS_VSCROLL,
};
use crate::window::{
    fetched_text, lemma_text_round_trip, plain_message, send, send_text, text_message, Window,
};
use vstd::prelude::*;
use vstd::string::*;

verus! {

/// The style of an edit field: a visible child, and where it holds several
/// lines, one that scrolls vertically and takes the return key.
pub open spec fn edit_style(multi_line: bool) -> u32 {
    if multi_line {
        WS_CHILD | WS_VISIBLE | WS_VSCROLL | ES_WANTRETURN | ES_LEFT | ES_MULTILINE
            | ES_AUTOVSCROLL
    } else {
        WS_CHILD | WS_VISIBLE
    }
}

/// The style of a list box: a visible child that scrolls vertically, holds
/// strings and tells its parent of what the user does.
pub open spec fn list_box_style() -> u32 {
    WS_VISIBLE | WS_VSCROLL | WS_CHILD | LBS_NOTIFY | LBS_HASSTRINGS
}

/// The styles of edit field and list box as numbers.
pub proof fn lemma_control_styles()
    ensures
        edit_style(false) == 0x5000_0000,
        edit_style(true) == 0x5020_1044,
        list_box_style() == 0x5020_0041,
{
    assert(0x4000_0000u32 | 0x1000_0000u32 == 0x5000_0000u32) by (bit_vector);
    assert(0x4000_0000u32 | 0x1000_0000u32 | 0x0020_0000u32 | 0x1000u32 | 0x0000u32 | 0x0004u32
        | 0x0040u32 == 0x5020_1044u32) by (bit_vector);
    assert(0x1000_0000u32 | 0x0020_0000u32 | 0x4000_0000u32 | 1u32 | 64u32 == 0x5020_0041u32)
        by (bit_vector);
}

/// The check state that is sent to a button.
pub open spec fn check_state(checked: bool) -> usize {
    if checked {
        BST_CHECKED
    } else {
        BST_UNCHECKED
    }
}

/// Whether a button that answers `reply` to the question for its check state
/// is checked.
pub open spec fn is_check_state(reply: isize) -> bool {
    reply == BST_CHECKED
}

/// A top-level window with a title bar and a sizing border.
pub struct Frame {
    window: Handle,
}

impl Window for Frame {
    closed spec fn hwnd(&self) -> Handle {
        self.window
    }

    fn get_hwnd(&self) -> (window: Handle) {
        self.window
    }
}

impl Frame {
    /// A frame with the title `title` and the size `width` by `height`, at a
    /// position that the platform chooses.
    pub fn new(title: &str, width: i32, height: i32) -> (request: Request)
        ensures
            request@ == creation(
                WindowSpec {
                    title: title@,
                    class_name: FRAME_CLASS@,
                    style: frame_style(),
                    extra_style: WS_EX_CLIENTEDGE,
                    width,
                    height,
                    ..blank()
                },
            ),
    {
        let mut builder = WindowBuilder::new();
        builder.frame(title).size(width, height).create()
    }

    /// What came of the creation request: the control for the window that
    /// the platform gave, or the failure with the platform's error code.
    pub fn created(raw: usize, last_error: u32) -> (frame: Result<Frame, PlatformError>)
        ensures
            match frame {
                Ok(frame) => raw != 0 && frame.hwnd()@ == raw,
                Err(error) => raw == 0 && error == (PlatformError::CreateWindow {
                    code: last_error,
                }),
            },
    {
        match WindowBuilder::created(raw, last_error) {
            Ok(window) => Ok(Frame { window }),
            Err(error) => Err(error),
        }
    }
}

/// A push button.
pub struct Button {
    window: Handle,
}

impl Window for Button {
    closed spec fn hwnd(&self) -> Handle {
        self.window
    }

    fn get_hwnd(&self) -> (window: Handle) {
        self.window
    }
}

impl Button {
    /// A button in `parent` with the caption `title`; it tells its parent of
    /// a click under the identifier `id`.
    pub fn new<W: Window>(
        parent: &W,
        id: u16,
        title: &str,
        x: i32,
        y: i32,
        width: i32,
        height: i32,
    ) -> (request: Request)
        ensures
            request@ == creation(
                WindowSpec {
                    title: title@,
                    class_name: "BUTTON"@,
                    style: button_style(),
                    x,
                    y,
                    width,
                    height,
                    parent: Some(parent.hwnd()),
                    id,
                    ..blank()
                },
            ),
    {
        let mut builder = WindowBuilder::new();
        builder.button(title).position(x, y).size(width, height).parent(parent.get_hwnd()).id(
            id,
        ).create()
    }

    /// What came of the creation request: the control for the window that
    /// the platform gave, or the failure with the platform's error code.
    pub fn created(raw: usize, last_error: u32) -> (button: Result<Button, PlatformError>)
        ensures
            match button {
                Ok(button) => raw != 0 && button.hwnd()@ == raw,
                Err(error) => raw == 0 && error == (PlatformError::CreateWindow {
                    code: last_error,
                }),
            },
    {
        match WindowBuilder::created(raw, last_error) {
            Ok(window) => Ok(Button { window }),
            Err(error) => Err(error),
        }
    }
}

/// A checkbox. The application sets its state; the box does not toggle by
/// itself.
pub struct Checkbox {
    window: Handle,
}

impl Window for Checkbox {
    closed spec fn hwnd(&self) -> Handle {
        self.window
    }

    fn get_hwnd(&self) -> (window: Handle) {
        self.window
    }
}

impl Checkbox {
    /// A checkbox in `parent` with the caption `title`.
    pub fn new<W: Window>(
        parent: &W,
        id: u16,
        title: &str,
        x: i32,
        y: i32,
        width: i32,
        height: i32,
    ) -> (request: Request)
        ensures
            request@ == creation(
                WindowSpec {
                    title: title@,
                    class_name: "BUTTON"@,
                    style: checkbox_style(),
                    x,
                    y,
                    width,
                    height,
                    parent: Some(parent.hwnd()),
                    id,
                    ..blank()
                },
            ),
    {
        let mut builder = WindowBuilder::new();
        builder.checkbox(title).position(x, y).size(width, height).parent(parent.get_hwnd()).id(
            id,
        ).create()
    }

    /// What came of the creation request: the control for the window that
    /// the platform gave, or the failure with the platform's error code.
    pub fn created(raw: usize, last_error: u32) -> (checkbox: Result<Checkbox, PlatformError>)
        ensures
            match checkbox {
                Ok(checkbox) => raw != 0 && checkbox.hwnd()@ == raw,
                Err(error) => raw == 0 && error == (PlatformError::CreateWindow {
                    code: last_error,
                }),
            },
    {
        match WindowBuilder::created(raw, last_error) {
            Ok(window) => Ok(Checkbox { window }),
            Err(error) => Err(error),
        }
    }

    /// Asks for the check state.
    pub fn is_checked(&self) -> (request: Request)
        ensures
            request@ == plain_message(self.hwnd(), BM_GETCHECK, 0),
    {
        send(self.window, BM_GETCHECK, 0)
    }

    /// Whether the box is checked, by the platform's answer.
    pub fn is_checked_reply(&self, reply: isize) -> (checked: bool)
        ensures
            checked == is_check_state(reply),
    {
        reply == 1
    }

    /// Checks or unchecks the box.
    pub fn set_checked(&self, checked: bool) -> (request: Request)
        ensures
            request@ == plain_message(self.hwnd(), BM_SETCHECK, check_state(checked)),
    {
        send(
            self.window,
            BM_SETCHECK,
            if checked {
                BST_CHECKED
            } else {
                BST_UNCHECKED
            },
        )
    }
}

/// An edit field.
pub struct Edit {
    window: Handle,
}

impl Window for Edit {
    closed spec fn hwnd(&self) -> Handle {
        self.window
    }

    fn get_hwnd(&self) -> (window: Handle) {
        self.window
    }
}

impl Edit {
    /// An edit field in `parent`, for one line or for several.
    pub fn new<W: Window>(
        parent: &W,
        x: i32,
        y: i32,
        width: i32,
        height: i32,
        multi_line: bool,
    ) -> (request: Request)
        ensures
            request@ == creation(
                WindowSpec {
                    class_name: "EDIT"@,
                    style: edit_style(multi_line),
                    x,
                    y,
                    width,
                    height,
                    parent: Some(parent.hwnd()),
                    ..blank()
                },
            ),
    {
        let mut style: u32 = WS_CHILD | WS_VISIBLE;
        if multi_line {
            style = style | WS_VSCROLL | ES_WANTRETURN | ES_LEFT | ES_MULTILINE | ES_AUTOVSCROLL;
        }
        let mut builder = WindowBuilder::new();
        builder.class_name("EDIT").style(style).position(x, y).size(width, height).parent(
            parent.get_hwnd(),
        ).create()
    }

    /// What came of the creation request: the control for the window that
    /// the platform gave, or the failure with the platform's error code.
    pub fn created(raw: usize, last_error: u32) -> (edit: Result<Edit, PlatformError>)
        ensures
            match edit {
                Ok(edit) => raw != 0 && edit.hwnd()@ == raw,
                Err(error) => raw == 0 && error == (PlatformError::CreateWindow {
                    code: last_error,
                }),
            },
    {
        match WindowBuilder::created(raw, last_error) {
            Ok(window) => Ok(Edit { window }),
            Err(error) => Err(error),
        }
    }

    /// Lets the user change the text, or not.
    pub fn set_read_only(&self, read_only: bool) -> (request: Request)
        ensures
            request@ == plain_message(
                self.hwnd(),
                EM_SETREADONLY,
                if read_only {
                    1usize
                } else {
                    0usize
                },
            ),
    {
        send(
            self.window,
            EM_SETREADONLY,
            if read_only {
                1
            } else {
                0
            },
        )
    }

    /// Puts `txt` behind `current`, the text that the field holds: the field
    /// is given the two in one.
    pub fn append_text(&self, current: &str, txt: &str) -> (request: Request)
        ensures
            request@ == text_message(self.hwnd(), WM_SETTEXT, current@ + txt@),
    {
        let mut whole = String::from_str(current);
        whole.append(txt);
        send_text(self.window, WM_SETTEXT, whole.as_str())
    }
}

/// A list of strings of which one can be selected.
pub struct ListBox {
    window: Handle,
}

impl Window for ListBox {
    closed spec fn hwnd(&self) -> Handle {
        self.window
    }

    fn get_hwnd(&self) -> (window: Handle) {
        self.window
    }
}

impl ListBox {
    /// A list box in `parent`.
    pub fn new<W: Window>(
        parent: &W,
        id: u16,
        x: i32,
        y: i32,
        width: i32,
        height: i32,
    ) -> (request: Request)
        ensures
            request@ == creation(
                WindowSpec {
                    class_name: "LISTBOX"@,
                    style: list_box_style(),
                    x,
                    y,
                    width,
                    height,
                    parent: Some(parent.hwnd()),
                    id,
                    ..blank()
                },
            ),
    {
        let mut builder = WindowBuilder::new();
        builder.class_name("LISTBOX").style(
            WS_VISIBLE | WS_VSCROLL | WS_CHILD | LBS_NOTIFY | LBS_HASSTRINGS,
        ).position(x, y).size(width, height).parent(parent.get_hwnd()).id(id).create()
    }

    /// What came of the creation request: the control for the window that
    /// the platform gave, or the failure with the platform's error code.
    pub fn created(raw: usize, last_error: u32) -> (list_box: Result<ListBox, PlatformError>)
        ensures
            match list_box {
                Ok(list_box) => raw != 0 && list_box.hwnd()@ == raw,
                Err(error) => raw == 0 && error == (PlatformError::CreateWindow {
                    code: last_error,
                }),
            },
    {
        match WindowBuilder::created(raw, last_error) {
            Ok(window) => Ok(ListBox { window }),
            Err(error) => Err(error),
        }
    }

    /// Adds `val` to the list.
    pub fn add_item(&self, val: &str) -> (request: Request)
        ensures
            request@ == text_message(self.hwnd(), LB_ADDSTRING, val@),
    {
        send_text(self.window, LB_ADDSTRING, val)
    }

    /// Removes the item at `idx`.
    pub fn delete_item(&self, idx: u32) -> (request: Request)
        ensures
            request@ == plain_message(self.hwnd(), LB_DELETESTRING, idx as usize),
    {
        send(self.window, LB_DELETESTRING, idx as usize)
    }

    /// Asks for the number of items.
    pub fn get_item_count(&self) -> (request: Request)
        ensures
            request@ == plain_message(self.hwnd(), LB_GETCOUNT, 0),
    {
        send(self.window, LB_GETCOUNT, 0)
    }

    /// The number of items that the platform answered.
    pub fn get_item_count_reply(&self, reply: isize) -> (count: i32)
        ensures
            count == as_signed(low_bits(reply as int)),
            i32::MIN <= reply <= i32::MAX ==> count == reply,
    {
        reply_value(reply)
    }

    /// Removes all items.
    pub fn clear(&self) -> (request: Request)
        ensures
            request@ == plain_message(self.hwnd(), LB_RESETCONTENT, 0),
    {
        send(self.window, LB_RESETCONTENT, 0)
    }

    /// Asks for the index of the selected item.
    pub fn get_sel(&self) -> (request: Request)
        ensures
            request@ == plain_message(self.hwnd(), LB_GETCURSEL, 0),
    {
        send(self.window, LB_GETCURSEL, 0)
    }

    /// The index that the platform answered; a negative number where no item
    /// is selected.
    pub fn get_sel_reply(&self, reply: isize) -> (index: i32)
        ensures
            index == as_signed(low_bits(reply as int)),
            i32::MIN <= reply <= i32::MAX ==> index == reply,
    {
        reply_value(reply)
    }

    /// Selects the item at `idx`.
    pub fn set_sel(&self, idx: u32) -> (request: Request)
        ensures
            request@ == plain_message(self.hwnd(), LB_SETCURSEL, idx as usize),
    {
        send(self.window, LB_SETCURSEL, idx as usize)
    }
}

/// A window's text, asked for after the window was created, is the title
/// that it was created with: the buffer that holds the title of the creation
/// request yields the title of the parameters.
pub proof fn lemma_title_round_trip(spec: WindowSpec)
    ensures
        creation(spec) matches RequestView::CreateWindow { title, .. } && fetched_text(title)
            == Some(spec.title),
{
    lemma_text_round_trip(spec.title);
}

/// An edit field to which text was appended reads back as what it held
/// followed by what was appended.
pub proof fn lemma_appended_text(window: Handle, current: Seq<char>, txt: Seq<char>)
    ensures
        text_message(window, WM_SETTEXT, current + txt) matches RequestView::SendMessage {
            l_param: PayloadView::Text(units),
            ..
        } && fetched_text(units) == Some(current + txt),
{
    lemma_text_round_trip(current + txt);
}

/// A checkbox reads back the state that it was given.
pub proof fn lemma_check_state_round_trip(checked: bool)
    ensures
        is_check_state(check_state(checked) as isize) == checked,
{
}

} // verus!
