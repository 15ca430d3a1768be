//! The vocabulary shared with the native window system: window handles, the
//! numeric codes of messages and styles, and the requests that the caller is
//! to carry out.

use vstd::prelude::*;

verus! {

// Window messages.
pub const WM_DESTROY: u32 = 0x0002;

pub const WM_MOVE: u32 = 0x0003;

pub const WM_SIZE: u32 = 0x0005;

pub const WM_SETTEXT: u32 = 0x000C;

pub const WM_GETTEXT: u32 = 0x000D;

pub const WM_GETTEXTLENGTH: u32 = 0x000E;

pub const WM_CLOSE: u32 = 0x0010;

pub const WM_COMMAND: u32 = 0x0111;

pub const WM_MOUSEMOVE: u32 = 0x0200;

pub const WM_LBUTTONDOWN: u32 = 0x0201;

pub const WM_LBUTTONUP: u32 = 0x0202;

pub const WM_RBUTTONDOWN: u32 = 0x0204;

pub const WM_RBUTTONUP: u32 = 0x0205;

// Messages of the button, edit and list box controls.
pub const BM_GETCHECK: u32 = 240;

pub const BM_SETCHECK: u32 = 241;

pub const EM_SETREADONLY: u32 = 0x00CF;

pub const LB_ADDSTRING: u32 = 384;

pub const LB_DELETESTRING: u32 = 386;

pub const LB_RESETCONTENT: u32 = 388;

pub const LB_SETCURSEL: u32 = 390;

pub const LB_GETCURSEL: u32 = 392;

pub const LB_GETCOUNT: u32 = 395;

// Check states of a button.
pub const BST_UNCHECKED: usize = 0;

pub const BST_CHECKED: usize = 1;

// Window styles.
pub const WS_CHILD: u32 = 0x4000_0000;

pub const WS_VISIBLE: u32 = 0x1000_0000;

pub const WS_VSCROLL: u32 = 0x0020_0000;

pub const WS_SYSMENU: u32 = 0x0008_0000;

pub const WS_THICKFRAME: u32 = 0x0004_0000;

pub const WS_MINIMIZEBOX: u32 = 0x0002_0000;

pub const WS_MAXIMIZEBOX: u32 = 0x0001_0000;

pub const WS_TABSTOP: u32 = 0x0001_0000;

pub const WS_EX_CLIENTEDGE: u32 = 0x0000_0200;

// Styles of the button, edit and list box controls.
pub const BS_PUSHBUTTON: u32 = 0x0000;

pub const BS_CHECKBOX: u32 = 0x0002;

pub const ES_LEFT: u32 = 0x0000;

pub const ES_MULTILINE: u32 = 0x0004;

pub const ES_AUTOVSCROLL: u32 = 0x0040;

pub const ES_WANTRETURN: u32 = 0x1000;

pub const LBS_NOTIFY: u32 = 1;

pub const LBS_HASSTRINGS: u32 = 64;

// Window class styles and the system colour of a window's background.
pub const CS_VREDRAW: u32 = 0x0001;

pub const CS_HREDRAW: u32 = 0x0002;

pub const CS_DBLCLKS: u32 = 0x0008;

pub const COLOR_WINDOW: i32 = 5;

/// Lets the platform choose a position or a size.
pub const CW_USEDEFAULT: i32 = -0x8000_0000;

// Commands of a show request.
pub const SW_HIDE: i32 = 0;

pub const SW_SHOW: i32 = 5;

// Buttons and icons of a message box, and the answers it gives.
pub const MB_OK: u32 = 0x0000;

pub const MB_OKCANCEL: u32 = 0x0001;

pub const MB_YESNO: u32 = 0x0004;

pub const MB_ICONERROR: u32 = 0x0010;

pub const MB_ICONQUESTION: u32 = 0x0020;

pub const MB_ICONINFORMATION: u32 = 0x0040;

pub const IDOK: i32 = 1;

pub const IDYES: i32 = 6;

/// The identity of a native window. The platform owns the window; a handle
/// only refers to it, and is never null.
#[derive(Clone, Copy, Debug, PartialEq, Eq, Hash, Structural)]
pub struct Handle {
    raw: usize,
}

impl View for Handle {
    type V = usize;

    closed spec fn view(&self) -> usize {
        self.raw
    }
}

impl Handle {
    #[verifier::type_invariant]
    spec fn not_null(self) -> bool {
        self.raw != 0
    }

    /// The handle for the value `raw` that the platform gave; none for null.
    pub fn new(raw: usize) -> (handle: Option<Handle>)
        ensures
            handle is Some <==> raw != 0,
            handle matches Some(h) ==> h@ == raw,
    {
        if raw == 0 {
            None
        } else {
            Some(Handle { raw })
        }
    }

    /// The value by which the platform knows the window.
    pub fn raw(&self) -> (raw: usize)
        ensures
            raw == self@,
            raw != 0,
    {
        proof {
            use_type_invariant(self);
        }
        self.raw
    }

    /// Handles are told apart by their value alone.
    pub proof fn lemma_same_value(a: Handle, b: Handle)
        requires
            a@ == b@,
        ensures
            a == b,
    {
    }
}

/// The low 32 bits of a number, as the platform takes them where it is handed
/// a wider one.
pub open spec fn low_bits(value: int) -> u32 {
    (value % 0x1_0000_0000) as u32
}

/// 32 bits read as a signed number in two's complement.
pub open spec fn as_signed(bits: u32) -> i32 {
    if bits < 0x8000_0000 {
        bits as i32
    } else {
        (bits - 0x1_0000_0000) as i32
    }
}

/// The low 32 bits of an unsigned word.
pub fn unsigned_low_bits(value: usize) -> (bits: u32)
    ensures
        bits == low_bits(value as int),
        value <= u32::MAX ==> bits == value,
{
    (value as u64 % 0x1_0000_0000) as u32
}

/// The low 32 bits of a signed word.
pub fn signed_low_bits(value: isize) -> (bits: u32)
    ensures
        bits == low_bits(value as int),
        0 <= value <= u32::MAX ==> bits == value,
{
    let value: i64 = value as i64;
    if value >= 0 {
        (value as u64 % 0x1_0000_0000) as u32
    } else {
        let below: u64 = (-(value + 1)) as u64;
        (0xffff_ffff - below % 0x1_0000_0000) as u32
    }
}

/// The number that the platform means where it answers a message with a
/// count, an index or a small code: the low 32 bits of the answer, signed.
pub fn reply_value(reply: isize) -> (value: i32)
    ensures
        value == as_signed(low_bits(reply as int)),
        i32::MIN <= reply <= i32::MAX ==> value == reply,
{
    let bits = signed_low_bits(reply);
    if bits < 0x8000_0000 {
        bits as i32
    } else {
        (bits as i64 - 0x1_0000_0000) as i32
    }
}

/// The second parameter of a message that is sent to a window.
#[derive(Debug, PartialEq, Eq)]
pub enum Payload {
    /// A plain number.
    Value(isize),
    /// The address of this text, which ends in a zero unit.
    Text(Vec<u16>),
    /// The address of a buffer of this many code units that the platform is
    /// to fill.
    Buffer(usize),
}

/// A payload, with text as the sequence of its units.
pub enum PayloadView {
    Value(isize),
    Text(Seq<u16>),
    Buffer(usize),
}

impl View for Payload {
    type V = PayloadView;

    open spec fn view(&self) -> PayloadView {
        match self {
            Payload::Value(value) => PayloadView::Value(*value),
            Payload::Text(units) => PayloadView::Text(units@),
            Payload::Buffer(capacity) => PayloadView::Buffer(*capacity),
        }
    }
}

/// One call that the caller is to make to the platform.
#[derive(Debug, PartialEq, Eq)]
pub enum Request {
    /// Register a window class whose windows are served by the toolkit's
    /// dispatch callback, with no icon, cursor, menu or extra bytes.
    RegisterClass { style: u32, class_name: Vec<u16>, background: i32 },
    /// Create a window.
    CreateWindow {
        extra_style: u32,
        class_name: Vec<u16>,
        title: Vec<u16>,
        style: u32,
        x: i32,
        y: i32,
        width: i32,
        height: i32,
        parent: Option<Handle>,
        id: u16,
    },
    /// Set the visibility of a window.
    ShowWindow { window: Handle, command: i32 },
    /// Move and resize a window.
    MoveWindow { window: Handle, x: i32, y: i32, width: i32, height: i32, repaint: bool },
    /// Send a message to a window and wait for its answer.
    SendMessage { window: Handle, message: u32, w_param: usize, l_param: Payload },
    /// Start a timer that fires on the window every `interval` milliseconds.
    SetTimer { window: Handle, timer: usize, interval: u32 },
    /// Stop a timer.
    KillTimer { window: Handle, timer: usize },
    /// Show a modal dialog and wait for the user's choice.
    MessageBox { window: Handle, text: Vec<u16>, caption: Vec<u16>, flags: u32 },
}

/// A request, with every text as the sequence of its units.
pub enum RequestView {
    RegisterClass { style: u32, class_name: Seq<u16>, background: i32 },
    CreateWindow {
        extra_style: u32,
        class_name: Seq<u16>,
        title: Seq<u16>,
        style: u32,
        x: i32,
        y: i32,
        width: i32,
        height: i32,
        parent: Option<Handle>,
        id: u16,
    },
    ShowWindow { window: Handle, command: i32 },
    MoveWindow { window: Handle, x: i32, y: i32, width: i32, height: i32, repaint: bool },
    SendMessage { window: Handle, message: u32, w_param: usize, l_param: PayloadView },
    SetTimer { window: Handle, timer: usize, interval: u32 },
    KillTimer { window: Handle, timer: usize },
    MessageBox { window: Handle, text: Seq<u16>, caption: Seq<u16>, flags: u32 },
}

impl View for Request {
    type V = RequestView;

    open spec fn view(&self) -> RequestView {
        match self {
            Request::RegisterClass { style, class_name, background } => RequestView::RegisterClass {
                style: *style,
                class_name: class_name@,
                background: *background,
            },
            Request::CreateWindow {
                extra_style,
                class_name,
                title,
                style,
                x,
                y,
                width,
                height,
                parent,
                id,
            } => RequestView::CreateWindow {
                extra_style: *extra_style,
                class_name: class_name@,
                title: title@,
                style: *style,
                x: *x,
                y: *y,
                width: *width,
                height: *height,
                parent: *parent,
                id: *id,
            },
            Request::ShowWindow { window, command } => RequestView::ShowWindow {
                window: *window,
                command: *command,
            },
            Request::MoveWindow {
                window,
                x,
                y,
                width,
                height,
                repaint,
            } => RequestView::MoveWindow {
                window: *window,
                x: *x,
                y: *y,
                width: *width,
                height: *height,
                repaint: *repaint,
            },
            Request::SendMessage { window, message, w_param, l_param } => RequestView::SendMessage {
                window: *window,
                message: *message,
                w_param: *w_param,
                l_param: l_param@,
            },
            Request::SetTimer { window, timer, interval } => RequestView::SetTimer {
                window: *window,
                timer: *timer,
                interval: *interval,
            },
            Request::KillTimer { window, timer } => RequestView::KillTimer {
                window: *window,
                timer: *timer,
            },
            Request::MessageBox { window, text, caption, flags } => RequestView::MessageBox {
                window: *window,
                text: text@,
                caption: caption@,
                flags: *flags,
            },
        }
    }
}

/// A failure of the platform that nothing can mend, with the error code that
/// the platform reported for it.
#[derive(Clone, Copy, Debug, PartialEq, Eq, Structural)]
pub enum PlatformError {
    /// The handle of the running module could not be had.
    ModuleHandle { code: u32 },
    /// The window class could not be registered.
    RegisterClass { code: u32 },
    /// The window could not be created.
    CreateWindow { code: u32 },
}

} // verus!
