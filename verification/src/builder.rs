//! The window builder: it gathers the parameters of a window and turns them
//! into one creation request.

use crate::platform::{
    Handle, PlatformError, Request, RequestView, BS_CHECKBOX, BS_PUSHBUTTON, CW_USEDEFAULT,
    WS_CHILD, WS_EX_CLIENTEDGE, WS_MAXIMIZEBOX, WS_MINIMIZEBOX, WS_SYSMENU, WS_TABSTOP,
    WS_THICKFRAME, WS_VISIBLE,
};
use crate::text::{to_wchar, wide};
use vstd::prelude::*;

verus! {

/// The class of the toolkit's own top-level windows.
pub const FRAME_CLASS: &'static str = "HOWL";

/// The style of a push button.
pub open spec fn button_style() -> u32 {
    WS_VISIBLE | WS_TABSTOP | WS_CHILD | BS_PUSHBUTTON
}

/// The style of a checkbox.
pub open spec fn checkbox_style() -> u32 {
    WS_VISIBLE | WS_TABSTOP | WS_CHILD | BS_CHECKBOX
}

/// The style of a frame window.
pub open spec fn frame_style() -> u32 {
    WS_THICKFRAME | WS_MINIMIZEBOX | WS_MAXIMIZEBOX | WS_SYSMENU
}

/// The preset styles as numbers.
pub proof fn lemma_preset_styles()
    ensures
        button_style() == 0x5001_0000,
        checkbox_style() == 0x5001_0002,
        frame_style() == 0x000F_0000,
{
    assert(0x1000_0000u32 | 0x0001_0000u32 | 0x4000_0000u32 | 0x0000u32 == 0x5001_0000u32)
        by (bit_vector);
    assert(0x1000_0000u32 | 0x0001_0000u32 | 0x4000_0000u32 | 0x0002u32 == 0x5001_0002u32)
        by (bit_vector);
    assert(0x0004_0000u32 | 0x0002_0000u32 | 0x0001_0000u32 | 0x0008_0000u32 == 0x000F_0000u32)
        by (bit_vector);
}

/// The parameters of a window that is to be created.
pub struct WindowSpec {
    pub x: i32,
    pub y: i32,
    pub width: i32,
    pub height: i32,
    pub style: u32,
    pub extra_style: u32,
    pub class_name: Seq<char>,
    pub title: Seq<char>,
    pub parent: Option<Handle>,
    pub id: u16,
}

/// The parameters of a builder on which nothing was set yet: position and size
/// are left to the platform, there is no style, class, title or parent, and
/// the identifier is zero.
pub open spec fn blank() -> WindowSpec {
    WindowSpec {
        x: CW_USEDEFAULT,
        y: CW_USEDEFAULT,
        width: CW_USEDEFAULT,
        height: CW_USEDEFAULT,
        style: 0,
        extra_style: 0,
        class_name: Seq::<char>::empty(),
        title: Seq::<char>::empty(),
        parent: None,
        id: 0,
    }
}

/// The request that creates a window with the parameters `spec`: each
/// parameter as it stands, class name and title encoded for the platform.
pub open spec fn creation(spec: WindowSpec) -> RequestView {
    RequestView::CreateWindow {
        extra_style: spec.extra_style,
        class_name: wide(spec.class_name),
        title: wide(spec.title),
        style: spec.style,
        x: spec.x,
        y: spec.y,
        width: spec.width,
        height: spec.height,
        parent: spec.parent,
        id: spec.id,
    }
}

/// Gathers the parameters of a window. Each setter changes one parameter and
/// hands the builder back, so that calls can be chained.
pub struct WindowBuilder<'a> {
    x: i32,
    y: i32,
    width: i32,
    height: i32,
    style: u32,
    extra_style: u32,
    class_name: &'a str,
    title: &'a str,
    parent: Option<Handle>,
    id: u16,
}

impl<'a> View for WindowBuilder<'a> {
    type V = WindowSpec;

    closed spec fn view(&self) -> WindowSpec {
        WindowSpec {
            x: self.x,
            y: self.y,
            width: self.width,
            height: self.height,
            style: self.style,
            extra_style: self.extra_style,
            class_name: self.class_name@,
            title: self.title@,
            parent: self.parent,
            id: self.id,
        }
    }
}

impl<'a> WindowBuilder<'a> {
    /// A builder on which nothing is set.
    pub fn new() -> (builder: WindowBuilder<'a>)
        ensures
            builder@ == blank(),
    {
        proof {
            reveal_strlit("");
        }
        let builder = WindowBuilder {
            x: CW_USEDEFAULT,
            y: CW_USEDEFAULT,
            width: CW_USEDEFAULT,
            height: CW_USEDEFAULT,
            style: 0,
            extra_style: 0,
            class_name: "",
            title: "",
            parent: None,
            id: 0,
        };
        assert(builder.class_name@ =~= Seq::<char>::empty());
        builder
    }

    /// Sets the style bits.
    pub fn style(&mut self, style: u32) -> (builder: &mut Self)
        ensures
            builder@ == (WindowSpec { style: style, ..old(self)@ }),
            *final(self) == *final(builder),
    {
        self.style = style;
        self
    }

    /// Sets the extended style bits.
    pub fn extra_style(&mut self, extra_style: u32) -> (builder: &mut Self)
        ensures
            builder@ == (WindowSpec { extra_style: extra_style, ..old(self)@ }),
            *final(self) == *final(builder),
    {
        self.extra_style = extra_style;
        self
    }

    /// Makes the window a child of `parent`.
    pub fn parent(&mut self, parent: Handle) -> (builder: &mut Self)
        ensures
            builder@ == (WindowSpec { parent: Some(parent), ..old(self)@ }),
            *final(self) == *final(builder),
    {
        self.parent = Some(parent);
        self
    }

    /// Sets the position of the upper left corner.
    pub fn position(&mut self, x: i32, y: i32) -> (builder: &mut Self)
        ensures
            builder@ == (WindowSpec { x: x, y: y, ..old(self)@ }),
            *final(self) == *final(builder),
    {
        self.x = x;
        self.y = y;
        self
    }

    /// Sets width and height.
    pub fn size(&mut self, width: i32, height: i32) -> (builder: &mut Self)
        ensures
            builder@ == (WindowSpec { width: width, height: height, ..old(self)@ }),
            *final(self) == *final(builder),
    {
        self.width = width;
        self.height = height;
        self
    }

    /// Sets the identifier under which a control tells its parent of itself.
    pub fn id(&mut self, id: u16) -> (builder: &mut Self)
        ensures
            builder@ == (WindowSpec { id: id, ..old(self)@ }),
            *final(self) == *final(builder),
    {
        self.id = id;
        self
    }

    /// Sets the window class.
    pub fn class_name(&mut self, class_name: &'a str) -> (builder: &mut Self)
        ensures
            builder@ == (WindowSpec { class_name: class_name@, ..old(self)@ }),
            *final(self) == *final(builder),
    {
        self.class_name = class_name;
        self
    }

    /// Sets the title, which for a control is its caption or text.
    pub fn title(&mut self, title: &'a str) -> (builder: &mut Self)
        ensures
            builder@ == (WindowSpec { title: title@, ..old(self)@ }),
            *final(self) == *final(builder),
    {
        self.title = title;
        self
    }

    /// Presets a push button with the caption `title`.
    pub fn button(&mut self, title: &'a str) -> (builder: &mut Self)
        ensures
            builder@ == (WindowSpec {
                title: title@,
                class_name: "BUTTON"@,
                style: button_style(),
                ..old(self)@
            }),
            *final(self) == *final(builder),
    {
        self.title(title).class_name("BUTTON").style(
            WS_VISIBLE | WS_TABSTOP | WS_CHILD | BS_PUSHBUTTON,
        )
    }

    /// Presets a checkbox with the caption `title`.
    pub fn checkbox(&mut self, title: &'a str) -> (builder: &mut Self)
        ensures
            builder@ == (WindowSpec {
                title: title@,
                class_name: "BUTTON"@,
                style: checkbox_style(),
                ..old(self)@
            }),
            *final(self) == *final(builder),
    {
        self.title(title).class_name("BUTTON").style(
            WS_VISIBLE | WS_TABSTOP | WS_CHILD | BS_CHECKBOX,
        )
    }

    /// Presets a frame window with the title `title`.
    pub fn frame(&mut self, title: &'a str) -> (builder: &mut Self)
        ensures
            builder@ == (WindowSpec {
                title: title@,
                class_name: FRAME_CLASS@,
                style: frame_style(),
                extra_style: WS_EX_CLIENTEDGE,
                ..old(self)@
            }),
            *final(self) == *final(builder),
    {
        self.title(title).class_name(FRAME_CLASS).style(
            WS_THICKFRAME | WS_MINIMIZEBOX | WS_MAXIMIZEBOX | WS_SYSMENU,
        ).extra_style(WS_EX_CLIENTEDGE)
    }

    /// The request that creates the window. The builder stays as it is and
    /// can serve as a template for further windows.
    pub fn create(&self) -> (request: Request)
        ensures
            request@ == creation(self@),
    {
        Request::CreateWindow {
            extra_style: self.extra_style,
            class_name: to_wchar(self.class_name),
            title: to_wchar(self.title),
            style: self.style,
            x: self.x,
            y: self.y,
            width: self.width,
            height: self.height,
            parent: self.parent,
            id: self.id,
        }
    }

    /// What came of a creation request: the handle that the platform gave, or,
    /// where it gave null, the failure with the error code `last_error` that
    /// the platform reported for it.
    pub fn created(raw: usize, last_error: u32) -> (window: Result<Handle, PlatformError>)
        ensures
            match window {
                Ok(handle) => raw != 0 && handle@ == raw,
                Err(error) => raw == 0 && error == (PlatformError::CreateWindow {
                    code: last_error,
                }),
            },
    {
        match Handle::new(raw) {
            Some(handle) => Ok(handle),
            None => Err(PlatformError::CreateWindow { code: last_error }),
        }
    }
}

} // verus!
