//! What a window is created with, collected step by step.

use crate::messages::WM_NCCREATE;
use crate::window_state::{
    WS_BORDER, WS_CAPTION, WS_CHILD, WS_CLIPCHILDREN, WS_CLIPSIBLINGS, WS_EX_ACCEPTFILES,
    WS_EX_APPWINDOW, WS_EX_LAYERED, WS_EX_NOREDIRECTIONBITMAP, WS_EX_TOPMOST, WS_EX_TRANSPARENT,
    WS_EX_WINDOWEDGE, WS_MAXIMIZE, WS_MAXIMIZEBOX, WS_MINIMIZE, WS_MINIMIZEBOX,
    WS_OVERLAPPEDWINDOW, WS_POPUP, WS_SIZEBOX, WS_SYSMENU, WS_VISIBLE,
};
use vstd::prelude::*;
use vstd::string::StringExecFns;

verus! {

/// The button style of an ordinary push button.
pub const BS_PUSHBUTTON: u32 = 0x0000;

/// The button style of a button drawn flat.
pub const BS_FLAT: u32 = 0x8000;

/// In place of a position or a size: the system chooses.
pub const CW_USEDEFAULT: i32 = -0x8000_0000;

/// Everything the system is told when a window is created.
pub struct WindowRequest {
    pub ex_style: u32,
    pub class_name: String,
    pub window_name: String,
    pub style: u32,
    pub x: i32,
    pub y: i32,
    pub width: i32,
    pub height: i32,
    /// The parent window, or zero for none.
    pub parent: isize,
}

/// Mathematical model of a [`HwndBuilder`].
pub struct Plan {
    pub class_name: Seq<char>,
    pub text: Option<Seq<char>>,
    pub size: Option<(i32, i32)>,
    pub pos: Option<(i32, i32)>,
    pub parent: Option<isize>,
    pub style: u32,
    pub ex_style: u32,
}

impl Plan {
    /// The plan that a builder starts from: nothing chosen.
    pub open spec fn initial() -> Plan {
        Plan {
            class_name: Seq::empty(),
            text: None,
            size: None,
            pos: None,
            parent: None,
            style: 0,
            ex_style: 0,
        }
    }

    /// The plan with the bits of `style` added to its window style.
    pub open spec fn with_style(self, style: u32) -> Plan {
        Plan { style: self.style | style, ..self }
    }

    /// The plan with the bits of `ex_style` added to its extended style.
    pub open spec fn with_ex_style(self, ex_style: u32) -> Plan {
        Plan { ex_style: self.ex_style | ex_style, ..self }
    }
}

/// Collects what a window is created with.
pub struct HwndBuilder {
    class_name: String,
    text: Option<String>,
    size: Option<(i32, i32)>,
    pos: Option<(i32, i32)>,
    parent: Option<isize>,
    style: u32,
    ex_style: u32,
}

impl View for HwndBuilder {
    type V = Plan;

    closed spec fn view(&self) -> Plan {
        Plan {
            class_name: self.class_name@,
            text: match self.text {
                Some(text) => Some(text@),
                None => None,
            },
            size: self.size,
            pos: self.pos,
            parent: self.parent,
            style: self.style,
            ex_style: self.ex_style,
        }
    }
}

impl Default for HwndBuilder {
    fn default() -> (builder: Self)
        ensures
            builder@ == Plan::initial(),
    {
        HwndBuilder {
            class_name: String::new(),
            text: None,
            size: None,
            pos: None,
            parent: None,
            style: 0,
            ex_style: 0,
        }
    }
}

impl HwndBuilder {
    fn add_style(self, style: u32) -> (builder: Self)
        ensures
            builder@ == self@.with_style(style),
    {
        let mut builder = self;
        builder.style = builder.style | style;
        builder
    }

    fn add_ex_style(self, ex_style: u32) -> (builder: Self)
        ensures
            builder@ == self@.with_ex_style(ex_style),
    {
        let mut builder = self;
        builder.ex_style = builder.ex_style | ex_style;
        builder
    }

    /// The window is a child of, or owned by, `parent`.
    pub fn parent(self, parent: isize) -> (builder: Self)
        ensures
            builder@ == (Plan { parent: Some(parent), ..self@ }),
    {
        let mut builder = self;
        builder.parent = Some(parent);
        builder
    }

    /// The window is of the class called `name`.
    pub fn class_name(self, name: &str) -> (builder: Self)
        ensures
            builder@ == (Plan { class_name: name@, ..self@ }),
    {
        let mut builder = self;
        builder.class_name = String::from_str(name);
        builder
    }

    /// The window shows `text`: its title, or what a control displays.
    pub fn text(self, text: &str) -> (builder: Self)
        ensures
            builder@ == (Plan { text: Some(text@), ..self@ }),
    {
        let mut builder = self;
        builder.text = Some(String::from_str(text));
        builder
    }

    /// The window is `size.0` wide and `size.1` high.
    pub fn size(self, size: (i32, i32)) -> (builder: Self)
        ensures
            builder@ == (Plan { size: Some(size), ..self@ }),
    {
        let mut builder = self;
        builder.size = Some(size);
        builder
    }

    /// The window's top left corner is at `pos`.
    pub fn position(self, pos: (i32, i32)) -> (builder: Self)
        ensures
            builder@ == (Plan { pos: Some(pos), ..self@ }),
    {
        let mut builder = self;
        builder.pos = Some(pos);
        builder
    }

    pub fn resizable(self) -> (builder: Self)
        ensures
            builder@ == self@.with_style(WS_SIZEBOX),
    {
        self.add_style(WS_SIZEBOX)
    }

    pub fn minimizable(self) -> (builder: Self)
        ensures
            builder@ == self@.with_style(WS_MINIMIZEBOX),
    {
        self.add_style(WS_MINIMIZEBOX)
    }

    pub fn maximizable(self) -> (builder: Self)
        ensures
            builder@ == self@.with_style(WS_MAXIMIZEBOX),
    {
        self.add_style(WS_MAXIMIZEBOX)
    }

    pub fn visible(self) -> (builder: Self)
        ensures
            builder@ == self@.with_style(WS_VISIBLE),
    {
        self.add_style(WS_VISIBLE)
    }

    pub fn push_button(self) -> (builder: Self)
        ensures
            builder@ == self@.with_style(BS_PUSHBUTTON),
    {
        self.add_style(BS_PUSHBUTTON)
    }

    pub fn flat(self) -> (builder: Self)
        ensures
            builder@ == self@.with_style(BS_FLAT),
    {
        self.add_style(BS_FLAT)
    }

    pub fn child(self) -> (builder: Self)
        ensures
            builder@ == self@.with_style(WS_CHILD),
    {
        self.add_style(WS_CHILD)
    }

    pub fn on_taskbar(self) -> (builder: Self)
        ensures
            builder@ == self@.with_ex_style(WS_EX_APPWINDOW),
    {
        self.add_ex_style(WS_EX_APPWINDOW)
    }

    pub fn always_on_top(self) -> (builder: Self)
        ensures
            builder@ == self@.with_ex_style(WS_EX_TOPMOST),
    {
        self.add_ex_style(WS_EX_TOPMOST)
    }

    pub fn no_back_buffer(self) -> (builder: Self)
        ensures
            builder@ == self@.with_ex_style(WS_EX_NOREDIRECTIONBITMAP),
    {
        self.add_ex_style(WS_EX_NOREDIRECTIONBITMAP)
    }

    pub fn popup(self) -> (builder: Self)
        ensures
            builder@ == self@.with_style(WS_POPUP),
    {
        self.add_style(WS_POPUP)
    }

    pub fn minimized(self) -> (builder: Self)
        ensures
            builder@ == self@.with_style(WS_MINIMIZE),
    {
        self.add_style(WS_MINIMIZE)
    }

    pub fn maximized(self) -> (builder: Self)
        ensures
            builder@ == self@.with_style(WS_MAXIMIZE),
    {
        self.add_style(WS_MAXIMIZE)
    }

    pub fn ignore_cursor_event(self) -> (builder: Self)
        ensures
            builder@ == self@.with_ex_style(WS_EX_TRANSPARENT | WS_EX_LAYERED),
    {
        self.add_ex_style(WS_EX_TRANSPARENT | WS_EX_LAYERED)
    }

    /// Takes away what makes an overlapped window: caption, system menu,
    /// sizing frame, and the boxes to minimize and maximize.
    pub fn fullscreen(self) -> (builder: Self)
        ensures
            builder@ == (Plan { style: self@.style & !WS_OVERLAPPEDWINDOW, ..self@ }),
    {
        let mut builder = self;
        builder.style = builder.style & !WS_OVERLAPPEDWINDOW;
        builder
    }

    /// Sets the styles of a top-level window, in place of the styles chosen
    /// so far: caption, border, clipping of siblings and children, system
    /// menu; raised edge, accepts dropped files.
    pub fn window(self) -> (builder: Self)
        ensures
            builder@ == (Plan {
                style: WS_CAPTION | WS_BORDER | WS_CLIPSIBLINGS | WS_CLIPCHILDREN | WS_SYSMENU,
                ex_style: WS_EX_WINDOWEDGE | WS_EX_ACCEPTFILES,
                ..self@
            }),
    {
        let mut builder = self;
        builder.style = WS_CAPTION | WS_BORDER | WS_CLIPSIBLINGS | WS_CLIPCHILDREN | WS_SYSMENU;
        builder.ex_style = WS_EX_WINDOWEDGE | WS_EX_ACCEPTFILES;
        builder
    }

    /// Whether the window has a parent: then it carries its builder as user
    /// data once it exists.
    pub fn has_parent(&self) -> (has: bool)
        ensures
            has == (self@.parent is Some),
    {
        self.parent.is_some()
    }

    /// What to create the window with. What was not chosen is left to the
    /// system: position and size; or is empty: the text; or is none: the
    /// parent.
    pub fn build(&self) -> (request: WindowRequest)
        ensures
            request.ex_style == self@.ex_style,
            request.style == self@.style,
            request.class_name@ == self@.class_name,
            request.window_name@ == match self@.text {
                Some(text) => text,
                None => Seq::empty(),
            },
            (request.width, request.height) == match self@.size {
                Some(size) => size,
                None => (CW_USEDEFAULT, CW_USEDEFAULT),
            },
            (request.x, request.y) == match self@.pos {
                Some(pos) => pos,
                None => (CW_USEDEFAULT, CW_USEDEFAULT),
            },
            request.parent == match self@.parent {
                Some(parent) => parent,
                None => 0,
            },
    {
        let (width, height) = match self.size {
            Some(size) => size,
            None => (CW_USEDEFAULT, CW_USEDEFAULT),
        };
        let (x, y) = match self.pos {
            Some(pos) => pos,
            None => (CW_USEDEFAULT, CW_USEDEFAULT),
        };
        let window_name = match &self.text {
            Some(text) => text.clone(),
            None => String::new(),
        };
        let parent = match self.parent {
            Some(parent) => parent,
            None => 0,
        };
        WindowRequest {
            ex_style: self.ex_style,
            class_name: self.class_name.clone(),
            window_name,
            style: self.style,
            x,
            y,
            width,
            height,
            parent,
        }
    }
}

/// What the window procedure of a built window does with a message.
#[derive(Clone, Copy, Debug, PartialEq, Eq, Structural)]
pub enum Dispatch {
    /// Remember the builder in the window, then let the system handle the
    /// message.
    Attach,
    /// Hand the message to the callback that was registered for messages.
    Callback,
    /// Let the system handle the message.
    Default,
}

/// What to do with message number `message`, given whether the window
/// carries its builder and whether the builder has a callback for messages.
pub fn window_proc(message: u32, has_builder: bool, has_callback: bool) -> (dispatch: Dispatch)
    ensures
        dispatch == if message == WM_NCCREATE {
            Dispatch::Attach
        } else if has_builder && has_callback {
            Dispatch::Callback
        } else {
            Dispatch::Default
        },
{
    if message == WM_NCCREATE {
        Dispatch::Attach
    } else if has_builder && has_callback {
        Dispatch::Callback
    } else {
        Dispatch::Default
    }
}

/// A builder with nothing chosen.
pub fn create_window_handle() -> (builder: HwndBuilder)
    ensures
        builder@ == Plan::initial(),
{
    HwndBuilder::default()
}

} // verus!
