//! The flags that describe a window, and the window styles they stand for.

use vstd::prelude::*;

verus! {

pub const WS_MAXIMIZEBOX: u32 = 0x0001_0000;

pub const WS_MINIMIZEBOX: u32 = 0x0002_0000;

pub const WS_SIZEBOX: u32 = 0x0004_0000;

pub const WS_SYSMENU: u32 = 0x0008_0000;

pub const WS_BORDER: u32 = 0x0080_0000;

pub const WS_CAPTION: u32 = 0x00C0_0000;

pub const WS_MAXIMIZE: u32 = 0x0100_0000;

pub const WS_CLIPCHILDREN: u32 = 0x0200_0000;

pub const WS_CLIPSIBLINGS: u32 = 0x0400_0000;

pub const WS_VISIBLE: u32 = 0x1000_0000;

pub const WS_MINIMIZE: u32 = 0x2000_0000;

pub const WS_CHILD: u32 = 0x4000_0000;

pub const WS_POPUP: u32 = 0x8000_0000;

pub const WS_OVERLAPPEDWINDOW: u32 = 0x00CF_0000;

pub const WS_EX_TOPMOST: u32 = 0x0000_0008;

pub const WS_EX_ACCEPTFILES: u32 = 0x0000_0010;

pub const WS_EX_TRANSPARENT: u32 = 0x0000_0020;

pub const WS_EX_WINDOWEDGE: u32 = 0x0000_0100;

pub const WS_EX_APPWINDOW: u32 = 0x0004_0000;

pub const WS_EX_LAYERED: u32 = 0x0008_0000;

pub const WS_EX_NOREDIRECTIONBITMAP: u32 = 0x0020_0000;

/// A set of window flags, one bit each.
#[derive(Clone, Copy, Debug, PartialEq, Eq, Hash, Structural)]
pub struct WindowFlags {
    bits: u32,
}

pub const RESIZABLE: u32 = 0x0000_0001;

pub const MINIMIZABLE: u32 = 0x0000_0002;

pub const MAXIMIZABLE: u32 = 0x0000_0004;

pub const CLOSABLE: u32 = 0x0000_0008;

pub const VISIBLE: u32 = 0x0000_0010;

pub const ON_TASKBAR: u32 = 0x0000_0020;

pub const ALWAYS_ON_TOP: u32 = 0x0000_0040;

pub const ALWAYS_ON_BOTTOM: u32 = 0x0000_0080;

pub const NO_BACK_BUFFER: u32 = 0x0000_0100;

pub const TRANSPARENT: u32 = 0x0000_0200;

pub const CHILD: u32 = 0x0000_0400;

pub const MAXIMIZED: u32 = 0x0000_0800;

pub const POPUP: u32 = 0x0000_1000;

pub const MARKER_EXCLUSIVE_FULLSCREEN: u32 = 0x0000_2000;

pub const MARKER_BORDERLESS_FULLSCREEN: u32 = 0x0000_4000;

pub const MARKER_RETAIN_STATE_ON_SIZE: u32 = 0x0000_8000;

pub const MARKER_IN_SIZE_MOVE: u32 = 0x0001_0000;

pub const MINIMIZED: u32 = 0x0002_0000;

pub const IGNORE_CURSOR_EVENT: u32 = 0x0004_0000;

pub const MARKER_DECORATIONS: u32 = 0x0008_0000;

pub const MARKER_UNDECORATED_SHADOW: u32 = 0x0010_0000;

pub const MARKER_ACTIVATE: u32 = 0x0020_0000;

pub const EXCLUSIVE_FULLSCREEN_OR_MASK: u32 = 0x0000_0040;

/// Every bit that is the bit of a flag.
pub const ALL: u32 = 0x003F_FFFF;

/// `bit` where `on` holds, else no bit.
pub open spec fn bit_if(on: bool, bit: u32) -> u32 {
    if on {
        bit
    } else {
        0
    }
}

/// The window style that the flags `bits` stand for.
pub open spec fn style_of(bits: u32) -> u32 {
    let style = WS_CAPTION | WS_BORDER | WS_CLIPSIBLINGS | WS_CLIPCHILDREN | WS_SYSMENU | bit_if(
        bits & RESIZABLE == RESIZABLE,
        WS_SIZEBOX,
    ) | bit_if(bits & MAXIMIZABLE == MAXIMIZABLE, WS_MAXIMIZEBOX) | bit_if(
        bits & MINIMIZABLE == MINIMIZABLE,
        WS_MINIMIZEBOX,
    ) | bit_if(bits & VISIBLE == VISIBLE, WS_VISIBLE) | bit_if(bits & CHILD == CHILD, WS_CHILD)
        | bit_if(bits & POPUP == POPUP, WS_POPUP) | bit_if(bits & MINIMIZED == MINIMIZED, WS_MINIMIZE)
        | bit_if(bits & MAXIMIZED == MAXIMIZED, WS_MAXIMIZE);
    if bits & (MARKER_EXCLUSIVE_FULLSCREEN | MARKER_BORDERLESS_FULLSCREEN) != 0 {
        style & !WS_OVERLAPPEDWINDOW
    } else {
        style
    }
}

/// The extended window style that the flags `bits` stand for.
pub open spec fn style_ex_of(bits: u32) -> u32 {
    WS_EX_WINDOWEDGE | WS_EX_ACCEPTFILES | bit_if(bits & ON_TASKBAR == ON_TASKBAR, WS_EX_APPWINDOW)
        | bit_if(bits & ALWAYS_ON_TOP == ALWAYS_ON_TOP, WS_EX_TOPMOST) | bit_if(
        bits & NO_BACK_BUFFER == NO_BACK_BUFFER,
        WS_EX_NOREDIRECTIONBITMAP,
    ) | bit_if(
        bits & IGNORE_CURSOR_EVENT == IGNORE_CURSOR_EVENT,
        WS_EX_TRANSPARENT | WS_EX_LAYERED,
    )
}

impl WindowFlags {
    /// The flags as bits.
    pub closed spec fn spec_bits(&self) -> u32 {
        self.bits
    }

    /// No flag.
    pub fn empty() -> (flags: Self)
        ensures
            flags.spec_bits() == 0,
    {
        WindowFlags { bits: 0 }
    }

    /// The flags whose bits are set in `bits`, or `None` where `bits` holds
    /// a bit that is no flag's.
    pub fn from_bits(bits: u32) -> (flags: Option<Self>)
        ensures
            bits & !ALL == 0 ==> flags is Some && flags->0.spec_bits() == bits,
            bits & !ALL != 0 ==> flags is None,
    {
        if bits & !ALL == 0 {
            Some(WindowFlags { bits })
        } else {
            None
        }
    }

    /// The flags whose bits are set in `bits`; bits that are no flag's are
    /// dropped.
    pub fn from_bits_truncate(bits: u32) -> (flags: Self)
        ensures
            flags.spec_bits() == bits & ALL,
    {
        WindowFlags { bits: bits & ALL }
    }

    /// The flags as bits.
    #[verifier::when_used_as_spec(spec_bits)]
    pub fn bits(&self) -> (bits: u32)
        ensures
            bits == self.spec_bits(),
    {
        self.bits
    }

    /// Whether every flag of `other` is among these.
    pub fn contains(&self, other: WindowFlags) -> (all: bool)
        ensures
            all == (self.spec_bits() & other.spec_bits() == other.spec_bits()),
    {
        self.bits & other.bits == other.bits
    }

    /// Whether some flag of `other` is among these.
    pub fn intersects(&self, other: WindowFlags) -> (some: bool)
        ensures
            some == (self.spec_bits() & other.spec_bits() != 0),
    {
        self.bits & other.bits != 0
    }

    /// These flags and those of `other`.
    pub fn union(self, other: WindowFlags) -> (both: Self)
        ensures
            both.spec_bits() == self.spec_bits() | other.spec_bits(),
    {
        WindowFlags { bits: self.bits | other.bits }
    }

    /// The window style and the extended window style that the flags stand
    /// for. Fullscreen takes the caption, the frame and the system menu away.
    pub fn to_window_styles(self) -> (styles: (u32, u32))
        ensures
            styles.0 == style_of(self.spec_bits()),
            styles.1 == style_ex_of(self.spec_bits()),
    {
        let bits = self.bits;
        let mut style: u32 = WS_CAPTION | WS_BORDER | WS_CLIPSIBLINGS | WS_CLIPCHILDREN | WS_SYSMENU;
        let mut style_ex: u32 = WS_EX_WINDOWEDGE | WS_EX_ACCEPTFILES;
        proof {
            lemma_or_zero();
        }

        if bits & RESIZABLE == RESIZABLE {
            style |= WS_SIZEBOX;
        }
        if bits & MAXIMIZABLE == MAXIMIZABLE {
            style |= WS_MAXIMIZEBOX;
        }
        if bits & MINIMIZABLE == MINIMIZABLE {
            style |= WS_MINIMIZEBOX;
        }
        if bits & VISIBLE == VISIBLE {
            style |= WS_VISIBLE;
        }
        if bits & ON_TASKBAR == ON_TASKBAR {
            style_ex |= WS_EX_APPWINDOW;
        }
        if bits & ALWAYS_ON_TOP == ALWAYS_ON_TOP {
            style_ex |= WS_EX_TOPMOST;
        }
        if bits & NO_BACK_BUFFER == NO_BACK_BUFFER {
            style_ex |= WS_EX_NOREDIRECTIONBITMAP;
        }
        if bits & CHILD == CHILD {
            style |= WS_CHILD;
        }
        if bits & POPUP == POPUP {
            style |= WS_POPUP;
        }
        if bits & MINIMIZED == MINIMIZED {
            style |= WS_MINIMIZE;
        }
        if bits & MAXIMIZED == MAXIMIZED {
            style |= WS_MAXIMIZE;
        }
        if bits & IGNORE_CURSOR_EVENT == IGNORE_CURSOR_EVENT {
            style_ex |= WS_EX_TRANSPARENT | WS_EX_LAYERED;
        }
        if bits & (MARKER_EXCLUSIVE_FULLSCREEN | MARKER_BORDERLESS_FULLSCREEN) != 0 {
            style &= !WS_OVERLAPPEDWINDOW;
        }
        (style, style_ex)
    }
}

/// Adding no bit changes nothing.
proof fn lemma_or_zero()
    ensures
        forall|x: u32| #[trigger] (x | 0) == x,
{
    assert forall|x: u32| #[trigger] (x | 0) == x by {
        assert(x | 0 == x) by (bit_vector);
    }
}

} // verus!
