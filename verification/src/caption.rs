//! The decisions of a window procedure that draws its own caption.

use crate::hit_test::Rect;
use crate::messages::{WM_ACTIVATE, WM_CREATE, WM_NCCALCSIZE, WM_NCHITTEST, WM_PAINT};
use crate::param::WParam;
use vstd::prelude::*;

verus! {

/// What a message asks the window with a custom caption to do, besides
/// answering it.
#[derive(Clone, Copy, Debug, PartialEq, Eq, Structural)]
pub enum CaptionWork {
    /// Tell the system that the frame changed, at the window's own place.
    AnnounceFrame,
    /// Extend the frame into the client area by the four band widths.
    ExtendFrame,
    /// Paint the caption.
    Paint,
    /// Test which part of the frame lies under the mouse.
    HitTest,
    /// Nothing.
    Nothing,
}

/// The work that message number `message` asks for, given the answer
/// `composed` that the desktop composition gave to it before.
pub open spec fn work_of(message: u32, composed: isize) -> CaptionWork {
    if message == WM_CREATE {
        CaptionWork::AnnounceFrame
    } else if message == WM_ACTIVATE {
        CaptionWork::ExtendFrame
    } else if message == WM_PAINT {
        CaptionWork::Paint
    } else if message == WM_NCHITTEST && composed == 0 {
        CaptionWork::HitTest
    } else {
        CaptionWork::Nothing
    }
}

/// The answer to a message and whether the message goes on to the
/// application's own procedure. `handled` and `composed` are what the desktop
/// composition said of the message: whether it handled it, and its answer;
/// `hit` is the result of the hit test, read only where one was asked for.
pub open spec fn answer_of(
    message: u32,
    w: WParam,
    handled: bool,
    composed: isize,
    hit: isize,
) -> (isize, bool) {
    if message == WM_CREATE || message == WM_ACTIVATE || message == WM_PAINT {
        (0, true)
    } else if message == WM_NCCALCSIZE && w.0 == 1 {
        (composed, false)
    } else if message == WM_NCHITTEST && composed == 0 {
        (hit, hit == 0 && !handled)
    } else {
        (composed, !handled)
    }
}

/// The work that message number `message` asks for, given the answer
/// `composed` that the desktop composition gave to it before.
pub fn custom_caption_work(message: u32, composed: isize) -> (work: CaptionWork)
    ensures
        work == work_of(message, composed),
{
    if message == WM_CREATE {
        CaptionWork::AnnounceFrame
    } else if message == WM_ACTIVATE {
        CaptionWork::ExtendFrame
    } else if message == WM_PAINT {
        CaptionWork::Paint
    } else if message == WM_NCHITTEST && composed == 0 {
        CaptionWork::HitTest
    } else {
        CaptionWork::Nothing
    }
}

/// The answer to a message and whether the message goes on to the
/// application's own procedure. A message that the composition did not handle
/// goes on; creation, activation and painting always go on, answered with
/// zero; the size of the client area, asked with a first parameter of one,
/// stays here; a hit in the frame stays here.
pub fn custom_caption_proc(message: u32, w: WParam, handled: bool, composed: isize, hit: isize) -> (answer:
    (isize, bool))
    ensures
        answer == answer_of(message, w, handled, composed, hit),
{
    let mut l_ret = composed;
    let mut call_dwp = !handled;

    if message == WM_CREATE {
        call_dwp = true;
        l_ret = 0;
    }
    if message == WM_ACTIVATE {
        call_dwp = true;
        l_ret = 0;
    }
    if message == WM_PAINT {
        call_dwp = true;
        l_ret = 0;
    }
    if message == WM_NCCALCSIZE && w.0 == 1 {
        call_dwp = false;
    }
    if message == WM_NCHITTEST && l_ret == 0 {
        l_ret = hit;
        if l_ret != 0 {
            call_dwp = false;
        }
    }
    (l_ret, call_dwp)
}

/// Who answers a message.
#[derive(Clone, Copy, Debug, PartialEq, Eq, Structural)]
pub enum Route {
    /// The application's own procedure.
    Application,
    /// Nobody else: this is the answer.
    Answer(isize),
}

/// Who answers a message, given whether there is desktop composition and
/// what the caption's procedure said. Without composition the caption's
/// procedure is not asked, and the answer is zero.
pub fn wndproc(composition: bool, caption: (isize, bool)) -> (route: Route)
    ensures
        route == if composition && caption.1 {
            Route::Application
        } else if composition {
            Route::Answer(caption.0)
        } else {
            Route::Answer(0)
        },
{
    let mut call_dwp = false;
    let mut l_ret: isize = 0;
    if composition {
        l_ret = caption.0;
        call_dwp = caption.1;
    }
    if call_dwp {
        Route::Application
    } else {
        Route::Answer(l_ret)
    }
}

/// Where the title is drawn in a client area: eight pixels in from the left
/// and the top, clear of the caption buttons on the right, down to row 50.
pub fn title_rect(client: Rect) -> (title: Rect)
    requires
        client.top + 8 <= i32::MAX,
        client.left + 8 <= i32::MAX,
        client.right - 125 >= i32::MIN,
    ensures
        title == (Rect {
            left: (client.left + 8) as i32,
            top: (client.top + 8) as i32,
            right: (client.right - 125) as i32,
            bottom: 50,
        }),
{
    Rect { top: client.top + 8, right: client.right - 125, left: client.left + 8, bottom: 50 }
}

} // verus!
