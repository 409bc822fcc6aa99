//! Window messages, decoded from their number and their two parameters.

use crate::param::{high_word, low_word, signed_16, signed_32, LParam, ParamExt, Point, WParam};
use vstd::prelude::*;
use vstd::string::StringExecFns;

verus! {

pub const WM_CREATE: u32 = 0x0001;

pub const WM_DESTROY: u32 = 0x0002;

pub const WM_SIZE: u32 = 0x0005;

pub const WM_ACTIVATE: u32 = 0x0006;

pub const WM_PAINT: u32 = 0x000F;

pub const WM_CLOSE: u32 = 0x0010;

pub const WM_QUIT: u32 = 0x0012;

pub const WM_DISPLAYCHANGE: u32 = 0x007E;

pub const WM_NCCREATE: u32 = 0x0081;

pub const WM_NCCALCSIZE: u32 = 0x0083;

pub const WM_NCHITTEST: u32 = 0x0084;

pub const WM_COMMAND: u32 = 0x0111;

pub const WM_LBUTTONDOWN: u32 = 0x0201;

pub const WM_LBUTTONDBLCLK: u32 = 0x0203;

pub const WM_RBUTTONDOWN: u32 = 0x0204;

pub const WM_MOUSEWHEEL: u32 = 0x020A;

pub const WM_POINTERUPDATE: u32 = 0x0245;

pub const WM_POINTERDOWN: u32 = 0x0246;

pub const WM_POINTERUP: u32 = 0x0247;

pub const WM_POINTERENTER: u32 = 0x0249;

pub const WM_POINTERLEAVE: u32 = 0x024A;

pub const WM_USER: u32 = 0x0400;

pub const MK_LBUTTON: u32 = 0x0001;

pub const MK_RBUTTON: u32 = 0x0002;

pub const MK_SHIFT: u32 = 0x0004;

pub const MK_CONTROL: u32 = 0x0008;

pub const MK_MBUTTON: u32 = 0x0010;

pub const MK_XBUTTON1: u32 = 0x0020;

pub const MK_XBUTTON2: u32 = 0x0040;

pub const BN_CLICKED: u32 = 0;

pub const BN_PUSHED: u32 = 2;

pub const BN_DBLCLK: u32 = 5;

pub const EN_CHANGE: u32 = 0x0300;

/// Every bit that is a pointer flag.
pub const POINTER_FLAGS_ALL: u32 = 0x007F_E1F7;

pub const PT_POINTER: i32 = 1;

pub const PT_TOUCH: i32 = 2;

pub const PT_PEN: i32 = 3;

pub const PT_MOUSE: i32 = 4;

pub const PT_TOUCHPAD: i32 = 5;

/// A key or button that is held down while the mouse wheel turns.
#[derive(Clone, Copy, Debug, PartialEq, Eq, Structural)]
pub enum VirtualKeys {
    /// The CTRL key.
    Ctrl,
    /// The left mouse button.
    LeftMouseButton,
    /// The middle mouse button.
    MiddleMouseButton,
    /// The right mouse button.
    RightMouseButton,
    /// The SHIFT key.
    Shift,
    /// The first X button.
    FirstXButton,
    /// The second X button.
    SecondXButton,
}

/// The kind of control that sent a command.
#[derive(Clone, Copy, Debug, PartialEq, Eq, Structural)]
pub enum TypeCommand {
    Button,
    Edit,
    Other,
}

/// What a control reports with a command.
#[derive(Clone, Copy, Debug, PartialEq, Eq, Structural)]
pub enum Command {
    Clicked,
    DoubleClick,
    Pushed,
    Change,
    Other,
}

/// What a pointer did.
#[derive(Clone, Copy, Debug, PartialEq, Eq, Structural)]
pub enum EventType {
    PointerDown,
    PointerUpdate,
    PointerUp,
    PointerEnter,
    PointerLeave,
    PointerOver,
}

impl Default for EventType {
    fn default() -> (event_type: Self)
        ensures
            event_type == EventType::PointerOver,
    {
        EventType::PointerOver
    }
}

/// What a pen reports beyond its position.
#[derive(Clone, Copy, Debug, PartialEq, Eq)]
pub struct PenInfo {
    pub pressure: u32,
    pub tilt: (i32, i32),
    pub rotation: u32,
}

/// What a mouse reports beyond its position: nothing.
#[derive(Clone, Copy, Debug, PartialEq, Eq, Structural)]
pub struct MouseInfo {}

/// What a touch reports beyond its position: nothing.
#[derive(Clone, Copy, Debug, PartialEq, Eq, Structural)]
pub struct TouchInfo {}

/// The device behind a pointer.
#[derive(Clone, Copy, Debug, PartialEq, Eq)]
pub enum PointerType {
    Pointer,
    Touch(TouchInfo),
    Pen(PenInfo),
    Mouse(MouseInfo),
    Touchpad,
}

impl Default for PointerType {
    fn default() -> (pointer_type: Self)
        ensures
            pointer_type == PointerType::Pointer,
    {
        PointerType::Pointer
    }
}

/// The number by which the system knows a pointer.
#[derive(Clone, Copy, Debug, PartialEq, Eq, Hash, Structural)]
pub struct PointerId(pub u32);

/// What a pointer message says.
#[derive(Clone, Copy, Debug, PartialEq, Eq)]
pub struct PointerEvent {
    pub pointer_id: PointerId,
    pub position: Point,
    pub local_position: Point,
    pub frame_id: u32,
    pub time: u32,
    pub pointer_type: PointerType,
    pub event_type: EventType,
}

/// What a mouse wheel message says.
#[derive(Clone, Copy, Debug, PartialEq, Eq, Structural)]
pub struct MouseWheelInfo {
    pub keys: Option<VirtualKeys>,
    pub z_delta: i16,
    pub position: Point,
    pub local_position: Point,
}

/// What a command message says.
#[derive(Clone, Copy, Debug, PartialEq, Eq, Structural)]
pub struct CommandInfo {
    /// The child window that sent the command.
    pub handle: isize,
    pub message: u32,
    pub command: Command,
    pub type_command: TypeCommand,
}

/// A decoded window message.
#[derive(Clone, Copy, Debug, PartialEq, Eq)]
pub enum Message {
    Create,
    Destroy,
    Close,
    Paint,
    PointerDown(PointerEvent),
    PointerUpdate(PointerEvent),
    PointerUp(PointerEvent),
    PointerEnter(PointerEvent),
    PointerLeave(PointerEvent),
    LeftButtonDown,
    RightButtonDown,
    LeftButtondDoubleClick,
    Command(CommandInfo),
    User,
    Activate,
    DisplayChange,
    Size,
    MouseWheel(MouseWheelInfo),
    Quit,
    Other,
}

/// What has to be asked of the system before a message can be decoded.
#[derive(Clone, Copy, Debug, PartialEq, Eq, Structural)]
pub enum Inquiry {
    /// Nothing: the number and the parameters say it all.
    Nothing,
    /// What the system knows of the pointer, and where it is in the window.
    Pointer(PointerId),
    /// The class of the child window that sent the command.
    ChildClass(isize),
    /// Where the point of the message is in the window.
    LocalPosition(Point),
}

/// What the system said of a pointer.
#[derive(Clone, Copy, Debug, PartialEq, Eq)]
pub struct PointerSample {
    /// The kind of device, as the system numbers it.
    pub input_type: i32,
    /// The pointer flags, one bit each.
    pub flags: u32,
    pub frame_id: u32,
    pub time: u32,
    /// What the pen reports; read only where the device is a pen.
    pub pen: PenInfo,
}

/// The answers of the system that decoding may need.
pub struct Answers {
    /// The class name of the child window of a command.
    pub class_name: String,
    /// The point of the message, relative to the window.
    pub local_position: Point,
    pub pointer: PointerSample,
}

/// The key or button that `keys` names, if it names exactly one.
pub open spec fn virtual_key_of(keys: int) -> Option<VirtualKeys> {
    if keys == MK_CONTROL {
        Some(VirtualKeys::Ctrl)
    } else if keys == MK_LBUTTON {
        Some(VirtualKeys::LeftMouseButton)
    } else if keys == MK_MBUTTON {
        Some(VirtualKeys::MiddleMouseButton)
    } else if keys == MK_RBUTTON {
        Some(VirtualKeys::RightMouseButton)
    } else if keys == MK_SHIFT {
        Some(VirtualKeys::Shift)
    } else if keys == MK_XBUTTON1 {
        Some(VirtualKeys::FirstXButton)
    } else if keys == MK_XBUTTON2 {
        Some(VirtualKeys::SecondXButton)
    } else {
        None
    }
}

/// The kind of control whose window class is called `class_name`.
pub open spec fn type_command_of(class_name: Seq<char>) -> TypeCommand {
    if class_name == "Button"@ {
        TypeCommand::Button
    } else if class_name == "Edit"@ {
        TypeCommand::Edit
    } else {
        TypeCommand::Other
    }
}

/// What a control of kind `type_command` reports with `message`.
pub open spec fn command_of(type_command: TypeCommand, message: int) -> Command {
    match type_command {
        TypeCommand::Button => if message == BN_CLICKED {
            Command::Clicked
        } else if message == BN_DBLCLK {
            Command::DoubleClick
        } else if message == BN_PUSHED {
            Command::Pushed
        } else {
            Command::Other
        },
        TypeCommand::Edit => if message == EN_CHANGE {
            Command::Change
        } else {
            Command::Other
        },
        TypeCommand::Other => Command::Other,
    }
}

/// Whether the system numbers a kind of pointer device with `input_type`.
pub open spec fn is_input_type(input_type: int) -> bool {
    PT_POINTER <= input_type <= PT_TOUCHPAD
}

/// Whether every bit of `flags` is a pointer flag.
pub open spec fn are_pointer_flags(flags: u32) -> bool {
    flags & !POINTER_FLAGS_ALL == 0
}

/// Whether `sample` is one that a pointer message can be decoded with: its
/// device is of a known kind, and it has no flag but pointer flags.
pub open spec fn is_sample(sample: PointerSample) -> bool {
    is_input_type(sample.input_type as int) && are_pointer_flags(sample.flags)
}

/// The device that `sample` describes.
pub open spec fn pointer_type_of(sample: PointerSample) -> PointerType {
    if sample.input_type == PT_TOUCH {
        PointerType::Touch(TouchInfo {  })
    } else if sample.input_type == PT_PEN {
        PointerType::Pen(sample.pen)
    } else if sample.input_type == PT_MOUSE {
        PointerType::Mouse(MouseInfo {  })
    } else if sample.input_type == PT_TOUCHPAD {
        PointerType::Touchpad
    } else {
        PointerType::Pointer
    }
}

/// The point that the second parameter holds.
pub open spec fn point_of(l: LParam) -> Point {
    Point { x: low_word(l.0 as int) as i32, y: signed_32(l.0 as int / 0x1_0000) as i32 }
}

/// The pointer event that a pointer message carries.
pub open spec fn pointer_event_of(
    w: WParam,
    l: LParam,
    answers: Answers,
    event_type: EventType,
) -> PointerEvent {
    PointerEvent {
        pointer_id: PointerId(low_word(w.0 as int) as u32),
        position: point_of(l),
        local_position: answers.local_position,
        frame_id: answers.pointer.frame_id,
        time: answers.pointer.time,
        pointer_type: pointer_type_of(answers.pointer),
        event_type,
    }
}

/// What a mouse wheel message carries.
pub open spec fn mouse_wheel_of(w: WParam, l: LParam, answers: Answers) -> MouseWheelInfo {
    MouseWheelInfo {
        keys: virtual_key_of(low_word(w.0 as int)),
        z_delta: signed_16(high_word(w.0 as int)) as i16,
        position: point_of(l),
        local_position: answers.local_position,
    }
}

/// What a command message carries.
pub open spec fn command_info_of(w: WParam, l: LParam, answers: Answers) -> CommandInfo {
    let type_command = type_command_of(answers.class_name@);
    CommandInfo {
        handle: l.0,
        message: high_word(w.0 as int) as u32,
        command: command_of(type_command, high_word(w.0 as int)),
        type_command,
    }
}

/// Whether message number `msg` is about a pointer.
pub open spec fn is_pointer_message(msg: u32) -> bool {
    msg == WM_POINTERDOWN || msg == WM_POINTERUPDATE || msg == WM_POINTERUP || msg
        == WM_POINTERENTER || msg == WM_POINTERLEAVE
}

/// The message with number `msg` and parameters `w` and `l`, given the
/// system's answers. A pointer that enters is reported as a pointer that
/// leaves, with the event type telling the two apart.
pub open spec fn message_of(msg: u32, w: WParam, l: LParam, answers: Answers) -> Message {
    if msg == WM_CREATE {
        Message::Create
    } else if msg == WM_CLOSE {
        Message::Close
    } else if msg == WM_PAINT {
        Message::Paint
    } else if msg == WM_POINTERDOWN {
        Message::PointerDown(pointer_event_of(w, l, answers, EventType::PointerDown))
    } else if msg == WM_POINTERUPDATE {
        Message::PointerUpdate(pointer_event_of(w, l, answers, EventType::PointerUpdate))
    } else if msg == WM_POINTERUP {
        Message::PointerUp(pointer_event_of(w, l, answers, EventType::PointerUp))
    } else if msg == WM_POINTERENTER {
        Message::PointerLeave(pointer_event_of(w, l, answers, EventType::PointerEnter))
    } else if msg == WM_POINTERLEAVE {
        Message::PointerLeave(pointer_event_of(w, l, answers, EventType::PointerLeave))
    } else if msg == WM_DESTROY {
        Message::Destroy
    } else if msg == WM_LBUTTONDOWN {
        Message::LeftButtonDown
    } else if msg == WM_RBUTTONDOWN {
        Message::RightButtonDown
    } else if msg == WM_LBUTTONDBLCLK {
        Message::LeftButtondDoubleClick
    } else if msg == WM_COMMAND {
        Message::Command(command_info_of(w, l, answers))
    } else if msg == WM_USER {
        Message::User
    } else if msg == WM_ACTIVATE {
        Message::Activate
    } else if msg == WM_DISPLAYCHANGE {
        Message::DisplayChange
    } else if msg == WM_SIZE {
        Message::Size
    } else if msg == WM_MOUSEWHEEL {
        Message::MouseWheel(mouse_wheel_of(w, l, answers))
    } else if msg == WM_QUIT {
        Message::Quit
    } else {
        Message::Other
    }
}

/// What decoding message number `msg` needs from the system.
pub open spec fn inquiry_of(msg: u32, w: WParam, l: LParam) -> Inquiry {
    if is_pointer_message(msg) {
        Inquiry::Pointer(PointerId(low_word(w.0 as int) as u32))
    } else if msg == WM_COMMAND {
        Inquiry::ChildClass(l.0)
    } else if msg == WM_MOUSEWHEEL {
        Inquiry::LocalPosition(point_of(l))
    } else {
        Inquiry::Nothing
    }
}

impl PointerId {
    /// The pointer that a pointer message with first parameter `w` is about.
    pub fn new(w: WParam) -> (id: Self)
        ensures
            id == PointerId(low_word(w.0 as int) as u32),
    {
        PointerId(w.get_loword())
    }

    /// The name of the kind of device that the system numbers `input_type`.
    pub fn point_type(input_type: i32) -> (name: &'static str)
        ensures
            name@ == if input_type == PT_POINTER {
                "pointer"@
            } else if input_type == PT_TOUCH {
                "touch"@
            } else if input_type == PT_PEN {
                "pen"@
            } else if input_type == PT_MOUSE {
                "mouse"@
            } else if input_type == PT_TOUCHPAD {
                "touchpad"@
            } else {
                "unknown"@
            },
    {
        if input_type == PT_POINTER {
            "pointer"
        } else if input_type == PT_TOUCH {
            "touch"
        } else if input_type == PT_PEN {
            "pen"
        } else if input_type == PT_MOUSE {
            "mouse"
        } else if input_type == PT_TOUCHPAD {
            "touchpad"
        } else {
            "unknown"
        }
    }
}

/// The key or button that `keys` names, if it names exactly one.
pub fn virtual_key(keys: u32) -> (key: Option<VirtualKeys>)
    ensures
        key == virtual_key_of(keys as int),
{
    if keys == MK_CONTROL {
        Some(VirtualKeys::Ctrl)
    } else if keys == MK_LBUTTON {
        Some(VirtualKeys::LeftMouseButton)
    } else if keys == MK_MBUTTON {
        Some(VirtualKeys::MiddleMouseButton)
    } else if keys == MK_RBUTTON {
        Some(VirtualKeys::RightMouseButton)
    } else if keys == MK_SHIFT {
        Some(VirtualKeys::Shift)
    } else if keys == MK_XBUTTON1 {
        Some(VirtualKeys::FirstXButton)
    } else if keys == MK_XBUTTON2 {
        Some(VirtualKeys::SecondXButton)
    } else {
        None
    }
}

fn same_text(a: &str, b: &str) -> (same: bool)
    ensures
        same == (a@ == b@),
{
    String::from_str(a) == String::from_str(b)
}

/// The kind of control whose window class is called `class_name`.
pub fn type_command(class_name: &str) -> (kind: TypeCommand)
    ensures
        kind == type_command_of(class_name@),
{
    if same_text(class_name, "Button") {
        TypeCommand::Button
    } else if same_text(class_name, "Edit") {
        TypeCommand::Edit
    } else {
        TypeCommand::Other
    }
}

/// What a control of kind `type_command` reports with `message`.
pub fn command(type_command: TypeCommand, message: u32) -> (command: Command)
    ensures
        command == command_of(type_command, message as int),
{
    match type_command {
        TypeCommand::Button => {
            if message == BN_CLICKED {
                Command::Clicked
            } else if message == BN_DBLCLK {
                Command::DoubleClick
            } else if message == BN_PUSHED {
                Command::Pushed
            } else {
                Command::Other
            }
        },
        TypeCommand::Edit => {
            if message == EN_CHANGE {
                Command::Change
            } else {
                Command::Other
            }
        },
        TypeCommand::Other => Command::Other,
    }
}

/// Whether the system numbers a kind of pointer device with `input_type`.
pub fn is_pointer_input_type(input_type: i32) -> (known: bool)
    ensures
        known == is_input_type(input_type as int),
{
    PT_POINTER <= input_type && input_type <= PT_TOUCHPAD
}

/// Whether every bit of `flags` is a pointer flag.
pub fn is_pointer_flags(flags: u32) -> (known: bool)
    ensures
        known == are_pointer_flags(flags),
{
    flags & !POINTER_FLAGS_ALL == 0
}

/// Whether `sample` is one that a pointer message can be decoded with.
pub fn is_pointer_sample(sample: &PointerSample) -> (known: bool)
    ensures
        known == is_sample(*sample),
{
    is_pointer_input_type(sample.input_type) && is_pointer_flags(sample.flags)
}

/// The device that `sample` describes.
pub fn pointer_type(sample: &PointerSample) -> (device: PointerType)
    requires
        is_input_type(sample.input_type as int),
    ensures
        device == pointer_type_of(*sample),
{
    if sample.input_type == PT_TOUCH {
        PointerType::Touch(TouchInfo {  })
    } else if sample.input_type == PT_PEN {
        PointerType::Pen(sample.pen)
    } else if sample.input_type == PT_MOUSE {
        PointerType::Mouse(MouseInfo {  })
    } else if sample.input_type == PT_TOUCHPAD {
        PointerType::Touchpad
    } else {
        PointerType::Pointer
    }
}

fn point(l: LParam) -> (point: Point)
    ensures
        point == point_of(l),
{
    l.get_point()
}

fn pointer_message_handler(w: WParam, l: LParam, answers: &Answers, event_type: EventType) -> (event:
    PointerEvent)
    requires
        is_sample(answers.pointer),
    ensures
        event == pointer_event_of(w, l, *answers, event_type),
{
    PointerEvent {
        pointer_id: PointerId::new(w),
        position: point(l),
        local_position: answers.local_position,
        frame_id: answers.pointer.frame_id,
        time: answers.pointer.time,
        pointer_type: pointer_type(&answers.pointer),
        event_type,
    }
}

fn mouse_wheel_message_handler(w: WParam, l: LParam, answers: &Answers) -> (info: MouseWheelInfo)
    ensures
        info == mouse_wheel_of(w, l, *answers),
{
    let keys = w.get_loword();
    let turned = w.get_hiword();
    let z_delta: i16 = if turned < 0x8000 {
        turned as i16
    } else {
        (turned as i32 - 0x1_0000) as i16
    };
    MouseWheelInfo {
        keys: virtual_key(keys),
        z_delta,
        position: point(l),
        local_position: answers.local_position,
    }
}

fn command_message_handler(w: WParam, l: LParam, answers: &Answers) -> (info: CommandInfo)
    ensures
        info == command_info_of(w, l, *answers),
{
    let message = w.get_hiword();
    let type_command = type_command(answers.class_name.as_str());
    CommandInfo { handle: l.0, message, command: command(type_command, message), type_command }
}

/// Whether message number `msg` ends the message loop.
pub fn is_quit(msg: u32) -> (quit: bool)
    ensures
        quit == (msg == WM_QUIT),
{
    msg == WM_QUIT
}

/// What decoding message number `msg` needs from the system, so that only
/// that is asked.
pub fn inquiry(msg: u32, w: WParam, l: LParam) -> (inquiry: Inquiry)
    ensures
        inquiry == inquiry_of(msg, w, l),
{
    if msg == WM_POINTERDOWN || msg == WM_POINTERUPDATE || msg == WM_POINTERUP || msg
        == WM_POINTERENTER || msg == WM_POINTERLEAVE {
        Inquiry::Pointer(PointerId::new(w))
    } else if msg == WM_COMMAND {
        Inquiry::ChildClass(l.0)
    } else if msg == WM_MOUSEWHEEL {
        Inquiry::LocalPosition(point(l))
    } else {
        Inquiry::Nothing
    }
}

/// Decodes the message with number `msg` and parameters `w` and `l`. Of
/// `answers` it reads only what `inquiry` asks for that message. A pointer
/// message needs a pointer sample that `is_pointer_sample` accepts.
pub fn message_handler(msg: u32, w: WParam, l: LParam, answers: &Answers) -> (message: Message)
    requires
        is_pointer_message(msg) ==> is_sample(answers.pointer),
    ensures
        message == message_of(msg, w, l, *answers),
{
    if msg == WM_CREATE {
        Message::Create
    } else if msg == WM_CLOSE {
        Message::Close
    } else if msg == WM_PAINT {
        Message::Paint
    } else if msg == WM_POINTERDOWN {
        Message::PointerDown(pointer_message_handler(w, l, answers, EventType::PointerDown))
    } else if msg == WM_POINTERUPDATE {
        Message::PointerUpdate(pointer_message_handler(w, l, answers, EventType::PointerUpdate))
    } else if msg == WM_POINTERUP {
        Message::PointerUp(pointer_message_handler(w, l, answers, EventType::PointerUp))
    } else if msg == WM_POINTERENTER {
        Message::PointerLeave(pointer_message_handler(w, l, answers, EventType::PointerEnter))
    } else if msg == WM_POINTERLEAVE {
        Message::PointerLeave(pointer_message_handler(w, l, answers, EventType::PointerLeave))
    } else if msg == WM_DESTROY {
        Message::Destroy
    } else if msg == WM_LBUTTONDOWN {
        Message::LeftButtonDown
    } else if msg == WM_RBUTTONDOWN {
        Message::RightButtonDown
    } else if msg == WM_LBUTTONDBLCLK {
        Message::LeftButtondDoubleClick
    } else if msg == WM_COMMAND {
        Message::Command(command_message_handler(w, l, answers))
    } else if msg == WM_USER {
        Message::User
    } else if msg == WM_ACTIVATE {
        Message::Activate
    } else if msg == WM_DISPLAYCHANGE {
        Message::DisplayChange
    } else if msg == WM_SIZE {
        Message::Size
    } else if msg == WM_MOUSEWHEEL {
        Message::MouseWheel(mouse_wheel_message_handler(w, l, answers))
    } else if msg == WM_QUIT {
        Message::Quit
    } else {
        Message::Other
    }
}

} // verus!
