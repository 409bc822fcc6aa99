//! The two parameters of a window message, and the words packed in them.

use vstd::prelude::*;

verus! {

/// The low 16 bits of `bits`, as a number.
pub open spec fn low_word(bits: int) -> int {
    bits % 0x1_0000
}

/// Bits 16 to 31 of `bits`, as a number.
pub open spec fn high_word(bits: int) -> int {
    (bits / 0x1_0000) % 0x1_0000
}

/// The number that the low 32 bits of `bits` stand for in two's complement.
pub open spec fn signed_32(bits: int) -> int {
    let low = bits % 0x1_0000_0000;
    if low < 0x8000_0000 {
        low
    } else {
        low - 0x1_0000_0000
    }
}

/// The number that the low 16 bits of `bits` stand for in two's complement.
pub open spec fn signed_16(bits: int) -> int {
    let low = bits % 0x1_0000;
    if low < 0x8000 {
        low
    } else {
        low - 0x1_0000
    }
}

/// A point in pixels.
#[derive(Clone, Copy, Debug, PartialEq, Eq, Structural)]
pub struct Point {
    pub x: i32,
    pub y: i32,
}

/// First parameter of a window message.
#[derive(Clone, Copy, Debug, PartialEq, Eq, Structural)]
pub struct WParam(pub usize);

/// Second parameter of a window message.
#[derive(Clone, Copy, Debug, PartialEq, Eq, Structural)]
pub struct LParam(pub isize);

/// The 64 bits that hold `value` in two's complement.
fn bits_of(value: i64) -> (bits: u64)
    ensures
        bits == value as int % 0x1_0000_0000_0000_0000,
{
    if value >= 0 {
        value as u64
    } else {
        let lifted: i64 = value + 0x4000_0000_0000_0000 + 0x4000_0000_0000_0000;
        lifted as u64 + 0x8000_0000_0000_0000
    }
}

fn low_word_of(bits: u64) -> (word: u32)
    ensures
        word == low_word(bits as int),
{
    assert(bits & 0xffff == bits % 0x1_0000) by (bit_vector);
    (bits & 0xffff) as u32
}

fn high_word_of(bits: u64) -> (word: u32)
    ensures
        word == high_word(bits as int),
{
    assert((bits >> 16) & 0xffff == (bits / 0x1_0000) % 0x1_0000) by (bit_vector);
    ((bits >> 16) & 0xffff) as u32
}

/// What is left of `bits >> 16` in 32 bits, read in two's complement.
fn upper_as_i32(bits: u64) -> (y: i32)
    ensures
        y == signed_32(bits as int / 0x1_0000),
{
    assert((bits >> 16) & 0xffff_ffff == (bits / 0x1_0000) % 0x1_0000_0000) by (bit_vector);
    let low: u64 = (bits >> 16) & 0xffff_ffff;
    if low < 0x8000_0000 {
        low as i32
    } else {
        (low as i64 - 0x1_0000_0000) as i32
    }
}

/// The words of a message parameter.
pub trait ParamExt {
    /// The parameter as a mathematical integer.
    spec fn value(&self) -> int;

    /// The low word.
    fn get_loword(&self) -> (word: u32)
        ensures
            word == low_word(self.value()),
    ;

    /// The high word.
    fn get_hiword(&self) -> (word: u32)
        ensures
            word == high_word(self.value()),
    ;

    /// The horizontal coordinate: the low word.
    fn get_x(&self) -> (x: i32)
        ensures
            x == low_word(self.value()),
    ;

    /// The vertical coordinate: all that lies above the low word, cut to 32
    /// bits.
    fn get_y(&self) -> (y: i32)
        ensures
            y == signed_32(self.value() / 0x1_0000),
    ;

    /// Both coordinates.
    fn get_point(&self) -> (point: Point)
        ensures
            point.x == low_word(self.value()),
            point.y == signed_32(self.value() / 0x1_0000),
    {
        Point { x: self.get_x(), y: self.get_y() }
    }
}

impl ParamExt for WParam {
    open spec fn value(&self) -> int {
        self.0 as int
    }

    fn get_loword(&self) -> (word: u32) {
        low_word_of(self.0 as u64)
    }

    fn get_hiword(&self) -> (word: u32) {
        high_word_of(self.0 as u64)
    }

    fn get_x(&self) -> (x: i32) {
        low_word_of(self.0 as u64) as i32
    }

    fn get_y(&self) -> (y: i32) {
        upper_as_i32(self.0 as u64)
    }
}

impl ParamExt for LParam {
    open spec fn value(&self) -> int {
        self.0 as int
    }

    fn get_loword(&self) -> (word: u32) {
        low_word_of(bits_of(self.0 as i64))
    }

    fn get_hiword(&self) -> (word: u32) {
        high_word_of(bits_of(self.0 as i64))
    }

    fn get_x(&self) -> (x: i32) {
        low_word_of(bits_of(self.0 as i64)) as i32
    }

    fn get_y(&self) -> (y: i32) {
        upper_as_i32(bits_of(self.0 as i64))
    }
}

/// What the first parameter carries besides its words.
pub trait WParamExt: ParamExt {
    /// The id of the pointer that a pointer message is about: the low word.
    fn get_pointer_id(&self) -> (id: u32)
        ensures
            id == low_word(self.value()),
    {
        self.get_loword()
    }
}

impl WParamExt for WParam {

}

/// What the second parameter carries besides its words.
pub trait LParamExt: ParamExt {
    /// The position of the mouse: both coordinates.
    fn get_mouse_position(&self) -> (position: (i32, i32))
        ensures
            position.0 == low_word(self.value()),
            position.1 == signed_32(self.value() / 0x1_0000),
    {
        (self.get_x(), self.get_y())
    }
}

impl LParamExt for LParam {

}

} // verus!
