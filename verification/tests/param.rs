use signal::param::{LParam, LParamExt, ParamExt, Point, WParam, WParamExt};

#[test]
fn wparam_words() {
    let w = WParam(0x0012_0034);
    assert_eq!(w.get_loword(), 0x34);
    assert_eq!(w.get_hiword(), 0x12);
    assert_eq!(w.get_x(), 0x34);
    assert_eq!(w.get_y(), 0x12);
    assert_eq!(w.get_point(), Point { x: 0x34, y: 0x12 });
    assert_eq!(w.get_pointer_id(), 0x34);
}

#[test]
fn wparam_words_at_the_edges() {
    assert_eq!(WParam(0).get_loword(), 0);
    assert_eq!(WParam(0).get_hiword(), 0);
    assert_eq!(WParam(0xffff).get_loword(), 0xffff);
    assert_eq!(WParam(0xffff).get_hiword(), 0);
    assert_eq!(WParam(0x1_0000).get_loword(), 0);
    assert_eq!(WParam(0x1_0000).get_hiword(), 1);
    assert_eq!(WParam(0xffff_ffff).get_hiword(), 0xffff);
    assert_eq!(WParam(0xffff_ffff).get_x(), 0xffff);
    assert_eq!(WParam(0xffff_ffff).get_y(), 0xffff);
}

#[test]
fn wparam_matches_shifts_and_masks() {
    for value in [0usize, 1, 0x8000, 0xffff, 0x1_0000, 0x7fff_ffff, 0x8000_0000, usize::MAX, usize::MAX - 0x1234] {
        let w = WParam(value);
        assert_eq!(w.get_loword(), (value & 0xffff) as u32);
        assert_eq!(w.get_hiword(), ((value >> 16) & 0xffff) as u32);
        assert_eq!(w.get_x(), (value & 0xffff) as i32);
        assert_eq!(w.get_y(), (value >> 16) as i32);
    }
}

#[test]
fn lparam_words() {
    let l = LParam(0x0064_00c8);
    assert_eq!(l.get_loword(), 200);
    assert_eq!(l.get_hiword(), 100);
    assert_eq!(l.get_x(), 200);
    assert_eq!(l.get_y(), 100);
    assert_eq!(l.get_point(), Point { x: 200, y: 100 });
    assert_eq!(l.get_mouse_position(), (200, 100));
}

#[test]
fn lparam_negative() {
    let l = LParam(-1);
    assert_eq!(l.get_loword(), 0xffff);
    assert_eq!(l.get_hiword(), 0xffff);
    assert_eq!(l.get_x(), 0xffff);
    assert_eq!(l.get_y(), -1);
    let l = LParam(-0x1_0000);
    assert_eq!(l.get_loword(), 0);
    assert_eq!(l.get_y(), -1);
    assert_eq!(l.get_hiword(), 0xffff);
}

#[test]
fn lparam_matches_shifts_and_masks() {
    for value in [0isize, 1, -1, 0x7fff, 0x8000, -0x8000, 0x1_0000, -0x1_0000, 0x7fff_ffff, isize::MAX, isize::MIN, isize::MIN + 0x4321, -0x1234_5678] {
        let l = LParam(value);
        assert_eq!(l.get_loword(), (value & 0xffff) as u32);
        assert_eq!(l.get_hiword(), ((value >> 16) & 0xffff) as u32);
        assert_eq!(l.get_x(), (value & 0xffff) as i32);
        assert_eq!(l.get_y(), (value >> 16) as i32);
    }
}
