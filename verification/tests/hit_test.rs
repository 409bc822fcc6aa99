use signal::hit_test::{hit_test_nca, HitTest, Rect, WmNchittest};
use signal::param::Point;

const WINDOW: Rect = Rect { left: 100, top: 200, right: 600, bottom: 700 };
// The frame around an empty client area: edges are offsets, the top one
// negative.
const FRAME: Rect = Rect { left: -8, top: -8, right: 8, bottom: 8 };

fn part(x: i32, y: i32) -> WmNchittest {
    HitTest::default().determine_point(Point { x, y }, WINDOW, FRAME).hit_test()
}

#[test]
fn hit_test_codes() {
    assert_eq!(WmNchittest::NoWhere.code(), 0);
    assert_eq!(WmNchittest::Caption.code(), 2);
    assert_eq!(WmNchittest::Left.code(), 10);
    assert_eq!(WmNchittest::Right.code(), 11);
    assert_eq!(WmNchittest::Top.code(), 12);
    assert_eq!(WmNchittest::TopLeft.code(), 13);
    assert_eq!(WmNchittest::TopRight.code(), 14);
    assert_eq!(WmNchittest::Bottom.code(), 15);
    assert_eq!(WmNchittest::BottomLeft.code(), 16);
    assert_eq!(WmNchittest::BottomRight.code(), 17);
    assert_eq!(WmNchittest::default(), WmNchittest::NoWhere);
}

#[test]
fn the_nine_parts() {
    assert_eq!(part(103, 203), WmNchittest::TopLeft);
    assert_eq!(part(300, 203), WmNchittest::Top);
    assert_eq!(part(597, 203), WmNchittest::TopRight);
    assert_eq!(part(103, 400), WmNchittest::Left);
    assert_eq!(part(300, 400), WmNchittest::NoWhere);
    assert_eq!(part(597, 400), WmNchittest::Right);
    assert_eq!(part(103, 690), WmNchittest::BottomLeft);
    assert_eq!(part(300, 690), WmNchittest::Bottom);
    assert_eq!(part(597, 690), WmNchittest::BottomRight);
}

#[test]
fn caption_below_the_resize_border() {
    // The resize border is the 8 rows above top - frame.top = 208.
    assert_eq!(part(300, 200), WmNchittest::Top);
    assert_eq!(part(300, 207), WmNchittest::Top);
    assert_eq!(part(300, 208), WmNchittest::Caption);
    assert_eq!(part(300, 226), WmNchittest::Caption);
    assert_eq!(part(300, 227), WmNchittest::NoWhere);
    assert_eq!(part(300, 199), WmNchittest::NoWhere);
}

#[test]
fn band_edges() {
    assert_eq!(part(99, 400), WmNchittest::NoWhere);
    assert_eq!(part(100, 400), WmNchittest::Left);
    assert_eq!(part(107, 400), WmNchittest::Left);
    assert_eq!(part(108, 400), WmNchittest::NoWhere);
    assert_eq!(part(591, 400), WmNchittest::NoWhere);
    assert_eq!(part(592, 400), WmNchittest::Right);
    assert_eq!(part(599, 400), WmNchittest::Right);
    assert_eq!(part(600, 400), WmNchittest::NoWhere);
    assert_eq!(part(300, 679), WmNchittest::NoWhere);
    assert_eq!(part(300, 680), WmNchittest::Bottom);
    assert_eq!(part(300, 699), WmNchittest::Bottom);
    assert_eq!(part(300, 700), WmNchittest::NoWhere);
}

#[test]
fn determine_point_keeps_what_the_point_does_not_change() {
    let hit = HitTest { row: WmNchittest::Bottom, column: WmNchittest::Right, on_resize_border: true };
    let moved = hit.determine_point(Point { x: 300, y: 400 }, WINDOW, FRAME);
    assert_eq!(moved, hit);
    let moved = hit.determine_point(Point { x: 103, y: 400 }, WINDOW, FRAME);
    assert_eq!(
        moved,
        HitTest { row: WmNchittest::Bottom, column: WmNchittest::Left, on_resize_border: true }
    );
    let moved = hit.determine_point(Point { x: 300, y: 220 }, WINDOW, FRAME);
    assert_eq!(
        moved,
        HitTest { row: WmNchittest::Top, column: WmNchittest::Right, on_resize_border: false }
    );
}

#[test]
fn hit_test_as_a_number() {
    let code = |x, y| hit_test_nca(Point { x, y }, WINDOW, FRAME);
    assert_eq!(code(103, 203), 13);
    assert_eq!(code(300, 203), 12);
    assert_eq!(code(300, 220), 2);
    assert_eq!(code(597, 203), 14);
    assert_eq!(code(103, 400), 10);
    assert_eq!(code(300, 400), 0);
    assert_eq!(code(597, 400), 11);
    assert_eq!(code(103, 690), 16);
    assert_eq!(code(300, 690), 15);
    assert_eq!(code(597, 690), 17);
}

#[test]
fn hit_test_at_the_end_of_the_number_line() {
    let window = Rect { left: i32::MAX - 4, top: i32::MAX - 10, right: i32::MAX, bottom: i32::MAX };
    let code = |x, y| hit_test_nca(Point { x, y }, window, FRAME);
    // The window is narrower than the left band: all of its top band is
    // the top left corner.
    assert_eq!(code(i32::MAX - 4, i32::MAX - 10), 13);
    assert_eq!(code(i32::MAX, i32::MAX), 13);
    assert_eq!(code(i32::MAX - 5, i32::MAX), 14);
    assert_eq!(code(i32::MAX - 9, i32::MAX - 10), 12);
    assert_eq!(code(i32::MAX - 9, i32::MAX), 2);
    assert_eq!(code(i32::MIN, i32::MIN), 0);
    let window = Rect { left: i32::MIN, top: i32::MIN, right: i32::MIN + 4, bottom: i32::MIN + 4 };
    assert_eq!(hit_test_nca(Point { x: i32::MIN, y: i32::MIN }, window, FRAME), 13);
}

#[test]
fn rect_extent() {
    assert_eq!(WINDOW.width(), 500);
    assert_eq!(WINDOW.height(), 500);
    assert_eq!(FRAME.width(), 16);
    assert_eq!(Rect { left: 5, top: 9, right: 2, bottom: 3 }.width(), -3);
    assert_eq!(Rect { left: 5, top: 9, right: 2, bottom: 3 }.height(), -6);
}
