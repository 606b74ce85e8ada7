use floatwm::geometry::{move_axis, move_target, resize_axis, resize_target, BORDER_WIDTH, MIN_SIZE};
use floatwm::placement::{decide_initial_geometry, Placement, INITIAL_HEIGHT, INITIAL_WIDTH};
use floatwm::protocol::{Geometry, Pointer, ScreenInfo};

fn full_hd() -> ScreenInfo {
    ScreenInfo { root: 1, width: 1920, height: 1080 }
}

fn vga_window(x: i16, y: i16) -> Geometry {
    Geometry { x, y, width: 640, height: 480 }
}

#[test]
fn constants_have_documented_values() {
    assert_eq!(BORDER_WIDTH, 2);
    assert_eq!(MIN_SIZE, 32);
    assert_eq!(INITIAL_WIDTH, 640);
    assert_eq!(INITIAL_HEIGHT, 480);
}

#[test]
fn move_axis_keeps_candidate_inside_screen() {
    assert_eq!(move_axis(500, 10, 640, 1920), 490);
}

#[test]
fn move_axis_clamps_negative_candidate_to_zero() {
    assert_eq!(move_axis(5, 10, 640, 1920), 0);
    assert_eq!(move_axis(-300, 10, 640, 1920), 0);
}

#[test]
fn move_axis_zero_candidate_is_zero() {
    assert_eq!(move_axis(10, 10, 640, 1920), 0);
}

#[test]
fn move_axis_clamps_to_far_edge() {
    assert_eq!(move_axis(1900, 10, 640, 1920), 1276);
}

#[test]
fn move_axis_allows_window_flush_with_far_edge() {
    // 1276 + 644 == 1920: not beyond the edge, so not clamped.
    assert_eq!(move_axis(1286, 10, 640, 1920), 1276);
    // One pixel further is clamped back.
    assert_eq!(move_axis(1287, 10, 640, 1920), 1276);
    // One pixel nearer is left alone.
    assert_eq!(move_axis(1285, 10, 640, 1920), 1275);
}

#[test]
fn move_axis_with_window_larger_than_screen() {
    // The far-edge clamp may then give a negative position.
    assert_eq!(move_axis(15, 10, 200, 100), -104);
    assert_eq!(move_axis(0, 10, 200, 100), 0);
}

#[test]
fn move_axis_survives_extreme_inputs() {
    assert_eq!(move_axis(i16::MIN, i32::MAX, 640, 1920), 0);
    assert_eq!(move_axis(i16::MAX, i32::MIN, 640, 1920), 1276);
    assert_eq!(move_axis(i16::MAX, i32::MIN, u16::MAX, 0), -65539);
    assert_eq!(move_axis(i16::MAX, i32::MIN, 0, u16::MAX), 65531);
}

#[test]
fn move_target_clamps_at_right_edge() {
    let target = move_target(10, 10, Pointer { root_x: 1900, root_y: 50 }, vga_window(0, 0), full_hd());
    assert_eq!(target, (1920 - 644, 40));
}

#[test]
fn move_target_clamps_x_and_keeps_y() {
    let target = move_target(10, 10, Pointer { root_x: 1900, root_y: 20 }, vga_window(0, 0), full_hd());
    assert_eq!(target, (1276, 10));
}

#[test]
fn move_target_clamps_at_bottom_edge() {
    let target = move_target(0, 0, Pointer { root_x: 100, root_y: 1000 }, vga_window(0, 0), full_hd());
    assert_eq!(target, (100, 1080 - 484));
}

#[test]
fn move_target_stays_on_screen_for_fitting_windows() {
    let screen = full_hd();
    let sizes: [(u16, u16); 4] = [(1, 1), (640, 480), (1916, 1076), (100, 1076)];
    let points: [i16; 7] = [i16::MIN, -1, 0, 1, 700, 1919, i16::MAX];
    let offsets: [i32; 5] = [-65535, -10, 0, 10, 65535];
    for (w, h) in sizes {
        for px in points {
            for py in points {
                for off in offsets {
                    let g = Geometry { x: 3, y: 4, width: w, height: h };
                    let (x, y) = move_target(off, off, Pointer { root_x: px, root_y: py }, g, screen);
                    assert!(0 <= x && x <= 1920 - (w as i32 + 4));
                    assert!(0 <= y && y <= 1080 - (h as i32 + 4));
                }
            }
        }
    }
}

#[test]
fn move_target_is_stable_under_resting_pointer() {
    let screen = full_hd();
    let pointer = Pointer { root_x: 700, root_y: 900 };
    let first = move_target(25, 30, pointer, vga_window(100, 100), screen);
    assert_eq!(first, (675, 596));
    let moved = vga_window(first.0 as i16, first.1 as i16);
    let second = move_target(25, 30, pointer, moved, screen);
    assert_eq!(second, first);
}

#[test]
fn resize_axis_formula() {
    assert_eq!(resize_axis(105, 100), 2);
    assert_eq!(resize_axis(303, 100), 200);
    assert_eq!(resize_axis(100, 100), -3);
    assert_eq!(resize_axis(i16::MAX, i16::MIN), 65532);
    assert_eq!(resize_axis(i16::MIN, i16::MAX), -65538);
}

#[test]
fn resize_target_gives_size_under_pointer() {
    let r = resize_target(Pointer { root_x: 303, root_y: 203 }, vga_window(100, 100));
    assert_eq!(r, Some((200, 100)));
}

#[test]
fn resize_target_suppressed_below_floor() {
    let r = resize_target(Pointer { root_x: 105, root_y: 105 }, vga_window(100, 100));
    assert_eq!(r, None);
}

#[test]
fn resize_target_at_exact_floor() {
    assert_eq!(resize_target(Pointer { root_x: 135, root_y: 135 }, vga_window(100, 100)), Some((32, 32)));
    assert_eq!(resize_target(Pointer { root_x: 134, root_y: 135 }, vga_window(100, 100)), None);
    assert_eq!(resize_target(Pointer { root_x: 135, root_y: 134 }, vga_window(100, 100)), None);
}

#[test]
fn resize_target_needs_both_dimensions() {
    assert_eq!(resize_target(Pointer { root_x: 900, root_y: 110 }, vga_window(100, 100)), None);
    assert_eq!(resize_target(Pointer { root_x: 110, root_y: 900 }, vga_window(100, 100)), None);
    assert_eq!(resize_target(Pointer { root_x: 0, root_y: 0 }, vga_window(100, 100)), None);
}

#[test]
fn resize_target_never_below_floor() {
    let points: [i16; 8] = [i16::MIN, -40, 0, 31, 35, 36, 500, i16::MAX];
    for px in points {
        for py in points {
            match resize_target(Pointer { root_x: px, root_y: py }, vga_window(0, 0)) {
                Some((w, h)) => {
                    assert!(w >= 32 && h >= 32);
                    assert_eq!(w as i32, px as i32 - 3);
                    assert_eq!(h as i32, py as i32 - 3);
                }
                None => assert!((px as i32) - 3 < 32 || (py as i32) - 3 < 32),
            }
        }
    }
}

#[test]
fn resize_target_extreme_span() {
    let g = Geometry { x: i16::MIN, y: i16::MIN, width: 1, height: 1 };
    let r = resize_target(Pointer { root_x: i16::MAX, root_y: i16::MAX }, g);
    assert_eq!(r, Some((65532, 65532)));
}

#[test]
fn initial_placement_is_constant() {
    let expected = Placement { x: 0, y: 0, width: 640, height: 480, border: 2 };
    assert_eq!(decide_initial_geometry(5), expected);
    assert_eq!(decide_initial_geometry(0), expected);
    assert_eq!(decide_initial_geometry(u32::MAX), expected);
}
