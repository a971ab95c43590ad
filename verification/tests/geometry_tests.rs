use pointersay::geometry::{calculate_margins, popup_max_size};
use pointersay::session::EnvironmentInfo;

fn env(mw: i32, mh: i32, px: i32, py: i32) -> EnvironmentInfo {
    EnvironmentInfo { monitor_width: mw, monitor_height: mh, pointer_x: px, pointer_y: py }
}

#[test]
fn popup_goes_right_and_down_when_it_fits() {
    let e = env(1920, 1080, 640, 400);
    let m = calculate_margins(&e, 480, 270);
    assert_eq!(m.left, 640);
    assert_eq!(m.right, 1920 - 640 - 480);
    assert_eq!(m.top, 400);
    assert_eq!(m.bottom, 1080 - 400 - 270);
}

#[test]
fn popup_goes_left_and_up_near_the_far_corner() {
    let e = env(1920, 1080, 1800, 1000);
    let m = calculate_margins(&e, 480, 270);
    assert_eq!(m.right, 1920 - 1800);
    assert_eq!(m.left, 1800 - 480);
    assert_eq!(m.bottom, 1080 - 1000);
    assert_eq!(m.top, 1000 - 270);
}

#[test]
fn popup_shrinks_when_no_side_fits() {
    let e = env(600, 600, 300, 300);
    let m = calculate_margins(&e, 400, 400);
    assert_eq!(m.right, 0);
    assert_eq!(m.left, 300);
    assert_eq!(m.bottom, 0);
    assert_eq!(m.top, 300);
}

#[test]
fn margins_nonnegative_when_pointer_on_monitor() {
    let cases = [
        env(1920, 1080, 0, 0),
        env(1920, 1080, 1920, 1080),
        env(1920, 1080, 1, 1079),
        env(640, 480, 320, 240),
    ];
    for e in cases {
        let m = calculate_margins(&e, 480, 270);
        assert!(m.top >= 0 && m.right >= 0 && m.bottom >= 0 && m.left >= 0);
    }
}

#[test]
fn popup_max_size_is_a_quarter_of_the_monitor() {
    let e = env(1920, 1080, 0, 0);
    assert_eq!(popup_max_size(&e), (480, 270));
    let e = env(1919, 1079, 0, 0);
    assert_eq!(popup_max_size(&e), (479, 269));
}
