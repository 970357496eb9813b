use talon_pilot_studio::platform::{HostEnv, Platform};
use talon_pilot_studio::window_state::{
    geometry_of, geometry_to_restore, is_visible_on, state_file, WindowGeometry,
};

const MAIN: (i32, i32, u32, u32) = (0, 0, 2560, 1440);
const SIDE: (i32, i32, u32, u32) = (2560, 0, 1920, 1080);

fn geo(x: i32, y: i32, w: u32, h: u32) -> WindowGeometry {
    WindowGeometry {
        x,
        y,
        width: w,
        height: h,
    }
}

#[test]
fn center_on_main_monitor_is_visible() {
    assert!(is_visible_on(&geo(100, 100, 1280, 800), &[MAIN]));
}

#[test]
fn center_on_secondary_monitor_is_visible() {
    assert!(is_visible_on(&geo(3000, 100, 800, 600), &[MAIN, SIDE]));
}

#[test]
fn window_on_unplugged_monitor_is_not_visible() {
    assert!(!is_visible_on(&geo(3000, 100, 800, 600), &[MAIN]));
}

#[test]
fn no_monitors_means_not_visible() {
    assert!(!is_visible_on(&geo(0, 0, 100, 100), &[]));
}

#[test]
fn center_is_halfway_and_edges_count_once() {
    // The center of a window of 101 is 50 to the right of its edge.
    assert!(is_visible_on(&geo(-50, 0, 101, 2), &[(0, 0, 1, 10)]));
    assert!(!is_visible_on(&geo(-51, 0, 101, 2), &[(0, 0, 1, 10)]));
    assert!(!is_visible_on(&geo(-49, 0, 101, 2), &[(0, 0, 1, 10)]));
}

#[test]
fn coordinates_do_not_overflow() {
    assert!(!is_visible_on(&geo(0, 0, u32::MAX, 2), &[(0, 0, 100, 100)]));
    assert!(!is_visible_on(&geo(10, 0, u32::MAX, 2), &[(10, 0, 1, 10)]));
    assert!(is_visible_on(&geo(i32::MIN, 0, 2, 2), &[(i32::MIN, 0, 10, 10)]));
    // A monitor and a window that reach past the largest coordinate.
    assert!(is_visible_on(&geo(i32::MAX, 0, 100, 2), &[(i32::MAX - 10, 0, 100, 10)]));
    assert!(!is_visible_on(&geo(i32::MAX, 0, 200, 2), &[(i32::MAX - 10, 0, 100, 10)]));
    assert!(is_visible_on(&geo(i32::MAX, 0, 1, 1), &[(0, 0, 0x8000_0000, 1)]));
    assert!(is_visible_on(&geo(5, 5, 2, 2), &[(0, 0, u32::MAX, u32::MAX)]));
}

#[test]
fn geometry_is_restored_where_it_is_visible() {
    let g = geo(100, 100, 1280, 800);
    assert_eq!(geometry_to_restore(Some(g), &[MAIN]), Some(g));
    assert_eq!(geometry_to_restore(Some(geo(3000, 100, 800, 600)), &[MAIN]), None);
    assert_eq!(geometry_to_restore(None, &[MAIN]), None);
}

#[test]
fn geometry_is_saved_where_both_parts_are_known() {
    assert_eq!(
        geometry_of(Some((-200, 50)), Some((1440, 900))),
        Some(geo(-200, 50, 1440, 900))
    );
    assert_eq!(geometry_of(None, Some((1440, 900))), None);
    assert_eq!(geometry_of(Some((0, 0)), None), None);
}

#[test]
fn geometry_file_lies_beside_the_settings() {
    let env = HostEnv {
        home: Some("/home/u".to_string()),
        user_profile: None,
        local_app_data: None,
        app_data: None,
    };
    assert_eq!(
        state_file(Platform::Linux, &env).as_deref(),
        Some("/home/u/.config/talon-pilot-studio/window-state.json")
    );
    assert_eq!(state_file(Platform::Windows, &env), None);
}
