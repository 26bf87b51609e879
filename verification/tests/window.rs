use exile_controller::controller::action_manager::{ActionDistance, ActionManager};
use exile_controller::controller::input::ControllerTypeDetection;
use exile_controller::game_window_tracker::{
    GameWindowTracker, WindowChromeInsets, WindowPosition,
};
use exile_controller::settings::{
    sanitize_settings, ApplicationSettings, ControllerSettings, OverlaySettings, SettingsSource,
};

fn settings(windowed_mode: bool) -> ApplicationSettings {
    let names = [
        "a", "b", "x", "y", "bumper_left", "bumper_right", "trigger_left", "trigger_right",
        "start", "back", "dpad_down", "dpad_left", "dpad_right", "dpad_up", "left_analog",
        "right_analog",
    ];
    let source = SettingsSource {
        overlay: OverlaySettings {
            screen_height: 1080,
            screen_width: 1920,
            show_crosshair: false,
            show_buttons: false,
            always_show_overlay: false,
            windowed_mode,
        },
        button_mapping: names.iter().map(|n| (String::from(*n), String::new())).collect(),
        aimable_buttons: Vec::new(),
        action_distances: Vec::<(String, ActionDistance)>::new(),
        controller: ControllerSettings {
            controller_deadzone: 0,
            trigger_threshold: 0,
            walk_circle_radius_px: 200,
            close_circle_radius_px: 150,
            mid_circle_radius_px: 300,
            far_circle_radius_px: 450,
            controller_type: ControllerTypeDetection::Auto,
        },
    };
    sanitize_settings(&source).unwrap()
}

const LINUX: WindowChromeInsets =
    WindowChromeInsets { title_bar_height: 2, window_shadow_amount: 2 };
const WINDOWS: WindowChromeInsets =
    WindowChromeInsets { title_bar_height: 32, window_shadow_amount: 10 };

fn window(x: i32, y: i32, width: i32, height: i32) -> Option<WindowPosition> {
    Some(WindowPosition { x, y, width, height })
}

#[test]
fn new_tracker_fills_the_screen() {
    let tracker = GameWindowTracker::new(&settings(false));
    assert!(!tracker.windowed_mode());
    assert_eq!(tracker.window_pos_x(), 0);
    assert_eq!(tracker.window_pos_y(), 0);
    assert_eq!(tracker.game_window_width(), 1920);
    assert_eq!(tracker.game_window_height(), 1080);
    assert!(GameWindowTracker::new(&settings(true)).windowed_mode());
}

#[test]
fn game_title_is_matched_without_regard_to_case() {
    let tracker = GameWindowTracker::new(&settings(false));
    assert!(tracker.is_poe_active(Some("Path of Exile")));
    assert!(tracker.is_poe_active(Some("path of exile")));
    assert!(tracker.is_poe_active(Some("PATH OF EXILE")));
    assert!(!tracker.is_poe_active(Some("Path of Exile 2")));
    assert!(!tracker.is_poe_active(Some("")));
    assert!(!tracker.is_poe_active(None));
}

#[test]
fn windowed_tracker_follows_the_focused_game() {
    let mut tracker = GameWindowTracker::new(&settings(true));
    tracker.update_window_tracker(Some("Path of Exile"), window(100, 50, 1280, 720));
    assert_eq!(
        tracker,
        GameWindowTracker {
            windowed_mode: true,
            window_pos_x: 100,
            window_pos_y: 50,
            game_window_width: 1280,
            game_window_height: 720,
        }
    );
}

#[test]
fn fullscreen_tracker_keeps_its_size() {
    let mut tracker = GameWindowTracker::new(&settings(false));
    tracker.update_window_tracker(Some("Path of Exile"), window(100, 50, 1280, 720));
    assert_eq!(
        tracker,
        GameWindowTracker {
            windowed_mode: false,
            window_pos_x: 100,
            window_pos_y: 50,
            game_window_width: 1920,
            game_window_height: 1080,
        }
    );
}

#[test]
fn tracker_goes_to_the_origin_while_another_window_has_the_focus() {
    let mut tracker = GameWindowTracker::new(&settings(true));
    tracker.update_window_tracker(Some("Path of Exile"), window(100, 50, 1280, 720));
    tracker.update_window_tracker(Some("Browser"), window(7, 8, 9, 10));
    assert_eq!(
        tracker,
        GameWindowTracker {
            windowed_mode: true,
            window_pos_x: 0,
            window_pos_y: 0,
            game_window_width: 1280,
            game_window_height: 720,
        }
    );
    tracker.update_window_tracker(None, window(7, 8, 9, 10));
    assert_eq!(tracker.window_pos_x(), 0);
    assert_eq!(tracker.game_window_width(), 1280);
}

#[test]
fn tracker_without_a_reported_position() {
    let mut tracker = GameWindowTracker::new(&settings(true));
    tracker.update_window_tracker(Some("Path of Exile"), window(100, 50, 1280, 720));
    tracker.update_window_tracker(Some("Path of Exile"), None);
    assert_eq!(
        tracker,
        GameWindowTracker {
            windowed_mode: true,
            window_pos_x: 0,
            window_pos_y: 0,
            game_window_width: 0,
            game_window_height: 0,
        }
    );
    let mut tracker = GameWindowTracker::new(&settings(false));
    tracker.update_window_tracker(Some("Path of Exile"), None);
    assert_eq!(tracker.game_window_width(), 1920);
    assert_eq!(tracker.game_window_height(), 1080);
}

#[test]
fn positions_are_bounded_to_the_visible_window() {
    let mut tracker = GameWindowTracker::new(&settings(true));
    tracker.update_window_tracker(Some("Path of Exile"), window(100, 50, 1280, 720));
    // Inside: unchanged.
    assert_eq!(tracker.get_window_bounded_position(500, 400, LINUX), (500, 400));
    // On the bounds: unchanged.
    assert_eq!(tracker.get_window_bounded_position(102, 52, LINUX), (102, 52));
    assert_eq!(tracker.get_window_bounded_position(1378, 768, LINUX), (1378, 768));
    // Outside: the nearest point.
    assert_eq!(tracker.get_window_bounded_position(0, 0, LINUX), (102, 52));
    assert_eq!(tracker.get_window_bounded_position(5000, 5000, LINUX), (1378, 768));
    assert_eq!(tracker.get_window_bounded_position(101, 769, LINUX), (102, 768));
    assert_eq!(tracker.get_window_bounded_position(-40, 400, LINUX), (102, 400));
    // Larger decorations.
    assert_eq!(tracker.get_window_bounded_position(0, 0, WINDOWS), (110, 82));
    assert_eq!(tracker.get_window_bounded_position(5000, 5000, WINDOWS), (1370, 760));
}

#[test]
fn crossed_bounds_prefer_the_lower_one() {
    let mut tracker = GameWindowTracker::new(&settings(true));
    tracker.update_window_tracker(Some("Path of Exile"), window(100, 50, 10, 10));
    assert_eq!(tracker.get_window_bounded_position(0, 0, WINDOWS), (110, 82));
    // Above the upper bound but not below the lower one: the upper bound.
    assert_eq!(tracker.get_window_bounded_position(500, 500, WINDOWS), (100, 50));
    assert_eq!(tracker.get_window_bounded_position(105, 60, WINDOWS), (110, 82));
}

#[test]
fn bounding_with_extreme_values() {
    let tracker = GameWindowTracker {
        windowed_mode: true,
        window_pos_x: i32::MAX,
        window_pos_y: i32::MIN,
        game_window_width: i32::MAX,
        game_window_height: i32::MIN,
    };
    let insets = WindowChromeInsets { title_bar_height: i32::MAX, window_shadow_amount: i32::MIN };
    let max = i32::MAX as i64;
    let min = i32::MIN as i64;
    assert_eq!(
        tracker.get_window_bounded_position(i64::MAX, i64::MAX, insets),
        (max + max - min, min + min - min)
    );
    assert_eq!(
        tracker.get_window_bounded_position(i64::MIN, i64::MIN, insets),
        (max + min, min + max)
    );
}

#[test]
fn cursor_is_only_bounded_in_windowed_mode() {
    let mut windowed = GameWindowTracker::new(&settings(true));
    windowed.update_window_tracker(Some("Path of Exile"), window(100, 50, 1280, 720));
    assert_eq!(windowed.safe_cursor_position(0, 0, LINUX), (102, 52));
    assert_eq!(windowed.safe_cursor_position(500, 400, LINUX), (500, 400));
    let mut fullscreen = GameWindowTracker::new(&settings(false));
    fullscreen.update_window_tracker(Some("Path of Exile"), window(100, 50, 1280, 720));
    assert_eq!(fullscreen.safe_cursor_position(0, 0, LINUX), (0, 0));
    assert_eq!(fullscreen.safe_cursor_position(-7, 99999, LINUX), (-7, 99999));
}

#[test]
fn manager_tracks_the_window() {
    let settings = settings(true);
    let tracker = GameWindowTracker::new(&settings);
    let mut manager = ActionManager::initialize(settings, tracker);
    assert_eq!(manager.game_window_tracker(), tracker);
    manager.update_window_tracker(Some("path of exile"), window(100, 50, 1280, 720));
    assert_eq!(manager.game_window_tracker().window_pos_x(), 100);
    assert_eq!(manager.game_window_tracker().game_window_height(), 720);
    assert_eq!(manager.get_window_bounded_position(0, 0, LINUX), (102, 52));
    assert_eq!(manager.safe_cursor_position(5000, 5000, LINUX), (1378, 768));
}
