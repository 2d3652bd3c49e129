use openharmony_ability::draw::{reinterpret_i64, truncate_i32};
use openharmony_ability::{
    Event, HandlerClaim, ImeEvent, InputEvent, IntervalInfo, KeyboardStatus, OpenHarmonyApp, Rect,
    Size,
};

type Ev = Event<u8, u16>;

fn listening() -> OpenHarmonyApp {
    let mut app = OpenHarmonyApp::new(0);
    let mut claim = HandlerClaim::new();
    assert!(app.run_loop(&mut claim));
    app
}

#[test]
fn reinterpret_i64_keeps_small_values() {
    assert_eq!(reinterpret_i64(0), 0);
    assert_eq!(reinterpret_i64(1_000_000_007), 1_000_000_007);
    assert_eq!(reinterpret_i64(i64::MAX as u64), i64::MAX);
}

#[test]
fn reinterpret_i64_wraps_large_values() {
    assert_eq!(reinterpret_i64(1u64 << 63), i64::MIN);
    assert_eq!(reinterpret_i64(u64::MAX), -1);
    assert_eq!(reinterpret_i64(u64::MAX - 9), -10);
}

#[test]
fn truncate_i32_keeps_low_bits() {
    assert_eq!(truncate_i32(0), 0);
    assert_eq!(truncate_i32(1080), 1080);
    assert_eq!(truncate_i32(0x7fff_ffff), i32::MAX);
    assert_eq!(truncate_i32(0x8000_0000), i32::MIN);
    assert_eq!(truncate_i32(0xffff_ffff), -1);
    assert_eq!(truncate_i32(0x1_0000_0005), 5);
    assert_eq!(truncate_i32(u64::MAX), -1);
}

#[test]
fn surface_created_records_rect_and_window() {
    let mut app = listening();
    let event: Option<Ev> = app.on_surface_created(12, 34, 1080, 2340, Some(0xdead_0000));
    assert!(matches!(event, Some(Event::SurfaceCreate)));
    assert_eq!(app.content_rect(), Rect { top: 12, left: 34, width: 1080, height: 2340 });
    assert_eq!(app.native_window(), Some(0xdead_0000));
}

#[test]
fn surface_created_is_recorded_without_handler() {
    let mut app = OpenHarmonyApp::new(0);
    let event: Option<Ev> = app.on_surface_created(1, 2, 3, 4, None);
    assert!(event.is_none());
    assert_eq!(app.content_rect(), Rect { top: 1, left: 2, width: 3, height: 4 });
    assert_eq!(app.native_window(), None);
    assert!(app.show_keyboard().is_some());
}

#[test]
fn surface_created_truncates_extents() {
    let mut app = listening();
    let _: Option<Ev> = app.on_surface_created(0, 0, 0x1_0000_0010, 0xffff_fff0, None);
    assert_eq!(app.content_rect(), Rect { top: 0, left: 0, width: 16, height: -16 });
}

#[test]
fn surface_changed_records_and_reports_size() {
    let mut app = listening();
    let event: Option<Ev> = app.on_surface_changed(5, 6, 700, 800);
    match event {
        Some(Event::WindowResize(size)) => assert_eq!(size, Size { width: 700, height: 800 }),
        _ => panic!("resize expected"),
    }
    assert_eq!(app.content_rect(), Rect { top: 5, left: 6, width: 700, height: 800 });
}

#[test]
fn surface_changed_is_dropped_without_handler() {
    let mut app = OpenHarmonyApp::new(0);
    let event: Option<Ev> = app.on_surface_changed(5, 6, 700, 800);
    assert!(event.is_none());
    assert_eq!(app.content_rect(), Rect::default());
}

#[test]
fn frame_reports_request_and_target_times() {
    let app = listening();
    match app.on_frame::<u8, u16>(2_000, 1_000) {
        Some(Event::WindowRedraw(info)) => {
            assert_eq!(info, IntervalInfo { time_stamp: 1_000, target_time_stamp: 2_000 })
        }
        _ => panic!("redraw expected"),
    }
    match app.on_frame::<u8, u16>(u64::MAX, 1u64 << 63) {
        Some(Event::WindowRedraw(info)) => {
            assert_eq!(info, IntervalInfo { time_stamp: i64::MIN, target_time_stamp: -1 })
        }
        _ => panic!("redraw expected"),
    }
}

#[test]
fn display_frame_reports_times_unchanged() {
    let app = listening();
    match app.on_display_frame::<u8, u16>(-7, 9) {
        Some(Event::WindowRedraw(info)) => {
            assert_eq!(info, IntervalInfo { time_stamp: 9, target_time_stamp: -7 })
        }
        _ => panic!("redraw expected"),
    }
}

#[test]
fn component_and_surface_notifications() {
    let app = listening();
    assert!(matches!(app.on_component_created(), Some(Ev::SurfaceCreate)));
    assert!(matches!(app.on_component_destroyed(), Some(Ev::SurfaceDestroy)));
    assert!(matches!(app.on_surface_destroyed(), Some(Ev::SurfaceDestroy)));
    let idle = OpenHarmonyApp::new(1);
    assert!(idle.on_component_created::<u8, u16>().is_none());
    assert!(idle.on_component_destroyed::<u8, u16>().is_none());
    assert!(idle.on_surface_destroyed::<u8, u16>().is_none());
    assert!(idle.on_frame::<u8, u16>(1, 2).is_none());
    assert!(idle.on_display_frame::<u8, u16>(1, 2).is_none());
}

#[test]
fn key_and_touch_payloads_pass_through() {
    let app = listening();
    match app.on_key_event::<u8, u16>(65) {
        Some(Event::Input(InputEvent::KeyEvent(key))) => assert_eq!(key, 65),
        _ => panic!("key expected"),
    }
    match app.on_touch_event::<u8, u16>(513) {
        Some(Event::Input(InputEvent::TouchEvent(touch))) => assert_eq!(touch, 513),
        _ => panic!("touch expected"),
    }
    let idle = OpenHarmonyApp::new(1);
    assert!(idle.on_key_event::<u8, u16>(65).is_none());
    assert!(idle.on_touch_event::<u8, u16>(513).is_none());
}

#[test]
fn input_method_notifications() {
    let app = listening();
    match app.on_insert_text::<u8, u16>(String::from("你好")) {
        Some(Event::Input(InputEvent::ImeEvent(ImeEvent::TextInputEvent(data)))) => {
            assert_eq!(data.text, "你好")
        }
        _ => panic!("text expected"),
    }
    match app.on_backspace::<u8, u16>(3) {
        Some(Event::Input(InputEvent::ImeEvent(ImeEvent::BackspaceEvent(length)))) => {
            assert_eq!(length, 3)
        }
        _ => panic!("backspace expected"),
    }
    match app.on_keyboard_status::<u8, u16>(2) {
        Some(Event::Input(InputEvent::ImeEvent(ImeEvent::ImeStatusEvent(status)))) => {
            assert_eq!(status, KeyboardStatus::Show)
        }
        _ => panic!("status expected"),
    }
    match app.on_keyboard_status::<u8, u16>(1) {
        Some(Event::Input(InputEvent::ImeEvent(ImeEvent::ImeStatusEvent(status)))) => {
            assert_eq!(status, KeyboardStatus::Hide)
        }
        _ => panic!("status expected"),
    }
}

#[test]
fn input_method_is_silent_without_handler() {
    let idle = OpenHarmonyApp::new(1);
    assert!(idle.on_insert_text::<u8, u16>(String::from("a")).is_none());
    assert!(idle.on_backspace::<u8, u16>(1).is_none());
    assert!(idle.on_keyboard_status::<u8, u16>(77).is_none());
}
