use openharmony_ability::activity::App;
use openharmony_ability::{Configuration, ContentRect, Event, Rect, RectChangeReason, Size};

type Ev = Event<u8, u16>;

#[test]
fn plain_app_starts_empty() {
    let app = App::new();
    assert_eq!(app.load(), None);
    assert_eq!(app.frame_rate(), 60);
    assert!(app.on_memory_level::<u8, u16>(0).is_none());
}

#[test]
fn plain_app_save_and_frame_rate() {
    let mut app = App::new();
    app.save(vec![1, 2]);
    assert_eq!(app.load(), None);
    app.set_frame_rate(24);
    assert_eq!(app.frame_rate(), 24);
}

#[test]
fn plain_app_delivers_after_run_loop() {
    let mut app = App::new();
    assert!(app.on_window_stage_create::<u8, u16>().is_none());
    app.run_loop();
    assert!(matches!(app.on_window_stage_create(), Some(Ev::WindowCreate)));
    app.run_loop();
    assert!(matches!(app.on_window_stage_destroy(), Some(Ev::WindowDestroy)));
    assert!(matches!(app.on_memory_level(3), Some(Ev::LowMemory)));
    assert!(matches!(app.on_ability_create(), Some(Ev::Start)));
    assert!(matches!(app.on_ability_destroy(), Some(Ev::Destroy)));
    assert!(matches!(app.on_ability_save_state(), Some(Ev::SaveState(_))));
    assert!(matches!(app.on_surface_created(), Some(Ev::SurfaceCreate)));
    assert!(matches!(app.on_surface_destroyed(), Some(Ev::SurfaceDestroy)));
}

#[test]
fn plain_app_stage_event_is_always_lost_focus() {
    let mut app = App::new();
    app.run_loop();
    for number in [-1, 0, 1, 2, 5, 6, 100] {
        assert!(matches!(app.on_window_stage_event(number), Some(Ev::LostFocus)));
    }
}

#[test]
fn plain_app_geometry_and_configuration() {
    let mut app = App::new();
    app.run_loop();
    match app.on_window_size_change::<u8, u16>(3, 4) {
        Some(Event::WindowResize(size)) => assert_eq!(size, Size { width: 3, height: 4 }),
        _ => panic!("resize expected"),
    }
    match app.on_window_rect_change::<u8, u16>(6, 1, 2, 3, 4) {
        Some(Event::ContentRectChange(content)) => assert_eq!(
            content,
            ContentRect {
                reason: RectChangeReason::DragEnd,
                rect: Rect { top: 1, left: 2, width: 3, height: 4 }
            }
        ),
        _ => panic!("rect change expected"),
    }
    let mut told = Configuration::default();
    told.language = String::from("de");
    match app.on_configuration_updated::<u8, u16>(told) {
        Some(Event::ConfigChanged(configuration)) => assert_eq!(configuration.language, "de"),
        _ => panic!("configuration change expected"),
    }
}
