use openharmony_ability::{
    ColorMode, ContentRect, Direction, KeyboardStatus, Rect, RectChangeReason, ScreenDensity, Size,
    StageEventType,
};

#[test]
fn rect_default_is_zero() {
    assert_eq!(Rect::default(), Rect { top: 0, left: 0, width: 0, height: 0 });
}

#[test]
fn rect_change_reason_from_each_number() {
    assert_eq!(RectChangeReason::from(0), RectChangeReason::Undefined);
    assert_eq!(RectChangeReason::from(1), RectChangeReason::Maximize);
    assert_eq!(RectChangeReason::from(2), RectChangeReason::Recover);
    assert_eq!(RectChangeReason::from(3), RectChangeReason::Move);
    assert_eq!(RectChangeReason::from(4), RectChangeReason::Drag);
    assert_eq!(RectChangeReason::from(5), RectChangeReason::DragStart);
    assert_eq!(RectChangeReason::from(6), RectChangeReason::DragEnd);
}

#[test]
fn rect_change_reason_unknown_number_is_undefined() {
    assert_eq!(RectChangeReason::from(7), RectChangeReason::Undefined);
    assert_eq!(RectChangeReason::from(-1), RectChangeReason::Undefined);
    assert_eq!(RectChangeReason::from(i32::MAX), RectChangeReason::Undefined);
}

#[test]
fn rect_change_reason_code_round_trip() {
    for code in 0..=6 {
        assert_eq!(RectChangeReason::from(code).code(), code);
    }
    assert_eq!(RectChangeReason::from(9).code(), 0);
}

#[test]
fn color_mode_from_numbers() {
    assert_eq!(ColorMode::from(0), ColorMode::Dark);
    assert_eq!(ColorMode::from(1), ColorMode::Light);
    assert_eq!(ColorMode::from(-1), ColorMode::NoSet);
    assert_eq!(ColorMode::from(2), ColorMode::NoSet);
}

#[test]
fn color_mode_codes() {
    assert_eq!(ColorMode::NoSet.code(), -1);
    assert_eq!(ColorMode::Dark.code(), 0);
    assert_eq!(ColorMode::Light.code(), 1);
}

#[test]
fn direction_from_numbers() {
    assert_eq!(Direction::from(0), Direction::Vertical);
    assert_eq!(Direction::from(1), Direction::Horizontal);
    assert_eq!(Direction::from(-1), Direction::NoSet);
    assert_eq!(Direction::from(5), Direction::NoSet);
}

#[test]
fn direction_codes() {
    assert_eq!(Direction::NoSet.code(), -1);
    assert_eq!(Direction::Vertical.code(), 0);
    assert_eq!(Direction::Horizontal.code(), 1);
}

#[test]
fn screen_density_from_numbers() {
    assert_eq!(ScreenDensity::from(120), ScreenDensity::SDPI);
    assert_eq!(ScreenDensity::from(160), ScreenDensity::MDPI);
    assert_eq!(ScreenDensity::from(240), ScreenDensity::LDPI);
    assert_eq!(ScreenDensity::from(320), ScreenDensity::XLDPI);
    assert_eq!(ScreenDensity::from(480), ScreenDensity::XXLDPI);
    assert_eq!(ScreenDensity::from(640), ScreenDensity::XXXLDPI);
    assert_eq!(ScreenDensity::from(0), ScreenDensity::NoSet);
    assert_eq!(ScreenDensity::from(121), ScreenDensity::NoSet);
}

#[test]
fn screen_density_code_round_trip() {
    for code in [0, 120, 160, 240, 320, 480, 640] {
        assert_eq!(ScreenDensity::from(code).code(), code);
    }
}

#[test]
fn stage_event_type_from_each_number() {
    assert_eq!(StageEventType::from(1), StageEventType::Shown);
    assert_eq!(StageEventType::from(2), StageEventType::Active);
    assert_eq!(StageEventType::from(3), StageEventType::Inactive);
    assert_eq!(StageEventType::from(4), StageEventType::Hidden);
    assert_eq!(StageEventType::from(5), StageEventType::Resumed);
    assert_eq!(StageEventType::from(6), StageEventType::Paused);
}

#[test]
fn stage_event_type_code_round_trip() {
    for code in 1..=6 {
        assert_eq!(StageEventType::from(code).code(), code);
    }
}

#[test]
fn keyboard_status_from_each_number() {
    assert_eq!(KeyboardStatus::from(0), KeyboardStatus::Unset);
    assert_eq!(KeyboardStatus::from(1), KeyboardStatus::Hide);
    assert_eq!(KeyboardStatus::from(2), KeyboardStatus::Show);
    assert_eq!(KeyboardStatus::Show.code(), 2);
}

#[test]
fn content_rect_holds_reason_and_rect() {
    let rect = Rect { top: 1, left: 2, width: 3, height: 4 };
    let content = ContentRect { reason: RectChangeReason::Move, rect };
    assert_eq!(content.rect, rect);
    assert_eq!(content.reason, RectChangeReason::Move);
    assert_eq!(Size { width: 3, height: 4 }, Size { width: 3, height: 4 });
}

#[test]
fn stage_event_type_defined_numbers() {
    assert!(!StageEventType::is_defined(0));
    assert!(StageEventType::is_defined(1));
    assert!(StageEventType::is_defined(6));
    assert!(!StageEventType::is_defined(7));
    assert!(!StageEventType::is_defined(-1));
}

#[test]
fn keyboard_status_defined_numbers() {
    assert!(KeyboardStatus::is_defined(0));
    assert!(KeyboardStatus::is_defined(2));
    assert!(!KeyboardStatus::is_defined(3));
    assert!(!KeyboardStatus::is_defined(u32::MAX));
}
