use openharmony_ability::configuration::SCALE_ONE_BITS;
use openharmony_ability::{ColorMode, Configuration, Direction, ScreenDensity};

#[test]
fn configuration_default_is_unset() {
    let c = Configuration::default();
    assert_eq!(c.language, "");
    assert_eq!(c.color_mode, ColorMode::NoSet);
    assert_eq!(c.direction, Direction::NoSet);
    assert_eq!(c.screen_density, ScreenDensity::NoSet);
    assert_eq!(c.display_id, 0);
    assert!(!c.has_pointer_device);
    assert_eq!(c.mcc, "");
    assert_eq!(c.mnc, "");
}

#[test]
fn configuration_default_scales_are_one() {
    let c = Configuration::default();
    assert_eq!(SCALE_ONE_BITS, 1.0f64.to_bits());
    assert_eq!(f64::from_bits(c.font_size_scale_bits), 1.0);
    assert_eq!(f64::from_bits(c.font_weight_scale_bits), 1.0);
}

#[test]
fn configuration_from_host_reads_numbers() {
    let c = Configuration::from_host(
        String::from("zh-Hans"),
        1,
        0,
        320,
        7,
        true,
        1.5f64.to_bits(),
        0.75f64.to_bits(),
        String::from("460"),
        String::from("01"),
    );
    assert_eq!(c.language, "zh-Hans");
    assert_eq!(c.color_mode, ColorMode::Light);
    assert_eq!(c.direction, Direction::Vertical);
    assert_eq!(c.screen_density, ScreenDensity::XLDPI);
    assert_eq!(c.display_id, 7);
    assert!(c.has_pointer_device);
    assert_eq!(f64::from_bits(c.font_size_scale_bits), 1.5);
    assert_eq!(f64::from_bits(c.font_weight_scale_bits), 0.75);
    assert_eq!(c.mcc, "460");
    assert_eq!(c.mnc, "01");
}

#[test]
fn configuration_from_host_unknown_numbers_are_unset() {
    let c = Configuration::from_host(
        String::new(),
        9,
        -4,
        100,
        0,
        false,
        SCALE_ONE_BITS,
        SCALE_ONE_BITS,
        String::new(),
        String::new(),
    );
    assert_eq!(c.color_mode, ColorMode::NoSet);
    assert_eq!(c.direction, Direction::NoSet);
    assert_eq!(c.screen_density, ScreenDensity::NoSet);
    assert!(c == Configuration::default());
}

#[test]
fn configuration_clone_is_equal() {
    let c = Configuration::from_host(
        String::from("en"),
        0,
        1,
        160,
        2,
        true,
        SCALE_ONE_BITS,
        2.0f64.to_bits(),
        String::from("310"),
        String::from("260"),
    );
    let d = c.clone();
    assert!(c == d);
    assert_eq!(d.language, "en");
    assert_eq!(d.mnc, "260");
}

#[test]
fn configuration_differs_by_one_field() {
    let a = Configuration::default();
    let mut b = Configuration::default();
    b.mcc = String::from("460");
    assert!(a != b);
    let mut c = Configuration::default();
    c.font_size_scale_bits = 2.0f64.to_bits();
    assert!(a != c);
}
