use soomer::config::{Color, Config, ConfigError};

fn build(scale_min: i64, scale_max: i64, zoom_factor: i64, smoothing: i64) -> Result<Config, ConfigError> {
    Config::new(
        Color { r: 1, g: 2, b: 3, a: 4 },
        scale_min,
        scale_max,
        zoom_factor,
        smoothing,
        60,
        2,
        String::from("/tmp/shots"),
        String::from("shot.png"),
    )
}

#[test]
fn valid_config_keeps_its_fields() {
    let c = build(100_000, 10_000_000, 1_100_000, 150_000).unwrap();
    assert_eq!(c.bg(), Color { r: 1, g: 2, b: 3, a: 4 });
    assert_eq!(c.scale_min(), 100_000);
    assert_eq!(c.scale_max(), 10_000_000);
    assert_eq!(c.zoom_factor(), 1_100_000);
    assert_eq!(c.smoothing_factor(), 150_000);
    assert_eq!(c.frame_delay_ms(), 60);
    assert_eq!(c.monitor_index(), 2);
    assert_eq!(c.save_dir().as_str(), "/tmp/shots");
    assert_eq!(c.save_name().as_str(), "shot.png");
}

#[test]
fn default_config_values() {
    let c = Config::default();
    assert_eq!(c.bg(), Color { r: 10, g: 0, b: 15, a: 255 });
    assert_eq!(c.scale_min(), 100_000);
    assert_eq!(c.scale_max(), 10_000_000);
    assert_eq!(c.zoom_factor(), 1_100_000);
    assert_eq!(c.smoothing_factor(), 150_000);
    assert_eq!(c.frame_delay_ms(), 60);
    assert_eq!(c.monitor_index(), 0);
    assert_eq!(c.save_dir().as_str(), "./");
    assert_eq!(c.save_name().as_str(), "screenshot.png");
}

#[test]
fn frame_interval_is_a_quarter_of_the_delay() {
    assert_eq!(Config::default().frame_interval_ms(), 15);
    let c = Config::new(
        Color { r: 0, g: 0, b: 0, a: 0 },
        1,
        1,
        1_000_001,
        1,
        7,
        0,
        String::new(),
        String::new(),
    )
    .unwrap();
    assert_eq!(c.frame_interval_ms(), 1);
}

#[test]
fn scale_min_must_be_positive() {
    assert_eq!(build(0, 10_000_000, 1_100_000, 150_000).err(), Some(ConfigError::ScaleMinNotPositive));
    assert_eq!(build(-1, 10_000_000, 1_100_000, 150_000).err(), Some(ConfigError::ScaleMinNotPositive));
    assert!(build(1, 10_000_000, 1_100_000, 150_000).is_ok());
}

#[test]
fn scale_max_must_not_be_below_min() {
    assert_eq!(build(2_000_000, 1_999_999, 1_100_000, 150_000).err(), Some(ConfigError::ScaleMaxBelowMin));
    assert!(build(2_000_000, 2_000_000, 1_100_000, 150_000).is_ok());
}

#[test]
fn scale_max_must_fit() {
    assert_eq!(
        build(100_000, 1_000_000_000_001, 1_100_000, 150_000).err(),
        Some(ConfigError::ScaleMaxTooLarge)
    );
    assert!(build(100_000, 1_000_000_000_000, 1_100_000, 150_000).is_ok());
}

#[test]
fn zoom_factor_must_be_above_one() {
    assert_eq!(build(100_000, 10_000_000, 1_000_000, 150_000).err(), Some(ConfigError::ZoomFactorNotAboveOne));
    assert_eq!(build(100_000, 10_000_000, 900_000, 150_000).err(), Some(ConfigError::ZoomFactorNotAboveOne));
    assert!(build(100_000, 10_000_000, 1_000_001, 150_000).is_ok());
}

#[test]
fn zoom_factor_must_fit() {
    assert_eq!(
        build(100_000, 10_000_000, 1_000_000_000_001, 150_000).err(),
        Some(ConfigError::ZoomFactorTooLarge)
    );
}

#[test]
fn smoothing_must_be_above_zero_and_at_most_one() {
    assert_eq!(build(100_000, 10_000_000, 1_100_000, 0).err(), Some(ConfigError::SmoothingOutOfRange));
    assert_eq!(build(100_000, 10_000_000, 1_100_000, 1_000_001).err(), Some(ConfigError::SmoothingOutOfRange));
    assert!(build(100_000, 10_000_000, 1_100_000, 1_000_000).is_ok());
    assert!(build(100_000, 10_000_000, 1_100_000, 1).is_ok());
}

#[test]
fn the_first_broken_rule_is_reported() {
    assert_eq!(build(0, -5, 0, 0).err(), Some(ConfigError::ScaleMinNotPositive));
    assert_eq!(build(5, 4, 0, 0).err(), Some(ConfigError::ScaleMaxBelowMin));
    assert_eq!(build(5, 6, 0, 0).err(), Some(ConfigError::ZoomFactorNotAboveOne));
}
