use pride_flags::config::{ConfigError, FlagColor, FlagsConfig, PrideFlag, validate};

fn color(name: &str, r: u8, g: u8, b: u8) -> FlagColor {
    FlagColor { name: name.to_string(), r, g, b }
}

fn sample_flag() -> PrideFlag {
    PrideFlag {
        name: "A".to_string(),
        colors: vec![color("red", 255, 0, 0), color("blue", 0, 0, 255)],
    }
}

#[test]
fn accepts_well_formed_config() {
    let config = FlagsConfig {
        rotation_delay_seconds: 5,
        show_flag_name: true,
        show_color_names: false,
        flags: vec![sample_flag()],
    };
    assert_eq!(validate(&config), Ok(()));
}

#[test]
fn accepts_zero_delay() {
    let config = FlagsConfig {
        rotation_delay_seconds: 0,
        show_flag_name: false,
        show_color_names: false,
        flags: vec![sample_flag()],
    };
    assert_eq!(validate(&config), Ok(()));
}

#[test]
fn rejects_negative_delay() {
    let config = FlagsConfig {
        rotation_delay_seconds: -1,
        show_flag_name: true,
        show_color_names: true,
        flags: vec![sample_flag()],
    };
    assert_eq!(validate(&config), Err(ConfigError::NegativeRotationDelay));
}

#[test]
fn rejects_empty_flag_list() {
    let config = FlagsConfig {
        rotation_delay_seconds: 5,
        show_flag_name: true,
        show_color_names: true,
        flags: vec![],
    };
    assert_eq!(validate(&config), Err(ConfigError::NoFlags));
}

#[test]
fn rejects_first_flag_without_colors() {
    let config = FlagsConfig {
        rotation_delay_seconds: 5,
        show_flag_name: false,
        show_color_names: false,
        flags: vec![
            sample_flag(),
            PrideFlag { name: "empty".to_string(), colors: vec![] },
            sample_flag(),
        ],
    };
    assert_eq!(validate(&config), Err(ConfigError::EmptyFlag { index: 1 }));
}
