use pawgate::color::decode_hex_color;
use pawgate::config::Config;
use std::path::PathBuf;

fn with_color(color: &str) -> Config {
    Config { overlay_color: color.to_string(), ..Default::default() }
}

#[test]
fn test_default_config_values() {
    let config = Config::default();

    assert_eq!(config.hotkey, "ctrl+b", "Default hotkey should be ctrl+b");
    assert_eq!(f32::from_bits(config.opacity_bits), 0.3, "Default opacity should be 0.3 (30%)");
    assert!(config.notifications_enabled, "Notifications should be enabled by default");
    assert_eq!(config.overlay_color, "#1B5E20", "Default color should be forest green");
}

#[test]
fn default_opacity_bits_are_those_of_three_tenths() {
    assert_eq!(Config::default().opacity_bits, 0x3E99_999A);
    assert_eq!(Config::default().opacity_bits, 0.3f32.to_bits());
}

#[test]
fn default_color_decodes_to_the_fallback_green() {
    assert_eq!(Config::default().parse_overlay_color(), (27, 94, 32));
}

#[test]
fn test_config_path_contains_pawgate() {
    let path = Config::config_path();
    let path_str = path.to_string_lossy();

    assert!(path_str.contains(".pawgate"), "Config path should contain .pawgate");
    assert!(path_str.ends_with("config.json"), "Config path should end with config.json");
}

#[test]
fn config_path_lies_under_the_home_directory() {
    let path = Config::config_path_in(Some(PathBuf::from("/home/alice")));
    assert_eq!(path, PathBuf::from("/home/alice").join(".pawgate").join("config.json"));
    assert_eq!(path.parent().unwrap(), PathBuf::from("/home/alice").join(".pawgate"));
}

#[test]
fn config_path_without_home_lies_under_the_current_directory() {
    let path = Config::config_path_in(None);
    assert_eq!(path, PathBuf::from(".").join(".pawgate").join("config.json"));
}

#[test]
fn config_path_is_the_one_under_the_home_that_is_found() {
    assert_eq!(Config::config_path(), Config::config_path_in(dirs::home_dir()));
}

#[test]
fn test_parse_overlay_color_valid_hex() {
    let config = Config { overlay_color: "#FF6600".to_string(), ..Default::default() };

    let (r, g, b) = config.parse_overlay_color();
    assert_eq!(r, 0xFF, "Red component should be 255");
    assert_eq!(g, 0x66, "Green component should be 102");
    assert_eq!(b, 0x00, "Blue component should be 0");
}

#[test]
fn test_parse_overlay_color_without_hash() {
    let config = Config { overlay_color: "1B5E20".to_string(), ..Default::default() };

    let (r, g, b) = config.parse_overlay_color();
    assert_eq!((r, g, b), (0x1B, 0x5E, 0x20));
}

#[test]
fn test_parse_overlay_color_invalid_returns_default() {
    let config = Config { overlay_color: "not-a-color".to_string(), ..Default::default() };

    let (r, g, b) = config.parse_overlay_color();
    assert_eq!((r, g, b), (27, 94, 32));
}

#[test]
fn test_parse_overlay_color_short_hex() {
    let config = Config { overlay_color: "#FFF".to_string(), ..Default::default() };

    let (r, g, b) = config.parse_overlay_color();
    assert_eq!((r, g, b), (27, 94, 32), "Short hex should return default");
}

#[test]
fn color_digits_may_be_in_either_case() {
    assert_eq!(with_color("#ff6600").parse_overlay_color(), (255, 102, 0));
    assert_eq!(with_color("aBcDeF").parse_overlay_color(), (0xAB, 0xCD, 0xEF));
    assert_eq!(with_color("#000000").parse_overlay_color(), (0, 0, 0));
    assert_eq!(with_color("#FFFFFF").parse_overlay_color(), (255, 255, 255));
    assert_eq!(with_color("#123456").parse_overlay_color(), (0x12, 0x34, 0x56));
    assert_eq!(with_color("#09AFaf").parse_overlay_color(), (0x09, 0xAF, 0xAF));
}

#[test]
fn only_one_hash_is_taken_off() {
    assert_eq!(with_color("##FF6600").parse_overlay_color(), (27, 94, 32));
    assert_eq!(with_color("#FF660#").parse_overlay_color(), (27, 94, 32));
    assert_eq!(with_color("FF6600#").parse_overlay_color(), (27, 94, 32));
}

#[test]
fn color_of_the_wrong_length_falls_back() {
    assert_eq!(with_color("").parse_overlay_color(), (27, 94, 32));
    assert_eq!(with_color("#").parse_overlay_color(), (27, 94, 32));
    assert_eq!(with_color("#FF660").parse_overlay_color(), (27, 94, 32));
    assert_eq!(with_color("FF660").parse_overlay_color(), (27, 94, 32));
    assert_eq!(with_color("#FF66001").parse_overlay_color(), (27, 94, 32));
    assert_eq!(with_color("FF66001").parse_overlay_color(), (27, 94, 32));
}

#[test]
fn color_with_a_character_that_is_no_hex_digit_falls_back() {
    assert_eq!(with_color("#GG0000").parse_overlay_color(), (27, 94, 32));
    assert_eq!(with_color("#FF66 0").parse_overlay_color(), (27, 94, 32));
    assert_eq!(with_color("+F+F+F").parse_overlay_color(), (27, 94, 32));
    assert_eq!(with_color("#-10000").parse_overlay_color(), (27, 94, 32));
    assert_eq!(with_color("FF660/").parse_overlay_color(), (27, 94, 32));
    assert_eq!(with_color("FF660:").parse_overlay_color(), (27, 94, 32));
    assert_eq!(with_color("FF660@").parse_overlay_color(), (27, 94, 32));
    assert_eq!(with_color("FF660G").parse_overlay_color(), (27, 94, 32));
    assert_eq!(with_color("FF660`").parse_overlay_color(), (27, 94, 32));
    assert_eq!(with_color("FF660g").parse_overlay_color(), (27, 94, 32));
}

#[test]
fn color_outside_ascii_falls_back_and_does_not_panic() {
    assert_eq!(with_color("a\u{e9}bcd").parse_overlay_color(), (27, 94, 32));
    assert_eq!(with_color("#\u{e9}\u{e9}\u{e9}").parse_overlay_color(), (27, 94, 32));
    assert_eq!(with_color("\u{ff11}\u{ff12}\u{ff13}\u{ff14}\u{ff15}\u{ff16}").parse_overlay_color(), (27, 94, 32));
    assert_eq!(with_color("\u{1F600}00").parse_overlay_color(), (27, 94, 32));
}

#[test]
fn decode_hex_color_is_what_the_settings_use() {
    assert_eq!(decode_hex_color("#FF6600"), (255, 102, 0));
    assert_eq!(decode_hex_color("1B5E20"), (27, 94, 32));
    assert_eq!(decode_hex_color("#FFF"), (27, 94, 32));
    assert_eq!(decode_hex_color("not-a-color"), (27, 94, 32));
    assert_eq!(decode_hex_color("#010203"), (1, 2, 3));
}

#[test]
fn every_byte_is_read_back_from_its_two_digits() {
    for value in 0..=255u32 {
        let upper = format!("#{:02X}{:02X}{:02X}", value, 255 - value, value / 2);
        let lower = format!("{:02x}{:02x}{:02x}", value, 255 - value, value / 2);
        let expected = (value as u8, (255 - value) as u8, (value / 2) as u8);
        assert_eq!(decode_hex_color(&upper), expected);
        assert_eq!(decode_hex_color(&lower), expected);
    }
}
