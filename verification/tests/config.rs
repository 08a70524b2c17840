use super_clicker::settings::Settings;
use super_clicker::theme::{
    AppTheme, ButtonStyle, ContainerStyle, SystemAppearance, TextStyle,
};

#[test]
fn default_settings_match_the_documented_defaults() {
    let s = Settings::default();
    assert_eq!(s.interval_ms, 100);
    assert_eq!(s.mouse_button, "Left");
    assert!(s.enable_dynamic_adjustment);
    assert!(s.toggle_hotkey_ctrl);
    assert!(s.toggle_hotkey_alt);
    assert!(!s.toggle_hotkey_shift);
    assert_eq!(s.toggle_hotkey_key.as_deref(), Some("F6"));
    assert!(s.interval_hotkey_ctrl);
    assert!(s.interval_hotkey_alt);
    assert!(s.interval_hotkey_shift);
    assert!(s.interval_hotkey_key.is_none());
}

#[test]
fn stored_interval_is_clamped_for_the_engine() {
    let mut s = Settings::default();
    assert_eq!(s.clamped_interval_ms(), 100);
    s.interval_ms = 0;
    assert_eq!(s.clamped_interval_ms(), 1);
    s.interval_ms = 99999;
    assert_eq!(s.clamped_interval_ms(), 10000);
    s.interval_ms = 10000;
    assert_eq!(s.clamped_interval_ms(), 10000);
}

#[test]
fn detected_appearance_selects_the_theme() {
    assert_eq!(AppTheme::from_appearance(SystemAppearance::Dark), AppTheme::Dark);
    assert_eq!(AppTheme::from_appearance(SystemAppearance::Light), AppTheme::Light);
    assert_eq!(AppTheme::from_appearance(SystemAppearance::Unspecified), AppTheme::Dark);
}

#[test]
fn style_defaults() {
    assert_eq!(AppTheme::default(), AppTheme::Light);
    assert!(matches!(TextStyle::default(), TextStyle::Default));
    assert!(matches!(ContainerStyle::default(), ContainerStyle::Default));
    assert!(matches!(ButtonStyle::default(), ButtonStyle::Primary));
}
