use themed_hello::css::{plan_css_load, resolve_css, ThemeError};
use themed_hello::settings::{SettingChange, SettingsSnapshot};
use themed_hello::theme::{css_for, select_stylesheet, Stylesheet};

#[test]
fn adwaita_light() {
    assert_eq!(select_stylesheet("Adwaita", false), Stylesheet::Light);
}

#[test]
fn adwaita_dark_name() {
    assert_eq!(select_stylesheet("Adwaita-dark", false), Stylesheet::Dark);
}

#[test]
fn high_contrast_prefer_dark() {
    assert_eq!(select_stylesheet("HighContrast", true), Stylesheet::Dark);
}

#[test]
fn uppercase_dark_name() {
    assert_eq!(select_stylesheet("DARK-custom", false), Stylesheet::Dark);
}

#[test]
fn empty_name_light() {
    assert_eq!(select_stylesheet("", false), Stylesheet::Light);
}

#[test]
fn empty_name_prefer_dark() {
    assert_eq!(select_stylesheet("", true), Stylesheet::Dark);
}

#[test]
fn marker_needs_all_four_characters() {
    assert_eq!(select_stylesheet("dar", false), Stylesheet::Light);
    assert_eq!(select_stylesheet("darc", false), Stylesheet::Light);
    assert_eq!(select_stylesheet("ark", false), Stylesheet::Light);
}

#[test]
fn marker_in_the_middle() {
    assert_eq!(select_stylesheet("my-Darkish-theme", false), Stylesheet::Dark);
}

#[test]
fn marker_at_the_end() {
    assert_eq!(select_stylesheet("xdark", false), Stylesheet::Dark);
}

#[test]
fn selection_is_idempotent() {
    let first = select_stylesheet("Adwaita-dark", false);
    let second = select_stylesheet("Adwaita-dark", false);
    assert_eq!(first, second);
    let third = select_stylesheet("Adwaita", false);
    let fourth = select_stylesheet("Adwaita", false);
    assert_eq!(third, fourth);
}

#[test]
fn subscriptions_are_order_independent() {
    let start = SettingsSnapshot { theme_name: String::from("Adwaita"), prefer_dark: false };
    let one_way = start
        .apply(SettingChange::ThemeName(String::from("Nordic-dark")))
        .apply(SettingChange::PreferDark(true));
    let start = SettingsSnapshot { theme_name: String::from("Adwaita"), prefer_dark: false };
    let other_way = start
        .apply(SettingChange::PreferDark(true))
        .apply(SettingChange::ThemeName(String::from("Nordic-dark")));
    assert_eq!(one_way.resolve(), other_way.resolve());
    assert_eq!(one_way.resolve(), Stylesheet::Dark);
}

#[test]
fn resolve_matches_selection() {
    let snapshot = SettingsSnapshot { theme_name: String::from("Breeze"), prefer_dark: false };
    assert_eq!(snapshot.resolve(), Stylesheet::Light);
    assert_eq!(resolve_css(&snapshot), css_for(Stylesheet::Light));
}

#[test]
fn css_texts_differ() {
    assert_ne!(css_for(Stylesheet::Light), css_for(Stylesheet::Dark));
}

#[test]
fn load_without_display_fails() {
    let r = plan_css_load(false, Some("Adwaita"), false);
    assert_eq!(r, Err(ThemeError::NoDisplay));
}

#[test]
fn load_without_theme_name_fails() {
    let r = plan_css_load(true, None, true);
    assert_eq!(r, Err(ThemeError::NoThemeName));
}

#[test]
fn load_selects_dark_css() {
    let r = plan_css_load(true, Some("Adwaita-dark"), false);
    assert_eq!(r, Ok(css_for(Stylesheet::Dark)));
}

#[test]
fn load_selects_light_css() {
    let r = plan_css_load(true, Some("Adwaita"), false);
    assert_eq!(r, Ok(css_for(Stylesheet::Light)));
}
