use themed_hello::css::plan_activation;
use themed_hello::theme::{css_for, Stylesheet};
use themed_hello::ui::{build_activation_ui, WINDOW_HEIGHT, WINDOW_WIDTH};

#[test]
fn activation_builds_one_window() {
    let ui = build_activation_ui();
    assert_eq!(ui.windows.len(), 1);
    let window = &ui.windows[0];
    let label = window.child.as_ref().expect("window has a child");
    assert_eq!(label.text, "Hello, world!");
    assert_eq!(window.default_width, 275);
    assert_eq!(window.default_height, 50);
    assert!(window.visible);
}

#[test]
fn fixed_size_constants() {
    assert_eq!(WINDOW_WIDTH, 275);
    assert_eq!(WINDOW_HEIGHT, 50);
}

#[test]
fn activation_without_settings_skips_theme() {
    let (plan, ui) = plan_activation(false, true, Some("Adwaita"), false);
    assert!(plan.is_none());
    assert_eq!(ui.windows.len(), 1);
}

#[test]
fn activation_with_settings_loads_css() {
    let (plan, ui) = plan_activation(true, true, Some("Adwaita-dark"), false);
    assert_eq!(plan, Some(Ok(css_for(Stylesheet::Dark))));
    assert_eq!(ui.windows.len(), 1);
    assert!(ui.windows[0].visible);
}
