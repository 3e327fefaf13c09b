use i3bar_core::widget::{ButtonWidget, SharedConfig, Spacing, State, Theme};

fn shared() -> SharedConfig {
    SharedConfig {
        theme: Theme {
            idle_bg: "#000000".to_string(),
            idle_fg: "#aaaaaa".to_string(),
            info_bg: "#0000ff".to_string(),
            info_fg: "#bbbbbb".to_string(),
            warning_bg: "#ffff00".to_string(),
            warning_fg: "#cccccc".to_string(),
            critical_bg: "#ff0000".to_string(),
            critical_fg: "#dddddd".to_string(),
        },
        icons: vec![("update".to_string(), "\u{f062} ".to_string())],
    }
}

fn record(bg: &str, fg: &str, text: &str, id: usize) -> String {
    format!(
        "{{\"background\":\"{}\",\"color\":\"{}\",\"full_text\":{},\"markup\":\"pango\",\"name\":{},\"separator\":false,\"separator_block_width\":0}}",
        bg, fg, text, id
    )
}

#[test]
fn new_widget_has_consistent_record() {
    let w = ButtonWidget::new(3, shared());
    assert_eq!(w.to_string(), record("#000000", "#aaaaaa", "\"  \"", 3));
}

#[test]
fn spacing_modes() {
    let w = ButtonWidget::new(1, shared()).with_text("hi");
    assert_eq!(w.to_string(), record("#000000", "#aaaaaa", "\" hi \"", 1));
    let w = w.with_spacing(Spacing::Inline);
    assert_eq!(w.to_string(), record("#000000", "#aaaaaa", "\"hi \"", 1));
    let w = w.with_spacing(Spacing::Hidden);
    assert_eq!(w.to_string(), record("#000000", "#aaaaaa", "\"hi\"", 1));
}

#[test]
fn icon_replaces_leading_space() {
    let w = ButtonWidget::new(0, shared()).with_icon("update").with_content(Some("2".to_string()));
    assert_eq!(w.to_string(), record("#000000", "#aaaaaa", "\"\u{f062} 2 \"", 0));
    let w = ButtonWidget::new(0, shared()).with_icon("unknown").with_content(None);
    assert_eq!(w.to_string(), record("#000000", "#aaaaaa", "\"  \"", 0));
}

#[test]
fn setters_refresh_the_record() {
    let mut w = ButtonWidget::new(12, shared());
    w.set_text("a\"b".to_string());
    w.set_state(State::Warning);
    assert_eq!(w.to_string(), record("#ffff00", "#cccccc", "\" a\\\"b \"", 12));
    w.set_icon("update");
    w.set_spacing(Spacing::Hidden);
    w.set_state(State::Critical);
    assert_eq!(w.to_string(), record("#ff0000", "#dddddd", "\"\u{f062} a\\\"b\"", 12));
    let w2 = ButtonWidget::new(12, shared()).with_state(State::Info);
    assert_eq!(w2.to_string(), record("#0000ff", "#bbbbbb", "\"  \"", 12));
}

#[test]
fn icons_are_looked_up_by_name() {
    let s = shared();
    assert_eq!(s.get_icon("update"), Some("\u{f062} ".to_string()));
    assert_eq!(s.get_icon("none"), None);
}

#[test]
fn control_characters_are_escaped() {
    let w = ButtonWidget::new(0, shared()).with_spacing(Spacing::Hidden).with_text("a\\b\n\t\u{1}");
    assert_eq!(w.to_string(), record("#000000", "#aaaaaa", "\"a\\\\b\\n\\t\\u0001\"", 0));
}
