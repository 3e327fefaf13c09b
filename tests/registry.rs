use i3bar_core::apt::{Apt, AptConfig};
use i3bar_core::registry::{Block, ClickEvent, MouseButton, Registry};
use i3bar_core::scheduler::UpdatePolicy;
use i3bar_core::widget::{ButtonWidget, SharedConfig, Theme};

fn shared() -> SharedConfig {
    let c = "#111111".to_string();
    SharedConfig {
        theme: Theme {
            idle_bg: c.clone(),
            idle_fg: c.clone(),
            info_bg: c.clone(),
            info_fg: c.clone(),
            warning_bg: c.clone(),
            warning_fg: c.clone(),
            critical_bg: c.clone(),
            critical_fg: c,
        },
        icons: Vec::new(),
    }
}

fn registry() -> Registry {
    let mut r = Registry::new();
    let label = ButtonWidget::new(0, shared()).with_text("L");
    assert_eq!(r.register(Block::Label(label)), 0);
    let apt = Apt::new(1, AptConfig::default(), shared(), String::new()).unwrap();
    assert_eq!(r.register(Block::Apt(apt)), 1);
    r
}

#[test]
fn frame_follows_registration_order() {
    let mut r = registry();
    assert_eq!(r.update_block(1, "a/b [upgradable from: 1]\n", &Vec::new()), Some(Ok(UpdatePolicy::After(600))));
    assert_eq!(r.update_block(0, "", &Vec::new()), Some(Ok(UpdatePolicy::Dormant)));
    let f = r.render_frame();
    let l = f.find("\" L \"").unwrap();
    let a = f.find("\" 1 \"").unwrap();
    assert!(l < a, "{}", f);
    assert!(f.starts_with("[{"));
    assert!(f.ends_with("}]"));
    assert_eq!(r.len(), 2);
}

#[test]
fn empty_registry_renders_empty_array() {
    assert_eq!(Registry::new().render_frame(), "[]");
}

#[test]
fn unknown_click_changes_nothing() {
    let r = registry();
    let before = r.render_frame();
    assert_eq!(r.route_click(&ClickEvent { id: 9, button: MouseButton::Left, x: 0, y: 0 }), None);
    assert_eq!(r.render_frame(), before);
}

#[test]
fn left_click_on_apt_requests_refresh() {
    let r = registry();
    assert_eq!(r.route_click(&ClickEvent { id: 1, button: MouseButton::Left, x: 3, y: 4 }), Some(1));
    assert_eq!(r.route_click(&ClickEvent { id: 1, button: MouseButton::Right, x: 3, y: 4 }), None);
    assert_eq!(r.route_click(&ClickEvent { id: 0, button: MouseButton::Left, x: 3, y: 4 }), None);
}

#[test]
fn unknown_block_update_is_none() {
    let mut r = registry();
    assert_eq!(r.update_block(5, "", &Vec::new()), None);
}

#[test]
fn button_codes() {
    assert_eq!(MouseButton::from_code(1), MouseButton::Left);
    assert_eq!(MouseButton::from_code(2), MouseButton::Middle);
    assert_eq!(MouseButton::from_code(3), MouseButton::Right);
    assert_eq!(MouseButton::from_code(4), MouseButton::WheelUp);
    assert_eq!(MouseButton::from_code(5), MouseButton::WheelDown);
    assert_eq!(MouseButton::from_code(0), MouseButton::Other);
    assert_eq!(MouseButton::from_code(9), MouseButton::Other);
}

#[test]
fn label_update_changes_nothing() {
    let mut r = registry();
    let before = r.render_frame();
    assert_eq!(r.update_block(0, "a/b [upgradable from: 1]\n", &Vec::new()), Some(Ok(UpdatePolicy::Dormant)));
    assert_eq!(r.render_frame(), before);
}
