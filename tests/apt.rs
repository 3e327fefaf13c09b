use i3bar_core::apt::{
    get_update_count, get_update_count_ignore_waiting_phased, has_critical_update, has_warning_update,
    is_waiting_phased_update, package_name, packages_to_check, severity, Apt, AptConfig, LookupError, Pattern,
    UpdateError,
};
use i3bar_core::registry::{ClickEvent, MouseButton};
use i3bar_core::scheduler::UpdatePolicy;
use i3bar_core::template::ConfigError;
use i3bar_core::widget::{SharedConfig, State, Theme};

const LISTING: &str = "Listing... Done\n\
firefox/jammy-updates 120.0 amd64 [upgradable from: 119.0] (phased 45%)\n\
libc6/jammy-security 2.35-0ubuntu3.5 amd64 [upgradable from: 2.35-0ubuntu3.4] (phased 100%)\n";

fn theme() -> Theme {
    Theme {
        idle_bg: "#000000".to_string(),
        idle_fg: "#ffffff".to_string(),
        info_bg: "#0000ff".to_string(),
        info_fg: "#ffffff".to_string(),
        warning_bg: "#ffff00".to_string(),
        warning_fg: "#000000".to_string(),
        critical_bg: "#ff0000".to_string(),
        critical_fg: "#ffffff".to_string(),
    }
}

fn shared() -> SharedConfig {
    SharedConfig { theme: theme(), icons: vec![("update".to_string(), "U".to_string())] }
}

fn policies() -> Vec<String> {
    vec![
        "firefox:\n  Installed: 119.0\n  Candidate: 120.0 (phased 45%)\n".to_string(),
        "libc6:\n  Installed: 2.35\n  Candidate: 2.35-0ubuntu3.5 (phased 100%)\n".to_string(),
    ]
}

#[test]
fn counts_upgradable_lines() {
    assert_eq!(get_update_count(LISTING), 2);
    assert_eq!(get_update_count(""), 0);
    assert_eq!(get_update_count("Listing... Done\n"), 0);
    assert_eq!(get_update_count("a/b [upgradable from: 1]\r\nc/d [upgradable from: 2]"), 2);
}

#[test]
fn phased_exclusion_counts_only_complete_rollouts() {
    assert_eq!(get_update_count_ignore_waiting_phased(LISTING, &policies()), Some(1));
    assert_eq!(get_update_count(LISTING), 2);
    assert_eq!(get_update_count_ignore_waiting_phased(LISTING, &Vec::new()), None);
}

#[test]
fn waiting_phased_reads_the_first_note() {
    assert!(is_waiting_phased_update("Candidate: 1 (phased 45%)"));
    assert!(!is_waiting_phased_update("Candidate: 1 (phased 100%)"));
    assert!(!is_waiting_phased_update("Candidate: 1"));
    assert!(!is_waiting_phased_update("(phased %)"));
    assert!(is_waiting_phased_update("x (phased 100%) y (phased 7%)\n(phased 100%)"));
    assert!(!is_waiting_phased_update("no note\n(phased 100%)\n(phased 3%)"));
}

#[test]
fn package_names_come_before_the_last_slash() {
    let line: Vec<char> = "firefox/jammy-updates 120.0".chars().collect();
    assert_eq!(package_name(&line), Some("firefox".to_string()));
    let none: Vec<char> = "no slash here".chars().collect();
    assert_eq!(package_name(&none), None);
    assert_eq!(packages_to_check(LISTING).unwrap(), vec!["firefox".to_string(), "libc6".to_string()]);
    assert_eq!(packages_to_check("broken [upgradable from: 1]").err(), Some(LookupError::MissingPackageName));
}

#[test]
fn patterns_match_lines() {
    let p = Pattern::new("firefox").unwrap();
    assert!(has_warning_update(LISTING, &p));
    let q = Pattern::new("^libc6/").unwrap();
    assert!(has_critical_update(LISTING, &q));
    let r = Pattern::new("^nothing$").unwrap();
    assert!(!has_critical_update(LISTING, &r));
    assert_eq!(Pattern::new("(").err(), Some(ConfigError::Pattern));
}

#[test]
fn critical_wins_over_warning() {
    assert_eq!(severity(0, true, true), State::Idle);
    assert_eq!(severity(3, true, true), State::Critical);
    assert_eq!(severity(3, true, false), State::Warning);
    assert_eq!(severity(3, false, false), State::Info);
}

#[test]
fn critical_pattern_sets_critical_state() {
    let mut cfg = AptConfig::default();
    cfg.warning_updates_regex = Some("firefox".to_string());
    cfg.critical_updates_regex = Some("libc6".to_string());
    let mut apt = Apt::new(4, cfg, shared(), "/tmp/apt.conf".to_string()).unwrap();
    assert_eq!(apt.update(LISTING, &Vec::new()), Ok(UpdatePolicy::After(600)));
    let w = apt.widgets()[0].to_string();
    assert!(w.contains("\"background\":\"#ff0000\""), "{}", w);
}

#[test]
fn default_config_values() {
    let cfg = AptConfig::default();
    assert_eq!(cfg.interval, 600);
    assert!(cfg.format.is_none());
    assert!(!cfg.ignore_waiting_phased_updates);
}

#[test]
fn up_to_date_variant_and_many_variant() {
    let mut cfg = AptConfig::default();
    cfg.format_up_to_date = Some("Up to date".to_string());
    cfg.interval = 30;
    let mut apt = Apt::new(0, cfg, shared(), "/tmp/apt.conf".to_string()).unwrap();
    assert_eq!(apt.update("Listing... Done\n", &Vec::new()), Ok(UpdatePolicy::After(30)));
    assert_eq!(
        apt.widgets()[0].to_string(),
        "{\"background\":\"#000000\",\"color\":\"#ffffff\",\"full_text\":\"UUp to date \",\"markup\":\"pango\",\"name\":0,\"separator\":false,\"separator_block_width\":0}"
    );
    let five = "a/x [upgradable from: 1]\nb/x [upgradable from: 1]\nc/x [upgradable from: 1]\nd/x [upgradable from: 1]\ne/x [upgradable from: 1]\n";
    assert_eq!(apt.update(five, &Vec::new()), Ok(UpdatePolicy::After(30)));
    assert_eq!(
        apt.widgets()[0].to_string(),
        "{\"background\":\"#0000ff\",\"color\":\"#ffffff\",\"full_text\":\"U5 \",\"markup\":\"pango\",\"name\":0,\"separator\":false,\"separator_block_width\":0}"
    );
}

#[test]
fn phased_option_changes_the_count() {
    let mut cfg = AptConfig::default();
    cfg.ignore_waiting_phased_updates = true;
    cfg.format_singular = Some("one".to_string());
    let mut apt = Apt::new(1, cfg, shared(), "/tmp/apt.conf".to_string()).unwrap();
    assert!(apt.needs_phased_lookup());
    assert_eq!(apt.update(LISTING, &policies()), Ok(UpdatePolicy::After(600)));
    assert!(apt.widgets()[0].to_string().contains("\"full_text\":\"Uone \""));
    let before = apt.widgets()[0].to_string();
    assert_eq!(apt.update(LISTING, &Vec::new()), Err(UpdateError::Lookup));
    assert_eq!(apt.widgets()[0].to_string(), before);
}

#[test]
fn bad_config_is_rejected() {
    let mut cfg = AptConfig::default();
    cfg.format = Some("{count".to_string());
    assert!(Apt::new(0, cfg, shared(), String::new()).is_err());
    let mut cfg = AptConfig::default();
    cfg.critical_updates_regex = Some("[".to_string());
    assert!(Apt::new(0, cfg, shared(), String::new()).is_err());
}

#[test]
fn render_error_leaves_widget_alone() {
    let mut cfg = AptConfig::default();
    cfg.format = Some("{other}".to_string());
    let mut apt = Apt::new(2, cfg, shared(), "/tmp/c".to_string()).unwrap();
    let before = apt.widgets()[0].to_string();
    let two = "a/x [upgradable from: 1]\nb/x [upgradable from: 1]\n";
    assert_eq!(apt.update(two, &Vec::new()), Err(UpdateError::Render));
    assert_eq!(apt.widgets()[0].to_string(), before);
}

#[test]
fn left_click_asks_for_refresh() {
    let apt = Apt::new(0, AptConfig::default(), shared(), String::new()).unwrap();
    assert_eq!(apt.name(), "apt");
    assert_eq!(apt.config_path(), "");
    assert!(apt.click(&ClickEvent { id: 0, button: MouseButton::Left, x: 1, y: 2 }));
    assert!(!apt.click(&ClickEvent { id: 0, button: MouseButton::Right, x: 1, y: 2 }));
}
