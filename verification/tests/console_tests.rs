use ledctrl::config::{DeviceType, Devicecfg, StatusType};
use ledctrl::console::{
    is_whitespace, remote_setup_choice, setup_device_step, trimmed_bounds, trimmed_is,
    RemoteSetupChoice, SetupOutcome,
};

fn changed_cfg() -> Devicecfg {
    let mut cfg = Devicecfg::default();
    cfg.pixel_num = 3;
    cfg.fps = 1;
    cfg.gamma_table_path = "elsewhere".to_string();
    cfg.device_type = DeviceType::BLINKSTICK;
    cfg
}

#[test]
fn whitespace_matches_char_is_whitespace() {
    for v in 0u32..0x3100 {
        if let Some(c) = char::from_u32(v) {
            assert_eq!(is_whitespace(c), c.is_whitespace(), "code point {:#x}", v);
        }
    }
    assert!(!is_whitespace('\u{10FFFF}'));
}

#[test]
fn trimmed_bounds_exact() {
    assert_eq!(trimmed_bounds("  ab c \n"), (2, 6));
    assert_eq!(trimmed_bounds("abc"), (0, 3));
    assert_eq!(trimmed_bounds(""), (0, 0));
    assert_eq!(trimmed_bounds(" \t\r\n "), (5, 5));
    assert_eq!(trimmed_bounds("\u{3000}é\u{85}"), (1, 2));
}

#[test]
fn trimmed_bounds_agrees_with_str_trim() {
    for s in ["  d \n", "x", "\u{2028}\u{a0}yes\u{205f}", "\n\n", "a b"] {
        let (lo, hi) = trimmed_bounds(s);
        let inner: String = s.chars().skip(lo).take(hi - lo).collect();
        assert_eq!(inner, s.trim());
    }
}

#[test]
fn trimmed_is_cases() {
    assert!(trimmed_is(" d\r\n", 'd'));
    assert!(!trimmed_is("dd\n", 'd'));
    assert!(!trimmed_is("d x", 'd'));
    assert!(!trimmed_is("\n", 'd'));
    assert!(!trimmed_is("s\n", 'd'));
}

#[test]
fn setup_step_default_choice() {
    let mut cfg = changed_cfg();
    assert_eq!(setup_device_step(&mut cfg, Some("d\n")), SetupOutcome::Complete(StatusType::ERROR));
    assert_eq!(cfg.pixel_num, 65);
    assert_eq!(cfg.fps, 60);
    assert_eq!(cfg.gamma_table_path, "directory");
    assert_eq!(cfg.device_type, DeviceType::ESP8266);
    assert!(cfg.use_gui);
}

#[test]
fn setup_step_default_choice_with_spaces() {
    let mut cfg = changed_cfg();
    assert_eq!(
        setup_device_step(&mut cfg, Some("  d \t\r\n")),
        SetupOutcome::Complete(StatusType::ERROR)
    );
    assert_eq!(cfg.mic_rate, 44_100);
    assert_eq!(cfg.device_type, DeviceType::ESP8266);
}

#[test]
fn setup_step_custom_choice() {
    let mut cfg = changed_cfg();
    assert_eq!(setup_device_step(&mut cfg, Some("s\n")), SetupOutcome::CustomUnimplemented);
    assert_eq!(cfg.pixel_num, 3);
    assert_eq!(cfg.device_type, DeviceType::BLINKSTICK);
}

#[test]
fn setup_step_quit_is_unhandled() {
    let mut cfg = changed_cfg();
    assert_eq!(setup_device_step(&mut cfg, Some("q\n")), SetupOutcome::Unhandled);
    assert_eq!(cfg.pixel_num, 3);
    assert_eq!(cfg.gamma_table_path, "elsewhere");
}

#[test]
fn setup_step_other_inputs_unhandled() {
    let mut cfg = changed_cfg();
    assert_eq!(setup_device_step(&mut cfg, Some("")), SetupOutcome::Unhandled);
    assert_eq!(setup_device_step(&mut cfg, Some("default\n")), SetupOutcome::Unhandled);
    assert_eq!(setup_device_step(&mut cfg, Some("x\nd\n")), SetupOutcome::Unhandled);
    assert_eq!(setup_device_step(&mut cfg, Some("D\n")), SetupOutcome::Unhandled);
    assert_eq!(cfg.fps, 1);
}

#[test]
fn remote_choice_cases() {
    assert_eq!(remote_setup_choice(Some("y\n")), RemoteSetupChoice::SetupRemote);
    assert_eq!(remote_setup_choice(Some(" n \n")), RemoteSetupChoice::Skip);
    assert_eq!(remote_setup_choice(Some("yes\n")), RemoteSetupChoice::Unhandled);
    assert_eq!(remote_setup_choice(Some("")), RemoteSetupChoice::Unhandled);
    assert_eq!(remote_setup_choice(Some("N\n")), RemoteSetupChoice::Unhandled);
}

#[test]
fn setup_step_read_error_reads_again() {
    let mut cfg = changed_cfg();
    assert_eq!(setup_device_step(&mut cfg, None), SetupOutcome::ReadAgain);
    assert_eq!(cfg.pixel_num, 3);
    assert_eq!(cfg.device_type, DeviceType::BLINKSTICK);
}

#[test]
fn remote_choice_read_error() {
    assert_eq!(remote_setup_choice(None), RemoteSetupChoice::ReadFailed);
}

#[test]
fn trimmed_bounds_all_whitespace_starts_at_end() {
    assert_eq!(trimmed_bounds("   "), (3, 3));
    assert_eq!(trimmed_bounds("\u{2000}\n"), (2, 2));
}
