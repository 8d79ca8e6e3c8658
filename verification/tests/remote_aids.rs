use energyflag::mode::{MenuCommand, Mode};
use energyflag::settings::{
    aids_available, apply_command, exit_effects, startup_effects, wish_from_registry,
    wish_registry_bytes, Brightness, Effects, Settings,
};

fn s(mode: Mode, veil: bool, dim: bool) -> Settings {
    Settings { mode, veil, dim }
}

const NONE: Effects = Effects { veil: None, brightness: None };

#[test]
fn aids_are_available_in_remote_mode_only() {
    assert!(aids_available(Mode::Remote));
    assert!(!aids_available(Mode::OnSite));
}

#[test]
fn toggling_in_remote_mode_takes_effect() {
    let (n, e) = apply_command(s(Mode::Remote, false, false), MenuCommand::ToggleVeil);
    assert_eq!(n, s(Mode::Remote, true, false));
    assert_eq!(e, Effects { veil: Some(true), brightness: None });
    let (n, e) = apply_command(n, MenuCommand::ToggleBrightness);
    assert_eq!(n, s(Mode::Remote, true, true));
    assert_eq!(e, Effects { veil: None, brightness: Some(Brightness::Dark) });
    let (n, e) = apply_command(n, MenuCommand::ToggleBrightness);
    assert_eq!(n, s(Mode::Remote, true, false));
    assert_eq!(e, Effects { veil: None, brightness: Some(Brightness::Normal) });
}

#[test]
fn toggling_in_onsite_mode_does_nothing() {
    let st = s(Mode::OnSite, true, false);
    assert_eq!(apply_command(st, MenuCommand::ToggleVeil), (st, NONE));
    assert_eq!(apply_command(st, MenuCommand::ToggleBrightness), (st, NONE));
}

#[test]
fn switching_to_onsite_hides_the_veil_and_restores_brightness() {
    let (n, e) = apply_command(s(Mode::Remote, true, true), MenuCommand::UseMode(Mode::OnSite));
    assert_eq!(n, s(Mode::OnSite, true, true));
    assert_eq!(e, Effects { veil: Some(false), brightness: Some(Brightness::Normal) });
    // Back in Remote Mode the remembered aids return.
    let (n, e) = apply_command(n, MenuCommand::UseMode(Mode::Remote));
    assert_eq!(n, s(Mode::Remote, true, true));
    assert_eq!(e, Effects { veil: Some(true), brightness: Some(Brightness::Dark) });
    // Without aids, a mode switch changes nothing on screen.
    let (_, e) = apply_command(s(Mode::Remote, false, false), MenuCommand::UseMode(Mode::OnSite));
    assert_eq!(e, NONE);
}

#[test]
fn other_commands_leave_the_settings_alone() {
    let st = s(Mode::Remote, true, false);
    assert_eq!(apply_command(st, MenuCommand::About), (st, NONE));
    assert_eq!(apply_command(st, MenuCommand::Exit), (st, NONE));
}

#[test]
fn startup_and_exit() {
    assert_eq!(startup_effects(s(Mode::Remote, true, true)), Effects { veil: Some(true), brightness: Some(Brightness::Dark) });
    assert_eq!(startup_effects(s(Mode::OnSite, true, true)), NONE);
    assert_eq!(exit_effects(s(Mode::Remote, false, true)), Effects { veil: None, brightness: Some(Brightness::Normal) });
    assert_eq!(exit_effects(s(Mode::Remote, true, false)), Effects { veil: Some(false), brightness: None });
    assert_eq!(exit_effects(s(Mode::OnSite, true, true)), NONE);
}

#[test]
fn wishes_are_remembered() {
    for on in [false, true] {
        let b = wish_registry_bytes(on);
        let v = u32::from_le_bytes([b[0], b[1], b[2], b[3]]);
        assert_eq!(wish_from_registry(true, v), on);
    }
    assert!(!wish_from_registry(false, 1));
    assert!(wish_from_registry(true, 7));
}
