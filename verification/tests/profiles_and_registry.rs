use energyflag::mode::{
    badge_label, checked_menu_item, menu_command, mode_from_registry, mode_value_text, profile,
    profile_commands, powercfg_change_args, registry_value_bytes, tooltip, tray_tip, MenuCommand,
    Mode, PowerSetting, ID_ABOUT, ID_BRIGHTNESS, ID_EXIT, ID_ONSITE, ID_REMOTE, ID_UPDATE, ID_VEIL,
};

fn minutes(mode: Mode, s: PowerSetting) -> u32 {
    profile(mode).into_iter().find(|(k, _)| *k == s).unwrap().1
}

#[test]
fn remote_profile_matches_the_table() {
    assert_eq!(minutes(Mode::Remote, PowerSetting::StandbyAc), 0);
    assert_eq!(minutes(Mode::Remote, PowerSetting::StandbyDc), 0);
    assert_eq!(minutes(Mode::Remote, PowerSetting::HibernateAc), 0);
    assert_eq!(minutes(Mode::Remote, PowerSetting::HibernateDc), 0);
    assert_eq!(minutes(Mode::Remote, PowerSetting::MonitorAc), 30);
    assert_eq!(minutes(Mode::Remote, PowerSetting::MonitorDc), 15);
}

#[test]
fn onsite_profile_matches_the_table() {
    assert_eq!(minutes(Mode::OnSite, PowerSetting::StandbyAc), 30);
    assert_eq!(minutes(Mode::OnSite, PowerSetting::StandbyDc), 20);
    assert_eq!(minutes(Mode::OnSite, PowerSetting::HibernateAc), 0);
    assert_eq!(minutes(Mode::OnSite, PowerSetting::HibernateDc), 180);
    assert_eq!(minutes(Mode::OnSite, PowerSetting::MonitorAc), 10);
    assert_eq!(minutes(Mode::OnSite, PowerSetting::MonitorDc), 5);
}

#[test]
fn remote_mode_never_sleeps_or_hibernates() {
    for (s, m) in profile(Mode::Remote) {
        match s {
            PowerSetting::MonitorAc | PowerSetting::MonitorDc => assert!(m > 0),
            _ => assert_eq!(m, 0),
        }
    }
}

#[test]
fn each_profile_sets_all_six_settings_once() {
    for mode in [Mode::Remote, Mode::OnSite] {
        let p = profile(mode);
        assert_eq!(p.len(), 6);
        for i in 0..6 {
            for j in 0..i {
                assert_ne!(p[i].0, p[j].0);
            }
        }
    }
}

#[test]
fn powercfg_commands_of_each_profile() {
    let cmds = profile_commands(Mode::Remote);
    let expected = [
        ["/change", "monitor-timeout-ac", "30"],
        ["/change", "monitor-timeout-dc", "15"],
        ["/change", "standby-timeout-ac", "0"],
        ["/change", "standby-timeout-dc", "0"],
        ["/change", "hibernate-timeout-ac", "0"],
        ["/change", "hibernate-timeout-dc", "0"],
    ];
    assert_eq!(cmds.len(), 6);
    for (c, e) in cmds.iter().zip(expected.iter()) {
        assert_eq!(c, &e.iter().map(|s| s.to_string()).collect::<Vec<_>>());
    }
    let onsite = profile_commands(Mode::OnSite);
    assert_eq!(onsite[5], vec!["/change", "hibernate-timeout-dc", "180"]);
    assert_eq!(onsite[2], vec!["/change", "standby-timeout-ac", "30"]);
    assert_eq!(powercfg_change_args(PowerSetting::MonitorDc, 4000000000), vec!["/change", "monitor-timeout-dc", "4000000000"]);
}

#[test]
fn registry_value_is_utf16le_with_terminator() {
    assert_eq!(mode_value_text(Mode::Remote), "REMOTE");
    assert_eq!(mode_value_text(Mode::OnSite), "ONSITE");
    assert_eq!(
        registry_value_bytes(Mode::OnSite),
        vec![b'O', 0, b'N', 0, b'S', 0, b'I', 0, b'T', 0, b'E', 0, 0, 0]
    );
    assert_eq!(registry_value_bytes(Mode::Remote).len(), 14);
}

fn read_back(bytes: &[u8]) -> [u16; 16] {
    let mut buf = [0u16; 16];
    for (i, pair) in bytes.chunks(2).enumerate() {
        buf[i] = u16::from_le_bytes([pair[0], pair[1]]);
    }
    buf
}

#[test]
fn written_mode_reads_back() {
    for mode in [Mode::Remote, Mode::OnSite] {
        let buf = read_back(&registry_value_bytes(mode));
        assert_eq!(mode_from_registry(true, &buf), mode);
    }
}

#[test]
fn unreadable_or_unknown_value_means_remote() {
    let onsite = read_back(&registry_value_bytes(Mode::OnSite));
    assert_eq!(mode_from_registry(false, &onsite), Mode::Remote);
    assert_eq!(mode_from_registry(true, &[0u16; 16]), Mode::Remote);
    let lower: Vec<u16> = "onsite\0".encode_utf16().collect();
    assert_eq!(mode_from_registry(true, &lower), Mode::Remote);
    let longer: Vec<u16> = "ONSITEX\0".encode_utf16().collect();
    assert_eq!(mode_from_registry(true, &longer), Mode::Remote);
    // Text that fills the buffer without a terminator is read whole.
    let exact: Vec<u16> = "ONSITE".encode_utf16().collect();
    assert_eq!(mode_from_registry(true, &exact), Mode::OnSite);
    let mut tail = read_back(&registry_value_bytes(Mode::OnSite));
    tail[10] = 0x58;
    assert_eq!(mode_from_registry(true, &tail), Mode::OnSite);
}

#[test]
fn tray_texts() {
    assert_eq!(tooltip(Mode::Remote), "EnergyFlag — Remote Mode (nunca dorme)");
    assert_eq!(tooltip(Mode::OnSite), "EnergyFlag — On-Site Mode (economia)");
    let tip = tray_tip(Mode::OnSite);
    let mut expected: Vec<u16> = "EnergyFlag — On-Site Mode (economia)".encode_utf16().collect();
    expected.push(0);
    assert_eq!(tip, expected);
    assert_eq!(badge_label(Mode::Remote), "RM");
    assert_eq!(badge_label(Mode::OnSite), "OS");
}

#[test]
fn menu_commands() {
    assert_eq!(menu_command(ID_REMOTE), Some(MenuCommand::UseMode(Mode::Remote)));
    assert_eq!(menu_command(ID_ONSITE), Some(MenuCommand::UseMode(Mode::OnSite)));
    assert_eq!(menu_command(ID_ABOUT), Some(MenuCommand::About));
    assert_eq!(menu_command(ID_UPDATE), Some(MenuCommand::CheckForUpdates));
    assert_eq!(menu_command(ID_EXIT), Some(MenuCommand::Exit));
    assert_eq!(menu_command(0), None);
    assert_eq!(menu_command(ID_VEIL), Some(MenuCommand::ToggleVeil));
    assert_eq!(menu_command(ID_BRIGHTNESS), Some(MenuCommand::ToggleBrightness));
    assert_eq!(menu_command(5), None);
    assert_eq!(checked_menu_item(Mode::Remote), ID_REMOTE);
    assert_eq!(checked_menu_item(Mode::OnSite), ID_ONSITE);
}
