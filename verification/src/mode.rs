//! The two power profiles, how the chosen one is remembered in the registry,
//! and how it is shown in the tray.

use vstd::prelude::*;
use crate::text::{decimal, decimal_string};
use crate::utf16::{le_bytes, to_le_bytes, utf16, w, wn};

verus! {

broadcast use vstd::string::group_string_axioms;

/// The profile that is applied to the active power plan.
#[derive(Clone, Copy, PartialEq, Eq, Structural, Debug)]
pub enum Mode {
    /// Never sleep or hibernate; only the display turns off.
    Remote,
    /// Energy-saving defaults for when someone is at the machine.
    OnSite,
}

/// One of the six timeouts of a power plan that a profile sets.
#[derive(Clone, Copy, PartialEq, Eq, Structural, Debug)]
pub enum PowerSetting {
    MonitorAc,
    MonitorDc,
    StandbyAc,
    StandbyDc,
    HibernateAc,
    HibernateDc,
}

/// The name `powercfg /change` knows a setting by.
pub open spec fn setting_name(s: PowerSetting) -> Seq<char> {
    match s {
        PowerSetting::MonitorAc => "monitor-timeout-ac"@,
        PowerSetting::MonitorDc => "monitor-timeout-dc"@,
        PowerSetting::StandbyAc => "standby-timeout-ac"@,
        PowerSetting::StandbyDc => "standby-timeout-dc"@,
        PowerSetting::HibernateAc => "hibernate-timeout-ac"@,
        PowerSetting::HibernateDc => "hibernate-timeout-dc"@,
    }
}

impl PowerSetting {
    /// The name `powercfg /change` knows this setting by.
    pub fn name(self) -> (r: &'static str)
        ensures
            r@ == setting_name(self),
    {
        match self {
            PowerSetting::MonitorAc => "monitor-timeout-ac",
            PowerSetting::MonitorDc => "monitor-timeout-dc",
            PowerSetting::StandbyAc => "standby-timeout-ac",
            PowerSetting::StandbyDc => "standby-timeout-dc",
            PowerSetting::HibernateAc => "hibernate-timeout-ac",
            PowerSetting::HibernateDc => "hibernate-timeout-dc",
        }
    }
}

/// Sleep, as opposed to the display or hibernation.
pub open spec fn is_sleep_setting(s: PowerSetting) -> bool {
    s == PowerSetting::StandbyAc || s == PowerSetting::StandbyDc
}

/// Hibernation.
pub open spec fn is_hibernate_setting(s: PowerSetting) -> bool {
    s == PowerSetting::HibernateAc || s == PowerSetting::HibernateDc
}

/// The order in which a profile sets the six timeouts.
pub open spec fn setting_order() -> Seq<PowerSetting> {
    seq![
        PowerSetting::MonitorAc,
        PowerSetting::MonitorDc,
        PowerSetting::StandbyAc,
        PowerSetting::StandbyDc,
        PowerSetting::HibernateAc,
        PowerSetting::HibernateDc,
    ]
}

/// The timeout, in minutes (0 meaning never), that a mode gives a setting.
///
/// | Setting          | Remote  | On-Site |
/// |------------------|---------|---------|
/// | display  AC / DC | 30 / 15 | 10 / 5  |
/// | sleep    AC / DC | 0 / 0   | 30 / 20 |
/// | hibernate AC / DC| 0 / 0   | 0 / 180 |
pub open spec fn profile_minutes(mode: Mode, s: PowerSetting) -> u32 {
    match mode {
        Mode::Remote => match s {
            PowerSetting::MonitorAc => 30,
            PowerSetting::MonitorDc => 15,
            _ => 0,
        },
        Mode::OnSite => match s {
            PowerSetting::MonitorAc => 10,
            PowerSetting::MonitorDc => 5,
            PowerSetting::StandbyAc => 30,
            PowerSetting::StandbyDc => 20,
            PowerSetting::HibernateAc => 0,
            PowerSetting::HibernateDc => 180,
        },
    }
}

/// The six `(setting, minutes)` pairs of a mode's profile, in `setting_order`.
pub fn profile(mode: Mode) -> (r: Vec<(PowerSetting, u32)>)
    ensures
        r@.len() == 6,
        forall|i: int|
            0 <= i < 6 ==> (#[trigger] r@[i]).0 == setting_order()[i] && r@[i].1
                == profile_minutes(mode, setting_order()[i]),
{
    let order = [
        PowerSetting::MonitorAc,
        PowerSetting::MonitorDc,
        PowerSetting::StandbyAc,
        PowerSetting::StandbyDc,
        PowerSetting::HibernateAc,
        PowerSetting::HibernateDc,
    ];
    let minutes: [u32; 6] = match mode {
        Mode::Remote => [30, 15, 0, 0, 0, 0],
        Mode::OnSite => [10, 5, 30, 20, 0, 180],
    };
    let mut r: Vec<(PowerSetting, u32)> = Vec::new();
    let mut i: usize = 0;
    while i < 6
        invariant
            i <= 6,
            r@.len() == i,
            order@ == setting_order(),
            forall|k: int| 0 <= k < 6 ==> minutes@[k] == profile_minutes(mode, setting_order()[k]),
            forall|k: int|
                0 <= k < i ==> (#[trigger] r@[k]).0 == setting_order()[k] && r@[k].1
                    == profile_minutes(mode, setting_order()[k]),
        decreases 6 - i,
    {
        r.push((order[i], minutes[i]));
        i = i + 1;
    }
    r
}

/// The arguments of the `powercfg` run that sets `setting` to `minutes`.
pub open spec fn change_args(setting: PowerSetting, minutes: u32) -> Seq<Seq<char>> {
    seq!["/change"@, setting_name(setting), decimal(minutes as nat)]
}

/// The arguments of the `powercfg` run that sets `setting` to `minutes`:
/// `/change <setting> <minutes>`.
pub fn powercfg_change_args(setting: PowerSetting, minutes: u32) -> (r: Vec<String>)
    ensures
        r@.len() == 3,
        forall|j: int| 0 <= j < 3 ==> (#[trigger] r@[j])@ == change_args(setting, minutes)[j],
{
    let mut r: Vec<String> = Vec::new();
    r.push(String::from_str("/change"));
    r.push(String::from_str(setting.name()));
    r.push(decimal_string(minutes as u64));
    r
}

/// The `powercfg` runs that overwrite the active power plan with a mode's
/// profile, one per timeout, in `setting_order`.
pub fn profile_commands(mode: Mode) -> (r: Vec<Vec<String>>)
    ensures
        r@.len() == 6,
        forall|i: int, j: int|
            0 <= i < 6 && 0 <= j < 3 ==> (#[trigger] r@[i]@[j])@ == change_args(
                setting_order()[i],
                profile_minutes(mode, setting_order()[i]),
            )[j],
        forall|i: int| 0 <= i < 6 ==> (#[trigger] r@[i]@).len() == 3,
{
    let p = profile(mode);
    let mut r: Vec<Vec<String>> = Vec::new();
    let mut i: usize = 0;
    while i < 6
        invariant
            i <= 6,
            r@.len() == i,
            p@.len() == 6,
            forall|k: int|
                0 <= k < 6 ==> (#[trigger] p@[k]).0 == setting_order()[k] && p@[k].1
                    == profile_minutes(mode, setting_order()[k]),
            forall|k: int, j: int|
                0 <= k < i && 0 <= j < 3 ==> (#[trigger] r@[k]@[j])@ == change_args(
                    setting_order()[k],
                    profile_minutes(mode, setting_order()[k]),
                )[j],
            forall|k: int| 0 <= k < i ==> (#[trigger] r@[k]@).len() == 3,
        decreases 6 - i,
    {
        let (setting, minutes) = p[i];
        let args = powercfg_change_args(setting, minutes);
        r.push(args);
        i = i + 1;
    }
    r
}

/// In Remote Mode the machine never sleeps and never hibernates, on AC or on
/// battery: every sleep and hibernate timeout of that profile is 0 (never),
/// while the display still turns off.
pub proof fn lemma_remote_never_sleeps(s: PowerSetting)
    ensures
        is_sleep_setting(s) || is_hibernate_setting(s) ==> profile_minutes(Mode::Remote, s) == 0,
        !is_sleep_setting(s) && !is_hibernate_setting(s) ==> profile_minutes(Mode::Remote, s) > 0,
{
}

/// Each profile sets all six timeouts, each exactly once, so switching modes
/// leaves nothing of the previous profile behind.
pub proof fn lemma_profile_covers_every_setting(s: PowerSetting)
    ensures
        exists|i: int| 0 <= i < 6 && #[trigger] setting_order()[i] == s,
        forall|i: int, j: int|
            0 <= i < j < 6 ==> #[trigger] setting_order()[i] != #[trigger] setting_order()[j],
{
    match s {
        PowerSetting::MonitorAc => assert(setting_order()[0] == s),
        PowerSetting::MonitorDc => assert(setting_order()[1] == s),
        PowerSetting::StandbyAc => assert(setting_order()[2] == s),
        PowerSetting::StandbyDc => assert(setting_order()[3] == s),
        PowerSetting::HibernateAc => assert(setting_order()[4] == s),
        PowerSetting::HibernateDc => assert(setting_order()[5] == s),
    }
}

// ---------------------------------------------------------------- the remembered mode

/// The text under which a mode is stored in the registry value `Mode`.
pub open spec fn mode_value(mode: Mode) -> Seq<char> {
    match mode {
        Mode::Remote => "REMOTE"@,
        Mode::OnSite => "ONSITE"@,
    }
}

/// The text under which `mode` is stored in the registry value `Mode`.
pub fn mode_value_text(mode: Mode) -> (r: &'static str)
    ensures
        r@ == mode_value(mode),
{
    match mode {
        Mode::Remote => "REMOTE",
        Mode::OnSite => "ONSITE",
    }
}

/// The `REG_SZ` data written for `mode`: its text in UTF-16 with a NUL
/// terminator, as little-endian bytes.
pub open spec fn registry_data(mode: Mode) -> Seq<u8> {
    le_bytes(utf16(mode_value(mode)).push(0))
}

/// The `REG_SZ` data to store for `mode`.
pub fn registry_value_bytes(mode: Mode) -> (r: Vec<u8>)
    ensures
        r@ == registry_data(mode),
{
    let units = w(mode_value_text(mode));
    to_le_bytes(units.as_slice())
}

/// The index of the first NUL unit of `buf` at or after `i`, or its length.
pub open spec fn nul_from(buf: Seq<u16>, i: int) -> int
    decreases buf.len() - i,
{
    if 0 <= i < buf.len() && buf[i] != 0 {
        nul_from(buf, i + 1)
    } else {
        i
    }
}

/// The text held by a registry string buffer: its units up to the first NUL,
/// or all of them if there is none.
pub open spec fn buffer_text(buf: Seq<u16>) -> Seq<u16> {
    buf.take(nul_from(buf, 0))
}

/// The mode a registry read gives: On-Site exactly when the value was read and
/// its text is `ONSITE`; Remote otherwise, including when there is no value.
///
/// Comparing the UTF-16 units with those of `ONSITE` is the same test as
/// comparing their lossy decoding with `"ONSITE"`: a unit that does not decode
/// becomes U+FFFD, which `ONSITE` does not contain, and UTF-16 decoding is
/// one-to-one on the units that do decode.
pub open spec fn mode_read(found: bool, buf: Seq<u16>) -> Mode {
    if found && buffer_text(buf) == utf16("ONSITE"@) {
        Mode::OnSite
    } else {
        Mode::Remote
    }
}

/// The mode stored in a registry string buffer; `found` says whether the read succeeded.
pub fn mode_from_registry(found: bool, buf: &[u16]) -> (r: Mode)
    ensures
        r == mode_read(found, buf@),
{
    if !found {
        return Mode::Remote;
    }
    let mut len: usize = 0;
    while len < buf.len() && buf[len] != 0
        invariant
            len <= buf@.len(),
            nul_from(buf@, 0) == nul_from(buf@, len as int),
        decreases buf@.len() - len,
    {
        len = len + 1;
    }
    let onsite = wn("ONSITE");
    if len != onsite.len() {
        assert(buffer_text(buf@).len() != utf16("ONSITE"@).len());
        return Mode::Remote;
    }
    let mut i: usize = 0;
    while i < len
        invariant
            len == onsite@.len(),
            len <= buf@.len(),
            len == nul_from(buf@, 0),
            onsite@ == utf16("ONSITE"@),
            i <= len,
            forall|k: int| 0 <= k < i ==> buf@[k] == onsite@[k],
        decreases len - i,
    {
        if buf[i] != onsite[i] {
            assert(buffer_text(buf@)[i as int] != onsite@[i as int]);
            return Mode::Remote;
        }
        i = i + 1;
    }
    assert(buffer_text(buf@) =~= onsite@);
    Mode::OnSite
}

/// The units of `utf16(s).push(0)` for the two stored texts.
proof fn lemma_stored_units(mode: Mode)
    ensures
        utf16(mode_value(mode)).len() == 6,
        utf16(mode_value(mode)).push(0)[6] == 0,
        forall|k: int| 0 <= k < 6 ==> #[trigger] utf16(mode_value(mode))[k] != 0,
        utf16(mode_value(mode))[0] == (if mode == Mode::Remote { 0x52u16 } else { 0x4Fu16 }),
        utf16(mode_value(mode)) == (if mode == Mode::Remote {
            seq![0x52u16, 0x45u16, 0x4Du16, 0x4Fu16, 0x54u16, 0x45u16]
        } else {
            seq![0x4Fu16, 0x4Eu16, 0x53u16, 0x49u16, 0x54u16, 0x45u16]
        }),
{
    reveal_strlit("REMOTE");
    reveal_strlit("ONSITE");
    let s = mode_value(mode);
    assert(s.len() == 6);
    reveal_with_fuel(utf16, 7);
    assert(s.take(1).drop_last() =~= s.take(0));
    assert(s.take(2).drop_last() =~= s.take(1));
    assert(s.take(3).drop_last() =~= s.take(2));
    assert(s.take(4).drop_last() =~= s.take(3));
    assert(s.take(5).drop_last() =~= s.take(4));
    assert(s.take(6).drop_last() =~= s.take(5));
    assert(s.take(6) =~= s);
    assert(utf16(s.take(0)) =~= seq![]);
    assert(utf16(s.take(1)) =~= seq![s[0] as u32 as u16]);
    assert(utf16(s.take(2)) =~= seq![s[0] as u32 as u16, s[1] as u32 as u16]);
    assert(utf16(s.take(3)) =~= seq![s[0] as u32 as u16, s[1] as u32 as u16, s[2] as u32 as u16]);
    assert(utf16(s.take(4)) =~= seq![s[0] as u32 as u16, s[1] as u32 as u16, s[2] as u32 as u16,
        s[3] as u32 as u16]);
    assert(utf16(s.take(5)) =~= seq![s[0] as u32 as u16, s[1] as u32 as u16, s[2] as u32 as u16,
        s[3] as u32 as u16, s[4] as u32 as u16]);
    assert(utf16(s) =~= seq![s[0] as u32 as u16, s[1] as u32 as u16, s[2] as u32 as u16,
        s[3] as u32 as u16, s[4] as u32 as u16, s[5] as u32 as u16]);
}

proof fn lemma_le_bytes_push(units: Seq<u16>, x: u16)
    ensures
        le_bytes(units.push(x)) == le_bytes(units) + seq![(x % 256) as u8, (x / 256) as u8],
{
    assert(units.push(x).drop_last() =~= units);
}

/// The registry holds the mode as the text `REMOTE` or `ONSITE`, in capitals,
/// one UTF-16 unit per letter, low byte first, with a NUL unit at the end.
pub proof fn lemma_registry_bytes(mode: Mode)
    ensures
        registry_data(mode) == (match mode {
            Mode::Remote => seq![
                0x52u8, 0u8, 0x45u8, 0u8, 0x4Du8, 0u8, 0x4Fu8, 0u8, 0x54u8, 0u8, 0x45u8, 0u8, 0u8, 0u8,
            ],
            Mode::OnSite => seq![
                0x4Fu8, 0u8, 0x4Eu8, 0u8, 0x53u8, 0u8, 0x49u8, 0u8, 0x54u8, 0u8, 0x45u8, 0u8, 0u8, 0u8,
            ],
        }),
{
    lemma_stored_units(mode);
    let u = utf16(mode_value(mode)).push(0);
    let e: Seq<u16> = seq![];
    assert(le_bytes(e) =~= seq![]);
    lemma_le_bytes_push(e, u[0]);
    lemma_le_bytes_push(e.push(u[0]), u[1]);
    lemma_le_bytes_push(e.push(u[0]).push(u[1]), u[2]);
    lemma_le_bytes_push(e.push(u[0]).push(u[1]).push(u[2]), u[3]);
    lemma_le_bytes_push(e.push(u[0]).push(u[1]).push(u[2]).push(u[3]), u[4]);
    lemma_le_bytes_push(e.push(u[0]).push(u[1]).push(u[2]).push(u[3]).push(u[4]), u[5]);
    lemma_le_bytes_push(e.push(u[0]).push(u[1]).push(u[2]).push(u[3]).push(u[4]).push(u[5]), u[6]);
    assert(u =~= e.push(u[0]).push(u[1]).push(u[2]).push(u[3]).push(u[4]).push(u[5]).push(u[6]));
    assert(registry_data(mode) =~= (match mode {
        Mode::Remote => seq![
            0x52u8, 0u8, 0x45u8, 0u8, 0x4Du8, 0u8, 0x4Fu8, 0u8, 0x54u8, 0u8, 0x45u8, 0u8, 0u8, 0u8,
        ],
        Mode::OnSite => seq![
            0x4Fu8, 0u8, 0x4Eu8, 0u8, 0x53u8, 0u8, 0x49u8, 0u8, 0x54u8, 0u8, 0x45u8, 0u8, 0u8, 0u8,
        ],
    }));
}

/// What is written is what is read back: a buffer that a successful read of
/// the stored value filled (its text, the NUL terminator, then anything) gives
/// back the mode that was stored. Together with `registry_value_bytes`, this is
/// how the last chosen mode survives a restart.
pub proof fn lemma_mode_roundtrip(mode: Mode, buf: Seq<u16>)
    requires
        buf.len() >= 7,
        buf.take(7) == utf16(mode_value(mode)).push(0),
    ensures
        mode_read(true, buf) == mode,
{
    lemma_stored_units(mode);
    lemma_stored_units(Mode::OnSite);
    let text = utf16(mode_value(mode));
    assert forall|k: int| 0 <= k < 6 implies buf[k] == #[trigger] text[k] by {
        assert(buf.take(7)[k] == buf[k]);
    }
    assert(buf[6] == 0) by {
        assert(buf.take(7)[6] == buf[6]);
    }
    assert(nul_from(buf, 0) == 6) by {
        reveal_with_fuel(nul_from, 8);
        assert(text[0] != 0 && text[1] != 0 && text[2] != 0 && text[3] != 0 && text[4] != 0
            && text[5] != 0);
    }
    assert(buffer_text(buf) =~= text);
    if mode == Mode::Remote {
        assert(buffer_text(buf)[0] != utf16("ONSITE"@)[0]);
    }
}

/// A failed read, or a buffer holding anything but `ONSITE`, falls back to Remote Mode.
pub proof fn lemma_unreadable_is_remote(found: bool, buf: Seq<u16>)
    requires
        !found || buffer_text(buf) != utf16("ONSITE"@),
    ensures
        mode_read(found, buf) == Mode::Remote,
{
}

// ---------------------------------------------------------------- tray

/// The tooltip of the tray icon in a mode.
pub open spec fn tooltip_text(mode: Mode) -> Seq<char> {
    match mode {
        Mode::Remote => "EnergyFlag — Remote Mode (nunca dorme)"@,
        Mode::OnSite => "EnergyFlag — On-Site Mode (economia)"@,
    }
}

/// The tooltip of the tray icon in `mode`.
pub fn tooltip(mode: Mode) -> (r: &'static str)
    ensures
        r@ == tooltip_text(mode),
{
    match mode {
        Mode::Remote => "EnergyFlag — Remote Mode (nunca dorme)",
        Mode::OnSite => "EnergyFlag — On-Site Mode (economia)",
    }
}

/// The units copied into the tray icon's 128-unit tip field: the NUL-terminated
/// tooltip, cut to its first 127 units (the field's last unit stays 0).
pub fn tray_tip(mode: Mode) -> (r: Vec<u16>)
    ensures
        r@.len() <= 127,
        r@ == utf16(tooltip_text(mode)).push(0).take(
            if utf16(tooltip_text(mode)).len() + 1 <= 127 {
                utf16(tooltip_text(mode)).len() + 1int
            } else {
                127int
            },
        ),
{
    let tip = w(tooltip(mode));
    let n = if tip.len() < 127 {
        tip.len()
    } else {
        127
    };
    let mut r: Vec<u16> = Vec::new();
    let mut i: usize = 0;
    while i < n
        invariant
            n <= tip@.len(),
            n <= 127,
            i <= n,
            r@ == tip@.take(i as int),
        decreases n - i,
    {
        r.push(tip[i]);
        i = i + 1;
        assert(r@ =~= tip@.take(i as int));
    }
    r
}

/// The two-letter badge drawn on the tray icon: `RM` or `OS`.
pub fn badge_label(mode: Mode) -> (r: &'static str)
    ensures
        r@ == (match mode {
            Mode::Remote => "RM"@,
            Mode::OnSite => "OS"@,
        }),
{
    match mode {
        Mode::Remote => "RM",
        Mode::OnSite => "OS",
    }
}

/// Menu command: switch to Remote Mode.
pub const ID_REMOTE: usize = 1;
/// Menu command: switch to On-Site Mode.
pub const ID_ONSITE: usize = 2;
/// Menu command: turn the "EM CONTROLE REMOTO" screen veil on or off.
pub const ID_VEIL: usize = 3;
/// Menu command: turn 0% monitor brightness (through PowerToys Power Display) on or off.
pub const ID_BRIGHTNESS: usize = 4;
/// Menu command: quit.
pub const ID_EXIT: usize = 11;
/// Menu command: show the About window.
pub const ID_ABOUT: usize = 12;
/// Menu command: look for a newer release.
pub const ID_UPDATE: usize = 13;

/// What choosing a tray menu item asks for.
#[derive(Clone, Copy, PartialEq, Eq, Structural, Debug)]
pub enum MenuCommand {
    UseMode(Mode),
    ToggleVeil,
    ToggleBrightness,
    About,
    CheckForUpdates,
    Exit,
}

/// The command of a tray menu item (`TrackPopupMenu` answers 0 when the menu
/// was dismissed, which is no command).
pub fn menu_command(id: usize) -> (r: Option<MenuCommand>)
    ensures
        r == (if id == ID_REMOTE {
            Some(MenuCommand::UseMode(Mode::Remote))
        } else if id == ID_ONSITE {
            Some(MenuCommand::UseMode(Mode::OnSite))
        } else if id == ID_VEIL {
            Some(MenuCommand::ToggleVeil)
        } else if id == ID_BRIGHTNESS {
            Some(MenuCommand::ToggleBrightness)
        } else if id == ID_ABOUT {
            Some(MenuCommand::About)
        } else if id == ID_UPDATE {
            Some(MenuCommand::CheckForUpdates)
        } else if id == ID_EXIT {
            Some(MenuCommand::Exit)
        } else {
            None
        }),
{
    if id == ID_REMOTE {
        Some(MenuCommand::UseMode(Mode::Remote))
    } else if id == ID_ONSITE {
        Some(MenuCommand::UseMode(Mode::OnSite))
    } else if id == ID_VEIL {
        Some(MenuCommand::ToggleVeil)
    } else if id == ID_BRIGHTNESS {
        Some(MenuCommand::ToggleBrightness)
    } else if id == ID_ABOUT {
        Some(MenuCommand::About)
    } else if id == ID_UPDATE {
        Some(MenuCommand::CheckForUpdates)
    } else if id == ID_EXIT {
        Some(MenuCommand::Exit)
    } else {
        None
    }
}

/// The mode item that carries the radio dot: the one of the active mode.
pub fn checked_menu_item(mode: Mode) -> (r: usize)
    ensures
        r == (if mode == Mode::Remote {
            ID_REMOTE
        } else {
            ID_ONSITE
        }),
{
    if mode == Mode::Remote {
        ID_REMOTE
    } else {
        ID_ONSITE
    }
}

} // verus!
