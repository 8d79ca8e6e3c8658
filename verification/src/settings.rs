//! The Remote-Mode-only aids (the "EM CONTROLE REMOTO" screen veil and 0%
//! monitor brightness through PowerToys Power Display): their settings, how the
//! tray menu changes them, what must be shown or restored on each change, and
//! how they are remembered in the registry.

use vstd::prelude::*;
use crate::mode::{MenuCommand, Mode};

verus! {

/// What the user has chosen: the mode, and whether each Remote-Mode aid is wanted.
/// The aids take effect only in Remote Mode; the wish is kept across a stay in
/// On-Site Mode and across restarts.
#[derive(Clone, Copy, PartialEq, Eq, Structural, Debug)]
pub struct Settings {
    pub mode: Mode,
    /// The screen veil is wanted.
    pub veil: bool,
    /// 0% brightness is wanted.
    pub dim: bool,
}

/// The veil is on screen: in Remote Mode, when wanted.
pub open spec fn veil_shown(s: Settings) -> bool {
    s.mode == Mode::Remote && s.veil
}

/// The monitors are at 0%: in Remote Mode, when wanted.
pub open spec fn dimmed(s: Settings) -> bool {
    s.mode == Mode::Remote && s.dim
}

/// Which profile Power Display is asked to apply.
#[derive(Clone, Copy, PartialEq, Eq, Structural, Debug)]
pub enum Brightness {
    /// The 0% profile (the dark-theme event).
    Dark,
    /// The normal profile (the light-theme event).
    Normal,
}

/// What must change on screen: show (`Some(true)`) or hide (`Some(false)`) the
/// veil, and which brightness profile to ask for; `None` where nothing changes.
#[derive(Clone, Copy, PartialEq, Eq, Structural, Debug)]
pub struct Effects {
    pub veil: Option<bool>,
    pub brightness: Option<Brightness>,
}

/// The change from one on-screen state (`veil_was`, `dim_was`) to another.
pub open spec fn change(veil_was: bool, dim_was: bool, veil_now: bool, dim_now: bool) -> Effects {
    Effects {
        veil: if veil_was != veil_now {
            Some(veil_now)
        } else {
            None
        },
        brightness: if dim_was != dim_now {
            Some(
                if dim_now {
                    Brightness::Dark
                } else {
                    Brightness::Normal
                },
            )
        } else {
            None
        },
    }
}

fn change_exec(veil_was: bool, dim_was: bool, veil_now: bool, dim_now: bool) -> (e: Effects)
    ensures
        e == change(veil_was, dim_was, veil_now, dim_now),
{
    Effects {
        veil: if veil_was != veil_now {
            Some(veil_now)
        } else {
            None
        },
        brightness: if dim_was != dim_now {
            Some(
                if dim_now {
                    Brightness::Dark
                } else {
                    Brightness::Normal
                },
            )
        } else {
            None
        },
    }
}

/// What must change on screen when the settings go from `before` to `after`.
pub open spec fn transition(before: Settings, after: Settings) -> Effects {
    change(veil_shown(before), dimmed(before), veil_shown(after), dimmed(after))
}

/// The settings after a tray menu command: a mode item switches mode (keeping
/// the aids' wishes); an aid's item flips its wish, in Remote Mode only (in
/// On-Site Mode the item is unavailable); other commands change no setting.
pub open spec fn after_command(s: Settings, cmd: MenuCommand) -> Settings {
    match cmd {
        MenuCommand::UseMode(m) => Settings { mode: m, veil: s.veil, dim: s.dim },
        MenuCommand::ToggleVeil => if s.mode == Mode::Remote {
            Settings { mode: s.mode, veil: !s.veil, dim: s.dim }
        } else {
            s
        },
        MenuCommand::ToggleBrightness => if s.mode == Mode::Remote {
            Settings { mode: s.mode, veil: s.veil, dim: !s.dim }
        } else {
            s
        },
        _ => s,
    }
}

/// Whether the aids' menu items can be chosen: in Remote Mode only.
pub fn aids_available(mode: Mode) -> (b: bool)
    ensures
        b == (mode == Mode::Remote),
{
    mode == Mode::Remote
}

/// Carries out a menu command on the settings, and says what must change on
/// screen as a result.
pub fn apply_command(s: Settings, cmd: MenuCommand) -> (r: (Settings, Effects))
    ensures
        r.0 == after_command(s, cmd),
        r.1 == transition(s, after_command(s, cmd)),
{
    let next = match cmd {
        MenuCommand::UseMode(m) => Settings { mode: m, veil: s.veil, dim: s.dim },
        MenuCommand::ToggleVeil => if s.mode == Mode::Remote {
            Settings { mode: s.mode, veil: !s.veil, dim: s.dim }
        } else {
            s
        },
        MenuCommand::ToggleBrightness => if s.mode == Mode::Remote {
            Settings { mode: s.mode, veil: s.veil, dim: !s.dim }
        } else {
            s
        },
        _ => s,
    };
    let shown_before = s.mode == Mode::Remote && s.veil;
    let dim_before = s.mode == Mode::Remote && s.dim;
    let shown_after = next.mode == Mode::Remote && next.veil;
    let dim_after = next.mode == Mode::Remote && next.dim;
    (next, change_exec(shown_before, dim_before, shown_after, dim_after))
}

/// What to put on screen at startup, when nothing is shown yet: the settings'
/// aids, if they take effect.
pub fn startup_effects(s: Settings) -> (e: Effects)
    ensures
        e == change(false, false, veil_shown(s), dimmed(s)),
{
    change_exec(false, false, s.mode == Mode::Remote && s.veil, s.mode == Mode::Remote && s.dim)
}

/// What to undo on exit: hide the veil and restore the brightness, if they were in effect.
pub fn exit_effects(s: Settings) -> (e: Effects)
    ensures
        e == change(veil_shown(s), dimmed(s), false, false),
{
    change_exec(s.mode == Mode::Remote && s.veil, s.mode == Mode::Remote && s.dim, false, false)
}

/// Switching to On-Site Mode takes the aids off: the veil is hidden if it was
/// shown, the brightness restored if it was at 0%, and afterwards neither is in
/// effect; the wishes themselves are kept for the next stay in Remote Mode.
pub proof fn lemma_onsite_clears_aids(s: Settings)
    ensures
        !veil_shown(after_command(s, MenuCommand::UseMode(Mode::OnSite))),
        !dimmed(after_command(s, MenuCommand::UseMode(Mode::OnSite))),
        transition(s, after_command(s, MenuCommand::UseMode(Mode::OnSite))).veil == (if veil_shown(
            s,
        ) {
            Some(false)
        } else {
            None
        }),
        transition(s, after_command(s, MenuCommand::UseMode(Mode::OnSite))).brightness == (
        if dimmed(s) {
            Some(Brightness::Normal)
        } else {
            None
        }),
        after_command(s, MenuCommand::UseMode(Mode::OnSite)).veil == s.veil,
        after_command(s, MenuCommand::UseMode(Mode::OnSite)).dim == s.dim,
{
}

/// Choosing a mode, either one, keeps both wishes as they were and sets the mode
/// chosen; going back to Remote Mode brings back exactly the aids that are
/// wished for (the veil if it is wished for, 0% brightness if it is) and nothing else.
pub proof fn lemma_mode_keeps_wishes(s: Settings, m: Mode)
    ensures
        after_command(s, MenuCommand::UseMode(m)).mode == m,
        after_command(s, MenuCommand::UseMode(m)).veil == s.veil,
        after_command(s, MenuCommand::UseMode(m)).dim == s.dim,
        s.mode == Mode::OnSite ==> transition(s, after_command(s, MenuCommand::UseMode(Mode::Remote))).veil == (
        if s.veil {
            Some(true)
        } else {
            None
        }),
        s.mode == Mode::OnSite ==> transition(s, after_command(s, MenuCommand::UseMode(Mode::Remote))).brightness == (
        if s.dim {
            Some(Brightness::Dark)
        } else {
            None
        }),
        transition(s, after_command(s, MenuCommand::UseMode(s.mode))) == (Effects {
            veil: None,
            brightness: None,
        }),
{
}

/// Each aid's item changes its own wish only, and in Remote Mode nothing else:
/// the mode and the other wish stay as they were.
pub proof fn lemma_toggle_changes_only_its_own(s: Settings)
    ensures
        after_command(s, MenuCommand::ToggleVeil).mode == s.mode,
        after_command(s, MenuCommand::ToggleVeil).dim == s.dim,
        after_command(s, MenuCommand::ToggleBrightness).mode == s.mode,
        after_command(s, MenuCommand::ToggleBrightness).veil == s.veil,
        s.mode == Mode::Remote ==> after_command(s, MenuCommand::ToggleVeil).veil == !s.veil,
        s.mode == Mode::Remote ==> after_command(s, MenuCommand::ToggleBrightness).dim == !s.dim,
{
}

/// The aids are Remote-Mode only: in On-Site Mode neither is ever in effect,
/// and their menu items change nothing.
pub proof fn lemma_aids_remote_only(s: Settings)
    requires
        s.mode == Mode::OnSite,
    ensures
        !veil_shown(s),
        !dimmed(s),
        after_command(s, MenuCommand::ToggleVeil) == s,
        after_command(s, MenuCommand::ToggleBrightness) == s,
        transition(s, after_command(s, MenuCommand::ToggleVeil)) == (Effects {
            veil: None,
            brightness: None,
        }),
{
}

/// In Remote Mode an aid's menu item turns it on or off at once: toggling the
/// veil shows or hides it, toggling brightness asks for 0% or restores it.
pub proof fn lemma_toggle_takes_effect(s: Settings)
    requires
        s.mode == Mode::Remote,
    ensures
        transition(s, after_command(s, MenuCommand::ToggleVeil)) == (Effects {
            veil: Some(!s.veil),
            brightness: None,
        }),
        transition(s, after_command(s, MenuCommand::ToggleBrightness)) == (Effects {
            veil: None,
            brightness: Some(
                if s.dim {
                    Brightness::Normal
                } else {
                    Brightness::Dark
                },
            ),
        }),
{
}

/// On exit nothing is left behind: the veil is hidden if it was shown and the
/// brightness restored if it was at 0%.
pub proof fn lemma_exit_restores(s: Settings)
    ensures
        change(veil_shown(s), dimmed(s), false, false).veil == (if veil_shown(s) {
            Some(false)
        } else {
            None
        }),
        change(veil_shown(s), dimmed(s), false, false).brightness == (if dimmed(s) {
            Some(Brightness::Normal)
        } else {
            None
        }),
{
}

// ---------------------------------------------------------------- remembered wishes

/// The `REG_DWORD` data stored for a wish: 1 or 0, as four little-endian bytes.
pub open spec fn wish_data(on: bool) -> Seq<u8> {
    if on {
        seq![1u8, 0u8, 0u8, 0u8]
    } else {
        seq![0u8, 0u8, 0u8, 0u8]
    }
}

/// The `REG_DWORD` data to store for a wish.
pub fn wish_registry_bytes(on: bool) -> (r: Vec<u8>)
    ensures
        r@ == wish_data(on),
{
    if on {
        vec![1u8, 0u8, 0u8, 0u8]
    } else {
        vec![0u8, 0u8, 0u8, 0u8]
    }
}

/// The wish a registry read gives: on when the value was read and is not 0;
/// off when it is 0 or missing.
pub fn wish_from_registry(found: bool, value: u32) -> (on: bool)
    ensures
        on == (found && value != 0),
{
    found && value != 0
}

/// The little-endian value of four bytes.
pub open spec fn le_u32(b: Seq<u8>) -> int {
    b[0] + b[1] * 256 + b[2] * 65536 + b[3] * 16777216
}

/// A stored wish reads back as itself, so both aids are remembered across restarts.
pub proof fn lemma_wish_roundtrip(on: bool)
    ensures
        (le_u32(wish_data(on)) != 0) == on,
{
}

} // verus!
