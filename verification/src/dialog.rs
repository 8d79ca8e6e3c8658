//! The decisions of the windows: which tray notifications open the menu, and
//! how the About window and the modal message dialog answer clicks, keys,
//! hovering and closing.

use vstd::prelude::*;
use crate::geometry::{contains, in_rect, low_word, Rect};

verus! {

/// `WM_LBUTTONUP`: the left mouse button was released.
pub const WM_LBUTTONUP: u32 = 0x0202;
/// `WM_RBUTTONUP`: the right mouse button was released.
pub const WM_RBUTTONUP: u32 = 0x0205;
/// `WM_CONTEXTMENU`: the user asked for a context menu.
pub const WM_CONTEXTMENU: u32 = 0x007B;
/// `VK_RETURN`: the Enter key.
pub const VK_RETURN: u16 = 0x0D;
/// `VK_ESCAPE`: the Esc key.
pub const VK_ESCAPE: u16 = 0x1B;

/// The notification that a tray callback's `lparam` carries: its low word.
pub open spec fn tray_notification(lparam: isize) -> int {
    low_word(lparam as int)
}

/// Whether a tray icon callback opens the menu: on a left or right click, or a
/// context-menu request.
pub fn tray_opens_menu(lparam: isize) -> (b: bool)
    ensures
        b == (tray_notification(lparam) == WM_LBUTTONUP || tray_notification(lparam) == WM_RBUTTONUP
            || tray_notification(lparam) == WM_CONTEXTMENU),
{
    let m = (lparam as u32) & 0xffff;
    assert(m == low_word(lparam as int)) by (bit_vector)
        requires
            m == (lparam as u32) & 0xffff,
    ;
    m == WM_LBUTTONUP || m == WM_RBUTTONUP || m == WM_CONTEXTMENU
}

/// The virtual-key code of a `WM_KEYDOWN` message's `wparam` (its low 16 bits).
pub open spec fn key_code(wparam: usize) -> int {
    (wparam as int) % 65536
}

/// The virtual-key code of a `WM_KEYDOWN` message's `wparam`.
fn key_of(wparam: usize) -> (k: u16)
    ensures
        k == key_code(wparam),
{
    let k = wparam as u16;
    assert(k == (wparam as int) % 65536) by (bit_vector)
        requires
            k == wparam as u16,
    ;
    k
}

// ---------------------------------------------------------------- About window

/// What a click in the About window does.
#[derive(Clone, Copy, PartialEq, Eq, Structural, Debug)]
pub enum AboutClick {
    /// Hide the window (the close button).
    Hide,
    /// Open the project page in the browser (the link).
    OpenLink,
    /// Nothing.
    Ignore,
}

/// What releasing the mouse at `(x, y)` in the About window does: the close
/// button hides it, else the link opens the project page.
pub fn about_click(close: Rect, link: Rect, x: i32, y: i32) -> (r: AboutClick)
    ensures
        r == (if contains(close, x as int, y as int) {
            AboutClick::Hide
        } else if contains(link, x as int, y as int) {
            AboutClick::OpenLink
        } else {
            AboutClick::Ignore
        }),
{
    if in_rect(close, x, y) {
        AboutClick::Hide
    } else if in_rect(link, x, y) {
        AboutClick::OpenLink
    } else {
        AboutClick::Ignore
    }
}

/// Whether the About window shows the hand cursor at `(x, y)`: over the link or
/// the close button.
pub fn about_shows_hand(close: Rect, link: Rect, x: i32, y: i32) -> (b: bool)
    ensures
        b == (contains(link, x as int, y as int) || contains(close, x as int, y as int)),
{
    in_rect(link, x, y) || in_rect(close, x, y)
}

/// Whether a key press hides the About window: Esc does.
pub fn about_key_hides(wparam: usize) -> (b: bool)
    ensures
        b == (key_code(wparam) == VK_ESCAPE),
{
    key_of(wparam) == VK_ESCAPE
}

/// The close button's hover state after the mouse moved to `(x, y)`, and whether
/// it changed (so the button must be repainted).
pub fn hover(close: Rect, was_hot: bool, x: i32, y: i32) -> (r: (bool, bool))
    ensures
        r.0 == contains(close, x as int, y as int),
        r.1 == (r.0 != was_hot),
{
    let hot = in_rect(close, x, y);
    (hot, hot != was_hot)
}

// ---------------------------------------------------------------- message dialog

/// How a message dialog ended.
#[derive(Clone, Copy, PartialEq, Eq, Structural, Debug)]
pub enum DialogChoice {
    /// The primary button, or Enter.
    Primary,
    /// The secondary button, the close button, Esc, or closing the window.
    Dismissed,
}

/// The clickable parts of a message dialog. `has_secondary` is false for a
/// single-button (OK-style) dialog, whose `secondary` rectangle is then ignored.
#[derive(Clone, Copy, PartialEq, Eq, Structural, Debug)]
pub struct DialogButtons {
    pub close: Rect,
    pub primary: Rect,
    pub secondary: Rect,
    pub has_secondary: bool,
}

/// The choice that releasing the mouse at `(x, y)` makes, if any; the close
/// button wins over the buttons, the primary button over the secondary one.
pub open spec fn click_choice(b: DialogButtons, x: int, y: int) -> Option<DialogChoice> {
    if contains(b.close, x, y) {
        Some(DialogChoice::Dismissed)
    } else if contains(b.primary, x, y) {
        Some(DialogChoice::Primary)
    } else if b.has_secondary && contains(b.secondary, x, y) {
        Some(DialogChoice::Dismissed)
    } else {
        None
    }
}

/// The choice a released mouse button at `(x, y)` makes, if any.
pub fn dialog_click(b: DialogButtons, x: i32, y: i32) -> (r: Option<DialogChoice>)
    ensures
        r == click_choice(b, x as int, y as int),
{
    if in_rect(b.close, x, y) {
        Some(DialogChoice::Dismissed)
    } else if in_rect(b.primary, x, y) {
        Some(DialogChoice::Primary)
    } else if b.has_secondary && in_rect(b.secondary, x, y) {
        Some(DialogChoice::Dismissed)
    } else {
        None
    }
}

/// The choice a key press makes, if any: Enter chooses the primary button, Esc dismisses.
pub fn dialog_key(wparam: usize) -> (r: Option<DialogChoice>)
    ensures
        r == (if key_code(wparam) == VK_RETURN {
            Some(DialogChoice::Primary)
        } else if key_code(wparam) == VK_ESCAPE {
            Some(DialogChoice::Dismissed)
        } else {
            None
        }),
{
    let k = key_of(wparam);
    if k == VK_RETURN {
        Some(DialogChoice::Primary)
    } else if k == VK_ESCAPE {
        Some(DialogChoice::Dismissed)
    } else {
        None
    }
}

/// Whether the dialog shows the hand cursor at `(x, y)`: over a button or the
/// close button.
pub fn dialog_shows_hand(b: DialogButtons, x: i32, y: i32) -> (r: bool)
    ensures
        r == (contains(b.primary, x as int, y as int) || contains(b.close, x as int, y as int) || (
        b.has_secondary && contains(b.secondary, x as int, y as int))),
{
    in_rect(b.primary, x, y) || in_rect(b.close, x, y) || (b.has_secondary && in_rect(
        b.secondary,
        x,
        y,
    ))
}

/// What a message dialog is told.
pub enum DialogEvent {
    /// The left mouse button was released at a point.
    ButtonUp { x: i32, y: i32 },
    /// A key went down (`WM_KEYDOWN`'s `wparam`).
    KeyDown { wparam: usize },
    /// The mouse moved to a point.
    MouseMove { x: i32, y: i32 },
    /// The window is asked to close.
    Close,
}

/// What a message dialog does in answer.
#[derive(Clone, Copy, PartialEq, Eq, Structural, Debug)]
pub enum DialogAction {
    /// Destroy the window: the dialog is over.
    Destroy,
    /// Repaint the close button, whose hover state changed.
    RepaintClose,
    /// Nothing to do.
    Nothing,
}

/// A running message dialog: its buttons, its choice once made, and whether
/// the mouse is over its close button.
pub struct DialogState {
    pub buttons: DialogButtons,
    pub choice: Option<DialogChoice>,
    pub close_hot: bool,
}

impl DialogState {
    /// A dialog that has just opened: nothing chosen, close button not hovered.
    pub fn new(buttons: DialogButtons) -> (s: DialogState)
        ensures
            s.buttons == buttons,
            s.choice is None,
            !s.close_hot,
    {
        DialogState { buttons, choice: None, close_hot: false }
    }

    /// The modal loop runs until a choice is made.
    pub fn finished(&self) -> (b: bool)
        ensures
            b == self.choice is Some,
    {
        self.choice.is_some()
    }

    /// What the dialog returns to its caller: true exactly when the primary
    /// button (or Enter) ended it.
    pub fn accepted(&self) -> (b: bool)
        ensures
            b == (self.choice == Some(DialogChoice::Primary)),
    {
        match self.choice {
            Some(DialogChoice::Primary) => true,
            _ => false,
        }
    }

    /// Handles one event: a click on a button or the close button, Enter or
    /// Esc, sets the choice and destroys the window; closing the window
    /// dismisses the dialog unless a choice was already made; moving the mouse
    /// tracks the close button's hover state.
    pub fn on_event(&mut self, event: DialogEvent) -> (action: DialogAction)
        ensures
            final(self).buttons == old(self).buttons,
            match event {
                DialogEvent::ButtonUp { x, y } => {
                    &&& final(self).close_hot == old(self).close_hot
                    &&& match click_choice(old(self).buttons, x as int, y as int) {
                        Some(c) => final(self).choice == Some(c) && action == DialogAction::Destroy,
                        None => final(self).choice == old(self).choice && action
                            == DialogAction::Nothing,
                    }
                },
                DialogEvent::KeyDown { wparam } => {
                    &&& final(self).close_hot == old(self).close_hot
                    &&& if key_code(wparam) == VK_RETURN {
                        final(self).choice == Some(DialogChoice::Primary) && action
                            == DialogAction::Destroy
                    } else if key_code(wparam) == VK_ESCAPE {
                        final(self).choice == Some(DialogChoice::Dismissed) && action
                            == DialogAction::Destroy
                    } else {
                        final(self).choice == old(self).choice && action == DialogAction::Nothing
                    }
                },
                DialogEvent::MouseMove { x, y } => {
                    &&& final(self).choice == old(self).choice
                    &&& final(self).close_hot == contains(old(self).buttons.close, x as int, y as int)
                    &&& action == (if final(self).close_hot != old(self).close_hot {
                        DialogAction::RepaintClose
                    } else {
                        DialogAction::Nothing
                    })
                },
                DialogEvent::Close => {
                    &&& final(self).close_hot == old(self).close_hot
                    &&& final(self).choice == (match old(self).choice {
                        Some(c) => Some(c),
                        None => Some(DialogChoice::Dismissed),
                    })
                    &&& action == DialogAction::Destroy
                },
            },
    {
        match event {
            DialogEvent::ButtonUp { x, y } => {
                match dialog_click(self.buttons, x, y) {
                    Some(c) => {
                        self.choice = Some(c);
                        DialogAction::Destroy
                    },
                    None => DialogAction::Nothing,
                }
            },
            DialogEvent::KeyDown { wparam } => {
                match dialog_key(wparam) {
                    Some(c) => {
                        self.choice = Some(c);
                        DialogAction::Destroy
                    },
                    None => DialogAction::Nothing,
                }
            },
            DialogEvent::MouseMove { x, y } => {
                let (hot, changed) = hover(self.buttons.close, self.close_hot, x, y);
                self.close_hot = hot;
                if changed {
                    DialogAction::RepaintClose
                } else {
                    DialogAction::Nothing
                }
            },
            DialogEvent::Close => {
                if self.choice.is_none() {
                    self.choice = Some(DialogChoice::Dismissed);
                }
                DialogAction::Destroy
            },
        }
    }
}

/// A single-button dialog can only be accepted through its one button or
/// Enter: a click anywhere else, the secondary rectangle included, either
/// dismisses it (the close button) or does nothing.
pub proof fn lemma_single_button_dialog(b: DialogButtons, x: int, y: int)
    requires
        !b.has_secondary,
        !contains(b.primary, x, y),
    ensures
        click_choice(b, x, y) == (if contains(b.close, x, y) {
            Some(DialogChoice::Dismissed)
        } else {
            None
        }),
{
}

/// The close button always dismisses, even where it overlaps a button.
pub proof fn lemma_close_button_dismisses(b: DialogButtons, x: int, y: int)
    requires
        contains(b.close, x, y),
    ensures
        click_choice(b, x, y) == Some(DialogChoice::Dismissed),
{
}

} // verus!
