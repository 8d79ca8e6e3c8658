//! EnergyFlag's logic: the two power profiles and how they are applied and
//! remembered, the tray's texts and menu, the windows' layout and hit tests,
//! the modal dialog, the Remote-Mode-only aids (screen veil, 0% brightness),
//! and the update check (release parsing and its flow).

pub mod text;
pub mod utf16;
pub mod mode;
pub mod version;
pub mod release;
pub mod geometry;
pub mod dialog;
pub mod update;
pub mod settings;
