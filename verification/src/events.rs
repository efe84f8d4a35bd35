use vstd::prelude::*;

verus! {

/// Grace period granted to the best-effort proxy cleanup on the quit and
/// app-exit paths, in milliseconds: the process may terminate once it has
/// passed, whether or not the store confirmed the disable.
pub const EXIT_GRACE_MS: u64 = 200;

/// Mouse button of a tray-icon click, as the library models it.
#[derive(Clone, Copy, PartialEq, Eq, Structural, Debug)]
pub enum TrayButton {
    Left,
    Right,
    Middle,
}

/// A tray-icon interaction, as the library models it: a single click with
/// its button, a double click, or anything else the tray reports (hover,
/// leave, and the like).
#[derive(Clone, Copy, PartialEq, Eq, Structural, Debug)]
pub enum TrayInteraction {
    Click(TrayButton),
    DoubleClick,
    Other,
}

/// The interactions that count as an activation of the tray icon: a left
/// click, or any double click.
pub open spec fn spec_activation_qualifies(e: TrayInteraction) -> bool {
    e == TrayInteraction::Click(TrayButton::Left) || e == TrayInteraction::DoubleClick
}

/// Decides whether a tray interaction is an activation — one that, after
/// debouncing, brings the main window to the front.
pub fn activation_qualifies(e: TrayInteraction) -> (r: bool)
    ensures
        r == spec_activation_qualifies(e),
{
    match e {
        TrayInteraction::Click(TrayButton::Left) => true,
        TrayInteraction::DoubleClick => true,
        _ => false,
    }
}

} // verus!
