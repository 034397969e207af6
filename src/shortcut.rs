//! Choice of the global key combination that brings the main window forward.
use vstd::prelude::*;

verus! {

/// The platforms the application is built for.
#[derive(Clone, Copy, Debug, PartialEq, Eq, Structural)]
pub enum Platform {
    /// The one platform whose primary modifier is the Super (Command) key.
    MacOs,
    Windows,
    Linux,
    /// Any other target; it follows the Ctrl convention.
    Other,
}

/// A keyboard modifier that a shortcut holds down with its key.
#[derive(Clone, Copy, Debug, PartialEq, Eq, Structural)]
pub enum Modifier {
    Ctrl,
    Super,
}

/// A system-wide key combination: one modifier and one key.
#[derive(Clone, Copy, Debug, PartialEq, Eq, Structural)]
pub struct KeyCombination {
    pub modifier: Modifier,
    pub key: char,
}

/// The key that the focus shortcut uses on every platform.
pub const FOCUS_KEY: char = 'K';

/// The primary modifier of a platform's shortcut convention.
pub open spec fn primary_modifier(platform: Platform) -> Modifier {
    if platform == Platform::MacOs {
        Modifier::Super
    } else {
        Modifier::Ctrl
    }
}

/// The combination that focuses the main window on `platform`.
pub open spec fn focus_combination(platform: Platform) -> KeyCombination {
    KeyCombination { modifier: primary_modifier(platform), key: FOCUS_KEY }
}

/// Selects the focus combination for `platform`: Super+K where Super is the
/// primary modifier, Ctrl+K everywhere else.
pub fn shortcut_for(platform: Platform) -> (c: KeyCombination)
    ensures
        c == focus_combination(platform),
        c.key == FOCUS_KEY,
        (c.modifier == Modifier::Super) <==> (platform == Platform::MacOs),
        (c.modifier == Modifier::Ctrl) <==> (platform != Platform::MacOs),
{
    let modifier = match platform {
        Platform::MacOs => Modifier::Super,
        _ => Modifier::Ctrl,
    };
    KeyCombination { modifier, key: FOCUS_KEY }
}

} // verus!
