//! Display colors for menu entries.
//!
//! The simulation itself is colour-blind; these tags are the display
//! projection the UI layer renders.  They mirror a terminal palette: the
//! named variants plus an indexed 256-colour entry.

use vstd::prelude::*;

verus! {

/// Colour tag attached to menu entries by the display projections.
#[derive(Clone, Copy, Debug, PartialEq, Eq, Structural)]
pub enum MenuColor {
    White,
    Gray,
    DarkGray,
    Cyan,
    LightRed,
    LightYellow,
    LightGreen,
    LightCyan,
    LightBlue,
    LightMagenta,
    Indexed(u8),
}

} // verus!
