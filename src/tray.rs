//! Commands sent from the system tray icon.
use vstd::prelude::*;

verus! {

/// A command chosen in the tray menu.
#[derive(Clone, Copy, Debug, PartialEq, Eq, Structural)]
pub enum TrayCommand {
    OpenBrowser,
    Quit,
}

} // verus!
