//! Pasting on systems without a keystroke-injection or accessibility API.

use vstd::prelude::*;

verus! {

/// Whether the application may inject keystrokes; systems without an
/// accessibility permission always allow it.
pub fn check_accessibility() -> (trusted: bool)
    ensures
        trusted,
{
    true
}

/// Simulating the paste shortcut where the system offers no way to do it: always refused.
pub fn simulate_paste() -> (r: Result<(), String>)
    ensures
        r matches Err(e) && e@ == "Paste simulation only supported on macOS"@,
{
    Err("Paste simulation only supported on macOS".to_owned())
}

} // verus!
