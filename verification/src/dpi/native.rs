//! The setup on systems that need none.

use vstd::prelude::*;

verus! {

/// Declares the process aware of the display's scaling. Where the system
/// scales nothing behind a process's back there is nothing to declare.
pub fn setup_process_dpi() {
}

} // verus!
