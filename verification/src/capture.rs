//! Screen capture. Talking to the browser is the shell's business; the
//! core only defines the component.

use vstd::prelude::*;

verus! {

/// Screenshot and recording front end. Stateless.
pub struct ScreenCapture;

} // verus!
