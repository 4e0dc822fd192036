//! Whether checks are carried out.

use vstd::prelude::*;

verus! {

/// Whether the checks of an operation are to be carried out or skipped.
#[derive(Debug, Clone, Copy, PartialEq, Eq, Structural)]
pub enum Validation {
    Enabled,
    Disabled,
}

} // verus!
