//! The operating system that platform-specific behaviour is chosen for.
use vstd::prelude::*;

verus! {

/// The operating systems that the library distinguishes.
#[derive(Clone, Copy, PartialEq, Eq, Structural)]
pub enum TargetOs {
    Linux,
    MacOs,
    Windows,
    /// Any other operating system.
    Other,
}

} // verus!
