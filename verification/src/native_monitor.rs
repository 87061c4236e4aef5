//! How the operating system itself names a monitor.

use vstd::prelude::*;

verus! {

/// The identifier that the operating system has for a monitor.
#[derive(Clone, Debug, PartialEq, Eq)]
pub enum NativeMonitorId {
    /// A number.
    Numeric(u32),
    /// A name.
    Name(String),
    /// The platform has no identifier for it.
    Unavailable,
}

} // verus!
