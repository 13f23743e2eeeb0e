//! Markers for the phase of a resource that has to be switched on before use.

use vstd::prelude::*;

verus! {

/// Marks a resource that has been switched on.
///
/// The payload is there for resources that carry data once they run; most
/// carry none.
pub struct Enabled<T = ()>(pub T);

/// Marks a resource that has not been switched on yet.
pub struct Disabled;

} // verus!
