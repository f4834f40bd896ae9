use vstd::prelude::*;

verus! {

/// Marks that the host should run the bridge's per-tick driver on its render
/// thread; the host builds the driver when it adds the bundle.
#[derive(Clone, Copy, Debug, PartialEq, Eq, Structural)]
pub struct ServoUiBundle;

} // verus!
