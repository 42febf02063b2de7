//! The listener that the control plane's operations belong to.
use vstd::prelude::*;

verus! {

/// The proxy's listener.
pub struct QUICListener;

} // verus!
