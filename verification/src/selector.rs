//! The assembly step: wiring one production variant to stand in for the port.
//!
//! Production builds choose between the two production variants with a single
//! boolean toggle; the toggle absent selects the default variant. Selection is
//! total and exclusive: exactly one variant is wired, freshly constructed.

use vstd::prelude::*;
use crate::adapters::{DefaultAdapter, OtherAdapter};

verus! {

/// The production variant chosen by the assembly step.
pub enum WiredAdapter {
    ByDefault(DefaultAdapter),
    ByOther(OtherAdapter),
}

/// Wire the production variant that the toggle selects.
///
/// With the toggle absent the wired variant is the default one; with the
/// toggle present it is the other one. Either way the instance starts with
/// its flag unset.
pub fn wire_production(other_enabled: bool) -> (wired: WiredAdapter)
    ensures
        !other_enabled ==> wired == WiredAdapter::ByDefault(DefaultAdapter(false)),
        other_enabled ==> wired == WiredAdapter::ByOther(OtherAdapter(false)),
{
    if other_enabled {
        WiredAdapter::ByOther(OtherAdapter(false))
    } else {
        WiredAdapter::ByDefault(DefaultAdapter(false))
    }
}

} // verus!
