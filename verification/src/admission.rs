//! The admission controller: decides whether an upgrade may proceed.

use vstd::prelude::*;
use crate::error::RelayError;
use crate::registry::Registry;

verus! {

/// Whether a registry of `size` connections under the ceiling `capacity`
/// admits one more.
pub open spec fn admits(size: nat, capacity: usize) -> bool {
    size < capacity
}

/// Checks the registry against its ceiling. A registry at or above the
/// ceiling refuses the upgrade; the registry itself is not touched either
/// way.
pub fn check_admission(registry: &Registry) -> (decision: Result<(), RelayError>)
    ensures
        decision == if admits(registry@.len(), registry.ceiling()) {
            Ok::<(), RelayError>(())
        } else {
            Err::<(), RelayError>(RelayError::CapacityExceeded)
        },
{
    if registry.len() >= registry.capacity() {
        Err(RelayError::CapacityExceeded)
    } else {
        Ok(())
    }
}

} // verus!
