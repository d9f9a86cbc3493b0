//! Network provisioning is deliberately absent: the child's private
//! network namespace keeps no interfaces beyond what would be explicitly
//! provisioned, and nothing is. The veth setup is a stub that succeeds
//! without doing anything, a known gap of the runtime.

use vstd::prelude::*;

verus! {

/// Would create a veth pair and move one end into the container's
/// namespace; for now it succeeds as a no-op.
pub fn setup_veth(_container_pid: u32) -> (r: Result<(), String>)
    ensures
        r is Ok,
{
    Ok(())
}

} // verus!
