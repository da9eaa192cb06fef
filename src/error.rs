use vstd::prelude::*;

verus! {

/// The stage at which an operation of the resource manager failed. The
/// underlying cause stays with whoever performed the failing call.
#[derive(Clone, Copy, Debug, PartialEq, Eq, Structural)]
pub enum ResourceError {
    /// Querying the hypervisor's capabilities.
    Capabilities,
    /// Constructing the share-filesystem backend.
    NewShareFs,
    /// Share-filesystem device setup before the VM starts.
    SetupShareFsBeforeStart,
    /// Setting up the sandbox bind mounts.
    SetupBindMounts,
    /// The network namespace worker thread could not be joined (it panicked).
    NetworkThreadJoin,
    /// Network setup failed; the worker's own error says how.
    HandleNetwork,
    /// Constructing the network backend.
    NewNetwork,
    /// Configuring the network backend against the hypervisor.
    SetupNetwork,
    /// Share-filesystem device setup after the VM started.
    SetupShareFsAfterStart,
    /// Listing the network interfaces.
    GetInterfaces,
    /// Pushing one interface to the guest agent.
    UpdateInterface,
    /// Listing the neighbour entries.
    GetNeighbors,
    /// Pushing the neighbour entries to the guest agent.
    AddArpNeighbors,
    /// Listing the routes.
    GetRoutes,
    /// Pushing the routes to the guest agent.
    UpdateRoutes,
    /// Asking the device registry for a device.
    HandleDevice,
    /// Deleting the sandbox cgroup.
    DeleteCgroup,
    /// Cleaning up the sandbox bind mounts.
    CleanupBindMounts,
    /// Cleaning up the share-filesystem host mounts.
    CleanupShareFsMount,
}

} // verus!
