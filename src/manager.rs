use vstd::prelude::*;
use crate::after_start::AfterStart;
use crate::cleanup::Cleanup;
use crate::devices::{HandleDevices, LinuxDevice};
use crate::error::ResourceError;
use crate::persist::{CgroupState, ResourceState, restored_cgroup};
use crate::prepare::{Prepare, ResourceKind};

verus! {

/// How the namespace-pinned network worker ended.
#[derive(Clone, Copy, Debug, PartialEq, Eq, Structural)]
pub enum WorkerExit {
    /// The worker thread panicked and could not be joined with a result.
    Panicked,
    /// Constructing the network backend failed on the worker.
    NewFailed,
    /// Configuring the network backend failed on the worker.
    SetupFailed,
    /// The network was constructed and configured.
    Configured,
}

/// The state of a sandbox's resources that decides the orchestration: the
/// sandbox id, the bind mounts of the configuration, and whether a
/// share-filesystem and a network have been established.
pub struct ResourceManagerInner {
    pub sid: String,
    pub bind_mounts: Vec<String>,
    pub share_fs: bool,
    pub network: bool,
}

/// Whether `s` is what saving `m` gives, with `network_save` the network
/// backend's snapshot (if it produced one) and `cgroup` the cgroup state.
pub open spec fn saved_by<E>(
    m: ResourceManagerInner,
    network_save: Option<Vec<E>>,
    cgroup: CgroupState,
    s: ResourceState<E>,
) -> bool {
    &&& s.endpoint@ == (match network_save {
        Some(v) => if m.network { v@ } else { Seq::empty() },
        None => Seq::empty(),
    })
    &&& s.cgroup_state == Some(cgroup)
}

impl ResourceManagerInner {
    /// A manager for sandbox `sid` with no network and no share-filesystem.
    pub fn new(sid: &str, bind_mounts: Vec<String>) -> (r: ResourceManagerInner)
        ensures
            r.sid@ == sid@,
            r.bind_mounts@ == bind_mounts@,
            !r.share_fs,
            !r.network,
    {
        ResourceManagerInner { sid: sid.to_owned(), bind_mounts, share_fs: false, network: false }
    }

    /// Starts preparing the entries before the VM starts.
    pub fn prepare_before_start_vm(&self, device_configs: Vec<ResourceKind>) -> (r: Prepare)
        ensures
            r.wf(),
            r.entries@ == device_configs@,
            r.pos == 0,
            r.share_fs == self.share_fs,
            r.network == self.network,
            r.bind_mounts_empty == (self.bind_mounts@.len() == 0),
            r.error.is_none(),
            device_configs@.len() > 0 ==> r.call == crate::prepare::first_call(device_configs@[0]),
    {
        Prepare::new(device_configs, self.share_fs, self.network, self.bind_mounts.len() == 0)
    }

    /// Takes over what a preparation established, whether it finished or not:
    /// the entries handled before a failure keep their effect.
    pub fn finish_prepare(&mut self, p: &Prepare)
        ensures
            final(self).sid == old(self).sid,
            final(self).bind_mounts == old(self).bind_mounts,
            final(self).share_fs == p.share_fs,
            final(self).network == p.network,
    {
        self.share_fs = p.share_fs;
        self.network = p.network;
    }

    /// The outcome of network setup from how its worker ended: a panicked
    /// worker is reported apart from a failure of the setup itself, and a
    /// configured network is recorded as the manager's network.
    pub fn handle_network(&mut self, exit: WorkerExit) -> (r: Result<(), ResourceError>)
        ensures
            r == (match exit {
                WorkerExit::Panicked => Err(ResourceError::NetworkThreadJoin),
                WorkerExit::NewFailed => Err(ResourceError::NewNetwork),
                WorkerExit::SetupFailed => Err(ResourceError::SetupNetwork),
                WorkerExit::Configured => Ok::<(), ResourceError>(()),
            }),
            final(self).network == (old(self).network || exit == WorkerExit::Configured),
            final(self).sid == old(self).sid,
            final(self).bind_mounts == old(self).bind_mounts,
            final(self).share_fs == old(self).share_fs,
    {
        match exit {
            WorkerExit::Panicked => Err(ResourceError::NetworkThreadJoin),
            WorkerExit::NewFailed => Err(ResourceError::NewNetwork),
            WorkerExit::SetupFailed => Err(ResourceError::SetupNetwork),
            WorkerExit::Configured => {
                self.network = true;
                Ok(())
            },
        }
    }

    /// Starts the post-boot phase.
    pub fn setup_after_start_vm(&self) -> (r: AfterStart)
        ensures
            r.wf(),
            r.network == self.network,
            r.error.is_none(),
            r.pending == (if self.share_fs {
                Some(crate::after_start::AfterStartCall::SetupShareFsDevice)
            } else if self.network {
                Some(crate::after_start::AfterStartCall::GetInterfaces)
            } else {
                None
            }),
    {
        AfterStart::new(self.share_fs, self.network)
    }

    /// The storage entries for the sandbox: those the share-filesystem backend
    /// supplies, or none when no share-filesystem exists.
    pub fn get_storage_for_sandbox<T>(&self, share_fs_storages: Vec<T>) -> (r: Vec<T>)
        ensures
            r@ == (if self.share_fs { share_fs_storages@ } else { Seq::empty() }),
    {
        if self.share_fs {
            share_fs_storages
        } else {
            Vec::new()
        }
    }

    /// Starts handling the devices of container `cid`.
    pub fn handler_devices(&self, _cid: &str, devices: Vec<LinuxDevice>) -> (r: HandleDevices)
        ensures
            r.wf(),
            r.devices@ == devices@,
            r.pos == crate::devices::next_block(devices@, 0),
            r.gathered@.len() == 0,
            r.error.is_none(),
    {
        HandleDevices::new(devices)
    }

    /// Whether the cgroup delegate is asked to update container limits: only
    /// when limits are given; without them the update is a success that
    /// changes nothing.
    pub fn update_cgroups(&self, _cid: &str, limits_given: bool) -> (r: bool)
        ensures
            r == limits_given,
    {
        limits_given
    }

    /// Starts the teardown.
    pub fn cleanup(&self) -> (r: Cleanup)
        ensures
            r.share_fs == self.share_fs,
            r.bind_mounts_empty == (self.bind_mounts@.len() == 0),
            r.pending == Some(crate::cleanup::CleanupCall::DeleteCgroup),
            r.error.is_none(),
    {
        Cleanup::new(self.share_fs, self.bind_mounts.len() == 0)
    }

    /// The persisted record: the network's endpoint snapshot when a network
    /// exists and produced one (else an empty list), and the cgroup state.
    pub fn save<E>(&self, network_save: Option<Vec<E>>, cgroup_state: CgroupState) -> (r: ResourceState<E>)
        ensures
            saved_by(*self, network_save, cgroup_state, r),
    {
        let mut endpoint: Vec<E> = Vec::new();
        if self.network {
            match network_save {
                Some(v) => { endpoint = v; },
                None => {},
            }
        }
        ResourceState { endpoint, cgroup_state: Some(cgroup_state) }
    }

    /// Rebuilds a manager from a persisted record: no network and no
    /// share-filesystem (both are set up again before the VM starts), the bind
    /// mounts of the configuration given (none when the default configuration
    /// is used), and the cgroup state for the cgroup delegate to restore from.
    pub fn restore<E>(sid: &str, bind_mounts: Option<Vec<String>>, state: ResourceState<E>) -> (r: (ResourceManagerInner, CgroupState))
        ensures
            r.0.sid@ == sid@,
            r.0.bind_mounts@ == (match bind_mounts {
                Some(b) => b@,
                None => Seq::empty(),
            }),
            !r.0.network,
            !r.0.share_fs,
            r.1 == restored_cgroup(state),
    {
        let bind_mounts = match bind_mounts {
            Some(b) => b,
            None => Vec::new(),
        };
        let cgroup = match state.cgroup_state {
            Some(c) => c,
            None => CgroupState::default(),
        };
        (ResourceManagerInner::new(sid, bind_mounts), cgroup)
    }
}

/// Restoring from what was saved gives back the saved cgroup state.
pub proof fn lemma_restore_after_save<E>(
    m: ResourceManagerInner,
    network_save: Option<Vec<E>>,
    cgroup: CgroupState,
    saved: ResourceState<E>,
)
    requires
        saved_by(m, network_save, cgroup, saved),
    ensures
        restored_cgroup(saved) == cgroup,
{
}

} // verus!
