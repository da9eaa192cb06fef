use vstd::prelude::*;

verus! {

/// The persisted state of the sandbox cgroup.
pub struct CgroupState {
    pub path: Option<String>,
    pub overhead_path: Option<String>,
    pub sandbox_cgroup_only: bool,
}

/// The cgroup state used when a persisted record carries none.
pub open spec fn default_cgroup_state() -> CgroupState {
    CgroupState { path: None, overhead_path: None, sandbox_cgroup_only: false }
}

impl Default for CgroupState {
    fn default() -> (r: CgroupState)
        ensures
            r == default_cgroup_state(),
    {
        CgroupState { path: None, overhead_path: None, sandbox_cgroup_only: false }
    }
}

/// What is persisted of the resource manager across a runtime restart: the
/// network backend's endpoint snapshot (of backend-specific type `E`) and the
/// cgroup state. Rootfs and volume records are not part of it.
pub struct ResourceState<E> {
    pub endpoint: Vec<E>,
    pub cgroup_state: Option<CgroupState>,
}

/// The cgroup state that a restore takes from a persisted record.
pub open spec fn restored_cgroup<E>(s: ResourceState<E>) -> CgroupState {
    match s.cgroup_state {
        Some(c) => c,
        None => default_cgroup_state(),
    }
}

} // verus!
