use resource::after_start::AfterStartCall;
use resource::cleanup::CleanupCall;
use resource::devices::{BlockDevice, BlockRequest, DeviceResult, LinuxDevice};
use resource::error::ResourceError;
use resource::manager::{ResourceManagerInner, WorkerExit};
use resource::outcome::{Next, Outcome};
use resource::persist::{CgroupState, ResourceState};
use resource::prepare::{PrepareCall, ResourceKind};

fn manager(bind_mounts: &[&str]) -> ResourceManagerInner {
    ResourceManagerInner::new("sandbox-1", bind_mounts.iter().map(|s| s.to_string()).collect())
}

/// Runs a preparation, answering each call from `answer`, and returns the
/// calls made with the entry each belonged to, and how it ended.
fn drive_prepare(
    m: &mut ResourceManagerInner,
    entries: Vec<ResourceKind>,
    mut answer: impl FnMut(usize, PrepareCall) -> Outcome,
) -> (Vec<(usize, PrepareCall)>, Next<PrepareCall>) {
    let mut p = m.prepare_before_start_vm(entries);
    let mut calls = vec![];
    loop {
        match p.next() {
            Next::Perform(c) => {
                calls.push((p.pos, c));
                let o = answer(p.pos, c);
                p.on_outcome(o);
            }
            end => {
                m.finish_prepare(&p);
                return (calls, end);
            }
        }
    }
}

fn ok_prepare(c: PrepareCall) -> Outcome {
    match c {
        PrepareCall::CheckFsSharing => Outcome::Supported(true),
        _ => Outcome::Succeeded,
    }
}

#[test]
fn prepare_handles_entries_in_order() {
    let mut m = manager(&["/tmp/a"]);
    let (calls, end) = drive_prepare(
        &mut m,
        vec![ResourceKind::ShareFs, ResourceKind::Network],
        |_, c| ok_prepare(c),
    );
    assert_eq!(
        calls,
        vec![
            (0, PrepareCall::CheckFsSharing),
            (0, PrepareCall::NewShareFs),
            (0, PrepareCall::SetupShareFsDevice),
            (0, PrepareCall::SetupBindMounts),
            (1, PrepareCall::SetupNetwork),
        ]
    );
    assert_eq!(end, Next::Finished);
    assert!(m.share_fs);
    assert!(m.network);
}

#[test]
fn prepare_failure_stops_later_entries() {
    let mut m = manager(&[]);
    let (calls, end) = drive_prepare(
        &mut m,
        vec![ResourceKind::ShareFs, ResourceKind::Network, ResourceKind::ShareFs],
        |_, c| if c == PrepareCall::SetupShareFsDevice { Outcome::Failed } else { ok_prepare(c) },
    );
    assert_eq!(
        calls,
        vec![
            (0, PrepareCall::CheckFsSharing),
            (0, PrepareCall::NewShareFs),
            (0, PrepareCall::SetupShareFsDevice),
        ]
    );
    assert_eq!(end, Next::Aborted(ResourceError::SetupShareFsBeforeStart));
    assert!(!m.share_fs);
    assert!(!m.network);
}

#[test]
fn prepare_network_failure_keeps_earlier_share_fs() {
    let mut m = manager(&[]);
    let (calls, end) = drive_prepare(
        &mut m,
        vec![ResourceKind::ShareFs, ResourceKind::Network],
        |_, c| if c == PrepareCall::SetupNetwork { Outcome::Failed } else { ok_prepare(c) },
    );
    assert_eq!(calls.len(), 4);
    assert_eq!(end, Next::Aborted(ResourceError::HandleNetwork));
    assert!(m.share_fs);
    assert!(!m.network);
}

#[test]
fn prepare_capability_query_failure() {
    let mut m = manager(&[]);
    let (calls, end) = drive_prepare(&mut m, vec![ResourceKind::ShareFs], |_, _| Outcome::Failed);
    assert_eq!(calls, vec![(0, PrepareCall::CheckFsSharing)]);
    assert_eq!(end, Next::Aborted(ResourceError::Capabilities));
}

#[test]
fn prepare_new_share_fs_and_bind_mount_failures() {
    let mut m = manager(&["/tmp/a"]);
    let (_, end) = drive_prepare(&mut m, vec![ResourceKind::ShareFs], |_, c| {
        if c == PrepareCall::NewShareFs { Outcome::Failed } else { ok_prepare(c) }
    });
    assert_eq!(end, Next::Aborted(ResourceError::NewShareFs));
    let (_, end) = drive_prepare(&mut m, vec![ResourceKind::ShareFs], |_, c| {
        if c == PrepareCall::SetupBindMounts { Outcome::Failed } else { ok_prepare(c) }
    });
    assert_eq!(end, Next::Aborted(ResourceError::SetupBindMounts));
    assert!(!m.share_fs);
}

#[test]
fn prepare_skips_bind_mounts_when_none_configured() {
    let mut m = manager(&[]);
    let (calls, end) = drive_prepare(&mut m, vec![ResourceKind::ShareFs], |_, c| ok_prepare(c));
    assert!(!calls.iter().any(|(_, c)| *c == PrepareCall::SetupBindMounts));
    assert_eq!(end, Next::Finished);
    assert!(m.share_fs);
}

#[test]
fn prepare_empty_list_finishes_at_once() {
    let mut m = manager(&["/tmp/a"]);
    let (calls, end) = drive_prepare(&mut m, vec![], |_, c| ok_prepare(c));
    assert!(calls.is_empty());
    assert_eq!(end, Next::Finished);
}

#[test]
fn unsupported_fs_sharing_builds_no_share_fs() {
    let mut m = manager(&["/tmp/a"]);
    let (calls, end) = drive_prepare(&mut m, vec![ResourceKind::ShareFs, ResourceKind::Network], |_, c| {
        if c == PrepareCall::CheckFsSharing { Outcome::Supported(false) } else { ok_prepare(c) }
    });
    assert_eq!(calls, vec![(0, PrepareCall::CheckFsSharing), (1, PrepareCall::SetupNetwork)]);
    assert_eq!(end, Next::Finished);
    assert!(!m.share_fs);
    assert_eq!(m.get_storage_for_sandbox(vec!["ignored"]), Vec::<&str>::new());
}

#[test]
fn storages_come_from_share_fs() {
    let mut m = manager(&[]);
    drive_prepare(&mut m, vec![ResourceKind::ShareFs], |_, c| ok_prepare(c));
    assert_eq!(m.get_storage_for_sandbox(vec![1, 2]), vec![1, 2]);
}

#[test]
fn network_worker_panic_is_a_distinct_error() {
    let mut m = manager(&[]);
    assert_eq!(m.handle_network(WorkerExit::Panicked), Err(ResourceError::NetworkThreadJoin));
    assert_eq!(m.handle_network(WorkerExit::NewFailed), Err(ResourceError::NewNetwork));
    assert_eq!(m.handle_network(WorkerExit::SetupFailed), Err(ResourceError::SetupNetwork));
    assert!(!m.network);
    assert_eq!(m.handle_network(WorkerExit::Configured), Ok(()));
    assert!(m.network);
    assert!(m.setup_after_start_vm().next() == Next::Perform(AfterStartCall::GetInterfaces));
}

/// Runs the post-boot phase with the given listing lengths and returns the
/// calls made and how it ended.
fn drive_after_start(
    m: &ResourceManagerInner,
    interfaces: usize,
    neighbors: usize,
    routes: usize,
    fail: Option<AfterStartCall>,
) -> (Vec<AfterStartCall>, Next<AfterStartCall>) {
    let mut a = m.setup_after_start_vm();
    let mut calls = vec![];
    loop {
        match a.next() {
            Next::Perform(c) => {
                calls.push(c);
                let o = if Some(c) == fail {
                    Outcome::Failed
                } else {
                    match c {
                        AfterStartCall::GetInterfaces => Outcome::Listed(interfaces),
                        AfterStartCall::GetNeighbors => Outcome::Listed(neighbors),
                        AfterStartCall::GetRoutes => Outcome::Listed(routes),
                        _ => Outcome::Succeeded,
                    }
                };
                a.on_outcome(o);
            }
            end => return (calls, end),
        }
    }
}

fn with(share_fs: bool, network: bool) -> ResourceManagerInner {
    let mut m = manager(&[]);
    m.share_fs = share_fs;
    m.network = network;
    m
}

#[test]
fn after_start_agent_calls_in_fixed_order() {
    let (calls, end) = drive_after_start(&with(true, true), 2, 3, 1, None);
    assert_eq!(
        calls,
        vec![
            AfterStartCall::SetupShareFsDevice,
            AfterStartCall::GetInterfaces,
            AfterStartCall::UpdateInterface { index: 0, count: 2 },
            AfterStartCall::UpdateInterface { index: 1, count: 2 },
            AfterStartCall::GetNeighbors,
            AfterStartCall::AddArpNeighbors,
            AfterStartCall::GetRoutes,
            AfterStartCall::UpdateRoutes,
        ]
    );
    assert_eq!(end, Next::Finished);
}

#[test]
fn after_start_empty_lists_make_no_agent_calls() {
    let (calls, end) = drive_after_start(&with(false, true), 0, 0, 0, None);
    assert_eq!(
        calls,
        vec![AfterStartCall::GetInterfaces, AfterStartCall::GetNeighbors, AfterStartCall::GetRoutes]
    );
    assert_eq!(end, Next::Finished);
    let (calls, _) = drive_after_start(&with(false, true), 1, 0, 2, None);
    assert_eq!(
        calls,
        vec![
            AfterStartCall::GetInterfaces,
            AfterStartCall::UpdateInterface { index: 0, count: 1 },
            AfterStartCall::GetNeighbors,
            AfterStartCall::GetRoutes,
            AfterStartCall::UpdateRoutes,
        ]
    );
}

#[test]
fn after_start_without_network_or_share_fs() {
    let (calls, end) = drive_after_start(&with(false, false), 5, 5, 5, None);
    assert!(calls.is_empty());
    assert_eq!(end, Next::Finished);
    let (calls, end) = drive_after_start(&with(true, false), 5, 5, 5, None);
    assert_eq!(calls, vec![AfterStartCall::SetupShareFsDevice]);
    assert_eq!(end, Next::Finished);
}

#[test]
fn after_start_failures_name_their_stage() {
    let cases = [
        (AfterStartCall::SetupShareFsDevice, ResourceError::SetupShareFsAfterStart),
        (AfterStartCall::GetInterfaces, ResourceError::GetInterfaces),
        (AfterStartCall::UpdateInterface { index: 0, count: 1 }, ResourceError::UpdateInterface),
        (AfterStartCall::GetNeighbors, ResourceError::GetNeighbors),
        (AfterStartCall::AddArpNeighbors, ResourceError::AddArpNeighbors),
        (AfterStartCall::GetRoutes, ResourceError::GetRoutes),
        (AfterStartCall::UpdateRoutes, ResourceError::UpdateRoutes),
    ];
    for (call, err) in cases {
        let (calls, end) = drive_after_start(&with(true, true), 1, 1, 1, Some(call));
        assert_eq!(*calls.last().unwrap(), call);
        assert_eq!(end, Next::Aborted(err));
    }
}

fn dev(kind: &str, path: &str, major: i64, minor: i64) -> LinuxDevice {
    LinuxDevice { kind: kind.to_string(), path: path.to_string(), major, minor }
}

fn block(id: &str) -> BlockDevice {
    BlockDevice {
        device_id: id.to_string(),
        driver_option: "blk".to_string(),
        virt_path: "/dev/vda".to_string(),
    }
}

#[test]
fn handler_devices_passes_only_block_devices() {
    let m = manager(&[]);
    let mut h = m.handler_devices("c1", vec![dev("b", "/dev/foo", 8, 0), dev("c", "/dev/tty", 5, 0)]);
    let mut requests = vec![];
    while let Next::Perform(r) = h.next() {
        requests.push(r);
        h.on_result(DeviceResult::Block(block("blk-0")));
    }
    assert_eq!(h.next(), Next::Finished);
    assert_eq!(requests, vec![BlockRequest { major: 8, minor: 0 }]);
    let out = h.into_devices();
    assert_eq!(out.len(), 1);
    assert_eq!(out[0].id, "blk-0");
    assert_eq!(out[0].container_path, "/dev/foo");
    assert_eq!(out[0].field_type, "blk");
    assert_eq!(out[0].vm_path, "/dev/vda");
}

#[test]
fn handler_devices_skips_non_block_results_and_stops_on_failure() {
    let m = manager(&[]);
    let devices = vec![
        dev("u", "/dev/u", 1, 1),
        dev("b", "/dev/a", 8, 0),
        dev("b", "/dev/b", 8, 16),
        dev("b", "/dev/c", 8, 32),
    ];
    let mut h = m.handler_devices("c1", devices);
    assert_eq!(h.next(), Next::Perform(BlockRequest { major: 8, minor: 0 }));
    h.on_result(DeviceResult::Other);
    assert_eq!(h.next(), Next::Perform(BlockRequest { major: 8, minor: 16 }));
    h.on_result(DeviceResult::Failed);
    assert_eq!(h.next(), Next::Aborted(ResourceError::HandleDevice));
    h.on_result(DeviceResult::Block(block("late")));
    assert_eq!(h.next(), Next::Aborted(ResourceError::HandleDevice));
    assert!(h.into_devices().is_empty());
}

#[test]
fn handler_devices_empty_list() {
    let m = manager(&[]);
    let h = m.handler_devices("c1", vec![]);
    assert_eq!(h.next(), Next::Finished);
}

#[test]
fn update_cgroups_without_limits_is_a_no_op() {
    let m = manager(&[]);
    assert!(!m.update_cgroups("c1", false));
    assert!(m.update_cgroups("c1", true));
}

fn drive_cleanup(m: &ResourceManagerInner, fail: Option<CleanupCall>) -> (Vec<CleanupCall>, Next<CleanupCall>) {
    let mut c = m.cleanup();
    let mut calls = vec![];
    loop {
        match c.next() {
            Next::Perform(call) => {
                calls.push(call);
                c.on_outcome(if Some(call) == fail { Outcome::Failed } else { Outcome::Succeeded });
            }
            end => return (calls, end),
        }
    }
}

#[test]
fn cleanup_with_empty_bind_mounts() {
    let mut m = manager(&[]);
    m.share_fs = true;
    let (calls, end) = drive_cleanup(&m, None);
    assert_eq!(calls, vec![CleanupCall::DeleteCgroup, CleanupCall::CleanupShareFsMount]);
    assert_eq!(end, Next::Finished);
    m.share_fs = false;
    let (calls, end) = drive_cleanup(&m, None);
    assert_eq!(calls, vec![CleanupCall::DeleteCgroup]);
    assert_eq!(end, Next::Finished);
}

#[test]
fn cleanup_runs_in_fixed_order_and_stops_at_first_failure() {
    let mut m = manager(&["/tmp/a"]);
    m.share_fs = true;
    let (calls, end) = drive_cleanup(&m, None);
    assert_eq!(
        calls,
        vec![CleanupCall::DeleteCgroup, CleanupCall::CleanupBindMounts, CleanupCall::CleanupShareFsMount]
    );
    assert_eq!(end, Next::Finished);
    let (calls, end) = drive_cleanup(&m, Some(CleanupCall::DeleteCgroup));
    assert_eq!(calls, vec![CleanupCall::DeleteCgroup]);
    assert_eq!(end, Next::Aborted(ResourceError::DeleteCgroup));
    let (_, end) = drive_cleanup(&m, Some(CleanupCall::CleanupBindMounts));
    assert_eq!(end, Next::Aborted(ResourceError::CleanupBindMounts));
    let (_, end) = drive_cleanup(&m, Some(CleanupCall::CleanupShareFsMount));
    assert_eq!(end, Next::Aborted(ResourceError::CleanupShareFsMount));
}

fn cgroup() -> CgroupState {
    CgroupState {
        path: Some("/kata/sandbox-1".to_string()),
        overhead_path: Some("/kata_overhead/sandbox-1".to_string()),
        sandbox_cgroup_only: true,
    }
}

#[test]
fn save_then_restore_keeps_cgroup_and_drops_network() {
    let mut m = manager(&["/tmp/a"]);
    m.network = true;
    m.share_fs = true;
    let saved = m.save(Some(vec!["veth0".to_string()]), cgroup());
    assert_eq!(saved.endpoint, vec!["veth0".to_string()]);
    let (r, c) = ResourceManagerInner::restore("sandbox-1", None, saved);
    assert_eq!(r.sid, "sandbox-1");
    assert!(!r.network);
    assert!(!r.share_fs);
    assert!(r.bind_mounts.is_empty());
    assert_eq!(c.path, cgroup().path);
    assert_eq!(c.overhead_path, cgroup().overhead_path);
    assert!(c.sandbox_cgroup_only);
}

#[test]
fn save_without_network_has_no_endpoints() {
    let m = manager(&[]);
    let saved = m.save(Some(vec![7u8]), cgroup());
    assert!(saved.endpoint.is_empty());
    let saved: ResourceState<u8> = with(false, true).save(None, cgroup());
    assert!(saved.endpoint.is_empty());
    assert!(saved.cgroup_state.is_some());
}

#[test]
fn restore_without_cgroup_state_uses_default() {
    let state: ResourceState<u8> = ResourceState { endpoint: vec![], cgroup_state: None };
    let (r, c) = ResourceManagerInner::restore("s2", Some(vec!["/tmp/b".to_string()]), state);
    assert_eq!(r.bind_mounts, vec!["/tmp/b".to_string()]);
    assert_eq!(c.path, None);
    assert_eq!(c.overhead_path, None);
    assert!(!c.sandbox_cgroup_only);
}
