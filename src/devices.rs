use vstd::prelude::*;
use crate::error::ResourceError;
use crate::outcome::Next;

verus! {

/// A device of a container's Linux configuration, as the runtime spec lists it.
pub struct LinuxDevice {
    /// The device type: "b" for a block device, "c", "u", "p" for others.
    pub kind: String,
    /// The path of the device inside the container.
    pub path: String,
    pub major: i64,
    pub minor: i64,
}

/// The request handed to the device registry for a block device.
#[derive(Clone, Copy, Debug, PartialEq, Eq, Structural)]
pub struct BlockRequest {
    pub major: i64,
    pub minor: i64,
}

/// What the device registry realised for a block device.
pub struct BlockDevice {
    pub device_id: String,
    pub driver_option: String,
    pub virt_path: String,
}

/// What the device registry answered for one request.
pub enum DeviceResult {
    /// The request failed: the operation stops here.
    Failed,
    /// The registry realised a block device.
    Block(BlockDevice),
    /// The registry realised a device of another type, which is not passed on.
    Other,
}

/// A guest-facing device descriptor for the guest agent.
pub struct AgentDevice {
    pub id: String,
    pub container_path: String,
    pub field_type: String,
    pub vm_path: String,
}

/// Only block devices are handled; every other kind is skipped.
pub open spec fn is_block(d: LinuxDevice) -> bool {
    d.kind@ == seq!['b']
}

/// The first block device at or after `i`, or the length when there is none.
pub open spec fn next_block(devs: Seq<LinuxDevice>, i: int) -> int
    decreases devs.len() - i,
{
    if i >= devs.len() {
        devs.len() as int
    } else if is_block(devs[i]) {
        i
    } else {
        next_block(devs, i + 1)
    }
}

/// The descriptor for container device `d`, realised by the registry as `b`.
pub open spec fn agent_device(d: LinuxDevice, b: BlockDevice) -> AgentDevice {
    AgentDevice {
        id: b.device_id,
        container_path: d.path,
        field_type: b.driver_option,
        vm_path: b.virt_path,
    }
}

pub proof fn lemma_next_block_bounds(devs: Seq<LinuxDevice>, i: int)
    requires
        0 <= i <= devs.len(),
    ensures
        i <= next_block(devs, i) <= devs.len(),
        next_block(devs, i) < devs.len() ==> is_block(devs[next_block(devs, i)]),
        forall|j: int| i <= j < next_block(devs, i) ==> !is_block(#[trigger] devs[j]),
    decreases devs.len() - i,
{
    if i < devs.len() && !is_block(devs[i]) {
        lemma_next_block_bounds(devs, i + 1);
    }
}

/// Device handling for one container in progress: the devices, the block
/// device at `pos` whose request is pending, the descriptors gathered so far.
pub struct HandleDevices {
    pub devices: Vec<LinuxDevice>,
    pub pos: usize,
    pub gathered: Vec<AgentDevice>,
    pub error: Option<ResourceError>,
}

impl HandleDevices {
    pub open spec fn wf(&self) -> bool {
        &&& self.devices@.len() <= usize::MAX
        &&& self.pos <= self.devices@.len()
        &&& self.pos < self.devices@.len() ==> is_block(self.devices@[self.pos as int])
    }

    pub open spec fn spec_next(&self) -> Next<BlockRequest> {
        match self.error {
            Some(e) => Next::Aborted(e),
            None => if self.pos < self.devices@.len() {
                Next::Perform(BlockRequest {
                    major: self.devices@[self.pos as int].major,
                    minor: self.devices@[self.pos as int].minor,
                })
            } else {
                Next::Finished
            },
        }
    }

    fn is_block_device(d: &LinuxDevice) -> (r: bool)
        ensures
            r == is_block(*d),
    {
        let b = String::from_str("b");
        proof {
            reveal_strlit("b");
            assert("b"@ =~= seq!['b']);
        }
        d.kind == b
    }

    /// Moves `pos` to the first block device at or after `from`.
    fn seek(&mut self, from: usize)
        requires
            from <= old(self).devices@.len(),
        ensures
            final(self).devices@ == old(self).devices@,
            final(self).gathered@ == old(self).gathered@,
            final(self).error == old(self).error,
            final(self).pos == next_block(old(self).devices@, from as int),
            final(self).wf(),
    {
        proof {
            lemma_next_block_bounds(self.devices@, from as int);
        }
        let n = self.devices.len();
        let mut i = from;
        while i < n && !Self::is_block_device(&self.devices[i])
            invariant
                n == self.devices@.len(),
                from <= i <= n,
                next_block(self.devices@, i as int) == next_block(self.devices@, from as int),
            decreases n - i,
        {
            i = i + 1;
        }
        self.pos = i;
        proof {
            lemma_next_block_bounds(self.devices@, i as int);
        }
    }

    /// Starts handling the devices of one container.
    pub fn new(devices: Vec<LinuxDevice>) -> (r: HandleDevices)
        ensures
            r.wf(),
            r.devices@ == devices@,
            r.pos == next_block(devices@, 0),
            r.gathered@.len() == 0,
            r.error.is_none(),
    {
        let mut r = HandleDevices { devices, pos: 0, gathered: Vec::new(), error: None };
        r.seek(0);
        r
    }

    pub fn next(&self) -> (r: Next<BlockRequest>)
        ensures
            r == self.spec_next(),
    {
        match self.error {
            Some(e) => Next::Aborted(e),
            None => if self.pos < self.devices.len() {
                Next::Perform(BlockRequest {
                    major: self.devices[self.pos].major,
                    minor: self.devices[self.pos].minor,
                })
            } else {
                Next::Finished
            },
        }
    }

    /// Records what the registry answered for the pending request: a block
    /// device gives a descriptor, another type is passed over, and a failure
    /// ends the operation. Then the next block device becomes pending.
    pub fn on_result(&mut self, res: DeviceResult)
        requires
            old(self).wf(),
        ensures
            final(self).wf(),
            final(self).devices@ == old(self).devices@,
            old(self).spec_next() matches Next::Perform(_) ==> match res {
                DeviceResult::Failed => {
                    &&& final(self).error == Some(ResourceError::HandleDevice)
                    &&& final(self).pos == old(self).pos
                    &&& final(self).gathered@ == old(self).gathered@
                },
                DeviceResult::Block(b) => {
                    &&& final(self).error.is_none()
                    &&& final(self).pos == next_block(old(self).devices@, old(self).pos + 1)
                    &&& final(self).gathered@ == old(self).gathered@.push(
                        agent_device(old(self).devices@[old(self).pos as int], b))
                },
                DeviceResult::Other => {
                    &&& final(self).error.is_none()
                    &&& final(self).pos == next_block(old(self).devices@, old(self).pos + 1)
                    &&& final(self).gathered@ == old(self).gathered@
                },
            },
            !(old(self).spec_next() matches Next::Perform(_)) ==> *final(self) == *old(self),
    {
        if self.error.is_some() || self.pos >= self.devices.len() {
            return;
        }
        match res {
            DeviceResult::Failed => {
                self.error = Some(ResourceError::HandleDevice);
            },
            DeviceResult::Block(b) => {
                let d = &self.devices[self.pos];
                let dev = AgentDevice {
                    id: b.device_id,
                    container_path: d.path.clone(),
                    field_type: b.driver_option,
                    vm_path: b.virt_path,
                };
                self.gathered.push(dev);
                let p = self.pos + 1;
                self.seek(p);
            },
            DeviceResult::Other => {
                let p = self.pos + 1;
                self.seek(p);
            },
        }
    }

    /// The descriptors gathered, once the operation has finished.
    pub fn into_devices(self) -> (r: Vec<AgentDevice>)
        ensures
            r@ == self.gathered@,
    {
        self.gathered
    }
}

} // verus!
