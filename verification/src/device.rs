use vstd::prelude::*;
use crate::errors::BootstrapError;

verus! {

/// Capability bit marking a queue family as graphics-capable.
pub const QUEUE_GRAPHICS_FLAG: u32 = 0x1;

/// How an enumerated accelerator is classified by the runtime.
#[derive(Clone, Copy, PartialEq, Eq, Structural, Debug)]
pub enum DeviceClass {
    DiscreteAccelerator,
    IntegratedAccelerator,
    VirtualAccelerator,
    Processor,
    Other,
}

/// One queue family of a physical device: a capability-flag set.
#[derive(Clone, Copy, PartialEq, Eq, Structural, Debug)]
pub struct QueueFamilyDescriptor {
    pub flags: u32,
}

/// Whether a queue family can execute graphics commands.
pub open spec fn graphics_capable(q: QueueFamilyDescriptor) -> bool {
    q.flags & QUEUE_GRAPHICS_FLAG != 0
}

impl QueueFamilyDescriptor {
    /// Whether this family can execute graphics commands.
    pub fn supports_graphics(&self) -> (r: bool)
        ensures
            r == graphics_capable(*self),
    {
        self.flags & QUEUE_GRAPHICS_FLAG != 0
    }
}

/// Capability snapshot of one enumerable physical accelerator: its
/// classification and its queue families, in the runtime's order.
pub struct PhysicalDeviceRecord {
    pub device_class: DeviceClass,
    pub queue_families: Vec<QueueFamilyDescriptor>,
}

impl PhysicalDeviceRecord {
    /// Whether at least one queue family is graphics-capable.
    pub open spec fn has_graphics_family(&self) -> bool {
        exists|i: int|
            0 <= i < self.queue_families@.len() && graphics_capable(self.queue_families@[i])
    }

    /// A device is suitable iff it is a discrete accelerator and has a
    /// graphics-capable queue family.
    pub open spec fn spec_suitable(&self) -> bool {
        self.device_class is DiscreteAccelerator && self.has_graphics_family()
    }
}

/// Filters enumerated physical devices and picks the first suitable one.
pub struct DeviceSelector {}

impl DeviceSelector {
    /// The lowest-indexed graphics-capable queue family of a device,
    /// or `None` when the device has none.
    pub fn find_queue_family(device: &PhysicalDeviceRecord) -> (r: Option<usize>)
        ensures
            match r {
                Some(i) => {
                    &&& i < device.queue_families@.len()
                    &&& graphics_capable(device.queue_families@[i as int])
                    &&& forall|j: int|
                        0 <= j < i ==> !graphics_capable(device.queue_families@[j])
                },
                None => !device.has_graphics_family(),
            },
    {
        let n = device.queue_families.len();
        let mut i: usize = 0;
        while i < n
            invariant
                n == device.queue_families@.len(),
                i <= n,
                forall|j: int| 0 <= j < i ==> !graphics_capable(device.queue_families@[j]),
            decreases n - i,
        {
            if device.queue_families[i].supports_graphics() {
                return Some(i);
            }
            i = i + 1;
        }
        None
    }

    /// Whether a device satisfies the suitability predicate: discrete
    /// accelerator with at least one graphics-capable queue family.
    pub fn is_suitable(device: &PhysicalDeviceRecord) -> (r: bool)
        ensures
            r == device.spec_suitable(),
    {
        let discrete = matches!(device.device_class, DeviceClass::DiscreteAccelerator);
        discrete && Self::find_queue_family(device).is_some()
    }

    /// The index of the first suitable device in enumeration order, or
    /// a selection error when no enumerated device is suitable.
    pub fn select(devices: &Vec<PhysicalDeviceRecord>) -> (r: Result<usize, BootstrapError>)
        ensures
            match r {
                Ok(i) => {
                    &&& i < devices@.len()
                    &&& devices@[i as int].spec_suitable()
                    &&& forall|j: int| 0 <= j < i ==> !devices@[j].spec_suitable()
                },
                Err(e) => {
                    &&& e == BootstrapError::SelectionError
                    &&& forall|j: int| 0 <= j < devices@.len() ==> !devices@[j].spec_suitable()
                },
            },
    {
        let n = devices.len();
        let mut i: usize = 0;
        while i < n
            invariant
                n == devices@.len(),
                i <= n,
                forall|j: int| 0 <= j < i ==> !devices@[j].spec_suitable(),
            decreases n - i,
        {
            if Self::is_suitable(&devices[i]) {
                return Ok(i);
            }
            i = i + 1;
        }
        Err(BootstrapError::SelectionError)
    }
}

} // verus!
