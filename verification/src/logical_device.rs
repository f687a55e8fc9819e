use vstd::prelude::*;
use crate::config::{validation_layer, views};
use crate::diagnostics::DiagnosticsProvider;

verus! {

/// The single queue request a device-creation call carries: one queue
/// from the selected family. The queue is requested at the highest
/// priority the runtime accepts; the numeric priority value is supplied
/// by the native layer.
pub struct QueueRequest {
    pub family_index: u32,
    pub count: u32,
}

/// Everything a device-creation call needs: the queue request and the
/// layer names, assembled into owned storage.
pub struct DeviceConfig {
    pub queue: QueueRequest,
    pub layers: Vec<String>,
}

/// Where the application's one queue lives once the device exists:
/// the selected family, slot zero.
#[derive(Clone, Copy, PartialEq, Eq, Structural, Debug)]
pub struct QueueLocation {
    pub family_index: u32,
    pub slot: u32,
}

/// Builds the configuration for creating a logical device bound to a
/// chosen physical device and queue family.
pub struct LogicalDeviceBuilder {}

impl LogicalDeviceBuilder {
    /// Assembles the device-creation configuration: one queue from the
    /// selected family, and the validation layer propagated to device
    /// level exactly when diagnostics are enabled.
    pub fn build_device_config(family_index: u32, diagnostics: &DiagnosticsProvider) -> (c:
        DeviceConfig)
        ensures
            c.queue.family_index == family_index,
            c.queue.count == 1,
            diagnostics.spec_enabled() ==> views(c.layers@) == seq![validation_layer()],
            !diagnostics.spec_enabled() ==> c.layers@.len() == 0,
    {
        let mut layers: Vec<String> = Vec::new();
        proof {
            assert(views(layers@) =~= Seq::empty());
        }
        diagnostics.append_required_layers(&mut layers);
        proof {
            if diagnostics.spec_enabled() {
                assert(views(layers@) =~= seq![validation_layer()]);
            }
        }
        DeviceConfig { queue: QueueRequest { family_index, count: 1 }, layers }
    }

    /// The location the queue handle is retrieved from after device
    /// creation: the selected family, slot zero.
    pub fn queue_location(family_index: u32) -> (q: QueueLocation)
        ensures
            q.family_index == family_index,
            q.slot == 0,
    {
        QueueLocation { family_index, slot: 0 }
    }
}

} // verus!
