use hello_triangle::device::{
    DeviceClass, DeviceSelector, PhysicalDeviceRecord, QueueFamilyDescriptor, QUEUE_GRAPHICS_FLAG,
};
use hello_triangle::errors::{
    classify_creation_failure, BootstrapError, EXTENSION_UNSUPPORTED_CODE, LAYER_UNSUPPORTED_CODE,
};

const COMPUTE_FLAG: u32 = 0x2;
const TRANSFER_FLAG: u32 = 0x4;

fn device(class: DeviceClass, family_flags: &[u32]) -> PhysicalDeviceRecord {
    PhysicalDeviceRecord {
        device_class: class,
        queue_families: family_flags
            .iter()
            .map(|&flags| QueueFamilyDescriptor { flags })
            .collect(),
    }
}

#[test]
fn no_discrete_devices_is_a_selection_error() {
    let devices = vec![
        device(DeviceClass::IntegratedAccelerator, &[QUEUE_GRAPHICS_FLAG]),
        device(DeviceClass::Processor, &[QUEUE_GRAPHICS_FLAG | COMPUTE_FLAG]),
    ];
    assert_eq!(DeviceSelector::select(&devices), Err(BootstrapError::SelectionError));
}

#[test]
fn empty_enumeration_is_a_selection_error() {
    let devices: Vec<PhysicalDeviceRecord> = Vec::new();
    assert_eq!(DeviceSelector::select(&devices), Err(BootstrapError::SelectionError));
}

#[test]
fn discrete_without_graphics_is_skipped_for_the_next_candidate() {
    let graphicsless = device(DeviceClass::DiscreteAccelerator, &[COMPUTE_FLAG, TRANSFER_FLAG]);
    assert!(!DeviceSelector::is_suitable(&graphicsless));

    let devices = vec![
        device(DeviceClass::DiscreteAccelerator, &[COMPUTE_FLAG, TRANSFER_FLAG]),
        device(DeviceClass::DiscreteAccelerator, &[QUEUE_GRAPHICS_FLAG]),
    ];
    assert_eq!(DeviceSelector::select(&devices), Ok(1));

    let only_graphicsless = vec![device(
        DeviceClass::DiscreteAccelerator,
        &[COMPUTE_FLAG, TRANSFER_FLAG],
    )];
    assert_eq!(
        DeviceSelector::select(&only_graphicsless),
        Err(BootstrapError::SelectionError)
    );
}

#[test]
fn selection_picks_the_first_suitable_device() {
    let devices = vec![
        device(DeviceClass::IntegratedAccelerator, &[QUEUE_GRAPHICS_FLAG]),
        device(DeviceClass::DiscreteAccelerator, &[QUEUE_GRAPHICS_FLAG]),
        device(DeviceClass::DiscreteAccelerator, &[QUEUE_GRAPHICS_FLAG]),
    ];
    assert_eq!(DeviceSelector::select(&devices), Ok(1));
}

#[test]
fn find_queue_family_returns_the_lowest_graphics_index() {
    let record = device(
        DeviceClass::DiscreteAccelerator,
        &[
            COMPUTE_FLAG,
            TRANSFER_FLAG,
            QUEUE_GRAPHICS_FLAG | COMPUTE_FLAG,
            COMPUTE_FLAG,
            TRANSFER_FLAG,
            QUEUE_GRAPHICS_FLAG,
        ],
    );
    assert_eq!(DeviceSelector::find_queue_family(&record), Some(2));
}

#[test]
fn find_queue_family_fails_without_graphics() {
    let record = device(DeviceClass::DiscreteAccelerator, &[COMPUTE_FLAG]);
    assert_eq!(DeviceSelector::find_queue_family(&record), None);
    let empty = device(DeviceClass::DiscreteAccelerator, &[]);
    assert_eq!(DeviceSelector::find_queue_family(&empty), None);
}

#[test]
fn suitability_requires_both_class_and_graphics() {
    assert!(DeviceSelector::is_suitable(&device(
        DeviceClass::DiscreteAccelerator,
        &[QUEUE_GRAPHICS_FLAG]
    )));
    assert!(!DeviceSelector::is_suitable(&device(
        DeviceClass::IntegratedAccelerator,
        &[QUEUE_GRAPHICS_FLAG]
    )));
    assert!(!DeviceSelector::is_suitable(&device(
        DeviceClass::DiscreteAccelerator,
        &[COMPUTE_FLAG]
    )));
}

#[test]
fn selection_error_description() {
    let error = BootstrapError::SelectionError;
    assert_eq!(error.describe(), "Unable to find suitable physical device");
}

#[test]
fn every_error_variant_has_its_own_description() {
    assert_eq!(
        BootstrapError::ConfigurationError.describe(),
        "Requested extension or layer is unsupported"
    );
    assert_eq!(
        BootstrapError::ResourceCreationError.describe(),
        "Native resource creation failed"
    );
    assert_eq!(
        BootstrapError::PlatformError.describe(),
        "Window or event loop construction failed"
    );
}

#[test]
fn creation_failures_are_classified_by_code() {
    assert_eq!(
        classify_creation_failure(LAYER_UNSUPPORTED_CODE),
        BootstrapError::ConfigurationError
    );
    assert_eq!(
        classify_creation_failure(EXTENSION_UNSUPPORTED_CODE),
        BootstrapError::ConfigurationError
    );
    assert_eq!(classify_creation_failure(-1), BootstrapError::ResourceCreationError);
    assert_eq!(classify_creation_failure(-9), BootstrapError::ResourceCreationError);
}
