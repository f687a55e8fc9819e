use vstd::prelude::*;

verus! {

/// Why application startup failed. Every variant is fatal: startup is
/// aborted, already-acquired resources are released in reverse order,
/// and the error is surfaced to the caller.
#[derive(Debug, Clone, Copy, PartialEq, Eq, Structural)]
pub enum BootstrapError {
    /// A requested extension or layer is unsupported by the runtime.
    ConfigurationError,
    /// A native instance, device or messenger creation call failed.
    ResourceCreationError,
    /// No enumerated physical device satisfies the suitability predicate.
    SelectionError,
    /// Window or event-loop construction failed.
    PlatformError,
}

impl BootstrapError {
    /// A short human-readable description of the failure.
    pub fn describe(&self) -> (r: &'static str)
        ensures
            *self is ConfigurationError ==> r@ == "Requested extension or layer is unsupported"@,
            *self is ResourceCreationError ==> r@ == "Native resource creation failed"@,
            *self is SelectionError ==> r@ == "Unable to find suitable physical device"@,
            *self is PlatformError ==> r@ == "Window or event loop construction failed"@,
    {
        match self {
            BootstrapError::ConfigurationError => "Requested extension or layer is unsupported",
            BootstrapError::ResourceCreationError => "Native resource creation failed",
            BootstrapError::SelectionError => "Unable to find suitable physical device",
            BootstrapError::PlatformError => "Window or event loop construction failed",
        }
    }
}

/// Native status code for a layer the runtime does not offer.
pub const LAYER_UNSUPPORTED_CODE: i32 = -6;

/// Native status code for an extension the runtime does not offer.
pub const EXTENSION_UNSUPPORTED_CODE: i32 = -7;

/// How a failed native creation call is classified: a missing layer or
/// extension is a configuration problem; every other failure code is a
/// resource-creation failure.
pub open spec fn spec_classify_creation_failure(code: i32) -> BootstrapError {
    if code == LAYER_UNSUPPORTED_CODE || code == EXTENSION_UNSUPPORTED_CODE {
        BootstrapError::ConfigurationError
    } else {
        BootstrapError::ResourceCreationError
    }
}

/// Classifies the status code of a failed native creation call.
pub fn classify_creation_failure(code: i32) -> (e: BootstrapError)
    ensures
        e == spec_classify_creation_failure(code),
{
    if code == LAYER_UNSUPPORTED_CODE || code == EXTENSION_UNSUPPORTED_CODE {
        BootstrapError::ConfigurationError
    } else {
        BootstrapError::ResourceCreationError
    }
}

} // verus!
