use vstd::prelude::*;
use crate::config::{
    diagnostic_extension, diagnostic_extension_name, lemma_views_push, validation_layer,
    validation_layer_name, views,
};

verus! {

/// Severity bit for verbose chatter from the runtime.
pub const SEVERITY_VERBOSE: u32 = 0x1;

/// Severity bit for informational messages.
pub const SEVERITY_INFO: u32 = 0x10;

/// Severity bit for warnings.
pub const SEVERITY_WARNING: u32 = 0x100;

/// Severity bit for errors.
pub const SEVERITY_ERROR: u32 = 0x1000;

/// Category bit for general messages.
pub const CATEGORY_GENERAL: u32 = 0x1;

/// Category bit for validation findings.
pub const CATEGORY_VALIDATION: u32 = 0x2;

/// Category bit for performance advice.
pub const CATEGORY_PERFORMANCE: u32 = 0x4;

/// The severity filter the subscription asks for: info, warning and error.
pub const SUBSCRIBED_SEVERITIES: u32 = 0x1110;

/// The category filter the subscription asks for: general, validation
/// and performance.
pub const SUBSCRIBED_CATEGORIES: u32 = 0x7;

/// What a diagnostic subscription asks of the runtime: which severities
/// and which message categories its callback wants to see.
#[derive(Clone, Copy, PartialEq, Eq, Structural, Debug)]
pub struct SubscriptionDescriptor {
    pub severity_mask: u32,
    pub category_mask: u32,
}

/// The one descriptor this application ever builds.
pub open spec fn spec_subscription_descriptor() -> SubscriptionDescriptor {
    SubscriptionDescriptor { severity_mask: SUBSCRIBED_SEVERITIES, category_mask: SUBSCRIBED_CATEGORIES }
}

/// Host-side logging levels, one per native severity.
#[derive(Clone, Copy, PartialEq, Eq, Structural, Debug)]
pub enum LogLevel {
    Error,
    Warn,
    Info,
    Debug,
}

/// What the diagnostic callback decides for one message: at which level
/// to forward it (if at all), and whether the triggering operation
/// should be aborted, which is never.
#[derive(Clone, Copy, PartialEq, Eq, Structural, Debug)]
pub struct DiagnosticDisposition {
    pub level: Option<LogLevel>,
    pub abort_operation: bool,
}

/// The logging level a native severity mask maps to: the most severe
/// bit present wins, and a mask with none of the four bits is dropped.
pub open spec fn spec_level_for(severity: u32) -> Option<LogLevel> {
    if severity & SEVERITY_ERROR != 0 {
        Some(LogLevel::Error)
    } else if severity & SEVERITY_WARNING != 0 {
        Some(LogLevel::Warn)
    } else if severity & SEVERITY_INFO != 0 {
        Some(LogLevel::Info)
    } else if severity & SEVERITY_VERBOSE != 0 {
        Some(LogLevel::Debug)
    } else {
        None
    }
}

/// Decides how the diagnostic callback treats a message of the given
/// native severity. The disposition never aborts the triggering
/// operation: the callback must not fail across the foreign boundary.
pub fn process_diagnostic_event(severity: u32) -> (r: DiagnosticDisposition)
    ensures
        r.level == spec_level_for(severity),
        !r.abort_operation,
{
    let level = if severity & SEVERITY_ERROR != 0 {
        Some(LogLevel::Error)
    } else if severity & SEVERITY_WARNING != 0 {
        Some(LogLevel::Warn)
    } else if severity & SEVERITY_INFO != 0 {
        Some(LogLevel::Info)
    } else if severity & SEVERITY_VERBOSE != 0 {
        Some(LogLevel::Debug)
    } else {
        None
    };
    DiagnosticDisposition { level, abort_operation: false }
}

/// Conditionally supplies validation-layer and diagnostic-extension
/// names and the messenger descriptor. The flag is fixed when the
/// provider is built and never changes afterwards.
pub struct DiagnosticsProvider {
    enabled: bool,
}

impl DiagnosticsProvider {
    /// Whether diagnostics are switched on for this build.
    pub closed spec fn spec_enabled(&self) -> bool {
        self.enabled
    }

    /// Builds a provider for a build configuration: diagnostics are on
    /// only where the build asks for them.
    pub fn new(enabled: bool) -> (r: Self)
        ensures
            r.spec_enabled() == enabled,
    {
        DiagnosticsProvider { enabled }
    }

    /// The build-time flag, as fixed at construction.
    pub fn is_enabled(&self) -> (r: bool)
        ensures
            r == self.spec_enabled(),
    {
        self.enabled
    }

    /// Appends the diagnostic extension name to a creation list; a
    /// no-op when diagnostics are disabled.
    pub fn append_required_extensions(&self, list: &mut Vec<String>)
        ensures
            self.spec_enabled() ==> views(final(list)@) == views(old(list)@).push(
                diagnostic_extension(),
            ),
            !self.spec_enabled() ==> final(list)@ == old(list)@,
    {
        if self.enabled {
            let name = diagnostic_extension_name();
            proof {
                lemma_views_push(list@, name);
            }
            list.push(name);
        }
    }

    /// Appends the validation layer name to a creation list; a no-op
    /// when diagnostics are disabled.
    pub fn append_required_layers(&self, list: &mut Vec<String>)
        ensures
            self.spec_enabled() ==> views(final(list)@) == views(old(list)@).push(
                validation_layer(),
            ),
            !self.spec_enabled() ==> final(list)@ == old(list)@,
    {
        if self.enabled {
            let name = validation_layer_name();
            proof {
                lemma_views_push(list@, name);
            }
            list.push(name);
        }
    }

    /// The messenger descriptor: the severity and category filters the
    /// subscription asks for. Used standalone after instance creation
    /// and chained into the instance-creation descriptor, so that
    /// instance creation itself is validated.
    pub fn build_subscription_descriptor(&self) -> (d: SubscriptionDescriptor)
        ensures
            d == spec_subscription_descriptor(),
    {
        SubscriptionDescriptor {
            severity_mask: SUBSCRIBED_SEVERITIES,
            category_mask: SUBSCRIBED_CATEGORIES,
        }
    }
}

} // verus!
