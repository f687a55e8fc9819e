use vstd::prelude::*;

verus! {

/// Logical width of the application window.
pub const WINDOW_WIDTH: u32 = 800;

/// Logical height of the application window.
pub const WINDOW_HEIGHT: u32 = 600;

/// The single validation layer requested when diagnostics are enabled.
pub open spec fn validation_layer() -> Seq<char> {
    "VK_LAYER_KHRONOS_validation"@
}

/// The diagnostic messenger extension requested when diagnostics are enabled.
pub open spec fn diagnostic_extension() -> Seq<char> {
    "VK_EXT_debug_utils"@
}

/// Title shown on the application window.
pub open spec fn window_title() -> Seq<char> {
    "Hello Triangle Application"@
}

/// Application name reported to the runtime at instance creation.
pub open spec fn application_name() -> Seq<char> {
    "Hello Triangle"@
}

/// Engine name reported to the runtime at instance creation.
pub open spec fn engine_name() -> Seq<char> {
    "No Engine"@
}

/// The character sequences of a list of owned names, in order.
pub open spec fn views(s: Seq<String>) -> Seq<Seq<char>> {
    s.map_values(|x: String| x@)
}

/// Appending a name to a list appends its character sequence to the views.
pub proof fn lemma_views_push(s: Seq<String>, x: String)
    ensures
        views(s.push(x)) == views(s).push(x@),
{
    assert(views(s.push(x)) =~= views(s).push(x@));
}

/// Owned copy of [`validation_layer`].
pub fn validation_layer_name() -> (r: String)
    ensures
        r@ == validation_layer(),
{
    "VK_LAYER_KHRONOS_validation".to_owned()
}

/// Owned copy of [`diagnostic_extension`].
pub fn diagnostic_extension_name() -> (r: String)
    ensures
        r@ == diagnostic_extension(),
{
    "VK_EXT_debug_utils".to_owned()
}

/// Construction-time configuration handed to the window collaborator.
pub struct WindowConfig {
    pub width: u32,
    pub height: u32,
    pub title: String,
}

/// The fixed window configuration: 800 by 600 logical pixels.
pub fn window_config() -> (c: WindowConfig)
    ensures
        c.width == WINDOW_WIDTH,
        c.height == WINDOW_HEIGHT,
        c.title@ == window_title(),
{
    WindowConfig { width: WINDOW_WIDTH, height: WINDOW_HEIGHT, title: "Hello Triangle Application".to_owned() }
}

/// Packs a version stamp the way the graphics runtime reads it: a
/// three-bit variant, seven-bit major, ten-bit minor and twelve-bit
/// patch field, from the highest bits down.
pub fn make_api_version(variant: u32, major: u32, minor: u32, patch: u32) -> (v: u32)
    requires
        variant < 8,
        major < 128,
        minor < 1024,
        patch < 4096,
    ensures
        v == variant * 0x20000000 + major * 0x400000 + minor * 0x1000 + patch,
{
    assert(variant * 0x20000000 + major * 0x400000 + minor * 0x1000 + patch <= 0xffffffffu32) by (nonlinear_arith)
        requires
            variant < 8,
            major < 128,
            minor < 1024,
            patch < 4096,
    ;
    variant * 0x20000000 + major * 0x400000 + minor * 0x1000 + patch
}

} // verus!
