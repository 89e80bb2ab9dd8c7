use vstd::prelude::*;

verus! {

pub const WINDOW_TITLE: &'static str = "Vulkan Tutorial";
pub const WINDOW_WIDTH: u32 = 800;
pub const WINDOW_HEIGHT: u32 = 600;

pub const APPLICATION_NAME: &'static str = "Hello Triangle";
pub const ENGINE_NAME: &'static str = "No Engine";

/// A packed Vulkan version number: 10 bits of major, 10 of minor,
/// 12 of patch.
pub open spec fn spec_make_version(major: u32, minor: u32, patch: u32) -> u32 {
    ((major << 22) | (minor << 12) | patch) as u32
}

/// Packs a version triple the way the Vulkan headers do.
pub fn vk_make_version(major: u32, minor: u32, patch: u32) -> (version: u32)
    requires
        major < 0x400,
        minor < 0x400,
        patch < 0x1000,
    ensures
        version == spec_make_version(major, minor, patch),
{
    (major << 22) | (minor << 12) | patch
}

pub const APPLICATION_VERSION: u32 = 1u32 << 22;
pub const ENGINE_VERSION: u32 = 1u32 << 22;
pub const API_VERSION: u32 = (1u32 << 22) | 92u32;

/// The version constants are the packed forms of 1.0.0 and 1.0.92.
pub proof fn lemma_version_constants()
    ensures
        APPLICATION_VERSION == spec_make_version(1, 0, 0),
        ENGINE_VERSION == spec_make_version(1, 0, 0),
        API_VERSION == spec_make_version(1, 0, 92),
{
    assert((1u32 << 22) == ((1u32 << 22) | (0u32 << 12) | 0u32)) by (bit_vector);
    assert(((1u32 << 22) | 92u32) == ((1u32 << 22) | (0u32 << 12) | 92u32)) by (bit_vector);
}

} // verus!
