//! Vulkan API version numbers.

use vstd::prelude::*;

verus! {

/// The packed form of a version: major in bits 22.., minor in bits 12..22,
/// patch in bits 0..12 (wider fields spill into the neighbouring ones).
pub open spec fn spec_make_version(major: u32, minor: u32, patch: u32) -> u32 {
    (major << 22u32) | (minor << 12u32) | patch
}

/// `ash::vk::make_version`: packs a version as `(major << 22) | (minor << 12) | patch`.
#[verifier::external_body]
fn make_version(major: u32, minor: u32, patch: u32) -> (v: u32)
    ensures
        v == spec_make_version(major, minor, patch),
{
    ash::vk::make_version(major, minor, patch)
}

/// A semantic version of the application or an API.
#[derive(Clone, Copy, Debug)]
pub struct Version {
    pub major: u32,
    pub minor: u32,
    pub patch: u32,
}

impl From<Version> for u32 {
    fn from(v: Version) -> (r: u32) {
        make_version(v.major, v.minor, v.patch)
    }
}

impl vstd::std_specs::convert::FromSpecImpl<Version> for u32 {
    open spec fn obeys_from_spec() -> bool {
        true
    }

    open spec fn from_spec(v: Version) -> u32 {
        spec_make_version(v.major, v.minor, v.patch)
    }
}

/// The packed version that the API version `1.2.0` compares against.
pub fn api_version_1_2() -> (v: u32)
    ensures
        v == spec_make_version(1, 2, 0),
{
    make_version(1, 2, 0)
}

/// Whether the extended device properties are queried: always when the
/// instance supports them, otherwise only for devices of API version 1.2 or
/// later (whose version is known from the basic properties).
pub fn queries_extended_properties(supports_properties2: bool, api_version: u32) -> (r: bool)
    ensures
        r == (supports_properties2 || api_version >= spec_make_version(1, 2, 0)),
{
    if !supports_properties2 {
        if api_version < make_version(1, 2, 0) {
            return false;
        }
    }
    true
}

/// Versions whose fields fit their bit ranges are packed without loss: the
/// fields can be read back, and packed versions compare like the triples
/// (major, minor, patch) in lexicographic order.
pub proof fn lemma_version_fields(a: Version, b: Version)
    requires
        a.major < 1024,
        a.minor < 1024,
        a.patch < 4096,
        b.major < 1024,
        b.minor < 1024,
        b.patch < 4096,
    ensures
        spec_make_version(a.major, a.minor, a.patch) >> 22u32 == a.major,
        (spec_make_version(a.major, a.minor, a.patch) >> 12u32) & 0x3ffu32 == a.minor,
        spec_make_version(a.major, a.minor, a.patch) & 0xfffu32 == a.patch,
        (spec_make_version(a.major, a.minor, a.patch) < spec_make_version(
            b.major,
            b.minor,
            b.patch,
        )) <==> (a.major < b.major || (a.major == b.major && (a.minor < b.minor || (a.minor
            == b.minor && a.patch < b.patch)))),
{
    let (x, y, z, u, v, w) = (a.major, a.minor, a.patch, b.major, b.minor, b.patch);
    assert(x < 1024 && y < 1024 && z < 4096 ==> ((x << 22u32) | (y << 12u32) | z) >> 22u32 == x
        && (((x << 22u32) | (y << 12u32) | z) >> 12u32) & 0x3ffu32 == y && ((x << 22u32) | (y
        << 12u32) | z) & 0xfffu32 == z) by (bit_vector);
    assert(x < 1024 && y < 1024 && z < 4096 ==> ((x << 22u32) | (y << 12u32) | z) == x * 4194304
        + y * 4096 + z) by (bit_vector);
    assert(u < 1024 && v < 1024 && w < 4096 ==> ((u << 22u32) | (v << 12u32) | w) == u * 4194304
        + v * 4096 + w) by (bit_vector);
}

} // verus!
