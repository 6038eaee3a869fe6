//! Ranking of physical devices by their type.

use vstd::prelude::*;
use std::cmp::Ordering;

verus! {

/// The type of a physical device, by its `VkPhysicalDeviceType` value.
#[derive(Clone, Copy, PartialEq, Eq, Debug)]
pub struct PhysicalDeviceType {
    pub raw: i32,
}

/// `ash::vk::PhysicalDeviceType::OTHER`, whose value is 0.
#[verifier::external_body]
fn other() -> (t: PhysicalDeviceType)
    ensures
        t.raw == 0,
{
    PhysicalDeviceType { raw: ash::vk::PhysicalDeviceType::OTHER.as_raw() }
}

/// `ash::vk::PhysicalDeviceType::INTEGRATED_GPU`, whose value is 1.
#[verifier::external_body]
fn integrated_gpu() -> (t: PhysicalDeviceType)
    ensures
        t.raw == 1,
{
    PhysicalDeviceType { raw: ash::vk::PhysicalDeviceType::INTEGRATED_GPU.as_raw() }
}

/// `ash::vk::PhysicalDeviceType::DISCRETE_GPU`, whose value is 2.
#[verifier::external_body]
fn discrete_gpu() -> (t: PhysicalDeviceType)
    ensures
        t.raw == 2,
{
    PhysicalDeviceType { raw: ash::vk::PhysicalDeviceType::DISCRETE_GPU.as_raw() }
}

/// `ash::vk::PhysicalDeviceType::VIRTUAL_GPU`, whose value is 3.
#[verifier::external_body]
fn virtual_gpu() -> (t: PhysicalDeviceType)
    ensures
        t.raw == 3,
{
    PhysicalDeviceType { raw: ash::vk::PhysicalDeviceType::VIRTUAL_GPU.as_raw() }
}

/// `ash::vk::PhysicalDeviceType::CPU`, whose value is 4.
#[verifier::external_body]
fn cpu() -> (t: PhysicalDeviceType)
    ensures
        t.raw == 4,
{
    PhysicalDeviceType { raw: ash::vk::PhysicalDeviceType::CPU.as_raw() }
}

/// How much a device type is preferred: discrete GPU 5, integrated GPU 4,
/// CPU 3, virtual GPU 2, other 1, unknown types 0.
pub open spec fn spec_priority(t: PhysicalDeviceType) -> u32 {
    if t.raw == 2 {
        5
    } else if t.raw == 1 {
        4
    } else if t.raw == 4 {
        3
    } else if t.raw == 3 {
        2
    } else if t.raw == 0 {
        1
    } else {
        0
    }
}

fn device_type_priority(device_type: PhysicalDeviceType) -> (p: u32)
    ensures
        p == spec_priority(device_type),
{
    if device_type.raw == discrete_gpu().raw {
        5
    } else if device_type.raw == integrated_gpu().raw {
        4
    } else if device_type.raw == cpu().raw {
        3
    } else if device_type.raw == virtual_gpu().raw {
        2
    } else if device_type.raw == other().raw {
        1
    } else {
        0
    }
}

/// The order of two numbers.
pub open spec fn order_of(a: u32, b: u32) -> Ordering {
    if a < b {
        Ordering::Less
    } else if a == b {
        Ordering::Equal
    } else {
        Ordering::Greater
    }
}

/// Compares two device types by preference (the preferred one is greater).
pub fn cmp_device_types(a: PhysicalDeviceType, b: PhysicalDeviceType) -> (o: Ordering)
    ensures
        o == order_of(spec_priority(a), spec_priority(b)),
{
    let pa = device_type_priority(a);
    let pb = device_type_priority(b);
    if pa < pb {
        Ordering::Less
    } else if pa == pb {
        Ordering::Equal
    } else {
        Ordering::Greater
    }
}

/// The queue families a device is created with: the main family, then the
/// transfer family when there is one.
pub fn queue_family_indices(main: u32, transfer: Option<u32>) -> (families: Vec<u32>)
    ensures
        families@ == match transfer {
            Some(t) => seq![main, t],
            None => seq![main],
        },
{
    let mut families = vec![main];
    if let Some(t) = transfer {
        families.push(t);
    }
    families
}

/// Device types are ranked discrete GPU, integrated GPU, CPU, virtual GPU,
/// other, then unknown types; the comparison is antisymmetric and
/// transitive.
pub proof fn lemma_device_ranking(a: PhysicalDeviceType, b: PhysicalDeviceType, c: PhysicalDeviceType)
    ensures
        spec_priority(PhysicalDeviceType { raw: 2 }) > spec_priority(PhysicalDeviceType { raw: 1 }),
        spec_priority(PhysicalDeviceType { raw: 1 }) > spec_priority(PhysicalDeviceType { raw: 4 }),
        spec_priority(PhysicalDeviceType { raw: 4 }) > spec_priority(PhysicalDeviceType { raw: 3 }),
        spec_priority(PhysicalDeviceType { raw: 3 }) > spec_priority(PhysicalDeviceType { raw: 0 }),
        (a.raw < 0 || a.raw > 4) ==> spec_priority(a) == 0,
        order_of(spec_priority(a), spec_priority(b)) == Ordering::Less <==> order_of(
            spec_priority(b),
            spec_priority(a),
        ) == Ordering::Greater,
        order_of(spec_priority(a), spec_priority(b)) == Ordering::Equal <==> order_of(
            spec_priority(b),
            spec_priority(a),
        ) == Ordering::Equal,
        order_of(spec_priority(a), spec_priority(b)) != Ordering::Greater && order_of(
            spec_priority(b),
            spec_priority(c),
        ) != Ordering::Greater ==> order_of(spec_priority(a), spec_priority(c))
            != Ordering::Greater,
{
}

} // verus!
