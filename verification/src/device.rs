//! Physical-device selection and memory-type lookup.
//!
//! The unverified shell enumerates the physical devices and queries their
//! extension names, surface support and queue families into plain data;
//! the decisions — which device qualifies, which queue families to use,
//! which memory type satisfies a request — are made here.

use std::collections::HashSet;

use vstd::prelude::*;

use crate::error::EngineError;
use crate::swapchain::SwapchainSupportInfo;
use crate::utils::contains_string;

verus! {

broadcast use vstd::std_specs::hash::group_hash_axioms;

/// Name of the swapchain device extension every selected device must offer.
pub const SWAPCHAIN_EXTENSION_NAME: &'static str = "VK_KHR_swapchain";

/// Name of the ray-tracing device extension every selected device must
/// offer.
pub const RAY_TRACING_EXTENSION_NAME: &'static str = "VK_NV_ray_tracing";

/// The graphics and presentation queue family of a candidate device, each
/// present once found.
#[derive(Clone, Copy, Debug)]
pub struct QueueFamilyIndices {
    pub graphics_family: Option<u32>,
    pub present_family: Option<u32>,
}

/// One queue family of a candidate device, reduced to what selection needs:
/// how many queues it offers, and whether it supports graphics work and
/// presentation to the target surface.
#[derive(Clone, Copy, Debug)]
pub struct QueueFamilyInfo {
    pub queue_count: u32,
    pub supports_graphics: bool,
    pub supports_present: bool,
}

/// Everything device selection needs to know about one physical device.
#[derive(Clone, Debug)]
pub struct PhysicalDeviceInfo {
    /// The device extension names the device advertises.
    pub extension_names: Vec<String>,
    /// The surface capabilities, formats and present modes the device
    /// reports for the target surface.
    pub swapchain_support: SwapchainSupportInfo,
    /// The device's queue families, in index order.
    pub queue_families: Vec<QueueFamilyInfo>,
}

/// A family usable for graphics work: it has queues and the graphics bit.
pub open spec fn graphics_capable(f: QueueFamilyInfo) -> bool {
    f.queue_count > 0 && f.supports_graphics
}

/// A family usable for presentation: it has queues and surface support.
pub open spec fn present_capable(f: QueueFamilyInfo) -> bool {
    f.queue_count > 0 && f.supports_present
}

/// The list contains a string whose characters are `name`.
pub open spec fn names_contain(names: Seq<String>, name: Seq<char>) -> bool {
    exists|i: int| 0 <= i < names.len() && names[i]@ == name
}

/// The device advertises both required extensions.
pub open spec fn spec_has_required_extensions(names: Seq<String>) -> bool {
    &&& names_contain(names, SWAPCHAIN_EXTENSION_NAME@)
    &&& names_contain(names, RAY_TRACING_EXTENSION_NAME@)
}

/// A device qualifies when it advertises the required extensions, reports a
/// non-empty format and present-mode set for the surface, and offers a
/// graphics-capable and a present-capable queue family.
pub open spec fn spec_device_suitable(info: PhysicalDeviceInfo) -> bool {
    &&& spec_has_required_extensions(info.extension_names@)
    &&& info.swapchain_support.available_formats@.len() > 0
    &&& info.swapchain_support.available_present_modes@.len() > 0
    &&& exists|i: int|
        0 <= i < info.queue_families@.len() && graphics_capable(#[trigger] info.queue_families@[i])
    &&& exists|i: int|
        0 <= i < info.queue_families@.len() && present_capable(#[trigger] info.queue_families@[i])
}

impl QueueFamilyIndices {
    /// Both families have been found.
    pub fn is_complete(&self) -> (r: bool)
        ensures
            r == (self.graphics_family is Some && self.present_family is Some),
    {
        self.graphics_family.is_some() && self.present_family.is_some()
    }

    /// The set of distinct families among the two, for building one queue
    /// creation request per family.
    pub fn unique_families(&self) -> (r: HashSet<u32>)
        ensures
            forall|q: u32|
                r@.contains(q) <==> (self.graphics_family == Some(q) || self.present_family == Some(
                    q,
                )),
    {
        let mut result: HashSet<u32> = HashSet::new();
        if let Some(idx) = self.graphics_family {
            result.insert(idx);
        }
        if let Some(idx) = self.present_family {
            result.insert(idx);
        }
        result
    }

    /// The indices are sound for `families`: each found family exists and
    /// has the capability it was selected for.
    pub open spec fn sound_for(&self, families: Seq<QueueFamilyInfo>) -> bool {
        &&& self.graphics_family matches Some(g) ==> 0 <= g < families.len() && graphics_capable(
            families[g as int],
        )
        &&& self.present_family matches Some(p) ==> 0 <= p < families.len() && present_capable(
            families[p as int],
        )
    }
}

impl Default for QueueFamilyIndices {
    /// No family found yet.
    fn default() -> (r: Self)
        ensures
            r.graphics_family is None,
            r.present_family is None,
    {
        QueueFamilyIndices { graphics_family: None, present_family: None }
    }
}

/// Scans the queue families of one device for a graphics-capable and a
/// present-capable family, stopping once both are found. A family is found
/// if and only if some family of the device has the capability.
pub fn find_queue_families(families: &Vec<QueueFamilyInfo>) -> (r: QueueFamilyIndices)
    requires
        families@.len() <= u32::MAX,
    ensures
        r.sound_for(families@),
        (r.graphics_family is Some) <==> exists|i: int|
            0 <= i < families@.len() && graphics_capable(#[trigger] families@[i]),
        (r.present_family is Some) <==> exists|i: int|
            0 <= i < families@.len() && present_capable(#[trigger] families@[i]),
{
    let mut indices = QueueFamilyIndices { graphics_family: None, present_family: None };
    let n: usize = families.len();
    let mut i: usize = 0;
    while i < n
        invariant
            n == families@.len(),
            n <= u32::MAX,
            0 <= i <= n,
            indices.sound_for(families@),
            indices.graphics_family is None ==> forall|j: int|
                0 <= j < i ==> !graphics_capable(#[trigger] families@[j]),
            indices.present_family is None ==> forall|j: int|
                0 <= j < i ==> !present_capable(#[trigger] families@[j]),
        decreases n - i,
    {
        let family = families[i];
        if family.queue_count > 0 {
            if family.supports_graphics {
                indices.graphics_family = Some(i as u32);
            }
            if family.supports_present {
                indices.present_family = Some(i as u32);
            }
            if indices.graphics_family.is_some() && indices.present_family.is_some() {
                return indices;
            }
        }
        i = i + 1;
    }
    indices
}

/// The device advertises both required extensions.
pub fn has_required_extensions(extension_names: &Vec<String>) -> (r: bool)
    ensures
        r == spec_has_required_extensions(extension_names@),
{
    let has_swapchain = contains_string(extension_names, SWAPCHAIN_EXTENSION_NAME);
    let has_ray_tracing = contains_string(extension_names, RAY_TRACING_EXTENSION_NAME);
    has_swapchain && has_ray_tracing
}

/// Checks one physical device: its queue family indices are complete if and
/// only if the device qualifies, and any found index is sound.
pub fn check_physical_device(info: &PhysicalDeviceInfo) -> (r: QueueFamilyIndices)
    requires
        info.queue_families@.len() <= u32::MAX,
    ensures
        r.sound_for(info.queue_families@),
        (r.graphics_family is Some && r.present_family is Some) <==> spec_device_suitable(*info),
{
    if !has_required_extensions(&info.extension_names) {
        return QueueFamilyIndices { graphics_family: None, present_family: None };
    }
    if info.swapchain_support.available_formats.len() == 0
        || info.swapchain_support.available_present_modes.len() == 0 {
        return QueueFamilyIndices { graphics_family: None, present_family: None };
    }
    find_queue_families(&info.queue_families)
}

/// Selects the first physical device that qualifies, together with its
/// queue family indices. Fails with `NoSuitableDevice` if and only if no
/// device qualifies.
pub fn pick_physical_device(devices: &Vec<PhysicalDeviceInfo>) -> (r: Result<
    (usize, QueueFamilyIndices),
    EngineError,
>)
    requires
        forall|d: int| 0 <= d < devices@.len() ==> (#[trigger] devices@[d]).queue_families@.len()
            <= u32::MAX,
    ensures
        match r {
            Ok((chosen, indices)) => {
                &&& chosen < devices@.len()
                &&& spec_device_suitable(devices@[chosen as int])
                &&& forall|d: int| 0 <= d < chosen ==> !spec_device_suitable(#[trigger] devices@[d])
                &&& indices.graphics_family is Some
                &&& indices.present_family is Some
                &&& indices.sound_for(devices@[chosen as int].queue_families@)
            },
            Err(e) => {
                &&& e == EngineError::NoSuitableDevice
                &&& forall|d: int|
                    0 <= d < devices@.len() ==> !spec_device_suitable(#[trigger] devices@[d])
            },
        },
{
    let n: usize = devices.len();
    let mut d: usize = 0;
    while d < n
        invariant
            n == devices@.len(),
            0 <= d <= n,
            forall|j: int| 0 <= j < d ==> !spec_device_suitable(#[trigger] devices@[j]),
            forall|j: int| 0 <= j < devices@.len() ==> (#[trigger] devices@[j]).queue_families@.len()
                <= u32::MAX,
        decreases n - d,
    {
        let indices = check_physical_device(&devices[d]);
        if indices.is_complete() {
            return Ok((d, indices));
        }
        d = d + 1;
    }
    Err(EngineError::NoSuitableDevice)
}

/// One memory type of a device, reduced to its property flag bits.
#[derive(Clone, Copy, Debug)]
pub struct MemoryType {
    pub property_flags: u32,
}

/// The memory types a device offers, in index order. The driver reports at
/// most 32 of them, so each index is a valid bit position in a type
/// bitmask.
#[derive(Clone, Debug)]
pub struct MemoryProperties {
    pub memory_types: Vec<MemoryType>,
}

/// Memory type `i` satisfies the request: its bit is set in the type
/// bitmask and its property flags are a superset of the required flags.
pub open spec fn memory_type_suitable(
    types: Seq<MemoryType>,
    required_properties: u32,
    type_filter: u32,
    i: int,
) -> bool {
    &&& 0 <= i < types.len()
    &&& (type_filter >> (i as u32)) & 1 == 1
    &&& types[i].property_flags & required_properties == required_properties
}

/// Finds the first memory type whose bit is set in `type_filter` and whose
/// property flags contain `required_properties`. Fails with
/// `NoSuitableMemoryType` if and only if no type satisfies both.
pub fn find_memory_type(
    memory_properties: &MemoryProperties,
    required_properties: u32,
    type_filter: u32,
) -> (r: Result<u32, EngineError>)
    requires
        memory_properties.memory_types@.len() <= 32,
    ensures
        match r {
            Ok(i) => {
                &&& memory_type_suitable(
                    memory_properties.memory_types@,
                    required_properties,
                    type_filter,
                    i as int,
                )
                &&& forall|j: int|
                    0 <= j < i ==> !memory_type_suitable(
                        memory_properties.memory_types@,
                        required_properties,
                        type_filter,
                        j,
                    )
            },
            Err(e) => {
                &&& e == EngineError::NoSuitableMemoryType
                &&& forall|j: int|
                    !memory_type_suitable(
                        memory_properties.memory_types@,
                        required_properties,
                        type_filter,
                        j,
                    )
            },
        },
{
    let n: usize = memory_properties.memory_types.len();
    let mut i: usize = 0;
    while i < n
        invariant
            n == memory_properties.memory_types@.len(),
            n <= 32,
            0 <= i <= n,
            forall|j: int|
                0 <= j < i ==> !memory_type_suitable(
                    memory_properties.memory_types@,
                    required_properties,
                    type_filter,
                    j,
                ),
        decreases n - i,
    {
        let flags = memory_properties.memory_types[i].property_flags;
        if (type_filter >> (i as u32)) & 1 == 1 && flags & required_properties
            == required_properties {
            return Ok(i as u32);
        }
        i = i + 1;
    }
    Err(EngineError::NoSuitableMemoryType)
}

/// Image-tiling code for linear tiling (`VK_IMAGE_TILING_LINEAR`).
pub const IMAGE_TILING_LINEAR: u32 = 1;

/// Image-tiling code for optimal tiling (`VK_IMAGE_TILING_OPTIMAL`).
pub const IMAGE_TILING_OPTIMAL: u32 = 0;

/// The format properties the driver reports for one candidate format: the
/// format code and the feature bits it supports under each tiling.
#[derive(Clone, Copy, Debug)]
pub struct FormatProperties {
    pub format: u32,
    pub linear_tiling_features: u32,
    pub optimal_tiling_features: u32,
}

/// The candidate supports all required feature bits under the tiling.
pub open spec fn format_supports(candidate: FormatProperties, tiling: u32, features: u32) -> bool {
    if tiling == IMAGE_TILING_LINEAR {
        candidate.linear_tiling_features & features == features
    } else {
        candidate.optimal_tiling_features & features == features
    }
}

/// Selects the first candidate format that supports the required feature
/// bits under the given tiling; fails exactly when none does.
pub fn find_supported_format(candidates: &Vec<FormatProperties>, tiling: u32, features: u32) -> (r:
    Result<u32, EngineError>)
    ensures
        match r {
            Ok(f) => exists|i: int|
                {
                    &&& 0 <= i < candidates@.len()
                    &&& #[trigger] candidates@[i].format == f
                    &&& format_supports(candidates@[i], tiling, features)
                    &&& forall|j: int|
                        0 <= j < i ==> !format_supports(#[trigger] candidates@[j], tiling, features)
                },
            Err(e) => {
                &&& e == EngineError::NoSuitableFormat
                &&& forall|j: int|
                    0 <= j < candidates@.len() ==> !format_supports(
                        #[trigger] candidates@[j],
                        tiling,
                        features,
                    )
            },
        },
{
    let n: usize = candidates.len();
    let mut i: usize = 0;
    while i < n
        invariant
            n == candidates@.len(),
            0 <= i <= n,
            forall|j: int| 0 <= j < i ==> !format_supports(#[trigger] candidates@[j], tiling, features),
        decreases n - i,
    {
        let c = candidates[i];
        let supported = if tiling == IMAGE_TILING_LINEAR {
            c.linear_tiling_features & features == features
        } else {
            c.optimal_tiling_features & features == features
        };
        if supported {
            return Ok(c.format);
        }
        i = i + 1;
    }
    Err(EngineError::NoSuitableFormat)
}

} // verus!
