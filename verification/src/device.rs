//! Startup capability checks: queue families, device suitability, memory
//! types, and attachment format support.
//!
//! Every function here decides over plain values that the caller has queried
//! from the device beforehand; a failed check names the missing capability.

use vstd::prelude::*;

use crate::error::{Capability, EngineError};

verus! {

/// What one queue family of a device offers, as far as the engine cares.
#[derive(Clone, Copy, Debug, PartialEq, Eq, Structural)]
pub struct QueueFamily {
    /// The family accepts graphics commands.
    pub supports_graphics: bool,
    /// The family can present to the engine's surface.
    pub supports_present: bool,
}

/// The queue family indices the engine runs on.
#[derive(Clone, Copy, Debug, PartialEq, Eq, Structural)]
pub struct QueueFamilyIndices {
    pub graphics: usize,
    pub present: usize,
}

/// True if some family in `s` supports graphics commands.
pub open spec fn has_graphics(s: Seq<QueueFamily>) -> bool {
    exists|i: int| 0 <= i < s.len() && s[i].supports_graphics
}

/// True if some family in `s` can present.
pub open spec fn has_present(s: Seq<QueueFamily>) -> bool {
    exists|i: int| 0 <= i < s.len() && s[i].supports_present
}

impl QueueFamilyIndices {
    /// Selects the first graphics-capable and the first present-capable
    /// family, or reports which of the two is missing.
    pub fn get(families: &Vec<QueueFamily>) -> (r: Result<Self, EngineError>)
        ensures
            match r {
                Ok(ix) => {
                    &&& ix.graphics < families@.len()
                    &&& families@[ix.graphics as int].supports_graphics
                    &&& forall|j: int| 0 <= j < ix.graphics ==> !families@[j].supports_graphics
                    &&& ix.present < families@.len()
                    &&& families@[ix.present as int].supports_present
                    &&& forall|j: int| 0 <= j < ix.present ==> !families@[j].supports_present
                },
                Err(e) => {
                    &&& !(has_graphics(families@) && has_present(families@))
                    &&& e == if !has_graphics(families@) {
                        (EngineError::MissingCapability { what: Capability::GraphicsQueue })
                    } else {
                        (EngineError::MissingCapability { what: Capability::PresentQueue })
                    }
                },
            },
    {
        let mut graphics: Option<usize> = None;
        let mut present: Option<usize> = None;
        let n = families.len();
        let mut i: usize = 0;
        while i < n
            invariant
                i <= n,
                n == families@.len(),
                match graphics {
                    Some(g) => {
                        &&& g < i
                        &&& families@[g as int].supports_graphics
                        &&& forall|j: int| 0 <= j < g ==> !families@[j].supports_graphics
                    },
                    None => forall|j: int| 0 <= j < i ==> !families@[j].supports_graphics,
                },
                match present {
                    Some(p) => {
                        &&& p < i
                        &&& families@[p as int].supports_present
                        &&& forall|j: int| 0 <= j < p ==> !families@[j].supports_present
                    },
                    None => forall|j: int| 0 <= j < i ==> !families@[j].supports_present,
                },
            decreases n - i,
        {
            if graphics.is_none() && families[i].supports_graphics {
                graphics = Some(i);
            }
            if present.is_none() && families[i].supports_present {
                present = Some(i);
            }
            i += 1;
        }
        match (graphics, present) {
            (Some(g), Some(p)) => Ok(QueueFamilyIndices { graphics: g, present: p }),
            (None, _) => Err(EngineError::MissingCapability { what: Capability::GraphicsQueue }),
            (Some(_), None) => Err(EngineError::MissingCapability { what: Capability::PresentQueue }),
        }
    }
}

/// What the engine knows about one physical device when picking.
#[derive(Clone, Debug)]
pub struct PhysicalDeviceInfo {
    /// The device's queue families, in index order.
    pub families: Vec<QueueFamily>,
    /// The device offers every extension the engine requires.
    pub has_required_extensions: bool,
    /// How many surface formats the device supports on the surface.
    pub format_count: usize,
    /// How many presentation modes the device supports on the surface.
    pub present_mode_count: usize,
}

/// A device is suitable when it has both queue families, the required
/// extensions, and a non-empty swapchain support set.
pub open spec fn suitable(d: PhysicalDeviceInfo) -> bool {
    &&& has_graphics(d.families@)
    &&& has_present(d.families@)
    &&& d.has_required_extensions
    &&& d.format_count > 0
    &&& d.present_mode_count > 0
}

/// The first capability an unsuitable device is missing, in check order.
pub open spec fn first_missing_capability(d: PhysicalDeviceInfo) -> Capability {
    if !has_graphics(d.families@) {
        Capability::GraphicsQueue
    } else if !has_present(d.families@) {
        Capability::PresentQueue
    } else if !d.has_required_extensions {
        Capability::DeviceExtensions
    } else if d.format_count == 0 {
        Capability::SurfaceFormat
    } else {
        Capability::PresentMode
    }
}

/// Checks one device, naming the first missing capability.
pub fn check_physical_device(d: &PhysicalDeviceInfo) -> (r: Result<(), EngineError>)
    ensures
        r is Ok <==> suitable(*d),
        r is Err ==> r->Err_0 == (EngineError::MissingCapability {
            what: first_missing_capability(*d),
        }),
{
    let indices = QueueFamilyIndices::get(&d.families);
    if let Err(e) = indices {
        return Err(e);
    }
    if !d.has_required_extensions {
        return Err(EngineError::MissingCapability { what: Capability::DeviceExtensions });
    }
    if d.format_count == 0 {
        return Err(EngineError::MissingCapability { what: Capability::SurfaceFormat });
    }
    if d.present_mode_count == 0 {
        return Err(EngineError::MissingCapability { what: Capability::PresentMode });
    }
    Ok(())
}

/// Picks the first suitable device, or reports that none is.
pub fn pick_physical_device(devices: &Vec<PhysicalDeviceInfo>) -> (r: Result<usize, EngineError>)
    ensures
        match r {
            Ok(i) => {
                &&& i < devices@.len()
                &&& suitable(devices@[i as int])
                &&& forall|j: int| 0 <= j < i ==> !suitable(devices@[j])
            },
            Err(e) => {
                &&& forall|j: int| 0 <= j < devices@.len() ==> !suitable(devices@[j])
                &&& e == (EngineError::MissingCapability { what: Capability::SuitableDevice })
            },
        },
{
    let n = devices.len();
    let mut i: usize = 0;
    while i < n
        invariant
            i <= n,
            n == devices@.len(),
            forall|j: int| 0 <= j < i ==> !suitable(devices@[j]),
        decreases n - i,
    {
        if check_physical_device(&devices[i]).is_ok() {
            return Ok(i);
        }
        i += 1;
    }
    Err(EngineError::MissingCapability { what: Capability::SuitableDevice })
}

/// The distinct queue family indices the device is created with: the
/// graphics family, and the present family when it is a different one.
pub fn unique_queue_indices(ix: &QueueFamilyIndices) -> (v: Vec<usize>)
    ensures
        if ix.graphics == ix.present {
            v@ =~= seq![ix.graphics]
        } else {
            v@ =~= seq![ix.graphics, ix.present]
        },
{
    let mut v: Vec<usize> = Vec::new();
    v.push(ix.graphics);
    if ix.graphics != ix.present {
        v.push(ix.present);
    }
    v
}

/// True if memory type `i` is admitted by `type_bits` and its property flags
/// contain all of `required`.
pub open spec fn memory_type_fits(type_bits: u32, flags: Seq<u32>, required: u32, i: int) -> bool {
    &&& (type_bits >> (i as u32)) & 1 == 1
    &&& flags[i] & required == required
}

/// Selects the first memory type admitted by `type_bits` whose property flags
/// contain `required`; fails when no compatible memory type exists.
///
/// `flags` holds the property flags of each memory type the device offers,
/// in type-index order.
pub fn get_memory_type_index(type_bits: u32, required: u32, flags: &Vec<u32>) -> (r: Result<
    usize,
    EngineError,
>)
    requires
        flags@.len() <= 32,
    ensures
        match r {
            Ok(i) => {
                &&& i < flags@.len()
                &&& memory_type_fits(type_bits, flags@, required, i as int)
                &&& forall|j: int| 0 <= j < i ==> !memory_type_fits(type_bits, flags@, required, j)
            },
            Err(e) => {
                &&& forall|j: int|
                    0 <= j < flags@.len() ==> !memory_type_fits(type_bits, flags@, required, j)
                &&& e == EngineError::UnsupportedMemoryType
            },
        },
{
    let n = flags.len();
    let mut i: usize = 0;
    while i < n
        invariant
            i <= n,
            n == flags@.len() <= 32,
            forall|j: int| 0 <= j < i ==> !memory_type_fits(type_bits, flags@, required, j),
        decreases n - i,
    {
        let admitted = (type_bits >> (i as u32)) & 1 == 1;
        if admitted && flags[i] & required == required {
            return Ok(i);
        }
        i += 1;
    }
    Err(EngineError::UnsupportedMemoryType)
}

/// How an image's texels are laid out, deciding which feature set applies.
#[derive(Clone, Copy, Debug, PartialEq, Eq, Structural)]
pub enum Tiling {
    Linear,
    Optimal,
}

/// The format features a device reports for one candidate format, split by
/// tiling.
#[derive(Clone, Copy, Debug, PartialEq, Eq, Structural)]
pub struct FormatProperties {
    pub linear_features: u32,
    pub optimal_features: u32,
}

/// What `choose_sample_count` returns: the highest supported sample-count
/// bit, preferring 64 samples down to 2, else single-sampling.
pub open spec fn spec_sample_count(supported: u32) -> u32 {
    if supported & 0x40 == 0x40 {
        0x40
    } else if supported & 0x20 == 0x20 {
        0x20
    } else if supported & 0x10 == 0x10 {
        0x10
    } else if supported & 0x8 == 0x8 {
        0x8
    } else if supported & 0x4 == 0x4 {
        0x4
    } else if supported & 0x2 == 0x2 {
        0x2
    } else {
        0x1
    }
}

/// Selects the multisample count: the largest count bit set in `supported`
/// (the counts the device offers for both color and depth attachments),
/// falling back to single-sampling.
pub fn choose_sample_count(supported: u32) -> (r: u32)
    ensures
        r == spec_sample_count(supported),
{
    if supported & 0x40 == 0x40 {
        0x40
    } else if supported & 0x20 == 0x20 {
        0x20
    } else if supported & 0x10 == 0x10 {
        0x10
    } else if supported & 0x8 == 0x8 {
        0x8
    } else if supported & 0x4 == 0x4 {
        0x4
    } else if supported & 0x2 == 0x2 {
        0x2
    } else {
        0x1
    }
}

/// The feature bit required of a depth attachment format.
pub const FORMAT_FEATURE_DEPTH_STENCIL_ATTACHMENT: u32 = 0x200;

/// True if candidate `i` offers all of `features` under `tiling`.
pub open spec fn format_supported(
    candidates: Seq<FormatProperties>,
    tiling: Tiling,
    features: u32,
    i: int,
) -> bool {
    match tiling {
        Tiling::Linear => candidates[i].linear_features & features == features,
        Tiling::Optimal => candidates[i].optimal_features & features == features,
    }
}

/// Selects the first candidate format offering `features` under `tiling`.
///
/// `candidates` holds the device's reported properties for each candidate,
/// in the caller's preference order; the result indexes into it.
pub fn get_supported_format(
    candidates: &Vec<FormatProperties>,
    tiling: Tiling,
    features: u32,
) -> (r: Result<usize, EngineError>)
    ensures
        match r {
            Ok(i) => {
                &&& i < candidates@.len()
                &&& format_supported(candidates@, tiling, features, i as int)
                &&& forall|j: int|
                    0 <= j < i ==> !format_supported(candidates@, tiling, features, j)
            },
            Err(e) => {
                &&& forall|j: int|
                    0 <= j < candidates@.len() ==> !format_supported(
                        candidates@,
                        tiling,
                        features,
                        j,
                    )
                &&& e == (EngineError::MissingCapability { what: Capability::DepthFormat })
            },
        },
{
    let n = candidates.len();
    let mut i: usize = 0;
    while i < n
        invariant
            i <= n,
            n == candidates@.len(),
            forall|j: int| 0 <= j < i ==> !format_supported(candidates@, tiling, features, j),
        decreases n - i,
    {
        let supported = match tiling {
            Tiling::Linear => candidates[i].linear_features & features == features,
            Tiling::Optimal => candidates[i].optimal_features & features == features,
        };
        if supported {
            return Ok(i);
        }
        i += 1;
    }
    Err(EngineError::MissingCapability { what: Capability::DepthFormat })
}

/// Selects the depth attachment format: the first of the caller's candidates
/// usable as a depth/stencil attachment with optimal tiling.
pub fn get_depth_format(candidates: &Vec<FormatProperties>) -> (r: Result<usize, EngineError>)
    ensures
        match r {
            Ok(i) => {
                &&& i < candidates@.len()
                &&& format_supported(
                    candidates@,
                    Tiling::Optimal,
                    FORMAT_FEATURE_DEPTH_STENCIL_ATTACHMENT,
                    i as int,
                )
                &&& forall|j: int|
                    0 <= j < i ==> !format_supported(
                        candidates@,
                        Tiling::Optimal,
                        FORMAT_FEATURE_DEPTH_STENCIL_ATTACHMENT,
                        j,
                    )
            },
            Err(e) => {
                &&& forall|j: int|
                    0 <= j < candidates@.len() ==> !format_supported(
                        candidates@,
                        Tiling::Optimal,
                        FORMAT_FEATURE_DEPTH_STENCIL_ATTACHMENT,
                        j,
                    )
                &&& e == (EngineError::MissingCapability { what: Capability::DepthFormat })
            },
        },
{
    get_supported_format(candidates, Tiling::Optimal, FORMAT_FEATURE_DEPTH_STENCIL_ATTACHMENT)
}

/// Byte-for-byte equality of two names.
pub fn bytes_eq(a: &Vec<u8>, b: &Vec<u8>) -> (r: bool)
    ensures
        r == (a@ == b@),
{
    if a.len() != b.len() {
        return false;
    }
    let n = a.len();
    let mut i: usize = 0;
    while i < n
        invariant
            i <= n,
            n == a@.len() == b@.len(),
            forall|j: int| 0 <= j < i ==> a@[j] == b@[j],
        decreases n - i,
    {
        if a[i] != b[i] {
            return false;
        }
        i += 1;
    }
    proof {
        assert(a@ =~= b@);
    }
    true
}

/// True if `names` contains `wanted`.
pub open spec fn contains_name(names: Seq<Seq<u8>>, wanted: Seq<u8>) -> bool {
    exists|i: int| 0 <= i < names.len() && names[i] == wanted
}

/// Whether the list of available layer names contains the wanted one.
pub fn contains_layer(available: &Vec<Vec<u8>>, wanted: &Vec<u8>) -> (r: bool)
    ensures
        r == contains_name(available@.map_values(|v: Vec<u8>| v@), wanted@),
{
    let ghost names = available@.map_values(|v: Vec<u8>| v@);
    let n = available.len();
    let mut i: usize = 0;
    while i < n
        invariant
            i <= n,
            n == available@.len(),
            names == available@.map_values(|v: Vec<u8>| v@),
            forall|j: int| 0 <= j < i ==> names[j] != wanted@,
        decreases n - i,
    {
        if bytes_eq(&available[i], wanted) {
            assert(names[i as int] == wanted@);
            return true;
        }
        i += 1;
    }
    false
}

/// True if every name in `required` occurs in `available`.
pub open spec fn contains_all(available: Seq<Seq<u8>>, required: Seq<Seq<u8>>) -> bool {
    forall|i: int| 0 <= i < required.len() ==> contains_name(available, #[trigger] required[i])
}

/// Whether a device offers every required extension: each required name
/// must occur among the device's advertised extension names.
pub fn check_physical_device_extensions(
    available: &Vec<Vec<u8>>,
    required: &Vec<Vec<u8>>,
) -> (r: bool)
    ensures
        r == contains_all(
            available@.map_values(|v: Vec<u8>| v@),
            required@.map_values(|v: Vec<u8>| v@),
        ),
{
    let ghost avail = available@.map_values(|v: Vec<u8>| v@);
    let ghost req = required@.map_values(|v: Vec<u8>| v@);
    let n = required.len();
    let mut i: usize = 0;
    while i < n
        invariant
            i <= n,
            n == required@.len(),
            avail == available@.map_values(|v: Vec<u8>| v@),
            req == required@.map_values(|v: Vec<u8>| v@),
            forall|j: int| 0 <= j < i ==> contains_name(avail, #[trigger] req[j]),
        decreases n - i,
    {
        if !contains_layer(available, &required[i]) {
            assert(!contains_name(avail, req[i as int]));
            return false;
        }
        i += 1;
    }
    true
}

/// Startup check for the validation layer: when validation is enabled the
/// layer must be among the available ones; when disabled nothing is required.
pub fn check_layer_support(
    validation_enabled: bool,
    available: &Vec<Vec<u8>>,
    layer: &Vec<u8>,
) -> (r: Result<(), EngineError>)
    ensures
        r is Ok <==> (!validation_enabled || contains_name(
            available@.map_values(|v: Vec<u8>| v@),
            layer@,
        )),
        r is Err ==> r->Err_0 == (EngineError::MissingCapability {
            what: Capability::ValidationLayer,
        }),
{
    if validation_enabled && !contains_layer(available, layer) {
        Err(EngineError::MissingCapability { what: Capability::ValidationLayer })
    } else {
        Ok(())
    }
}

} // verus!
