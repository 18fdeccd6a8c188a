//! Choosing a physical device and the queue families, sample count and
//! memory types to use on it, from what the device reports.

use vstd::prelude::*;

verus! {

/// Raw queue capability bit: the family supports graphics operations.
pub const QUEUE_GRAPHICS: u32 = 1;

/// What one queue family of a device reports.
#[derive(Clone, Copy, Debug, PartialEq, Eq, Structural)]
pub struct QueueFamily {
    /// Raw queue capability bits.
    pub flags: u32,
    /// Whether the family can present to the window surface.
    pub present_support: bool,
}

/// The queue families used for drawing and for presenting.
#[derive(Clone, Copy, Debug, PartialEq, Eq, Structural)]
pub struct QueueFamilyIndices {
    pub graphics: u32,
    pub present: u32,
}

/// Why a device cannot be used.
#[derive(Clone, Copy, Debug, PartialEq, Eq, Structural)]
pub enum SuitabilityError {
    MissingQueueFamilies,
    InsufficientSwapchainSupport,
    MissingExtensions,
    NoSamplerAnisotropy,
}

/// What a physical device reports about itself and the window surface.
pub struct DeviceReport {
    pub queue_families: Vec<QueueFamily>,
    /// Number of surface formats the device offers for the window surface.
    pub surface_format_count: usize,
    /// Number of present modes the device offers for the window surface.
    pub present_mode_count: usize,
    /// Names of the device's extensions.
    pub extensions: Vec<Vec<u8>>,
    pub sampler_anisotropy: bool,
}

pub open spec fn has_graphics(f: QueueFamily) -> bool {
    f.flags & QUEUE_GRAPHICS != 0
}

/// `i` is the first family that supports graphics.
pub open spec fn first_graphics(fams: Seq<QueueFamily>, i: int) -> bool {
    &&& 0 <= i < fams.len()
    &&& has_graphics(fams[i])
    &&& forall|j: int| 0 <= j < i ==> !has_graphics(#[trigger] fams[j])
}

/// `i` is the first family that can present.
pub open spec fn first_present(fams: Seq<QueueFamily>, i: int) -> bool {
    &&& 0 <= i < fams.len()
    &&& fams[i].present_support
    &&& forall|j: int| 0 <= j < i ==> !(#[trigger] fams[j]).present_support
}

pub open spec fn any_graphics(fams: Seq<QueueFamily>) -> bool {
    exists|i: int| 0 <= i < fams.len() && has_graphics(#[trigger] fams[i])
}

pub open spec fn any_present(fams: Seq<QueueFamily>) -> bool {
    exists|i: int| 0 <= i < fams.len() && (#[trigger] fams[i]).present_support
}

impl QueueFamilyIndices {
    /// The first graphics-capable family and the first family that can
    /// present; fails when either is missing.
    pub fn get(families: &Vec<QueueFamily>) -> (r: Result<QueueFamilyIndices, SuitabilityError>)
        requires
            families@.len() <= u32::MAX,
        ensures
            r is Ok <==> any_graphics(families@) && any_present(families@),
            r matches Ok(q) ==> first_graphics(families@, q.graphics as int) && first_present(
                families@,
                q.present as int,
            ),
            r matches Err(e) ==> e == SuitabilityError::MissingQueueFamilies,
    {
        let mut graphics: Option<u32> = None;
        let mut present: Option<u32> = None;
        let mut i: usize = 0;
        while i < families.len()
            invariant
                i <= families@.len() <= u32::MAX,
                graphics matches Some(g) ==> first_graphics(families@, g as int),
                graphics is None ==> forall|j: int| 0 <= j < i ==> !has_graphics(#[trigger] families@[j]),
                present matches Some(p) ==> first_present(families@, p as int),
                present is None ==> forall|j: int| 0 <= j < i ==> !(#[trigger] families@[j]).present_support,
            decreases families@.len() - i,
        {
            let f = families[i];
            if graphics.is_none() && f.flags & QUEUE_GRAPHICS != 0 {
                graphics = Some(i as u32);
            }
            if present.is_none() && f.present_support {
                present = Some(i as u32);
            }
            i = i + 1;
        }
        match (graphics, present) {
            (Some(g), Some(p)) => Ok(QueueFamilyIndices { graphics: g, present: p }),
            _ => Err(SuitabilityError::MissingQueueFamilies),
        }
    }
}

fn same_bytes(a: &Vec<u8>, b: &Vec<u8>) -> (r: bool)
    ensures
        r == (a@ == b@),
{
    if a.len() != b.len() {
        return false;
    }
    let mut i: usize = 0;
    while i < a.len()
        invariant
            a@.len() == b@.len(),
            i <= a@.len(),
            forall|j: int| 0 <= j < i ==> a@[j] == b@[j],
        decreases a@.len() - i,
    {
        if a[i] != b[i] {
            return false;
        }
        i = i + 1;
    }
    assert(a@ =~= b@);
    true
}

/// The name is among the available ones.
pub open spec fn has_name(available: Seq<Vec<u8>>, name: Seq<u8>) -> bool {
    exists|i: int| 0 <= i < available.len() && (#[trigger] available[i])@ == name
}

/// Every required name is among the available ones.
pub open spec fn has_all(available: Seq<Vec<u8>>, required: Seq<Vec<u8>>) -> bool {
    forall|k: int| 0 <= k < required.len() ==> has_name(available, (#[trigger] required[k])@)
}

fn contains_name(available: &Vec<Vec<u8>>, name: &Vec<u8>) -> (r: bool)
    ensures
        r == has_name(available@, name@),
{
    let mut i: usize = 0;
    while i < available.len()
        invariant
            i <= available@.len(),
            forall|j: int| 0 <= j < i ==> (#[trigger] available@[j])@ != name@,
        decreases available@.len() - i,
    {
        if same_bytes(&available[i], name) {
            return true;
        }
        i = i + 1;
    }
    false
}

/// Succeeds when every required extension is among the device's extensions.
pub fn check_physical_device_extensions(available: &Vec<Vec<u8>>, required: &Vec<Vec<u8>>) -> (r: Result<(), SuitabilityError>)
    ensures
        r is Ok <==> has_all(available@, required@),
        r matches Err(e) ==> e == SuitabilityError::MissingExtensions,
{
    let mut k: usize = 0;
    while k < required.len()
        invariant
            k <= required@.len(),
            forall|m: int| 0 <= m < k ==> has_name(available@, (#[trigger] required@[m])@),
        decreases required@.len() - k,
    {
        if !contains_name(available, &required[k]) {
            return Err(SuitabilityError::MissingExtensions);
        }
        k = k + 1;
    }
    Ok(())
}

/// The verdict on a device: queue families first, then swapchain support,
/// then extensions, then sampler anisotropy.
pub open spec fn device_verdict(report: DeviceReport, required: Seq<Vec<u8>>) -> Result<(), SuitabilityError> {
    if !(any_graphics(report.queue_families@) && any_present(report.queue_families@)) {
        Err(SuitabilityError::MissingQueueFamilies)
    } else if report.surface_format_count == 0 || report.present_mode_count == 0 {
        Err(SuitabilityError::InsufficientSwapchainSupport)
    } else if !has_all(report.extensions@, required) {
        Err(SuitabilityError::MissingExtensions)
    } else if !report.sampler_anisotropy {
        Err(SuitabilityError::NoSamplerAnisotropy)
    } else {
        Ok(())
    }
}

/// Whether the device can run the renderer, and if not, the first reason why.
pub fn check_physical_device(report: &DeviceReport, required: &Vec<Vec<u8>>) -> (r: Result<(), SuitabilityError>)
    requires
        report.queue_families@.len() <= u32::MAX,
    ensures
        r == device_verdict(*report, required@),
{
    QueueFamilyIndices::get(&report.queue_families)?;
    if report.surface_format_count == 0 || report.present_mode_count == 0 {
        return Err(SuitabilityError::InsufficientSwapchainSupport);
    }
    check_physical_device_extensions(&report.extensions, required)?;
    if !report.sampler_anisotropy {
        return Err(SuitabilityError::NoSamplerAnisotropy);
    }
    Ok(())
}

/// The index of the first suitable device, if any.
pub fn pick_physical_device(reports: &Vec<DeviceReport>, required: &Vec<Vec<u8>>) -> (r: Option<usize>)
    requires
        forall|i: int| 0 <= i < reports@.len() ==> (#[trigger] reports@[i]).queue_families@.len() <= u32::MAX,
    ensures
        r matches Some(i) ==> i < reports@.len() && device_verdict(reports@[i as int], required@) is Ok
            && forall|j: int| 0 <= j < i ==> device_verdict(#[trigger] reports@[j], required@) is Err,
        r is None ==> forall|j: int| 0 <= j < reports@.len() ==> device_verdict(#[trigger] reports@[j], required@) is Err,
{
    let mut i: usize = 0;
    while i < reports.len()
        invariant
            i <= reports@.len(),
            forall|j: int| 0 <= j < reports@.len() ==> (#[trigger] reports@[j]).queue_families@.len() <= u32::MAX,
            forall|j: int| 0 <= j < i ==> device_verdict(#[trigger] reports@[j], required@) is Err,
        decreases reports@.len() - i,
    {
        if check_physical_device(&reports[i], required).is_ok() {
            return Some(i);
        }
        i = i + 1;
    }
    None
}

/// The highest sample count, from 64 down to 2, that both the color and the
/// depth attachments support; one sample otherwise. Counts are raw bits.
pub open spec fn max_sample_count(color_counts: u32, depth_counts: u32) -> u32 {
    let counts = color_counts & depth_counts;
    if counts & 64 != 0 {
        64
    } else if counts & 32 != 0 {
        32
    } else if counts & 16 != 0 {
        16
    } else if counts & 8 != 0 {
        8
    } else if counts & 4 != 0 {
        4
    } else if counts & 2 != 0 {
        2
    } else {
        1
    }
}

/// Largest multisample count usable for both color and depth.
pub fn get_max_msaa_samples(color_counts: u32, depth_counts: u32) -> (r: u32)
    ensures
        r == max_sample_count(color_counts, depth_counts),
{
    let counts = color_counts & depth_counts;
    let candidates: [u32; 6] = [64, 32, 16, 8, 4, 2];
    let mut k: usize = 0;
    while k < 6
        invariant
            k <= 6,
            candidates@ == seq![64u32, 32, 16, 8, 4, 2],
            counts == color_counts & depth_counts,
            forall|m: int| 0 <= m < k ==> counts & (#[trigger] candidates@[m]) == 0,
        decreases 6 - k,
    {
        if counts & candidates[k] != 0 {
            assert(k == 0 ==> candidates@[0] == 64);
            return candidates[k];
        }
        k = k + 1;
    }
    assert(counts & candidates@[0] == 0 && counts & candidates@[1] == 0 && counts & candidates@[2] == 0
        && counts & candidates@[3] == 0 && counts & candidates@[4] == 0 && counts & candidates@[5] == 0);
    1
}

/// No memory type matches the request.
#[derive(Clone, Copy, Debug, PartialEq, Eq, Structural)]
pub struct NoSuitableMemoryType;

pub open spec fn memory_type_fits(type_flags: u32, i: int, type_bits: u32, properties: u32) -> bool {
    &&& type_bits & (1u32 << (i as u32)) != 0
    &&& type_flags & properties == properties
}

/// Index of the first memory type that the resource accepts (its bit is set
/// in `type_bits`) and that has every property asked for.
pub fn get_memory_type_index(memory_types: &Vec<u32>, type_bits: u32, properties: u32) -> (r: Result<u32, NoSuitableMemoryType>)
    requires
        memory_types@.len() <= 32,
    ensures
        r matches Ok(i) ==> i < memory_types@.len() && memory_type_fits(memory_types@[i as int], i as int, type_bits, properties)
            && forall|j: int| 0 <= j < i ==> !memory_type_fits(#[trigger] memory_types@[j], j, type_bits, properties),
        r is Err ==> forall|j: int| 0 <= j < memory_types@.len() ==> !memory_type_fits(#[trigger] memory_types@[j], j, type_bits, properties),
{
    let mut i: usize = 0;
    while i < memory_types.len()
        invariant
            i <= memory_types@.len() <= 32,
            forall|j: int| 0 <= j < i ==> !memory_type_fits(#[trigger] memory_types@[j], j, type_bits, properties),
        decreases memory_types@.len() - i,
    {
        let flags = memory_types[i];
        if type_bits & (1u32 << (i as u32)) != 0 && flags & properties == properties {
            return Ok(i as u32);
        }
        i = i + 1;
    }
    Err(NoSuitableMemoryType)
}

} // verus!
