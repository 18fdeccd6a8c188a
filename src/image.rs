//! Image-related decisions: texture checks, mip chains, layout transition
//! barriers and the choice of a depth format.

use vstd::prelude::*;

verus! {

/// Raw layout values.
pub const LAYOUT_UNDEFINED: i32 = 0;
pub const LAYOUT_DEPTH_STENCIL_ATTACHMENT_OPTIMAL: i32 = 3;
pub const LAYOUT_SHADER_READ_ONLY_OPTIMAL: i32 = 5;
pub const LAYOUT_TRANSFER_DST_OPTIMAL: i32 = 7;

/// Raw access bits.
pub const ACCESS_NONE: u32 = 0;
pub const ACCESS_SHADER_READ: u32 = 0x20;
pub const ACCESS_DEPTH_STENCIL_ATTACHMENT_READ: u32 = 0x200;
pub const ACCESS_DEPTH_STENCIL_ATTACHMENT_WRITE: u32 = 0x400;
pub const ACCESS_TRANSFER_WRITE: u32 = 0x1000;

/// Raw pipeline stage bits.
pub const STAGE_TOP_OF_PIPE: u32 = 0x1;
pub const STAGE_FRAGMENT_SHADER: u32 = 0x80;
pub const STAGE_EARLY_FRAGMENT_TESTS: u32 = 0x100;
pub const STAGE_TRANSFER: u32 = 0x1000;

/// Raw image aspect bits.
pub const ASPECT_COLOR: u32 = 0x1;
pub const ASPECT_DEPTH: u32 = 0x2;
pub const ASPECT_STENCIL: u32 = 0x4;

/// Raw format values.
pub const FORMAT_R8G8B8A8_SRGB: i32 = 43;
pub const FORMAT_D32_SFLOAT: i32 = 126;
pub const FORMAT_D24_UNORM_S8_UINT: i32 = 129;
pub const FORMAT_D32_SFLOAT_S8_UINT: i32 = 130;

/// Raw format feature bit: usable as a depth/stencil attachment.
pub const FEATURE_DEPTH_STENCIL_ATTACHMENT: u32 = 0x200;

/// Side length, in texels, of the texture the renderer draws with.
pub const TEXTURE_SIZE: u32 = 1024;

/// Whether a decoded texture is the square RGBA image the renderer expects.
pub fn is_expected_texture(width: u32, height: u32, rgba: bool) -> (r: bool)
    ensures
        r == (width == TEXTURE_SIZE && height == TEXTURE_SIZE && rgba),
{
    width == TEXTURE_SIZE && height == TEXTURE_SIZE && rgba
}

/// Number of binary digits of `n`.
pub open spec fn bit_length(n: nat) -> nat
    decreases n,
{
    if n == 0 {
        0
    } else {
        1 + bit_length(n / 2)
    }
}

/// Length of the full mip chain: `floor(log2(max(width, height))) + 1`,
/// and one level for an empty image.
pub open spec fn mip_level_count(width: u32, height: u32) -> nat {
    let m = if width >= height { width } else { height };
    if m == 0 {
        1
    } else {
        bit_length(m as nat)
    }
}

spec fn two_to(k: nat) -> nat
    decreases k,
{
    if k == 0 {
        1
    } else {
        2 * two_to((k - 1) as nat)
    }
}

proof fn lemma_bit_length_below(n: nat, k: nat)
    requires
        n < two_to(k),
    ensures
        bit_length(n) <= k,
    decreases k,
{
    if n > 0 {
        lemma_bit_length_below(n / 2, (k - 1) as nat);
    }
}

proof fn lemma_bit_length_u32(n: u32)
    ensures
        bit_length(n as nat) <= 32,
{
    reveal_with_fuel(two_to, 33);
    lemma_bit_length_below(n as nat, 32);
}

/// Number of mip levels for a texture of the given size.
pub fn mip_levels(width: u32, height: u32) -> (r: u32)
    ensures
        r == mip_level_count(width, height),
{
    let m = if width >= height { width } else { height };
    if m == 0 {
        return 1;
    }
    let mut rest = m;
    let mut bits: u32 = 0;
    proof {
        lemma_bit_length_u32(m);
    }
    while rest > 0
        invariant
            bits + bit_length(rest as nat) == bit_length(m as nat),
            bit_length(m as nat) <= 32,
        decreases rest,
    {
        rest = rest / 2;
        bits = bits + 1;
    }
    bits
}

/// One halving step of a mip dimension, never below one texel.
pub open spec fn halved(d: u32) -> u32 {
    if d > 1 {
        d / 2
    } else {
        1
    }
}

/// A dimension after `k` halving steps.
pub open spec fn mip_dim(d: u32, k: nat) -> u32
    decreases k,
{
    if k == 0 {
        d
    } else {
        halved(mip_dim(d, (k - 1) as nat))
    }
}

/// One blit of the mip chain: level `level - 1`, of the source size, is
/// scaled down into level `level`, of the destination size.
#[derive(Clone, Copy, Debug, PartialEq, Eq, Structural)]
pub struct MipBlit {
    pub level: u32,
    pub src_width: u32,
    pub src_height: u32,
    pub dst_width: u32,
    pub dst_height: u32,
}

pub open spec fn mip_blit(width: u32, height: u32, k: nat) -> MipBlit {
    MipBlit {
        level: (k + 1) as u32,
        src_width: mip_dim(width, k),
        src_height: mip_dim(height, k),
        dst_width: mip_dim(width, k + 1),
        dst_height: mip_dim(height, k + 1),
    }
}

/// The blits that generate mip levels 1 to `levels - 1`, each from the level above it.
pub fn mip_blits(width: u32, height: u32, levels: u32) -> (r: Vec<MipBlit>)
    requires
        levels >= 1,
    ensures
        r@.len() == levels - 1,
        forall|k: int| 0 <= k < r@.len() ==> #[trigger] r@[k] == mip_blit(width, height, k as nat),
{
    let mut out: Vec<MipBlit> = Vec::new();
    let mut w = width;
    let mut h = height;
    let mut i: u32 = 1;
    while i < levels
        invariant
            1 <= i <= levels,
            out@.len() == i - 1,
            w == mip_dim(width, (i - 1) as nat),
            h == mip_dim(height, (i - 1) as nat),
            forall|k: int| 0 <= k < out@.len() ==> #[trigger] out@[k] == mip_blit(width, height, k as nat),
        decreases levels - i,
    {
        let dw = if w > 1 { w / 2 } else { 1 };
        let dh = if h > 1 { h / 2 } else { 1 };
        out.push(MipBlit { level: i, src_width: w, src_height: h, dst_width: dw, dst_height: dh });
        w = dw;
        h = dh;
        i = i + 1;
    }
    out
}

/// The masks of an image layout transition barrier, as raw bits.
#[derive(Clone, Copy, Debug, PartialEq, Eq, Structural)]
pub struct TransitionMasks {
    pub src_access: u32,
    pub dst_access: u32,
    pub src_stage: u32,
    pub dst_stage: u32,
    pub aspect: u32,
}

/// Errors of the resource lookups.
#[derive(Clone, Copy, Debug, PartialEq, Eq, Structural)]
pub enum ImageError {
    UnsupportedLayoutTransition,
    NoSupportedFormat,
}

pub open spec fn has_stencil(format: i32) -> bool {
    format == FORMAT_D32_SFLOAT_S8_UINT || format == FORMAT_D24_UNORM_S8_UINT
}

/// The aspects a barrier covers: depth (and stencil, for formats that have
/// it) when moving to the depth attachment layout, else color.
pub open spec fn barrier_aspect(format: i32, new_layout: i32) -> u32 {
    if new_layout == LAYOUT_DEPTH_STENCIL_ATTACHMENT_OPTIMAL {
        if has_stencil(format) {
            ASPECT_DEPTH | ASPECT_STENCIL
        } else {
            ASPECT_DEPTH
        }
    } else {
        ASPECT_COLOR
    }
}

/// The supported layout transitions and their access and stage masks.
pub open spec fn transition_masks(format: i32, old_layout: i32, new_layout: i32) -> Result<TransitionMasks, ImageError> {
    let aspect = barrier_aspect(format, new_layout);
    if old_layout == LAYOUT_UNDEFINED && new_layout == LAYOUT_TRANSFER_DST_OPTIMAL {
        Ok(TransitionMasks {
            src_access: ACCESS_NONE,
            dst_access: ACCESS_TRANSFER_WRITE,
            src_stage: STAGE_TOP_OF_PIPE,
            dst_stage: STAGE_TRANSFER,
            aspect,
        })
    } else if old_layout == LAYOUT_TRANSFER_DST_OPTIMAL && new_layout == LAYOUT_SHADER_READ_ONLY_OPTIMAL {
        Ok(TransitionMasks {
            src_access: ACCESS_TRANSFER_WRITE,
            dst_access: ACCESS_SHADER_READ,
            src_stage: STAGE_TRANSFER,
            dst_stage: STAGE_FRAGMENT_SHADER,
            aspect,
        })
    } else if old_layout == LAYOUT_UNDEFINED && new_layout == LAYOUT_DEPTH_STENCIL_ATTACHMENT_OPTIMAL {
        Ok(TransitionMasks {
            src_access: ACCESS_NONE,
            dst_access: ACCESS_DEPTH_STENCIL_ATTACHMENT_READ | ACCESS_DEPTH_STENCIL_ATTACHMENT_WRITE,
            src_stage: STAGE_TOP_OF_PIPE,
            dst_stage: STAGE_EARLY_FRAGMENT_TESTS,
            aspect,
        })
    } else {
        Err(ImageError::UnsupportedLayoutTransition)
    }
}

/// The barrier masks for moving an image of `format` from `old_layout` to
/// `new_layout`; fails for a transition the renderer does not use.
pub fn transition_image_layout(format: i32, old_layout: i32, new_layout: i32) -> (r: Result<TransitionMasks, ImageError>)
    ensures
        r == transition_masks(format, old_layout, new_layout),
{
    let aspect = if new_layout == LAYOUT_DEPTH_STENCIL_ATTACHMENT_OPTIMAL {
        if format == FORMAT_D32_SFLOAT_S8_UINT || format == FORMAT_D24_UNORM_S8_UINT {
            ASPECT_DEPTH | ASPECT_STENCIL
        } else {
            ASPECT_DEPTH
        }
    } else {
        ASPECT_COLOR
    };
    if old_layout == LAYOUT_UNDEFINED && new_layout == LAYOUT_TRANSFER_DST_OPTIMAL {
        Ok(TransitionMasks {
            src_access: ACCESS_NONE,
            dst_access: ACCESS_TRANSFER_WRITE,
            src_stage: STAGE_TOP_OF_PIPE,
            dst_stage: STAGE_TRANSFER,
            aspect,
        })
    } else if old_layout == LAYOUT_TRANSFER_DST_OPTIMAL && new_layout == LAYOUT_SHADER_READ_ONLY_OPTIMAL {
        Ok(TransitionMasks {
            src_access: ACCESS_TRANSFER_WRITE,
            dst_access: ACCESS_SHADER_READ,
            src_stage: STAGE_TRANSFER,
            dst_stage: STAGE_FRAGMENT_SHADER,
            aspect,
        })
    } else if old_layout == LAYOUT_UNDEFINED && new_layout == LAYOUT_DEPTH_STENCIL_ATTACHMENT_OPTIMAL {
        Ok(TransitionMasks {
            src_access: ACCESS_NONE,
            dst_access: ACCESS_DEPTH_STENCIL_ATTACHMENT_READ | ACCESS_DEPTH_STENCIL_ATTACHMENT_WRITE,
            src_stage: STAGE_TOP_OF_PIPE,
            dst_stage: STAGE_EARLY_FRAGMENT_TESTS,
            aspect,
        })
    } else {
        Err(ImageError::UnsupportedLayoutTransition)
    }
}

/// Image tiling modes.
#[derive(Clone, Copy, Debug, PartialEq, Eq, Structural)]
pub enum Tiling {
    Linear,
    Optimal,
}

/// A candidate format with the features the device supports for it under each tiling.
#[derive(Clone, Copy, Debug, PartialEq, Eq, Structural)]
pub struct FormatCandidate {
    pub format: i32,
    pub linear_features: u32,
    pub optimal_features: u32,
}

pub open spec fn supports(c: FormatCandidate, tiling: Tiling, features: u32) -> bool {
    match tiling {
        Tiling::Linear => c.linear_features & features == features,
        Tiling::Optimal => c.optimal_features & features == features,
    }
}

/// The first candidate that has every requested feature under `tiling`.
pub fn get_supported_format(candidates: &Vec<FormatCandidate>, tiling: Tiling, features: u32) -> (r: Result<i32, ImageError>)
    ensures
        r matches Ok(f) ==> exists|i: int|
            0 <= i < candidates@.len() && (#[trigger] candidates@[i]).format == f && supports(candidates@[i], tiling, features)
                && forall|j: int| 0 <= j < i ==> !supports(#[trigger] candidates@[j], tiling, features),
        r is Err ==> r == Err::<i32, ImageError>(ImageError::NoSupportedFormat)
            && forall|j: int| 0 <= j < candidates@.len() ==> !supports(#[trigger] candidates@[j], tiling, features),
{
    let mut i: usize = 0;
    while i < candidates.len()
        invariant
            i <= candidates@.len(),
            forall|j: int| 0 <= j < i ==> !supports(#[trigger] candidates@[j], tiling, features),
        decreases candidates@.len() - i,
    {
        let c = candidates[i];
        let ok = match tiling {
            Tiling::Linear => c.linear_features & features == features,
            Tiling::Optimal => c.optimal_features & features == features,
        };
        if ok {
            return Ok(c.format);
        }
        i = i + 1;
    }
    Err(ImageError::NoSupportedFormat)
}

/// The depth formats to try, most preferred first.
pub fn depth_format_candidates() -> (r: Vec<i32>)
    ensures
        r@ == seq![FORMAT_D32_SFLOAT, FORMAT_D32_SFLOAT_S8_UINT, FORMAT_D24_UNORM_S8_UINT],
{
    vec![FORMAT_D32_SFLOAT, FORMAT_D32_SFLOAT_S8_UINT, FORMAT_D24_UNORM_S8_UINT]
}

/// The first depth candidate usable as a depth/stencil attachment with optimal tiling.
pub fn get_depth_format(candidates: &Vec<FormatCandidate>) -> (r: Result<i32, ImageError>)
    ensures
        r matches Ok(f) ==> exists|i: int|
            0 <= i < candidates@.len() && (#[trigger] candidates@[i]).format == f
                && supports(candidates@[i], Tiling::Optimal, FEATURE_DEPTH_STENCIL_ATTACHMENT)
                && forall|j: int| 0 <= j < i ==> !supports(#[trigger] candidates@[j], Tiling::Optimal, FEATURE_DEPTH_STENCIL_ATTACHMENT),
        r is Err ==> r == Err::<i32, ImageError>(ImageError::NoSupportedFormat)
            && forall|j: int| 0 <= j < candidates@.len() ==> !supports(#[trigger] candidates@[j], Tiling::Optimal, FEATURE_DEPTH_STENCIL_ATTACHMENT),
{
    get_supported_format(candidates, Tiling::Optimal, FEATURE_DEPTH_STENCIL_ATTACHMENT)
}

} // verus!
