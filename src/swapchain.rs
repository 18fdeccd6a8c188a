//! Choices made when a swapchain is (re)built: surface format, present mode,
//! extent and image count.

use vstd::prelude::*;

verus! {

/// Raw value of the 8-bit-per-channel BGRA sRGB pixel format.
pub const FORMAT_B8G8R8A8_SRGB: i32 = 50;

/// Raw value of the non-linear sRGB color space.
pub const COLOR_SPACE_SRGB_NONLINEAR: i32 = 0;

/// Raw value of the low-latency, non-blocking present mode.
pub const PRESENT_MODE_MAILBOX: i32 = 1;

/// Raw value of the vertical-sync present mode that every surface supports.
pub const PRESENT_MODE_FIFO: i32 = 2;

/// Width and height of a 2D region, in pixels.
#[derive(Clone, Copy, Debug, PartialEq, Eq, Structural)]
pub struct Extent2D {
    pub width: u32,
    pub height: u32,
}

/// A pixel format together with a color space, as raw API values.
#[derive(Clone, Copy, Debug, PartialEq, Eq, Structural)]
pub struct SurfaceFormat {
    pub format: i32,
    pub color_space: i32,
}

/// What a surface reports about the swapchains it accepts.
#[derive(Clone, Copy, Debug, PartialEq, Eq, Structural)]
pub struct SurfaceCapabilities {
    pub min_image_count: u32,
    /// Zero means there is no upper bound.
    pub max_image_count: u32,
    pub min_extent: Extent2D,
    pub max_extent: Extent2D,
}

pub open spec fn is_preferred_format(f: SurfaceFormat) -> bool {
    f.format == FORMAT_B8G8R8A8_SRGB && f.color_space == COLOR_SPACE_SRGB_NONLINEAR
}

/// The preferred sRGB format if the surface offers it, else the first one offered.
pub open spec fn chosen_format(formats: Seq<SurfaceFormat>) -> SurfaceFormat {
    if exists|i: int| 0 <= i < formats.len() && is_preferred_format(#[trigger] formats[i]) {
        SurfaceFormat { format: FORMAT_B8G8R8A8_SRGB, color_space: COLOR_SPACE_SRGB_NONLINEAR }
    } else {
        formats[0]
    }
}

/// Picks the swapchain's surface format among those the surface offers.
pub fn choose_surface_format(formats: &Vec<SurfaceFormat>) -> (r: SurfaceFormat)
    requires
        formats@.len() > 0,
    ensures
        r == chosen_format(formats@),
{
    let mut i: usize = 0;
    while i < formats.len()
        invariant
            0 <= i <= formats@.len(),
            forall|j: int| 0 <= j < i ==> !is_preferred_format(#[trigger] formats@[j]),
        decreases formats@.len() - i,
    {
        let f = formats[i];
        if f.format == FORMAT_B8G8R8A8_SRGB && f.color_space == COLOR_SPACE_SRGB_NONLINEAR {
            return f;
        }
        i = i + 1;
    }
    formats[0]
}

/// Mailbox when the surface supports it, else vertical sync.
pub open spec fn chosen_present_mode(modes: Seq<i32>) -> i32 {
    if modes.contains(PRESENT_MODE_MAILBOX) {
        PRESENT_MODE_MAILBOX
    } else {
        PRESENT_MODE_FIFO
    }
}

/// Picks the swapchain's present mode among those the surface supports.
pub fn choose_present_mode(modes: &Vec<i32>) -> (r: i32)
    ensures
        r == chosen_present_mode(modes@),
{
    let mut i: usize = 0;
    while i < modes.len()
        invariant
            0 <= i <= modes@.len(),
            forall|j: int| 0 <= j < i ==> modes@[j] != PRESENT_MODE_MAILBOX,
        decreases modes@.len() - i,
    {
        if modes[i] == PRESENT_MODE_MAILBOX {
            return PRESENT_MODE_MAILBOX;
        }
        i = i + 1;
    }
    PRESENT_MODE_FIFO
}

/// `v` brought into `[lo, hi]`; the lower bound wins when the two cross.
pub open spec fn clamped(v: u32, lo: u32, hi: u32) -> u32 {
    if v < lo {
        lo
    } else if v > hi {
        hi
    } else {
        v
    }
}

fn clamp_u32(v: u32, lo: u32, hi: u32) -> (r: u32)
    ensures
        r == clamped(v, lo, hi),
{
    if v < lo {
        lo
    } else if v > hi {
        hi
    } else {
        v
    }
}

/// The window's drawable size clamped, per axis, to what the surface accepts.
pub fn choose_extent(window: Extent2D, caps: &SurfaceCapabilities) -> (r: Extent2D)
    ensures
        r.width == clamped(window.width, caps.min_extent.width, caps.max_extent.width),
        r.height == clamped(window.height, caps.min_extent.height, caps.max_extent.height),
{
    Extent2D {
        width: clamp_u32(window.width, caps.min_extent.width, caps.max_extent.width),
        height: clamp_u32(window.height, caps.min_extent.height, caps.max_extent.height),
    }
}

/// One more image than the minimum, capped at the maximum unless that is zero.
pub open spec fn chosen_image_count(caps: SurfaceCapabilities) -> int {
    let wanted = caps.min_image_count + 1;
    if caps.max_image_count != 0 && wanted > caps.max_image_count {
        caps.max_image_count as int
    } else {
        wanted
    }
}

/// Number of images to ask the swapchain for.
pub fn choose_image_count(caps: &SurfaceCapabilities) -> (r: u32)
    requires
        caps.max_image_count == 0 ==> caps.min_image_count < u32::MAX,
    ensures
        r == chosen_image_count(*caps),
{
    if caps.max_image_count != 0 && caps.min_image_count >= caps.max_image_count {
        caps.max_image_count
    } else {
        caps.min_image_count + 1
    }
}

/// One swapchain image and the objects built for it.
#[derive(Clone, Copy, Debug, PartialEq, Eq, Structural)]
pub struct PresentableImage {
    pub image: u64,
    pub view: u64,
    pub framebuffer: u64,
    pub command_buffer: u64,
    pub uniform_buffer: u64,
    pub uniform_memory: u64,
    pub descriptor_set: u64,
}

/// The per-image object lists did not all have one entry per swapchain image.
#[derive(Clone, Copy, Debug, PartialEq, Eq, Structural)]
pub struct ImageCountMismatch {
    pub images: usize,
    pub views: usize,
    pub framebuffers: usize,
    pub command_buffers: usize,
    pub uniform_buffers: usize,
    pub uniform_memories: usize,
    pub descriptor_sets: usize,
}

/// The per-image object lists that a swapchain (re)build produces.
pub struct SwapchainObjects {
    pub images: Vec<u64>,
    pub views: Vec<u64>,
    pub framebuffers: Vec<u64>,
    pub command_buffers: Vec<u64>,
    pub uniform_buffers: Vec<u64>,
    pub uniform_memories: Vec<u64>,
    pub descriptor_sets: Vec<u64>,
}

impl SwapchainObjects {
    /// Every list has exactly one entry per swapchain image.
    pub open spec fn counts_match(&self) -> bool {
        let n = self.images@.len();
        &&& self.views@.len() == n
        &&& self.framebuffers@.len() == n
        &&& self.command_buffers@.len() == n
        &&& self.uniform_buffers@.len() == n
        &&& self.uniform_memories@.len() == n
        &&& self.descriptor_sets@.len() == n
    }

    /// The record of image `i`, gathered from every list.
    pub open spec fn record(&self, i: int) -> PresentableImage {
        PresentableImage {
            image: self.images@[i],
            view: self.views@[i],
            framebuffer: self.framebuffers@[i],
            command_buffer: self.command_buffers@[i],
            uniform_buffer: self.uniform_buffers@[i],
            uniform_memory: self.uniform_memories@[i],
            descriptor_set: self.descriptor_sets@[i],
        }
    }

    /// Joins the lists into one record per swapchain image; fails when some
    /// list does not hold exactly one entry per image.
    pub fn into_images(&self) -> (r: Result<Vec<PresentableImage>, ImageCountMismatch>)
        ensures
            r is Ok <==> self.counts_match(),
            r matches Ok(v) ==> v@.len() == self.images@.len() && forall|i: int|
                0 <= i < v@.len() ==> #[trigger] v@[i] == self.record(i),
            r matches Err(e) ==> e == (ImageCountMismatch {
                images: self.images@.len() as usize,
                views: self.views@.len() as usize,
                framebuffers: self.framebuffers@.len() as usize,
                command_buffers: self.command_buffers@.len() as usize,
                uniform_buffers: self.uniform_buffers@.len() as usize,
                uniform_memories: self.uniform_memories@.len() as usize,
                descriptor_sets: self.descriptor_sets@.len() as usize,
            }),
    {
        let n = self.images.len();
        if self.views.len() != n || self.framebuffers.len() != n || self.command_buffers.len() != n
            || self.uniform_buffers.len() != n || self.uniform_memories.len() != n
            || self.descriptor_sets.len() != n {
            return Err(
                ImageCountMismatch {
                    images: n,
                    views: self.views.len(),
                    framebuffers: self.framebuffers.len(),
                    command_buffers: self.command_buffers.len(),
                    uniform_buffers: self.uniform_buffers.len(),
                    uniform_memories: self.uniform_memories.len(),
                    descriptor_sets: self.descriptor_sets.len(),
                },
            );
        }
        let mut out: Vec<PresentableImage> = Vec::new();
        let mut i: usize = 0;
        while i < n
            invariant
                n == self.images@.len(),
                self.counts_match(),
                i <= n,
                out@.len() == i,
                forall|j: int| 0 <= j < i ==> #[trigger] out@[j] == self.record(j),
            decreases n - i,
        {
            out.push(
                PresentableImage {
                    image: self.images[i],
                    view: self.views[i],
                    framebuffer: self.framebuffers[i],
                    command_buffer: self.command_buffers[i],
                    uniform_buffer: self.uniform_buffers[i],
                    uniform_memory: self.uniform_memories[i],
                    descriptor_set: self.descriptor_sets[i],
                },
            );
            i = i + 1;
        }
        Ok(out)
    }
}

/// One stage of building the swapchain-scoped objects.
#[derive(Clone, Copy, Debug, PartialEq, Eq, Structural)]
pub enum BuildStep {
    Swapchain,
    ImageViews,
    RenderPass,
    Pipeline,
    DepthBuffer,
    Framebuffers,
    UniformBuffers,
    DescriptorPool,
    DescriptorSets,
    CommandBuffers,
}

/// `later` reads objects that `earlier` creates.
pub open spec fn depends_on(later: BuildStep, earlier: BuildStep) -> bool {
    match later {
        BuildStep::Swapchain => false,
        BuildStep::ImageViews => earlier == BuildStep::Swapchain,
        BuildStep::RenderPass => earlier == BuildStep::Swapchain,
        BuildStep::Pipeline => earlier == BuildStep::RenderPass || earlier == BuildStep::Swapchain,
        BuildStep::DepthBuffer => earlier == BuildStep::Swapchain,
        BuildStep::Framebuffers => earlier == BuildStep::ImageViews || earlier == BuildStep::RenderPass
            || earlier == BuildStep::DepthBuffer || earlier == BuildStep::Swapchain,
        BuildStep::UniformBuffers => earlier == BuildStep::Swapchain,
        BuildStep::DescriptorPool => earlier == BuildStep::Swapchain,
        BuildStep::DescriptorSets => earlier == BuildStep::DescriptorPool || earlier
            == BuildStep::UniformBuffers,
        BuildStep::CommandBuffers => earlier == BuildStep::Framebuffers || earlier == BuildStep::Pipeline
            || earlier == BuildStep::DescriptorSets,
    }
}

pub open spec fn rebuild_order() -> Seq<BuildStep> {
    seq![
        BuildStep::Swapchain,
        BuildStep::ImageViews,
        BuildStep::RenderPass,
        BuildStep::Pipeline,
        BuildStep::DepthBuffer,
        BuildStep::Framebuffers,
        BuildStep::UniformBuffers,
        BuildStep::DescriptorPool,
        BuildStep::DescriptorSets,
        BuildStep::CommandBuffers,
    ]
}

/// The order in which the swapchain-scoped objects are (re)built.
pub fn rebuild_steps() -> (r: Vec<BuildStep>)
    ensures
        r@ == rebuild_order(),
{
    let r = vec![
        BuildStep::Swapchain,
        BuildStep::ImageViews,
        BuildStep::RenderPass,
        BuildStep::Pipeline,
        BuildStep::DepthBuffer,
        BuildStep::Framebuffers,
        BuildStep::UniformBuffers,
        BuildStep::DescriptorPool,
        BuildStep::DescriptorSets,
        BuildStep::CommandBuffers,
    ];
    assert(r@ =~= rebuild_order());
    r
}

/// The rebuild order builds every stage once, and only after every stage it
/// depends on.
pub proof fn lemma_rebuild_order_respects_dependencies()
    ensures
        rebuild_order().no_duplicates(),
        forall|i: int, j: int|
            0 <= i < rebuild_order().len() && 0 <= j < rebuild_order().len() && depends_on(
                #[trigger] rebuild_order()[i],
                #[trigger] rebuild_order()[j],
            ) ==> j < i,
{
    let o = rebuild_order();
    assert(o.no_duplicates());
}

} // verus!
