use renderer::swapchain::{
    choose_extent, choose_image_count, choose_present_mode, choose_surface_format, rebuild_steps,
    BuildStep, Extent2D, ImageCountMismatch, PresentableImage, SurfaceCapabilities, SurfaceFormat,
    SwapchainObjects, COLOR_SPACE_SRGB_NONLINEAR, FORMAT_B8G8R8A8_SRGB, PRESENT_MODE_FIFO,
    PRESENT_MODE_MAILBOX,
};

fn caps(min: u32, max: u32) -> SurfaceCapabilities {
    SurfaceCapabilities {
        min_image_count: min,
        max_image_count: max,
        min_extent: Extent2D { width: 100, height: 50 },
        max_extent: Extent2D { width: 1920, height: 1080 },
    }
}

#[test]
fn preferred_surface_format_wins_when_offered() {
    let formats = vec![
        SurfaceFormat { format: 44, color_space: 0 },
        SurfaceFormat { format: FORMAT_B8G8R8A8_SRGB, color_space: 5 },
        SurfaceFormat { format: FORMAT_B8G8R8A8_SRGB, color_space: COLOR_SPACE_SRGB_NONLINEAR },
    ];
    assert_eq!(
        choose_surface_format(&formats),
        SurfaceFormat { format: FORMAT_B8G8R8A8_SRGB, color_space: COLOR_SPACE_SRGB_NONLINEAR }
    );
}

#[test]
fn first_surface_format_when_preferred_is_missing() {
    let formats = vec![
        SurfaceFormat { format: 44, color_space: 0 },
        SurfaceFormat { format: FORMAT_B8G8R8A8_SRGB, color_space: 5 },
    ];
    assert_eq!(choose_surface_format(&formats), SurfaceFormat { format: 44, color_space: 0 });
}

#[test]
fn mailbox_is_preferred_over_fifo() {
    assert_eq!(choose_present_mode(&vec![0, 2, 1]), PRESENT_MODE_MAILBOX);
    assert_eq!(choose_present_mode(&vec![0, 2, 3]), PRESENT_MODE_FIFO);
    assert_eq!(choose_present_mode(&vec![]), PRESENT_MODE_FIFO);
}

#[test]
fn extent_is_clamped_per_axis() {
    let c = caps(2, 0);
    assert_eq!(choose_extent(Extent2D { width: 1024, height: 768 }, &c), Extent2D { width: 1024, height: 768 });
    assert_eq!(choose_extent(Extent2D { width: 4000, height: 10 }, &c), Extent2D { width: 1920, height: 50 });
    assert_eq!(choose_extent(Extent2D { width: 0, height: 2000 }, &c), Extent2D { width: 100, height: 1080 });
}

#[test]
fn image_count_is_one_above_minimum_capped_at_maximum() {
    assert_eq!(choose_image_count(&caps(2, 0)), 3);
    assert_eq!(choose_image_count(&caps(2, 8)), 3);
    assert_eq!(choose_image_count(&caps(3, 3)), 3);
    assert_eq!(choose_image_count(&caps(1, 2)), 2);
}

fn objects(n: u64) -> SwapchainObjects {
    SwapchainObjects {
        images: (0..n).map(|i| 10 + i).collect(),
        views: (0..n).map(|i| 20 + i).collect(),
        framebuffers: (0..n).map(|i| 30 + i).collect(),
        command_buffers: (0..n).map(|i| 40 + i).collect(),
        uniform_buffers: (0..n).map(|i| 50 + i).collect(),
        uniform_memories: (0..n).map(|i| 60 + i).collect(),
        descriptor_sets: (0..n).map(|i| 70 + i).collect(),
    }
}

#[test]
fn rebuilt_objects_give_one_record_per_image() {
    for n in [2u64, 3, 5] {
        let images = objects(n).into_images().unwrap();
        assert_eq!(images.len() as u64, n);
        assert_eq!(
            images[1],
            PresentableImage {
                image: 11,
                view: 21,
                framebuffer: 31,
                command_buffer: 41,
                uniform_buffer: 51,
                uniform_memory: 61,
                descriptor_set: 71,
            }
        );
    }
    assert_eq!(objects(0).into_images().unwrap().len(), 0);
}

#[test]
fn mismatched_object_counts_are_refused() {
    let mut o = objects(3);
    o.command_buffers.pop();
    assert_eq!(
        o.into_images(),
        Err(ImageCountMismatch {
            images: 3,
            views: 3,
            framebuffers: 3,
            command_buffers: 2,
            uniform_buffers: 3,
            uniform_memories: 3,
            descriptor_sets: 3,
        })
    );
}

#[test]
fn rebuild_goes_swapchain_first_command_buffers_last() {
    let steps = rebuild_steps();
    assert_eq!(steps.len(), 10);
    assert_eq!(steps[0], BuildStep::Swapchain);
    assert_eq!(steps[9], BuildStep::CommandBuffers);
    let at = |s: BuildStep| steps.iter().position(|x| *x == s).unwrap();
    assert!(at(BuildStep::ImageViews) < at(BuildStep::Framebuffers));
    assert!(at(BuildStep::DepthBuffer) < at(BuildStep::Framebuffers));
    assert!(at(BuildStep::UniformBuffers) < at(BuildStep::DescriptorSets));
    assert!(at(BuildStep::DescriptorPool) < at(BuildStep::DescriptorSets));
}
