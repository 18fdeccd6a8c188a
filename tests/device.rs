use renderer::device::{
    check_physical_device, check_physical_device_extensions, get_max_msaa_samples,
    get_memory_type_index, pick_physical_device, DeviceReport, NoSuitableMemoryType, QueueFamily,
    QueueFamilyIndices, SuitabilityError, QUEUE_GRAPHICS,
};

fn family(flags: u32, present_support: bool) -> QueueFamily {
    QueueFamily { flags, present_support }
}

fn swapchain_ext() -> Vec<u8> {
    b"VK_KHR_swapchain".to_vec()
}

fn good_report() -> DeviceReport {
    DeviceReport {
        queue_families: vec![family(4, false), family(QUEUE_GRAPHICS | 2, true)],
        surface_format_count: 2,
        present_mode_count: 1,
        extensions: vec![b"VK_KHR_maintenance1".to_vec(), swapchain_ext()],
        sampler_anisotropy: true,
    }
}

#[test]
fn queue_families_are_the_first_matching_ones() {
    let fams = vec![family(4, true), family(2, false), family(1, true), family(3, true)];
    assert_eq!(QueueFamilyIndices::get(&fams), Ok(QueueFamilyIndices { graphics: 2, present: 0 }));
}

#[test]
fn missing_queue_family_is_an_error() {
    let fams = vec![family(4, true), family(2, true)];
    assert_eq!(QueueFamilyIndices::get(&fams), Err(SuitabilityError::MissingQueueFamilies));
    let fams = vec![family(1, false)];
    assert_eq!(QueueFamilyIndices::get(&fams), Err(SuitabilityError::MissingQueueFamilies));
    assert_eq!(QueueFamilyIndices::get(&vec![]), Err(SuitabilityError::MissingQueueFamilies));
}

#[test]
fn extensions_must_all_be_present() {
    let available = vec![b"VK_A".to_vec(), swapchain_ext()];
    assert_eq!(check_physical_device_extensions(&available, &vec![swapchain_ext()]), Ok(()));
    assert_eq!(
        check_physical_device_extensions(&available, &vec![swapchain_ext(), b"VK_B".to_vec()]),
        Err(SuitabilityError::MissingExtensions)
    );
    assert_eq!(
        check_physical_device_extensions(&vec![b"VK_KHR_swapchai".to_vec()], &vec![swapchain_ext()]),
        Err(SuitabilityError::MissingExtensions)
    );
    assert_eq!(check_physical_device_extensions(&vec![], &vec![]), Ok(()));
}

#[test]
fn device_check_reports_the_first_failure() {
    let req = vec![swapchain_ext()];
    assert_eq!(check_physical_device(&good_report(), &req), Ok(()));

    let mut r = good_report();
    r.queue_families = vec![family(1, false)];
    r.surface_format_count = 0;
    assert_eq!(check_physical_device(&r, &req), Err(SuitabilityError::MissingQueueFamilies));

    let mut r = good_report();
    r.present_mode_count = 0;
    r.sampler_anisotropy = false;
    assert_eq!(check_physical_device(&r, &req), Err(SuitabilityError::InsufficientSwapchainSupport));

    let mut r = good_report();
    r.extensions.pop();
    assert_eq!(check_physical_device(&r, &req), Err(SuitabilityError::MissingExtensions));

    let mut r = good_report();
    r.sampler_anisotropy = false;
    assert_eq!(check_physical_device(&r, &req), Err(SuitabilityError::NoSamplerAnisotropy));
}

#[test]
fn first_suitable_device_is_picked() {
    let req = vec![swapchain_ext()];
    let mut bad = good_report();
    bad.sampler_anisotropy = false;
    let mut bad2 = good_report();
    bad2.surface_format_count = 0;
    let reports = vec![bad, good_report(), good_report()];
    assert_eq!(pick_physical_device(&reports, &req), Some(1));
    assert_eq!(pick_physical_device(&vec![bad2], &req), None);
    assert_eq!(pick_physical_device(&vec![], &req), None);
}

#[test]
fn msaa_samples_take_highest_common_count() {
    assert_eq!(get_max_msaa_samples(0b0111_1111, 0b0111_1111), 64);
    assert_eq!(get_max_msaa_samples(0b0001_1111, 0b0000_1111), 8);
    assert_eq!(get_max_msaa_samples(0b0001_0101, 0b0000_1011), 1);
    assert_eq!(get_max_msaa_samples(0b0000_0111, 0b0000_0110), 4);
    assert_eq!(get_max_msaa_samples(0, 0), 1);
}

#[test]
fn memory_type_is_first_allowed_with_all_properties() {
    let types = vec![0b001, 0b110, 0b111, 0b110];
    assert_eq!(get_memory_type_index(&types, 0b1111, 0b110), Ok(1));
    assert_eq!(get_memory_type_index(&types, 0b1101, 0b110), Ok(2));
    assert_eq!(get_memory_type_index(&types, 0b1000, 0b110), Ok(3));
    assert_eq!(get_memory_type_index(&types, 0b0001, 0b110), Err(NoSuitableMemoryType));
    assert_eq!(get_memory_type_index(&vec![], 0xFFFF_FFFF, 0), Err(NoSuitableMemoryType));
}
