use redefyning::swapchain::{
    choose_swapchain_extent, choose_swapchain_present_mode, choose_swapchain_surface_format,
    create_swapchain, offers_mode, present_modes_from_raw, CompositeAlpha, Extent, ImageUsage,
    PresentMode, SharingMode, SizeEvent, SurfaceCapabilities, SurfaceFormat, SwapchainRequest,
    COLOR_SPACE_SRGB_NONLINEAR, FORMAT_R8G8B8A8_SRGB,
};
use redefyning::swapchain::PresentMode::{Fifo, FifoRelaxed, Immediate, Mailbox};
use redefyning::SetupError;

fn format(f: ash::vk::Format) -> SurfaceFormat {
    SurfaceFormat {
        format: f.as_raw(),
        color_space: ash::vk::ColorSpaceKHR::SRGB_NONLINEAR.as_raw(),
    }
}

fn capabilities(min: u32, max: u32, extent: Extent) -> SurfaceCapabilities {
    SurfaceCapabilities {
        min_image_count: min,
        max_image_count: max,
        current_extent: extent,
        current_transform: ash::vk::SurfaceTransformFlagsKHR::IDENTITY.as_raw(),
    }
}

const UNDEFINED: Extent = Extent { width: u32::MAX, height: u32::MAX };

#[test]
fn srgb_format_is_chosen_regardless_of_order() {
    let bgra = format(ash::vk::Format::B8G8R8A8_UNORM);
    let srgb = format(ash::vk::Format::R8G8B8A8_SRGB);
    assert_eq!(choose_swapchain_surface_format(&vec![bgra, srgb]), srgb);
    assert_eq!(choose_swapchain_surface_format(&vec![srgb, bgra]), srgb);
    assert_eq!(choose_swapchain_surface_format(&vec![bgra, bgra, srgb, bgra]), srgb);
}

#[test]
fn format_falls_back_to_first_entry() {
    let bgra = format(ash::vk::Format::B8G8R8A8_UNORM);
    let rgba = format(ash::vk::Format::R8G8B8A8_UNORM);
    assert_eq!(choose_swapchain_surface_format(&vec![bgra, rgba]), bgra);
    assert_eq!(choose_swapchain_surface_format(&vec![rgba, bgra]), rgba);
    assert_eq!(choose_swapchain_surface_format(&vec![rgba]), rgba);
}

#[test]
fn srgb_format_in_another_color_space_is_not_preferred() {
    let bgra = format(ash::vk::Format::B8G8R8A8_UNORM);
    let odd = SurfaceFormat { format: ash::vk::Format::R8G8B8A8_SRGB.as_raw(), color_space: 1000104001 };
    assert!(!odd.is_preferred());
    assert_eq!(choose_swapchain_surface_format(&vec![bgra, odd]), bgra);
}

#[test]
fn preferred_format_has_the_numbers_of_the_api() {
    assert_eq!(FORMAT_R8G8B8A8_SRGB, ash::vk::Format::R8G8B8A8_SRGB.as_raw());
    assert_eq!(COLOR_SPACE_SRGB_NONLINEAR, ash::vk::ColorSpaceKHR::SRGB_NONLINEAR.as_raw());
    assert!(format(ash::vk::Format::R8G8B8A8_SRGB).is_preferred());
    assert!(!format(ash::vk::Format::B8G8R8A8_SRGB).is_preferred());
    assert!(!format(ash::vk::Format::B8G8R8A8_UNORM).is_preferred());
}

#[test]
fn fifo_is_chosen_over_immediate() {
    let modes = vec![PresentMode::Fifo, PresentMode::Immediate];
    assert_eq!(choose_swapchain_present_mode(&modes), Some(PresentMode::Fifo));
    let modes = vec![PresentMode::Immediate, PresentMode::Fifo];
    assert_eq!(choose_swapchain_present_mode(&modes), Some(PresentMode::Fifo));
}

#[test]
fn present_modes_follow_the_preference_order() {
    assert_eq!(choose_swapchain_present_mode(&vec![Immediate, FifoRelaxed, Fifo, Mailbox]), Some(Mailbox));
    assert_eq!(choose_swapchain_present_mode(&vec![Immediate, FifoRelaxed, Fifo]), Some(Fifo));
    assert_eq!(choose_swapchain_present_mode(&vec![Immediate, FifoRelaxed]), Some(FifoRelaxed));
    assert_eq!(choose_swapchain_present_mode(&vec![Immediate]), Some(Immediate));
    assert_eq!(choose_swapchain_present_mode(&vec![FifoRelaxed, Immediate, Immediate]), Some(FifoRelaxed));
}

#[test]
fn no_present_mode_leaves_nothing_to_choose() {
    assert_eq!(choose_swapchain_present_mode(&Vec::new()), None);
}

#[test]
fn offers_mode_looks_through_the_list() {
    let modes = vec![PresentMode::Fifo, PresentMode::Immediate];
    assert!(offers_mode(&modes, PresentMode::Immediate));
    assert!(!offers_mode(&modes, PresentMode::Mailbox));
    assert!(!offers_mode(&Vec::new(), PresentMode::Fifo));
}

#[test]
fn present_modes_are_read_from_raw_numbers() {
    assert_eq!(PresentMode::from_raw(ash::vk::PresentModeKHR::IMMEDIATE.as_raw()), Some(PresentMode::Immediate));
    assert_eq!(PresentMode::from_raw(ash::vk::PresentModeKHR::MAILBOX.as_raw()), Some(PresentMode::Mailbox));
    assert_eq!(PresentMode::from_raw(ash::vk::PresentModeKHR::FIFO.as_raw()), Some(PresentMode::Fifo));
    assert_eq!(PresentMode::from_raw(ash::vk::PresentModeKHR::FIFO_RELAXED.as_raw()), Some(PresentMode::FifoRelaxed));
    assert_eq!(PresentMode::from_raw(ash::vk::PresentModeKHR::SHARED_DEMAND_REFRESH.as_raw()), None);
    assert_eq!(PresentMode::from_raw(-1), None);
    assert_eq!(PresentMode::from_raw(4), None);
}

#[test]
fn raw_number_of_a_present_mode_round_trips() {
    for mode in [PresentMode::Immediate, PresentMode::Mailbox, PresentMode::Fifo, PresentMode::FifoRelaxed] {
        assert_eq!(PresentMode::from_raw(mode.raw()), Some(mode));
    }
    assert_eq!(PresentMode::Immediate.raw(), 0);
    assert_eq!(PresentMode::Mailbox.raw(), 1);
    assert_eq!(PresentMode::Fifo.raw(), 2);
    assert_eq!(PresentMode::FifoRelaxed.raw(), 3);
}

#[test]
fn unknown_raw_present_modes_are_left_out() {
    let raws: Vec<i32> = vec![1000111000, 2, 7, 0, 2];
    assert_eq!(
        present_modes_from_raw(&raws),
        vec![PresentMode::Fifo, PresentMode::Immediate, PresentMode::Fifo]
    );
    assert_eq!(present_modes_from_raw(&Vec::new()), Vec::new());
}

#[test]
fn choices_below_mailbox_carry_a_warning() {
    assert_eq!(PresentMode::Mailbox.warning(), None);
    assert_eq!(PresentMode::Fifo.warning(), Some("mailbox presentation is unavailable: vertical sync is on"));
    assert!(PresentMode::FifoRelaxed.warning().unwrap().contains("late frame may tear"));
    assert!(PresentMode::Immediate.warning().unwrap().contains("frames will tear"));
}

#[test]
fn undefined_extent_takes_the_size_event() {
    let caps = capabilities(2, 8, UNDEFINED);
    assert!(caps.needs_size_event());
    let size = SizeEvent { width: 1280, height: 720 };
    assert_eq!(choose_swapchain_extent(&caps, Some(size)), Ok(Extent { width: 1280, height: 720 }));
}

#[test]
fn defined_extent_ignores_size_events() {
    let caps = capabilities(2, 8, Extent { width: 640, height: 480 });
    assert!(!caps.needs_size_event());
    let size = SizeEvent { width: 1280, height: 720 };
    assert_eq!(choose_swapchain_extent(&caps, Some(size)), Ok(Extent { width: 640, height: 480 }));
    assert_eq!(choose_swapchain_extent(&caps, None), Ok(Extent { width: 640, height: 480 }));
}

#[test]
fn extent_is_undefined_only_with_both_sides_at_maximum() {
    assert!(UNDEFINED.is_undefined());
    assert!(!Extent { width: u32::MAX, height: 480 }.is_undefined());
    assert!(!Extent { width: 640, height: u32::MAX }.is_undefined());
    assert!(!Extent { width: 0, height: 0 }.is_undefined());
    let caps = capabilities(2, 8, Extent { width: u32::MAX, height: 480 });
    assert_eq!(choose_swapchain_extent(&caps, None), Ok(Extent { width: u32::MAX, height: 480 }));
}

#[test]
fn undefined_extent_without_size_event_breaks_the_handshake() {
    let caps = capabilities(2, 8, UNDEFINED);
    assert_eq!(choose_swapchain_extent(&caps, None), Err(SetupError::HandshakeBroken));
}

#[test]
fn image_count_is_three_or_the_minimum_clamped_to_the_maximum() {
    let e = Extent { width: 1, height: 1 };
    assert_eq!(capabilities(2, 0, e).image_count(), 3);
    assert_eq!(capabilities(2, 8, e).image_count(), 3);
    assert_eq!(capabilities(2, 3, e).image_count(), 3);
    assert_eq!(capabilities(2, 2, e).image_count(), 2);
    assert_eq!(capabilities(1, 1, e).image_count(), 1);
    assert_eq!(capabilities(5, 8, e).image_count(), 5);
    assert_eq!(capabilities(5, 0, e).image_count(), 5);
    assert_eq!(capabilities(3, 3, e).image_count(), 3);
    assert_eq!(capabilities(0, 0, e).image_count(), 3);
    assert_eq!(capabilities(u32::MAX, 0, e).image_count(), u32::MAX);
}

#[test]
fn swapchain_request_has_the_fixed_parameters() {
    let caps = capabilities(2, 8, UNDEFINED);
    let bgra = format(ash::vk::Format::B8G8R8A8_UNORM);
    let srgb = format(ash::vk::Format::R8G8B8A8_SRGB);
    let request = create_swapchain(
        &caps,
        &vec![bgra, srgb],
        &vec![PresentMode::Immediate, PresentMode::Fifo],
        Some(SizeEvent { width: 800, height: 600 }),
    );
    assert_eq!(
        request,
        Ok(SwapchainRequest {
            min_image_count: 3,
            format: srgb,
            extent: Extent { width: 800, height: 600 },
            array_layers: 1,
            usage: ImageUsage::ColorAttachment,
            sharing: SharingMode::Exclusive,
            pre_transform: 1,
            composite_alpha: CompositeAlpha::Opaque,
            present_mode: PresentMode::Fifo,
            clipped: true,
            replaces_previous: false,
        })
    );
}

#[test]
fn swapchain_without_present_modes_fails() {
    let caps = capabilities(2, 8, Extent { width: 640, height: 480 });
    let srgb = format(ash::vk::Format::R8G8B8A8_SRGB);
    assert_eq!(
        create_swapchain(&caps, &vec![srgb], &Vec::new(), None),
        Err(SetupError::SwapchainCreationFailure)
    );
    let undefined = capabilities(2, 8, UNDEFINED);
    assert_eq!(
        create_swapchain(&undefined, &vec![srgb], &Vec::new(), None),
        Err(SetupError::SwapchainCreationFailure)
    );
}

#[test]
fn swapchain_without_awaited_size_breaks_the_handshake() {
    let caps = capabilities(2, 8, UNDEFINED);
    let srgb = format(ash::vk::Format::R8G8B8A8_SRGB);
    assert_eq!(
        create_swapchain(&caps, &vec![srgb], &vec![PresentMode::Mailbox], None),
        Err(SetupError::HandshakeBroken)
    );
}
