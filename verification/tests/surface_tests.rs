use gfx_frame::surface::{
    choose_present_mode, choose_surface_format, select_extent, swapchain_image_count, Extent2D,
    PresentMode, SurfaceCapabilities, SurfaceFormat, COLOR_SPACE_SRGB_NONLINEAR, EXTENT_UNDEFINED,
    FORMAT_B8G8R8A8_UNORM,
};
use gfx_frame::swapchain::{plan_swapchain, sharing_mode, SharingMode};

fn caps_with_range(min: (u32, u32), max: (u32, u32)) -> SurfaceCapabilities {
    SurfaceCapabilities {
        min_image_count: 2,
        current_extent: Extent2D { width: EXTENT_UNDEFINED, height: 0 },
        min_image_extent: Extent2D { width: min.0, height: min.1 },
        max_image_extent: Extent2D { width: max.0, height: max.1 },
    }
}

#[test]
fn fixed_extent_is_taken_as_is() {
    let caps = SurfaceCapabilities {
        min_image_count: 2,
        current_extent: Extent2D { width: 1440, height: 810 },
        min_image_extent: Extent2D { width: 1, height: 1 },
        max_image_extent: Extent2D { width: 4096, height: 4096 },
    };
    let e = select_extent(&caps, Extent2D { width: 800, height: 600 });
    assert_eq!(e, Extent2D { width: 1440, height: 810 });
}

#[test]
fn window_extent_is_clamped() {
    let caps = caps_with_range((64, 64), (1024, 1024));
    let e = select_extent(&caps, Extent2D { width: 8000, height: 20 });
    assert_eq!(e, Extent2D { width: 1024, height: 64 });
}

#[test]
fn resize_from_1440x810_to_800x600() {
    let caps = caps_with_range((1, 1), (4096, 4096));
    let before = select_extent(&caps, Extent2D { width: 1440, height: 810 });
    assert_eq!(before, Extent2D { width: 1440, height: 810 });
    let after = select_extent(&caps, Extent2D { width: 800, height: 600 });
    assert_eq!(after, Extent2D { width: 800, height: 600 });
}

#[test]
fn mailbox_beats_fifo() {
    let modes = vec![PresentMode::Fifo, PresentMode::Mailbox];
    assert_eq!(choose_present_mode(&modes), PresentMode::Mailbox);
}

#[test]
fn fifo_alone_is_kept() {
    let modes = vec![PresentMode::Fifo];
    assert_eq!(choose_present_mode(&modes), PresentMode::Fifo);
}

#[test]
fn preference_order_over_all_modes() {
    let modes = vec![
        PresentMode::Other(1000),
        PresentMode::Fifo,
        PresentMode::FifoRelaxed,
        PresentMode::Immediate,
        PresentMode::Mailbox,
    ];
    assert_eq!(choose_present_mode(&modes), PresentMode::Mailbox);
    let modes = vec![PresentMode::Other(7), PresentMode::Fifo, PresentMode::FifoRelaxed];
    assert_eq!(choose_present_mode(&modes), PresentMode::FifoRelaxed);
}

#[test]
fn first_of_equal_rank_wins() {
    let modes = vec![PresentMode::Other(3), PresentMode::Other(9)];
    assert_eq!(choose_present_mode(&modes), PresentMode::Other(3));
}

#[test]
fn preferred_format_is_chosen() {
    let preferred = SurfaceFormat {
        format: FORMAT_B8G8R8A8_UNORM,
        color_space: COLOR_SPACE_SRGB_NONLINEAR,
    };
    let other = SurfaceFormat { format: 37, color_space: 0 };
    let formats = vec![other, preferred, other];
    assert_eq!(choose_surface_format(&formats), preferred);
}

#[test]
fn without_preferred_format_the_last_is_taken() {
    let a = SurfaceFormat { format: 37, color_space: 0 };
    let b = SurfaceFormat { format: 50, color_space: 1 };
    let formats = vec![a, b];
    assert_eq!(choose_surface_format(&formats), b);
}

#[test]
fn image_count_is_one_over_minimum() {
    let caps = caps_with_range((1, 1), (4096, 4096));
    assert_eq!(swapchain_image_count(&caps), 3);
}

#[test]
fn recreate_with_unchanged_surface_repeats_the_config() {
    let caps = caps_with_range((1, 1), (4096, 4096));
    let formats = vec![SurfaceFormat {
        format: FORMAT_B8G8R8A8_UNORM,
        color_space: COLOR_SPACE_SRGB_NONLINEAR,
    }];
    let modes = vec![PresentMode::Fifo, PresentMode::Mailbox];
    let window = Extent2D { width: 800, height: 600 };
    let first = plan_swapchain(&caps, &formats, &modes, window);
    let second = plan_swapchain(&caps, &formats, &modes, window);
    assert_eq!(first, second);
    assert_eq!(first.image_count, 3);
    assert_eq!(first.extent, Extent2D { width: 800, height: 600 });
    assert_eq!(first.present_mode, PresentMode::Mailbox);
}

#[test]
fn sharing_is_exclusive_for_one_family() {
    assert_eq!(sharing_mode(1), SharingMode::Exclusive);
    assert_eq!(sharing_mode(2), SharingMode::Concurrent);
}
