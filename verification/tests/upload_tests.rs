use gfx_frame::device::{queue_flags_graphics, select_graphics_queue_family};
use gfx_frame::fence::{fence_create_flags, poll_fence, FenceStatus, PollAction};
use gfx_frame::gui::{Color, Styles};
use gfx_frame::image::{
    barrier_access_masks, image_upload_plan, max_mipmaps, ImageLayout, ImageUploadStep,
    ACCESS_NONE, ACCESS_SHADER_READ, ACCESS_TRANSFER_WRITE,
};
use gfx_frame::sdf::{init_sdf, isqrt, sdf_voxel};
use gfx_frame::surface::Extent3D;
use gfx_frame::upload::{buffer_size, buffer_upload_plan, download, upload, BufferUploadStep};
use gfx_frame::Version;

#[test]
fn upload_round_trip_returns_the_bytes() {
    let data = vec![0u8, 1, 2, 3, 255, 128, 7];
    let buf = upload(&data);
    assert_eq!(buf.len(), data.len());
    assert_eq!(download(&buf), data);
}

#[test]
fn upload_round_trip_on_empty_data() {
    let data: Vec<u8> = Vec::new();
    assert_eq!(download(&upload(&data)), data);
}

#[test]
fn buffer_size_is_exact() {
    assert_eq!(buffer_size(8, 3), 24);
    assert_eq!(buffer_size(1, 0), 0);
}

#[test]
fn staging_is_destroyed_after_the_fence_wait() {
    let p = buffer_upload_plan();
    let wait = p.iter().position(|s| *s == BufferUploadStep::WaitFence).unwrap();
    let destroy = p.iter().position(|s| *s == BufferUploadStep::DestroyStaging).unwrap();
    assert!(wait < destroy);
    let submit = p.iter().position(|s| *s == BufferUploadStep::SubmitWithFence).unwrap();
    assert!(submit < wait);
}

#[test]
fn mip_levels_for_4096_512_1() {
    let e = Extent3D { width: 4096, height: 512, depth: 1 };
    assert_eq!(max_mipmaps(e), 13);
}

#[test]
fn mip_levels_edge_cases() {
    assert_eq!(max_mipmaps(Extent3D { width: 0, height: 0, depth: 0 }), 0);
    assert_eq!(max_mipmaps(Extent3D { width: 1, height: 1, depth: 1 }), 1);
    assert_eq!(max_mipmaps(Extent3D { width: 2, height: 1, depth: 1 }), 2);
    assert_eq!(max_mipmaps(Extent3D { width: 0xffff_ffff, height: 1, depth: 1 }), 32);
}

#[test]
fn image_upload_transitions_bracket_the_copy() {
    let p = image_upload_plan(Extent3D { width: 4096, height: 512, depth: 1 }, true);
    assert_eq!(p[0], ImageUploadStep::CreateImage { mip_levels: 13 });
    assert_eq!(
        p[3],
        ImageUploadStep::Transition {
            from: ImageLayout::Undefined,
            to: ImageLayout::TransferDstOptimal,
        }
    );
    assert_eq!(p[4], ImageUploadStep::CopyBufferToImage);
    assert_eq!(
        p[5],
        ImageUploadStep::Transition {
            from: ImageLayout::TransferDstOptimal,
            to: ImageLayout::ShaderReadOnlyOptimal,
        }
    );
    let wait = p.iter().position(|s| *s == ImageUploadStep::WaitFence).unwrap();
    let submit = p.iter().position(|s| *s == ImageUploadStep::SubmitWithFence).unwrap();
    assert!(submit < wait);
    let without = image_upload_plan(Extent3D { width: 256, height: 256, depth: 256 }, false);
    assert_eq!(without[0], ImageUploadStep::CreateImage { mip_levels: 1 });
}

#[test]
fn barrier_masks_match_the_layouts() {
    assert_eq!(
        barrier_access_masks(ImageLayout::Undefined, ImageLayout::TransferDstOptimal),
        (ACCESS_NONE, ACCESS_TRANSFER_WRITE)
    );
    assert_eq!(
        barrier_access_masks(ImageLayout::TransferDstOptimal, ImageLayout::ShaderReadOnlyOptimal),
        (ACCESS_TRANSFER_WRITE, ACCESS_SHADER_READ)
    );
    assert_eq!(
        barrier_access_masks(ImageLayout::ShaderReadOnlyOptimal, ImageLayout::TransferDstOptimal),
        (ACCESS_SHADER_READ, ACCESS_TRANSFER_WRITE)
    );
}

#[test]
fn fence_poll_decisions() {
    assert_eq!(poll_fence(FenceStatus::Signaled), PollAction::Complete);
    assert_eq!(poll_fence(FenceStatus::NotReady), PollAction::RegisterWake);
    assert_eq!(poll_fence(FenceStatus::Error(-4)), PollAction::Fail(-4));
    assert_eq!(fence_create_flags(true), 1);
    assert_eq!(fence_create_flags(false), 0);
}

#[test]
fn version_packs_fields() {
    let v = Version::new(1, 2, 3);
    assert_eq!(v.packed(), (1 << 22) | (2 << 12) | 3);
    assert_eq!(Version::new(0, 0, 0).packed(), 0);
}

#[test]
fn first_graphics_family_is_selected() {
    let families = vec![0b0010, 0b0101, 0b0001];
    assert_eq!(select_graphics_queue_family(&families), Some(1));
    assert!(queue_flags_graphics(0b0101));
    assert!(!queue_flags_graphics(0b0010));
    let none = vec![0b0010, 0b1000];
    assert_eq!(select_graphics_queue_family(&none), None);
}

#[test]
fn integer_square_roots() {
    assert_eq!(isqrt(0), 0);
    assert_eq!(isqrt(1), 1);
    assert_eq!(isqrt(3), 1);
    assert_eq!(isqrt(4), 2);
    assert_eq!(isqrt(24300), 155);
    assert_eq!(isqrt(0xffff_ffff), 65535);
}

#[test]
fn sdf_spot_values() {
    // On the ground plane's surface.
    assert_eq!(sdf_voxel(0, 0, 4), 23);
    // Below the plane the field saturates at the near end.
    assert_eq!(sdf_voxel(0, 0, 0), 0);
    // At a cube's centre, inside the surface.
    assert_eq!(sdf_voxel(22, 10, 34), 12);
    assert_eq!(sdf_voxel(10, 10, 34), 12);
    assert_eq!(sdf_voxel(14, 14, 34), 12);
    // Half a unit above that cube's top face.
    assert_eq!(sdf_voxel(22, 10, 36), 23);
    // Far from everything the field saturates at the far end.
    assert_eq!(sdf_voxel(63, 63, 1023), 255);
    assert_eq!(sdf_voxel(32, 32, 500), 255);
}

#[test]
fn init_sdf_fills_the_volume() {
    let mut voxels = vec![0u8; 64 * 64 * 1024];
    init_sdf(&mut voxels);
    assert_eq!(voxels.len(), 64 * 64 * 1024);
    assert_eq!(voxels[4 * 4096], 23);
    assert_eq!(voxels[34 * 4096 + 10 * 64 + 22], 12);
    assert_eq!(voxels[1023 * 4096 + 63 * 64 + 63], 255);
}

#[test]
fn styles_hold_a_background_color() {
    let mut s = Styles::new();
    assert_eq!(s.background_color(), None);
    let c = Color { r: 1, g: 2, b: 3, a: 255 };
    s.set_background_color(c);
    assert_eq!(s.background_color(), Some(c));
}
