//! Image upload: layout transitions with their access masks, the mip-level
//! count, and the one-shot transfer that moves staged pixels into a
//! device-local image.

use vstd::prelude::*;

use vstd::arithmetic::div_mod::{
    lemma_div_denominator, lemma_fundamental_div_mod, lemma_mod_bound,
};
use vstd::arithmetic::power2::{lemma2_to64, lemma_pow2_pos, lemma_pow2_unfold, pow2};

use crate::surface::{spec_max_u32, Extent3D};

verus! {

/// The layouts this renderer moves images through. Only these take part in
/// its transitions; anything else is outside the design.
#[derive(Clone, Copy, PartialEq, Eq, Structural, Debug)]
pub enum ImageLayout {
    /// The layout a freshly created image starts in; its contents are
    /// undefined.
    Undefined,
    /// Optimal as the destination of a transfer.
    TransferDstOptimal,
    /// Optimal for sampling from a shader.
    ShaderReadOnlyOptimal,
    /// Writable from a compute pass.
    General,
}

/// No access.
pub const ACCESS_NONE: u32 = 0;

/// Raw API bit for shader reads.
pub const ACCESS_SHADER_READ: u32 = 0x20;

/// Raw API bit for transfer writes.
pub const ACCESS_TRANSFER_WRITE: u32 = 0x1000;

/// The layouts a transition may leave from.
pub open spec fn supported_src_layout(l: ImageLayout) -> bool {
    l == ImageLayout::ShaderReadOnlyOptimal || l == ImageLayout::TransferDstOptimal || l
        == ImageLayout::Undefined
}

/// The layouts a transition may move to.
pub open spec fn supported_dst_layout(l: ImageLayout) -> bool {
    l == ImageLayout::TransferDstOptimal || l == ImageLayout::ShaderReadOnlyOptimal
}

/// The access that must have completed before leaving a layout.
pub open spec fn spec_src_access(l: ImageLayout) -> u32 {
    match l {
        ImageLayout::ShaderReadOnlyOptimal => ACCESS_SHADER_READ,
        ImageLayout::TransferDstOptimal => ACCESS_TRANSFER_WRITE,
        _ => ACCESS_NONE,
    }
}

/// The access made visible after entering a layout.
pub open spec fn spec_dst_access(l: ImageLayout) -> u32 {
    match l {
        ImageLayout::TransferDstOptimal => ACCESS_TRANSFER_WRITE,
        _ => ACCESS_SHADER_READ,
    }
}

/// The source and destination access masks of the memory barrier that carries
/// an image from `old_layout` to `new_layout`.
pub fn barrier_access_masks(old_layout: ImageLayout, new_layout: ImageLayout) -> (r: (u32, u32))
    requires
        supported_src_layout(old_layout),
        supported_dst_layout(new_layout),
    ensures
        r.0 == spec_src_access(old_layout),
        r.1 == spec_dst_access(new_layout),
{
    let src = match old_layout {
        ImageLayout::ShaderReadOnlyOptimal => ACCESS_SHADER_READ,
        ImageLayout::TransferDstOptimal => ACCESS_TRANSFER_WRITE,
        _ => ACCESS_NONE,
    };
    let dst = match new_layout {
        ImageLayout::TransferDstOptimal => ACCESS_TRANSFER_WRITE,
        _ => ACCESS_SHADER_READ,
    };
    (src, dst)
}

/// The largest of an extent's three dimensions.
pub open spec fn spec_max_dim(extent: Extent3D) -> u32 {
    spec_max_u32(extent.width, spec_max_u32(extent.height, extent.depth))
}

/// How many mip levels a full chain for `extent` has: the bit length of the
/// largest dimension, so that level counts satisfy
/// `2^(r-1) <= max_dim < 2^r`. A degenerate all-zero extent has none.
pub fn max_mipmaps(extent: Extent3D) -> (r: u32)
    ensures
        spec_max_dim(extent) == 0 ==> r == 0,
        spec_max_dim(extent) > 0 ==> 1 <= r <= 32 && pow2((r - 1) as nat) <= spec_max_dim(extent)
            < pow2(r as nat),
{
    let hd = if extent.height > extent.depth {
        extent.height
    } else {
        extent.depth
    };
    let m = if extent.width > hd {
        extent.width
    } else {
        hd
    };
    let mut n = m;
    let mut r: u32 = 0;
    proof {
        lemma2_to64();
    }
    while n > 0
        invariant
            n == m as nat / pow2(r as nat),
            r > 0 ==> pow2((r - 1) as nat) <= m,
            r <= 32,
        decreases n,
    {
        proof {
            lemma_pow2_pos(r as nat);
            lemma_fundamental_div_mod(m as int, pow2(r as nat) as int);
            lemma_mod_bound(m as int, pow2(r as nat) as int);
            // n >= 1, so pow2(r) * n >= pow2(r) and pow2(r) <= m.
            assert(pow2(r as nat) as int * (n as int) >= pow2(r as nat) as int * 1) by (nonlinear_arith)
                requires
                    n >= 1,
                    pow2(r as nat) > 0,
            ;
            assert(pow2(r as nat) <= m);
            if r == 32 {
                lemma2_to64();
                assert(false);
            }
            lemma_pow2_unfold((r + 1) as nat);
            lemma_div_denominator(m as int, pow2(r as nat) as int, 2);
            assert(m as nat / pow2((r + 1) as nat) == n as nat / 2);
        }
        n = n / 2;
        r = r + 1;
    }
    proof {
        lemma_pow2_pos(r as nat);
        lemma_fundamental_div_mod(m as int, pow2(r as nat) as int);
        lemma_mod_bound(m as int, pow2(r as nat) as int);
        assert(m < pow2(r as nat));
    }
    r
}

/// One step of the one-shot upload that fills a device-local image from a
/// staging buffer, synchronised by a fresh fence.
#[derive(Clone, Copy, PartialEq, Eq, Structural, Debug)]
pub enum ImageUploadStep {
    /// Create the image with the given mip-level count; only level zero is
    /// filled by the copy.
    CreateImage { mip_levels: u32 },
    CreateFence,
    BeginCommands,
    Transition { from: ImageLayout, to: ImageLayout },
    CopyBufferToImage,
    EndCommands,
    SubmitWithFence,
    /// Create the sampled view over all mip levels.
    CreateView { mip_levels: u32 },
    WaitFence,
    DestroyFence,
    FreeCommandBuffer,
}

/// The steps of one image upload, in order. The copy is bracketed by the two
/// layout transitions, and the fence is waited on before it and the one-shot
/// command buffer are destroyed.
pub open spec fn spec_image_upload_plan(mip_levels: u32) -> Seq<ImageUploadStep> {
    seq![
        ImageUploadStep::CreateImage { mip_levels },
        ImageUploadStep::CreateFence,
        ImageUploadStep::BeginCommands,
        ImageUploadStep::Transition {
            from: ImageLayout::Undefined,
            to: ImageLayout::TransferDstOptimal,
        },
        ImageUploadStep::CopyBufferToImage,
        ImageUploadStep::Transition {
            from: ImageLayout::TransferDstOptimal,
            to: ImageLayout::ShaderReadOnlyOptimal,
        },
        ImageUploadStep::EndCommands,
        ImageUploadStep::SubmitWithFence,
        ImageUploadStep::CreateView { mip_levels },
        ImageUploadStep::WaitFence,
        ImageUploadStep::DestroyFence,
        ImageUploadStep::FreeCommandBuffer,
    ]
}

/// Plan the upload of an image of size `extent`: a full mip chain when
/// `mipmaps` is asked for, a single level otherwise.
pub fn image_upload_plan(extent: Extent3D, mipmaps: bool) -> (p: Vec<ImageUploadStep>)
    ensures
        ({
            let levels = p@[0]->CreateImage_mip_levels;
            &&& p@ == spec_image_upload_plan(levels)
            &&& !mipmaps ==> levels == 1
            &&& (mipmaps && spec_max_dim(extent) > 0) ==> 1 <= levels <= 32 && pow2(
                (levels - 1) as nat,
            ) <= spec_max_dim(extent) < pow2(levels as nat)
        }),
{
    let mip_levels: u32 = if mipmaps {
        max_mipmaps(extent)
    } else {
        1
    };
    let mut p: Vec<ImageUploadStep> = Vec::new();
    p.push(ImageUploadStep::CreateImage { mip_levels });
    p.push(ImageUploadStep::CreateFence);
    p.push(ImageUploadStep::BeginCommands);
    p.push(
        ImageUploadStep::Transition {
            from: ImageLayout::Undefined,
            to: ImageLayout::TransferDstOptimal,
        },
    );
    p.push(ImageUploadStep::CopyBufferToImage);
    p.push(
        ImageUploadStep::Transition {
            from: ImageLayout::TransferDstOptimal,
            to: ImageLayout::ShaderReadOnlyOptimal,
        },
    );
    p.push(ImageUploadStep::EndCommands);
    p.push(ImageUploadStep::SubmitWithFence);
    p.push(ImageUploadStep::CreateView { mip_levels });
    p.push(ImageUploadStep::WaitFence);
    p.push(ImageUploadStep::DestroyFence);
    p.push(ImageUploadStep::FreeCommandBuffer);
    proof {
        assert(p@ =~= spec_image_upload_plan(mip_levels));
    }
    p
}

/// Both transitions of an image upload use supported layouts, and the copy
/// sits strictly between them.
pub proof fn lemma_image_upload_transitions(mip_levels: u32)
    ensures
        ({
            let p = spec_image_upload_plan(mip_levels);
            &&& p[3] matches ImageUploadStep::Transition { from, to } && supported_src_layout(from)
                && supported_dst_layout(to)
            &&& p[4] == ImageUploadStep::CopyBufferToImage
            &&& p[5] matches ImageUploadStep::Transition { from, to } && supported_src_layout(from)
                && supported_dst_layout(to)
        }),
{
}

} // verus!
