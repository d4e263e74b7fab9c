//! Staged uploads. CPU-resident bytes reach device-local memory through a
//! host-visible staging buffer and a one-shot transfer command, synchronised
//! by a fence; the staging buffer is freed only after the fence has been
//! waited on. The device-local contents are modelled byte for byte, so the
//! round trip from upload to readback is exact.

use vstd::prelude::*;

verus! {

/// An immutable device-local buffer, modelled by the bytes it holds. Once
/// created its contents are never mutated from the CPU side.
pub struct GpuBuffer {
    bytes: Vec<u8>,
}

impl View for GpuBuffer {
    type V = Seq<u8>;

    closed spec fn view(&self) -> Seq<u8> {
        self.bytes@
    }
}

impl GpuBuffer {
    /// The buffer's size in bytes.
    pub fn len(&self) -> (r: usize)
        ensures
            r == self@.len(),
    {
        self.bytes.len()
    }
}

/// Upload `data`: copy it into a staging buffer, then transfer the staging
/// bytes into the device-local destination. The destination holds exactly the
/// source bytes.
pub fn upload(data: &Vec<u8>) -> (b: GpuBuffer)
    ensures
        b@ == data@,
{
    let mut staging: Vec<u8> = Vec::new();
    let mut i: usize = 0;
    while i < data.len()
        invariant
            0 <= i <= data@.len(),
            staging@ == data@.take(i as int),
        decreases data@.len() - i,
    {
        staging.push(data[i]);
        proof {
            assert(staging@ =~= data@.take(i + 1));
        }
        i += 1;
    }
    let mut device: Vec<u8> = Vec::new();
    let mut j: usize = 0;
    while j < staging.len()
        invariant
            0 <= j <= staging@.len(),
            device@ == staging@.take(j as int),
        decreases staging@.len() - j,
    {
        device.push(staging[j]);
        proof {
            assert(device@ =~= staging@.take(j + 1));
        }
        j += 1;
    }
    proof {
        assert(staging@.take(staging@.len() as int) =~= staging@);
        assert(data@.take(data@.len() as int) =~= data@);
    }
    GpuBuffer { bytes: device }
}

/// Read a device-local buffer back into CPU memory, byte for byte.
pub fn download(b: &GpuBuffer) -> (d: Vec<u8>)
    ensures
        d@ == b@,
{
    let mut d: Vec<u8> = Vec::new();
    let mut i: usize = 0;
    while i < b.bytes.len()
        invariant
            0 <= i <= b.bytes@.len(),
            d@ == b.bytes@.take(i as int),
        decreases b.bytes@.len() - i,
    {
        d.push(b.bytes[i]);
        proof {
            assert(d@ =~= b.bytes@.take(i + 1));
        }
        i += 1;
    }
    proof {
        assert(b.bytes@.take(b.bytes@.len() as int) =~= b.bytes@);
    }
    d
}

/// The upload round trip: whatever `upload` wrote, `download` reads back
/// unchanged. `uploaded` stands for the buffer `upload` returned on `data`
/// (so it holds `data` exactly), and `read_back` for what `download` returned
/// on that buffer.
pub proof fn lemma_upload_round_trip(data: Seq<u8>, uploaded: GpuBuffer, read_back: Seq<u8>)
    requires
        uploaded@ == data,
        read_back == uploaded@,
    ensures
        read_back == data,
{
}

/// The size in bytes of a buffer of `len` elements of `elem_size` bytes each.
pub fn buffer_size(elem_size: u64, len: u64) -> (r: u64)
    requires
        elem_size * len <= 0xffff_ffff_ffff_ffff,
    ensures
        r == elem_size * len,
{
    elem_size * len
}

/// One step of the one-shot transfer that fills a device-local buffer from a
/// staging buffer.
#[derive(Clone, Copy, PartialEq, Eq, Structural, Debug)]
pub enum BufferUploadStep {
    /// Allocate the host-visible staging buffer, sized to the data.
    CreateStaging,
    /// Copy the source bytes into the mapped staging buffer, then unmap it.
    FillStaging,
    /// Allocate the device-local destination with the requested usage plus
    /// transfer-destination.
    CreateDestination,
    CreateFence,
    RecordCopy,
    SubmitWithFence,
    WaitFence,
    DestroyFence,
    FreeCommandBuffer,
    DestroyStaging,
}

/// The steps of one buffer upload, in order.
pub open spec fn spec_buffer_upload_plan() -> Seq<BufferUploadStep> {
    seq![
        BufferUploadStep::CreateStaging,
        BufferUploadStep::FillStaging,
        BufferUploadStep::CreateDestination,
        BufferUploadStep::CreateFence,
        BufferUploadStep::RecordCopy,
        BufferUploadStep::SubmitWithFence,
        BufferUploadStep::WaitFence,
        BufferUploadStep::DestroyFence,
        BufferUploadStep::FreeCommandBuffer,
        BufferUploadStep::DestroyStaging,
    ]
}

pub fn buffer_upload_plan() -> (p: Vec<BufferUploadStep>)
    ensures
        p@ == spec_buffer_upload_plan(),
{
    let mut p: Vec<BufferUploadStep> = Vec::new();
    p.push(BufferUploadStep::CreateStaging);
    p.push(BufferUploadStep::FillStaging);
    p.push(BufferUploadStep::CreateDestination);
    p.push(BufferUploadStep::CreateFence);
    p.push(BufferUploadStep::RecordCopy);
    p.push(BufferUploadStep::SubmitWithFence);
    p.push(BufferUploadStep::WaitFence);
    p.push(BufferUploadStep::DestroyFence);
    p.push(BufferUploadStep::FreeCommandBuffer);
    p.push(BufferUploadStep::DestroyStaging);
    proof {
        assert(p@ =~= spec_buffer_upload_plan());
    }
    p
}

/// The staging buffer outlives the transfer: it is destroyed only after the
/// wait on the transfer's fence, never while the GPU may still read it.
pub proof fn lemma_staging_destroyed_after_wait()
    ensures
        ({
            let p = spec_buffer_upload_plan();
            exists|w: int, d: int|
                0 <= w < d < p.len() && p[w] == BufferUploadStep::WaitFence && p[d]
                    == BufferUploadStep::DestroyStaging
        }),
        forall|i: int, j: int|
            0 <= i < spec_buffer_upload_plan().len() && 0 <= j < spec_buffer_upload_plan().len()
                && spec_buffer_upload_plan()[i] == BufferUploadStep::WaitFence
                && spec_buffer_upload_plan()[j] == BufferUploadStep::DestroyStaging ==> i < j,
{
    let p = spec_buffer_upload_plan();
    assert(p[6] == BufferUploadStep::WaitFence && p[9] == BufferUploadStep::DestroyStaging);
}

} // verus!
