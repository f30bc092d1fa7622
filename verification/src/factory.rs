//! Resource factory decisions: which memory class a buffer needs, and the
//! staging-upload policy that gets write-once data onto device-local memory.

use vstd::prelude::*;

use crate::device::get_memory_type_index;
use crate::error::EngineError;

verus! {

/// The memory property bit for device-local memory.
pub const MEMORY_DEVICE_LOCAL: u32 = 0x1;

/// The memory property bit for host-visible memory.
pub const MEMORY_HOST_VISIBLE: u32 = 0x2;

/// The memory property bit for host-coherent memory.
pub const MEMORY_HOST_COHERENT: u32 = 0x4;

/// The host-visibility class a buffer or image is allocated in.
#[derive(Clone, Copy, Debug, PartialEq, Eq, Structural)]
pub enum MemoryKind {
    /// Mappable by the host; written directly.
    HostVisible,
    /// Fast device memory the host cannot map; filled by staging upload.
    DeviceLocal,
}

/// The property flags each memory kind requires of its memory type.
pub open spec fn spec_required_flags(kind: MemoryKind) -> u32 {
    match kind {
        MemoryKind::HostVisible => MEMORY_HOST_VISIBLE | MEMORY_HOST_COHERENT,
        MemoryKind::DeviceLocal => MEMORY_DEVICE_LOCAL,
    }
}

/// The property flags to request for `kind`.
pub fn required_flags(kind: MemoryKind) -> (r: u32)
    ensures
        r == spec_required_flags(kind),
{
    match kind {
        MemoryKind::HostVisible => MEMORY_HOST_VISIBLE | MEMORY_HOST_COHERENT,
        MemoryKind::DeviceLocal => MEMORY_DEVICE_LOCAL,
    }
}

/// The allocation decision for one buffer: which memory type to bind.
#[derive(Clone, Copy, Debug, PartialEq, Eq, Structural)]
pub struct BufferPlan {
    /// The index of the chosen memory type.
    pub memory_type_index: usize,
    /// The property flags that type was required to contain.
    pub flags: u32,
}

/// Plans a buffer allocation: picks the first memory type admitted by
/// `type_bits` whose properties satisfy `kind`; fails when no compatible
/// memory type exists.
///
/// `memory_flags` holds the property flags of each memory type the device
/// offers, in type-index order.
pub fn plan_buffer(kind: MemoryKind, type_bits: u32, memory_flags: &Vec<u32>) -> (r: Result<
    BufferPlan,
    EngineError,
>)
    requires
        memory_flags@.len() <= 32,
    ensures
        match r {
            Ok(plan) => {
                &&& plan.flags == spec_required_flags(kind)
                &&& plan.memory_type_index < memory_flags@.len()
                &&& crate::device::memory_type_fits(
                    type_bits,
                    memory_flags@,
                    plan.flags,
                    plan.memory_type_index as int,
                )
                &&& forall|j: int|
                    0 <= j < plan.memory_type_index ==> !crate::device::memory_type_fits(
                        type_bits,
                        memory_flags@,
                        plan.flags,
                        j,
                    )
            },
            Err(e) => {
                &&& forall|j: int|
                    0 <= j < memory_flags@.len() ==> !crate::device::memory_type_fits(
                        type_bits,
                        memory_flags@,
                        spec_required_flags(kind),
                        j,
                    )
                &&& e == EngineError::UnsupportedMemoryType
            },
        },
{
    let flags = required_flags(kind);
    match get_memory_type_index(type_bits, flags, memory_flags) {
        Ok(i) => Ok(BufferPlan { memory_type_index: i, flags }),
        Err(e) => Err(e),
    }
}

/// One step of an upload.
#[derive(Clone, Copy, Debug, PartialEq, Eq, Structural)]
pub enum UploadStep {
    /// Map the destination, copy the bytes, unmap.
    MapCopyUnmap,
    /// Create a temporary host-visible staging buffer of `size` bytes.
    CreateStaging { size: u64 },
    /// Copy the bytes into the staging buffer.
    CopyIntoStaging,
    /// Issue a one-shot device-side transfer from staging to destination.
    IssueTransfer,
    /// Wait for the transfer to complete.
    WaitTransfer,
    /// Destroy the staging buffer.
    DestroyStaging,
    /// Transition the destination image from its undefined layout to the
    /// transfer-destination layout.
    TransitionToTransferDst,
    /// Copy the staged bytes into the image.
    CopyToImage,
    /// Transition the image to the shader-readable layout.
    TransitionToShaderRead,
}

/// The steps `plan_upload` hands out for each memory kind.
pub open spec fn spec_upload_steps(kind: MemoryKind, size: u64) -> Seq<UploadStep> {
    match kind {
        MemoryKind::HostVisible => seq![UploadStep::MapCopyUnmap],
        MemoryKind::DeviceLocal => seq![
            UploadStep::CreateStaging { size },
            UploadStep::CopyIntoStaging,
            UploadStep::IssueTransfer,
            UploadStep::WaitTransfer,
            UploadStep::DestroyStaging,
        ],
    }
}

/// The two-path upload policy: a host-visible destination is mapped and
/// written directly; a device-local destination goes through a temporary
/// staging buffer, a one-shot transfer, a wait, and the staging buffer's
/// destruction.
pub fn plan_upload(kind: MemoryKind, size: u64) -> (v: Vec<UploadStep>)
    ensures
        v@ == spec_upload_steps(kind, size),
{
    let mut v: Vec<UploadStep> = Vec::new();
    match kind {
        MemoryKind::HostVisible => {
            v.push(UploadStep::MapCopyUnmap);
        },
        MemoryKind::DeviceLocal => {
            v.push(UploadStep::CreateStaging { size });
            v.push(UploadStep::CopyIntoStaging);
            v.push(UploadStep::IssueTransfer);
            v.push(UploadStep::WaitTransfer);
            v.push(UploadStep::DestroyStaging);
        },
    }
    proof {
        assert(v@ =~= spec_upload_steps(kind, size));
    }
    v
}

/// The steps `plan_image_upload` hands out.
pub open spec fn spec_image_upload_steps(size: u64) -> Seq<UploadStep> {
    seq![
        UploadStep::CreateStaging { size },
        UploadStep::CopyIntoStaging,
        UploadStep::TransitionToTransferDst,
        UploadStep::CopyToImage,
        UploadStep::TransitionToShaderRead,
        UploadStep::DestroyStaging,
    ]
}

/// The image upload policy: a device-local image is filled through a
/// temporary staging buffer, with a layout transition to the transfer
/// destination before the copy and one to the shader-readable layout after
/// it — the factory does not track layouts, so the caller sequences exactly
/// these transitions — and the staging buffer destroyed last.
pub fn plan_image_upload(size: u64) -> (v: Vec<UploadStep>)
    ensures
        v@ == spec_image_upload_steps(size),
{
    let mut v: Vec<UploadStep> = Vec::new();
    v.push(UploadStep::CreateStaging { size });
    v.push(UploadStep::CopyIntoStaging);
    v.push(UploadStep::TransitionToTransferDst);
    v.push(UploadStep::CopyToImage);
    v.push(UploadStep::TransitionToShaderRead);
    v.push(UploadStep::DestroyStaging);
    proof {
        assert(v@ =~= spec_image_upload_steps(size));
    }
    v
}

/// The width and height the bundled texture must decode to.
pub const TEXTURE_EDGE: u32 = 1024;

/// Whether a decoded texture is acceptable: the expected square edge and a
/// four-channel color layout.
pub fn texture_dimensions_ok(width: u32, height: u32, rgba: bool) -> (r: bool)
    ensures
        r == (width == TEXTURE_EDGE && height == TEXTURE_EDGE && rgba),
{
    width == TEXTURE_EDGE && height == TEXTURE_EDGE && rgba
}

} // verus!
