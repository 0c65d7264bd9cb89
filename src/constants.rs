use vstd::prelude::*;

verus! {

/// A status code as the media library reports it: zero for success, negative
/// for an error, positive for a warning.
pub type mfxStatus = i32;

/// The function completed successfully.
pub const MFX_ERR_NONE: mfxStatus = 0;
/// An unknown error occurred.
pub const MFX_ERR_UNKNOWN: mfxStatus = -1;
/// A null pointer was passed in the input or output arguments.
pub const MFX_ERR_NULL_PTR: mfxStatus = -2;
/// Unsupported configuration, parameters or features.
pub const MFX_ERR_UNSUPPORTED: mfxStatus = -3;
/// Failed to allocate memory.
pub const MFX_ERR_MEMORY_ALLOC: mfxStatus = -4;
/// Insufficient buffer for input or output.
pub const MFX_ERR_NOT_ENOUGH_BUFFER: mfxStatus = -5;
/// Invalid handle.
pub const MFX_ERR_INVALID_HANDLE: mfxStatus = -6;
/// The specified object, item or sync point was not found.
pub const MFX_ERR_NOT_FOUND: mfxStatus = -9;
/// More input is needed before the stage can produce output.
pub const MFX_ERR_MORE_DATA: mfxStatus = -10;
/// The operation was aborted, for instance after a failure it depended on.
pub const MFX_ERR_ABORTED: mfxStatus = -11;
/// Incompatible video parameters were detected.
pub const MFX_ERR_INVALID_VIDEO_PARAM: mfxStatus = -15;
/// The call sequence is invalid, for instance a second `Init` without `Close`.
pub const MFX_ERR_UNDEFINED_BEHAVIOR: mfxStatus = -16;
/// An asynchronous operation has not completed yet.
pub const MFX_WRN_IN_EXECUTION: mfxStatus = 1;
/// Software is used instead of hardware acceleration.
pub const MFX_WRN_PARTIAL_ACCELERATION: mfxStatus = 4;
/// Some video parameters were incompatible with others; the conflict was resolved.
pub const MFX_WRN_INCOMPATIBLE_VIDEO_PARAM: mfxStatus = 5;

pub const MFX_IMPL_AUTO: i32 = 0x0000;
pub const MFX_IMPL_SOFTWARE: i32 = 0x0001;
pub const MFX_IMPL_HARDWARE: i32 = 0x0002;
pub const MFX_IMPL_AUTO_ANY: i32 = 0x0003;
pub const MFX_IMPL_HARDWARE_ANY: i32 = 0x0004;
pub const MFX_IMPL_VIA_VAAPI: i32 = 0x0600;

pub const MFX_TARGETUSAGE_UNKNOWN: u16 = 0;
pub const MFX_TARGETUSAGE_BEST_QUALITY: u16 = 1;
pub const MFX_TARGETUSAGE_BALANCED: u16 = 4;
pub const MFX_TARGETUSAGE_BEST_SPEED: u16 = 7;

/// The AVC (H.264) codec identifier.
pub const MFX_CODEC_AVC: u32 = 0x2043_5641;
/// FourCC of interleaved 4:2:0: a luma plane, then one plane of interleaved chroma pairs.
pub const MFX_FOURCC_NV12: u32 = 0x3231_564e;
/// FourCC of planar 4:2:0: a luma plane, then two chroma planes.
pub const MFX_FOURCC_YV12: u32 = 0x3231_5659;

pub const MFX_RATECONTROL_CBR: u16 = 1;
pub const MFX_RATECONTROL_VBR: u16 = 2;
pub const MFX_RATECONTROL_CQP: u16 = 3;
pub const MFX_RATECONTROL_AVBR: u16 = 4;
pub const MFX_RATECONTROL_ICQ: u16 = 9;

pub const MFX_CHROMAFORMAT_MONOCHROME: u16 = 0;
pub const MFX_CHROMAFORMAT_YUV420: u16 = 1;

pub const MFX_PICSTRUCT_UNKNOWN: u16 = 0;
pub const MFX_PICSTRUCT_PROGRESSIVE: u16 = 1;

pub const MFX_IOPATTERN_IN_VIDEO_MEMORY: u16 = 0x01;
pub const MFX_IOPATTERN_IN_SYSTEM_MEMORY: u16 = 0x02;
pub const MFX_IOPATTERN_OUT_VIDEO_MEMORY: u16 = 0x10;
pub const MFX_IOPATTERN_OUT_SYSTEM_MEMORY: u16 = 0x20;

/// How long the driver waits for one asynchronous operation, in milliseconds.
pub const SYNC_TIMEOUT_MS: u32 = 6000;

} // verus!
