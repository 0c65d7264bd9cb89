use vstd::prelude::*;

use crate::constants::{
    MFX_CHROMAFORMAT_YUV420, MFX_CODEC_AVC, MFX_FOURCC_NV12, MFX_FOURCC_YV12,
    MFX_IOPATTERN_IN_SYSTEM_MEMORY, MFX_IOPATTERN_OUT_SYSTEM_MEMORY, MFX_PICSTRUCT_PROGRESSIVE,
    MFX_TARGETUSAGE_BALANCED,
};
use crate::types::{
    mfxFrameInfo, mfxInfoMFX, mfxInfoVPP, mfxVideoParam, zero_frame_info, RateControl, StageInfo,
};
use crate::utils::{align16, align_up};

verus! {

/// Frames per second of the pipeline: numerator and denominator.
pub const FRAME_RATE_N: u32 = 30;
pub const FRAME_RATE_D: u32 = 1;

/// A progressive 4:2:0 frame of `width` by `height` pixels in pixel format
/// `fourcc`, with its buffer aligned to 16 on both axes.
pub open spec fn frame_geometry(fourcc: u32, width: u16, height: u16) -> mfxFrameInfo {
    mfxFrameInfo {
        FourCC: fourcc,
        ChromaFormat: MFX_CHROMAFORMAT_YUV420,
        CropX: 0,
        CropY: 0,
        CropW: width,
        CropH: height,
        PicStruct: MFX_PICSTRUCT_PROGRESSIVE,
        FrameRateExtN: FRAME_RATE_N,
        FrameRateExtD: FRAME_RATE_D,
        Width: align_up(width as int, 16) as u16,
        Height: align_up(height as int, 16) as u16,
        ..zero_frame_info()
    }
}

/// Builds the geometry of a progressive 4:2:0 frame of `width` by `height`.
pub fn frame_info(fourcc: u32, width: u16, height: u16) -> (r: mfxFrameInfo)
    requires
        width <= 65520,
        height <= 65520,
    ensures
        r == frame_geometry(fourcc, width, height),
        r.Width >= r.CropW,
        r.Height >= r.CropH,
{
    proof {
        crate::utils::lemma_align16_laws(width as nat);
        crate::utils::lemma_align16_laws(height as nat);
    }
    let mut info = mfxFrameInfo::new();
    info.FourCC = fourcc;
    info.ChromaFormat = MFX_CHROMAFORMAT_YUV420;
    info.CropW = width;
    info.CropH = height;
    info.PicStruct = MFX_PICSTRUCT_PROGRESSIVE;
    info.FrameRateExtN = FRAME_RATE_N;
    info.FrameRateExtD = FRAME_RATE_D;
    info.Width = align16(width);
    info.Height = align16(height);
    info
}

/// Parameters of the video-processing stage: planar input converted to
/// interleaved output of the same size, one operation in flight, frames in
/// system memory on both sides.
pub fn vpp_params(width: u16, height: u16) -> (r: mfxVideoParam)
    requires
        width <= 65520,
        height <= 65520,
    ensures
        r.Stage == StageInfo::Vpp(
            mfxInfoVPP {
                In: frame_geometry(MFX_FOURCC_YV12, width, height),
                Out: frame_geometry(MFX_FOURCC_NV12, width, height),
            },
        ),
        r.AsyncDepth == 1,
        r.IOPattern == MFX_IOPATTERN_IN_SYSTEM_MEMORY | MFX_IOPATTERN_OUT_SYSTEM_MEMORY,
        r.AllocId == 0,
        r.Protected == 0,
        r.NumExtParam == 0,
{
    let mut vpp = mfxInfoVPP::new();
    vpp.In = frame_info(MFX_FOURCC_YV12, width, height);
    vpp.Out = frame_info(MFX_FOURCC_NV12, width, height);
    let mut params = mfxVideoParam::new(StageInfo::Vpp(vpp));
    params.AsyncDepth = 1;
    params.IOPattern = MFX_IOPATTERN_IN_SYSTEM_MEMORY | MFX_IOPATTERN_OUT_SYSTEM_MEMORY;
    params
}

/// Parameters of the encode stage: AVC at balanced speed and quality, variable
/// bitrate around `bitrate_kbps`, interleaved input frames in system memory.
pub fn encode_params(width: u16, height: u16, bitrate_kbps: u16) -> (r: mfxVideoParam)
    requires
        width <= 65520,
        height <= 65520,
    ensures
        r.Stage matches StageInfo::Encode(m) && {
            &&& m.CodecId == MFX_CODEC_AVC
            &&& m.TargetUsage == MFX_TARGETUSAGE_BALANCED
            &&& m.RateControl == (RateControl::Vbr {
                InitialDelayInKB: 0,
                BufferSizeInKB: 0,
                TargetKbps: bitrate_kbps,
                MaxKbps: 0,
            })
            &&& m.FrameInfo == frame_geometry(MFX_FOURCC_NV12, width, height)
            &&& m == (mfxInfoMFX {
                CodecId: MFX_CODEC_AVC,
                TargetUsage: MFX_TARGETUSAGE_BALANCED,
                RateControl: m.RateControl,
                FrameInfo: m.FrameInfo,
                ..crate::types::zero_info_mfx()
            })
        },
        r.IOPattern == MFX_IOPATTERN_IN_SYSTEM_MEMORY,
        r.AsyncDepth == 0,
        r.AllocId == 0,
        r.Protected == 0,
        r.NumExtParam == 0,
{
    let mut mfx = mfxInfoMFX::new();
    mfx.CodecId = MFX_CODEC_AVC;
    mfx.TargetUsage = MFX_TARGETUSAGE_BALANCED;
    mfx.RateControl = RateControl::Vbr {
        InitialDelayInKB: 0,
        BufferSizeInKB: 0,
        TargetKbps: bitrate_kbps,
        MaxKbps: 0,
    };
    mfx.FrameInfo = frame_info(MFX_FOURCC_NV12, width, height);
    let mut params = mfxVideoParam::new(StageInfo::Encode(mfx));
    params.IOPattern = MFX_IOPATTERN_IN_SYSTEM_MEMORY;
    params
}

} // verus!
