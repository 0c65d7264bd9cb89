use vstd::prelude::*;

use crate::constants::{
    MFX_RATECONTROL_AVBR, MFX_RATECONTROL_CBR, MFX_RATECONTROL_CQP, MFX_RATECONTROL_ICQ,
    MFX_RATECONTROL_VBR,
};

verus! {

/// An API version: major and minor number.
#[derive(Clone, Copy, Debug, PartialEq, Eq, Structural)]
pub struct mfxVersion {
    pub Major: u16,
    pub Minor: u16,
}

impl mfxVersion {
    /// The version `Major.Minor`.
    pub fn new(Major: u16, Minor: u16) -> (r: Self)
        ensures
            r.Major == Major,
            r.Minor == Minor,
    {
        mfxVersion { Major, Minor }
    }
}

/// Identifies a frame within a scalable or multi-view stream.
#[derive(Clone, Copy, Debug, PartialEq, Eq, Structural)]
pub struct mfxFrameId {
    pub TemporalId: u16,
    pub PriorityId: u16,
    pub DependencyId: u16,
    pub QualityId: u16,
}

/// The identifier that `mfxFrameId::new` builds.
pub open spec fn zero_frame_id() -> mfxFrameId {
    mfxFrameId { TemporalId: 0, PriorityId: 0, DependencyId: 0, QualityId: 0 }
}

impl mfxFrameId {
    /// An identifier with every field zero.
    pub fn new() -> (r: Self)
        ensures
            r == zero_frame_id(),
    {
        mfxFrameId { TemporalId: 0, PriorityId: 0, DependencyId: 0, QualityId: 0 }
    }
}

/// Geometry and pixel layout of a frame.
///
/// `Width` and `Height` are the aligned dimensions of the buffer; the crop
/// rectangle (`CropX`, `CropY`, `CropW`, `CropH`) is the region that is shown.
#[derive(Clone, Copy, Debug, PartialEq, Eq, Structural)]
pub struct mfxFrameInfo {
    pub BitDepthLuma: u16,
    pub BitDepthChroma: u16,
    pub Shift: u16,
    pub FrameId: mfxFrameId,
    pub FourCC: u32,
    pub Width: u16,
    pub Height: u16,
    pub CropX: u16,
    pub CropY: u16,
    pub CropW: u16,
    pub CropH: u16,
    pub FrameRateExtN: u32,
    pub FrameRateExtD: u32,
    pub AspectRatioW: u16,
    pub AspectRatioH: u16,
    pub PicStruct: u16,
    pub ChromaFormat: u16,
}

/// The geometry that `mfxFrameInfo::new` builds.
pub open spec fn zero_frame_info() -> mfxFrameInfo {
    mfxFrameInfo {
        BitDepthLuma: 0,
        BitDepthChroma: 0,
        Shift: 0,
        FrameId: zero_frame_id(),
        FourCC: 0,
        Width: 0,
        Height: 0,
        CropX: 0,
        CropY: 0,
        CropW: 0,
        CropH: 0,
        FrameRateExtN: 0,
        FrameRateExtD: 0,
        AspectRatioW: 0,
        AspectRatioH: 0,
        PicStruct: 0,
        ChromaFormat: 0,
    }
}

impl mfxFrameInfo {
    /// A geometry with every field zero, to be filled in.
    pub fn new() -> (r: Self)
        ensures
            r == zero_frame_info(),
    {
        mfxFrameInfo {
            BitDepthLuma: 0,
            BitDepthChroma: 0,
            Shift: 0,
            FrameId: mfxFrameId::new(),
            FourCC: 0,
            Width: 0,
            Height: 0,
            CropX: 0,
            CropY: 0,
            CropW: 0,
            CropH: 0,
            FrameRateExtN: 0,
            FrameRateExtD: 0,
            AspectRatioW: 0,
            AspectRatioH: 0,
            PicStruct: 0,
            ChromaFormat: 0,
        }
    }
}

/// What a stage asks for in surfaces of one direction.
#[derive(Clone, Copy, Debug, PartialEq, Eq, Structural)]
pub struct mfxFrameAllocRequest {
    pub Info: mfxFrameInfo,
    pub Type: u16,
    pub NumFrameMin: u16,
    pub NumFrameSuggested: u16,
}

impl mfxFrameAllocRequest {
    /// An empty request, for a stage to fill in.
    pub fn new() -> (r: Self)
        ensures
            r.Info == zero_frame_info(),
            r.Type == 0,
            r.NumFrameMin == 0,
            r.NumFrameSuggested == 0,
    {
        mfxFrameAllocRequest {
            Info: mfxFrameInfo::new(),
            Type: 0,
            NumFrameMin: 0,
            NumFrameSuggested: 0,
        }
    }
}

/// The bitrate-management algorithm of the encoder, with the settings that
/// belong to it.
#[derive(Clone, Copy, Debug, PartialEq, Eq, Structural)]
pub enum RateControl {
    /// No method chosen yet.
    Unset,
    /// Constant bitrate.
    Cbr { InitialDelayInKB: u16, BufferSizeInKB: u16, TargetKbps: u16, MaxKbps: u16 },
    /// Variable bitrate.
    Vbr { InitialDelayInKB: u16, BufferSizeInKB: u16, TargetKbps: u16, MaxKbps: u16 },
    /// Constant quantization parameters.
    Cqp { QPI: u16, QPP: u16, QPB: u16 },
    /// Average variable bitrate.
    Avbr { Accuracy: u16, TargetKbps: u16, Convergence: u16 },
    /// Intelligent constant quality.
    Icq { ICQQuality: u16 },
}

/// The method code of each rate-control variant.
pub open spec fn rate_control_method(rc: RateControl) -> u16 {
    match rc {
        RateControl::Unset => 0,
        RateControl::Cbr { .. } => MFX_RATECONTROL_CBR,
        RateControl::Vbr { .. } => MFX_RATECONTROL_VBR,
        RateControl::Cqp { .. } => MFX_RATECONTROL_CQP,
        RateControl::Avbr { .. } => MFX_RATECONTROL_AVBR,
        RateControl::Icq { .. } => MFX_RATECONTROL_ICQ,
    }
}

impl RateControl {
    /// The method code that the encoder expects for this variant.
    pub fn method(&self) -> (r: u16)
        ensures
            r == rate_control_method(*self),
    {
        match self {
            RateControl::Unset => 0,
            RateControl::Cbr { .. } => MFX_RATECONTROL_CBR,
            RateControl::Vbr { .. } => MFX_RATECONTROL_VBR,
            RateControl::Cqp { .. } => MFX_RATECONTROL_CQP,
            RateControl::Avbr { .. } => MFX_RATECONTROL_AVBR,
            RateControl::Icq { .. } => MFX_RATECONTROL_ICQ,
        }
    }
}

/// Parameters of the encode stage.
#[derive(Clone, Copy, Debug, PartialEq, Eq, Structural)]
pub struct mfxInfoMFX {
    pub LowPower: u16,
    pub BRCParamMultiplier: u16,
    pub FrameInfo: mfxFrameInfo,
    pub CodecId: u32,
    pub CodecProfile: u16,
    pub CodecLevel: u16,
    pub NumThread: u16,
    pub TargetUsage: u16,
    pub GopPicSize: u16,
    pub GopRefDist: u16,
    pub GopOptFlag: u16,
    pub IdrInterval: u16,
    pub RateControl: RateControl,
    pub NumSlice: u16,
    pub NumRefFrame: u16,
    pub EncodedOrder: u16,
}

/// The encode parameters that `mfxInfoMFX::new` builds.
pub open spec fn zero_info_mfx() -> mfxInfoMFX {
    mfxInfoMFX {
        LowPower: 0,
        BRCParamMultiplier: 0,
        FrameInfo: zero_frame_info(),
        CodecId: 0,
        CodecProfile: 0,
        CodecLevel: 0,
        NumThread: 0,
        TargetUsage: 0,
        GopPicSize: 0,
        GopRefDist: 0,
        GopOptFlag: 0,
        IdrInterval: 0,
        RateControl: RateControl::Unset,
        NumSlice: 0,
        NumRefFrame: 0,
        EncodedOrder: 0,
    }
}

impl mfxInfoMFX {
    /// Encode parameters with every field zero and no rate control chosen.
    pub fn new() -> (r: Self)
        ensures
            r == zero_info_mfx(),
    {
        mfxInfoMFX {
            LowPower: 0,
            BRCParamMultiplier: 0,
            FrameInfo: mfxFrameInfo::new(),
            CodecId: 0,
            CodecProfile: 0,
            CodecLevel: 0,
            NumThread: 0,
            TargetUsage: 0,
            GopPicSize: 0,
            GopRefDist: 0,
            GopOptFlag: 0,
            IdrInterval: 0,
            RateControl: RateControl::Unset,
            NumSlice: 0,
            NumRefFrame: 0,
            EncodedOrder: 0,
        }
    }
}

/// Parameters of the video-processing stage: the input and output frames.
#[derive(Clone, Copy, Debug, PartialEq, Eq, Structural)]
pub struct mfxInfoVPP {
    pub In: mfxFrameInfo,
    pub Out: mfxFrameInfo,
}

impl mfxInfoVPP {
    /// Processing parameters with zero input and output geometry.
    pub fn new() -> (r: Self)
        ensures
            r.In == zero_frame_info(),
            r.Out == zero_frame_info(),
    {
        mfxInfoVPP { In: mfxFrameInfo::new(), Out: mfxFrameInfo::new() }
    }
}

/// The stage-specific part of a parameter set.
#[derive(Clone, Copy, Debug, PartialEq, Eq, Structural)]
pub enum StageInfo {
    Encode(mfxInfoMFX),
    Vpp(mfxInfoVPP),
}

/// The parameters of one stage.
#[derive(Clone, Copy, Debug, PartialEq, Eq, Structural)]
pub struct mfxVideoParam {
    pub AllocId: u32,
    pub AsyncDepth: u16,
    pub Stage: StageInfo,
    pub Protected: u16,
    pub IOPattern: u16,
    pub NumExtParam: u16,
}

impl mfxVideoParam {
    /// Parameters around the stage-specific part `info`, every other field zero.
    pub fn new(info: StageInfo) -> (r: Self)
        ensures
            r.Stage == info,
            r.AllocId == 0,
            r.AsyncDepth == 0,
            r.Protected == 0,
            r.IOPattern == 0,
            r.NumExtParam == 0,
    {
        mfxVideoParam {
            AllocId: 0,
            AsyncDepth: 0,
            Stage: info,
            Protected: 0,
            IOPattern: 0,
            NumExtParam: 0,
        }
    }
}

/// Where a frame's planes lie, and its lock state.
///
/// `Y`, `U` and `V` are the offsets of the luma plane and of the two chroma
/// planes in the buffer of the pool that holds the surface. `Locked` is zero
/// while the surface is free and positive while an operation uses it.
#[derive(Clone, Copy, Debug, PartialEq, Eq, Structural)]
pub struct mfxFrameData {
    pub NumExtParam: u16,
    pub MemType: u16,
    pub PitchHigh: u16,
    pub TimeStamp: u64,
    pub FrameOrder: u32,
    pub Locked: u16,
    pub PitchLow: u16,
    pub Y: usize,
    pub U: usize,
    pub V: usize,
    pub Corrupted: u16,
    pub DataFlag: u16,
}

impl mfxFrameData {
    /// Plane data with planes at offsets `Y`, `U` and `V`, free, every other field zero.
    pub fn new(Y: usize, U: usize, V: usize) -> (r: Self)
        ensures
            r == mfxFrameData::new_spec(Y, U, V),
    {
        mfxFrameData {
            NumExtParam: 0,
            MemType: 0,
            PitchHigh: 0,
            TimeStamp: 0,
            FrameOrder: 0,
            Locked: 0,
            PitchLow: 0,
            Y,
            U,
            V,
            Corrupted: 0,
            DataFlag: 0,
        }
    }
}

/// A frame buffer: its geometry and its data.
#[derive(Clone, Copy, Debug, PartialEq, Eq, Structural)]
pub struct mfxFrameSurface1 {
    pub Info: mfxFrameInfo,
    pub Data: mfxFrameData,
}

impl mfxFrameSurface1 {
    /// A surface with zero geometry and planes at offset zero.
    pub fn new() -> (r: Self)
        ensures
            r.Info == zero_frame_info(),
            r.Data == mfxFrameData::new_spec(0, 0, 0),
    {
        mfxFrameSurface1 { Info: mfxFrameInfo::new(), Data: mfxFrameData::new(0, 0, 0) }
    }
}

impl mfxFrameData {
    /// The plane data that `new` builds.
    pub open spec fn new_spec(Y: usize, U: usize, V: usize) -> mfxFrameData {
        mfxFrameData {
            NumExtParam: 0,
            MemType: 0,
            PitchHigh: 0,
            TimeStamp: 0,
            FrameOrder: 0,
            Locked: 0,
            PitchLow: 0,
            Y,
            U,
            V,
            Corrupted: 0,
            DataFlag: 0,
        }
    }
}

} // verus!
