use vstd::prelude::*;

use crate::bitstream::{mfxBitstream, ShortWrite, WriteBitStreamFrame};
use crate::constants::{MFX_ERR_MORE_DATA, MFX_ERR_NONE, MFX_ERR_NOT_ENOUGH_BUFFER};
use crate::pool::{
    all_locked, crop_pixels, crop_size, is_first_free, locked_at, released_at, spliced,
    with_locks, LoadRawFrame, SurfacePool, VppToEncSurface,
};
use crate::bitstream::with_length;
use crate::types::mfxFrameSurface1;
use crate::utils::{check_error, error_of, StatusError};

verus! {

/// Whether the pipeline still reads input.
#[derive(Clone, Copy, Debug, PartialEq, Eq, Structural)]
pub enum Mode {
    /// Frames are read and pass through both stages.
    Running,
    /// The input has ended; the stages hand out the frames they still hold,
    /// first video processing, then the encoder.
    Draining,
    /// The stages are closed; nothing more happens.
    Closed,
}

/// What the pipeline waits for.
#[derive(Clone, Copy, Debug, PartialEq, Eq, Structural)]
pub enum Await {
    /// The signal to begin.
    Start,
    /// The planes of the next raw frame.
    Frame,
    /// The status of a video-processing submission.
    VppSubmit,
    /// The end of a video-processing operation.
    VppSync,
    /// The status of an encode submission.
    EncodeSubmit,
    /// The end of an encode operation.
    EncodeSync,
    /// The number of bitstream bytes the sink took.
    Write,
    /// The confirmation that the stages are closed.
    Close,
    /// Nothing: the run is over.
    Done,
}

/// What the caller is asked to do next.
#[derive(Clone, Copy, Debug, PartialEq, Eq, Structural)]
pub enum Action {
    /// Read one raw frame: `luma` bytes, then two chroma planes of `chroma`
    /// bytes each, and hand them back in a `FrameRead` event.
    ReadFrame { luma: usize, chroma: usize },
    /// Submit surface `input` of the video-processing input pool, with output
    /// surface `output` of its output pool; an `input` of `None` asks the stage
    /// to hand out the frames it still holds.
    RunVpp { input: Option<usize>, output: usize },
    /// Wait for the video-processing operation just submitted.
    SyncVpp,
    /// Submit surface `surface` of the encode input pool; `None` asks the
    /// encoder to hand out the frames it still holds.
    RunEncode { surface: Option<usize> },
    /// Wait for the encode operation just submitted.
    SyncEncode,
    /// Write the bitstream's pending bytes to the sink.
    WriteBitstream,
    /// Close the encode stage, and the video-processing stage too when `vpp`.
    Close { vpp: bool },
    /// Nothing is left to do.
    Stop,
}

/// What the caller reports back.
#[derive(Debug)]
pub enum Event {
    /// Begin the run.
    Begin,
    /// The bytes read for the three planes of a frame; a plane that could not
    /// be read whole is shorter than asked.
    FrameRead { luma: Vec<u8>, u: Vec<u8>, v: Vec<u8> },
    VppSubmitted(i32),
    VppSynced(i32),
    EncodeSubmitted(i32),
    EncodeSynced(i32),
    /// How many bytes the sink took.
    Written(usize),
    /// The stages are closed.
    Closed,
}

/// Why a run failed.
#[derive(Clone, Copy, Debug, PartialEq, Eq, Structural)]
pub enum PipelineError {
    /// A stage or a pool reported `error` while the pipeline waited for `during`.
    Status { during: Await, error: StatusError },
    /// The sink did not take all pending bytes.
    Write(ShortWrite),
    /// An event came that the pipeline did not wait for.
    Unexpected { during: Await },
}

/// The two stages' surface pools, the encoder's output buffer, and where the
/// run stands.
#[derive(Debug)]
pub struct Pipeline {
    pub vpp_in: SurfacePool,
    pub vpp_out: SurfacePool,
    pub enc_in: SurfacePool,
    pub bitstream: mfxBitstream,
    pub mode: Mode,
    pub awaiting: Await,
    /// Frames encoded and synced.
    pub frames: u64,
    /// The first failure, if any.
    pub failure: Option<PipelineError>,
    /// The video-processing stage has handed out all it held.
    pub vpp_drained: bool,
    pub in_idx: usize,
    pub out_idx: usize,
    pub enc_idx: usize,
}

/// A status that lets the encoder go on without output for this frame: a
/// warning, an undersized bitstream buffer, or a frame held back.
pub open spec fn encode_skips(status: i32) -> bool {
    status > 0 || status == MFX_ERR_NOT_ENOUGH_BUFFER || status == MFX_ERR_MORE_DATA
}

/// A status with which draining the encoder goes on.
pub open spec fn drain_continues(status: i32) -> bool {
    status > 0 || status == MFX_ERR_NOT_ENOUGH_BUFFER
}

/// The planes read for a frame fill the crop rectangle of the current input
/// surface, and it is not empty.
pub open spec fn frame_ok(p: Pipeline, luma: Seq<u8>, u: Seq<u8>, v: Seq<u8>) -> bool {
    let n = crop_pixels(p.vpp_in.surfaces@[p.in_idx as int].Info);
    n > 0 && luma.len() == n && u.len() == n / 4 && v.len() == n / 4
}

/// The encode input surface that the next copy goes to has the right size.
pub open spec fn copy_fits(p: Pipeline) -> bool {
    exists|k: int|
        is_first_free(p.enc_in.surfaces@, k) && crop_size(
            p.vpp_out.surfaces@[p.out_idx as int].Info,
        ) == crop_size(#[trigger] p.enc_in.surfaces@[k].Info)
}

/// The encode submission that `p` waits for carries a frame.
pub open spec fn enc_has_input(p: Pipeline) -> bool {
    p.mode == Mode::Running || !p.vpp_drained
}

/// What comes after a frame, once a stage is done with it: the next frame is
/// read while input lasts; then video processing is drained into free output
/// surfaces; then the encoder is drained.
pub open spec fn feed_await(p: Pipeline) -> Await {
    if p.mode == Mode::Running {
        if all_locked(p.vpp_in.surfaces@) {
            Await::Close
        } else {
            Await::Frame
        }
    } else if p.vpp_drained {
        Await::EncodeSubmit
    } else if all_locked(p.vpp_out.surfaces@) {
        Await::Close
    } else {
        Await::VppSubmit
    }
}

/// The failure, if any, of taking the surface for what comes after a frame.
pub open spec fn feed_failure(p: Pipeline) -> Option<PipelineError> {
    if feed_await(p) == Await::Close {
        Some(PipelineError::Status { during: p.awaiting, error: StatusError::NotFound })
    } else {
        None
    }
}

/// `p` with the input ended.
pub open spec fn input_ended(p: Pipeline) -> Pipeline {
    Pipeline { mode: Mode::Draining, ..p }
}

/// `p` with video processing drained.
pub open spec fn vpp_emptied(p: Pipeline) -> Pipeline {
    Pipeline { vpp_drained: true, ..p }
}

/// What the pipeline waits for after `p` receives `e`.
pub open spec fn next_await(p: Pipeline, e: Event) -> Await {
    match (p.awaiting, e) {
        (Await::Done, _) => Await::Done,
        (Await::Close, Event::Closed) => Await::Done,
        (Await::Close, _) => Await::Close,
        (Await::Start, Event::Begin) => feed_await(p),
        (Await::Frame, Event::FrameRead { luma, u, v }) => if !frame_ok(p, luma@, u@, v@) {
            feed_await(input_ended(p))
        } else if all_locked(p.vpp_out.surfaces@) {
            Await::Close
        } else {
            Await::VppSubmit
        },
        (Await::VppSubmit, Event::VppSubmitted(s)) => if s == MFX_ERR_MORE_DATA {
            if p.mode == Mode::Running {
                feed_await(p)
            } else {
                Await::EncodeSubmit
            }
        } else if s >= 0 {
            Await::VppSync
        } else {
            Await::Close
        },
        (Await::VppSync, Event::VppSynced(s)) => if s == MFX_ERR_NONE && copy_fits(p) {
            Await::EncodeSubmit
        } else {
            Await::Close
        },
        (Await::EncodeSubmit, Event::EncodeSubmitted(s)) => if s == MFX_ERR_NONE {
            Await::EncodeSync
        } else if enc_has_input(p) && encode_skips(s) {
            feed_await(p)
        } else if !enc_has_input(p) && drain_continues(s) {
            Await::EncodeSubmit
        } else {
            Await::Close
        },
        (Await::EncodeSync, Event::EncodeSynced(s)) => if s == MFX_ERR_NONE {
            Await::Write
        } else {
            Await::Close
        },
        (Await::Write, Event::Written(n)) => if n != p.bitstream.DataLength {
            Await::Close
        } else {
            feed_await(p)
        },
        _ => Await::Close,
    }
}

/// The processing input buffer with the frame of `e` read into surface `p.in_idx`.
pub open spec fn frame_loaded(p: Pipeline, e: Event) -> Seq<u8> {
    let s = p.vpp_in.surfaces@[p.in_idx as int];
    match e {
        Event::FrameRead { luma, u, v } => spliced(
            spliced(spliced(p.vpp_in.buffer@, s.Data.Y as int, luma@), s.Data.U as int, u@),
            s.Data.V as int,
            v@,
        ),
        _ => p.vpp_in.buffer@,
    }
}

/// The encode input buffer with the processed frame copied into surface `k`.
pub open spec fn frame_copied(p: Pipeline, k: int) -> Seq<u8> {
    let o = p.vpp_out.surfaces@[p.out_idx as int];
    spliced(
        p.enc_in.buffer@,
        p.enc_in.surfaces@[k].Data.Y as int,
        p.vpp_out.buffer@.subrange(o.Data.Y as int, o.Data.Y + crop_size(o.Info)),
    )
}

/// `e` reports that the input ended before a frame could be read into the
/// surface that `p` took for it; that surface was never handed to a stage.
pub open spec fn read_failed(p: Pipeline, e: Event) -> bool {
    &&& p.awaiting == Await::Frame
    &&& e matches Event::FrameRead { luma, u, v } && !frame_ok(p, luma@, u@, v@)
}

/// `e` reports that video processing wants more input and wrote nothing into
/// the output surface that `p` took for it.
pub open spec fn vpp_wants_more(p: Pipeline, e: Event) -> bool {
    &&& p.awaiting == Await::VppSubmit
    &&& e == Event::VppSubmitted(MFX_ERR_MORE_DATA)
}

/// `e` reports the end of processing, and an encode surface is free to take the frame.
pub open spec fn enc_acquired(p: Pipeline, e: Event) -> bool {
    &&& p.awaiting == Await::VppSync
    &&& e == Event::VppSynced(MFX_ERR_NONE)
    &&& !all_locked(p.enc_in.surfaces@)
}

/// The failure recorded after `p` receives `e`.
pub open spec fn next_failure(p: Pipeline, e: Event) -> Option<PipelineError> {
    let during = p.awaiting;
    let not_found = Some(PipelineError::Status { during, error: StatusError::NotFound });
    if p.failure is Some {
        p.failure
    } else {
        match (p.awaiting, e) {
            (Await::Done, _) => None,
            (Await::Close, _) => None,
            (Await::Start, Event::Begin) => feed_failure(p),
            (Await::Frame, Event::FrameRead { luma, u, v }) => if !frame_ok(p, luma@, u@, v@) {
                feed_failure(input_ended(p))
            } else if all_locked(p.vpp_out.surfaces@) {
                not_found
            } else {
                None
            },
            (Await::VppSubmit, Event::VppSubmitted(s)) => if s == MFX_ERR_MORE_DATA {
                if p.mode == Mode::Running {
                    feed_failure(p)
                } else {
                    None
                }
            } else if s >= 0 {
                None
            } else {
                Some(PipelineError::Status { during, error: error_of(s) })
            },
            (Await::VppSync, Event::VppSynced(s)) => if s != MFX_ERR_NONE {
                Some(PipelineError::Status { during, error: error_of(s) })
            } else if all_locked(p.enc_in.surfaces@) {
                not_found
            } else if !copy_fits(p) {
                Some(PipelineError::Status { during, error: StatusError::Unknown })
            } else {
                None
            },
            (Await::EncodeSubmit, Event::EncodeSubmitted(s)) => if s == MFX_ERR_NONE {
                None
            } else if enc_has_input(p) && encode_skips(s) {
                feed_failure(p)
            } else if !enc_has_input(p) && (drain_continues(s) || s == MFX_ERR_MORE_DATA) {
                None
            } else {
                Some(PipelineError::Status { during, error: error_of(s) })
            },
            (Await::EncodeSync, Event::EncodeSynced(s)) => if s == MFX_ERR_NONE {
                None
            } else {
                Some(PipelineError::Status { during, error: error_of(s) })
            },
            (Await::Write, Event::Written(n)) => if n != p.bitstream.DataLength {
                Some(
                    PipelineError::Write(ShortWrite { expected: p.bitstream.DataLength, written: n }),
                )
            } else {
                feed_failure(p)
            },
            _ => Some(PipelineError::Unexpected { during }),
        }
    }
}

impl Pipeline {
    /// The pools and the bitstream are well formed, and the surfaces that the
    /// awaited step uses exist.
    pub open spec fn wf(&self) -> bool {
        &&& self.vpp_in.wf()
        &&& self.vpp_out.wf()
        &&& self.enc_in.wf()
        &&& self.bitstream.wf()
        &&& (self.awaiting == Await::Frame || (self.mode == Mode::Running && (self.awaiting
            == Await::VppSubmit || self.awaiting == Await::VppSync))) ==> self.in_idx
            < self.vpp_in.count()
        &&& (self.awaiting == Await::VppSubmit || self.awaiting == Await::VppSync) ==> self.out_idx
            < self.vpp_out.count()
        &&& (self.awaiting == Await::Frame || self.awaiting == Await::VppSubmit || self.awaiting
            == Await::VppSync) ==> !self.vpp_drained
        &&& (self.awaiting == Await::EncodeSubmit && enc_has_input(*self)) ==> self.enc_idx
            < self.enc_in.count()
        &&& self.mode == Mode::Running ==> !self.vpp_drained
        &&& self.mode == Mode::Closed <==> self.awaiting == Await::Done
        &&& self.mode == Mode::Running ==> self.awaiting != Await::Done
        &&& self.mode == Mode::Draining ==> self.awaiting != Await::Start
    }

    /// The action that asks for what the pipeline waits for.
    pub open spec fn action_spec(&self) -> Action {
        match self.awaiting {
            Await::Frame => {
                let n = crop_pixels(self.vpp_in.surfaces@[self.in_idx as int].Info);
                Action::ReadFrame { luma: n as usize, chroma: (n / 4) as usize }
            },
            Await::VppSubmit => Action::RunVpp {
                input: if self.mode == Mode::Running {
                    Some(self.in_idx)
                } else {
                    None
                },
                output: self.out_idx,
            },
            Await::VppSync => Action::SyncVpp,
            Await::EncodeSubmit => Action::RunEncode {
                surface: if enc_has_input(*self) {
                    Some(self.enc_idx)
                } else {
                    None
                },
            },
            Await::EncodeSync => Action::SyncEncode,
            Await::Write => Action::WriteBitstream,
            Await::Close => Action::Close { vpp: self.failure is None },
            _ => Action::Stop,
        }
    }

    /// A pipeline over the given pools and bitstream, waiting to begin.
    pub fn new(
        vpp_in: SurfacePool,
        vpp_out: SurfacePool,
        enc_in: SurfacePool,
        bitstream: mfxBitstream,
    ) -> (r: Self)
        requires
            vpp_in.wf(),
            vpp_out.wf(),
            enc_in.wf(),
            bitstream.wf(),
        ensures
            r.wf(),
            r.mode == Mode::Running,
            r.awaiting == Await::Start,
            r.frames == 0,
            r.failure is None,
            !r.vpp_drained,
            r.vpp_in == vpp_in,
            r.vpp_out == vpp_out,
            r.enc_in == enc_in,
            r.bitstream == bitstream,
    {
        Pipeline {
            vpp_in,
            vpp_out,
            enc_in,
            bitstream,
            mode: Mode::Running,
            awaiting: Await::Start,
            frames: 0,
            failure: None,
            vpp_drained: false,
            in_idx: 0,
            out_idx: 0,
            enc_idx: 0,
        }
    }

    /// The outcome of a run: the number of frames encoded, or the first failure.
    pub fn result(&self) -> (r: Result<u64, PipelineError>)
        ensures
            r == match self.failure {
                Some(e) => Err(e),
                None => Ok(self.frames),
            },
    {
        match self.failure {
            Some(e) => Err(e),
            None => Ok(self.frames),
        }
    }

    /// The action that asks for what the pipeline waits for.
    pub fn action(&self) -> (r: Action)
        requires
            self.wf(),
        ensures
            r == self.action_spec(),
    {
        match self.awaiting {
            Await::Frame => {
                let (luma, chroma) = self.vpp_in.raw_frame_sizes(self.in_idx);
                Action::ReadFrame { luma, chroma }
            },
            Await::VppSubmit => Action::RunVpp {
                input: if self.mode == Mode::Running {
                    Some(self.in_idx)
                } else {
                    None
                },
                output: self.out_idx,
            },
            Await::VppSync => Action::SyncVpp,
            Await::EncodeSubmit => Action::RunEncode {
                surface: if self.mode == Mode::Running || !self.vpp_drained {
                    Some(self.enc_idx)
                } else {
                    None
                },
            },
            Await::EncodeSync => Action::SyncEncode,
            Await::Write => Action::WriteBitstream,
            Await::Close => Action::Close { vpp: self.failure.is_none() },
            _ => Action::Stop,
        }
    }

    /// Takes the lock counters that the stages keep for the surfaces of the
    /// three pools, one per surface in pool order. A surface that a stage
    /// still holds, such as a frame it keeps back after asking for more
    /// input, stays in use until the stage lets go of it; only then can it be
    /// handed out again. The counters are to be read after each call into a
    /// stage, before its status is handed to `handle`.
    ///
    /// Returns `false`, changing nothing, when a list does not have one
    /// counter per surface of its pool.
    pub fn record_locks(&mut self, vpp_in: &Vec<u16>, vpp_out: &Vec<u16>, enc_in: &Vec<u16>) -> (r:
        bool)
        requires
            old(self).wf(),
        ensures
            final(self).wf(),
            r == (vpp_in@.len() == old(self).vpp_in.count() && vpp_out@.len()
                == old(self).vpp_out.count() && enc_in@.len() == old(self).enc_in.count()),
            r ==> final(self).vpp_in.surfaces@ == with_locks(old(self).vpp_in.surfaces@, vpp_in@),
            r ==> final(self).vpp_out.surfaces@ == with_locks(
                old(self).vpp_out.surfaces@,
                vpp_out@,
            ),
            r ==> final(self).enc_in.surfaces@ == with_locks(old(self).enc_in.surfaces@, enc_in@),
            !r ==> *final(self) == *old(self),
            final(self).vpp_in.buffer == old(self).vpp_in.buffer,
            final(self).vpp_out.buffer == old(self).vpp_out.buffer,
            final(self).enc_in.buffer == old(self).enc_in.buffer,
            final(self).vpp_in.surface_size == old(self).vpp_in.surface_size,
            final(self).vpp_out.surface_size == old(self).vpp_out.surface_size,
            final(self).enc_in.surface_size == old(self).enc_in.surface_size,
            final(self).bitstream == old(self).bitstream,
            final(self).mode == old(self).mode,
            final(self).awaiting == old(self).awaiting,
            final(self).frames == old(self).frames,
            final(self).failure == old(self).failure,
            final(self).vpp_drained == old(self).vpp_drained,
            final(self).in_idx == old(self).in_idx,
            final(self).out_idx == old(self).out_idx,
            final(self).enc_idx == old(self).enc_idx,
    {
        if vpp_in.len() != self.vpp_in.surfaces.len() || vpp_out.len()
            != self.vpp_out.surfaces.len() || enc_in.len() != self.enc_in.surfaces.len() {
            return false;
        }
        self.vpp_in.record_locks(vpp_in);
        self.vpp_out.record_locks(vpp_out);
        self.enc_in.record_locks(enc_in);
        true
    }

    /// Records `error` unless a failure is already recorded, and turns to closing.
    fn fail(&mut self, error: PipelineError)
        requires
            old(self).wf(),
            old(self).mode != Mode::Closed,
        ensures
            *final(self) == (Pipeline {
                awaiting: Await::Close,
                failure: if old(self).failure is Some {
                    old(self).failure
                } else {
                    Some(error)
                },
                ..*old(self)
            }),
            final(self).wf(),
    {
        if self.failure.is_none() {
            self.failure = Some(error);
        }
        self.awaiting = Await::Close;
    }

    /// Takes the surface for what comes after a frame: an input surface while
    /// input lasts, an output surface while video processing drains, none
    /// while the encoder drains.
    fn feed(&mut self)
        requires
            old(self).wf(),
            old(self).mode != Mode::Closed,
            old(self).awaiting != Await::Close,
        ensures
            final(self).wf(),
            final(self).awaiting == feed_await(*old(self)),
            final(self).mode == old(self).mode,
            final(self).vpp_drained == old(self).vpp_drained,
            final(self).frames == old(self).frames,
            final(self).failure == if old(self).failure is None {
                feed_failure(*old(self))
            } else {
                old(self).failure
            },
            final(self).awaiting != Await::Frame ==> final(self).in_idx == old(self).in_idx,
            final(self).awaiting == Await::Frame ==> is_first_free(
                old(self).vpp_in.surfaces@,
                final(self).in_idx as int,
            ),
            final(self).vpp_in.surfaces@ == if final(self).awaiting == Await::Frame {
                locked_at(old(self).vpp_in.surfaces@, final(self).in_idx as int)
            } else {
                old(self).vpp_in.surfaces@
            },
            final(self).awaiting != Await::VppSubmit ==> final(self).out_idx == old(self).out_idx,
            final(self).awaiting == Await::VppSubmit ==> is_first_free(
                old(self).vpp_out.surfaces@,
                final(self).out_idx as int,
            ),
            final(self).vpp_out.surfaces@ == if final(self).awaiting == Await::VppSubmit {
                locked_at(old(self).vpp_out.surfaces@, final(self).out_idx as int)
            } else {
                old(self).vpp_out.surfaces@
            },
            final(self).vpp_in.buffer == old(self).vpp_in.buffer,
            final(self).vpp_in.surface_size == old(self).vpp_in.surface_size,
            final(self).vpp_out.buffer == old(self).vpp_out.buffer,
            final(self).vpp_out.surface_size == old(self).vpp_out.surface_size,
            final(self).enc_in == old(self).enc_in,
            final(self).bitstream == old(self).bitstream,
            final(self).enc_idx == old(self).enc_idx,
    {
        let during = self.awaiting;
        if self.mode == Mode::Running {
            match self.vpp_in.acquire() {
                Ok(i) => {
                    self.in_idx = i;
                    self.awaiting = Await::Frame;
                },
                Err(error) => {
                    self.fail(PipelineError::Status { during, error });
                },
            }
        } else if self.vpp_drained {
            self.awaiting = Await::EncodeSubmit;
        } else {
            match self.vpp_out.acquire() {
                Ok(o) => {
                    self.out_idx = o;
                    self.awaiting = Await::VppSubmit;
                },
                Err(error) => {
                    self.fail(PipelineError::Status { during, error });
                },
            }
        }
    }

    /// Moves the run on by one event and returns what to do next.
    ///
    /// The pipeline frees only surfaces it took and never handed to a stage:
    /// the input surface of a frame that could not be read, and the output
    /// surface of a processing call that asked for more input. A surface
    /// handed to a stage stays in use until `record_locks` reports that the
    /// stage let go of it.
    pub fn handle(&mut self, event: Event) -> (r: Action)
        requires
            old(self).wf(),
        ensures
            final(self).wf(),
            r == final(self).action_spec(),
            final(self).awaiting == next_await(*old(self), event),
            final(self).failure == next_failure(*old(self), event),
            old(self).awaiting == Await::Done ==> *final(self) == *old(self),
            old(self).awaiting == Await::Close && !(event is Closed) ==> *final(self) == *old(self),
            final(self).mode == if final(self).awaiting == Await::Done {
                Mode::Closed
            } else if read_failed(*old(self), event) {
                Mode::Draining
            } else {
                old(self).mode
            },
            final(self).vpp_drained == (old(self).vpp_drained || (vpp_wants_more(*old(self), event)
                && old(self).mode == Mode::Draining)),
            // processing input pool: the first free surface is taken for each
            // frame, which is read into it; only a surface left unread is freed
            final(self).awaiting == Await::Frame ==> is_first_free(
                if read_failed(*old(self), event) {
                    released_at(old(self).vpp_in.surfaces@, old(self).in_idx as int)
                } else {
                    old(self).vpp_in.surfaces@
                },
                final(self).in_idx as int,
            ),
            final(self).awaiting != Await::Frame ==> final(self).in_idx == old(self).in_idx,
            final(self).vpp_in.surfaces@ == if read_failed(*old(self), event) {
                released_at(old(self).vpp_in.surfaces@, old(self).in_idx as int)
            } else if final(self).awaiting == Await::Frame {
                locked_at(old(self).vpp_in.surfaces@, final(self).in_idx as int)
            } else {
                old(self).vpp_in.surfaces@
            },
            final(self).vpp_in.buffer@ == if old(self).awaiting == Await::Frame && (
            event matches Event::FrameRead { luma, u, v } && frame_ok(*old(self), luma@, u@, v@)) {
                frame_loaded(*old(self), event)
            } else {
                old(self).vpp_in.buffer@
            },
            final(self).vpp_in.surface_size == old(self).vpp_in.surface_size,
            // processing output pool: the first free surface is taken for each
            // call; only one that a call asking for more input left unused is freed
            final(self).awaiting == Await::VppSubmit ==> is_first_free(
                old(self).vpp_out.surfaces@,
                final(self).out_idx as int,
            ),
            final(self).awaiting != Await::VppSubmit ==> final(self).out_idx == old(self).out_idx,
            final(self).vpp_out.surfaces@ == if final(self).awaiting == Await::VppSubmit {
                locked_at(old(self).vpp_out.surfaces@, final(self).out_idx as int)
            } else if vpp_wants_more(*old(self), event) {
                released_at(old(self).vpp_out.surfaces@, old(self).out_idx as int)
            } else {
                old(self).vpp_out.surfaces@
            },
            final(self).vpp_out.buffer == old(self).vpp_out.buffer,
            final(self).vpp_out.surface_size == old(self).vpp_out.surface_size,
            // encode input pool: the first free surface receives each processed frame
            enc_acquired(*old(self), event) ==> is_first_free(
                old(self).enc_in.surfaces@,
                final(self).enc_idx as int,
            ),
            !enc_acquired(*old(self), event) ==> final(self).enc_idx == old(self).enc_idx,
            final(self).enc_in.surfaces@ == if enc_acquired(*old(self), event) {
                locked_at(old(self).enc_in.surfaces@, final(self).enc_idx as int)
            } else {
                old(self).enc_in.surfaces@
            },
            final(self).enc_in.buffer@ == if old(self).awaiting == Await::VppSync
                && final(self).awaiting == Await::EncodeSubmit {
                frame_copied(*old(self), final(self).enc_idx as int)
            } else {
                old(self).enc_in.buffer@
            },
            final(self).enc_in.surface_size == old(self).enc_in.surface_size,
            // a complete write empties the bitstream
            final(self).bitstream == if old(self).awaiting == Await::Write && event
                == Event::Written(old(self).bitstream.DataLength as usize) {
                with_length(old(self).bitstream, 0)
            } else {
                old(self).bitstream
            },
            final(self).frames == if old(self).awaiting == Await::EncodeSync && event
                == Event::EncodeSynced(MFX_ERR_NONE) && old(self).frames < u64::MAX {
                (old(self).frames + 1) as u64
            } else {
                old(self).frames
            },
    {
        let during = self.awaiting;
        match (self.awaiting, event) {
            (Await::Done, _) => {},
            (Await::Close, Event::Closed) => {
                self.mode = Mode::Closed;
                self.awaiting = Await::Done;
            },
            (Await::Close, _) => {},
            (Await::Start, Event::Begin) => {
                self.feed();
            },
            (Await::Frame, Event::FrameRead { luma, u, v }) => {
                match LoadRawFrame(&mut self.vpp_in, self.in_idx, &luma, &u, &v) {
                    Ok(()) => {
                        match self.vpp_out.acquire() {
                            Ok(o) => {
                                self.out_idx = o;
                                self.awaiting = Await::VppSubmit;
                            },
                            Err(error) => {
                                self.fail(PipelineError::Status { during, error });
                            },
                        }
                    },
                    Err(_) => {
                        self.vpp_in.release(self.in_idx);
                        self.mode = Mode::Draining;
                        self.feed();
                    },
                }
            },
            (Await::VppSubmit, Event::VppSubmitted(s)) => {
                if s == MFX_ERR_MORE_DATA {
                    self.vpp_out.release(self.out_idx);
                    if self.mode == Mode::Running {
                        self.feed();
                    } else {
                        self.vpp_drained = true;
                        self.awaiting = Await::EncodeSubmit;
                    }
                } else if s >= 0 {
                    self.awaiting = Await::VppSync;
                } else {
                    self.fail(PipelineError::Status { during, error: status_error(s) });
                }
            },
            (Await::VppSync, Event::VppSynced(s)) => {
                if s != MFX_ERR_NONE {
                    self.fail(PipelineError::Status { during, error: status_error(s) });
                } else {
                    let ghost enc0 = self.enc_in.surfaces@;
                    let ghost out_info = self.vpp_out.surfaces@[self.out_idx as int].Info;
                    match self.enc_in.acquire() {
                        Ok(k) => {
                            self.enc_idx = k;
                            assert(self.enc_in.surfaces@[k as int].Info == enc0[k as int].Info);
                            assert forall|j: int|
                                is_first_free(enc0, j) && crop_size(out_info) == crop_size(
                                    #[trigger] enc0[j].Info,
                                ) implies j == k by {
                                crate::pool::lemma_first_free_unique(enc0, j, k as int);
                            }
                            match VppToEncSurface(
                                &self.vpp_out,
                                self.out_idx,
                                &mut self.enc_in,
                                k,
                            ) {
                                Ok(()) => {
                                    assert(crop_size(out_info) == crop_size(enc0[k as int].Info));
                                    self.awaiting = Await::EncodeSubmit;
                                },
                                Err(error) => {
                                    self.fail(PipelineError::Status { during, error });
                                },
                            }
                        },
                        Err(error) => {
                            assert forall|j: int| #[trigger]
                                is_first_free(enc0, j) implies false by {
                                assert(enc0[j].Data.Locked != 0);
                            }
                            self.fail(PipelineError::Status { during, error });
                        },
                    }
                }
            },
            (Await::EncodeSubmit, Event::EncodeSubmitted(s)) => {
                let has_input = self.mode == Mode::Running || !self.vpp_drained;
                if s == MFX_ERR_NONE {
                    self.awaiting = Await::EncodeSync;
                } else if has_input && (s > 0 || s == MFX_ERR_NOT_ENOUGH_BUFFER || s
                    == MFX_ERR_MORE_DATA) {
                    self.feed();
                } else if !has_input && (s > 0 || s == MFX_ERR_NOT_ENOUGH_BUFFER) {
                } else if !has_input && s == MFX_ERR_MORE_DATA {
                    self.awaiting = Await::Close;
                } else {
                    self.fail(PipelineError::Status { during, error: status_error(s) });
                }
            },
            (Await::EncodeSync, Event::EncodeSynced(s)) => {
                if s == MFX_ERR_NONE {
                    if self.frames < u64::MAX {
                        self.frames = self.frames + 1;
                    }
                    self.awaiting = Await::Write;
                } else {
                    self.fail(PipelineError::Status { during, error: status_error(s) });
                }
            },
            (Await::Write, Event::Written(n)) => {
                match WriteBitStreamFrame(&mut self.bitstream, n) {
                    Ok(()) => {
                        self.feed();
                    },
                    Err(e) => {
                        self.fail(PipelineError::Write(e));
                    },
                }
            },
            _ => {
                self.fail(PipelineError::Unexpected { during });
            },
        }
        self.action()
    }
}

/// The error that a status other than success stands for.
fn status_error(s: i32) -> (r: StatusError)
    ensures
        s != MFX_ERR_NONE ==> r == error_of(s),
{
    match check_error(s) {
        Ok(()) => StatusError::Unknown,
        Err(e) => e,
    }
}

} // verus!
