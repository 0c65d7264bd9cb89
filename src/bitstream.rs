use vstd::prelude::*;

verus! {

/// Encoded output: a buffer of `MaxLength` bytes, of which `DataLength` bytes
/// from `DataOffset` on are valid and not yet written out.
#[derive(Debug)]
pub struct mfxBitstream {
    pub DecodeTimeStamp: i64,
    pub TimeStamp: u64,
    pub Data: Vec<u8>,
    pub DataOffset: u32,
    pub DataLength: u32,
    pub MaxLength: u32,
    pub PicStruct: u16,
    pub FrameType: u16,
    pub DataFlag: u16,
}

/// A write to the sink took fewer (or more) bytes than were pending.
#[derive(Clone, Copy, Debug, PartialEq, Eq, Structural)]
pub struct ShortWrite {
    pub expected: u32,
    pub written: usize,
}

/// `b` with `DataLength` set to `len` and every other field as it was.
pub open spec fn with_length(b: mfxBitstream, len: u32) -> mfxBitstream {
    mfxBitstream { DataLength: len, ..b }
}

impl mfxBitstream {
    /// The buffer holds `MaxLength` bytes and the valid bytes lie inside it.
    pub open spec fn wf(&self) -> bool {
        &&& self.Data@.len() == self.MaxLength
        &&& self.DataOffset + self.DataLength <= self.MaxLength
    }

    /// The valid bytes that wait to be written out.
    pub open spec fn pending_spec(&self) -> Seq<u8> {
        self.Data@.subrange(self.DataOffset as int, self.DataOffset + self.DataLength)
    }

    /// An empty bitstream without a buffer.
    pub fn new() -> (r: Self)
        ensures
            r.wf(),
            r.Data@.len() == 0,
            r.DataOffset == 0,
            r.DataLength == 0,
            r.MaxLength == 0,
            r.DecodeTimeStamp == 0,
            r.TimeStamp == 0,
            r.PicStruct == 0,
            r.FrameType == 0,
            r.DataFlag == 0,
    {
        mfxBitstream {
            DecodeTimeStamp: 0,
            TimeStamp: 0,
            Data: Vec::new(),
            DataOffset: 0,
            DataLength: 0,
            MaxLength: 0,
            PicStruct: 0,
            FrameType: 0,
            DataFlag: 0,
        }
    }

    /// An empty bitstream with a buffer of `1000 * buffer_size_kb` bytes, the
    /// largest frame that the encoder reports.
    pub fn with_capacity(buffer_size_kb: u16) -> (r: Self)
        ensures
            r.wf(),
            r.MaxLength == 1000 * buffer_size_kb,
            r.DataOffset == 0,
            r.DataLength == 0,
            r.DecodeTimeStamp == 0,
            r.TimeStamp == 0,
            r.PicStruct == 0,
            r.FrameType == 0,
            r.DataFlag == 0,
    {
        let max: u32 = 1000 * buffer_size_kb as u32;
        let mut b = mfxBitstream::new();
        b.Data = vec![0u8; max as usize];
        b.MaxLength = max;
        b
    }

    /// A copy of the bytes that wait to be written out.
    pub fn pending(&self) -> (r: Vec<u8>)
        requires
            self.wf(),
        ensures
            r@ == self.pending_spec(),
    {
        let start: usize = self.DataOffset as usize;
        let end: usize = start + self.DataLength as usize;
        let mut out: Vec<u8> = Vec::new();
        let mut k: usize = start;
        while k < end
            invariant
                start <= k <= end,
                end <= self.Data@.len(),
                start == self.DataOffset,
                end == self.DataOffset + self.DataLength,
                out@ == self.Data@.subrange(start as int, k as int),
            decreases end - k,
        {
            out.push(self.Data[k]);
            k = k + 1;
            assert(out@ =~= self.Data@.subrange(start as int, k as int));
        }
        out
    }
}

/// Completes the write of the pending bytes: `written` is how many bytes the
/// sink took. When it took them all, the pending length returns to zero;
/// otherwise the write fails and the bitstream stays as it was.
pub fn WriteBitStreamFrame(bs: &mut mfxBitstream, written: usize) -> (r: Result<(), ShortWrite>)
    requires
        old(bs).wf(),
    ensures
        final(bs).wf(),
        r is Ok <==> written == old(bs).DataLength,
        r is Ok ==> *final(bs) == with_length(*old(bs), 0),
        r matches Err(e) ==> e == (ShortWrite { expected: old(bs).DataLength, written })
            && *final(bs) == *old(bs),
{
    if written != bs.DataLength as usize {
        return Err(ShortWrite { expected: bs.DataLength, written });
    }
    bs.DataLength = 0;
    Ok(())
}

} // verus!
