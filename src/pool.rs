use vstd::prelude::*;

use crate::constants::{mfxStatus, MFX_ERR_NOT_FOUND};
use crate::types::{mfxFrameData, mfxFrameInfo, mfxFrameSurface1};
use crate::utils::{align32, align_up, StatusError};

verus! {

/// How the two chroma planes of a 4:2:0 frame follow the luma plane.
#[derive(Clone, Copy, Debug, PartialEq, Eq, Structural)]
pub enum ChromaLayout {
    /// Two separate planes of a quarter of the luma size each (YV12).
    Planar,
    /// One plane of interleaved chroma pairs; the second component starts one
    /// byte after the first (NV12).
    Interleaved,
}

/// Aligned width of the buffer of a surface with geometry `info`.
pub open spec fn pitch_of(info: mfxFrameInfo) -> int {
    align_up(info.Width as int, 32)
}

/// Bytes of the luma plane of a surface with geometry `info`.
pub open spec fn luma_size(info: mfxFrameInfo) -> int {
    align_up(info.Width as int, 32) * align_up(info.Height as int, 32)
}

/// Bytes of one surface: twelve bits per pixel of the aligned geometry.
pub open spec fn surface_size(info: mfxFrameInfo) -> int {
    luma_size(info) * 12 / 8
}

/// Pixels of the crop rectangle.
pub open spec fn crop_pixels(info: mfxFrameInfo) -> int {
    info.CropW * info.CropH
}

/// Bytes of the crop rectangle at twelve bits per pixel.
pub open spec fn crop_size(info: mfxFrameInfo) -> int {
    crop_pixels(info) * 12 / 8
}

/// A geometry that a pool can be built for: a non-empty buffer that holds the
/// crop rectangle.
pub open spec fn geometry_ok(info: mfxFrameInfo) -> bool {
    &&& info.Width > 0
    &&& info.Height > 0
    &&& info.CropW <= info.Width
    &&& info.CropH <= info.Height
}

/// Offset of the second chroma component from the first.
pub open spec fn second_chroma_offset(layout: ChromaLayout, luma: int) -> int {
    match layout {
        ChromaLayout::Planar => luma / 4,
        ChromaLayout::Interleaved => 1,
    }
}

/// The surface at position `i` of a pool built for `info` and `layout`.
pub open spec fn planned_surface(info: mfxFrameInfo, layout: ChromaLayout, i: int) -> mfxFrameSurface1 {
    let base = i * surface_size(info);
    let u = base + luma_size(info);
    let v = u + second_chroma_offset(layout, luma_size(info));
    mfxFrameSurface1 {
        Info: info,
        Data: mfxFrameData {
            PitchLow: (pitch_of(info) % 65536) as u16,
            PitchHigh: (pitch_of(info) / 65536) as u16,
            ..mfxFrameData::new_spec(base as usize, u as usize, v as usize)
        },
    }
}

/// The surface `s` with its lock counter set to `locked`.
pub open spec fn with_lock(s: mfxFrameSurface1, locked: u16) -> mfxFrameSurface1 {
    mfxFrameSurface1 { Data: mfxFrameData { Locked: locked, ..s.Data }, ..s }
}

/// The surfaces `s` with surface `i` marked in use.
pub open spec fn locked_at(s: Seq<mfxFrameSurface1>, i: int) -> Seq<mfxFrameSurface1> {
    s.update(i, with_lock(s[i], 1))
}

/// The surfaces `s` with surface `i` marked free.
pub open spec fn released_at(s: Seq<mfxFrameSurface1>, i: int) -> Seq<mfxFrameSurface1> {
    s.update(i, with_lock(s[i], 0))
}

/// The surfaces `s` with their lock counters set to `locks`, one for one.
pub open spec fn with_locks(s: Seq<mfxFrameSurface1>, locks: Seq<u16>) -> Seq<mfxFrameSurface1> {
    Seq::new(s.len(), |i: int| with_lock(s[i], locks[i]))
}

/// The buffer of `count` surfaces for `info` can be addressed.
pub open spec fn pool_fits(count: int, info: mfxFrameInfo) -> bool {
    &&& surface_size(info) <= usize::MAX
    &&& count * surface_size(info) <= usize::MAX
}

/// `k` is the first free surface of `s`: it is free and all before it are in use.
pub open spec fn is_first_free(s: Seq<mfxFrameSurface1>, k: int) -> bool {
    &&& 0 <= k < s.len()
    &&& s[k].Data.Locked == 0
    &&& forall|j: int| 0 <= j < k ==> #[trigger] s[j].Data.Locked != 0
}

/// No surface of `s` is free.
pub open spec fn all_locked(s: Seq<mfxFrameSurface1>) -> bool {
    forall|j: int| 0 <= j < s.len() ==> #[trigger] s[j].Data.Locked != 0
}

/// `dst` with the bytes from `at` on replaced by `src`.
pub open spec fn spliced(dst: Seq<u8>, at: int, src: Seq<u8>) -> Seq<u8> {
    dst.subrange(0, at) + src + dst.subrange(at + src.len(), dst.len() as int)
}

/// The planes of surface `s` lie in the bytes `[base, base + size)` of the pool's buffer.
pub open spec fn planes_fit(s: mfxFrameSurface1, base: int, size: int) -> bool {
    let n = crop_pixels(s.Info);
    &&& s.Data.Y == base
    &&& n <= size
    &&& s.Data.U + n / 4 <= base + size
    &&& s.Data.V + n / 4 <= base + size
    &&& crop_size(s.Info) <= size
}

/// A fixed set of equally sized frame surfaces, sliced from one buffer.
#[derive(Debug)]
pub struct SurfacePool {
    pub surfaces: Vec<mfxFrameSurface1>,
    pub buffer: Vec<u8>,
    pub surface_size: usize,
}

/// Returns the index of the first surface that is not locked.
pub fn GetFreeSurfaceIndex(surfaces: &Vec<mfxFrameSurface1>) -> (r: Result<usize, mfxStatus>)
    ensures
        r matches Ok(i) ==> is_first_free(surfaces@, i as int),
        r matches Err(e) ==> e == MFX_ERR_NOT_FOUND && all_locked(surfaces@),
{
    let mut i: usize = 0;
    while i < surfaces.len()
        invariant
            0 <= i <= surfaces@.len(),
            forall|j: int| 0 <= j < i ==> #[trigger] surfaces@[j].Data.Locked != 0,
        decreases surfaces@.len() - i,
    {
        if surfaces[i].Data.Locked == 0 {
            return Ok(i);
        }
        i = i + 1;
    }
    Err(MFX_ERR_NOT_FOUND)
}

proof fn lemma_slot_in_buffer(i: int, n: int, size: int)
    requires
        0 <= i < n,
        size >= 0,
    ensures
        i * size + size <= n * size,
        0 <= i * size,
{
    assert(i * size + size <= n * size) by (nonlinear_arith)
        requires
            0 <= i < n,
            size >= 0,
    ;
    assert(0 <= i * size) by (nonlinear_arith)
        requires
            0 <= i,
            size >= 0,
    ;
}

/// Copies `n` bytes of `src` from `from` into `dst` at `at`.
fn copy_range(dst: &mut Vec<u8>, at: usize, src: &Vec<u8>, from: usize, n: usize)
    requires
        at + n <= old(dst)@.len(),
        from + n <= src@.len(),
    ensures
        final(dst)@ == spliced(old(dst)@, at as int, src@.subrange(from as int, from + n)),
{
    let ghost before = dst@;
    let mut k: usize = 0;
    while k < n
        invariant
            0 <= k <= n,
            at + n <= dst.len(),
            from + n <= src.len(),
            dst@.len() == before.len(),
            forall|j: int|
                0 <= j < dst@.len() ==> #[trigger] dst@[j] == if at <= j < at + k {
                    src@[from + j - at]
                } else {
                    before[j]
                },
        decreases n - k,
    {
        dst[at + k] = src[from + k];
        k = k + 1;
    }
    assert(dst@ =~= spliced(before, at as int, src@.subrange(from as int, from + n)));
}

impl SurfacePool {
    /// The pool's buffer holds one slot of `surface_size` bytes per surface,
    /// and each surface's planes lie in its own slot.
    pub open spec fn wf(&self) -> bool {
        &&& self.buffer@.len() == self.surfaces@.len() * self.surface_size
        &&& forall|i: int|
            0 <= i < self.surfaces@.len() ==> planes_fit(
                #[trigger] self.surfaces@[i],
                i * self.surface_size,
                self.surface_size as int,
            )
    }

    /// Number of surfaces.
    pub open spec fn count(&self) -> nat {
        self.surfaces@.len()
    }

    /// The surfaces with `count` slots of one buffer, each for a frame of
    /// geometry `info`, all free.
    ///
    /// Fails with `InvalidVideoParam` where the geometry has an empty buffer or
    /// a crop rectangle larger than the buffer, and with `MemoryAlloc` where
    /// the buffer's size does not fit in `usize`.
    pub fn construct(count: u16, info: mfxFrameInfo, layout: ChromaLayout) -> (r: Result<
        SurfacePool,
        StatusError,
    >)
        ensures
            r is Ok <==> geometry_ok(info) && pool_fits(count as int, info),
            r matches Ok(p) ==> {
                &&& p.wf()
                &&& p.count() == count
                &&& p.surface_size == surface_size(info)
                &&& forall|i: int|
                    0 <= i < count ==> #[trigger] p.surfaces@[i] == planned_surface(
                        info,
                        layout,
                        i,
                    )
                &&& forall|i: int| 0 <= i < count ==> #[trigger] p.surfaces@[i].Data.Locked == 0
            },
            r matches Err(e) ==> e == if geometry_ok(info) {
                StatusError::MemoryAlloc
            } else {
                StatusError::InvalidVideoParam
            },
    {
        if info.Width == 0 || info.Height == 0 || info.CropW > info.Width || info.CropH
            > info.Height {
            return Err(StatusError::InvalidVideoParam);
        }
        let width: usize = align32(info.Width as u32) as usize;
        let height: usize = align32(info.Height as u32) as usize;
        proof {
            crate::utils::lemma_align_up_positive(info.Width as int, 32);
            crate::utils::lemma_align_up_positive(info.Height as int, 32);
        }
        let luma: usize = match width.checked_mul(height) {
            Some(v) => v,
            None => return Err(StatusError::MemoryAlloc),
        };
        let size: usize = match luma.checked_add(luma / 2) {
            Some(v) => v,
            None => return Err(StatusError::MemoryAlloc),
        };
        assert(size == luma * 12 / 8);
        let total: usize = match (count as usize).checked_mul(size) {
            Some(v) => v,
            None => return Err(StatusError::MemoryAlloc),
        };
        let second: usize = match layout {
            ChromaLayout::Planar => luma / 4,
            ChromaLayout::Interleaved => 1,
        };
        let ghost n = crop_pixels(info);
        assert(n <= luma) by (nonlinear_arith)
            requires
                n == info.CropW * info.CropH,
                info.CropW <= width,
                info.CropH <= height,
                luma == width * height,
        ;
        assert(luma >= 1024) by (nonlinear_arith)
            requires
                width >= 32,
                height >= 32,
                luma == width * height,
        ;
        assert(n * 12 / 8 <= size) by (nonlinear_arith)
            requires
                n <= luma,
                size == luma * 12 / 8,
        ;
        let buffer: Vec<u8> = vec![0u8; total];
        let mut surfaces: Vec<mfxFrameSurface1> = Vec::new();
        let mut i: usize = 0;
        while i < count as usize
            invariant
                0 <= i <= count,
                geometry_ok(info),
                width == pitch_of(info),
                luma == luma_size(info),
                size == surface_size(info),
                total == count * size,
                luma >= 1024,
                n == crop_pixels(info),
                n <= luma,
                n * 12 / 8 <= size,
                second == second_chroma_offset(layout, luma as int),
                surfaces@.len() == i,
                forall|j: int|
                    0 <= j < i ==> #[trigger] surfaces@[j] == planned_surface(info, layout, j),
                forall|j: int|
                    0 <= j < i ==> planes_fit(#[trigger] surfaces@[j], j * size, size as int),
            decreases count - i,
        {
            proof {
                lemma_slot_in_buffer(i as int, count as int, size as int);
            }
            let base: usize = i * size;
            let mut data = mfxFrameData::new(base, base + luma, base + luma + second);
            data.PitchLow = (width % 65536) as u16;
            data.PitchHigh = (width / 65536) as u16;
            let surface = mfxFrameSurface1 { Info: info, Data: data };
            assert(planes_fit(surface, i * size, size as int)) by {
                assert(luma + luma / 4 + luma / 4 <= size);
                assert(luma + 1 + luma / 4 <= size);
                assert(n / 4 <= luma / 4) by (nonlinear_arith)
                    requires
                        n <= luma,
                ;
            }
            surfaces.push(surface);
            i = i + 1;
        }
        let pool = SurfacePool { surfaces, buffer, surface_size: size };
        assert(pool.buffer@.len() == pool.surfaces@.len() * pool.surface_size);
        Ok(pool)
    }

    /// Hands out the first free surface and marks it in use.
    ///
    /// Fails with `NotFound`, changing nothing, when every surface is in use.
    pub fn acquire(&mut self) -> (r: Result<usize, StatusError>)
        requires
            old(self).wf(),
        ensures
            final(self).wf(),
            r matches Ok(i) ==> {
                &&& is_first_free(old(self).surfaces@, i as int)
                &&& final(self).surfaces@ == locked_at(old(self).surfaces@, i as int)
                &&& final(self).buffer == old(self).buffer
                &&& final(self).surface_size == old(self).surface_size
            },
            r matches Err(e) ==> {
                &&& e == StatusError::NotFound
                &&& all_locked(old(self).surfaces@)
                &&& *final(self) == *old(self)
            },
    {
        match GetFreeSurfaceIndex(&self.surfaces) {
            Ok(i) => {
                let mut s = self.surfaces[i];
                s.Data.Locked = 1;
                self.surfaces.set(i, s);
                assert forall|j: int| 0 <= j < self.surfaces@.len() implies planes_fit(
                    #[trigger] self.surfaces@[j],
                    j * self.surface_size,
                    self.surface_size as int,
                ) by {
                    assert(old(self).surfaces@[j].Data.Y == self.surfaces@[j].Data.Y);
                    assert(planes_fit(
                        old(self).surfaces@[j],
                        j * self.surface_size,
                        self.surface_size as int,
                    ));
                }
                Ok(i)
            },
            Err(_) => Err(StatusError::NotFound),
        }
    }

    /// Takes the lock counters that the stage keeps for these surfaces, one
    /// per surface in pool order: a surface the stage still holds stays in use,
    /// one it has let go of becomes free.
    ///
    /// Returns `false`, changing nothing, when `locks` does not have one
    /// counter per surface.
    pub fn record_locks(&mut self, locks: &Vec<u16>) -> (r: bool)
        requires
            old(self).wf(),
        ensures
            final(self).wf(),
            r == (locks@.len() == old(self).count()),
            r ==> final(self).surfaces@ == with_locks(old(self).surfaces@, locks@),
            !r ==> final(self).surfaces == old(self).surfaces,
            final(self).buffer == old(self).buffer,
            final(self).surface_size == old(self).surface_size,
    {
        if locks.len() != self.surfaces.len() {
            return false;
        }
        let ghost before = self.surfaces@;
        let mut i: usize = 0;
        while i < locks.len()
            invariant
                0 <= i <= locks@.len(),
                locks@.len() == before.len(),
                self.surfaces@.len() == before.len(),
                self.buffer == old(self).buffer,
                self.surface_size == old(self).surface_size,
                self.buffer@.len() == before.len() * self.surface_size,
                forall|j: int|
                    0 <= j < i ==> #[trigger] self.surfaces@[j] == with_lock(before[j], locks@[j]),
                forall|j: int| i <= j < before.len() ==> #[trigger] self.surfaces@[j] == before[j],
                forall|j: int|
                    0 <= j < before.len() ==> planes_fit(
                        #[trigger] before[j],
                        j * self.surface_size,
                        self.surface_size as int,
                    ),
            decreases locks@.len() - i,
        {
            let mut s = self.surfaces[i];
            s.Data.Locked = locks[i];
            self.surfaces.set(i, s);
            i = i + 1;
        }
        assert(self.surfaces@ =~= with_locks(before, locks@));
        assert forall|j: int| 0 <= j < self.surfaces@.len() implies planes_fit(
            #[trigger] self.surfaces@[j],
            j * self.surface_size,
            self.surface_size as int,
        ) by {
            assert(planes_fit(before[j], j * self.surface_size, self.surface_size as int));
        }
        true
    }

    /// Marks surface `i` free again, once the operation that used it has completed.
    pub fn release(&mut self, i: usize)
        requires
            old(self).wf(),
            i < old(self).count(),
        ensures
            final(self).wf(),
            final(self).surfaces@ == released_at(old(self).surfaces@, i as int),
            final(self).buffer == old(self).buffer,
            final(self).surface_size == old(self).surface_size,
    {
        let mut s = self.surfaces[i];
        s.Data.Locked = 0;
        self.surfaces.set(i, s);
        assert forall|j: int| 0 <= j < self.surfaces@.len() implies planes_fit(
            #[trigger] self.surfaces@[j],
            j * self.surface_size,
            self.surface_size as int,
        ) by {
            assert(planes_fit(
                old(self).surfaces@[j],
                j * self.surface_size,
                self.surface_size as int,
            ));
        }
    }
}

/// Bytes of the crop rectangle of `info`: `n` pixels at twelve bits each.
fn crop_bytes(info: &mfxFrameInfo, size: usize) -> (r: usize)
    requires
        crop_size(*info) <= size,
    ensures
        r == crop_size(*info),
        r <= size,
{
    let ghost n = crop_pixels(*info);
    assert(n <= n * 12 / 8) by (nonlinear_arith)
        requires
            n >= 0,
    ;
    assert(info.CropW as usize * info.CropH as usize <= size);
    let pixels: usize = info.CropW as usize * info.CropH as usize;
    pixels + pixels / 2
}

impl SurfacePool {
    /// Byte counts of one raw frame for surface `idx`: the luma plane, and each
    /// of the two chroma planes.
    pub fn raw_frame_sizes(&self, idx: usize) -> (r: (usize, usize))
        requires
            self.wf(),
            idx < self.count(),
        ensures
            r.0 == crop_pixels(self.surfaces@[idx as int].Info),
            r.1 == crop_pixels(self.surfaces@[idx as int].Info) / 4,
    {
        let ghost s = self.surfaces@[idx as int];
        assert(planes_fit(s, idx * self.surface_size, self.surface_size as int));
        let info = &self.surfaces[idx].Info;
        let pixels: usize = info.CropW as usize * info.CropH as usize;
        (pixels, pixels / 4)
    }
}

/// Fills surface `idx` with one raw 4:2:0 frame: the luma plane `luma`, then
/// the chroma planes `u` and `v`, each as many bytes as were read for it.
///
/// A plane shorter than the surface's crop rectangle asks for, or an empty
/// luma plane, means that the input has ended: the result is `MoreData` and
/// the pool is left as it was.
pub fn LoadRawFrame(
    pool: &mut SurfacePool,
    idx: usize,
    luma: &Vec<u8>,
    u: &Vec<u8>,
    v: &Vec<u8>,
) -> (r: Result<(), StatusError>)
    requires
        old(pool).wf(),
        idx < old(pool).count(),
    ensures
        final(pool).wf(),
        ({
            let s = old(pool).surfaces@[idx as int];
            let n = crop_pixels(s.Info);
            &&& r is Ok <==> (n > 0 && luma@.len() == n && u@.len() == n / 4 && v@.len() == n / 4)
            &&& r is Ok ==> final(pool).buffer@ == spliced(
                spliced(spliced(old(pool).buffer@, s.Data.Y as int, luma@), s.Data.U as int, u@),
                s.Data.V as int,
                v@,
            )
            &&& r is Ok ==> final(pool).surfaces == old(pool).surfaces
            &&& r is Ok ==> final(pool).surface_size == old(pool).surface_size
            &&& r matches Err(e) ==> e == StatusError::MoreData && *final(pool) == *old(pool)
        }),
{
    let ghost s = pool.surfaces@[idx as int];
    let ghost base = idx * pool.surface_size;
    proof {
        lemma_slot_in_buffer(idx as int, pool.count() as int, pool.surface_size as int);
    }
    assert(planes_fit(s, base, pool.surface_size as int));
    let (size, size_uv) = pool.raw_frame_sizes(idx);
    if size == 0 || luma.len() != size || u.len() != size_uv || v.len() != size_uv {
        return Err(StatusError::MoreData);
    }
    let y_at: usize = pool.surfaces[idx].Data.Y;
    let u_at: usize = pool.surfaces[idx].Data.U;
    let v_at: usize = pool.surfaces[idx].Data.V;
    copy_range(&mut pool.buffer, y_at, luma, 0, size);
    assert(luma@.subrange(0, size as int) =~= luma@);
    copy_range(&mut pool.buffer, u_at, u, 0, size_uv);
    assert(u@.subrange(0, size_uv as int) =~= u@);
    copy_range(&mut pool.buffer, v_at, v, 0, size_uv);
    assert(v@.subrange(0, size_uv as int) =~= v@);
    Ok(())
}

/// Copies the frame of surface `src_idx` of `src` into surface `dst_idx` of
/// `dst`: the bytes of the crop rectangle at twelve bits per pixel, from the
/// start of each surface's slot.
///
/// Fails with `Unknown`, copying nothing, when the two crop rectangles differ
/// in size.
pub fn VppToEncSurface(
    src: &SurfacePool,
    src_idx: usize,
    dst: &mut SurfacePool,
    dst_idx: usize,
) -> (r: Result<(), StatusError>)
    requires
        src.wf(),
        old(dst).wf(),
        src_idx < src.count(),
        dst_idx < old(dst).count(),
    ensures
        final(dst).wf(),
        ({
            let a = src.surfaces@[src_idx as int];
            let b = old(dst).surfaces@[dst_idx as int];
            &&& r is Ok <==> crop_size(a.Info) == crop_size(b.Info)
            &&& r is Ok ==> final(dst).buffer@ == spliced(
                old(dst).buffer@,
                b.Data.Y as int,
                src.buffer@.subrange(a.Data.Y as int, a.Data.Y + crop_size(a.Info)),
            )
            &&& r is Ok ==> final(dst).surfaces == old(dst).surfaces
            &&& r is Ok ==> final(dst).surface_size == old(dst).surface_size
            &&& r matches Err(e) ==> e == StatusError::Unknown && *final(dst) == *old(dst)
        }),
{
    proof {
        lemma_slot_in_buffer(src_idx as int, src.count() as int, src.surface_size as int);
        lemma_slot_in_buffer(dst_idx as int, dst.count() as int, dst.surface_size as int);
    }
    assert(planes_fit(
        src.surfaces@[src_idx as int],
        src_idx * src.surface_size,
        src.surface_size as int,
    ));
    assert(planes_fit(
        dst.surfaces@[dst_idx as int],
        dst_idx * dst.surface_size,
        dst.surface_size as int,
    ));
    let size_src: usize = crop_bytes(&src.surfaces[src_idx].Info, src.surface_size);
    let size_dst: usize = crop_bytes(&dst.surfaces[dst_idx].Info, dst.surface_size);
    if size_src != size_dst {
        return Err(StatusError::Unknown);
    }
    let from: usize = src.surfaces[src_idx].Data.Y;
    let at: usize = dst.surfaces[dst_idx].Data.Y;
    copy_range(&mut dst.buffer, at, &src.buffer, from, size_src);
    Ok(())
}

proof fn lemma_some_first_free(s: Seq<mfxFrameSurface1>, i: int)
    requires
        0 <= i < s.len(),
        s[i].Data.Locked == 0,
    ensures
        exists|k: int| 0 <= k <= i && is_first_free(s, k),
    decreases i,
{
    if exists|j: int| 0 <= j < i && #[trigger] s[j].Data.Locked == 0 {
        let j = choose|j: int| 0 <= j < i && #[trigger] s[j].Data.Locked == 0;
        lemma_some_first_free(s, j);
    } else {
        assert(is_first_free(s, i));
    }
}

/// Once surface `i` is released, a surface is free again, at `i` or before it;
/// and where every surface before `i` is still in use, the next `acquire`
/// hands out `i` itself.
pub proof fn lemma_release_then_acquire(p: SurfacePool, i: int)
    requires
        p.wf(),
        0 <= i < p.count(),
    ensures
        ({
            let q = released_at(p.surfaces@, i);
            &&& exists|k: int| 0 <= k <= i && is_first_free(q, k)
            &&& (forall|j: int| 0 <= j < i ==> #[trigger] p.surfaces@[j].Data.Locked != 0)
                ==> is_first_free(q, i)
        }),
{
    let q = released_at(p.surfaces@, i);
    lemma_some_first_free(q, i);
    if forall|j: int| 0 <= j < i ==> #[trigger] p.surfaces@[j].Data.Locked != 0 {
        assert forall|j: int| 0 <= j < i implies #[trigger] q[j].Data.Locked != 0 by {
            assert(q[j] == p.surfaces@[j]);
        }
    }
}

/// The first free surface is unique: two indices that both are the first free
/// surface of `s` are the same.
pub proof fn lemma_first_free_unique(s: Seq<mfxFrameSurface1>, a: int, b: int)
    requires
        is_first_free(s, a),
        is_first_free(s, b),
    ensures
        a == b,
{
    if a < b {
        assert(s[a].Data.Locked != 0);
    } else if b < a {
        assert(s[b].Data.Locked != 0);
    }
}

/// At twelve bits per pixel two crop rectangles take the same number of bytes
/// exactly when they hold the same number of pixels, so a copy between two
/// surfaces succeeds exactly when their crop areas are equal.
pub proof fn lemma_copy_geometry(a: mfxFrameInfo, b: mfxFrameInfo)
    ensures
        crop_size(a) == crop_size(b) <==> a.CropW * a.CropH == b.CropW * b.CropH,
{
    let x = crop_pixels(a);
    let y = crop_pixels(b);
    assert(x >= 0 && y >= 0) by (nonlinear_arith)
        requires
            x == a.CropW * a.CropH,
            y == b.CropW * b.CropH,
            a.CropW >= 0,
            a.CropH >= 0,
            b.CropW >= 0,
            b.CropH >= 0,
    ;
    assert(x * 12 / 8 == x + x / 2);
    assert(y * 12 / 8 == y + y / 2);
}

} // verus!
