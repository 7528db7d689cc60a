use vstd::prelude::*;

use crate::enums::{SioError, SioResult};

verus! {

/// One channel's memory for one write cycle, as the device hands it out:
/// the byte address of the channel's first sample and the number of bytes
/// from the start of one sample to the start of the next.
#[derive(Clone, Copy, Debug, PartialEq, Eq, Structural)]
pub struct ChannelArea {
    pub ptr: usize,
    pub step: usize,
}

/// The same channel memory, located inside a region of typed samples: the
/// index of the channel's first sample and the distance, in samples, between
/// two consecutive samples of the channel.
#[derive(Clone, Copy, Debug, PartialEq, Eq, Structural)]
pub struct SampleArea {
    pub start: usize,
    pub step: usize,
}

/// Index, in the sample region, of frame `frame` of the channel at `a`.
pub open spec fn sample_index(a: SampleArea, frame: int) -> int {
    a.start + a.step * frame
}

/// Whether every one of the first `channels` areas holds `frames` samples
/// inside a region of `len` samples.
pub open spec fn areas_fit(areas: Seq<SampleArea>, channels: int, frames: int, len: int) -> bool {
    &&& channels <= areas.len()
    &&& forall|ch: int|
        0 <= ch < channels && frames > 0 ==> #[trigger] sample_index(areas[ch], frames - 1) < len
}

impl ChannelArea {
    /// Locates this area inside a region of samples that are `width` bytes
    /// wide and start at byte address `base`. Returns `None` where the area
    /// does not start inside the region on a sample boundary, or where its
    /// stride is not a whole number of samples.
    pub fn to_sample_area(&self, base: usize, width: usize) -> (r: Option<SampleArea>)
        requires
            width > 0,
        ensures
            r is Some <==> (base <= self.ptr && (self.ptr - base) as int % (width as int) == 0
                && (self.step as int) % (width as int) == 0),
            r matches Some(a) ==> a.start * width == self.ptr - base && a.step * width
                == self.step && a.start == (self.ptr - base) as int / (width as int) && a.step
                == (self.step as int) / (width as int),
    {
        if self.ptr < base {
            return None;
        }
        let offset = self.ptr - base;
        if offset % width != 0 || self.step % width != 0 {
            return None;
        }
        let start = offset / width;
        let step = self.step / width;
        assert(start * width == offset) by (nonlinear_arith)
            requires
                (offset as int) % (width as int) == 0,
                width > 0,
                start as int == (offset as int) / (width as int),
        ;
        assert(step * width == self.step) by (nonlinear_arith)
            requires
                (self.step as int) % (width as int) == 0,
                width > 0,
                step as int == (self.step as int) / (width as int),
        ;
        Some(SampleArea { start, step })
    }
}

proof fn lemma_index_monotone(a: SampleArea, i: int, j: int)
    requires
        0 <= i <= j,
    ensures
        sample_index(a, i) <= sample_index(a, j),
{
    assert(a.step * i <= a.step * j) by (nonlinear_arith)
        requires
            0 <= i <= j,
            a.step >= 0,
    ;
}

/// Returns whether every one of the first `channels` areas holds `frames`
/// samples inside a region of `len` samples.
pub fn areas_fit_region(areas: &[SampleArea], channels: usize, frames: usize, len: usize) -> (r:
    bool)
    ensures
        r == areas_fit(areas@, channels as int, frames as int, len as int),
{
    if channels > areas.len() {
        return false;
    }
    if frames == 0 {
        return true;
    }
    let mut ch: usize = 0;
    while ch < channels
        invariant
            channels <= areas@.len(),
            frames > 0,
            ch <= channels,
            forall|c: int|
                0 <= c < ch ==> #[trigger] sample_index(areas@[c], frames - 1) < len,
        decreases channels - ch,
    {
        let a = areas[ch];
        let last = match a.step.checked_mul(frames - 1) {
            Some(p) => a.start.checked_add(p),
            None => None,
        };
        assert(a.step * (frames - 1) >= 0) by (nonlinear_arith)
            requires
                frames >= 1,
        ;
        match last {
            Some(l) => {
                assert(sample_index(areas@[ch as int], frames - 1) == l);
                if l >= len {
                    return false;
                }
            },
            None => {
                assert(sample_index(areas@[ch as int], frames - 1) > usize::MAX);
                return false;
            },
        }
        ch = ch + 1;
    }
    true
}

/// The region after frame `frame` of the first `channels` channels has been
/// stored, channel by channel.
pub open spec fn store_frame<T>(
    region: Seq<T>,
    areas: Seq<SampleArea>,
    buffers: Seq<Seq<T>>,
    frame: int,
    channels: nat,
) -> Seq<T>
    decreases channels,
{
    if channels == 0 {
        region
    } else {
        let ch = channels - 1;
        store_frame(region, areas, buffers, frame, ch as nat).update(
            sample_index(areas[ch], frame),
            buffers[ch][frame],
        )
    }
}

/// The region after the first `frames` frames of the first `channels`
/// channels have been stored, frame by frame: frame `i` of channel `c` goes
/// to the region's index `sample_index(areas[c], i)`.
pub open spec fn stored<T>(
    region: Seq<T>,
    areas: Seq<SampleArea>,
    buffers: Seq<Seq<T>>,
    channels: nat,
    frames: nat,
) -> Seq<T>
    decreases frames,
{
    if frames == 0 {
        region
    } else {
        store_frame(
            stored(region, areas, buffers, channels, (frames - 1) as nat),
            areas,
            buffers,
            frames - 1,
            channels,
        )
    }
}

/// Whether frame `frame` of each of the first `channels` channels lies
/// inside a region of `len` samples.
pub open spec fn frame_fits(areas: Seq<SampleArea>, channels: int, frame: int, len: int) -> bool {
    forall|ch: int|
        0 <= ch < channels ==> 0 <= #[trigger] sample_index(areas[ch], frame) < len
}

proof fn lemma_frame_fits(areas: Seq<SampleArea>, channels: int, frames: int, len: int, frame: int)
    requires
        areas_fit(areas, channels, frames, len),
        0 <= frame < frames,
    ensures
        frame_fits(areas, channels, frame, len),
{
    assert forall|ch: int| 0 <= ch < channels implies 0 <= #[trigger] sample_index(
        areas[ch],
        frame,
    ) < len by {
        let a = areas[ch];
        assert(sample_index(a, frames - 1) < len);
        lemma_index_monotone(a, 0, frame);
        lemma_index_monotone(a, frame, frames - 1);
    }
}

proof fn lemma_store_frame_len<T>(
    region: Seq<T>,
    areas: Seq<SampleArea>,
    buffers: Seq<Seq<T>>,
    frame: int,
    channels: nat,
)
    requires
        frame_fits(areas, channels as int, frame, region.len() as int),
    ensures
        store_frame(region, areas, buffers, frame, channels).len() == region.len(),
    decreases channels,
{
    if channels > 0 {
        lemma_store_frame_len(region, areas, buffers, frame, (channels - 1) as nat);
        assert(0 <= sample_index(areas[channels - 1], frame) < region.len());
    }
}

proof fn lemma_stored_len<T>(
    region: Seq<T>,
    areas: Seq<SampleArea>,
    buffers: Seq<Seq<T>>,
    channels: nat,
    frames: nat,
)
    requires
        areas_fit(areas, channels as int, frames as int, region.len() as int),
    ensures
        stored(region, areas, buffers, channels, frames).len() == region.len(),
    decreases frames,
{
    if frames > 0 {
        assert(areas_fit(areas, channels as int, frames - 1, region.len() as int)) by {
            let f = frames - 1;
            assert forall|ch: int| 0 <= ch < channels && f > 0 implies #[trigger] sample_index(
                areas[ch],
                f - 1,
            ) < region.len() by {
                assert(sample_index(areas[ch], frames - 1) < region.len());
                lemma_index_monotone(areas[ch], f - 1, frames - 1);
            }
        }
        lemma_stored_len(region, areas, buffers, channels, (frames - 1) as nat);
        lemma_frame_fits(areas, channels as int, frames as int, region.len() as int, frames - 1);
        lemma_store_frame_len(
            stored(region, areas, buffers, channels, (frames - 1) as nat),
            areas,
            buffers,
            frames - 1,
            channels,
        );
    }
}

/// Whether the first `frames` frames of the first `channels` channels all
/// go to different indices.
pub open spec fn indices_distinct(areas: Seq<SampleArea>, channels: int, frames: int) -> bool {
    forall|c1: int, i1: int, c2: int, i2: int|
        0 <= c1 < channels && 0 <= i1 < frames && 0 <= c2 < channels && 0 <= i2 < frames && (c1
            != c2 || i1 != i2) ==> #[trigger] sample_index(areas[c1], i1) != #[trigger] sample_index(
            areas[c2],
            i2,
        )
}

/// Whether one of the first `frames` frames of the first `channels`
/// channels goes to index `k`.
pub open spec fn written_at(areas: Seq<SampleArea>, channels: int, frames: int, k: int) -> bool {
    exists|c: int, i: int|
        0 <= c < channels && 0 <= i < frames && #[trigger] sample_index(areas[c], i) == k
}

proof fn lemma_store_frame_contents<T>(
    region: Seq<T>,
    areas: Seq<SampleArea>,
    buffers: Seq<Seq<T>>,
    frame: int,
    channels: nat,
)
    requires
        frame_fits(areas, channels as int, frame, region.len() as int),
        forall|c1: int, c2: int|
            0 <= c1 < channels && 0 <= c2 < channels && c1 != c2 ==> #[trigger] sample_index(
                areas[c1],
                frame,
            ) != #[trigger] sample_index(areas[c2], frame),
    ensures
        forall|c: int|
            0 <= c < channels ==> #[trigger] store_frame(region, areas, buffers, frame, channels)[sample_index(
                areas[c],
                frame,
            )] == buffers[c][frame],
        forall|k: int|
            0 <= k < region.len() && (forall|c: int|
                0 <= c < channels ==> #[trigger] sample_index(areas[c], frame) != k)
                ==> #[trigger] store_frame(region, areas, buffers, frame, channels)[k] == region[k],
    decreases channels,
{
    if channels > 0 {
        let n = (channels - 1) as nat;
        lemma_store_frame_contents(region, areas, buffers, frame, n);
        lemma_store_frame_len(region, areas, buffers, frame, n);
        let prev = store_frame(region, areas, buffers, frame, n);
        let last = sample_index(areas[n as int], frame);
        assert(0 <= last < region.len());
        assert forall|c: int| 0 <= c < channels implies #[trigger] store_frame(
            region,
            areas,
            buffers,
            frame,
            channels,
        )[sample_index(areas[c], frame)] == buffers[c][frame] by {
            if c < n {
                assert(sample_index(areas[c], frame) != last);
                assert(0 <= sample_index(areas[c], frame) < region.len());
            }
        }
        assert forall|k: int|
            0 <= k < region.len() && (forall|c: int|
                0 <= c < channels ==> #[trigger] sample_index(areas[c], frame) != k) implies #[trigger] store_frame(
            region,
            areas,
            buffers,
            frame,
            channels,
        )[k] == region[k] by {
            assert(sample_index(areas[n as int], frame) != k);
            assert(forall|c: int| 0 <= c < n ==> #[trigger] sample_index(areas[c], frame) != k);
            assert(prev[k] == region[k]);
        }
    }
}

/// Where no two samples go to the same index, storing puts each sample at
/// its own index, `sample_index(areas[c], i)`, and leaves every index that
/// no sample goes to as it was.
pub proof fn lemma_stored_contents<T>(
    region: Seq<T>,
    areas: Seq<SampleArea>,
    buffers: Seq<Seq<T>>,
    channels: nat,
    frames: nat,
)
    requires
        areas_fit(areas, channels as int, frames as int, region.len() as int),
        indices_distinct(areas, channels as int, frames as int),
    ensures
        stored(region, areas, buffers, channels, frames).len() == region.len(),
        forall|c: int, i: int|
            0 <= c < channels && 0 <= i < frames ==> #[trigger] stored(
                region,
                areas,
                buffers,
                channels,
                frames,
            )[sample_index(areas[c], i)] == buffers[c][i],
        forall|k: int|
            0 <= k < region.len() && !written_at(areas, channels as int, frames as int, k)
                ==> #[trigger] stored(region, areas, buffers, channels, frames)[k] == region[k],
    decreases frames,
{
    lemma_stored_len(region, areas, buffers, channels, frames);
    if frames > 0 {
        let f = frames - 1;
        assert(areas_fit(areas, channels as int, f, region.len() as int)) by {
            assert forall|ch: int| 0 <= ch < channels && f > 0 implies #[trigger] sample_index(
                areas[ch],
                f - 1,
            ) < region.len() by {
                assert(sample_index(areas[ch], frames - 1) < region.len());
                lemma_index_monotone(areas[ch], f - 1, frames - 1);
            }
        }
        assert(indices_distinct(areas, channels as int, f));
        lemma_stored_contents(region, areas, buffers, channels, f as nat);
        let prev = stored(region, areas, buffers, channels, f as nat);
        lemma_frame_fits(areas, channels as int, frames as int, region.len() as int, f);
        lemma_store_frame_contents(prev, areas, buffers, f, channels);
        let cur = stored(region, areas, buffers, channels, frames);
        assert(cur == store_frame(prev, areas, buffers, f, channels));
        assert forall|c: int, i: int| 0 <= c < channels && 0 <= i < frames implies #[trigger] stored(
            region,
            areas,
            buffers,
            channels,
            frames,
        )[sample_index(areas[c], i)] == buffers[c][i] by {
            if i < f {
                let k = sample_index(areas[c], i);
                lemma_frame_fits(areas, channels as int, frames as int, region.len() as int, i);
                assert(0 <= k < region.len());
                assert forall|c2: int| 0 <= c2 < channels implies #[trigger] sample_index(
                    areas[c2],
                    f,
                ) != k by {
                    assert(sample_index(areas[c2], f) != sample_index(areas[c], i));
                }
                assert(cur[k] == prev[k]);
            }
        }
        assert forall|k: int|
            0 <= k < region.len() && !written_at(
                areas,
                channels as int,
                frames as int,
                k,
            ) implies #[trigger] stored(region, areas, buffers, channels, frames)[k] == region[k] by {
            assert forall|c: int| 0 <= c < channels implies #[trigger] sample_index(areas[c], f)
                != k by {
                if sample_index(areas[c], f) == k {
                    assert(written_at(areas, channels as int, frames as int, k));
                }
            }
            assert(!written_at(areas, channels as int, f, k)) by {
                if written_at(areas, channels as int, f, k) {
                    let (c, i) = choose|c: int, i: int|
                        0 <= c < channels && 0 <= i < f && #[trigger] sample_index(areas[c], i)
                            == k;
                    assert(written_at(areas, channels as int, frames as int, k));
                }
            }
            assert(cur[k] == prev[k]);
        }
    }
}


/// Stores frames `0..frames` of each of the first `channels` buffers into
/// `region`, frame `i` of channel `c` at index `sample_index(areas[c], i)`.
pub fn store_samples<T: Copy>(
    region: &mut [T],
    areas: &[SampleArea],
    buffers: &[Vec<T>],
    channels: usize,
    frames: usize,
)
    requires
        areas_fit(areas@, channels as int, frames as int, old(region)@.len() as int),
        channels <= buffers@.len(),
        forall|c: int| 0 <= c < channels ==> frames <= (#[trigger] buffers@[c])@.len(),
    ensures
        final(region)@ == stored(
            old(region)@,
            areas@,
            buffers@.map_values(|b: Vec<T>| b@),
            channels as nat,
            frames as nat,
        ),
{
    let len = region.len();
    let ghost orig = region@;
    let ghost bufs = buffers@.map_values(|b: Vec<T>| b@);
    let mut idx: usize = 0;
    while idx < frames
        invariant
            areas_fit(areas@, channels as int, frames as int, orig.len() as int),
            channels <= buffers@.len(),
            forall|c: int| 0 <= c < channels ==> frames <= (#[trigger] buffers@[c])@.len(),
            bufs == buffers@.map_values(|b: Vec<T>| b@),
            idx <= frames,
            len == orig.len(),
            region@ == stored(orig, areas@, bufs, channels as nat, idx as nat),
        decreases frames - idx,
    {
        let ghost before = region@;
        proof {
            assert(areas_fit(areas@, channels as int, idx as int, orig.len() as int)) by {
                assert forall|c: int| 0 <= c < channels && idx > 0 implies #[trigger]
                    sample_index(areas@[c], idx - 1) < orig.len() by {
                    assert(sample_index(areas@[c], frames - 1) < orig.len());
                    lemma_index_monotone(areas@[c], idx - 1, frames - 1);
                }
            }
            lemma_stored_len(orig, areas@, bufs, channels as nat, idx as nat);
            lemma_frame_fits(areas@, channels as int, frames as int, orig.len() as int, idx as int);
        }
        let mut ch: usize = 0;
        while ch < channels
            invariant
                areas_fit(areas@, channels as int, frames as int, orig.len() as int),
                channels <= buffers@.len(),
                forall|c: int| 0 <= c < channels ==> frames <= (#[trigger] buffers@[c])@.len(),
                bufs == buffers@.map_values(|b: Vec<T>| b@),
                idx < frames,
                ch <= channels,
                before.len() == orig.len(),
                len == orig.len(),
                frame_fits(areas@, channels as int, idx as int, orig.len() as int),
                region@ == store_frame(before, areas@, bufs, idx as int, ch as nat),
            decreases channels - ch,
        {
            let a = areas[ch];
            proof {
                lemma_store_frame_len(before, areas@, bufs, idx as int, ch as nat);
                assert(0 <= sample_index(areas@[ch as int], idx as int) < orig.len());
            }
            let pos = a.start + a.step * idx;
            let sample = buffers[ch][idx];
            region[pos] = sample;
            ch = ch + 1;
        }
        idx = idx + 1;
    }
}

/// The lowest start address among the first `n` areas.
pub open spec fn min_ptr(raw: Seq<ChannelArea>, n: int) -> usize
    decreases n,
{
    if n <= 1 {
        raw[0].ptr
    } else {
        let rest = min_ptr(raw, n - 1);
        if raw[n - 1].ptr < rest {
            raw[n - 1].ptr
        } else {
            rest
        }
    }
}

/// Whether area `a` starts on a sample boundary at or after `base` and has
/// a stride of whole samples `width` bytes wide.
pub open spec fn aligned(a: ChannelArea, base: usize, width: usize) -> bool {
    base <= a.ptr && (a.ptr - base) as int % (width as int) == 0 && (a.step as int) % (width as int)
        == 0
}

/// One past the index, in a region of samples `width` bytes wide that
/// starts at byte address `base`, of the last of `frames` samples of the
/// channel at `a`.
pub open spec fn region_end(a: ChannelArea, base: usize, width: usize, frames: int) -> int {
    (a.ptr - base) as int / (width as int) + ((a.step as int) / (width as int)) * (frames - 1) + 1
}

/// The region of samples that holds the device's channel areas.
#[derive(Clone, Copy, Debug, PartialEq, Eq, Structural)]
pub struct Region {
    /// Byte address of the region's first sample.
    pub base: usize,
    /// Number of samples in the region.
    pub len: usize,
}

proof fn lemma_min_ptr(raw: Seq<ChannelArea>, n: int)
    requires
        1 <= n <= raw.len(),
    ensures
        forall|c: int| 0 <= c < n ==> min_ptr(raw, n) <= (#[trigger] raw[c]).ptr,
        exists|c: int| 0 <= c < n && min_ptr(raw, n) == (#[trigger] raw[c]).ptr,
    decreases n,
{
    if n > 1 {
        lemma_min_ptr(raw, n - 1);
        let c0 = choose|c: int| 0 <= c < n - 1 && min_ptr(raw, n - 1) == (#[trigger] raw[c]).ptr;
        if raw[n - 1].ptr < min_ptr(raw, n - 1) {
            assert(min_ptr(raw, n) == raw[n - 1].ptr);
        } else {
            assert(min_ptr(raw, n) == raw[c0].ptr);
        }
    } else {
        assert(min_ptr(raw, n) == raw[0].ptr);
    }
}

/// Locates the first `channels` of the device's areas, which hold `frames`
/// frames of samples `width` bytes wide, in one region of samples that
/// starts at the lowest of their addresses and ends with the last sample of
/// any of them. Each channel's area in the region goes to `areas`, which is
/// cleared first; a buffer with room for the channels is not reallocated.
/// `Invalid` where fewer areas than channels are given or the region does
/// not fit in memory; `IncompatibleDevice` where an area is not aligned on
/// whole samples.
pub fn locate_areas(
    raw: &[ChannelArea],
    channels: usize,
    frames: usize,
    width: usize,
    areas: &mut Vec<SampleArea>,
) -> (r: SioResult<Region>)
    requires
        width > 0,
    ensures
        channels > raw@.len() ==> r == Err::<Region, SioError>(SioError::Invalid),
        r matches Err(e) ==> e == SioError::Invalid || (e == SioError::IncompatibleDevice
            && exists|c: int|
            0 <= c < channels && !aligned(#[trigger] raw@[c], min_ptr(raw@, channels as int), width)),
        r is Err ==> channels > raw@.len() || exists|c: int|
            0 <= c < channels && (!aligned(#[trigger] raw@[c], min_ptr(raw@, channels as int), width)
                || (frames > 0 && region_end(raw@[c], min_ptr(raw@, channels as int), width, frames as int)
                > usize::MAX)),
        r matches Ok(g) ==> {
            &&& final(areas)@.len() == channels
            &&& channels > 0 ==> g.base == min_ptr(raw@, channels as int)
            &&& forall|c: int|
                0 <= c < channels ==> (#[trigger] final(areas)@[c]).start * width + g.base
                    == raw@[c].ptr && final(areas)@[c].step * width == raw@[c].step
            &&& areas_fit(final(areas)@, channels as int, frames as int, g.len as int)
            &&& (channels == 0 || frames == 0) ==> g.len == 0
            &&& channels > 0 && frames > 0 ==> exists|c: int|
                0 <= c < channels && #[trigger] sample_index(final(areas)@[c], frames - 1) + 1
                    == g.len
        },
{
    areas.clear();
    if channels > raw.len() {
        return Err(SioError::Invalid);
    }
    if channels == 0 {
        assert(areas@.len() == 0);
        return Ok(Region { base: 0, len: 0 });
    }
    let mut base = raw[0].ptr;
    let mut c: usize = 1;
    while c < channels
        invariant
            1 <= c <= channels,
            channels <= raw@.len(),
            base == min_ptr(raw@, c as int),
        decreases channels - c,
    {
        if raw[c].ptr < base {
            base = raw[c].ptr;
        }
        c = c + 1;
    }
    proof {
        lemma_min_ptr(raw@, channels as int);
    }
    let mut len: usize = 0;
    let mut c: usize = 0;
    while c < channels
        invariant
            c <= channels,
            channels <= raw@.len(),
            width > 0,
            base == min_ptr(raw@, channels as int),
            areas@.len() == c,
            forall|k: int|
                0 <= k < c ==> (#[trigger] areas@[k]).start * width + base == raw@[k].ptr
                    && areas@[k].step * width == raw@[k].step,
            frames == 0 || c == 0 ==> len == 0,
            frames > 0 ==> forall|k: int|
                0 <= k < c ==> #[trigger] sample_index(areas@[k], frames - 1) < len,
            frames > 0 && c > 0 ==> exists|k: int|
                0 <= k < c && #[trigger] sample_index(areas@[k], frames - 1) + 1 == len,
        decreases channels - c,
    {
        let a = match raw[c].to_sample_area(base, width) {
            Some(a) => a,
            None => {
                assert(!aligned(raw@[c as int], base, width));
                return Err(SioError::IncompatibleDevice);
            },
        };
        if frames > 0 {
            assert(sample_index(a, frames - 1) + 1 == region_end(
                raw@[c as int],
                base,
                width,
                frames as int,
            ));
            assert(a.step * (frames - 1) >= 0) by (nonlinear_arith)
                requires
                    frames >= 1,
            ;
            let end = match a.step.checked_mul(frames - 1) {
                Some(p) => match a.start.checked_add(p) {
                    Some(l) => l.checked_add(1),
                    None => None,
                },
                None => None,
            };
            let end = match end {
                Some(e) => e,
                None => {
                    assert(region_end(raw@[c as int], base, width, frames as int) > usize::MAX);
                    return Err(SioError::Invalid);
                },
            };
            let ghost old_areas = areas@;
            let ghost old_len = len;
            if end > len {
                len = end;
            }
            areas.push(a);
            proof {
                assert(areas@[c as int] == a);
                assert(forall|k: int| 0 <= k < c ==> areas@[k] == old_areas[k]);
                if end <= old_len {
                    assert(c > 0);
                    let k = choose|k: int|
                        0 <= k < c && #[trigger] sample_index(old_areas[k], frames - 1) + 1
                            == old_len;
                    assert(areas@[k] == old_areas[k]);
                    assert(sample_index(areas@[k], frames - 1) + 1 == len);
                }
            }
        } else {
            areas.push(a);
        }
        c = c + 1;
        assert(areas@[c - 1] == a);
    }
    assert(areas_fit(areas@, channels as int, frames as int, len as int));
    Ok(Region { base, len })
}

} // verus!
