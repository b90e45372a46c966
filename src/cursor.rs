use crate::control::PlaybackFlag;
use crate::timing::{backend_seconds, calc_seconds, TimeBase, TrackTiming};
use vstd::prelude::*;

verus! {

/// How a callback invocation begins.
#[derive(Clone, Copy, Debug, PartialEq, Eq, Structural)]
pub enum BlockStart {
    /// Playback is not running: the block is all silence and nothing else happens.
    Silent,
    /// A seek is pending: the caller seeks the reader coarsely to this second,
    /// clears the seek slot, then fills.
    Seek(u64),
    /// The caller fills the block.
    Fill,
}

/// The decode state that the audio callback alone owns, as values.
pub struct CursorView<S> {
    pub track_id: u32,
    pub time_base: TimeBase,
    pub silence: S,
    pub pcm: Seq<S>,
    pub offset: nat,
    pub last_second: Option<u64>,
    pub written: nat,
}

/// The decode state of one playback session: the samples of the last
/// decoded packet, a read cursor into them, the last second reported, and how
/// much of the current output block is written.
pub struct DecodeCursor<S> {
    pub track_id: u32,
    pub time_base: TimeBase,
    /// The sample value that stands for silence.
    pub silence: S,
    pub pcm_buffer: Vec<S>,
    pub pcm_offset: usize,
    pub last_reported_second: Option<u64>,
    /// Samples of the current output block written so far.
    pub written: usize,
}

impl<S> View for DecodeCursor<S> {
    type V = CursorView<S>;

    open spec fn view(&self) -> CursorView<S> {
        CursorView {
            track_id: self.track_id,
            time_base: self.time_base,
            silence: self.silence,
            pcm: self.pcm_buffer@,
            offset: self.pcm_offset as nat,
            last_second: self.last_reported_second,
            written: self.written as nat,
        }
    }
}

/// `len` samples of silence.
pub open spec fn silence_block<S>(silence: S, len: nat) -> Seq<S> {
    Seq::new(len, |i: int| silence)
}

/// `out` with every sample from `from` on replaced by silence.
pub open spec fn silenced_from<S>(out: Seq<S>, from: nat, silence: S) -> Seq<S> {
    Seq::new(out.len(), |i: int| if i < from { out[i] } else { silence })
}

/// The cursor after a dropped or invalidated buffer.
pub open spec fn cleared<S>(v: CursorView<S>) -> CursorView<S> {
    CursorView { pcm: Seq::empty(), offset: 0, ..v }
}

/// How a block begins for the given flag and pending seek.
pub open spec fn block_start(flag: PlaybackFlag, seek: Option<u64>) -> BlockStart {
    if flag != PlaybackFlag::Playing {
        BlockStart::Silent
    } else {
        match seek {
            Some(t) => BlockStart::Seek(t),
            None => BlockStart::Fill,
        }
    }
}

/// The cursor once a block has begun: untouched unless playing; a seek drops
/// the buffered samples; a fill starts at the first sample of the block.
pub open spec fn begun<S>(v: CursorView<S>, flag: PlaybackFlag, seek: Option<u64>) -> CursorView<S> {
    match block_start(flag, seek) {
        BlockStart::Silent => v,
        BlockStart::Seek(_) => CursorView { written: 0, ..cleared(v) },
        BlockStart::Fill => CursorView { written: 0, ..v },
    }
}

/// How many samples a fill moves: what is buffered, bounded by the room left.
pub open spec fn fill_count<S>(v: CursorView<S>, out_len: nat) -> nat {
    let avail = v.pcm.len() - v.offset;
    let room = out_len - v.written;
    if avail < room {
        avail as nat
    } else {
        room as nat
    }
}

/// The block after a fill: the next samples of the buffer at the write position.
pub open spec fn filled<S>(v: CursorView<S>, out: Seq<S>) -> Seq<S> {
    let k = fill_count(v, out.len());
    Seq::new(
        out.len(),
        |i: int|
            if v.written <= i < v.written + k {
                v.pcm[v.offset + i - v.written]
            } else {
                out[i]
            },
    )
}

/// The last-reported second and the notification after a packet at `second`:
/// a second is reported unless it was the last one reported.
pub open spec fn noted(last: Option<u64>, second: u64) -> (Option<u64>, Option<u64>) {
    (Some(second), if last == Some(second) { None } else { Some(second) })
}

impl<S: Copy> DecodeCursor<S> {
    /// The read cursor stays inside the buffer and the time base converts.
    pub open spec fn wf(&self) -> bool {
        &&& self.pcm_offset <= self.pcm_buffer@.len()
        &&& self.time_base.valid()
    }

    /// A fresh cursor for a negotiated track: nothing buffered, nothing reported.
    pub fn new(timing: &TrackTiming, silence: S) -> (r: DecodeCursor<S>)
        requires
            timing.time_base.valid(),
        ensures
            r.wf(),
            r@ == (CursorView {
                track_id: timing.track_id,
                time_base: timing.time_base,
                silence,
                pcm: Seq::<S>::empty(),
                offset: 0,
                last_second: None::<u64>,
                written: 0,
            }),
    {
        DecodeCursor {
            track_id: timing.track_id,
            time_base: timing.time_base,
            silence,
            pcm_buffer: Vec::new(),
            pcm_offset: 0,
            last_reported_second: None,
            written: 0,
        }
    }

    /// Writes silence into `out` from `from` on.
    fn silence_tail(&self, out: &mut [S], from: usize)
        requires
            from <= old(out)@.len(),
        ensures
            final(out)@ == silenced_from(old(out)@, from as nat, self.silence),
    {
        let len = out.len();
        let mut i: usize = from;
        while i < len
            invariant
                from <= i <= len,
                len == out@.len(),
                out@.len() == old(out)@.len(),
                forall|j: int| 0 <= j < len ==> out@[j] == (if j < from || j >= i {
                    old(out)@[j]
                } else {
                    self.silence
                }),
            decreases len - i,
        {
            out[i] = self.silence;
            i = i + 1;
        }
        assert(out@ =~= silenced_from(old(out)@, from as nat, self.silence));
    }

    /// Begins a callback invocation. While not playing the block becomes all
    /// silence and the cursor is untouched, so that playing again continues
    /// from the same sample. A pending seek drops the buffered samples.
    pub fn begin(&mut self, flag: PlaybackFlag, seek: Option<u64>, out: &mut [S]) -> (r: BlockStart)
        requires
            old(self).wf(),
        ensures
            final(self).wf(),
            r == block_start(flag, seek),
            final(self)@ == begun(old(self)@, flag, seek),
            final(out)@ == (if r == BlockStart::Silent {
                silence_block(old(self).silence, old(out)@.len())
            } else {
                old(out)@
            }),
    {
        if flag != PlaybackFlag::Playing {
            self.silence_tail(out, 0);
            assert(out@ =~= silence_block(self.silence, out@.len()));
            return BlockStart::Silent;
        }
        self.written = 0;
        match seek {
            Some(t) => {
                self.pcm_buffer = Vec::new();
                self.pcm_offset = 0;
                assert(self@.pcm =~= Seq::<S>::empty());
                BlockStart::Seek(t)
            },
            None => BlockStart::Fill,
        }
    }

    /// Copies buffered samples into the block at the write position, as many
    /// as are buffered and fit. Returns whether the block still has room, in
    /// which case the buffer is used up and the next packet is wanted.
    pub fn fill(&mut self, out: &mut [S]) -> (need_packet: bool)
        requires
            old(self).wf(),
            old(self).written <= old(out)@.len(),
        ensures
            final(self).wf(),
            final(out)@ == filled(old(self)@, old(out)@),
            final(self)@ == (CursorView {
                offset: old(self)@.offset + fill_count(old(self)@, old(out)@.len()),
                written: old(self)@.written + fill_count(old(self)@, old(out)@.len()),
                ..old(self)@
            }),
            need_packet == (final(self).written < old(out)@.len()),
            need_packet ==> final(self).pcm_offset == final(self).pcm_buffer@.len(),
    {
        let avail = self.pcm_buffer.len() - self.pcm_offset;
        let room = out.len() - self.written;
        let k = if avail < room {
            avail
        } else {
            room
        };
        let w = self.written;
        let o = self.pcm_offset;
        let len = out.len();
        let buffered = self.pcm_buffer.len();
        let mut i: usize = 0;
        while i < k
            invariant
                k == fill_count(self@, out@.len()),
                w == self.written,
                o == self.pcm_offset,
                self.wf(),
                len == out@.len(),
                buffered == self.pcm_buffer@.len(),
                w + k <= len,
                o + k <= buffered,
                i <= k,
                out@.len() == old(out)@.len(),
                *self == *old(self),
                forall|j: int| 0 <= j < out@.len() ==> out@[j] == (if w <= j < w + i {
                    self.pcm_buffer@[o + j - w]
                } else {
                    old(out)@[j]
                }),
            decreases k - i,
        {
            out[w + i] = self.pcm_buffer[o + i];
            i = i + 1;
        }
        assert(out@ =~= filled(old(self)@, old(out)@));
        self.pcm_offset = o + k;
        self.written = w + k;
        self.written < out.len()
    }

    /// Records that a packet at `second` was decoded: returns the second to
    /// report, unless it is the one reported last.
    pub fn note_second(&mut self, second: u64) -> (r: Option<u64>)
        ensures
            (final(self).last_reported_second, r) == noted(old(self).last_reported_second, second),
            final(self)@ == (CursorView { last_second: Some(second), ..old(self)@ }),
    {
        let r = if self.last_reported_second == Some(second) {
            None
        } else {
            Some(second)
        };
        self.last_reported_second = Some(second);
        r
    }

    /// Takes the samples decoded from the packet with timestamp `ts` as the
    /// new buffer, read from its start, and returns the second to report.
    pub fn on_decoded(&mut self, samples: Vec<S>, ts: u64) -> (r: Option<u64>)
        requires
            old(self).wf(),
        ensures
            final(self).wf(),
            (final(self).last_reported_second, r) == noted(
                old(self).last_reported_second,
                backend_seconds(old(self).time_base.numer, old(self).time_base.denom, ts),
            ),
            final(self)@ == (CursorView {
                pcm: samples@,
                offset: 0,
                last_second: final(self).last_reported_second,
                ..old(self)@
            }),
    {
        self.pcm_buffer = samples;
        self.pcm_offset = 0;
        let second = calc_seconds(self.time_base, ts);
        self.note_second(second)
    }

    /// Checks the track of the next packet. A packet of another track drops
    /// the buffer and ends the block in silence; returns whether to decode it.
    pub fn on_packet(&mut self, track_id: u32, out: &mut [S]) -> (decode: bool)
        requires
            old(self).wf(),
            old(self).written <= old(out)@.len(),
        ensures
            final(self).wf(),
            decode == (track_id == old(self).track_id),
            decode ==> final(self)@ == old(self)@ && final(out)@ == old(out)@,
            !decode ==> final(self)@ == (CursorView { written: old(out)@.len(), ..cleared(old(self)@) })
                && final(out)@ == silenced_from(old(out)@, old(self)@.written, old(self).silence),
    {
        if track_id == self.track_id {
            return true;
        }
        self.pcm_buffer = Vec::new();
        self.pcm_offset = 0;
        self.silence_tail(out, self.written);
        self.written = out.len();
        assert(self@.pcm =~= Seq::<S>::empty());
        false
    }

    /// The stream ended or a packet failed to decode: the rest of the block
    /// is silence.
    pub fn finish(&mut self, out: &mut [S])
        requires
            old(self).wf(),
            old(self).written <= old(out)@.len(),
        ensures
            final(self).wf(),
            final(self)@ == (CursorView { written: old(out)@.len(), ..old(self)@ }),
            final(out)@ == silenced_from(old(out)@, old(self)@.written, old(self).silence),
    {
        self.silence_tail(out, self.written);
        self.written = out.len();
    }
}

} // verus!
