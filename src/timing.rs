use crate::display::{clock, clock_text};
use vstd::prelude::*;

verus! {

/// The rational unit of a track's timestamps: one tick lasts `numer / denom` seconds.
#[derive(Clone, Copy, Debug, PartialEq, Eq, Structural)]
pub struct TimeBase {
    pub numer: u32,
    pub denom: u32,
}

impl TimeBase {
    /// A time base can convert timestamps only when neither part is zero.
    pub open spec fn valid(self) -> bool {
        self.numer > 0 && self.denom > 0
    }
}

/// The whole seconds that the decoding backend reports for timestamp `ts`
/// in the time base `numer / denom`.
pub uninterp spec fn backend_seconds(numer: u32, denom: u32, ts: u64) -> u64;

/// Relies on `symphonia::core::units::TimeBase::calc_time`, of whose result the
/// `seconds` field is taken. It asserts that both parts of the time base are nonzero.
#[verifier::external_body]
pub(crate) fn calc_seconds(tb: TimeBase, ts: u64) -> (r: u64)
    requires
        tb.valid(),
    ensures
        r == backend_seconds(tb.numer, tb.denom, ts),
{
    let base = symphonia::core::units::TimeBase { numer: tb.numer, denom: tb.denom };
    base.calc_time(ts).seconds
}

/// The container family guessed from the first bytes of a track.
#[derive(Clone, Copy, Debug, PartialEq, Eq, Structural)]
pub enum ContainerHint {
    Ogg,
    Mp4,
}

/// The signature that opens every Ogg page, `OggS`.
pub open spec fn ogg_magic() -> Seq<u8> {
    seq![79u8, 103u8, 103u8, 83u8]
}

/// Whether `bytes` begins with the Ogg signature.
pub open spec fn starts_with_ogg(bytes: Seq<u8>) -> bool {
    bytes.len() >= 4 && bytes.subrange(0, 4) == ogg_magic()
}

impl ContainerHint {
    /// Picks the hint for the probe: Ogg when the bytes start with `OggS`,
    /// an MP4-family container otherwise.
    pub fn detect(bytes: &[u8]) -> (r: ContainerHint)
        ensures
            r == (if starts_with_ogg(bytes@) {
                ContainerHint::Ogg
            } else {
                ContainerHint::Mp4
            }),
    {
        if bytes.len() >= 4 && bytes[0] == 79u8 && bytes[1] == 103u8 && bytes[2] == 103u8
            && bytes[3] == 83u8 {
            assert(bytes@.subrange(0, 4) =~= ogg_magic());
            ContainerHint::Ogg
        } else {
            assert(bytes@.len() >= 4 ==> bytes@.subrange(0, 4)[0] == bytes@[0]);
            assert(bytes@.len() >= 4 ==> bytes@.subrange(0, 4)[1] == bytes@[1]);
            assert(bytes@.len() >= 4 ==> bytes@.subrange(0, 4)[2] == bytes@[2]);
            assert(bytes@.len() >= 4 ==> bytes@.subrange(0, 4)[3] == bytes@[3]);
            ContainerHint::Mp4
        }
    }

    /// The file extension handed to the probe as its hint.
    pub fn extension(self) -> (r: &'static str)
        ensures
            r@ == (if self == ContainerHint::Ogg {
                "ogg"@
            } else {
                "mp4"@
            }),
    {
        match self {
            ContainerHint::Ogg => "ogg",
            ContainerHint::Mp4 => "mp4",
        }
    }
}

/// Which piece of track metadata the decoder could not supply.
#[derive(Clone, Debug, PartialEq, Eq)]
pub enum DecoderInitCause {
    /// The backend could not build a decoder for the codec; its diagnostic.
    Unsupported(String),
    /// The codec parameters carry no time base, or one with a zero part.
    MissingTimeBase,
    /// The codec parameters carry no total frame count.
    MissingFrameCount,
}

/// Why a track could not start playing. Every one of them is reported before
/// any output stream exists.
#[derive(Clone, Debug, PartialEq, Eq)]
pub enum OpenError {
    /// The container format could not be detected; the backend's diagnostic.
    ProbeFailure(String),
    /// The container holds no track that can be decoded.
    NoPlayableTrack,
    /// The decoder could not be built or lacks required metadata.
    DecoderInitFailure(DecoderInitCause),
    /// The host has no default output device.
    OutputDeviceUnavailable,
    /// The output stream could not be built; the driver's diagnostic.
    StreamCreationFailure(String),
    /// The output stream could not be started; the driver's diagnostic.
    StreamStartFailure(String),
}

/// The codec parameters of the default track that timing depends on.
#[derive(Clone, Copy, Debug, PartialEq, Eq, Structural)]
pub struct TrackParams {
    pub track_id: u32,
    pub time_base: Option<TimeBase>,
    pub n_frames: Option<u64>,
}

/// The selected track and its length, fixed when the session opens.
#[derive(Clone, Debug, PartialEq, Eq)]
pub struct TrackTiming {
    pub track_id: u32,
    pub time_base: TimeBase,
    /// Total number of frames, in ticks of `time_base`.
    pub n_frames: u64,
    /// Whole seconds of the track as the backend computes them.
    pub seconds: u64,
    /// `seconds` as `mm:ss`, in ASCII.
    pub display: Vec<u8>,
}

impl TrackTiming {
    /// The time base converts timestamps and the display matches the seconds.
    pub open spec fn wf(&self) -> bool {
        &&& self.time_base.valid()
        &&& self.seconds == backend_seconds(self.time_base.numer, self.time_base.denom, self.n_frames)
        &&& self.display@ == clock(self.seconds as nat)
    }

    /// The exact length of the track in seconds, as a fraction's numerator
    /// over `time_base.denom`.
    pub open spec fn exact_length_numer(&self) -> int {
        self.n_frames * self.time_base.numer
    }
}

/// What `negotiate` yields for the given default track, if any.
pub open spec fn negotiated(track: Option<TrackParams>) -> Result<(u32, TimeBase, u64), OpenError> {
    match track {
        None => Err(OpenError::NoPlayableTrack),
        Some(p) => match p.time_base {
            None => Err(OpenError::DecoderInitFailure(DecoderInitCause::MissingTimeBase)),
            Some(tb) => if !tb.valid() {
                Err(OpenError::DecoderInitFailure(DecoderInitCause::MissingTimeBase))
            } else {
                match p.n_frames {
                    None => Err(OpenError::DecoderInitFailure(DecoderInitCause::MissingFrameCount)),
                    Some(n) => Ok((p.track_id, tb, n)),
                }
            },
        },
    }
}

/// Fixes the track and its length: no default track is `NoPlayableTrack`; a
/// missing or zero time base, or a missing frame count, is a decoder failure.
pub fn negotiate(track: Option<TrackParams>) -> (r: Result<TrackTiming, OpenError>)
    ensures
        match (r, negotiated(track)) {
            (Ok(t), Ok((id, tb, n))) => t.wf() && t.track_id == id && t.time_base == tb
                && t.n_frames == n,
            (Err(e), Err(f)) => e == f,
            _ => false,
        },
{
    let p = match track {
        None => {
            return Err(OpenError::NoPlayableTrack);
        },
        Some(p) => p,
    };
    let tb = match p.time_base {
        None => {
            return Err(OpenError::DecoderInitFailure(DecoderInitCause::MissingTimeBase));
        },
        Some(tb) => tb,
    };
    if tb.numer == 0 || tb.denom == 0 {
        return Err(OpenError::DecoderInitFailure(DecoderInitCause::MissingTimeBase));
    }
    let n = match p.n_frames {
        None => {
            return Err(OpenError::DecoderInitFailure(DecoderInitCause::MissingFrameCount));
        },
        Some(n) => n,
    };
    let seconds = calc_seconds(tb, n);
    let display = clock_text(seconds);
    Ok(TrackTiming { track_id: p.track_id, time_base: tb, n_frames: n, seconds, display })
}

/// A negotiated track that has at least one frame lasts a positive time:
/// its time base has no zero part.
pub proof fn negotiated_length_positive(track: Option<TrackParams>)
    requires
        negotiated(track) is Ok,
        track.unwrap().n_frames.unwrap() > 0,
    ensures
        negotiated(track) matches Ok((id, tb, n)) && n * tb.numer > 0 && tb.denom > 0,
{
    let (id, tb, n) = negotiated(track).unwrap();
    assert(n * tb.numer > 0) by (nonlinear_arith)
        requires
            n > 0,
            tb.numer > 0,
    ;
}

} // verus!
