use crate::timing::TrackTiming;
use vstd::prelude::*;

verus! {

/// The tri-state playback flag shared with the audio callback.
#[derive(Clone, Copy, Debug, PartialEq, Eq, Structural)]
pub enum PlaybackFlag {
    Playing,
    Paused,
    Stopped,
}

/// The small integer that stands for a flag in the shared atomic cell.
pub open spec fn flag_code(f: PlaybackFlag) -> u8 {
    match f {
        PlaybackFlag::Playing => 0,
        PlaybackFlag::Paused => 1,
        PlaybackFlag::Stopped => 2,
    }
}

/// The flag that a code read from the shared cell stands for; codes that no
/// flag writes read as `Stopped`, so that the callback stays silent.
pub open spec fn flag_of_code(c: u8) -> PlaybackFlag {
    if c == 0 {
        PlaybackFlag::Playing
    } else if c == 1 {
        PlaybackFlag::Paused
    } else {
        PlaybackFlag::Stopped
    }
}

impl PlaybackFlag {
    /// The code stored in the shared cell.
    pub fn code(self) -> (r: u8)
        ensures
            r == flag_code(self),
    {
        match self {
            PlaybackFlag::Playing => 0,
            PlaybackFlag::Paused => 1,
            PlaybackFlag::Stopped => 2,
        }
    }

    /// The flag read back from the shared cell.
    pub fn from_code(c: u8) -> (r: PlaybackFlag)
        ensures
            r == flag_of_code(c),
    {
        if c == 0 {
            PlaybackFlag::Playing
        } else if c == 1 {
            PlaybackFlag::Paused
        } else {
            PlaybackFlag::Stopped
        }
    }
}

/// The value of the seek slot when no seek is pending.
pub const NO_SEEK: u64 = 0xffff_ffff_ffff_ffff;

/// The pending seek that a value of the seek slot stands for.
pub open spec fn seek_of_slot(v: u64) -> Option<u64> {
    if v == NO_SEEK {
        None
    } else {
        Some(v)
    }
}

/// The value written to the seek slot for a request, or to clear it.
pub open spec fn slot_of_seek(s: Option<u64>) -> u64 {
    match s {
        None => NO_SEEK,
        Some(t) => t,
    }
}

/// Reads the seek slot: the sentinel means that no seek is pending.
pub fn seek_from_slot(v: u64) -> (r: Option<u64>)
    ensures
        r == seek_of_slot(v),
{
    if v == NO_SEEK {
        None
    } else {
        Some(v)
    }
}

/// The value to write to the seek slot.
pub fn slot_from_seek(s: Option<u64>) -> (r: u64)
    ensures
        r == slot_of_seek(s),
{
    match s {
        None => NO_SEEK,
        Some(t) => t,
    }
}

/// Every seek target but the sentinel itself survives the trip through the
/// slot, and an empty slot reads back as no seek.
pub proof fn seek_slot_round_trip(s: Option<u64>)
    requires
        s != Some(NO_SEEK),
    ensures
        seek_of_slot(slot_of_seek(s)) == s,
{
}

/// The live playback instance: the output stream handle, which the
/// controller alone owns, the flag it last published, and the track timing.
#[derive(Debug)]
pub struct Session<H> {
    pub stream: Option<H>,
    pub flag: PlaybackFlag,
    pub timing: TrackTiming,
}

/// What a play action asks of the caller.
#[derive(Clone, Copy, Debug, PartialEq, Eq, Structural)]
pub enum PlayRequest {
    /// No live session: the previous stream is released; open the selected
    /// track and hand the new stream to `start`.
    OpenTrack,
    /// A paused session plays on from where it stood.
    Resumed,
    /// The session already plays; nothing changes.
    AlreadyPlaying,
}

/// The UI-side playback controller. It holds at most one session.
#[derive(Debug)]
pub struct Player<H> {
    pub session: Option<Session<H>>,
}

/// The flag that the callback should see for a controller state; with no
/// session there is no callback, which reads as `Stopped`.
pub open spec fn flag_of<H>(session: Option<Session<H>>) -> PlaybackFlag {
    match session {
        None => PlaybackFlag::Stopped,
        Some(s) => s.flag,
    }
}

/// The controller after `Pause()`: only a playing session changes.
pub open spec fn paused<H>(session: Option<Session<H>>) -> Option<Session<H>> {
    match session {
        Some(s) => if s.flag == PlaybackFlag::Playing {
            Some(Session { flag: PlaybackFlag::Paused, ..s })
        } else {
            Some(s)
        },
        None => None,
    }
}

/// The controller after `Stop()`: the flag is `Stopped` and the stream released.
pub open spec fn stopped<H>(session: Option<Session<H>>) -> Option<Session<H>> {
    match session {
        Some(s) => Some(Session { stream: None, flag: PlaybackFlag::Stopped, ..s }),
        None => None,
    }
}

/// The controller and the request after `Play()`.
pub open spec fn played<H>(session: Option<Session<H>>) -> (Option<Session<H>>, PlayRequest) {
    match session {
        None => (None, PlayRequest::OpenTrack),
        Some(s) => match s.flag {
            PlaybackFlag::Stopped => (None, PlayRequest::OpenTrack),
            PlaybackFlag::Paused => (
                Some(Session { flag: PlaybackFlag::Playing, ..s }),
                PlayRequest::Resumed,
            ),
            PlaybackFlag::Playing => (Some(s), PlayRequest::AlreadyPlaying),
        },
    }
}

impl<H> Player<H> {
    /// A controller with no session.
    pub fn new() -> (r: Player<H>)
        ensures
            r.session is None,
    {
        Player { session: None }
    }

    /// The flag to publish to the callback.
    pub fn flag(&self) -> (r: PlaybackFlag)
        ensures
            r == flag_of(self.session),
    {
        match &self.session {
            None => PlaybackFlag::Stopped,
            Some(s) => s.flag,
        }
    }

    /// `Pause()`: a playing session pauses; otherwise nothing changes.
    pub fn pause(&mut self)
        ensures
            final(self).session == paused(old(self).session),
    {
        if let Some(s) = &mut self.session {
            if s.flag == PlaybackFlag::Playing {
                s.flag = PlaybackFlag::Paused;
            }
        }
    }

    /// `Stop()`: the flag becomes `Stopped`, then the output stream is
    /// dropped, which ends the callbacks. Safe to call again.
    pub fn stop(&mut self)
        ensures
            final(self).session == stopped(old(self).session),
    {
        if let Some(s) = &mut self.session {
            s.flag = PlaybackFlag::Stopped;
            s.stream = None;
        }
    }

    /// `Play()`: resumes a paused session, leaves a playing one alone, and
    /// otherwise drops what is left of the previous session and asks the
    /// caller to open the track. Playing again on a live session is a no-op:
    /// it neither rebuilds the decoder nor rewinds.
    pub fn play(&mut self) -> (r: PlayRequest)
        ensures
            (final(self).session, r) == played(old(self).session),
    {
        if let Some(s) = &mut self.session {
            match s.flag {
                PlaybackFlag::Stopped => {},
                PlaybackFlag::Paused => {
                    s.flag = PlaybackFlag::Playing;
                    return PlayRequest::Resumed;
                },
                PlaybackFlag::Playing => {
                    return PlayRequest::AlreadyPlaying;
                },
            }
        }
        self.session = None;
        PlayRequest::OpenTrack
    }

    /// Installs a freshly opened session, which starts out playing; the
    /// stream of any earlier session is dropped first.
    pub fn start(&mut self, stream: H, timing: TrackTiming)
        ensures
            final(self).session == Some(Session { stream: Some(stream), flag: PlaybackFlag::Playing, timing }),
    {
        self.session = None;
        self.session = Some(Session { stream: Some(stream), flag: PlaybackFlag::Playing, timing });
    }

    /// `Seek(second)`: the value to write to the seek slot, or `None` when no
    /// session exists. The target is not checked against the track length;
    /// the decoding backend clamps or rejects it.
    pub fn seek(&self, second: u64) -> (r: Option<u64>)
        ensures
            r == (if self.session is Some {
                Some(second)
            } else {
                None
            }),
    {
        if self.session.is_some() {
            Some(second)
        } else {
            None
        }
    }
}

/// Stopping twice leaves the controller as stopping once does.
pub proof fn stop_is_idempotent<H>(session: Option<Session<H>>)
    ensures
        stopped(stopped(session)) == stopped(session),
        flag_of(stopped(session)) == PlaybackFlag::Stopped,
        stopped(session) matches Some(s) ==> s.stream is None,
{
}

/// Pausing a playing session and playing again resumes the same session:
/// its stream and timing are kept, and nothing is reopened.
pub proof fn pause_then_play_resumes<H>(session: Option<Session<H>>)
    requires
        flag_of(session) == PlaybackFlag::Playing,
    ensures
        played(paused(session)) == (session, PlayRequest::Resumed),
{
    let s = session.unwrap();
    assert(Session { flag: PlaybackFlag::Playing, ..Session { flag: PlaybackFlag::Paused, ..s } } == s);
}

} // verus!
