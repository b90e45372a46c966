use crate::control::{
    flag_of, paused, played, seek_of_slot, slot_of_seek, stopped, PlayRequest, PlaybackFlag, Session,
    NO_SEEK,
};
use crate::cursor::{begun, block_start, cleared, noted, BlockStart, CursorView};
use vstd::prelude::*;

verus! {

/// The position notifications sent, in order, for packets decoded at the
/// given whole seconds, starting from the last reported second `last`.
pub open spec fn notifications(last: Option<u64>, seconds: Seq<u64>) -> Seq<u64>
    decreases seconds.len(),
{
    if seconds.len() == 0 {
        Seq::empty()
    } else {
        let (next, sent) = noted(last, seconds[0]);
        let rest = notifications(next, seconds.drop_first());
        match sent {
            Some(s) => seq![s].add(rest),
            None => rest,
        }
    }
}

pub open spec fn non_decreasing(s: Seq<u64>) -> bool {
    forall|i: int, j: int| 0 <= i <= j < s.len() ==> s[i] <= s[j]
}

pub open spec fn no_adjacent_repeats(s: Seq<u64>) -> bool {
    forall|i: int| 0 <= i < s.len() - 1 ==> #[trigger] s[i] != s[i + 1]
}

pub open spec fn strictly_increasing(s: Seq<u64>) -> bool {
    forall|i: int, j: int| 0 <= i < j < s.len() ==> s[i] < s[j]
}

/// No second is reported twice in a row: neither the last one reported
/// before, nor two neighbours among those reported, whatever the packets.
pub proof fn notifications_never_repeat(last: Option<u64>, seconds: Seq<u64>)
    ensures
        no_adjacent_repeats(notifications(last, seconds)),
        notifications(last, seconds).len() > 0 ==> last != Some(notifications(last, seconds)[0]),
    decreases seconds.len(),
{
    if seconds.len() > 0 {
        let (next, sent) = noted(last, seconds[0]);
        let rest = notifications(next, seconds.drop_first());
        notifications_never_repeat(next, seconds.drop_first());
        let n = notifications(last, seconds);
        if sent is Some {
            assert(n =~= seq![seconds[0]].add(rest));
            assert forall|i: int| 0 <= i < n.len() - 1 implies #[trigger] n[i] != n[i + 1] by {
                if i > 0 {
                    assert(n[i] == rest[i - 1] && n[i + 1] == rest[i]);
                }
            }
        }
    }
}

/// Between two seeks the demuxer hands out packets in time order. Then the
/// reported seconds strictly increase, each above the last one reported.
pub proof fn notifications_increase(last: Option<u64>, seconds: Seq<u64>)
    requires
        non_decreasing(seconds),
        seconds.len() > 0 && last is Some ==> last.unwrap() <= seconds[0],
    ensures
        strictly_increasing(notifications(last, seconds)),
        forall|i: int|
            0 <= i < notifications(last, seconds).len() ==> seconds[0] <= #[trigger] notifications(
                last,
                seconds,
            )[i] && (last is Some ==> last.unwrap() < notifications(last, seconds)[i]),
    decreases seconds.len(),
{
    if seconds.len() > 0 {
        let (next, sent) = noted(last, seconds[0]);
        let tail = seconds.drop_first();
        let rest = notifications(next, tail);
        assert(non_decreasing(tail)) by {
            assert forall|i: int, j: int| 0 <= i <= j < tail.len() implies tail[i] <= tail[j] by {
                assert(tail[i] == seconds[i + 1] && tail[j] == seconds[j + 1]);
            }
        }
        if tail.len() > 0 {
            assert(tail[0] == seconds[1]);
        }
        notifications_increase(next, tail);
        let n = notifications(last, seconds);
        if sent is Some {
            assert(n =~= seq![seconds[0]].add(rest));
            assert forall|i: int| 0 <= i < n.len() implies seconds[0] <= #[trigger] n[i] && (
            last is Some ==> last.unwrap() < n[i]) by {
                if i > 0 {
                    assert(n[i] == rest[i - 1]);
                }
            }
            assert forall|i: int, j: int| 0 <= i < j < n.len() implies n[i] < n[j] by {
                assert(n[j] == rest[j - 1]);
                if i > 0 {
                    assert(n[i] == rest[i - 1]);
                }
            }
        } else {
            assert(n == rest);
            assert forall|i: int| 0 <= i < n.len() implies seconds[0] <= #[trigger] n[i] && (
            last is Some ==> last.unwrap() < n[i]) by {
                assert(rest[i] > seconds[0]);
            }
        }
    }
}

/// Pausing a playing session silences the very next block without touching
/// the decode state, for as many blocks as it stays paused; playing again
/// resumes that same session rather than opening a new one.
pub proof fn pause_silences_then_resumes<H, S>(
    session: Option<Session<H>>,
    cursor: CursorView<S>,
    seek: Option<u64>,
)
    requires
        flag_of(session) == PlaybackFlag::Playing,
    ensures
        block_start(flag_of(paused(session)), seek) == BlockStart::Silent,
        begun(cursor, flag_of(paused(session)), seek) == cursor,
        played(paused(session)) == (session, PlayRequest::Resumed),
{
    crate::control::pause_then_play_resumes(session);
}

/// A seek requested on a playing session reaches the next block through the
/// seek slot, which then drops every buffered sample before filling.
pub proof fn seek_discards_buffer<H, S>(
    session: Option<Session<H>>,
    cursor: CursorView<S>,
    second: u64,
)
    requires
        flag_of(session) == PlaybackFlag::Playing,
        second != NO_SEEK,
    ensures
        block_start(flag_of(session), seek_of_slot(slot_of_seek(Some(second)))) == BlockStart::Seek(
            second,
        ),
        begun(cursor, flag_of(session), seek_of_slot(slot_of_seek(Some(second)))) == (CursorView {
            written: 0,
            ..cleared(cursor)
        }),
        begun(cursor, flag_of(session), seek_of_slot(slot_of_seek(Some(second)))).pcm.len() == 0,
{
}

/// After a stop every block is silent and leaves the decode state as it was,
/// so no packet is decoded and no position is reported; the stream is
/// released, and stopping again changes nothing.
pub proof fn stop_ends_reporting<H, S>(
    session: Option<Session<H>>,
    cursor: CursorView<S>,
    seek: Option<u64>,
)
    ensures
        block_start(flag_of(stopped(session)), seek) == BlockStart::Silent,
        begun(cursor, flag_of(stopped(session)), seek) == cursor,
        stopped(session) matches Some(s) ==> s.stream is None,
        stopped(stopped(session)) == stopped(session),
{
}

} // verus!
