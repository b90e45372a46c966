use vstd::prelude::*;

verus! {

/// ASCII code of the digit `0`.
pub const DIGIT_ZERO: u8 = 48;

/// ASCII code of `:`.
pub const COLON: u8 = 58;

/// The decimal digits of `n` in ASCII, most significant first, without padding.
pub open spec fn decimal(n: nat) -> Seq<u8>
    decreases n,
{
    if n < 10 {
        seq![(DIGIT_ZERO + n) as u8]
    } else {
        decimal(n / 10).push((DIGIT_ZERO + n % 10) as u8)
    }
}

/// `n` in decimal, padded with a leading zero to at least two digits.
pub open spec fn two_digits(n: nat) -> Seq<u8> {
    if n < 10 {
        seq![DIGIT_ZERO].add(decimal(n))
    } else {
        decimal(n)
    }
}

/// A number of seconds shown as `mm:ss`; the minutes take more digits when needed.
pub open spec fn clock(seconds: nat) -> Seq<u8> {
    two_digits(seconds / 60).add(seq![COLON]).add(two_digits(seconds % 60))
}

/// The separator between elapsed and total time, ` / `.
pub open spec fn separator() -> Seq<u8> {
    seq![32u8, 47u8, 32u8]
}

/// The progress label `elapsed / total`, both as `mm:ss`.
pub open spec fn progress(elapsed: nat, total: nat) -> Seq<u8> {
    clock(elapsed).add(separator()).add(clock(total))
}

/// Appends the decimal digits of `n`.
fn push_decimal(out: &mut Vec<u8>, n: u64)
    ensures
        final(out)@ == old(out)@.add(decimal(n as nat)),
    decreases n,
{
    if n < 10 {
        out.push(DIGIT_ZERO + n as u8);
        assert(old(out)@.add(decimal(n as nat)) =~= old(out)@.push((DIGIT_ZERO + n) as u8));
    } else {
        push_decimal(out, n / 10);
        out.push(DIGIT_ZERO + (n % 10) as u8);
        assert(old(out)@.add(decimal(n as nat)) =~= old(out)@.add(decimal((n / 10) as nat)).push(
            (DIGIT_ZERO + n % 10) as u8,
        ));
    }
}

/// Appends `n` with at least two digits.
fn push_two_digits(out: &mut Vec<u8>, n: u64)
    ensures
        final(out)@ == old(out)@.add(two_digits(n as nat)),
{
    if n < 10 {
        out.push(DIGIT_ZERO);
        push_decimal(out, n);
        assert(old(out)@.push(DIGIT_ZERO).add(decimal(n as nat)) =~= old(out)@.add(
            seq![DIGIT_ZERO].add(decimal(n as nat)),
        ));
    } else {
        push_decimal(out, n);
    }
}

/// Appends `seconds` as `mm:ss`.
fn push_clock(out: &mut Vec<u8>, seconds: u64)
    ensures
        final(out)@ == old(out)@.add(clock(seconds as nat)),
{
    push_two_digits(out, seconds / 60);
    out.push(COLON);
    push_two_digits(out, seconds % 60);
    assert(out@ =~= old(out)@.add(clock(seconds as nat)));
}

/// `seconds` as `mm:ss` in ASCII: minutes and seconds each take at least two
/// digits, and the minutes grow past two digits for an hour or more.
pub fn clock_text(seconds: u64) -> (r: Vec<u8>)
    ensures
        r@ == clock(seconds as nat),
{
    let mut out: Vec<u8> = Vec::new();
    push_clock(&mut out, seconds);
    assert(out@ =~= clock(seconds as nat));
    out
}

/// The progress label `elapsed / total` in ASCII.
pub fn progress_text(elapsed: u64, total: u64) -> (r: Vec<u8>)
    ensures
        r@ == progress(elapsed as nat, total as nat),
{
    let mut out: Vec<u8> = Vec::new();
    push_clock(&mut out, elapsed);
    out.push(32u8);
    out.push(47u8);
    out.push(32u8);
    push_clock(&mut out, total);
    assert(out@ =~= progress(elapsed as nat, total as nat));
    out
}

/// Where the seek slider should stand: its range is `0..=max` and its knob at `value`.
#[derive(Clone, Copy, Debug, PartialEq, Eq, Structural)]
pub struct SliderPosition {
    pub max: u64,
    pub value: u64,
}

/// What the user interface redraws on a position notification.
#[derive(Clone, Debug, PartialEq, Eq)]
pub struct ProgressUpdate {
    /// The new `elapsed / total` label, in ASCII.
    pub label: Vec<u8>,
    /// The new slider position, or `None` while the user drags the slider.
    pub slider: Option<SliderPosition>,
}

/// The seek slider as the position consumer sees it: while it is held, the
/// user's input wins over incoming positions.
#[derive(Clone, Copy, Debug, PartialEq, Eq, Structural)]
pub struct SeekSlider {
    pub dragging: bool,
}

impl SeekSlider {
    /// A slider that nobody holds.
    pub fn new() -> (r: SeekSlider)
        ensures
            !r.dragging,
    {
        SeekSlider { dragging: false }
    }

    /// The user pressed the slider: incoming positions stop moving it.
    pub fn press(&mut self)
        ensures
            final(self).dragging,
    {
        self.dragging = true;
    }

    /// Whether a drag event belongs to the slider: only while it is held.
    pub fn drag(&self) -> (r: bool)
        ensures
            r == self.dragging,
    {
        self.dragging
    }

    /// The user let go of the slider: positions move it again. The caller
    /// then asks the controller to seek to the slider's value.
    pub fn release(&mut self)
        ensures
            !final(self).dragging,
    {
        self.dragging = false;
    }

    /// What to redraw when the engine reports `elapsed` seconds of a track of
    /// `total` seconds: always the label, and the slider unless it is held.
    pub fn on_position(&self, elapsed: u64, total: u64) -> (r: ProgressUpdate)
        ensures
            r.label@ == progress(elapsed as nat, total as nat),
            r.slider == (if self.dragging {
                None
            } else {
                Some(SliderPosition { max: total, value: elapsed })
            }),
    {
        let label = progress_text(elapsed, total);
        let slider = if self.dragging {
            None
        } else {
            Some(SliderPosition { max: total, value: elapsed })
        };
        ProgressUpdate { label, slider }
    }
}

} // verus!
