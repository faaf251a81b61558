//! Status patterns for the row of LEDs and the frames they produce.
//!
//! A pattern is a list of fragments, each shown for its duration. Rendering
//! is a function of the time and of the supercapacitor voltage, so the task
//! that owns the LEDs only has to supply both and to write out the frame.

use vstd::prelude::*;
use crate::colors::Rgb;
use crate::state_machine::elapsed;

verus! {

/// Number of LEDs in the row.
pub const NUM_LEDS: usize = 5;

/// One frame: a colour for each LED.
pub type Frame = [Rgb; NUM_LEDS];

/// The colour at position `pos` of the colour wheel, which runs from red
/// over green and blue back to red.
pub open spec fn wheel_color(pos: u8) -> Rgb {
    let p = 255 - pos;
    if p < 85 {
        Rgb { r: (255 - p * 3) as u8, g: 0, b: (p * 3) as u8 }
    } else if p < 170 {
        Rgb { r: 0, g: ((p - 85) * 3) as u8, b: (255 - (p - 85) * 3) as u8 }
    } else {
        Rgb { r: ((p - 170) * 3) as u8, g: (255 - (p - 170) * 3) as u8, b: 0 }
    }
}

/// Computes [`wheel_color`].
pub fn wheel(wheel_pos: u8) -> (color: Rgb)
    ensures
        color == wheel_color(wheel_pos),
{
    let mut p: u8 = 255 - wheel_pos;
    if p < 85 {
        return Rgb { r: 255 - p * 3, g: 0, b: p * 3 };
    }
    if p < 170 {
        p -= 85;
        return Rgb { r: 0, g: p * 3, b: 255 - p * 3 };
    }
    p -= 170;
    Rgb { r: p * 3, g: 255 - p * 3, b: 0 }
}

/// All LEDs in one colour.
#[derive(Clone, Copy, Debug, PartialEq, Eq)]
pub struct OneColor {
    pub duration_ms: u32,
    pub color: Rgb,
}

impl OneColor {
    /// All LEDs in `color` for `duration_ms` milliseconds.
    pub fn new(duration_ms: u32, color: Rgb) -> (fragment: OneColor)
        ensures
            fragment == (OneColor { duration_ms, color }),
    {
        OneColor { duration_ms, color }
    }
}

/// All LEDs dark.
#[derive(Clone, Copy, Debug, PartialEq, Eq)]
pub struct Off {
    pub duration_ms: u32,
}

impl Off {
    /// All LEDs dark for `duration` milliseconds.
    pub fn new(duration: u32) -> (fragment: Off)
        ensures
            fragment == (Off { duration_ms: duration }),
    {
        Off { duration_ms: duration }
    }
}

/// The colour wheel laid over the row and turning with time.
#[derive(Clone, Copy, Debug, PartialEq, Eq)]
pub struct RoyalRainbow {
    pub duration_ms: u32,
    /// Turns the wheel backwards.
    pub direction: bool,
}

impl RoyalRainbow {
    /// A rainbow for `duration` milliseconds; `direction` turns it backwards.
    pub fn new(duration: u32, direction: bool) -> (fragment: RoyalRainbow)
        ensures
            fragment == (RoyalRainbow { duration_ms: duration, direction }),
    {
        RoyalRainbow { duration_ms: duration, direction }
    }
}

/// A fixed colour for each LED.
#[derive(Clone, Copy, Debug, PartialEq, Eq)]
pub struct Colors {
    pub duration_ms: u32,
    pub colors: Frame,
}

impl Colors {
    /// The given colours for `duration_ms` milliseconds.
    pub fn new(duration_ms: u32, colors: Frame) -> (fragment: Colors)
        ensures
            fragment == (Colors { duration_ms, colors }),
    {
        Colors { duration_ms, colors }
    }
}

/// A bar that shows the supercapacitor voltage: one LED per volt from five
/// volts up, the topmost lit LED dimmed by the fraction of its volt.
#[derive(Clone, Copy, Debug, PartialEq, Eq)]
pub struct SupercapBar {
    pub duration_ms: u32,
    pub color: Rgb,
}

impl SupercapBar {
    /// A voltage bar in `color` for `duration_ms` milliseconds.
    pub fn new(duration_ms: u32, color: Rgb) -> (fragment: SupercapBar)
        ensures
            fragment == (SupercapBar { duration_ms, color }),
    {
        SupercapBar { duration_ms, color }
    }
}

/// One step of a pattern.
#[derive(Clone, Copy, Debug, PartialEq, Eq)]
pub enum Fragment {
    OneColor(OneColor),
    Off(Off),
    RoyalRainbow(RoyalRainbow),
    Colors(Colors),
    SupercapBar(SupercapBar),
}

/// By how many wheel positions the rainbow has turned after `t`
/// milliseconds. The time is read as a signed 32-bit number and halved
/// towards zero.
pub open spec fn rainbow_shift(t: u32, direction: bool) -> int {
    let signed: int = if t < 0x8000_0000 {
        t as int
    } else {
        t - 0x1_0000_0000
    };
    let turned = if direction {
        -signed
    } else {
        signed
    };
    if turned >= 0 {
        turned / 2
    } else {
        -((-turned) / 2)
    }
}

/// The wheel position that LED `i` of a rainbow shows after `t`
/// milliseconds.
pub open spec fn rainbow_position(t: u32, direction: bool, i: int) -> u8 {
    ((i * 256 / (NUM_LEDS as int) + rainbow_shift(t, direction)) % 256) as u8
}

/// One channel of a bar LED that is lit for `part_mv` of its thousand
/// millivolts.
pub open spec fn dimmed(channel: u8, part_mv: int) -> u8 {
    (channel * part_mv / 1000) as u8
}

/// What LED `i` of a bar in `color` shows at `vscap_mv` millivolts.
pub open spec fn bar_led(color: Rgb, vscap_mv: u32, i: int) -> Rgb {
    let low = 5000 + 1000 * i;
    let high = 6000 + 1000 * i;
    if vscap_mv >= high {
        color
    } else if vscap_mv > low {
        Rgb {
            r: dimmed(color.r, vscap_mv - low),
            g: dimmed(color.g, vscap_mv - low),
            b: dimmed(color.b, vscap_mv - low),
        }
    } else {
        Rgb { r: 0, g: 0, b: 0 }
    }
}

impl Fragment {
    /// How long the fragment is shown.
    pub open spec fn duration(self) -> u32 {
        match self {
            Fragment::OneColor(f) => f.duration_ms,
            Fragment::Off(f) => f.duration_ms,
            Fragment::RoyalRainbow(f) => f.duration_ms,
            Fragment::Colors(f) => f.duration_ms,
            Fragment::SupercapBar(f) => f.duration_ms,
        }
    }

    /// What LED `i` shows `t` milliseconds into the fragment, with the
    /// supercapacitor at `vscap_mv` millivolts.
    pub open spec fn led(self, t: u32, vscap_mv: u32, i: int) -> Rgb {
        match self {
            Fragment::OneColor(f) => f.color,
            Fragment::Off(_) => Rgb { r: 0, g: 0, b: 0 },
            Fragment::RoyalRainbow(f) => wheel_color(rainbow_position(t, f.direction, i)),
            Fragment::Colors(f) => f.colors@[i],
            Fragment::SupercapBar(f) => bar_led(f.color, vscap_mv, i),
        }
    }

    /// The frame that the fragment shows.
    pub open spec fn frame(self, t: u32, vscap_mv: u32) -> Seq<Rgb> {
        Seq::new(NUM_LEDS as nat, |i: int| self.led(t, vscap_mv, i))
    }

    /// How long the fragment is shown.
    pub fn duration_ms(&self) -> (ms: u32)
        ensures
            ms == self.duration(),
    {
        match self {
            Fragment::OneColor(f) => f.duration_ms,
            Fragment::Off(f) => f.duration_ms,
            Fragment::RoyalRainbow(f) => f.duration_ms,
            Fragment::Colors(f) => f.duration_ms,
            Fragment::SupercapBar(f) => f.duration_ms,
        }
    }

    /// The name of the kind of fragment.
    pub fn kind_name(&self) -> (name: &'static str)
        ensures
            name@ == match *self {
                Fragment::OneColor(_) => "OneColor"@,
                Fragment::Off(_) => "Off"@,
                Fragment::RoyalRainbow(_) => "RoyalRainbow"@,
                Fragment::Colors(_) => "Colors"@,
                Fragment::SupercapBar(_) => "SupercapBar"@,
            },
    {
        match self {
            Fragment::OneColor(_) => "OneColor",
            Fragment::Off(_) => "Off",
            Fragment::RoyalRainbow(_) => "RoyalRainbow",
            Fragment::Colors(_) => "Colors",
            Fragment::SupercapBar(_) => "SupercapBar",
        }
    }

    /// Fills `leds` with the frame that the fragment shows `t` milliseconds
    /// after it began, with the supercapacitor at `vscap_mv` millivolts.
    pub fn run(&self, t: u32, vscap_mv: u32, leds: &mut Frame)
        ensures
            final(leds)@ == self.frame(t, vscap_mv),
    {
        let mut i: usize = 0;
        while i < NUM_LEDS
            invariant
                i <= NUM_LEDS,
                forall|j: int| 0 <= j < i ==> leds@[j] == self.led(t, vscap_mv, j),
            decreases NUM_LEDS - i,
        {
            let color = match self {
                Fragment::OneColor(f) => f.color,
                Fragment::Off(_) => Rgb { r: 0, g: 0, b: 0 },
                Fragment::RoyalRainbow(f) => wheel(rainbow_wheel_position(t, f.direction, i)),
                Fragment::Colors(f) => f.colors[i],
                Fragment::SupercapBar(f) => bar_color(f.color, vscap_mv, i),
            };
            leds[i] = color;
            i += 1;
        }
        assert(leds@ =~= self.frame(t, vscap_mv));
    }
}

/// Computes [`rainbow_position`].
pub fn rainbow_wheel_position(t: u32, direction: bool, i: usize) -> (pos: u8)
    requires
        i < NUM_LEDS,
    ensures
        pos == rainbow_position(t, direction, i as int),
{
    let spread: u64 = (i as u64) * 256;
    let offset: u64 = spread / (NUM_LEDS as u64);
    assert(offset < 256) by (nonlinear_arith)
        requires
            offset == spread / 5,
            spread <= 1024,
    ;
    let negative_time = t >= 0x8000_0000;
    let magnitude: u64 = if negative_time {
        0x1_0000_0000u64 - (t as u64)
    } else {
        t as u64
    };
    let half: u64 = magnitude / 2;
    let backwards = direction != negative_time;
    let ghost shift = rainbow_shift(t, direction);
    if backwards {
        let back: u64 = half % 256;
        let pos: u64 = (offset + 256 - back) % 256;
        proof {
            assert(shift == -(half as int));
            assert((offset as int + 256 - (half % 256) as int) % 256 == (offset as int - half as int)
                % 256) by (nonlinear_arith)
                requires
                    0 <= offset < 256,
                    0 <= half,
            ;
        }
        pos as u8
    } else {
        let pos: u64 = (offset + half) % 256;
        proof {
            assert(shift == half as int);
        }
        pos as u8
    }
}

/// Computes [`dimmed`].
pub fn dim(channel: u8, part_mv: u32) -> (out: u8)
    requires
        part_mv <= 1000,
    ensures
        out == dimmed(channel, part_mv as int),
{
    assert(channel * part_mv <= 255_000 && channel * part_mv / 1000 <= 255) by (nonlinear_arith)
        requires
            channel <= 255,
            part_mv <= 1000,
    ;
    let scaled: u32 = (channel as u32) * part_mv / 1000;
    scaled as u8
}

/// Computes [`bar_led`].
pub fn bar_color(color: Rgb, vscap_mv: u32, i: usize) -> (out: Rgb)
    requires
        i < NUM_LEDS,
    ensures
        out == bar_led(color, vscap_mv, i as int),
{
    let low: u32 = 5000 + 1000 * (i as u32);
    let high: u32 = 6000 + 1000 * (i as u32);
    if vscap_mv >= high {
        color
    } else if vscap_mv > low {
        let part: u32 = vscap_mv - low;
        Rgb { r: dim(color.r, part), g: dim(color.g, part), b: dim(color.b, part) }
    } else {
        Rgb { r: 0, g: 0, b: 0 }
    }
}

/// A pattern: its fragments, the fragment that is showing, and when that
/// fragment began. A start of zero means that the pattern has not been shown
/// yet.
#[derive(Clone, Debug, PartialEq, Eq)]
pub struct LEDPattern {
    pub fragments: Vec<Fragment>,
    pub current_fragment_idx: usize,
    pub current_fragment_start_ms: u64,
}

/// A pattern as a plain value.
pub struct PatternView {
    pub fragments: Seq<Fragment>,
    pub index: int,
    pub start: u64,
}

impl View for LEDPattern {
    type V = PatternView;

    open spec fn view(&self) -> PatternView {
        PatternView {
            fragments: self.fragments@,
            index: self.current_fragment_idx as int,
            start: self.current_fragment_start_ms,
        }
    }
}

/// The summed durations of the first `index` fragments.
pub open spec fn duration_before(fragments: Seq<Fragment>, index: int) -> int
    decreases index,
{
    if index <= 0 {
        0
    } else {
        duration_before(fragments, index - 1) + fragments[index - 1].duration()
    }
}

/// The summed durations of all fragments.
pub open spec fn total_duration(fragments: Seq<Fragment>) -> int {
    duration_before(fragments, fragments.len() as int)
}

/// Where a pattern stands once it has caught up with the clock.
pub struct Settled {
    /// The fragment that is showing; the number of fragments if a pattern
    /// that is shown once has run out.
    pub index: int,
    /// When that fragment began.
    pub start: u64,
    /// Whether the pattern is still showing.
    pub alive: bool,
}

/// Moves on from fragment to fragment, each beginning where the one before
/// it ended, until the fragment that is showing at `now` is reached. A
/// pattern that is shown once runs out behind its last fragment; any other
/// starts over.
pub open spec fn settle(
    fragments: Seq<Fragment>,
    index: int,
    start: u64,
    now: u64,
    oneshot: bool,
) -> Settled
    decreases elapsed(now, start) + duration_before(fragments, index), fragments.len() - index,
    when 0 <= index < fragments.len() && (oneshot || total_duration(fragments) > 0)
    via settle_terminates
{
    if elapsed(now, start) > fragments[index].duration() {
        if index + 1 < fragments.len() {
            settle(
                fragments,
                index + 1,
                (start + fragments[index].duration()) as u64,
                now,
                oneshot,
            )
        } else if oneshot {
            Settled { index: index + 1, start, alive: false }
        } else {
            settle(fragments, 0, (start + fragments[index].duration()) as u64, now, oneshot)
        }
    } else {
        Settled { index, start, alive: true }
    }
}

#[via_fn]
proof fn settle_terminates(
    fragments: Seq<Fragment>,
    index: int,
    start: u64,
    now: u64,
    oneshot: bool,
) {
    if elapsed(now, start) > fragments[index].duration() {
        let next = (start + fragments[index].duration()) as u64;
        assert(next == start + fragments[index].duration());
        assert(elapsed(now, next) == elapsed(now, start) - fragments[index].duration());
        if index + 1 < fragments.len() {
            assert(duration_before(fragments, index + 1) == duration_before(fragments, index)
                + fragments[index].duration());
        } else if !oneshot {
            assert(total_duration(fragments) == duration_before(fragments, index)
                + fragments[index].duration());
            assert(duration_before(fragments, 0) == 0);
        }
    }
}

/// The start of the fragment that is showing, with a pattern that has not
/// been shown yet starting at `now`.
pub open spec fn begun(pattern: PatternView, now: u64) -> u64 {
    if pattern.start == 0 {
        now
    } else {
        pattern.start
    }
}

/// The durations before an index never shrink as the index grows.
pub proof fn duration_before_grows(fragments: Seq<Fragment>, low: int, high: int)
    requires
        0 <= low <= high,
    ensures
        0 <= duration_before(fragments, low) <= duration_before(fragments, high),
    decreases high,
{
    if low < high {
        duration_before_grows(fragments, low, high - 1);
    } else if low > 0 {
        duration_before_grows(fragments, low - 1, low - 1);
    }
}

/// The pattern after it has been brought up to `now`.
pub open spec fn updated(pattern: PatternView, now: u64, oneshot: bool) -> PatternView {
    if pattern.fragments.len() == 0 {
        PatternView { start: begun(pattern, now), ..pattern }
    } else {
        let end = settle(pattern.fragments, pattern.index, begun(pattern, now), now, oneshot);
        PatternView { fragments: pattern.fragments, index: end.index, start: end.start }
    }
}

/// Whether the pattern is still showing at `now`.
pub open spec fn stays_alive(pattern: PatternView, now: u64, oneshot: bool) -> bool {
    if pattern.fragments.len() == 0 {
        !oneshot
    } else {
        settle(pattern.fragments, pattern.index, begun(pattern, now), now, oneshot).alive
    }
}

/// The frame after the pattern has drawn over `before` at `now`: the frame
/// of the fragment that is showing, or `before` where nothing is showing.
pub open spec fn rendered(
    pattern: PatternView,
    now: u64,
    oneshot: bool,
    vscap_mv: u32,
    before: Seq<Rgb>,
) -> Seq<Rgb> {
    if pattern.fragments.len() == 0 {
        before
    } else {
        let end = settle(pattern.fragments, pattern.index, begun(pattern, now), now, oneshot);
        if end.alive {
            pattern.fragments[end.index].frame(elapsed(now, end.start) as u32, vscap_mv)
        } else {
            before
        }
    }
}

impl LEDPattern {
    /// Whether the index of the showing fragment is in range.
    pub open spec fn wf(&self) -> bool {
        self.fragments@.len() == 0 || self.current_fragment_idx < self.fragments@.len()
    }

    /// Whether the pattern can be shown over and over: some fragment lasts.
    pub open spec fn cycles(&self) -> bool {
        total_duration(self.fragments@) > 0
    }

    /// A pattern that has not been shown yet.
    pub fn new(fragments: Vec<Fragment>) -> (pattern: LEDPattern)
        ensures
            pattern@ == (PatternView { fragments: fragments@, index: 0, start: 0 }),
            pattern.wf(),
    {
        LEDPattern { fragments, current_fragment_idx: 0, current_fragment_start_ms: 0 }
    }

    /// Whether the index of the showing fragment is in range.
    pub fn is_well_formed(&self) -> (ok: bool)
        ensures
            ok == self.wf(),
    {
        self.fragments.len() == 0 || self.current_fragment_idx < self.fragments.len()
    }

    /// Whether some fragment lasts longer than no time at all.
    pub fn can_cycle(&self) -> (ok: bool)
        ensures
            ok == self.cycles(),
    {
        let mut i: usize = 0;
        while i < self.fragments.len()
            invariant
                i <= self.fragments@.len(),
                duration_before(self.fragments@, i as int) == 0,
            decreases self.fragments@.len() - i,
        {
            if self.fragments[i].duration_ms() > 0 {
                proof {
                    duration_before_grows(
                        self.fragments@,
                        i as int + 1,
                        self.fragments@.len() as int,
                    );
                }
                return true;
            }
            i += 1;
        }
        false
    }

    /// Brings the pattern up to `now_ms` and renders the fragment that is
    /// showing into `data`. Returns whether the pattern is still showing: an
    /// empty pattern is, unless it is shown once; a pattern that is shown
    /// once is until it has run out, and then leaves `data` alone.
    pub fn update(&mut self, data: &mut Frame, oneshot: bool, now_ms: u64, vscap_mv: u32) -> (alive:
        bool)
        requires
            old(self).wf(),
            oneshot || old(self).cycles() || old(self).fragments@.len() == 0,
        ensures
            final(self)@ == updated(old(self)@, now_ms, oneshot),
            alive == stays_alive(old(self)@, now_ms, oneshot),
            final(data)@ == rendered(old(self)@, now_ms, oneshot, vscap_mv, old(data)@),
            !oneshot ==> alive,
            alive ==> final(self).wf(),
    {
        if self.current_fragment_start_ms == 0 {
            self.current_fragment_start_ms = now_ms;
        }
        if self.fragments.len() == 0 {
            return !oneshot;
        }
        let ghost end = settle(
            old(self)@.fragments,
            old(self)@.index,
            begun(old(self)@, now_ms),
            now_ms,
            oneshot,
        );
        let mut duration: u32 = self.fragments[self.current_fragment_idx].duration_ms();
        while has_elapsed_more(now_ms, self.current_fragment_start_ms, duration)
            invariant
                self.fragments@ == old(self).fragments@,
                self.current_fragment_idx < self.fragments.len(),
                duration == self.fragments@[self.current_fragment_idx as int].duration(),
                oneshot || total_duration(self.fragments@) > 0,
                *data == *old(data),
                old(self)@.fragments.len() > 0,
                end == settle(
                    old(self)@.fragments,
                    old(self)@.index,
                    begun(old(self)@, now_ms),
                    now_ms,
                    oneshot,
                ),
                end == settle(
                    self.fragments@,
                    self.current_fragment_idx as int,
                    self.current_fragment_start_ms,
                    now_ms,
                    oneshot,
                ),
            decreases
                    elapsed(now_ms, self.current_fragment_start_ms) + duration_before(
                        self.fragments@,
                        self.current_fragment_idx as int,
                    ),
                    self.fragments@.len() - self.current_fragment_idx,
        {
            proof {
                let index = self.current_fragment_idx as int;
                let start = self.current_fragment_start_ms;
                let next = (start + duration) as u64;
                assert(elapsed(now_ms, start) > self.fragments@[index].duration());
                assert(end == if index + 1 < self.fragments@.len() {
                    settle(self.fragments@, index + 1, next, now_ms, oneshot)
                } else if oneshot {
                    Settled { index: index + 1, start, alive: false }
                } else {
                    settle(self.fragments@, 0, next, now_ms, oneshot)
                });
                if index + 1 < self.fragments@.len() {
                    assert(duration_before(self.fragments@, index + 1) == duration_before(
                        self.fragments@,
                        index,
                    ) + self.fragments@[index].duration());
                } else {
                    assert(total_duration(self.fragments@) == duration_before(
                        self.fragments@,
                        index,
                    ) + self.fragments@[index].duration());
                    assert(duration_before(self.fragments@, 0) == 0);
                }
            }
            self.current_fragment_idx += 1;
            if self.current_fragment_idx >= self.fragments.len() {
                if oneshot {
                    return false;
                }
                self.current_fragment_idx = 0;
            }
            self.current_fragment_start_ms += duration as u64;
            duration = self.fragments[self.current_fragment_idx].duration_ms();
        }
        let time_diff = elapsed_in_fragment(now_ms, self.current_fragment_start_ms, duration);
        self.fragments[self.current_fragment_idx].run(time_diff, vscap_mv, data);
        true
    }
}

/// Whether more than `duration_ms` milliseconds lie between `start` and
/// `now`.
fn has_elapsed_more(now: u64, start: u64, duration_ms: u32) -> (more: bool)
    ensures
        more == (elapsed(now, start) > duration_ms),
{
    now >= start && now - start > duration_ms as u64
}

/// The time into a fragment that began at `start` and has not yet run for
/// longer than its duration.
fn elapsed_in_fragment(now: u64, start: u64, duration_ms: u32) -> (t: u32)
    requires
        elapsed(now, start) <= duration_ms,
    ensures
        t == elapsed(now, start),
{
    if now >= start {
        (now - start) as u32
    } else {
        0
    }
}

/// What the LED task can be asked to do.
#[derive(Clone, Debug, PartialEq, Eq)]
pub enum LEDBlinkerEvents {
    /// Replace the pattern that is shown over and over.
    SetPattern(LEDPattern),
    /// Set the brightness of the output.
    SetBrightness(u8),
    /// Lay a pattern over the current one until it has been shown once.
    AddModifier(LEDPattern),
}

/// One channel after gamma correction by `smart_leds::gamma`, which looks it
/// up in a table of 256 entries.
pub uninterp spec fn gamma8(value: u8) -> u8;

/// One channel at the given brightness.
pub open spec fn scaled(channel: u8, brightness: u8) -> u8 {
    (channel * (brightness + 1) / 256) as u8
}

/// A colour after gamma correction and brightness reduction.
pub open spec fn corrected(color: Rgb, brightness: u8) -> Rgb {
    Rgb {
        r: scaled(gamma8(color.r), brightness),
        g: scaled(gamma8(color.g), brightness),
        b: scaled(gamma8(color.b), brightness),
    }
}

/// Runs a frame through `smart_leds::gamma`. The contract claims that each
/// channel of each LED is corrected by itself, by the same table.
#[verifier::external_body]
pub(crate) fn gamma_frame(frame: &Frame) -> (out: Frame)
    ensures
        forall|i: int|
            0 <= i < NUM_LEDS ==> #[trigger] out@[i] == (Rgb {
                r: gamma8(frame@[i].r),
                g: gamma8(frame@[i].g),
                b: gamma8(frame@[i].b),
            }),
{
    let mut out = *frame;
    let colors = frame.iter().map(|c| smart_leds::RGB8 { r: c.r, g: c.g, b: c.b });
    for (slot, c) in out.iter_mut().zip(smart_leds::gamma(colors)) {
        *slot = Rgb { r: c.r, g: c.g, b: c.b };
    }
    out
}

/// Runs a frame through `smart_leds::brightness`. The contract claims that
/// each channel becomes `channel * (brightness + 1) / 256`.
#[verifier::external_body]
pub(crate) fn brightness_frame(frame: &Frame, brightness: u8) -> (out: Frame)
    ensures
        forall|i: int|
            0 <= i < NUM_LEDS ==> #[trigger] out@[i] == (Rgb {
                r: scaled(frame@[i].r, brightness),
                g: scaled(frame@[i].g, brightness),
                b: scaled(frame@[i].b, brightness),
            }),
{
    let mut out = *frame;
    let colors = frame.iter().map(|c| smart_leds::RGB8 { r: c.r, g: c.g, b: c.b });
    for (slot, c) in out.iter_mut().zip(smart_leds::brightness(colors, brightness)) {
        *slot = Rgb { r: c.r, g: c.g, b: c.b };
    }
    out
}

/// The patterns of a list as plain values.
pub open spec fn pattern_views(patterns: Seq<LEDPattern>) -> Seq<PatternView> {
    Seq::new(patterns.len(), |i: int| patterns[i]@)
}

/// What is left of the modifiers, and of the frame, once each modifier in
/// turn has been brought up to `now`: a modifier that is still showing draws
/// over the frame and stays, one that has run out is dropped.
pub open spec fn apply_modifiers(
    modifiers: Seq<PatternView>,
    frame: Seq<Rgb>,
    now: u64,
    vscap_mv: u32,
) -> (Seq<PatternView>, Seq<Rgb>)
    decreases modifiers.len(),
{
    if modifiers.len() == 0 {
        (Seq::empty(), frame)
    } else {
        let first = modifiers[0];
        let drawn = rendered(first, now, true, vscap_mv, frame);
        let rest = apply_modifiers(modifiers.drop_first(), drawn, now, vscap_mv);
        if stays_alive(first, now, true) {
            (seq![updated(first, now, true)] + rest.0, rest.1)
        } else {
            rest
        }
    }
}

/// The state of the LED task: the pattern that is shown over and over, the
/// modifiers laid over it, and the brightness of the output.
#[derive(Debug)]
pub struct LEDBlinker {
    /// The frame as it stands after the modifiers.
    pub data: Frame,
    /// The frame as the pattern alone left it.
    pub last_colors: Frame,
    pub pattern: LEDPattern,
    pub modifiers: Vec<LEDPattern>,
    pub brightness: u8,
}

impl LEDBlinker {
    /// Whether `pattern` can be shown over and over: its index is in range,
    /// and it is empty or has a fragment that lasts.
    pub open spec fn showable(pattern: LEDPattern) -> bool {
        pattern.wf() && (pattern.fragments@.len() == 0 || pattern.cycles())
    }

    /// Whether every pattern of the blinker can be updated.
    pub open spec fn wf(&self) -> bool {
        &&& Self::showable(self.pattern)
        &&& forall|i: int| 0 <= i < self.modifiers@.len() ==> (#[trigger] self.modifiers@[i]).wf()
    }

    /// Computes [`Self::showable`].
    pub fn is_showable(pattern: &LEDPattern) -> (ok: bool)
        ensures
            ok == Self::showable(*pattern),
    {
        pattern.is_well_formed() && (pattern.fragments.len() == 0 || pattern.can_cycle())
    }

    /// A blinker with all LEDs dark and no modifiers.
    pub fn new(pattern: LEDPattern, brightness: u8) -> (blinker: LEDBlinker)
        requires
            Self::showable(pattern),
        ensures
            blinker.wf(),
            blinker.pattern == pattern,
            blinker.brightness == brightness,
            blinker.modifiers@.len() == 0,
            blinker.data@ == Seq::new(NUM_LEDS as nat, |i: int| Rgb { r: 0, g: 0, b: 0 }),
            blinker.last_colors@ == blinker.data@,
    {
        let dark = [Rgb { r: 0, g: 0, b: 0 };NUM_LEDS];
        assert(dark@ =~= Seq::new(NUM_LEDS as nat, |i: int| Rgb { r: 0, g: 0, b: 0 }));
        LEDBlinker { data: dark, last_colors: dark, pattern, modifiers: Vec::new(), brightness }
    }

    /// Replaces the pattern that is shown over and over.
    pub fn set_pattern(&mut self, pattern: LEDPattern)
        requires
            old(self).wf(),
            Self::showable(pattern),
        ensures
            final(self).wf(),
            final(self).pattern == pattern,
            final(self).modifiers == old(self).modifiers,
            final(self).brightness == old(self).brightness,
            final(self).data == old(self).data,
            final(self).last_colors == old(self).last_colors,
    {
        self.pattern = pattern;
    }

    /// Lays `modifier` over the pattern until it has been shown once.
    pub fn add_modifier(&mut self, modifier: LEDPattern)
        requires
            old(self).wf(),
            modifier.wf(),
        ensures
            final(self).wf(),
            final(self).modifiers@ == old(self).modifiers@.push(modifier),
            final(self).pattern == old(self).pattern,
            final(self).brightness == old(self).brightness,
            final(self).data == old(self).data,
            final(self).last_colors == old(self).last_colors,
    {
        self.modifiers.push(modifier);
    }

    /// Sets the brightness of the output.
    pub fn set_brightness(&mut self, brightness: u8)
        ensures
            final(self).brightness == brightness,
            final(self).pattern == old(self).pattern,
            final(self).modifiers == old(self).modifiers,
            final(self).data == old(self).data,
            final(self).last_colors == old(self).last_colors,
    {
        self.brightness = brightness;
    }

    /// The brightness of the output.
    pub fn get_brightness(&self) -> (brightness: u8)
        ensures
            brightness == self.brightness,
    {
        self.brightness
    }

    /// Whether the blinker can take `event`: the pattern it carries, if any,
    /// can be shown.
    pub open spec fn accepts(event: LEDBlinkerEvents) -> bool {
        match event {
            LEDBlinkerEvents::SetPattern(pattern) => Self::showable(pattern),
            LEDBlinkerEvents::SetBrightness(_) => true,
            LEDBlinkerEvents::AddModifier(modifier) => modifier.wf(),
        }
    }

    /// Computes [`Self::accepts`].
    pub fn can_accept(event: &LEDBlinkerEvents) -> (ok: bool)
        ensures
            ok == Self::accepts(*event),
    {
        match event {
            LEDBlinkerEvents::SetPattern(pattern) => Self::is_showable(pattern),
            LEDBlinkerEvents::SetBrightness(_) => true,
            LEDBlinkerEvents::AddModifier(modifier) => modifier.is_well_formed(),
        }
    }

    /// Does what `event` asks for.
    pub fn handle_event(&mut self, event: LEDBlinkerEvents)
        requires
            old(self).wf(),
            Self::accepts(event),
        ensures
            final(self).wf(),
            final(self).data == old(self).data,
            final(self).last_colors == old(self).last_colors,
            final(self).pattern == match event {
                LEDBlinkerEvents::SetPattern(pattern) => pattern,
                _ => old(self).pattern,
            },
            final(self).brightness == match event {
                LEDBlinkerEvents::SetBrightness(brightness) => brightness,
                _ => old(self).brightness,
            },
            final(self).modifiers@ == match event {
                LEDBlinkerEvents::AddModifier(modifier) => old(self).modifiers@.push(modifier),
                _ => old(self).modifiers@,
            },
    {
        match event {
            LEDBlinkerEvents::SetPattern(pattern) => self.set_pattern(pattern),
            LEDBlinkerEvents::SetBrightness(brightness) => self.set_brightness(brightness),
            LEDBlinkerEvents::AddModifier(modifier) => self.add_modifier(modifier),
        }
    }

    /// Renders the frame for `now_ms`: the pattern draws over what it left
    /// last time, every modifier draws over that in turn, and those that have
    /// run out are dropped. Returns the frame as it is to be written to the
    /// LEDs, gamma corrected and at the set brightness.
    pub fn update(&mut self, now_ms: u64, vscap_mv: u32) -> (output: Frame)
        requires
            old(self).wf(),
        ensures
            final(self).wf(),
            final(self).brightness == old(self).brightness,
            final(self).pattern@ == updated(old(self).pattern@, now_ms, false),
            final(self).last_colors@ == rendered(
                old(self).pattern@,
                now_ms,
                false,
                vscap_mv,
                old(self).last_colors@,
            ),
            pattern_views(final(self).modifiers@) == apply_modifiers(
                pattern_views(old(self).modifiers@),
                final(self).last_colors@,
                now_ms,
                vscap_mv,
            ).0,
            final(self).data@ == apply_modifiers(
                pattern_views(old(self).modifiers@),
                final(self).last_colors@,
                now_ms,
                vscap_mv,
            ).1,
            forall|i: int|
                0 <= i < NUM_LEDS ==> #[trigger] output@[i] == corrected(
                    final(self).data@[i],
                    old(self).brightness,
                ),
    {
        let mut frame: Frame = self.last_colors;
        self.pattern.update(&mut frame, false, now_ms, vscap_mv);
        self.last_colors = frame;
        let ghost goal = apply_modifiers(
            pattern_views(old(self).modifiers@),
            frame@,
            now_ms,
            vscap_mv,
        );
        let mut pending: Vec<LEDPattern> = Vec::new();
        core::mem::swap(&mut pending, &mut self.modifiers);
        let mut kept: Vec<LEDPattern> = Vec::new();
        assert(pattern_views(pending@).skip(0) =~= pattern_views(pending@));
        while pending.len() > 0
            invariant
                forall|i: int| 0 <= i < pending@.len() ==> (#[trigger] pending@[i]).wf(),
                forall|i: int| 0 <= i < kept@.len() ==> (#[trigger] kept@[i]).wf(),
                goal.0 == pattern_views(kept@) + apply_modifiers(
                    pattern_views(pending@),
                    frame@,
                    now_ms,
                    vscap_mv,
                ).0,
                goal.1 == apply_modifiers(pattern_views(pending@), frame@, now_ms, vscap_mv).1,
            decreases pending@.len(),
        {
            let ghost before = pattern_views(pending@);
            let ghost kept_before = pattern_views(kept@);
            let mut modifier = pending.remove(0);
            assert(pattern_views(pending@) =~= before.drop_first());
            assert(before[0] == modifier@);
            let alive = modifier.update(&mut frame, true, now_ms, vscap_mv);
            if alive {
                kept.push(modifier);
                assert(pattern_views(kept@) =~= kept_before + seq![modifier@]);
                assert(goal.0 =~= pattern_views(kept@) + apply_modifiers(
                    pattern_views(pending@),
                    frame@,
                    now_ms,
                    vscap_mv,
                ).0);
            }
        }
        assert(goal.0 =~= pattern_views(kept@));
        self.modifiers = kept;
        self.data = frame;
        let gamma_corrected = gamma_frame(&self.data);
        brightness_frame(&gamma_corrected, self.brightness)
    }
}

} // verus!
