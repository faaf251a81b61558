//! The status pattern of each power state.

use vstd::prelude::*;
use crate::colors::{
    black, blue, cyan, dark_olive_green, dark_red, green, magenta, orange, palette_black,
    palette_blue, palette_cyan, palette_dark_olive_green, palette_dark_red, palette_green,
    palette_magenta, palette_orange, palette_purple, palette_red, palette_white, palette_yellow,
    purple, red, white, yellow, Rgb,
};
use crate::led_blinker::{
    duration_before, duration_before_grows, total_duration, Colors, Fragment, LEDBlinker,
    LEDPattern, Off, OneColor, PatternView, RoyalRainbow, SupercapBar,
};
use crate::state_machine::State;

verus! {

/// A fragment that shows one colour.
pub open spec fn one_color(duration_ms: u32, color: Rgb) -> Fragment {
    Fragment::OneColor(OneColor { duration_ms, color })
}

/// A fragment that shows the supercapacitor bar.
pub open spec fn supercap_bar(duration_ms: u32, color: Rgb) -> Fragment {
    Fragment::SupercapBar(SupercapBar { duration_ms, color })
}

/// The fragments of the pattern that stands for `state`.
pub open spec fn state_fragments(state: State) -> Seq<Fragment> {
    match state {
        State::PowerOff => seq![
            Fragment::Colors(
                Colors { duration_ms: 100, colors: [black(), black(), black(), black(), red()] },
            ),
        ],
        State::OffCharging => seq![supercap_bar(1000, red())],
        State::SystemStartup => seq![
            Fragment::RoyalRainbow(RoyalRainbow { duration_ms: 1280, direction: true }),
            one_color(1000, red()),
            one_color(1000, green()),
            one_color(1000, blue()),
            one_color(1000, yellow()),
            one_color(1000, magenta()),
            one_color(1000, cyan()),
            one_color(1000, white()),
            Fragment::Off(Off { duration_ms: 1000 }),
        ],
        State::Operational { co_op_enabled } => if co_op_enabled {
            seq![supercap_bar(100, green())]
        } else {
            seq![supercap_bar(100, yellow())]
        },
        State::Blackout { co_op_enabled, .. } => if co_op_enabled {
            seq![supercap_bar(100, dark_olive_green())]
        } else {
            seq![supercap_bar(100, orange())]
        },
        State::GracefulShutdown { .. } => seq![supercap_bar(100, purple())],
        State::PoweredDown { .. } => seq![one_color(100, black())],
        State::HostUnresponsive { .. } => seq![one_color(100, red())],
        State::EnteringStandby => seq![one_color(100, blue())],
        State::Standby => seq![one_color(100, dark_red())],
    }
}

/// The fragments of the overvoltage alarm: red and dark in turn.
pub open spec fn vscap_alarm_fragments() -> Seq<Fragment> {
    seq![one_color(100, red()), one_color(100, black())]
}

/// A list of fragments whose first fragment lasts can be shown over and
/// over.
pub proof fn lasting_first_fragment_cycles(fragments: Seq<Fragment>)
    requires
        fragments.len() > 0,
        fragments[0].duration() > 0,
    ensures
        total_duration(fragments) > 0,
{
    assert(duration_before(fragments, 1) == duration_before(fragments, 0) + fragments[0].duration());
    duration_before_grows(fragments, 1, fragments.len() as int);
}

/// The pattern of every state, and that of the alarm, can be shown over and
/// over.
pub proof fn status_patterns_cycle(state: State)
    ensures
        total_duration(state_fragments(state)) > 0,
        total_duration(vscap_alarm_fragments()) > 0,
{
    lasting_first_fragment_cycles(state_fragments(state));
    lasting_first_fragment_cycles(vscap_alarm_fragments());
}

/// A pattern of one fragment.
fn single(fragment: Fragment) -> (pattern: LEDPattern)
    ensures
        pattern@ == (PatternView { fragments: seq![fragment], index: 0, start: 0 }),
        pattern.wf(),
{
    let mut fragments: Vec<Fragment> = Vec::new();
    fragments.push(fragment);
    assert(fragments@ =~= seq![fragment]);
    LEDPattern::new(fragments)
}

/// The pattern that stands for `state`, not yet shown.
pub fn get_state_pattern(state: &State) -> (pattern: LEDPattern)
    ensures
        pattern@ == (PatternView { fragments: state_fragments(*state), index: 0, start: 0 }),
        LEDBlinker::showable(pattern),
{
    proof {
        status_patterns_cycle(*state);
    }
    match state {
        State::PowerOff => {
            let dark = palette_black();
            single(
                Fragment::Colors(Colors::new(100, [dark, dark, dark, dark, palette_red()])),
            )
        },
        State::OffCharging => single(Fragment::SupercapBar(SupercapBar::new(1000, palette_red()))),
        State::SystemStartup => {
            let mut fragments: Vec<Fragment> = Vec::new();
            fragments.push(Fragment::RoyalRainbow(RoyalRainbow::new(1280, true)));
            fragments.push(Fragment::OneColor(OneColor::new(1000, palette_red())));
            fragments.push(Fragment::OneColor(OneColor::new(1000, palette_green())));
            fragments.push(Fragment::OneColor(OneColor::new(1000, palette_blue())));
            fragments.push(Fragment::OneColor(OneColor::new(1000, palette_yellow())));
            fragments.push(Fragment::OneColor(OneColor::new(1000, palette_magenta())));
            fragments.push(Fragment::OneColor(OneColor::new(1000, palette_cyan())));
            fragments.push(Fragment::OneColor(OneColor::new(1000, palette_white())));
            fragments.push(Fragment::Off(Off::new(1000)));
            assert(fragments@ =~= state_fragments(*state));
            LEDPattern::new(fragments)
        },
        State::Operational { co_op_enabled } => {
            if *co_op_enabled {
                single(Fragment::SupercapBar(SupercapBar::new(100, palette_green())))
            } else {
                single(Fragment::SupercapBar(SupercapBar::new(100, palette_yellow())))
            }
        },
        State::Blackout { co_op_enabled, .. } => {
            if *co_op_enabled {
                single(Fragment::SupercapBar(SupercapBar::new(100, palette_dark_olive_green())))
            } else {
                single(Fragment::SupercapBar(SupercapBar::new(100, palette_orange())))
            }
        },
        State::GracefulShutdown { .. } => single(
            Fragment::SupercapBar(SupercapBar::new(100, palette_purple())),
        ),
        State::PoweredDown { .. } => single(Fragment::OneColor(OneColor::new(100, palette_black()))),
        State::HostUnresponsive { .. } => single(
            Fragment::OneColor(OneColor::new(100, palette_red())),
        ),
        State::EnteringStandby => single(Fragment::OneColor(OneColor::new(100, palette_blue()))),
        State::Standby => single(Fragment::OneColor(OneColor::new(100, palette_dark_red()))),
    }
}

/// The pattern of the overvoltage alarm, not yet shown.
pub fn get_vscap_alarm_pattern() -> (pattern: LEDPattern)
    ensures
        pattern@ == (PatternView { fragments: vscap_alarm_fragments(), index: 0, start: 0 }),
        LEDBlinker::showable(pattern),
{
    proof {
        status_patterns_cycle(State::PowerOff);
    }
    let mut fragments: Vec<Fragment> = Vec::new();
    fragments.push(Fragment::OneColor(OneColor::new(100, palette_red())));
    fragments.push(Fragment::OneColor(OneColor::new(100, palette_black())));
    assert(fragments@ =~= vscap_alarm_fragments());
    LEDPattern::new(fragments)
}

} // verus!
