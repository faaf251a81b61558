//! The emulated power button: the commands it takes, the pulses they turn
//! into, and what an edge on the physical button leads to.

use vstd::prelude::*;
use crate::state_machine::StateMachineEvents;

verus! {

/// What the button emulator can be asked to do.
#[derive(Clone, Copy, Debug, PartialEq, Eq, Structural)]
pub enum PowerButtonEvents {
    Press,
    Release,
    Click,
    DoubleClick,
    LongPress,
}

/// One step of a pulse train: the level to put on the button line, and how
/// long to hold it before the next step. The line is low while the button
/// is pressed.
#[derive(Clone, Copy, Debug, PartialEq, Eq, Structural)]
pub struct PulseStep {
    pub level_high: bool,
    pub hold_ms: u32,
}

/// The line released and held for `hold_ms`.
pub open spec fn released(hold_ms: u32) -> PulseStep {
    PulseStep { level_high: true, hold_ms }
}

/// The line pressed and held for `hold_ms`.
pub open spec fn pressed(hold_ms: u32) -> PulseStep {
    PulseStep { level_high: false, hold_ms }
}

/// The pulse train of a command. A press and a release only set the line;
/// the other commands start and end with the line released.
pub open spec fn pulses(event: PowerButtonEvents) -> Seq<PulseStep> {
    match event {
        PowerButtonEvents::Press => seq![pressed(0)],
        PowerButtonEvents::Release => seq![released(0)],
        PowerButtonEvents::Click => seq![released(100), pressed(200), released(100)],
        PowerButtonEvents::DoubleClick => seq![
            released(100),
            pressed(200),
            released(100),
            pressed(200),
            released(100),
        ],
        PowerButtonEvents::LongPress => seq![released(100), pressed(5500), released(100)],
    }
}

/// The pulse train for `event`.
pub fn pulse_sequence(event: PowerButtonEvents) -> (steps: Vec<PulseStep>)
    ensures
        steps@ == pulses(event),
{
    let mut steps: Vec<PulseStep> = Vec::new();
    match event {
        PowerButtonEvents::Press => {
            steps.push(PulseStep { level_high: false, hold_ms: 0 });
        },
        PowerButtonEvents::Release => {
            steps.push(PulseStep { level_high: true, hold_ms: 0 });
        },
        PowerButtonEvents::Click => {
            steps.push(PulseStep { level_high: true, hold_ms: 100 });
            steps.push(PulseStep { level_high: false, hold_ms: 200 });
            steps.push(PulseStep { level_high: true, hold_ms: 100 });
        },
        PowerButtonEvents::DoubleClick => {
            steps.push(PulseStep { level_high: true, hold_ms: 100 });
            steps.push(PulseStep { level_high: false, hold_ms: 200 });
            steps.push(PulseStep { level_high: true, hold_ms: 100 });
            steps.push(PulseStep { level_high: false, hold_ms: 200 });
            steps.push(PulseStep { level_high: true, hold_ms: 100 });
        },
        PowerButtonEvents::LongPress => {
            steps.push(PulseStep { level_high: true, hold_ms: 100 });
            steps.push(PulseStep { level_high: false, hold_ms: 5500 });
            steps.push(PulseStep { level_high: true, hold_ms: 100 });
        },
    }
    assert(steps@ =~= pulses(event));
    steps
}

/// What an edge on the physical button leads to.
#[derive(Clone, Debug, PartialEq, Eq)]
pub struct ButtonEdge {
    /// What the button emulator is to do, in order.
    pub emulator: Vec<PowerButtonEvents>,
    /// What the state machine is told.
    pub command: Option<StateMachineEvents>,
}

/// What the emulator is to do after an edge that left the line at the
/// given level: release, and press again if the button is down.
pub open spec fn edge_emulation(is_high: bool) -> Seq<PowerButtonEvents> {
    if is_high {
        seq![PowerButtonEvents::Release]
    } else {
        seq![PowerButtonEvents::Release, PowerButtonEvents::Press]
    }
}

/// Handles an edge on the physical button that left the line at the given
/// level. The emulated button follows the physical one; a press is also
/// reported to the state machine.
pub fn power_button_edge(is_high: bool) -> (edge: ButtonEdge)
    ensures
        edge.emulator@ == edge_emulation(is_high),
        edge.command == if is_high {
            None
        } else {
            Some(StateMachineEvents::PowerButtonPress)
        },
{
    let mut emulator: Vec<PowerButtonEvents> = Vec::new();
    emulator.push(PowerButtonEvents::Release);
    if is_high {
        assert(emulator@ =~= edge_emulation(is_high));
        ButtonEdge { emulator, command: None }
    } else {
        emulator.push(PowerButtonEvents::Press);
        assert(emulator@ =~= edge_emulation(is_high));
        ButtonEdge { emulator, command: Some(StateMachineEvents::PowerButtonPress) }
    }
}

} // verus!
