//! The event generation loop: what one tick hands to the state machine, and
//! what the machine makes of it.
//!
//! Within a tick the queued commands come first, in the order in which they
//! arrived, then the edges of the three watched signals, then the
//! overvoltage alarm, and a `Tick` last. The events are delivered in that
//! order; after each of them the resulting state is published.

use vstd::prelude::*;
use crate::config::VSCAP_MAX_ALARM_MV;
use crate::gpio_input::Inputs;
use crate::state_machine::{
    event_of, machine_step, Action, Context, Effects, Event, HalpiStateMachine, State,
    StateMachineEvents, TimingPolicy,
};

verus! {

/// The voltage thresholds that turn readings into signals.
#[derive(Clone, Copy, Debug, PartialEq, Eq, Structural)]
pub struct Thresholds {
    /// External power counts as present above this many millivolts.
    pub vin_power_threshold_mv: u32,
    /// The supercapacitor counts as ready above this many millivolts.
    pub vscap_power_on_threshold_mv: u32,
}

/// The three signals whose changes become events.
#[derive(Clone, Copy, Debug, PartialEq, Eq, Structural)]
pub struct SignalLevels {
    pub external_power: bool,
    pub supercap_ready: bool,
    pub compute_module_on: bool,
}

/// The signals that a snapshot shows under the given thresholds.
pub open spec fn signal_levels(inputs: Inputs, thresholds: Thresholds) -> SignalLevels {
    SignalLevels {
        external_power: inputs.vin_mv > thresholds.vin_power_threshold_mv,
        supercap_ready: inputs.vscap_mv > thresholds.vscap_power_on_threshold_mv,
        compute_module_on: inputs.cm_on,
    }
}

/// Whether a snapshot shows the supercapacitor above its safe maximum.
pub open spec fn overvoltage(inputs: Inputs) -> bool {
    inputs.vscap_mv > VSCAP_MAX_ALARM_MV
}

/// The events for the queued commands, one for one, in their order.
pub open spec fn command_events(commands: Seq<StateMachineEvents>) -> Seq<Event> {
    Seq::new(commands.len(), |i: int| event_of(commands[i]))
}

/// The events for the signals that differ between two ticks: external power
/// first, then the supercapacitor, then the host. A supercapacitor that is
/// no longer ready gives no event.
pub open spec fn edge_events(previous: SignalLevels, current: SignalLevels) -> Seq<Event> {
    let power = if current.external_power == previous.external_power {
        Seq::<Event>::empty()
    } else if current.external_power {
        seq![Event::ExternalPowerOn]
    } else {
        seq![Event::ExternalPowerOff]
    };
    let supercap = if current.supercap_ready && !previous.supercap_ready {
        seq![Event::SupercapReady]
    } else {
        Seq::<Event>::empty()
    };
    let host = if current.compute_module_on == previous.compute_module_on {
        Seq::<Event>::empty()
    } else if current.compute_module_on {
        seq![Event::ComputeModuleOn]
    } else {
        seq![Event::ComputeModuleOff]
    };
    power + supercap + host
}

/// The overvoltage event, unless the alarm is latched already.
pub open spec fn alarm_events(overvoltage: bool, alarm_latched: bool) -> Seq<Event> {
    if overvoltage && !alarm_latched {
        seq![Event::SupercapOvervoltage]
    } else {
        Seq::<Event>::empty()
    }
}

/// Everything that one tick delivers, in order.
pub open spec fn tick_events(
    commands: Seq<StateMachineEvents>,
    previous: SignalLevels,
    current: SignalLevels,
    overvoltage: bool,
    alarm_latched: bool,
) -> Seq<Event> {
    command_events(commands) + edge_events(previous, current) + alarm_events(
        overvoltage,
        alarm_latched,
    ) + seq![Event::Tick]
}

impl SignalLevels {
    /// All signals low, as before the first tick.
    pub fn new() -> (levels: SignalLevels)
        ensures
            levels == (SignalLevels {
                external_power: false,
                supercap_ready: false,
                compute_module_on: false,
            }),
    {
        SignalLevels { external_power: false, supercap_ready: false, compute_module_on: false }
    }

    /// Reads the signals off a snapshot.
    pub fn sample(inputs: &Inputs, thresholds: &Thresholds) -> (levels: SignalLevels)
        ensures
            levels == signal_levels(*inputs, *thresholds),
    {
        SignalLevels {
            external_power: inputs.vin_mv > thresholds.vin_power_threshold_mv,
            supercap_ready: inputs.vscap_mv > thresholds.vscap_power_on_threshold_mv,
            compute_module_on: inputs.cm_on,
        }
    }
}

/// Whether `inputs` show the supercapacitor above its safe maximum.
pub fn is_overvoltage(inputs: &Inputs) -> (over: bool)
    ensures
        over == overvoltage(*inputs),
{
    inputs.vscap_mv > VSCAP_MAX_ALARM_MV
}

/// Builds the events of one tick and remembers the signals for the next.
pub fn generate_events(
    commands: &Vec<StateMachineEvents>,
    inputs: &Inputs,
    thresholds: &Thresholds,
    previous: &mut SignalLevels,
    alarm_latched: bool,
) -> (events: Vec<Event>)
    ensures
        events@ == tick_events(
            commands@,
            *old(previous),
            signal_levels(*inputs, *thresholds),
            overvoltage(*inputs),
            alarm_latched,
        ),
        *final(previous) == signal_levels(*inputs, *thresholds),
{
    let mut events: Vec<Event> = Vec::new();
    let mut i: usize = 0;
    while i < commands.len()
        invariant
            i <= commands.len(),
            events@.len() == i,
            forall|j: int| 0 <= j < i ==> events@[j] == event_of(#[trigger] commands@[j]),
        decreases commands.len() - i,
    {
        events.push(Event::from_command(commands[i]));
        i += 1;
    }
    assert(events@ =~= command_events(commands@));
    let current = SignalLevels::sample(inputs, thresholds);
    if current.external_power != previous.external_power {
        if current.external_power {
            events.push(Event::ExternalPowerOn);
        } else {
            events.push(Event::ExternalPowerOff);
        }
    }
    if current.supercap_ready && !previous.supercap_ready {
        events.push(Event::SupercapReady);
    }
    if current.compute_module_on != previous.compute_module_on {
        if current.compute_module_on {
            events.push(Event::ComputeModuleOn);
        } else {
            events.push(Event::ComputeModuleOff);
        }
    }
    assert(events@ =~= command_events(commands@) + edge_events(*old(previous), current));
    if is_overvoltage(inputs) && !alarm_latched {
        events.push(Event::SupercapOvervoltage);
    }
    events.push(Event::Tick);
    assert(events@ =~= tick_events(
        commands@,
        *old(previous),
        current,
        overvoltage(*inputs),
        alarm_latched,
    ));
    *previous = current;
    events
}

/// Where a run of deliveries ended.
pub struct Run {
    pub started: bool,
    pub state: State,
    pub context: Context,
    /// Everything asked for, with a `Publish` after each delivered event.
    pub actions: Seq<Action>,
    /// A delivery asked for a restart; the events after it were dropped.
    pub restart: bool,
}

/// Delivers `events` one after the other at time `now`. After each event
/// the resulting state is published. A delivery that asks for a restart ends
/// the run: its state is not published and the remaining events are dropped.
pub open spec fn run(
    started: bool,
    state: State,
    context: Context,
    events: Seq<Event>,
    now: u64,
    policy: TimingPolicy,
) -> Run
    decreases events.len(),
{
    if events.len() == 0 {
        Run { started, state, context, actions: Seq::empty(), restart: false }
    } else {
        let first = machine_step(started, state, context, events[0], now, policy);
        if first.restart {
            Run {
                started: true,
                state: first.state,
                context: first.context,
                actions: first.actions,
                restart: true,
            }
        } else {
            let rest = run(true, first.state, first.context, events.drop_first(), now, policy);
            Run { actions: first.actions + seq![Action::Publish(first.state)] + rest.actions, ..rest }
        }
    }
}

/// Delivers `events` to `machine` in order and publishes the state after
/// each; stops at the first delivery that asks for a restart.
pub fn run_events(
    machine: &mut HalpiStateMachine,
    events: &Vec<Event>,
    context: &mut Context,
    now: u64,
    policy: &TimingPolicy,
) -> (effects: Effects)
    ensures
        final(machine).started() == run(
            old(machine).started(),
            old(machine).current(),
            *old(context),
            events@,
            now,
            *policy,
        ).started,
        final(machine).current() == run(
            old(machine).started(),
            old(machine).current(),
            *old(context),
            events@,
            now,
            *policy,
        ).state,
        *final(context) == run(
            old(machine).started(),
            old(machine).current(),
            *old(context),
            events@,
            now,
            *policy,
        ).context,
        effects.actions@ == run(
            old(machine).started(),
            old(machine).current(),
            *old(context),
            events@,
            now,
            *policy,
        ).actions,
        effects.restart == run(
            old(machine).started(),
            old(machine).current(),
            *old(context),
            events@,
            now,
            *policy,
        ).restart,
{
    let ghost whole = run(
        old(machine).started(),
        old(machine).current(),
        *old(context),
        events@,
        now,
        *policy,
    );
    let mut effects = Effects::new();
    let mut i: usize = 0;
    assert(events@.skip(0) =~= events@);
    while i < events.len() && !effects.restart
        invariant
            i <= events.len(),
            effects.restart ==> whole.restart && whole.actions == effects.actions@
                && whole.state == machine.current() && whole.context == *context
                && whole.started == machine.started(),
            !effects.restart ==> ({
                let rest = run(
                    machine.started(),
                    machine.current(),
                    *context,
                    events@.skip(i as int),
                    now,
                    *policy,
                );
                &&& whole.actions == effects.actions@ + rest.actions
                &&& whole.state == rest.state
                &&& whole.context == rest.context
                &&& whole.started == rest.started
                &&& whole.restart == rest.restart
            }),
        decreases events.len() - i, if effects.restart { 0int } else { 1int },
    {
        let ghost before = effects.actions@;
        let ghost remaining = events@.skip(i as int);
        assert(remaining.len() > 0);
        assert(remaining[0] == events@[i as int]);
        assert(remaining.drop_first() =~= events@.skip(i + 1));
        let delivered = machine.handle_with_context(&events[i], context, now, policy);
        let Effects { actions: mut step_actions, restart } = delivered;
        let ghost step_seq = step_actions@;
        effects.actions.append(&mut step_actions);
        assert(effects.actions@ =~= before + step_seq);
        if restart {
            effects.restart = true;
            assert(whole.actions =~= effects.actions@);
        } else {
            effects.actions.push(Action::Publish(machine.state()));
            i += 1;
            assert(effects.actions@ =~= before + step_seq + seq![Action::Publish(machine.current())]);
            let ghost rest = run(
                true,
                machine.current(),
                *context,
                events@.skip(i as int),
                now,
                *policy,
            );
            assert(whole.actions =~= effects.actions@ + rest.actions);
        }
    }
    effects
}

/// One whole tick: builds the events from the queued commands and the input
/// snapshot, and delivers them.
pub fn process_tick(
    machine: &mut HalpiStateMachine,
    context: &mut Context,
    commands: &Vec<StateMachineEvents>,
    inputs: &Inputs,
    thresholds: &Thresholds,
    previous: &mut SignalLevels,
    now: u64,
    policy: &TimingPolicy,
) -> (effects: Effects)
    ensures
        *final(previous) == signal_levels(*inputs, *thresholds),
        final(machine).started() == tick_run(
            old(machine).started(),
            old(machine).current(),
            *old(context),
            commands@,
            *old(previous),
            *inputs,
            *thresholds,
            now,
            *policy,
        ).started,
        final(machine).current() == tick_run(
            old(machine).started(),
            old(machine).current(),
            *old(context),
            commands@,
            *old(previous),
            *inputs,
            *thresholds,
            now,
            *policy,
        ).state,
        *final(context) == tick_run(
            old(machine).started(),
            old(machine).current(),
            *old(context),
            commands@,
            *old(previous),
            *inputs,
            *thresholds,
            now,
            *policy,
        ).context,
        effects.actions@ == tick_run(
            old(machine).started(),
            old(machine).current(),
            *old(context),
            commands@,
            *old(previous),
            *inputs,
            *thresholds,
            now,
            *policy,
        ).actions,
        effects.restart == tick_run(
            old(machine).started(),
            old(machine).current(),
            *old(context),
            commands@,
            *old(previous),
            *inputs,
            *thresholds,
            now,
            *policy,
        ).restart,
{
    let events = generate_events(
        commands,
        inputs,
        thresholds,
        previous,
        context.vscap_alarm_active,
    );
    run_events(machine, &events, context, now, policy)
}

/// What one whole tick does: [`run`] on the [`tick_events`] of the tick.
pub open spec fn tick_run(
    started: bool,
    state: State,
    context: Context,
    commands: Seq<StateMachineEvents>,
    previous: SignalLevels,
    inputs: Inputs,
    thresholds: Thresholds,
    now: u64,
    policy: TimingPolicy,
) -> Run {
    run(
        started,
        state,
        context,
        tick_events(
            commands,
            previous,
            signal_levels(inputs, thresholds),
            overvoltage(inputs),
            context.vscap_alarm_active,
        ),
        now,
        policy,
    )
}

} // verus!
