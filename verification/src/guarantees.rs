//! What holds of the state machine and of the event loop, whatever the
//! inputs. Each statement is proved from the transition table.

use vstd::prelude::*;
use crate::event_loop::{
    alarm_events, command_events, edge_events, run, tick_events, Run, SignalLevels,
};
use crate::power_button::PowerButtonEvents;
use crate::state_machine::{
    entered_context, entry_actions, event_of, machine_step, stay, step, timed_out, Action,
    Context, Event, Outputs, State, StateMachineEvents, Step, TimingPolicy,
};

verus! {

/// Delivers a `Tick` at each of `times`, in order, and collects what is asked
/// for. A tick that asks for a restart ends the sequence.
pub open spec fn ticks(state: State, context: Context, times: Seq<u64>, policy: TimingPolicy) -> Step
    decreases times.len(),
{
    if times.len() == 0 {
        stay(state, context, Seq::empty())
    } else {
        let first = step(state, context, Event::Tick, times[0], policy);
        if first.restart {
            first
        } else {
            let rest = ticks(first.state, first.context, times.drop_first(), policy);
            Step { actions: first.actions + rest.actions, ..rest }
        }
    }
}

/// The overvoltage alarm is a latch: no event in any state clears it.
pub proof fn alarm_is_never_cleared(
    state: State,
    context: Context,
    event: Event,
    now: u64,
    policy: TimingPolicy,
)
    requires
        context.vscap_alarm_active,
    ensures
        step(state, context, event, now, policy).context.vscap_alarm_active,
{
}

/// The alarm stays latched through any run of deliveries.
pub proof fn alarm_survives_run(
    started: bool,
    state: State,
    context: Context,
    events: Seq<Event>,
    now: u64,
    policy: TimingPolicy,
)
    requires
        context.vscap_alarm_active,
    ensures
        run(started, state, context, events, now, policy).context.vscap_alarm_active,
    decreases events.len(),
{
    if events.len() > 0 {
        let first = machine_step(
            started,
            state,
            context,
            events[0],
            now,
            policy,
        );
        if !first.restart {
            alarm_survives_run(true, first.state, first.context, events.drop_first(), now, policy);
        }
    }
}

/// In every state, delivering the overvoltage event twice is as good as
/// delivering it once: the alarm is latched after the first delivery and
/// after the second, each delivery asks for the alarm pattern and for
/// nothing else, the state stays what it was, and the second delivery leaves
/// the context as the first left it.
pub proof fn overvoltage_is_idempotent(
    state: State,
    context: Context,
    first_now: u64,
    second_now: u64,
    policy: TimingPolicy,
)
    ensures
        ({
            let once = step(state, context, Event::SupercapOvervoltage, first_now, policy);
            let twice = step(
                once.state,
                once.context,
                Event::SupercapOvervoltage,
                second_now,
                policy,
            );
            &&& once.context == (Context { vscap_alarm_active: true, ..context })
            &&& twice.context == once.context
            &&& once.actions == seq![Action::SetAlarmLedPattern]
            &&& twice.actions == seq![Action::SetAlarmLedPattern]
            &&& once.state == state
            &&& twice.state == state
            &&& !once.restart
            &&& !twice.restart
        }),
{
}

/// `PowerOff` answers external power with a single transition to
/// `OffCharging`, which shows its pattern and leaves the context alone.
pub proof fn power_off_starts_charging(context: Context, now: u64, policy: TimingPolicy)
    ensures
        ({
            let next = step(State::PowerOff, context, Event::ExternalPowerOn, now, policy);
            &&& next.state == State::OffCharging
            &&& next.context == context
            &&& next.actions == seq![Action::SetLedPattern(State::OffCharging)]
            &&& !next.restart
        }),
{
}

/// `OffCharging` starts the host once the supercapacitor is ready, and falls
/// back to `PowerOff` when external power goes, whatever else holds.
pub proof fn off_charging_leaves_on_ready_or_power_loss(
    context: Context,
    now: u64,
    policy: TimingPolicy,
)
    ensures
        ({
            let ready = step(State::OffCharging, context, Event::SupercapReady, now, policy);
            let lost = step(State::OffCharging, context, Event::ExternalPowerOff, now, policy);
            &&& ready.state == State::SystemStartup
            &&& ready.context.outputs.ven
            &&& !ready.context.outputs.pcie_sleep
            &&& !ready.restart
            &&& lost.state == State::PowerOff
            &&& !lost.context.outputs.ven
            &&& lost.context.outputs.pcie_sleep
            &&& !lost.restart
        }),
{
}

/// In `Operational` a watchdog timeout above zero selects cooperative mode
/// and a timeout of zero selects solo mode, whichever mode was active.
pub proof fn watchdog_timeout_selects_mode(
    co_op_enabled: bool,
    context: Context,
    timeout_ms: u16,
    now: u64,
    policy: TimingPolicy,
)
    ensures
        ({
            let next = step(
                State::Operational { co_op_enabled },
                context,
                Event::SetWatchdogTimeout(timeout_ms),
                now,
                policy,
            );
            &&& next.state == State::Operational { co_op_enabled: timeout_ms > 0 }
            &&& !next.restart
        }),
{
}

/// Whether the watchdog timeout in `context` fits the mode that `state` is
/// in: zero in the solo states, above zero in the cooperative ones.
pub open spec fn watchdog_matches_mode(state: State, context: Context) -> bool {
    match state {
        State::Operational { co_op_enabled } => co_op_enabled == (context.host_watchdog_timeout_ms
            > 0),
        State::Blackout { co_op_enabled, .. } => co_op_enabled == (context.host_watchdog_timeout_ms
            > 0),
        State::HostUnresponsive { .. } => context.host_watchdog_timeout_ms > 0,
        _ => true,
    }
}

/// The watchdog timeout keeps fitting the mode, whatever is delivered.
pub proof fn watchdog_keeps_matching_mode(
    state: State,
    context: Context,
    event: Event,
    now: u64,
    policy: TimingPolicy,
)
    requires
        watchdog_matches_mode(state, context),
    ensures
        watchdog_matches_mode(
            step(state, context, event, now, policy).state,
            step(state, context, event, now, policy).context,
        ),
{
}

/// Where the watchdog timeout fits the mode, setting a timeout in
/// `Operational` leaves exactly that timeout in the context.
pub proof fn watchdog_timeout_is_stored(
    co_op_enabled: bool,
    context: Context,
    timeout_ms: u16,
    now: u64,
    policy: TimingPolicy,
)
    requires
        watchdog_matches_mode(State::Operational { co_op_enabled }, context),
    ensures
        step(
            State::Operational { co_op_enabled },
            context,
            Event::SetWatchdogTimeout(timeout_ms),
            now,
            policy,
        ).context.host_watchdog_timeout_ms == timeout_ms,
{
}

/// A cooperative `Operational` whose last ping is older than the watchdog
/// timeout becomes `HostUnresponsive` on the next tick, and a ping brings
/// `HostUnresponsive` back to cooperative `Operational`.
pub proof fn missed_ping_is_noticed_and_forgiven(
    context: Context,
    now: u64,
    later: u64,
    policy: TimingPolicy,
)
    requires
        timed_out(now, context.host_watchdog_last_ping, context.host_watchdog_timeout_ms as u64),
    ensures
        ({
            let missed = step(
                State::Operational { co_op_enabled: true },
                context,
                Event::Tick,
                now,
                policy,
            );
            let back = step(missed.state, missed.context, Event::WatchdogPing, later, policy);
            &&& missed.state == State::HostUnresponsive { entry_time: now }
            &&& missed.context == context
            &&& !missed.restart
            &&& back.state == State::Operational { co_op_enabled: true }
            &&& back.context == (Context { host_watchdog_last_ping: later, ..context })
            &&& !back.restart
        }),
{
}

/// A cooperative `Operational` whose last ping is recent enough stays as it is
/// on a tick.
pub proof fn timely_ping_keeps_operational(context: Context, now: u64, policy: TimingPolicy)
    requires
        !timed_out(now, context.host_watchdog_last_ping, context.host_watchdog_timeout_ms as u64),
    ensures
        step(State::Operational { co_op_enabled: true }, context, Event::Tick, now, policy)
            == stay(State::Operational { co_op_enabled: true }, context, Seq::empty()),
{
}

/// Ticks that all fall within the solo timeout leave a solo `Blackout`
/// exactly as it was and ask for nothing.
pub proof fn solo_blackout_waits(
    entry_time: u64,
    context: Context,
    times: Seq<u64>,
    policy: TimingPolicy,
)
    requires
        forall|i: int|
            0 <= i < times.len() ==> !timed_out(
                #[trigger] times[i],
                entry_time,
                policy.solo_depleting_timeout_ms as u64,
            ),
    ensures
        ticks(State::Blackout { co_op_enabled: false, entry_time }, context, times, policy)
            == stay(
            State::Blackout { co_op_enabled: false, entry_time },
            context,
            Seq::empty(),
        ),
    decreases times.len(),
{
    if times.len() > 0 {
        let state = State::Blackout { co_op_enabled: false, entry_time };
        assert(!timed_out(times[0], entry_time, policy.solo_depleting_timeout_ms as u64));
        let rest = times.drop_first();
        assert forall|i: int| 0 <= i < rest.len() implies !timed_out(
            #[trigger] rest[i],
            entry_time,
            policy.solo_depleting_timeout_ms as u64,
        ) by {
            assert(rest[i] == times[i + 1]);
        }
        solo_blackout_waits(entry_time, context, rest, policy);
        assert(Seq::<Action>::empty() + Seq::<Action>::empty() =~= Seq::<Action>::empty());
    }
}

/// The tick that finds a solo `Blackout` older than the solo timeout asks
/// for one double click of the power button, then enters `GracefulShutdown`.
pub proof fn solo_blackout_gives_up(
    entry_time: u64,
    context: Context,
    now: u64,
    policy: TimingPolicy,
)
    requires
        timed_out(now, entry_time, policy.solo_depleting_timeout_ms as u64),
    ensures
        ({
            let next = step(
                State::Blackout { co_op_enabled: false, entry_time },
                context,
                Event::Tick,
                now,
                policy,
            );
            &&& next.state == State::GracefulShutdown { entry_time: now }
            &&& next.context == context
            &&& next.actions == seq![
                Action::PowerButton(PowerButtonEvents::DoubleClick),
                Action::SetLedPattern(State::GracefulShutdown { entry_time: now }),
            ]
            &&& !next.restart
        }),
{
    let target = State::GracefulShutdown { entry_time: now };
    assert(seq![Action::PowerButton(PowerButtonEvents::DoubleClick)] + entry_actions(target)
        =~= seq![
        Action::PowerButton(PowerButtonEvents::DoubleClick),
        Action::SetLedPattern(target),
    ]);
}

/// Whatever the waiting ticks before it, the first tick past the solo
/// timeout is the only one that asks for anything, and it asks for exactly
/// one double click.
pub proof fn solo_blackout_clicks_once(
    entry_time: u64,
    context: Context,
    waiting: Seq<u64>,
    now: u64,
    policy: TimingPolicy,
)
    requires
        forall|i: int|
            0 <= i < waiting.len() ==> !timed_out(
                #[trigger] waiting[i],
                entry_time,
                policy.solo_depleting_timeout_ms as u64,
            ),
        timed_out(now, entry_time, policy.solo_depleting_timeout_ms as u64),
    ensures
        ({
            let end = ticks(
                State::Blackout { co_op_enabled: false, entry_time },
                context,
                waiting.push(now),
                policy,
            );
            &&& end.state == State::GracefulShutdown { entry_time: now }
            &&& end.context == context
            &&& end.actions == seq![
                Action::PowerButton(PowerButtonEvents::DoubleClick),
                Action::SetLedPattern(State::GracefulShutdown { entry_time: now }),
            ]
            &&& !end.restart
        }),
    decreases waiting.len(),
{
    let state = State::Blackout { co_op_enabled: false, entry_time };
    let all = waiting.push(now);
    let wanted = seq![
        Action::PowerButton(PowerButtonEvents::DoubleClick),
        Action::SetLedPattern(State::GracefulShutdown { entry_time: now }),
    ];
    if waiting.len() == 0 {
        solo_blackout_gives_up(entry_time, context, now, policy);
        assert(all[0] == now);
        assert(all.drop_first() =~= Seq::<u64>::empty());
        let first = step(state, context, Event::Tick, now, policy);
        assert(ticks(first.state, first.context, all.drop_first(), policy).actions
            =~= Seq::<Action>::empty());
        assert(first.actions + Seq::<Action>::empty() =~= wanted);
    } else {
        assert(all[0] == waiting[0]);
        assert(!timed_out(waiting[0], entry_time, policy.solo_depleting_timeout_ms as u64));
        let rest = waiting.drop_first();
        assert(all.drop_first() =~= rest.push(now));
        assert forall|i: int| 0 <= i < rest.len() implies !timed_out(
            #[trigger] rest[i],
            entry_time,
            policy.solo_depleting_timeout_ms as u64,
        ) by {
            assert(rest[i] == waiting[i + 1]);
        }
        solo_blackout_clicks_once(entry_time, context, rest, now, policy);
        assert(Seq::<Action>::empty() + wanted =~= wanted);
    }
}

/// After a loss of power, `PoweredDown` asks for a restart on the first tick
/// past the hold time, whatever the restart preference says.
pub proof fn power_loss_always_restarts(
    entry_time: u64,
    context: Context,
    now: u64,
    policy: TimingPolicy,
)
    requires
        timed_out(now, entry_time, policy.off_state_duration_ms as u64),
    ensures
        step(
            State::PoweredDown { entry_time, intentional_shutdown: false },
            context,
            Event::Tick,
            now,
            policy,
        ).restart,
{
}

/// After an intentional shutdown, a tick past the hold time asks for a
/// restart if and only if restarts are wanted.
pub proof fn intentional_shutdown_honours_preference(
    entry_time: u64,
    context: Context,
    now: u64,
    policy: TimingPolicy,
)
    requires
        timed_out(now, entry_time, policy.off_state_duration_ms as u64),
    ensures
        step(
            State::PoweredDown { entry_time, intentional_shutdown: true },
            context,
            Event::Tick,
            now,
            policy,
        ).restart == policy.auto_restart,
{
}

/// No tick within the hold time asks for a restart.
pub proof fn powered_down_holds(
    entry_time: u64,
    intentional_shutdown: bool,
    context: Context,
    now: u64,
    policy: TimingPolicy,
)
    requires
        !timed_out(now, entry_time, policy.off_state_duration_ms as u64),
    ensures
        step(
            State::PoweredDown { entry_time, intentional_shutdown },
            context,
            Event::Tick,
            now,
            policy,
        ) == stay(
            State::PoweredDown { entry_time, intentional_shutdown },
            context,
            Seq::empty(),
        ),
{
}

/// With restarts not wanted, an intentional shutdown stays powered down
/// through any number of ticks, however late.
pub proof fn intentional_shutdown_stays_down(
    entry_time: u64,
    context: Context,
    times: Seq<u64>,
    policy: TimingPolicy,
)
    requires
        !policy.auto_restart,
    ensures
        ticks(
            State::PoweredDown { entry_time, intentional_shutdown: true },
            context,
            times,
            policy,
        ) == stay(
            State::PoweredDown { entry_time, intentional_shutdown: true },
            context,
            Seq::empty(),
        ),
    decreases times.len(),
{
    if times.len() > 0 {
        intentional_shutdown_stays_down(entry_time, context, times.drop_first(), policy);
        assert(Seq::<Action>::empty() + Seq::<Action>::empty() =~= Seq::<Action>::empty());
    }
}

/// A press of the power button and a loss of external power restart a
/// powered-down controller at once, whatever the restart preference says.
pub proof fn button_and_power_loss_force_restart(
    entry_time: u64,
    intentional_shutdown: bool,
    context: Context,
    now: u64,
    policy: TimingPolicy,
)
    ensures
        step(
            State::PoweredDown { entry_time, intentional_shutdown },
            context,
            Event::PowerButtonPress,
            now,
            policy,
        ).restart,
        step(
            State::PoweredDown { entry_time, intentional_shutdown },
            context,
            Event::ExternalPowerOff,
            now,
            policy,
        ).restart,
{
}

/// Only `PoweredDown` ever asks for a restart.
pub proof fn restart_comes_from_powered_down_only(
    state: State,
    context: Context,
    event: Event,
    now: u64,
    policy: TimingPolicy,
)
    requires
        step(state, context, event, now, policy).restart,
    ensures
        state is PoweredDown,
        step(state, context, event, now, policy).state == state,
        step(state, context, event, now, policy).context == context,
        step(state, context, event, now, policy).actions == Seq::<Action>::empty(),
{
}

/// The levels that the rail control lines are left at by `actions`, having
/// been at `before`.
pub open spec fn rails_after(actions: Seq<Action>, before: Outputs) -> Outputs
    decreases actions.len(),
{
    if actions.len() == 0 {
        before
    } else {
        match actions.last() {
            Action::SetRails(outputs) => outputs,
            _ => rails_after(actions.drop_last(), before),
        }
    }
}

/// The rail levels that the context holds are the levels that the actions
/// leave on the lines: whoever performs the actions in order keeps the lines
/// in step with the context.
pub proof fn rails_follow_the_actions(
    state: State,
    context: Context,
    event: Event,
    now: u64,
    policy: TimingPolicy,
)
    ensures
        step(state, context, event, now, policy).context.outputs == rails_after(
            step(state, context, event, now, policy).actions,
            context.outputs,
        ),
{
    let next = step(state, context, event, now, policy);
    let entry = entry_actions(next.state);
    reveal_with_fuel(rails_after, 5);
    if next.actions.len() > 0 {
        if next.actions.len() == 1 {
            assert(next.actions.drop_last() =~= Seq::<Action>::empty());
        } else if next.actions.len() == 2 {
            assert(next.actions.drop_last().drop_last() =~= Seq::<Action>::empty());
        } else {
            assert(next.actions.len() == 3);
            assert(next.actions =~= entry);
            assert(next.actions.drop_last().drop_last().drop_last() =~= Seq::<Action>::empty());
        }
    }
}

/// What a list of actions leaves on the rail lines is what its second part
/// leaves, starting from what its first part has left.
pub proof fn rails_after_in_parts(first: Seq<Action>, second: Seq<Action>, before: Outputs)
    ensures
        rails_after(first + second, before) == rails_after(second, rails_after(first, before)),
    decreases second.len(),
{
    if second.len() == 0 {
        assert(first + second =~= first);
    } else {
        let all = first + second;
        assert(all.last() == second.last());
        assert(all.drop_last() =~= first + second.drop_last());
        rails_after_in_parts(first, second.drop_last(), before);
    }
}

/// Through any run of deliveries the rail levels in the context are the
/// levels that the actions of the run leave on the lines.
pub proof fn rails_follow_the_run(
    started: bool,
    state: State,
    context: Context,
    events: Seq<Event>,
    now: u64,
    policy: TimingPolicy,
)
    ensures
        run(started, state, context, events, now, policy).context.outputs == rails_after(
            run(started, state, context, events, now, policy).actions,
            context.outputs,
        ),
    decreases events.len(),
{
    if events.len() > 0 {
        let first = machine_step(started, state, context, events[0], now, policy);
        let entered = if started {
            context
        } else {
            entered_context(state, context)
        };
        let entry = if started {
            Seq::<Action>::empty()
        } else {
            entry_actions(state)
        };
        let inner = step(state, entered, events[0], now, policy);
        assert(first.actions =~= entry + inner.actions);
        reveal_with_fuel(rails_after, 5);
        assert(rails_after(entry, context.outputs) == entered.outputs) by {
            if entry.len() == 1 {
                assert(entry.drop_last() =~= Seq::<Action>::empty());
            } else if entry.len() == 3 {
                assert(entry.drop_last().drop_last().drop_last() =~= Seq::<Action>::empty());
            }
        }
        rails_follow_the_actions(state, entered, events[0], now, policy);
        rails_after_in_parts(entry, inner.actions, context.outputs);
        if !first.restart {
            let rest = run(true, first.state, first.context, events.drop_first(), now, policy);
            rails_follow_the_run(true, first.state, first.context, events.drop_first(), now, policy);
            let published = seq![Action::Publish(first.state)];
            rails_after_in_parts(first.actions, published, context.outputs);
            assert(published.drop_last() =~= Seq::<Action>::empty());
            rails_after_in_parts(first.actions + published, rest.actions, context.outputs);
        }
    }
}

/// The watchdog timeout keeps fitting the mode through any run of
/// deliveries.
pub proof fn watchdog_keeps_matching_mode_through_run(
    started: bool,
    state: State,
    context: Context,
    events: Seq<Event>,
    now: u64,
    policy: TimingPolicy,
)
    requires
        watchdog_matches_mode(state, context),
    ensures
        watchdog_matches_mode(
            run(started, state, context, events, now, policy).state,
            run(started, state, context, events, now, policy).context,
        ),
    decreases events.len(),
{
    if events.len() > 0 {
        let first = machine_step(started, state, context, events[0], now, policy);
        let entered = if started {
            context
        } else {
            entered_context(state, context)
        };
        watchdog_keeps_matching_mode(state, entered, events[0], now, policy);
        if !first.restart {
            watchdog_keeps_matching_mode_through_run(
                true,
                first.state,
                first.context,
                events.drop_first(),
                now,
                policy,
            );
        }
    }
}

/// The events of a tick start with the queued commands, one for one and in
/// the order in which they were queued; the signal edges and the alarm
/// follow; the last event is the `Tick`.
pub proof fn commands_come_first_and_tick_last(
    commands: Seq<StateMachineEvents>,
    previous: SignalLevels,
    current: SignalLevels,
    overvoltage: bool,
    alarm_latched: bool,
)
    ensures
        ({
            let events = tick_events(commands, previous, current, overvoltage, alarm_latched);
            let edges = edge_events(previous, current);
            let alarm = alarm_events(overvoltage, alarm_latched);
            &&& events.len() == commands.len() + edges.len() + alarm.len() + 1
            &&& forall|i: int|
                0 <= i < commands.len() ==> #[trigger] events[i] == event_of(commands[i])
            &&& forall|i: int|
                0 <= i < edges.len() ==> #[trigger] events[commands.len() + i] == edges[i]
            &&& forall|i: int|
                0 <= i < alarm.len() ==> #[trigger] events[commands.len() + edges.len() + i]
                    == alarm[i]
            &&& events.last() == Event::Tick
            &&& edges.len() <= 3
            &&& alarm.len() <= 1
        }),
{
    let head = command_events(commands);
    assert(head.len() == commands.len());
}

/// Events are delivered in order: delivering `first + second` is delivering
/// `first` and then, unless a restart was asked for, `second` to what
/// `first` has left behind.
pub proof fn run_is_sequential(
    started: bool,
    state: State,
    context: Context,
    first: Seq<Event>,
    second: Seq<Event>,
    now: u64,
    policy: TimingPolicy,
)
    ensures
        ({
            let whole = run(started, state, context, first + second, now, policy);
            let head = run(started, state, context, first, now, policy);
            let tail = run(head.started, head.state, head.context, second, now, policy);
            if head.restart {
                whole == head
            } else {
                whole == (Run { actions: head.actions + tail.actions, ..tail })
            }
        }),
    decreases first.len(),
{
    let all = first + second;
    if first.len() == 0 {
        assert(all =~= second);
        let tail = run(started, state, context, second, now, policy);
        assert(Seq::<Action>::empty() + tail.actions =~= tail.actions);
    } else {
        assert(all[0] == first[0]);
        assert(all.drop_first() =~= first.drop_first() + second);
        let one = machine_step(
            started,
            state,
            context,
            first[0],
            now,
            policy,
        );
        if !one.restart {
            run_is_sequential(
                true,
                one.state,
                one.context,
                first.drop_first(),
                second,
                now,
                policy,
            );
            let head_rest = run(true, one.state, one.context, first.drop_first(), now, policy);
            let head = run(started, state, context, first, now, policy);
            if !head_rest.restart {
                let tail = run(head.started, head.state, head.context, second, now, policy);
                let published = seq![Action::Publish(one.state)];
                assert(one.actions + published + (head_rest.actions + tail.actions) =~= (
                one.actions + published + head_rest.actions) + tail.actions);
            }
        }
    }
}

/// The number under which a state is reported does not depend on the
/// timestamp that the state carries.
pub proof fn state_code_ignores_time(first: State, second: State)
    requires
        first.same_variant(second),
        first is Operational ==> first->Operational_co_op_enabled
            == second->Operational_co_op_enabled,
        first is Blackout ==> first->Blackout_co_op_enabled == second->Blackout_co_op_enabled,
        first is PoweredDown ==> first->PoweredDown_intentional_shutdown
            == second->PoweredDown_intentional_shutdown,
    ensures
        crate::state_machine::state_code(first) == crate::state_machine::state_code(second),
        crate::state_machine::state_name(first) == crate::state_machine::state_name(second),
{
}

} // verus!
