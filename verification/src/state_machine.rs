//! The hierarchical power state machine.
//!
//! The machine consumes one [`Event`] at a time. Each leaf state has a
//! handler that answers with an [`Outcome`]; the powered leaf states fall
//! back to the handler of their common superstate when they defer. An event
//! that no handler takes changes nothing, with one exception: an overvoltage
//! of the supercapacitor raises the alarm in every state. What the machine
//! wants done outside of itself (rail levels, status patterns, button
//! pulses, port power, a controller restart) is handed back as [`Effects`].
//!
//! The behaviour of the whole machine is stated once, as the transition
//! table [`step`]; the dispatcher is proved to follow it.

use vstd::prelude::*;
use crate::power_button::PowerButtonEvents;

verus! {

/// Commands that other parts of the firmware queue for the machine.
#[derive(Clone, Copy, Debug, PartialEq, Eq, Structural)]
pub enum StateMachineEvents {
    /// Request the graceful shutdown sequence.
    Shutdown,
    /// Request the transition to standby.
    StandbyShutdown,
    /// Cut host power at once.
    Off,
    /// Set the host watchdog timeout in milliseconds; 0 disables it.
    SetHostWatchdogTimeout(u16),
    /// The host is alive.
    HostWatchdogPing,
    /// The physical power button was pressed.
    PowerButtonPress,
}

/// Everything the machine can react to.
#[derive(Clone, Copy, Debug, PartialEq, Eq, Structural)]
pub enum Event {
    /// The periodic tick that drives every timeout.
    Tick,
    /// External power rose above its threshold.
    ExternalPowerOn,
    /// External power fell to or below its threshold.
    ExternalPowerOff,
    /// The supercapacitor rose above its power-on threshold.
    SupercapReady,
    /// The supercapacitor exceeded its safe maximum.
    SupercapOvervoltage,
    /// The host signals that it is powered.
    ComputeModuleOn,
    /// The host signals that it is no longer powered.
    ComputeModuleOff,
    /// Request the graceful shutdown sequence.
    Shutdown,
    /// Request the transition to standby.
    StandbyShutdown,
    /// Cut host power at once.
    Off,
    /// Set the host watchdog timeout in milliseconds; 0 disables it.
    SetWatchdogTimeout(u16),
    /// The host is alive.
    WatchdogPing,
    /// The physical power button was pressed.
    PowerButtonPress,
}

/// The event that a queued command stands for.
pub open spec fn event_of(command: StateMachineEvents) -> Event {
    match command {
        StateMachineEvents::Shutdown => Event::Shutdown,
        StateMachineEvents::StandbyShutdown => Event::StandbyShutdown,
        StateMachineEvents::Off => Event::Off,
        StateMachineEvents::SetHostWatchdogTimeout(timeout_ms) => Event::SetWatchdogTimeout(
            timeout_ms,
        ),
        StateMachineEvents::HostWatchdogPing => Event::WatchdogPing,
        StateMachineEvents::PowerButtonPress => Event::PowerButtonPress,
    }
}

impl Event {
    /// Turns a queued command into the event it stands for.
    pub fn from_command(command: StateMachineEvents) -> (event: Event)
        ensures
            event == event_of(command),
    {
        match command {
            StateMachineEvents::Shutdown => Event::Shutdown,
            StateMachineEvents::StandbyShutdown => Event::StandbyShutdown,
            StateMachineEvents::Off => Event::Off,
            StateMachineEvents::SetHostWatchdogTimeout(timeout_ms) => Event::SetWatchdogTimeout(
                timeout_ms,
            ),
            StateMachineEvents::HostWatchdogPing => Event::WatchdogPing,
            StateMachineEvents::PowerButtonPress => Event::PowerButtonPress,
        }
    }
}

/// The power state. Timestamps are milliseconds on the controller's clock.
#[derive(Clone, Copy, Debug, PartialEq, Eq, Structural)]
pub enum State {
    /// No external power; the host rails are off.
    PowerOff,
    /// External power is present and the supercapacitor is charging.
    OffCharging,
    /// The rails are on and the host is expected to come up.
    SystemStartup,
    /// The host runs on external power.
    Operational { co_op_enabled: bool },
    /// External power is lost; the host runs on the supercapacitor.
    Blackout { co_op_enabled: bool, entry_time: u64 },
    /// The host has been asked to shut down and is given time to do so.
    GracefulShutdown { entry_time: u64 },
    /// The host rails are off until a restart is decided.
    PoweredDown { entry_time: u64, intentional_shutdown: bool },
    /// The host missed its watchdog deadline.
    HostUnresponsive { entry_time: u64 },
    /// The host has been asked to go to standby.
    EnteringStandby,
    /// The host is in standby.
    Standby,
}

impl State {
    /// Whether the state lies inside the powered-on superstate.
    pub open spec fn is_powered_on(self) -> bool {
        match self {
            State::Operational { .. } => true,
            State::Blackout { .. } => true,
            State::HostUnresponsive { .. } => true,
            _ => false,
        }
    }

    /// Whether two states are the same variant, whatever they carry.
    pub open spec fn same_variant(self, other: State) -> bool {
        match (self, other) {
            (State::PowerOff, State::PowerOff) => true,
            (State::OffCharging, State::OffCharging) => true,
            (State::SystemStartup, State::SystemStartup) => true,
            (State::Operational { .. }, State::Operational { .. }) => true,
            (State::Blackout { .. }, State::Blackout { .. }) => true,
            (State::GracefulShutdown { .. }, State::GracefulShutdown { .. }) => true,
            (State::PoweredDown { .. }, State::PoweredDown { .. }) => true,
            (State::HostUnresponsive { .. }, State::HostUnresponsive { .. }) => true,
            (State::EnteringStandby, State::EnteringStandby) => true,
            (State::Standby, State::Standby) => true,
            _ => false,
        }
    }
}

/// Levels of the two rail control lines.
#[derive(Clone, Copy, Debug, PartialEq, Eq, Structural)]
pub struct Outputs {
    /// Rail enable; high powers the host.
    pub ven: bool,
    /// Sleep line; high puts the expansion bus to sleep.
    pub pcie_sleep: bool,
}

impl Outputs {
    /// Both lines low, as the pins come up.
    pub fn new() -> (outputs: Outputs)
        ensures
            outputs == (Outputs { ven: false, pcie_sleep: false }),
    {
        Outputs { ven: false, pcie_sleep: false }
    }

    /// Enables the rails and wakes the bus.
    pub fn power_on(&mut self)
        ensures
            *final(self) == rails_on(),
    {
        self.ven = true;
        self.pcie_sleep = false;
    }

    /// Disables the rails and puts the bus to sleep.
    pub fn power_off(&mut self)
        ensures
            *final(self) == rails_off(),
    {
        self.ven = false;
        self.pcie_sleep = true;
    }
}

/// The mutable companion of the state.
#[derive(Clone, Copy, Debug, PartialEq, Eq, Structural)]
pub struct Context {
    pub outputs: Outputs,
    /// Host watchdog timeout in milliseconds; 0 means disabled.
    pub host_watchdog_timeout_ms: u16,
    /// When the host was last heard from.
    pub host_watchdog_last_ping: u64,
    /// Latched once the supercapacitor has been seen above its maximum.
    pub vscap_alarm_active: bool,
}

impl Context {
    /// A context with the alarm clear and the last ping set to `now`.
    pub fn new(outputs: Outputs, host_watchdog_timeout_ms: u16, now: u64) -> (context: Context)
        ensures
            context == (Context {
                outputs,
                host_watchdog_timeout_ms,
                host_watchdog_last_ping: now,
                vscap_alarm_active: false,
            }),
    {
        Context {
            outputs,
            host_watchdog_timeout_ms,
            host_watchdog_last_ping: now,
            vscap_alarm_active: false,
        }
    }
}

/// The durations and the restart preference that the machine consults.
#[derive(Clone, Copy, Debug, PartialEq, Eq, Structural)]
pub struct TimingPolicy {
    /// How long a solo blackout lasts before shutdown is started.
    pub solo_depleting_timeout_ms: u32,
    /// How long the host is given to shut down.
    pub shutdown_wait_duration_ms: u32,
    /// How long the host stays powered down before a restart is decided.
    pub off_state_duration_ms: u32,
    /// How long an unresponsive host is tolerated.
    pub host_watchdog_reboot_duration_ms: u32,
    /// Whether an intentional shutdown is followed by a restart.
    pub auto_restart: bool,
}

/// Something the machine wants done outside of itself.
#[derive(Clone, Copy, Debug, PartialEq, Eq, Structural)]
pub enum Action {
    /// Put the given levels on the rail control lines.
    SetRails(Outputs),
    /// Switch the host's peripheral ports on or off.
    UsbPower(bool),
    /// Show the status pattern of the given state.
    SetLedPattern(State),
    /// Show the overvoltage alarm pattern.
    SetAlarmLedPattern,
    /// Send a command to the button emulator.
    PowerButton(PowerButtonEvents),
    /// Record the given state as the current one for other readers. The
    /// event loop asks for this after every event that it has delivered.
    Publish(State),
}

/// What a handler decided about an event.
#[derive(Clone, Copy, Debug, PartialEq, Eq, Structural)]
pub enum Outcome {
    /// Leave the current state and enter the given one.
    Transition(State),
    /// The event is consumed; the state stays.
    Handled,
    /// The event is left to the enclosing superstate.
    Defer,
}

/// Milliseconds from `since` to `now`; a timestamp that lies ahead of `now`
/// counts as no time passed.
pub open spec fn elapsed(now: u64, since: u64) -> u64 {
    if now >= since {
        (now - since) as u64
    } else {
        0
    }
}

/// Whether more than `limit_ms` milliseconds lie between `since` and `now`.
pub open spec fn timed_out(now: u64, since: u64, limit_ms: u64) -> bool {
    elapsed(now, since) > limit_ms
}

/// The result of delivering one event.
pub struct Step {
    pub state: State,
    pub context: Context,
    pub actions: Seq<Action>,
    /// The controller is to be restarted; nothing else has changed.
    pub restart: bool,
}

/// The levels that power the host: rails enabled, bus awake.
pub open spec fn rails_on() -> Outputs {
    Outputs { ven: true, pcie_sleep: false }
}

/// The levels that cut the host's power: rails disabled, bus asleep.
pub open spec fn rails_off() -> Outputs {
    Outputs { ven: false, pcie_sleep: true }
}

/// The context after the entry action of `target` has run.
pub open spec fn entered_context(target: State, context: Context) -> Context {
    match target {
        State::PowerOff => Context { outputs: rails_off(), ..context },
        State::PoweredDown { .. } => Context { outputs: rails_off(), ..context },
        State::SystemStartup => Context { outputs: rails_on(), ..context },
        State::Operational { co_op_enabled } => if co_op_enabled {
            context
        } else {
            Context { host_watchdog_timeout_ms: 0, ..context }
        },
        _ => context,
    }
}

/// What the entry action of `target` asks for, in order.
pub open spec fn entry_actions(target: State) -> Seq<Action> {
    match target {
        State::PowerOff => seq![
            Action::SetRails(rails_off()),
            Action::UsbPower(false),
            Action::SetLedPattern(target),
        ],
        State::PoweredDown { .. } => seq![
            Action::SetRails(rails_off()),
            Action::UsbPower(false),
            Action::SetLedPattern(target),
        ],
        State::SystemStartup => seq![
            Action::SetRails(rails_on()),
            Action::UsbPower(true),
            Action::SetLedPattern(target),
        ],
        _ => seq![Action::SetLedPattern(target)],
    }
}

/// A transition into `target`, with `before` asked for ahead of the entry
/// action.
pub open spec fn transition(target: State, context: Context, before: Seq<Action>) -> Step {
    Step {
        state: target,
        context: entered_context(target, context),
        actions: before + entry_actions(target),
        restart: false,
    }
}

/// An event that changes nothing but, possibly, the context.
pub open spec fn stay(state: State, context: Context, actions: Seq<Action>) -> Step {
    Step { state, context, actions, restart: false }
}

/// The overvoltage alarm: the latch is set and the alarm pattern is asked
/// for; the state stays.
pub open spec fn alarm_step(state: State, context: Context) -> Step {
    stay(state, Context { vscap_alarm_active: true, ..context }, seq![Action::SetAlarmLedPattern])
}

/// What becomes of an event that no handler has taken: it changes nothing,
/// except that an overvoltage still raises the alarm, whatever the state.
pub open spec fn unhandled_step(state: State, context: Context, event: Event) -> Step {
    match event {
        Event::SupercapOvervoltage => alarm_step(state, context),
        _ => stay(state, context, seq![]),
    }
}

/// What the powered-on superstate does with an event that its leaf states
/// left to it.
pub open spec fn powered_on_step(state: State, context: Context, event: Event, now: u64) -> Step {
    match event {
        Event::ComputeModuleOff => transition(
            State::PoweredDown { entry_time: now, intentional_shutdown: true },
            context,
            seq![],
        ),
        Event::Off => transition(
            State::PoweredDown { entry_time: now, intentional_shutdown: true },
            context,
            seq![],
        ),
        Event::WatchdogPing => stay(
            state,
            Context { host_watchdog_last_ping: now, ..context },
            seq![],
        ),
        Event::SupercapOvervoltage => alarm_step(state, context),
        _ => unhandled_step(state, context, event),
    }
}

/// Whether a powered-down machine asks for a restart on `event`: on a tick
/// once the hold time is over, unless the shutdown was intentional and
/// restarts are not wanted; on a press of the power button and on a loss of
/// external power at once.
pub open spec fn restart_due(
    entry_time: u64,
    intentional_shutdown: bool,
    event: Event,
    now: u64,
    policy: TimingPolicy,
) -> bool {
    match event {
        Event::Tick => timed_out(now, entry_time, policy.off_state_duration_ms as u64) && (
        !intentional_shutdown || policy.auto_restart),
        Event::PowerButtonPress => true,
        Event::ExternalPowerOff => true,
        _ => false,
    }
}

/// The transition table: what delivering `event` at time `now` does to a
/// machine in `state` with `context`.
pub open spec fn step(
    state: State,
    context: Context,
    event: Event,
    now: u64,
    policy: TimingPolicy,
) -> Step {
    match state {
        State::PowerOff => match event {
            Event::ExternalPowerOn => transition(State::OffCharging, context, seq![]),
            _ => unhandled_step(state, context, event),
        },
        State::OffCharging => match event {
            Event::SupercapReady => transition(State::SystemStartup, context, seq![]),
            Event::ExternalPowerOff => transition(State::PowerOff, context, seq![]),
            _ => unhandled_step(state, context, event),
        },
        State::SystemStartup => match event {
            Event::ComputeModuleOn => transition(
                State::Operational { co_op_enabled: false },
                context,
                seq![],
            ),
            Event::ExternalPowerOff => transition(State::PowerOff, context, seq![]),
            _ => unhandled_step(state, context, event),
        },
        State::Operational { co_op_enabled } => match event {
            Event::ExternalPowerOff => transition(
                State::Blackout { co_op_enabled, entry_time: now },
                context,
                seq![],
            ),
            Event::StandbyShutdown => transition(State::EnteringStandby, context, seq![]),
            Event::SetWatchdogTimeout(timeout_ms) => if co_op_enabled {
                if timeout_ms == 0 {
                    transition(
                        State::Operational { co_op_enabled: false },
                        Context { host_watchdog_timeout_ms: 0, ..context },
                        seq![],
                    )
                } else {
                    stay(state, Context { host_watchdog_timeout_ms: timeout_ms, ..context }, seq![])
                }
            } else {
                if timeout_ms == 0 {
                    stay(state, context, seq![])
                } else {
                    transition(
                        State::Operational { co_op_enabled: true },
                        Context {
                            host_watchdog_timeout_ms: timeout_ms,
                            host_watchdog_last_ping: now,
                            ..context
                        },
                        seq![],
                    )
                }
            },
            Event::Tick => if co_op_enabled && timed_out(
                now,
                context.host_watchdog_last_ping,
                context.host_watchdog_timeout_ms as u64,
            ) {
                transition(State::HostUnresponsive { entry_time: now }, context, seq![])
            } else {
                stay(state, context, seq![])
            },
            _ => powered_on_step(state, context, event, now),
        },
        State::Blackout { co_op_enabled, entry_time } => match event {
            Event::ExternalPowerOn => transition(
                State::Operational { co_op_enabled },
                context,
                seq![],
            ),
            Event::Tick => if !co_op_enabled && timed_out(
                now,
                entry_time,
                policy.solo_depleting_timeout_ms as u64,
            ) {
                transition(
                    State::GracefulShutdown { entry_time: now },
                    context,
                    seq![Action::PowerButton(PowerButtonEvents::DoubleClick)],
                )
            } else {
                stay(state, context, seq![])
            },
            Event::Shutdown => if co_op_enabled {
                transition(State::GracefulShutdown { entry_time: now }, context, seq![])
            } else {
                stay(state, context, seq![])
            },
            _ => powered_on_step(state, context, event, now),
        },
        State::GracefulShutdown { entry_time } => match event {
            Event::ComputeModuleOff => transition(
                State::PoweredDown { entry_time: now, intentional_shutdown: false },
                context,
                seq![],
            ),
            Event::Tick => if timed_out(now, entry_time, policy.shutdown_wait_duration_ms as u64) {
                transition(
                    State::PoweredDown { entry_time: now, intentional_shutdown: false },
                    context,
                    seq![],
                )
            } else {
                stay(state, context, seq![])
            },
            _ => unhandled_step(state, context, event),
        },
        State::PoweredDown { entry_time, intentional_shutdown } => if restart_due(
            entry_time,
            intentional_shutdown,
            event,
            now,
            policy,
        ) {
            Step { state, context, actions: seq![], restart: true }
        } else {
            unhandled_step(state, context, event)
        },
        State::HostUnresponsive { entry_time } => match event {
            Event::WatchdogPing => transition(
                State::Operational { co_op_enabled: true },
                Context { host_watchdog_last_ping: now, ..context },
                seq![],
            ),
            Event::Tick => if timed_out(
                now,
                entry_time,
                policy.host_watchdog_reboot_duration_ms as u64,
            ) {
                transition(
                    State::PoweredDown { entry_time: now, intentional_shutdown: false },
                    context,
                    seq![],
                )
            } else {
                stay(state, context, seq![])
            },
            _ => powered_on_step(state, context, event, now),
        },
        State::EnteringStandby => match event {
            Event::ComputeModuleOff => transition(State::Standby, context, seq![]),
            _ => unhandled_step(state, context, event),
        },
        State::Standby => match event {
            Event::ComputeModuleOn => transition(
                State::Operational { co_op_enabled: false },
                context,
                seq![],
            ),
            _ => unhandled_step(state, context, event),
        },
    }
}

/// What a delivered event asks the outside to do.
#[derive(Debug)]
pub struct Effects {
    /// Requests in the order in which they were made.
    pub actions: Vec<Action>,
    /// The controller is to be restarted.
    pub restart: bool,
}

impl Effects {
    /// No requests.
    pub fn new() -> (effects: Effects)
        ensures
            effects.actions@ == Seq::<Action>::empty(),
            !effects.restart,
    {
        Effects { actions: Vec::new(), restart: false }
    }

    /// Asks for the status pattern of `state`.
    pub fn set_led_pattern(&mut self, state: State)
        ensures
            final(self).actions@ == old(self).actions@.push(Action::SetLedPattern(state)),
            final(self).restart == old(self).restart,
    {
        self.actions.push(Action::SetLedPattern(state));
    }

    /// Asks for the overvoltage alarm pattern.
    pub fn set_alarm_led_pattern(&mut self)
        ensures
            final(self).actions@ == old(self).actions@.push(Action::SetAlarmLedPattern),
            final(self).restart == old(self).restart,
    {
        self.actions.push(Action::SetAlarmLedPattern);
    }

    /// Hands a command to the button emulator.
    pub fn send_power_button_event(&mut self, event: PowerButtonEvents)
        ensures
            final(self).actions@ == old(self).actions@.push(Action::PowerButton(event)),
            final(self).restart == old(self).restart,
    {
        self.actions.push(Action::PowerButton(event));
    }

    /// Asks for the given levels on the rail control lines.
    pub fn set_rails(&mut self, outputs: Outputs)
        ensures
            final(self).actions@ == old(self).actions@.push(Action::SetRails(outputs)),
            final(self).restart == old(self).restart,
    {
        self.actions.push(Action::SetRails(outputs));
    }

    /// Asks for the host's peripheral ports to be switched.
    pub fn usb_power(&mut self, on: bool)
        ensures
            final(self).actions@ == old(self).actions@.push(Action::UsbPower(on)),
            final(self).restart == old(self).restart,
    {
        self.actions.push(Action::UsbPower(on));
    }

    /// Asks for a restart of the controller.
    pub fn request_restart(&mut self)
        ensures
            final(self).actions@ == old(self).actions@,
            final(self).restart,
    {
        self.restart = true;
    }
}

/// Computes [`elapsed`].
pub fn elapsed_ms(now: u64, since: u64) -> (ms: u64)
    ensures
        ms == elapsed(now, since),
{
    if now >= since {
        now - since
    } else {
        0
    }
}

/// Computes [`timed_out`].
pub fn has_timed_out(now: u64, since: u64, limit_ms: u64) -> (over: bool)
    ensures
        over == timed_out(now, since, limit_ms),
{
    elapsed_ms(now, since) > limit_ms
}

/// The machine: the current state, and whether its entry action has run.
#[derive(Debug)]
pub struct HalpiStateMachine {
    state: State,
    initialized: bool,
}

impl HalpiStateMachine {
    /// The current state.
    pub closed spec fn current(&self) -> State {
        self.state
    }

    /// Whether the entry action of the initial state has run.
    pub closed spec fn started(&self) -> bool {
        self.initialized
    }

    /// A machine in `PowerOff` whose entry action is still to run.
    pub fn new() -> (machine: HalpiStateMachine)
        ensures
            machine.current() == State::PowerOff,
            !machine.started(),
    {
        HalpiStateMachine { state: State::PowerOff, initialized: false }
    }

    /// A machine that is already in `state`.
    pub fn from_state(state: State) -> (machine: HalpiStateMachine)
        ensures
            machine.current() == state,
            machine.started(),
    {
        HalpiStateMachine { state, initialized: true }
    }

    /// The current state.
    pub fn state(&self) -> (state: State)
        ensures
            state == self.current(),
    {
        self.state
    }

    /// Whether the entry action of the initial state has run.
    pub fn is_initialized(&self) -> (started: bool)
        ensures
            started == self.started(),
    {
        self.initialized
    }

    /// Handler of `PowerOff`.
    pub fn power_off(event: &Event) -> (outcome: Outcome)
        ensures
            outcome == match *event {
                Event::ExternalPowerOn => Outcome::Transition(State::OffCharging),
                _ => Outcome::Defer,
            },
    {
        match event {
            Event::ExternalPowerOn => Outcome::Transition(State::OffCharging),
            _ => Outcome::Defer,
        }
    }

    /// Handler of `OffCharging`.
    pub fn off_charging(event: &Event) -> (outcome: Outcome)
        ensures
            outcome == match *event {
                Event::SupercapReady => Outcome::Transition(State::SystemStartup),
                Event::ExternalPowerOff => Outcome::Transition(State::PowerOff),
                _ => Outcome::Defer,
            },
    {
        match event {
            Event::SupercapReady => Outcome::Transition(State::SystemStartup),
            Event::ExternalPowerOff => Outcome::Transition(State::PowerOff),
            _ => Outcome::Defer,
        }
    }

    /// Handler of `SystemStartup`.
    pub fn system_startup(event: &Event) -> (outcome: Outcome)
        ensures
            outcome == match *event {
                Event::ComputeModuleOn => Outcome::Transition(
                    State::Operational { co_op_enabled: false },
                ),
                Event::ExternalPowerOff => Outcome::Transition(State::PowerOff),
                _ => Outcome::Defer,
            },
    {
        match event {
            Event::ComputeModuleOn => Outcome::Transition(
                State::Operational { co_op_enabled: false },
            ),
            Event::ExternalPowerOff => Outcome::Transition(State::PowerOff),
            _ => Outcome::Defer,
        }
    }

    /// Latches the overvoltage alarm and asks for the alarm pattern.
    pub fn raise_alarm(context: &mut Context, effects: &mut Effects)
        ensures
            *final(context) == (Context { vscap_alarm_active: true, ..*old(context) }),
            final(effects).actions@ == old(effects).actions@.push(Action::SetAlarmLedPattern),
            final(effects).restart == old(effects).restart,
    {
        context.vscap_alarm_active = true;
        effects.set_alarm_led_pattern();
    }

    /// Handler of the powered-on superstate, which stands behind
    /// `Operational`, `Blackout` and `HostUnresponsive`.
    pub fn powered_on(event: &Event, context: &mut Context, now: u64, effects: &mut Effects) -> (outcome:
        Outcome)
        ensures
            outcome == match *event {
                Event::ComputeModuleOff => Outcome::Transition(
                    State::PoweredDown { entry_time: now, intentional_shutdown: true },
                ),
                Event::Off => Outcome::Transition(
                    State::PoweredDown { entry_time: now, intentional_shutdown: true },
                ),
                Event::WatchdogPing => Outcome::Handled,
                Event::SupercapOvervoltage => Outcome::Handled,
                _ => Outcome::Defer,
            },
            *final(context) == match *event {
                Event::WatchdogPing => Context { host_watchdog_last_ping: now, ..*old(context) },
                Event::SupercapOvervoltage => Context { vscap_alarm_active: true, ..*old(context) },
                _ => *old(context),
            },
            final(effects).actions@ == match *event {
                Event::SupercapOvervoltage => old(effects).actions@.push(Action::SetAlarmLedPattern),
                _ => old(effects).actions@,
            },
            final(effects).restart == old(effects).restart,
    {
        match event {
            Event::ComputeModuleOff => Outcome::Transition(
                State::PoweredDown { entry_time: now, intentional_shutdown: true },
            ),
            Event::Off => Outcome::Transition(
                State::PoweredDown { entry_time: now, intentional_shutdown: true },
            ),
            Event::WatchdogPing => {
                context.host_watchdog_last_ping = now;
                Outcome::Handled
            },
            Event::SupercapOvervoltage => {
                Self::raise_alarm(context, effects);
                Outcome::Handled
            },
            _ => Outcome::Defer,
        }
    }

    /// Handler of `Operational`.
    pub fn operational(co_op_enabled: bool, event: &Event, context: &mut Context, now: u64) -> (outcome:
        Outcome)
        ensures
            outcome == match *event {
                Event::ExternalPowerOff => Outcome::Transition(
                    State::Blackout { co_op_enabled, entry_time: now },
                ),
                Event::StandbyShutdown => Outcome::Transition(State::EnteringStandby),
                Event::SetWatchdogTimeout(timeout_ms) => if co_op_enabled == (timeout_ms > 0) {
                    Outcome::Handled
                } else {
                    Outcome::Transition(State::Operational { co_op_enabled: timeout_ms > 0 })
                },
                Event::Tick => if co_op_enabled && timed_out(
                    now,
                    old(context).host_watchdog_last_ping,
                    old(context).host_watchdog_timeout_ms as u64,
                ) {
                    Outcome::Transition(State::HostUnresponsive { entry_time: now })
                } else {
                    Outcome::Handled
                },
                _ => Outcome::Defer,
            },
            *final(context) == match *event {
                Event::SetWatchdogTimeout(timeout_ms) => if co_op_enabled {
                    Context { host_watchdog_timeout_ms: timeout_ms, ..*old(context) }
                } else if timeout_ms > 0 {
                    Context {
                        host_watchdog_timeout_ms: timeout_ms,
                        host_watchdog_last_ping: now,
                        ..*old(context)
                    }
                } else {
                    *old(context)
                },
                _ => *old(context),
            },
    {
        match event {
            Event::ExternalPowerOff => Outcome::Transition(
                State::Blackout { co_op_enabled, entry_time: now },
            ),
            Event::StandbyShutdown => Outcome::Transition(State::EnteringStandby),
            Event::SetWatchdogTimeout(timeout_ms) => {
                if co_op_enabled {
                    context.host_watchdog_timeout_ms = *timeout_ms;
                    if *timeout_ms == 0 {
                        Outcome::Transition(State::Operational { co_op_enabled: false })
                    } else {
                        Outcome::Handled
                    }
                } else if *timeout_ms > 0 {
                    context.host_watchdog_timeout_ms = *timeout_ms;
                    context.host_watchdog_last_ping = now;
                    Outcome::Transition(State::Operational { co_op_enabled: true })
                } else {
                    Outcome::Handled
                }
            },
            Event::Tick => {
                if co_op_enabled && has_timed_out(
                    now,
                    context.host_watchdog_last_ping,
                    context.host_watchdog_timeout_ms as u64,
                ) {
                    Outcome::Transition(State::HostUnresponsive { entry_time: now })
                } else {
                    Outcome::Handled
                }
            },
            _ => Outcome::Defer,
        }
    }

    /// Handler of `Blackout`.
    pub fn blackout(
        co_op_enabled: bool,
        entry_time: u64,
        event: &Event,
        now: u64,
        policy: &TimingPolicy,
        effects: &mut Effects,
    ) -> (outcome: Outcome)
        ensures
            outcome == match *event {
                Event::ExternalPowerOn => Outcome::Transition(State::Operational { co_op_enabled }),
                Event::Tick => if !co_op_enabled && timed_out(
                    now,
                    entry_time,
                    policy.solo_depleting_timeout_ms as u64,
                ) {
                    Outcome::Transition(State::GracefulShutdown { entry_time: now })
                } else {
                    Outcome::Handled
                },
                Event::Shutdown => if co_op_enabled {
                    Outcome::Transition(State::GracefulShutdown { entry_time: now })
                } else {
                    Outcome::Handled
                },
                _ => Outcome::Defer,
            },
            final(effects).actions@ == if *event == Event::Tick && !co_op_enabled && timed_out(
                now,
                entry_time,
                policy.solo_depleting_timeout_ms as u64,
            ) {
                old(effects).actions@.push(Action::PowerButton(PowerButtonEvents::DoubleClick))
            } else {
                old(effects).actions@
            },
            final(effects).restart == old(effects).restart,
    {
        match event {
            Event::ExternalPowerOn => Outcome::Transition(State::Operational { co_op_enabled }),
            Event::Tick => {
                if !co_op_enabled && has_timed_out(
                    now,
                    entry_time,
                    policy.solo_depleting_timeout_ms as u64,
                ) {
                    effects.send_power_button_event(PowerButtonEvents::DoubleClick);
                    Outcome::Transition(State::GracefulShutdown { entry_time: now })
                } else {
                    Outcome::Handled
                }
            },
            Event::Shutdown => {
                if co_op_enabled {
                    Outcome::Transition(State::GracefulShutdown { entry_time: now })
                } else {
                    Outcome::Handled
                }
            },
            _ => Outcome::Defer,
        }
    }

    /// Handler of `GracefulShutdown`.
    pub fn graceful_shutdown(entry_time: u64, event: &Event, now: u64, policy: &TimingPolicy) -> (outcome:
        Outcome)
        ensures
            outcome == match *event {
                Event::ComputeModuleOff => Outcome::Transition(
                    State::PoweredDown { entry_time: now, intentional_shutdown: false },
                ),
                Event::Tick => if timed_out(
                    now,
                    entry_time,
                    policy.shutdown_wait_duration_ms as u64,
                ) {
                    Outcome::Transition(
                        State::PoweredDown { entry_time: now, intentional_shutdown: false },
                    )
                } else {
                    Outcome::Handled
                },
                _ => Outcome::Defer,
            },
    {
        match event {
            Event::ComputeModuleOff => Outcome::Transition(
                State::PoweredDown { entry_time: now, intentional_shutdown: false },
            ),
            Event::Tick => {
                if has_timed_out(now, entry_time, policy.shutdown_wait_duration_ms as u64) {
                    Outcome::Transition(
                        State::PoweredDown { entry_time: now, intentional_shutdown: false },
                    )
                } else {
                    Outcome::Handled
                }
            },
            _ => Outcome::Defer,
        }
    }

    /// Handler of `PoweredDown`. It never leaves the state; it asks for a
    /// restart instead.
    pub fn powered_down(
        entry_time: u64,
        intentional_shutdown: bool,
        event: &Event,
        now: u64,
        policy: &TimingPolicy,
        effects: &mut Effects,
    ) -> (outcome: Outcome)
        ensures
            outcome == match *event {
                Event::Tick => Outcome::Handled,
                Event::PowerButtonPress => Outcome::Handled,
                Event::ExternalPowerOff => Outcome::Handled,
                _ => Outcome::Defer,
            },
            final(effects).actions@ == old(effects).actions@,
            final(effects).restart == (old(effects).restart || restart_due(
                entry_time,
                intentional_shutdown,
                *event,
                now,
                *policy,
            )),
    {
        match event {
            Event::Tick => {
                if has_timed_out(now, entry_time, policy.off_state_duration_ms as u64) && (
                !intentional_shutdown || policy.auto_restart) {
                    effects.request_restart();
                }
                Outcome::Handled
            },
            Event::PowerButtonPress => {
                effects.request_restart();
                Outcome::Handled
            },
            Event::ExternalPowerOff => {
                effects.request_restart();
                Outcome::Handled
            },
            _ => Outcome::Defer,
        }
    }

    /// Handler of `HostUnresponsive`.
    pub fn host_unresponsive(
        entry_time: u64,
        event: &Event,
        context: &mut Context,
        now: u64,
        policy: &TimingPolicy,
    ) -> (outcome: Outcome)
        ensures
            outcome == match *event {
                Event::WatchdogPing => Outcome::Transition(
                    State::Operational { co_op_enabled: true },
                ),
                Event::Tick => if timed_out(
                    now,
                    entry_time,
                    policy.host_watchdog_reboot_duration_ms as u64,
                ) {
                    Outcome::Transition(
                        State::PoweredDown { entry_time: now, intentional_shutdown: false },
                    )
                } else {
                    Outcome::Handled
                },
                _ => Outcome::Defer,
            },
            *final(context) == match *event {
                Event::WatchdogPing => Context { host_watchdog_last_ping: now, ..*old(context) },
                _ => *old(context),
            },
    {
        match event {
            Event::WatchdogPing => {
                context.host_watchdog_last_ping = now;
                Outcome::Transition(State::Operational { co_op_enabled: true })
            },
            Event::Tick => {
                if has_timed_out(now, entry_time, policy.host_watchdog_reboot_duration_ms as u64) {
                    Outcome::Transition(
                        State::PoweredDown { entry_time: now, intentional_shutdown: false },
                    )
                } else {
                    Outcome::Handled
                }
            },
            _ => Outcome::Defer,
        }
    }

    /// Handler of `EnteringStandby`.
    pub fn entering_standby(event: &Event) -> (outcome: Outcome)
        ensures
            outcome == match *event {
                Event::ComputeModuleOff => Outcome::Transition(State::Standby),
                _ => Outcome::Defer,
            },
    {
        match event {
            Event::ComputeModuleOff => Outcome::Transition(State::Standby),
            _ => Outcome::Defer,
        }
    }

    /// Handler of `Standby`.
    pub fn standby(event: &Event) -> (outcome: Outcome)
        ensures
            outcome == match *event {
                Event::ComputeModuleOn => Outcome::Transition(
                    State::Operational { co_op_enabled: false },
                ),
                _ => Outcome::Defer,
            },
    {
        match event {
            Event::ComputeModuleOn => Outcome::Transition(
                State::Operational { co_op_enabled: false },
            ),
            _ => Outcome::Defer,
        }
    }

    /// Runs the entry action of `target`.
    pub fn enter(target: &State, context: &mut Context, effects: &mut Effects)
        ensures
            *final(context) == entered_context(*target, *old(context)),
            final(effects).actions@ == old(effects).actions@ + entry_actions(*target),
            final(effects).restart == old(effects).restart,
    {
        match target {
            State::PowerOff => {
                context.outputs.power_off();
                effects.set_rails(context.outputs);
                effects.usb_power(false);
                effects.set_led_pattern(*target);
            },
            State::PoweredDown { .. } => {
                context.outputs.power_off();
                effects.set_rails(context.outputs);
                effects.usb_power(false);
                effects.set_led_pattern(*target);
            },
            State::SystemStartup => {
                context.outputs.power_on();
                effects.set_rails(context.outputs);
                effects.usb_power(true);
                effects.set_led_pattern(*target);
            },
            State::Operational { co_op_enabled } => {
                effects.set_led_pattern(*target);
                if !*co_op_enabled {
                    context.host_watchdog_timeout_ms = 0;
                }
            },
            _ => {
                effects.set_led_pattern(*target);
            },
        }
        assert(final(effects).actions@ =~= old(effects).actions@ + entry_actions(*target));
    }

    /// Delivers `event` to a machine in `state`: the leaf handler first, the
    /// powered-on superstate if the leaf defers, then the entry action of
    /// the state that was chosen. An overvoltage that no handler has taken
    /// still raises the alarm. Returns the state after the event.
    pub fn dispatch(
        state: State,
        event: &Event,
        context: &mut Context,
        now: u64,
        policy: &TimingPolicy,
        effects: &mut Effects,
    ) -> (next: State)
        ensures
            next == step(state, *old(context), *event, now, *policy).state,
            *final(context) == step(state, *old(context), *event, now, *policy).context,
            final(effects).actions@ == old(effects).actions@ + step(
                state,
                *old(context),
                *event,
                now,
                *policy,
            ).actions,
            final(effects).restart == (old(effects).restart || step(
                state,
                *old(context),
                *event,
                now,
                *policy,
            ).restart),
    {
        let leaf = match state {
            State::PowerOff => Self::power_off(event),
            State::OffCharging => Self::off_charging(event),
            State::SystemStartup => Self::system_startup(event),
            State::Operational { co_op_enabled } => Self::operational(
                co_op_enabled,
                event,
                context,
                now,
            ),
            State::Blackout { co_op_enabled, entry_time } => Self::blackout(
                co_op_enabled,
                entry_time,
                event,
                now,
                policy,
                effects,
            ),
            State::GracefulShutdown { entry_time } => Self::graceful_shutdown(
                entry_time,
                event,
                now,
                policy,
            ),
            State::PoweredDown { entry_time, intentional_shutdown } => Self::powered_down(
                entry_time,
                intentional_shutdown,
                event,
                now,
                policy,
                effects,
            ),
            State::HostUnresponsive { entry_time } => Self::host_unresponsive(
                entry_time,
                event,
                context,
                now,
                policy,
            ),
            State::EnteringStandby => Self::entering_standby(event),
            State::Standby => Self::standby(event),
        };
        let in_powered_on = match state {
            State::Operational { .. } => true,
            State::Blackout { .. } => true,
            State::HostUnresponsive { .. } => true,
            _ => false,
        };
        let outcome = match leaf {
            Outcome::Defer => {
                if in_powered_on {
                    Self::powered_on(event, context, now, effects)
                } else {
                    Outcome::Defer
                }
            },
            _ => leaf,
        };
        let next = match outcome {
            Outcome::Transition(target) => {
                Self::enter(&target, context, effects);
                target
            },
            Outcome::Handled => state,
            Outcome::Defer => {
                match event {
                    Event::SupercapOvervoltage => Self::raise_alarm(context, effects),
                    _ => {},
                }
                state
            },
        };
        assert(final(effects).actions@ =~= old(effects).actions@ + step(
            state,
            *old(context),
            *event,
            now,
            *policy,
        ).actions);
        next
    }

    /// Prepares a new machine: runs the entry action of the initial state,
    /// unless it has run already.
    pub fn init_with_context(&mut self, context: &mut Context) -> (effects: Effects)
        ensures
            final(self).current() == old(self).current(),
            final(self).started(),
            *final(context) == if old(self).started() {
                *old(context)
            } else {
                entered_context(old(self).current(), *old(context))
            },
            effects.actions@ == if old(self).started() {
                Seq::<Action>::empty()
            } else {
                entry_actions(old(self).current())
            },
            !effects.restart,
    {
        let mut effects = Effects::new();
        if !self.initialized {
            let state = self.state;
            Self::enter(&state, context, &mut effects);
            self.initialized = true;
        }
        assert(effects.actions@ =~= if old(self).started() {
            Seq::<Action>::empty()
        } else {
            entry_actions(old(self).current())
        });
        effects
    }

    /// Delivers one event at time `now`. A machine that has not been
    /// prepared runs the entry action of its initial state first.
    pub fn handle_with_context(
        &mut self,
        event: &Event,
        context: &mut Context,
        now: u64,
        policy: &TimingPolicy,
    ) -> (effects: Effects)
        ensures
            final(self).started(),
            final(self).current() == machine_step(
                old(self).started(),
                old(self).current(),
                *old(context),
                *event,
                now,
                *policy,
            ).state,
            *final(context) == machine_step(
                old(self).started(),
                old(self).current(),
                *old(context),
                *event,
                now,
                *policy,
            ).context,
            effects.actions@ == machine_step(
                old(self).started(),
                old(self).current(),
                *old(context),
                *event,
                now,
                *policy,
            ).actions,
            effects.restart == machine_step(
                old(self).started(),
                old(self).current(),
                *old(context),
                *event,
                now,
                *policy,
            ).restart,
    {
        let mut effects = self.init_with_context(context);
        let state = self.state;
        let next = Self::dispatch(state, event, context, now, policy, &mut effects);
        self.state = next;
        effects
    }
}

/// What delivering `event` does to a machine as a whole: [`step`], preceded
/// by the entry action of the current state if the machine has not been
/// prepared.
pub open spec fn machine_step(
    started: bool,
    state: State,
    context: Context,
    event: Event,
    now: u64,
    policy: TimingPolicy,
) -> Step {
    if started {
        step(state, context, event, now, policy)
    } else {
        let first = step(state, entered_context(state, context), event, now, policy);
        Step { actions: entry_actions(state) + first.actions, ..first }
    }
}

/// The number under which a state is reported to the host. The numbers are
/// fixed; 8 is reserved and never reported.
pub open spec fn state_code(state: State) -> u8 {
    match state {
        State::PowerOff => 0,
        State::OffCharging => 1,
        State::SystemStartup => 2,
        State::Operational { co_op_enabled } => if co_op_enabled {
            4
        } else {
            3
        },
        State::Blackout { co_op_enabled, .. } => if co_op_enabled {
            6
        } else {
            5
        },
        State::GracefulShutdown { .. } => 7,
        State::PoweredDown { intentional_shutdown, .. } => if intentional_shutdown {
            10
        } else {
            9
        },
        State::HostUnresponsive { .. } => 11,
        State::EnteringStandby => 12,
        State::Standby => 13,
    }
}

/// The name under which a state is reported.
pub open spec fn state_name(state: State) -> Seq<char> {
    match state {
        State::PowerOff => "PowerOff"@,
        State::OffCharging => "OffCharging"@,
        State::SystemStartup => "SystemStartup"@,
        State::Operational { co_op_enabled } => if co_op_enabled {
            "OperationalCoOp"@
        } else {
            "OperationalSolo"@
        },
        State::Blackout { co_op_enabled, .. } => if co_op_enabled {
            "BlackoutCoOp"@
        } else {
            "BlackoutSolo"@
        },
        State::GracefulShutdown { .. } => "BlackoutShutdown"@,
        State::PoweredDown { intentional_shutdown, .. } => if intentional_shutdown {
            "PoweredDownManual"@
        } else {
            "PoweredDownBlackout"@
        },
        State::HostUnresponsive { .. } => "HostUnresponsive"@,
        State::EnteringStandby => "EnteringStandby"@,
        State::Standby => "Standby"@,
    }
}

/// The name under which `state` is reported.
pub fn state_as_str(state: &State) -> (name: &'static str)
    ensures
        name@ == state_name(*state),
{
    match state {
        State::PowerOff => "PowerOff",
        State::OffCharging => "OffCharging",
        State::SystemStartup => "SystemStartup",
        State::Operational { co_op_enabled } => if *co_op_enabled {
            "OperationalCoOp"
        } else {
            "OperationalSolo"
        },
        State::Blackout { co_op_enabled, .. } => if *co_op_enabled {
            "BlackoutCoOp"
        } else {
            "BlackoutSolo"
        },
        State::GracefulShutdown { .. } => "BlackoutShutdown",
        State::PoweredDown { intentional_shutdown, .. } => if *intentional_shutdown {
            "PoweredDownManual"
        } else {
            "PoweredDownBlackout"
        },
        State::HostUnresponsive { .. } => "HostUnresponsive",
        State::EnteringStandby => "EnteringStandby",
        State::Standby => "Standby",
    }
}

/// The number under which `state` is reported to the host.
pub fn state_as_u8(state: &State) -> (code: u8)
    ensures
        code == state_code(*state),
{
    match state {
        State::PowerOff => 0,
        State::OffCharging => 1,
        State::SystemStartup => 2,
        State::Operational { co_op_enabled } => if *co_op_enabled {
            4
        } else {
            3
        },
        State::Blackout { co_op_enabled, .. } => if *co_op_enabled {
            6
        } else {
            5
        },
        State::GracefulShutdown { .. } => 7,
        State::PoweredDown { intentional_shutdown, .. } => if *intentional_shutdown {
            10
        } else {
            9
        },
        State::HostUnresponsive { .. } => 11,
        State::EnteringStandby => 12,
        State::Standby => 13,
    }
}

} // verus!
