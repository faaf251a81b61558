use halpi_power::event_loop::{
    generate_events, is_overvoltage, process_tick, run_events, SignalLevels, Thresholds,
};
use halpi_power::gpio_input::Inputs;
use halpi_power::power_button::PowerButtonEvents;
use halpi_power::state_machine::{
    Action, Context, Event, HalpiStateMachine, Outputs, State, StateMachineEvents, TimingPolicy,
};

fn policy() -> TimingPolicy {
    TimingPolicy {
        solo_depleting_timeout_ms: 5_000,
        shutdown_wait_duration_ms: 60_000,
        off_state_duration_ms: 5_000,
        host_watchdog_reboot_duration_ms: 5_000,
        auto_restart: true,
    }
}

fn thresholds() -> Thresholds {
    Thresholds { vin_power_threshold_mv: 9_000, vscap_power_on_threshold_mv: 8_000 }
}

fn inputs(vin_mv: u32, vscap_mv: u32, cm_on: bool) -> Inputs {
    let mut inputs = Inputs::new();
    inputs.vin_mv = vin_mv;
    inputs.vscap_mv = vscap_mv;
    inputs.cm_on = cm_on;
    inputs
}

#[test]
fn steady_signals_give_only_a_tick() {
    let mut previous = SignalLevels::new();
    let events = generate_events(&vec![], &inputs(0, 0, false), &thresholds(), &mut previous, false);
    assert_eq!(events, vec![Event::Tick]);
    assert_eq!(previous, SignalLevels::new());

    let mut previous =
        SignalLevels { external_power: true, supercap_ready: true, compute_module_on: true };
    let events =
        generate_events(&vec![], &inputs(12_000, 9_500, true), &thresholds(), &mut previous, false);
    assert_eq!(events, vec![Event::Tick]);
}

#[test]
fn edges_are_reported_once_and_in_order() {
    let mut previous = SignalLevels::new();
    let now = inputs(12_000, 9_000, true);
    let events = generate_events(&vec![], &now, &thresholds(), &mut previous, false);
    assert_eq!(
        events,
        vec![
            Event::ExternalPowerOn,
            Event::SupercapReady,
            Event::ComputeModuleOn,
            Event::Tick
        ]
    );
    assert_eq!(
        previous,
        SignalLevels { external_power: true, supercap_ready: true, compute_module_on: true }
    );
    let events = generate_events(&vec![], &now, &thresholds(), &mut previous, false);
    assert_eq!(events, vec![Event::Tick]);
    let events =
        generate_events(&vec![], &inputs(3_000, 7_000, false), &thresholds(), &mut previous, false);
    assert_eq!(events, vec![Event::ExternalPowerOff, Event::ComputeModuleOff, Event::Tick]);
    assert_eq!(previous, SignalLevels::new());
}

#[test]
fn a_reading_at_the_threshold_is_not_above_it() {
    let mut previous = SignalLevels::new();
    let events =
        generate_events(&vec![], &inputs(9_000, 8_000, false), &thresholds(), &mut previous, false);
    assert_eq!(events, vec![Event::Tick]);
    let events =
        generate_events(&vec![], &inputs(9_001, 8_001, false), &thresholds(), &mut previous, false);
    assert_eq!(events, vec![Event::ExternalPowerOn, Event::SupercapReady, Event::Tick]);
}

#[test]
fn overvoltage_is_reported_until_latched() {
    assert!(!is_overvoltage(&inputs(0, 10_500, false)));
    assert!(is_overvoltage(&inputs(0, 10_501, false)));
    let mut previous =
        SignalLevels { external_power: false, supercap_ready: true, compute_module_on: false };
    let high = inputs(0, 10_600, false);
    let events = generate_events(&vec![], &high, &thresholds(), &mut previous, false);
    assert_eq!(events, vec![Event::SupercapOvervoltage, Event::Tick]);
    let events = generate_events(&vec![], &high, &thresholds(), &mut previous, true);
    assert_eq!(events, vec![Event::Tick]);
}

#[test]
fn commands_come_before_edges_before_alarm_before_tick() {
    let mut previous = SignalLevels::new();
    let commands = vec![StateMachineEvents::Shutdown, StateMachineEvents::HostWatchdogPing];
    let events = generate_events(
        &commands,
        &inputs(12_000, 11_000, false),
        &thresholds(),
        &mut previous,
        false,
    );
    assert_eq!(
        events,
        vec![
            Event::Shutdown,
            Event::WatchdogPing,
            Event::ExternalPowerOn,
            Event::SupercapReady,
            Event::SupercapOvervoltage,
            Event::Tick,
        ]
    );
}

#[test]
fn every_command_is_translated_in_arrival_order() {
    let mut previous = SignalLevels::new();
    let commands = vec![
        StateMachineEvents::PowerButtonPress,
        StateMachineEvents::SetHostWatchdogTimeout(250),
        StateMachineEvents::Off,
        StateMachineEvents::StandbyShutdown,
        StateMachineEvents::HostWatchdogPing,
        StateMachineEvents::Shutdown,
        StateMachineEvents::Shutdown,
    ];
    let events =
        generate_events(&commands, &inputs(0, 0, false), &thresholds(), &mut previous, false);
    assert_eq!(
        events,
        vec![
            Event::PowerButtonPress,
            Event::SetWatchdogTimeout(250),
            Event::Off,
            Event::StandbyShutdown,
            Event::WatchdogPing,
            Event::Shutdown,
            Event::Shutdown,
            Event::Tick,
        ]
    );
}

#[test]
fn the_machine_sees_queued_commands_before_the_edge() {
    // Shutdown and a ping are queued in a cooperative blackout, and external
    // power returns in the same tick: the shutdown is taken first, so the
    // returning power finds the machine already shutting down.
    let mut machine =
        HalpiStateMachine::from_state(State::Blackout { co_op_enabled: true, entry_time: 100 });
    let mut ctx = Context::new(Outputs { ven: true, pcie_sleep: false }, 5000, 100);
    let mut previous =
        SignalLevels { external_power: false, supercap_ready: true, compute_module_on: true };
    let commands = vec![StateMachineEvents::Shutdown, StateMachineEvents::HostWatchdogPing];
    let fx = process_tick(
        &mut machine,
        &mut ctx,
        &commands,
        &inputs(12_000, 9_000, true),
        &thresholds(),
        &mut previous,
        1_000,
        &policy(),
    );
    let shutdown = State::GracefulShutdown { entry_time: 1_000 };
    assert_eq!(machine.state(), shutdown);
    assert_eq!(ctx.host_watchdog_last_ping, 100);
    assert_eq!(
        fx.actions,
        vec![
            Action::SetLedPattern(shutdown),
            Action::Publish(shutdown),
            Action::Publish(shutdown),
            Action::Publish(shutdown),
            Action::Publish(shutdown),
        ]
    );
    assert!(!fx.restart);

    // The other way round the edge would have won.
    let mut machine =
        HalpiStateMachine::from_state(State::Blackout { co_op_enabled: true, entry_time: 100 });
    let mut ctx = Context::new(Outputs { ven: true, pcie_sleep: false }, 5000, 100);
    let events = vec![Event::ExternalPowerOn, Event::Shutdown, Event::WatchdogPing, Event::Tick];
    run_events(&mut machine, &events, &mut ctx, 1_000, &policy());
    assert_eq!(machine.state(), State::Operational { co_op_enabled: true });
    assert_eq!(ctx.host_watchdog_last_ping, 1_000);
}

#[test]
fn one_tick_can_publish_several_states() {
    let mut machine = HalpiStateMachine::new();
    let mut ctx = Context::new(Outputs::new(), 0, 0);
    let mut previous = SignalLevels::new();
    let fx = process_tick(
        &mut machine,
        &mut ctx,
        &vec![],
        &inputs(12_000, 9_000, true),
        &thresholds(),
        &mut previous,
        50,
        &policy(),
    );
    let solo = State::Operational { co_op_enabled: false };
    assert_eq!(machine.state(), solo);
    assert!(machine.is_initialized());
    assert_eq!(
        fx.actions,
        vec![
            Action::SetRails(Outputs { ven: false, pcie_sleep: true }), Action::UsbPower(false),
            Action::SetLedPattern(State::PowerOff),
            Action::SetLedPattern(State::OffCharging),
            Action::Publish(State::OffCharging),
            Action::SetRails(Outputs { ven: true, pcie_sleep: false }), Action::UsbPower(true),
            Action::SetLedPattern(State::SystemStartup),
            Action::Publish(State::SystemStartup),
            Action::SetLedPattern(solo),
            Action::Publish(solo),
            Action::Publish(solo),
        ]
    );
    assert_eq!(ctx.outputs, Outputs { ven: true, pcie_sleep: false });
}

#[test]
fn a_restart_ends_the_run() {
    let down = State::PoweredDown { entry_time: 0, intentional_shutdown: true };
    let mut machine = HalpiStateMachine::from_state(down);
    let mut ctx = Context::new(Outputs::new(), 0, 0);
    let events = vec![Event::Shutdown, Event::PowerButtonPress, Event::ExternalPowerOn, Event::Tick];
    let fx = run_events(&mut machine, &events, &mut ctx, 10, &policy());
    assert!(fx.restart);
    assert_eq!(fx.actions, vec![Action::Publish(down)]);
    assert_eq!(machine.state(), down);
}

#[test]
fn an_empty_run_changes_nothing() {
    let mut machine = HalpiStateMachine::new();
    let mut ctx = Context::new(Outputs::new(), 0, 0);
    let fx = run_events(&mut machine, &vec![], &mut ctx, 10, &policy());
    assert!(fx.actions.is_empty());
    assert!(!fx.restart);
    assert!(!machine.is_initialized());
    assert_eq!(ctx, Context::new(Outputs::new(), 0, 0));
}

#[test]
fn solo_blackout_over_many_ticks() {
    let mut machine = HalpiStateMachine::from_state(State::Operational { co_op_enabled: false });
    let mut ctx = Context::new(Outputs { ven: true, pcie_sleep: false }, 0, 0);
    let mut previous =
        SignalLevels { external_power: true, supercap_ready: true, compute_module_on: true };
    let dark = inputs(0, 9_000, true);
    let mut clicks = 0;
    let mut now = 1_000u64;
    while now <= 7_000 {
        let fx = process_tick(
            &mut machine,
            &mut ctx,
            &vec![],
            &dark,
            &thresholds(),
            &mut previous,
            now,
            &policy(),
        );
        clicks += fx
            .actions
            .iter()
            .filter(|a| **a == Action::PowerButton(PowerButtonEvents::DoubleClick))
            .count();
        if now <= 6_000 {
            assert_eq!(machine.state(), State::Blackout { co_op_enabled: false, entry_time: 1_000 });
        } else {
            assert_eq!(machine.state(), State::GracefulShutdown { entry_time: 6_050 });
        }
        now += 50;
    }
    assert_eq!(clicks, 1);
}
