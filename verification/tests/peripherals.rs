use halpi_power::gpio_input::{pcb_temperature_mk, AveragedInput, Inputs};
use halpi_power::host_watchdog::{HostWatchdogConfig, HostWatchdogEvents};
use halpi_power::power_button::{
    power_button_edge, pulse_sequence, PowerButtonEvents, PulseStep,
};
use halpi_power::state_machine::StateMachineEvents;

fn high(hold_ms: u32) -> PulseStep {
    PulseStep { level_high: true, hold_ms }
}

fn low(hold_ms: u32) -> PulseStep {
    PulseStep { level_high: false, hold_ms }
}

#[test]
fn button_commands_become_pulse_trains() {
    assert_eq!(pulse_sequence(PowerButtonEvents::Press), vec![low(0)]);
    assert_eq!(pulse_sequence(PowerButtonEvents::Release), vec![high(0)]);
    assert_eq!(pulse_sequence(PowerButtonEvents::Click), vec![high(100), low(200), high(100)]);
    assert_eq!(
        pulse_sequence(PowerButtonEvents::DoubleClick),
        vec![high(100), low(200), high(100), low(200), high(100)]
    );
    assert_eq!(
        pulse_sequence(PowerButtonEvents::LongPress),
        vec![high(100), low(5500), high(100)]
    );
}

#[test]
fn a_button_edge_is_followed_and_a_press_reported() {
    let edge = power_button_edge(true);
    assert_eq!(edge.emulator, vec![PowerButtonEvents::Release]);
    assert_eq!(edge.command, None);
    let edge = power_button_edge(false);
    assert_eq!(edge.emulator, vec![PowerButtonEvents::Release, PowerButtonEvents::Press]);
    assert_eq!(edge.command, Some(StateMachineEvents::PowerButtonPress));
}

#[test]
fn inputs_start_with_buttons_released() {
    let inputs = Inputs::new();
    assert_eq!(
        inputs,
        Inputs {
            vin_mv: 0,
            vscap_mv: 0,
            iin_ma: 0,
            cm_on: false,
            mcu_temp_mk: 0,
            pcb_temp_mk: 0,
            led_pwr: false,
            led_active: false,
            pg_5v: false,
            pwr_btn: true,
            user_btn: true,
        }
    );
}

#[test]
fn watchdog_starts_switched_off() {
    assert_eq!(
        HostWatchdogConfig::new(300),
        HostWatchdogConfig { timeout_ms: 300, last_ping: 0, enabled: false }
    );
    assert_eq!(
        HostWatchdogConfig::with_default_timeout(42),
        HostWatchdogConfig { timeout_ms: 10_000, last_ping: 42, enabled: false }
    );
    let mut watchdog = HostWatchdogConfig::new(300);
    assert!(!watchdog.poll(1_000_000));
    assert_eq!(watchdog, HostWatchdogConfig::new(300));
}

#[test]
fn watchdog_expires_after_silence_and_counts_anew() {
    let mut watchdog = HostWatchdogConfig::new(300);
    watchdog.handle_event(HostWatchdogEvents::EnableWatchdog(true), 1_000);
    assert_eq!(watchdog, HostWatchdogConfig { timeout_ms: 300, last_ping: 1_000, enabled: true });
    assert!(!watchdog.poll(1_300));
    assert!(watchdog.poll(1_301));
    assert_eq!(watchdog.last_ping, 1_301);
    assert!(!watchdog.poll(1_601));
    watchdog.handle_event(HostWatchdogEvents::Ping, 1_600);
    assert!(!watchdog.poll(1_900));
    assert!(watchdog.poll(1_901));
}

#[test]
fn watchdog_events() {
    let mut watchdog = HostWatchdogConfig::new(300);
    watchdog.handle_event(HostWatchdogEvents::SetTimeoutMs(0), 5);
    assert_eq!(watchdog, HostWatchdogConfig { timeout_ms: 0, last_ping: 0, enabled: false });
    watchdog.handle_event(HostWatchdogEvents::EnableWatchdog(true), 10);
    assert!(!watchdog.poll(u64::MAX));
    watchdog.handle_event(HostWatchdogEvents::SetTimeoutMs(1), 20);
    assert!(!watchdog.poll(11));
    assert!(!watchdog.poll(3));
    watchdog.handle_event(HostWatchdogEvents::EnableWatchdog(false), 30);
    assert_eq!(watchdog, HostWatchdogConfig { timeout_ms: 1, last_ping: 10, enabled: false });
    assert!(!watchdog.poll(u64::MAX));
    watchdog.enabled = true;
    assert!(watchdog.poll(12));
}

#[test]
fn board_temperature_counts_sixteenths_of_a_degree() {
    assert_eq!(pcb_temperature_mk(0x00, 0x00), 273_150);
    assert_eq!(pcb_temperature_mk(0x19, 0x00), 298_150);
    assert_eq!(pcb_temperature_mk(0x19, 0x0f), 298_150);
    assert_eq!(pcb_temperature_mk(0x19, 0x10), 298_212);
    assert_eq!(pcb_temperature_mk(0x7f, 0xf0), 401_087);
    assert_eq!(pcb_temperature_mk(0xff, 0xff), 529_087);
}

#[test]
fn average_of_no_samples_is_zero() {
    assert_eq!(AveragedInput::new().average(), 0);
}

#[test]
fn average_fills_up_and_then_slides() {
    let mut input = AveragedInput::new();
    input.add_sample(10);
    assert_eq!(input.average(), 10);
    input.add_sample(21);
    assert_eq!(input.average(), 15);
    for _ in 0..8 {
        input.add_sample(0);
    }
    assert_eq!(input.average(), 3);
    input.add_sample(1_000);
    assert_eq!(input.average(), 102);
    input.add_sample(1_000);
    assert_eq!(input.average(), 200);
    for _ in 0..8 {
        input.add_sample(1_000);
    }
    assert_eq!(input.average(), 1_000);
    for _ in 0..25 {
        input.add_sample(u32::MAX);
    }
    assert_eq!(input.average(), u32::MAX);
    input.add_sample(0);
    assert_eq!(input.average(), 3_865_470_565);
}
