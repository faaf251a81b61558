use halpi_power::config::{
    AUTO_RESTART_CONFIG_KEY, DEFAULT_IIN_CORRECTION_SCALE_BITS, DEFAULT_VIN_CORRECTION_SCALE_BITS,
    DEFAULT_VSCAP_CORRECTION_SCALE_BITS, HARDWARE_VERSION_CONFIG_KEY,
    HOST_WATCHDOG_TIMEOUT_CONFIG_KEY, IIN_CORRECTION_SCALE_CONFIG_KEY, LED_BRIGHTNESS_CONFIG_KEY,
    SHUTDOWN_WAIT_DURATION_CONFIG_KEY, SOLO_BLACKOUT_TIMEOUT_CONFIG_KEY,
    VIN_CORRECTION_SCALE_CONFIG_KEY, VIN_POWER_THRESHOLD_CONFIG_KEY,
    VSCAP_CORRECTION_SCALE_CONFIG_KEY, VSCAP_POWER_OFF_THRESHOLD_CONFIG_KEY,
    VSCAP_POWER_ON_THRESHOLD_CONFIG_KEY,
};
use halpi_power::config_manager::{
    persist_request, value_or_default, ConfigError, ConfigManagerEvents, RuntimeConfig,
    StoredConfig, StoredValue, UsbOutputs,
};
use halpi_power::event_loop::Thresholds;
use halpi_power::state_machine::TimingPolicy;

fn defaults() -> RuntimeConfig {
    RuntimeConfig {
        vscap_power_on_threshold_mv: 8_000,
        vscap_power_off_threshold_mv: 5_500,
        vin_power_threshold_mv: 9_000,
        shutdown_wait_duration_ms: 60_000,
        solo_depleting_timeout_ms: 5_000,
        watchdog_timeout_ms: 10_000,
        led_brightness: 0x30,
        vin_correction_scale_bits: 0x3f81_eb85,
        vscap_correction_scale_bits: 0x3f87_8d50,
        iin_correction_scale_bits: 0x3f4f_c0a2,
        auto_restart: true,
        hardware_version: 0xffff,
    }
}

fn nothing_stored() -> StoredConfig {
    StoredConfig {
        vscap_power_on_threshold_mv: Ok(None),
        vscap_power_off_threshold_mv: Ok(None),
        vin_power_threshold_mv: Ok(None),
        shutdown_wait_duration_ms: Ok(None),
        solo_depleting_timeout_ms: Ok(None),
        watchdog_timeout_ms: Ok(None),
        led_brightness: Ok(None),
        auto_restart: Ok(None),
        hardware_version: Ok(None),
    }
}

#[test]
fn compiled_in_defaults() {
    assert_eq!(RuntimeConfig::defaults(), defaults());
    assert_eq!(f32::from_bits(DEFAULT_VIN_CORRECTION_SCALE_BITS), 1.015);
    assert_eq!(f32::from_bits(DEFAULT_VSCAP_CORRECTION_SCALE_BITS), 1.059);
    assert_eq!(f32::from_bits(DEFAULT_IIN_CORRECTION_SCALE_BITS), 0.811_533_1);
}

#[test]
fn new_keeps_every_value() {
    let config = RuntimeConfig::new(1, 2, 3, 4, 5, 6, 7, 8, 9, 10, false, 12);
    assert_eq!(
        config,
        RuntimeConfig {
            vscap_power_on_threshold_mv: 1,
            vscap_power_off_threshold_mv: 2,
            vin_power_threshold_mv: 3,
            shutdown_wait_duration_ms: 4,
            solo_depleting_timeout_ms: 5,
            watchdog_timeout_ms: 6,
            led_brightness: 7,
            vin_correction_scale_bits: 8,
            vscap_correction_scale_bits: 9,
            iin_correction_scale_bits: 10,
            auto_restart: false,
            hardware_version: 12,
        }
    );
}

#[test]
fn missing_and_unreadable_values_fall_back_to_defaults() {
    assert_eq!(value_or_default(Ok(Some(5u32)), 9), 5);
    assert_eq!(value_or_default(Ok(None), 9u32), 9);
    assert_eq!(value_or_default(Err(ConfigError::Flash), 9u32), 9);
    assert_eq!(value_or_default(Err(ConfigError::Storage), true), true);

    assert_eq!(RuntimeConfig::load(&nothing_stored()), defaults());
    let broken = StoredConfig {
        vscap_power_on_threshold_mv: Err(ConfigError::Storage),
        vscap_power_off_threshold_mv: Err(ConfigError::Flash),
        vin_power_threshold_mv: Err(ConfigError::Storage),
        shutdown_wait_duration_ms: Err(ConfigError::Storage),
        solo_depleting_timeout_ms: Err(ConfigError::Flash),
        watchdog_timeout_ms: Err(ConfigError::Storage),
        led_brightness: Err(ConfigError::Storage),
        auto_restart: Err(ConfigError::Storage),
        hardware_version: Err(ConfigError::Flash),
    };
    assert_eq!(RuntimeConfig::load(&broken), defaults());
}

#[test]
fn stored_values_are_taken_over() {
    let stored = StoredConfig {
        vscap_power_on_threshold_mv: Ok(Some(7_500)),
        vscap_power_off_threshold_mv: Ok(Some(5_000)),
        vin_power_threshold_mv: Ok(Some(10_000)),
        shutdown_wait_duration_ms: Ok(Some(30_000)),
        solo_depleting_timeout_ms: Ok(Some(2_000)),
        watchdog_timeout_ms: Ok(Some(1_234)),
        led_brightness: Ok(Some(200)),
        auto_restart: Ok(Some(false)),
        hardware_version: Ok(Some(0x0005_0000)),
    };
    assert_eq!(
        RuntimeConfig::load(&stored),
        RuntimeConfig {
            vscap_power_on_threshold_mv: 7_500,
            vscap_power_off_threshold_mv: 5_000,
            vin_power_threshold_mv: 10_000,
            shutdown_wait_duration_ms: 30_000,
            solo_depleting_timeout_ms: 2_000,
            watchdog_timeout_ms: 1_234,
            led_brightness: 200,
            auto_restart: false,
            hardware_version: 0x0005_0000,
            ..defaults()
        }
    );
    let partly = StoredConfig {
        solo_depleting_timeout_ms: Ok(Some(1)),
        auto_restart: Err(ConfigError::Flash),
        ..nothing_stored()
    };
    assert_eq!(
        RuntimeConfig::load(&partly),
        RuntimeConfig { solo_depleting_timeout_ms: 1, ..defaults() }
    );
}

#[test]
fn events_change_the_value_they_name() {
    let cases = [
        (
            ConfigManagerEvents::VscapPowerOnThreshold(1),
            RuntimeConfig { vscap_power_on_threshold_mv: 1, ..defaults() },
        ),
        (
            ConfigManagerEvents::VscapPowerOffThreshold(2),
            RuntimeConfig { vscap_power_off_threshold_mv: 2, ..defaults() },
        ),
        (
            ConfigManagerEvents::VinPowerThreshold(3),
            RuntimeConfig { vin_power_threshold_mv: 3, ..defaults() },
        ),
        (
            ConfigManagerEvents::ShutdownWaitDurationMs(4),
            RuntimeConfig { shutdown_wait_duration_ms: 4, ..defaults() },
        ),
        (
            ConfigManagerEvents::SoloDepletingTimeoutMs(5),
            RuntimeConfig { solo_depleting_timeout_ms: 5, ..defaults() },
        ),
        (
            ConfigManagerEvents::WatchdogTimeoutMs(6),
            RuntimeConfig { watchdog_timeout_ms: 6, ..defaults() },
        ),
        (ConfigManagerEvents::LedBrightness(7), RuntimeConfig { led_brightness: 7, ..defaults() }),
        (
            ConfigManagerEvents::VscapCorrectionScale(8),
            RuntimeConfig { vscap_correction_scale_bits: 8, ..defaults() },
        ),
        (
            ConfigManagerEvents::VinCorrectionScale(9),
            RuntimeConfig { vin_correction_scale_bits: 9, ..defaults() },
        ),
        (
            ConfigManagerEvents::IinCorrectionScale(10),
            RuntimeConfig { iin_correction_scale_bits: 10, ..defaults() },
        ),
        (ConfigManagerEvents::AutoRestart(false), RuntimeConfig { auto_restart: false, ..defaults() }),
        (
            ConfigManagerEvents::HardwareVersion(12),
            RuntimeConfig { hardware_version: 12, ..defaults() },
        ),
        (ConfigManagerEvents::UsbPortState(5), defaults()),
        (ConfigManagerEvents::UsbPowerOn, defaults()),
        (ConfigManagerEvents::UsbPowerOff, defaults()),
    ];
    for (event, expected) in cases {
        let mut config = defaults();
        config.apply(&event);
        assert_eq!(config, expected);
    }
}

#[test]
fn events_are_persisted_under_their_keys() {
    let cases = [
        (ConfigManagerEvents::VscapPowerOnThreshold(1), 0x1002, StoredValue::Millivolts(1)),
        (ConfigManagerEvents::VscapPowerOffThreshold(2), 0x1003, StoredValue::Millivolts(2)),
        (ConfigManagerEvents::VinPowerThreshold(3), 0x1004, StoredValue::Millivolts(3)),
        (ConfigManagerEvents::ShutdownWaitDurationMs(4), 0x1005, StoredValue::U32(4)),
        (ConfigManagerEvents::SoloDepletingTimeoutMs(5), 0x1007, StoredValue::U32(5)),
        (ConfigManagerEvents::WatchdogTimeoutMs(6), 0x1006, StoredValue::U16(6)),
        (ConfigManagerEvents::LedBrightness(7), 0x1001, StoredValue::U8(7)),
        (ConfigManagerEvents::VscapCorrectionScale(8), 0x100a, StoredValue::ScaleBits(8)),
        (ConfigManagerEvents::VinCorrectionScale(9), 0x1008, StoredValue::ScaleBits(9)),
        (ConfigManagerEvents::IinCorrectionScale(10), 0x1009, StoredValue::ScaleBits(10)),
        (ConfigManagerEvents::AutoRestart(true), 0x100b, StoredValue::Bool(true)),
    ];
    for (event, key, value) in cases {
        assert_eq!(persist_request(&event, false), Some((key, value)));
        assert_eq!(persist_request(&event, true), Some((key, value)));
    }
    assert_eq!(persist_request(&ConfigManagerEvents::HardwareVersion(12), false), None);
    assert_eq!(
        persist_request(&ConfigManagerEvents::HardwareVersion(12), true),
        Some((0x100c, StoredValue::U32(12)))
    );
    for event in [
        ConfigManagerEvents::UsbPortState(3),
        ConfigManagerEvents::UsbPowerOn,
        ConfigManagerEvents::UsbPowerOff,
    ] {
        assert_eq!(persist_request(&event, true), None);
    }
    assert_eq!(
        [
            LED_BRIGHTNESS_CONFIG_KEY,
            VSCAP_POWER_ON_THRESHOLD_CONFIG_KEY,
            VSCAP_POWER_OFF_THRESHOLD_CONFIG_KEY,
            VIN_POWER_THRESHOLD_CONFIG_KEY,
            SHUTDOWN_WAIT_DURATION_CONFIG_KEY,
            HOST_WATCHDOG_TIMEOUT_CONFIG_KEY,
            SOLO_BLACKOUT_TIMEOUT_CONFIG_KEY,
            VIN_CORRECTION_SCALE_CONFIG_KEY,
            IIN_CORRECTION_SCALE_CONFIG_KEY,
            VSCAP_CORRECTION_SCALE_CONFIG_KEY,
            AUTO_RESTART_CONFIG_KEY,
            HARDWARE_VERSION_CONFIG_KEY,
        ],
        [
            0x1001, 0x1002, 0x1003, 0x1004, 0x1005, 0x1006, 0x1007, 0x1008, 0x1009, 0x100a, 0x100b,
            0x100c
        ]
    );
}

#[test]
fn policy_and_thresholds_come_from_the_configuration() {
    let mut config = defaults();
    config.auto_restart = false;
    config.solo_depleting_timeout_ms = 111;
    config.shutdown_wait_duration_ms = 222;
    config.vin_power_threshold_mv = 333;
    config.vscap_power_on_threshold_mv = 444;
    assert_eq!(
        config.timing_policy(),
        TimingPolicy {
            solo_depleting_timeout_ms: 111,
            shutdown_wait_duration_ms: 222,
            off_state_duration_ms: 5_000,
            host_watchdog_reboot_duration_ms: 5_000,
            auto_restart: false,
        }
    );
    assert_eq!(
        config.thresholds(),
        Thresholds { vin_power_threshold_mv: 333, vscap_power_on_threshold_mv: 444 }
    );
}

#[test]
fn usb_ports_follow_their_bits() {
    let mut usb = UsbOutputs::new();
    assert_eq!(usb.get_port_state(), 0x0f);
    usb.set_port_state(0b0101);
    assert_eq!(
        usb,
        UsbOutputs { dis_usb0: false, dis_usb1: true, dis_usb2: false, dis_usb3: true }
    );
    assert_eq!(usb.get_port_state(), 0b0101);
    usb.disable_all();
    assert_eq!(usb.get_port_state(), 0);
    assert_eq!(usb, UsbOutputs { dis_usb0: true, dis_usb1: true, dis_usb2: true, dis_usb3: true });
    usb.enable_all();
    assert_eq!(usb, UsbOutputs::new());
    for bits in 0..=255u8 {
        usb.set_port_state(bits);
        assert_eq!(usb.get_port_state(), bits & 0x0f);
    }
}

#[test]
fn usb_events_switch_the_ports() {
    let mut usb = UsbOutputs::new();
    usb.apply(&ConfigManagerEvents::UsbPowerOff);
    assert_eq!(usb.get_port_state(), 0);
    usb.apply(&ConfigManagerEvents::UsbPortState(0b1000));
    assert_eq!(usb.get_port_state(), 0b1000);
    usb.apply(&ConfigManagerEvents::LedBrightness(3));
    assert_eq!(usb.get_port_state(), 0b1000);
    usb.apply(&ConfigManagerEvents::UsbPowerOn);
    assert_eq!(usb.get_port_state(), 0x0f);
}
