//! The operator-tunable configuration: the values in use, what falls back
//! to a compiled-in default, what is written to the store on a change, and
//! the switches of the host's peripheral ports.

use vstd::prelude::*;
use crate::config::{
    AUTO_RESTART_CONFIG_KEY, DEFAULT_AUTO_RESTART, DEFAULT_HARDWARE_VERSION,
    DEFAULT_IIN_CORRECTION_SCALE_BITS, DEFAULT_LED_BRIGHTNESS, DEFAULT_SHUTDOWN_WAIT_DURATION_MS,
    DEFAULT_SOLO_BLACKOUT_TIMEOUT_MS, DEFAULT_VIN_CORRECTION_SCALE_BITS,
    DEFAULT_VIN_POWER_THRESHOLD_MV, DEFAULT_VSCAP_CORRECTION_SCALE_BITS,
    DEFAULT_VSCAP_POWER_OFF_THRESHOLD_MV, DEFAULT_VSCAP_POWER_ON_THRESHOLD_MV,
    HARDWARE_VERSION_CONFIG_KEY, HOST_WATCHDOG_DEFAULT_TIMEOUT_MS,
    HOST_WATCHDOG_REBOOT_DURATION_MS, HOST_WATCHDOG_TIMEOUT_CONFIG_KEY,
    IIN_CORRECTION_SCALE_CONFIG_KEY, LED_BRIGHTNESS_CONFIG_KEY, OFF_STATE_DURATION_MS,
    SHUTDOWN_WAIT_DURATION_CONFIG_KEY, SOLO_BLACKOUT_TIMEOUT_CONFIG_KEY,
    VIN_CORRECTION_SCALE_CONFIG_KEY, VIN_POWER_THRESHOLD_CONFIG_KEY,
    VSCAP_CORRECTION_SCALE_CONFIG_KEY, VSCAP_POWER_OFF_THRESHOLD_CONFIG_KEY,
    VSCAP_POWER_ON_THRESHOLD_CONFIG_KEY,
};
use crate::event_loop::Thresholds;
use crate::state_machine::TimingPolicy;

verus! {

/// Why a value could not be read from or written to the store.
#[derive(Clone, Copy, Debug, PartialEq, Eq, Structural)]
pub enum ConfigError {
    /// The flash itself failed.
    Flash,
    /// The store on top of it failed.
    Storage,
}

/// A change of configuration, or a switch of the peripheral ports. Voltages
/// are in millivolts; correction factors are the bits of a 32-bit IEEE
/// number.
#[derive(Clone, Copy, Debug, PartialEq, Eq, Structural)]
pub enum ConfigManagerEvents {
    VscapPowerOnThreshold(u32),
    VscapPowerOffThreshold(u32),
    VinPowerThreshold(u32),
    ShutdownWaitDurationMs(u32),
    SoloDepletingTimeoutMs(u32),
    WatchdogTimeoutMs(u16),
    LedBrightness(u8),
    VscapCorrectionScale(u32),
    VinCorrectionScale(u32),
    IinCorrectionScale(u32),
    AutoRestart(bool),
    HardwareVersion(u32),
    UsbPortState(u8),
    UsbPowerOn,
    UsbPowerOff,
}

/// A value as it is handed to the store.
#[derive(Clone, Copy, Debug, PartialEq, Eq, Structural)]
pub enum StoredValue {
    /// Millivolts, which the store keeps as volts.
    Millivolts(u32),
    /// The bits of a 32-bit IEEE number.
    ScaleBits(u32),
    U32(u32),
    U16(u16),
    U8(u8),
    Bool(bool),
}

/// The configuration in use.
#[derive(Clone, Copy, Debug, PartialEq, Eq, Structural)]
pub struct RuntimeConfig {
    pub vscap_power_on_threshold_mv: u32,
    pub vscap_power_off_threshold_mv: u32,
    pub vin_power_threshold_mv: u32,
    pub shutdown_wait_duration_ms: u32,
    pub solo_depleting_timeout_ms: u32,
    pub watchdog_timeout_ms: u16,
    pub led_brightness: u8,
    pub vin_correction_scale_bits: u32,
    pub vscap_correction_scale_bits: u32,
    pub iin_correction_scale_bits: u32,
    pub auto_restart: bool,
    pub hardware_version: u32,
}

/// What was found in the store at start, value by value.
#[derive(Clone, Copy, Debug, PartialEq, Eq)]
pub struct StoredConfig {
    pub vscap_power_on_threshold_mv: Result<Option<u32>, ConfigError>,
    pub vscap_power_off_threshold_mv: Result<Option<u32>, ConfigError>,
    pub vin_power_threshold_mv: Result<Option<u32>, ConfigError>,
    pub shutdown_wait_duration_ms: Result<Option<u32>, ConfigError>,
    pub solo_depleting_timeout_ms: Result<Option<u32>, ConfigError>,
    pub watchdog_timeout_ms: Result<Option<u16>, ConfigError>,
    pub led_brightness: Result<Option<u8>, ConfigError>,
    pub auto_restart: Result<Option<bool>, ConfigError>,
    pub hardware_version: Result<Option<u32>, ConfigError>,
}

/// The value that was read, or `default` where nothing is stored or the read
/// failed.
pub open spec fn stored_or<T>(read: Result<Option<T>, ConfigError>, default: T) -> T {
    match read {
        Ok(Some(value)) => value,
        _ => default,
    }
}

/// Computes [`stored_or`].
pub fn value_or_default<T>(read: Result<Option<T>, ConfigError>, default: T) -> (value: T)
    ensures
        value == stored_or(read, default),
{
    match read {
        Ok(Some(value)) => value,
        _ => default,
    }
}

/// The compiled-in configuration.
pub open spec fn default_config() -> RuntimeConfig {
    RuntimeConfig {
        vscap_power_on_threshold_mv: DEFAULT_VSCAP_POWER_ON_THRESHOLD_MV,
        vscap_power_off_threshold_mv: DEFAULT_VSCAP_POWER_OFF_THRESHOLD_MV,
        vin_power_threshold_mv: DEFAULT_VIN_POWER_THRESHOLD_MV,
        shutdown_wait_duration_ms: DEFAULT_SHUTDOWN_WAIT_DURATION_MS,
        solo_depleting_timeout_ms: DEFAULT_SOLO_BLACKOUT_TIMEOUT_MS,
        watchdog_timeout_ms: HOST_WATCHDOG_DEFAULT_TIMEOUT_MS,
        led_brightness: DEFAULT_LED_BRIGHTNESS,
        vin_correction_scale_bits: DEFAULT_VIN_CORRECTION_SCALE_BITS,
        vscap_correction_scale_bits: DEFAULT_VSCAP_CORRECTION_SCALE_BITS,
        iin_correction_scale_bits: DEFAULT_IIN_CORRECTION_SCALE_BITS,
        auto_restart: DEFAULT_AUTO_RESTART,
        hardware_version: DEFAULT_HARDWARE_VERSION,
    }
}

/// The configuration that results from what was found in the store: each
/// value as stored, or its default. The correction factors are not read at
/// start and keep their defaults.
pub open spec fn loaded_config(stored: StoredConfig) -> RuntimeConfig {
    RuntimeConfig {
        vscap_power_on_threshold_mv: stored_or(
            stored.vscap_power_on_threshold_mv,
            DEFAULT_VSCAP_POWER_ON_THRESHOLD_MV,
        ),
        vscap_power_off_threshold_mv: stored_or(
            stored.vscap_power_off_threshold_mv,
            DEFAULT_VSCAP_POWER_OFF_THRESHOLD_MV,
        ),
        vin_power_threshold_mv: stored_or(
            stored.vin_power_threshold_mv,
            DEFAULT_VIN_POWER_THRESHOLD_MV,
        ),
        shutdown_wait_duration_ms: stored_or(
            stored.shutdown_wait_duration_ms,
            DEFAULT_SHUTDOWN_WAIT_DURATION_MS,
        ),
        solo_depleting_timeout_ms: stored_or(
            stored.solo_depleting_timeout_ms,
            DEFAULT_SOLO_BLACKOUT_TIMEOUT_MS,
        ),
        watchdog_timeout_ms: stored_or(stored.watchdog_timeout_ms, HOST_WATCHDOG_DEFAULT_TIMEOUT_MS),
        led_brightness: stored_or(stored.led_brightness, DEFAULT_LED_BRIGHTNESS),
        auto_restart: stored_or(stored.auto_restart, DEFAULT_AUTO_RESTART),
        hardware_version: stored_or(stored.hardware_version, DEFAULT_HARDWARE_VERSION),
        ..default_config()
    }
}

/// The configuration after `event`: the value that the event names is
/// replaced; a switch of the peripheral ports changes nothing.
pub open spec fn config_after(config: RuntimeConfig, event: ConfigManagerEvents) -> RuntimeConfig {
    match event {
        ConfigManagerEvents::VscapPowerOnThreshold(v) => RuntimeConfig {
            vscap_power_on_threshold_mv: v,
            ..config
        },
        ConfigManagerEvents::VscapPowerOffThreshold(v) => RuntimeConfig {
            vscap_power_off_threshold_mv: v,
            ..config
        },
        ConfigManagerEvents::VinPowerThreshold(v) => RuntimeConfig {
            vin_power_threshold_mv: v,
            ..config
        },
        ConfigManagerEvents::ShutdownWaitDurationMs(v) => RuntimeConfig {
            shutdown_wait_duration_ms: v,
            ..config
        },
        ConfigManagerEvents::SoloDepletingTimeoutMs(v) => RuntimeConfig {
            solo_depleting_timeout_ms: v,
            ..config
        },
        ConfigManagerEvents::WatchdogTimeoutMs(v) => RuntimeConfig {
            watchdog_timeout_ms: v,
            ..config
        },
        ConfigManagerEvents::LedBrightness(v) => RuntimeConfig { led_brightness: v, ..config },
        ConfigManagerEvents::VscapCorrectionScale(v) => RuntimeConfig {
            vscap_correction_scale_bits: v,
            ..config
        },
        ConfigManagerEvents::VinCorrectionScale(v) => RuntimeConfig {
            vin_correction_scale_bits: v,
            ..config
        },
        ConfigManagerEvents::IinCorrectionScale(v) => RuntimeConfig {
            iin_correction_scale_bits: v,
            ..config
        },
        ConfigManagerEvents::AutoRestart(v) => RuntimeConfig { auto_restart: v, ..config },
        ConfigManagerEvents::HardwareVersion(v) => RuntimeConfig { hardware_version: v, ..config },
        _ => config,
    }
}

/// What `event` writes to the store, as key and value. The hardware version
/// is written in test mode only; a switch of the peripheral ports writes
/// nothing.
pub open spec fn store_request(event: ConfigManagerEvents, test_mode: bool) -> Option<
    (u16, StoredValue),
> {
    match event {
        ConfigManagerEvents::VscapPowerOnThreshold(v) => Some(
            (VSCAP_POWER_ON_THRESHOLD_CONFIG_KEY, StoredValue::Millivolts(v)),
        ),
        ConfigManagerEvents::VscapPowerOffThreshold(v) => Some(
            (VSCAP_POWER_OFF_THRESHOLD_CONFIG_KEY, StoredValue::Millivolts(v)),
        ),
        ConfigManagerEvents::VinPowerThreshold(v) => Some(
            (VIN_POWER_THRESHOLD_CONFIG_KEY, StoredValue::Millivolts(v)),
        ),
        ConfigManagerEvents::ShutdownWaitDurationMs(v) => Some(
            (SHUTDOWN_WAIT_DURATION_CONFIG_KEY, StoredValue::U32(v)),
        ),
        ConfigManagerEvents::SoloDepletingTimeoutMs(v) => Some(
            (SOLO_BLACKOUT_TIMEOUT_CONFIG_KEY, StoredValue::U32(v)),
        ),
        ConfigManagerEvents::WatchdogTimeoutMs(v) => Some(
            (HOST_WATCHDOG_TIMEOUT_CONFIG_KEY, StoredValue::U16(v)),
        ),
        ConfigManagerEvents::LedBrightness(v) => Some(
            (LED_BRIGHTNESS_CONFIG_KEY, StoredValue::U8(v)),
        ),
        ConfigManagerEvents::VinCorrectionScale(v) => Some(
            (VIN_CORRECTION_SCALE_CONFIG_KEY, StoredValue::ScaleBits(v)),
        ),
        ConfigManagerEvents::VscapCorrectionScale(v) => Some(
            (VSCAP_CORRECTION_SCALE_CONFIG_KEY, StoredValue::ScaleBits(v)),
        ),
        ConfigManagerEvents::IinCorrectionScale(v) => Some(
            (IIN_CORRECTION_SCALE_CONFIG_KEY, StoredValue::ScaleBits(v)),
        ),
        ConfigManagerEvents::AutoRestart(v) => Some(
            (AUTO_RESTART_CONFIG_KEY, StoredValue::Bool(v)),
        ),
        ConfigManagerEvents::HardwareVersion(v) => if test_mode {
            Some((HARDWARE_VERSION_CONFIG_KEY, StoredValue::U32(v)))
        } else {
            None
        },
        _ => None,
    }
}

impl RuntimeConfig {
    /// A configuration of the given values.
    pub fn new(
        vscap_power_on_threshold_mv: u32,
        vscap_power_off_threshold_mv: u32,
        vin_power_threshold_mv: u32,
        shutdown_wait_duration_ms: u32,
        solo_depleting_timeout_ms: u32,
        watchdog_timeout_ms: u16,
        led_brightness: u8,
        vin_correction_scale_bits: u32,
        vscap_correction_scale_bits: u32,
        iin_correction_scale_bits: u32,
        auto_restart: bool,
        hardware_version: u32,
    ) -> (config: RuntimeConfig)
        ensures
            config == (RuntimeConfig {
                vscap_power_on_threshold_mv,
                vscap_power_off_threshold_mv,
                vin_power_threshold_mv,
                shutdown_wait_duration_ms,
                solo_depleting_timeout_ms,
                watchdog_timeout_ms,
                led_brightness,
                vin_correction_scale_bits,
                vscap_correction_scale_bits,
                iin_correction_scale_bits,
                auto_restart,
                hardware_version,
            }),
    {
        RuntimeConfig {
            vscap_power_on_threshold_mv,
            vscap_power_off_threshold_mv,
            vin_power_threshold_mv,
            shutdown_wait_duration_ms,
            solo_depleting_timeout_ms,
            watchdog_timeout_ms,
            led_brightness,
            vin_correction_scale_bits,
            vscap_correction_scale_bits,
            iin_correction_scale_bits,
            auto_restart,
            hardware_version,
        }
    }

    /// The compiled-in configuration.
    pub fn defaults() -> (config: RuntimeConfig)
        ensures
            config == default_config(),
    {
        RuntimeConfig::new(
            DEFAULT_VSCAP_POWER_ON_THRESHOLD_MV,
            DEFAULT_VSCAP_POWER_OFF_THRESHOLD_MV,
            DEFAULT_VIN_POWER_THRESHOLD_MV,
            DEFAULT_SHUTDOWN_WAIT_DURATION_MS,
            DEFAULT_SOLO_BLACKOUT_TIMEOUT_MS,
            HOST_WATCHDOG_DEFAULT_TIMEOUT_MS,
            DEFAULT_LED_BRIGHTNESS,
            DEFAULT_VIN_CORRECTION_SCALE_BITS,
            DEFAULT_VSCAP_CORRECTION_SCALE_BITS,
            DEFAULT_IIN_CORRECTION_SCALE_BITS,
            DEFAULT_AUTO_RESTART,
            DEFAULT_HARDWARE_VERSION,
        )
    }

    /// The configuration to start with, given what was found in the store.
    pub fn load(stored: &StoredConfig) -> (config: RuntimeConfig)
        ensures
            config == loaded_config(*stored),
    {
        let mut config = RuntimeConfig::defaults();
        config.vscap_power_on_threshold_mv =
        value_or_default(stored.vscap_power_on_threshold_mv, DEFAULT_VSCAP_POWER_ON_THRESHOLD_MV);
        config.vscap_power_off_threshold_mv =
        value_or_default(stored.vscap_power_off_threshold_mv, DEFAULT_VSCAP_POWER_OFF_THRESHOLD_MV);
        config.vin_power_threshold_mv =
        value_or_default(stored.vin_power_threshold_mv, DEFAULT_VIN_POWER_THRESHOLD_MV);
        config.shutdown_wait_duration_ms =
        value_or_default(stored.shutdown_wait_duration_ms, DEFAULT_SHUTDOWN_WAIT_DURATION_MS);
        config.solo_depleting_timeout_ms =
        value_or_default(stored.solo_depleting_timeout_ms, DEFAULT_SOLO_BLACKOUT_TIMEOUT_MS);
        config.watchdog_timeout_ms =
        value_or_default(stored.watchdog_timeout_ms, HOST_WATCHDOG_DEFAULT_TIMEOUT_MS);
        config.led_brightness = value_or_default(stored.led_brightness, DEFAULT_LED_BRIGHTNESS);
        config.auto_restart = value_or_default(stored.auto_restart, DEFAULT_AUTO_RESTART);
        config.hardware_version =
        value_or_default(stored.hardware_version, DEFAULT_HARDWARE_VERSION);
        config
    }

    /// Takes over the value that `event` carries.
    pub fn apply(&mut self, event: &ConfigManagerEvents)
        ensures
            *final(self) == config_after(*old(self), *event),
    {
        match event {
            ConfigManagerEvents::VscapPowerOnThreshold(v) => {
                self.vscap_power_on_threshold_mv = *v;
            },
            ConfigManagerEvents::VscapPowerOffThreshold(v) => {
                self.vscap_power_off_threshold_mv = *v;
            },
            ConfigManagerEvents::VinPowerThreshold(v) => {
                self.vin_power_threshold_mv = *v;
            },
            ConfigManagerEvents::ShutdownWaitDurationMs(v) => {
                self.shutdown_wait_duration_ms = *v;
            },
            ConfigManagerEvents::SoloDepletingTimeoutMs(v) => {
                self.solo_depleting_timeout_ms = *v;
            },
            ConfigManagerEvents::WatchdogTimeoutMs(v) => {
                self.watchdog_timeout_ms = *v;
            },
            ConfigManagerEvents::LedBrightness(v) => {
                self.led_brightness = *v;
            },
            ConfigManagerEvents::VscapCorrectionScale(v) => {
                self.vscap_correction_scale_bits = *v;
            },
            ConfigManagerEvents::VinCorrectionScale(v) => {
                self.vin_correction_scale_bits = *v;
            },
            ConfigManagerEvents::IinCorrectionScale(v) => {
                self.iin_correction_scale_bits = *v;
            },
            ConfigManagerEvents::AutoRestart(v) => {
                self.auto_restart = *v;
            },
            ConfigManagerEvents::HardwareVersion(v) => {
                self.hardware_version = *v;
            },
            _ => {},
        }
    }

    /// The durations and the restart preference for the state machine. The
    /// hold time and the grace period are the compiled-in ones.
    pub fn timing_policy(&self) -> (policy: TimingPolicy)
        ensures
            policy == (TimingPolicy {
                solo_depleting_timeout_ms: self.solo_depleting_timeout_ms,
                shutdown_wait_duration_ms: self.shutdown_wait_duration_ms,
                off_state_duration_ms: OFF_STATE_DURATION_MS,
                host_watchdog_reboot_duration_ms: HOST_WATCHDOG_REBOOT_DURATION_MS,
                auto_restart: self.auto_restart,
            }),
    {
        TimingPolicy {
            solo_depleting_timeout_ms: self.solo_depleting_timeout_ms,
            shutdown_wait_duration_ms: self.shutdown_wait_duration_ms,
            off_state_duration_ms: OFF_STATE_DURATION_MS,
            host_watchdog_reboot_duration_ms: HOST_WATCHDOG_REBOOT_DURATION_MS,
            auto_restart: self.auto_restart,
        }
    }

    /// The voltage thresholds for the event loop.
    pub fn thresholds(&self) -> (thresholds: Thresholds)
        ensures
            thresholds == (Thresholds {
                vin_power_threshold_mv: self.vin_power_threshold_mv,
                vscap_power_on_threshold_mv: self.vscap_power_on_threshold_mv,
            }),
    {
        Thresholds {
            vin_power_threshold_mv: self.vin_power_threshold_mv,
            vscap_power_on_threshold_mv: self.vscap_power_on_threshold_mv,
        }
    }
}

/// What `event` is to write to the store.
pub fn persist_request(event: &ConfigManagerEvents, test_mode: bool) -> (request: Option<
    (u16, StoredValue),
>)
    ensures
        request == store_request(*event, test_mode),
{
    match event {
        ConfigManagerEvents::VscapPowerOnThreshold(v) => Some(
            (VSCAP_POWER_ON_THRESHOLD_CONFIG_KEY, StoredValue::Millivolts(*v)),
        ),
        ConfigManagerEvents::VscapPowerOffThreshold(v) => Some(
            (VSCAP_POWER_OFF_THRESHOLD_CONFIG_KEY, StoredValue::Millivolts(*v)),
        ),
        ConfigManagerEvents::VinPowerThreshold(v) => Some(
            (VIN_POWER_THRESHOLD_CONFIG_KEY, StoredValue::Millivolts(*v)),
        ),
        ConfigManagerEvents::ShutdownWaitDurationMs(v) => Some(
            (SHUTDOWN_WAIT_DURATION_CONFIG_KEY, StoredValue::U32(*v)),
        ),
        ConfigManagerEvents::SoloDepletingTimeoutMs(v) => Some(
            (SOLO_BLACKOUT_TIMEOUT_CONFIG_KEY, StoredValue::U32(*v)),
        ),
        ConfigManagerEvents::WatchdogTimeoutMs(v) => Some(
            (HOST_WATCHDOG_TIMEOUT_CONFIG_KEY, StoredValue::U16(*v)),
        ),
        ConfigManagerEvents::LedBrightness(v) => Some(
            (LED_BRIGHTNESS_CONFIG_KEY, StoredValue::U8(*v)),
        ),
        ConfigManagerEvents::VinCorrectionScale(v) => Some(
            (VIN_CORRECTION_SCALE_CONFIG_KEY, StoredValue::ScaleBits(*v)),
        ),
        ConfigManagerEvents::VscapCorrectionScale(v) => Some(
            (VSCAP_CORRECTION_SCALE_CONFIG_KEY, StoredValue::ScaleBits(*v)),
        ),
        ConfigManagerEvents::IinCorrectionScale(v) => Some(
            (IIN_CORRECTION_SCALE_CONFIG_KEY, StoredValue::ScaleBits(*v)),
        ),
        ConfigManagerEvents::AutoRestart(v) => Some(
            (AUTO_RESTART_CONFIG_KEY, StoredValue::Bool(*v)),
        ),
        ConfigManagerEvents::HardwareVersion(v) => {
            if test_mode {
                Some((HARDWARE_VERSION_CONFIG_KEY, StoredValue::U32(*v)))
            } else {
                None
            }
        },
        _ => None,
    }
}

/// Levels of the four lines that disable the host's peripheral ports. A port
/// is enabled while its line is low.
#[derive(Clone, Copy, Debug, PartialEq, Eq, Structural)]
pub struct UsbOutputs {
    pub dis_usb0: bool,
    pub dis_usb1: bool,
    pub dis_usb2: bool,
    pub dis_usb3: bool,
}

/// The bit of an enabled port, or zero for a disabled one.
pub open spec fn enabled_bit(disabled: bool, bit: u8) -> u8 {
    if disabled {
        0
    } else {
        bit
    }
}

/// The ports as a bit field: bit `n` is set where port `n` is enabled.
pub open spec fn port_bits(outputs: UsbOutputs) -> u8 {
    enabled_bit(outputs.dis_usb0, 0x01) | enabled_bit(outputs.dis_usb1, 0x02) | enabled_bit(
        outputs.dis_usb2,
        0x04,
    ) | enabled_bit(outputs.dis_usb3, 0x08)
}

/// The levels that enable exactly the ports whose bits are set in the low
/// four bits of `bits`.
pub open spec fn outputs_for(bits: u8) -> UsbOutputs {
    UsbOutputs {
        dis_usb0: bits & 0x01 == 0,
        dis_usb1: bits & 0x02 == 0,
        dis_usb2: bits & 0x04 == 0,
        dis_usb3: bits & 0x08 == 0,
    }
}

/// The levels after `event`: the ports as named, all on or all off; any
/// other event leaves them alone.
pub open spec fn outputs_after(outputs: UsbOutputs, event: ConfigManagerEvents) -> UsbOutputs {
    match event {
        ConfigManagerEvents::UsbPortState(bits) => outputs_for(bits),
        ConfigManagerEvents::UsbPowerOn => outputs_for(0x0f),
        ConfigManagerEvents::UsbPowerOff => outputs_for(0x00),
        _ => outputs,
    }
}

impl UsbOutputs {
    /// All ports enabled.
    pub fn new() -> (outputs: UsbOutputs)
        ensures
            outputs == (UsbOutputs {
                dis_usb0: false,
                dis_usb1: false,
                dis_usb2: false,
                dis_usb3: false,
            }),
    {
        UsbOutputs { dis_usb0: false, dis_usb1: false, dis_usb2: false, dis_usb3: false }
    }

    /// Enables the ports whose bits are set in `port_bits` and disables the
    /// others.
    pub fn set_port_state(&mut self, port_bits: u8)
        ensures
            *final(self) == outputs_for(port_bits),
    {
        self.dis_usb0 = (port_bits & 0x01) == 0;
        self.dis_usb1 = (port_bits & 0x02) == 0;
        self.dis_usb2 = (port_bits & 0x04) == 0;
        self.dis_usb3 = (port_bits & 0x08) == 0;
    }

    /// The enabled ports as a bit field.
    pub fn get_port_state(&self) -> (state: u8)
        ensures
            state == port_bits(*self),
            state <= 0x0f,
    {
        let b0: u8 = if self.dis_usb0 {
            0
        } else {
            0x01
        };
        let b1: u8 = if self.dis_usb1 {
            0
        } else {
            0x02
        };
        let b2: u8 = if self.dis_usb2 {
            0
        } else {
            0x04
        };
        let b3: u8 = if self.dis_usb3 {
            0
        } else {
            0x08
        };
        assert(b0 | b1 | b2 | b3 <= 0x0f) by (bit_vector)
            requires
                b0 <= 0x01,
                b1 <= 0x02,
                b2 <= 0x04,
                b3 <= 0x08,
        ;
        b0 | b1 | b2 | b3
    }

    /// Enables all ports.
    pub fn enable_all(&mut self)
        ensures
            *final(self) == (UsbOutputs {
                dis_usb0: false,
                dis_usb1: false,
                dis_usb2: false,
                dis_usb3: false,
            }),
    {
        self.dis_usb0 = false;
        self.dis_usb1 = false;
        self.dis_usb2 = false;
        self.dis_usb3 = false;
    }

    /// Disables all ports.
    pub fn disable_all(&mut self)
        ensures
            *final(self) == (UsbOutputs {
                dis_usb0: true,
                dis_usb1: true,
                dis_usb2: true,
                dis_usb3: true,
            }),
    {
        self.dis_usb0 = true;
        self.dis_usb1 = true;
        self.dis_usb2 = true;
        self.dis_usb3 = true;
    }

    /// Switches the ports as `event` asks.
    pub fn apply(&mut self, event: &ConfigManagerEvents)
        ensures
            *final(self) == outputs_after(*old(self), *event),
    {
        match event {
            ConfigManagerEvents::UsbPortState(bits) => self.set_port_state(*bits),
            ConfigManagerEvents::UsbPowerOn => {
                self.enable_all();
                assert(outputs_for(0x0f) == *self) by {
                    assert(0x0fu8 & 0x01 != 0 && 0x0fu8 & 0x02 != 0 && 0x0fu8 & 0x04 != 0 && 0x0fu8
                        & 0x08 != 0) by (bit_vector);
                }
            },
            ConfigManagerEvents::UsbPowerOff => {
                self.disable_all();
                assert(outputs_for(0x00) == *self) by {
                    assert(0x00u8 & 0x01 == 0 && 0x00u8 & 0x02 == 0 && 0x00u8 & 0x04 == 0 && 0x00u8
                        & 0x08 == 0) by (bit_vector);
                }
            },
            _ => {},
        }
    }
}

/// Reading the ports back gives the low four bits of what was set.
pub proof fn port_state_reads_back(bits: u8)
    ensures
        port_bits(outputs_for(bits)) == bits & 0x0f,
{
    let b0 = enabled_bit(bits & 0x01 == 0, 0x01);
    let b1 = enabled_bit(bits & 0x02 == 0, 0x02);
    let b2 = enabled_bit(bits & 0x04 == 0, 0x04);
    let b3 = enabled_bit(bits & 0x08 == 0, 0x08);
    assert(bits & 0x01 == 0 || bits & 0x01 == 0x01) by (bit_vector);
    assert(bits & 0x02 == 0 || bits & 0x02 == 0x02) by (bit_vector);
    assert(bits & 0x04 == 0 || bits & 0x04 == 0x04) by (bit_vector);
    assert(bits & 0x08 == 0 || bits & 0x08 == 0x08) by (bit_vector);
    assert(b0 | b1 | b2 | b3 == bits & 0x0f) by (bit_vector)
        requires
            b0 == bits & 0x01,
            b1 == bits & 0x02,
            b2 == bits & 0x04,
            b3 == bits & 0x08,
    ;
}

} // verus!
