//! Compiled-in limits and fallbacks of the power policy.
//!
//! Voltages are carried as whole millivolts and durations as whole
//! milliseconds.

use vstd::prelude::*;

verus! {

/// Bus address of the secondary interface.
pub const I2C_ADDR: u8 = 0x6d;

/// Supercapacitor voltage that must never be exceeded, in millivolts.
pub const VSCAP_MAX_ALARM_MV: u32 = 10_500;

/// Full-scale supercapacitor reading, in millivolts.
pub const VSCAP_MAX_VALUE_MV: u32 = 11_000;

/// Supercapacitor level at which the host may be started, in millivolts.
pub const DEFAULT_VSCAP_POWER_ON_THRESHOLD_MV: u32 = 8_000;

/// Key of the power-on threshold in the store.
pub const VSCAP_POWER_ON_THRESHOLD_CONFIG_KEY: u16 = 0x1002;

/// Supercapacitor level below which the host is cut off, in millivolts.
pub const DEFAULT_VSCAP_POWER_OFF_THRESHOLD_MV: u32 = 5_500;

/// Key of the power-off threshold in the store.
pub const VSCAP_POWER_OFF_THRESHOLD_CONFIG_KEY: u16 = 0x1003;

/// External supply level that counts as present, in millivolts.
pub const DEFAULT_VIN_POWER_THRESHOLD_MV: u32 = 9_000;

/// Key of the external supply threshold in the store.
pub const VIN_POWER_THRESHOLD_CONFIG_KEY: u16 = 0x1004;

/// Full-scale external supply reading, in millivolts.
pub const VIN_MAX_VALUE_MV: u32 = 40_000;

/// Correction factor for the external supply reading, 1.015, as the bits of
/// a 32-bit IEEE number.
pub const DEFAULT_VIN_CORRECTION_SCALE_BITS: u32 = 0x3f81_eb85;

/// Key of the external supply correction factor in the store.
pub const VIN_CORRECTION_SCALE_CONFIG_KEY: u16 = 0x1008;

/// Correction factor for the supercapacitor reading, 1.059, as the bits of
/// a 32-bit IEEE number.
pub const DEFAULT_VSCAP_CORRECTION_SCALE_BITS: u32 = 0x3f87_8d50;

/// Key of the supercapacitor correction factor in the store.
pub const VSCAP_CORRECTION_SCALE_CONFIG_KEY: u16 = 0x100a;

/// Full-scale input current reading, in milliamperes.
pub const IIN_MAX_VALUE_MA: u32 = 3_300;

/// Correction factor for the input current reading, 0.8115331, as the bits
/// of a 32-bit IEEE number.
pub const DEFAULT_IIN_CORRECTION_SCALE_BITS: u32 = 0x3f4f_c0a2;

/// Key of the input current correction factor in the store.
pub const IIN_CORRECTION_SCALE_CONFIG_KEY: u16 = 0x1009;

/// Lowest temperature that is reported, 40 degrees below freezing, in
/// millikelvin.
pub const MIN_TEMPERATURE_VALUE_MK: u32 = 233_150;

/// Highest temperature that is reported, 100 degrees above freezing, in
/// millikelvin.
pub const MAX_TEMPERATURE_VALUE_MK: u32 = 373_150;

/// How long the host is given to shut itself down before power is cut.
pub const DEFAULT_SHUTDOWN_WAIT_DURATION_MS: u32 = 60_000;

/// Key of the shutdown wait in the store.
pub const SHUTDOWN_WAIT_DURATION_CONFIG_KEY: u16 = 0x1005;

/// How long a blackout is ridden out in solo mode before shutdown starts.
pub const DEFAULT_SOLO_BLACKOUT_TIMEOUT_MS: u32 = 5_000;

/// Key of the solo blackout timeout in the store.
pub const SOLO_BLACKOUT_TIMEOUT_CONFIG_KEY: u16 = 0x1007;

/// How long the host stays powered down before a restart is considered.
pub const OFF_STATE_DURATION_MS: u32 = 5_000;

/// Host watchdog timeout offered when none is stored.
pub const HOST_WATCHDOG_DEFAULT_TIMEOUT_MS: u16 = 10_000;

/// Key of the host watchdog timeout in the store.
pub const HOST_WATCHDOG_TIMEOUT_CONFIG_KEY: u16 = 0x1006;

/// How long an unresponsive host is tolerated before power is cut.
pub const HOST_WATCHDOG_REBOOT_DURATION_MS: u32 = 5_000;

/// Size of the flash in bytes.
pub const FLASH_SIZE: usize = 4_194_304;

/// Key of the LED brightness in the store.
pub const LED_BRIGHTNESS_CONFIG_KEY: u16 = 0x1001;

/// LED brightness used when none is stored.
pub const DEFAULT_LED_BRIGHTNESS: u8 = 0x30;

/// Key of the restart preference in the store.
pub const AUTO_RESTART_CONFIG_KEY: u16 = 0x100b;

/// Whether an intentional shutdown is followed by a restart when nothing is
/// stored.
pub const DEFAULT_AUTO_RESTART: bool = true;

/// Key of the hardware version in the store.
pub const HARDWARE_VERSION_CONFIG_KEY: u16 = 0x100c;

/// Hardware version given when none is stored.
pub const DEFAULT_HARDWARE_VERSION: u32 = 0xffff;

/// How many commands for the flash writer may wait.
pub const MAX_FLASH_WRITE_QUEUE_DEPTH: usize = 4;

/// How many bytes of flash are erased in one go.
pub const FLASH_ERASE_BLOCK_SIZE: usize = 4096;

/// Size of a firmware block in bytes.
pub const FLASH_WRITE_BLOCK_SIZE: usize = 4096;

/// Delay after start before the running firmware is marked as good.
pub const FIRMWARE_MARK_BOOTED_DELAY_MS: u32 = 30_000;

/// Period of the event generation loop.
pub const STATE_MACHINE_TICK_MS: u64 = 50;

} // verus!
