//! The host-facing register protocol: what a write from the host asks for,
//! and what a read of a register answers.
//!
//! A write is a register number followed by its payload. Multi-byte numbers
//! are big-endian, except the correction factors, which travel as the four
//! little-endian bytes of a 32-bit IEEE number. A firmware block carries a
//! checksum over the rest of the message.
//!
//! Any activity on the bus shows that the host is alive: every transaction,
//! taken or refused, is followed by a ping for the host watchdog.

use vstd::prelude::*;
use vstd::slice::slice_subrange;
use crate::config::{
    IIN_MAX_VALUE_MA, MAX_TEMPERATURE_VALUE_MK, MIN_TEMPERATURE_VALUE_MK, VIN_MAX_VALUE_MV,
    VSCAP_MAX_VALUE_MV,
};
use crate::config_manager::{ConfigManagerEvents, RuntimeConfig};
use crate::flash_writer::{CommandView, FlashUpdateState, FlashWriteCommand};
use crate::gpio_input::Inputs;
use crate::state_machine::{state_code, state_as_u8, State, StateMachineEvents};
use crate::version::FW_VERSION;

verus! {

/// What the legacy firmware version register answers.
pub const LEGACY_FW_VERSION: u8 = 0xff;

/// What the legacy hardware version register answers.
pub const LEGACY_HW_VERSION: u8 = 0x00;

/// The state of a firmware update as the host sees it.
#[derive(Clone, Copy, Debug, PartialEq, Eq, Structural)]
pub enum DFUState {
    Idle,
    Preparing,
    Updating,
    QueueFull,
    ReadyToCommit,
    CRCError,
    DataLengthError,
    WriteError,
    ProtocolError,
}

/// The number under which an update state is reported.
pub open spec fn dfu_state_code(state: DFUState) -> u8 {
    match state {
        DFUState::Idle => 0,
        DFUState::Preparing => 1,
        DFUState::Updating => 2,
        DFUState::QueueFull => 3,
        DFUState::ReadyToCommit => 4,
        DFUState::CRCError => 5,
        DFUState::DataLengthError => 6,
        DFUState::WriteError => 7,
        DFUState::ProtocolError => 8,
    }
}

/// The update state that the host is shown: an error of the transfer
/// first, the checksum before the length; else what the flash writer says,
/// with a full queue shown while blocks are being taken.
pub open spec fn dfu_state(
    flash_writer_state: FlashUpdateState,
    crc_error: bool,
    data_length_error: bool,
    ready_for_more: bool,
) -> DFUState {
    if crc_error {
        DFUState::CRCError
    } else if data_length_error {
        DFUState::DataLengthError
    } else {
        match flash_writer_state {
            FlashUpdateState::ProtocolError => DFUState::ProtocolError,
            FlashUpdateState::Idle => DFUState::Idle,
            FlashUpdateState::Complete => DFUState::Idle,
            FlashUpdateState::Preparing => DFUState::Preparing,
            FlashUpdateState::WriteError => DFUState::WriteError,
            FlashUpdateState::Updating => if ready_for_more {
                DFUState::Updating
            } else {
                DFUState::QueueFull
            },
            FlashUpdateState::ReadyToCommit => DFUState::ReadyToCommit,
        }
    }
}

impl DFUState {
    /// The number under which the state is reported.
    pub fn as_u8(&self) -> (code: u8)
        ensures
            code == dfu_state_code(*self),
    {
        match self {
            DFUState::Idle => 0,
            DFUState::Preparing => 1,
            DFUState::Updating => 2,
            DFUState::QueueFull => 3,
            DFUState::ReadyToCommit => 4,
            DFUState::CRCError => 5,
            DFUState::DataLengthError => 6,
            DFUState::WriteError => 7,
            DFUState::ProtocolError => 8,
        }
    }
}

/// Computes [`dfu_state`].
pub fn get_dfu_state(
    flash_writer_state: FlashUpdateState,
    crc_error: bool,
    data_length_error: bool,
    ready_for_more: bool,
) -> (state: DFUState)
    ensures
        state == dfu_state(flash_writer_state, crc_error, data_length_error, ready_for_more),
{
    if crc_error {
        return DFUState::CRCError;
    }
    if data_length_error {
        return DFUState::DataLengthError;
    }
    match flash_writer_state {
        FlashUpdateState::ProtocolError => DFUState::ProtocolError,
        FlashUpdateState::Idle => DFUState::Idle,
        FlashUpdateState::Complete => DFUState::Idle,
        FlashUpdateState::Preparing => DFUState::Preparing,
        FlashUpdateState::WriteError => DFUState::WriteError,
        FlashUpdateState::Updating => {
            if ready_for_more {
                DFUState::Updating
            } else {
                DFUState::QueueFull
            }
        },
        FlashUpdateState::ReadyToCommit => DFUState::ReadyToCommit,
    }
}

/// What a write from the host asks the firmware to do.
#[derive(Clone, Debug, PartialEq, Eq)]
pub enum HostRequest {
    /// Nothing: the write was refused or has no effect.
    Nothing,
    /// Queue a command for the state machine.
    StateMachine(StateMachineEvents),
    /// Change a configuration value.
    Config(ConfigManagerEvents),
    /// Change the LED brightness, in the configuration and on the LEDs.
    LedBrightness(u8),
    /// Queue a command for the flash writer.
    Flash(FlashWriteCommand),
}

/// A request as a plain value.
pub enum RequestView {
    Nothing,
    StateMachine(StateMachineEvents),
    Config(ConfigManagerEvents),
    LedBrightness(u8),
    Flash(CommandView),
}

impl View for HostRequest {
    type V = RequestView;

    open spec fn view(&self) -> RequestView {
        match *self {
            HostRequest::Nothing => RequestView::Nothing,
            HostRequest::StateMachine(event) => RequestView::StateMachine(event),
            HostRequest::Config(event) => RequestView::Config(event),
            HostRequest::LedBrightness(brightness) => RequestView::LedBrightness(brightness),
            HostRequest::Flash(command) => RequestView::Flash(command@),
        }
    }
}

/// What the responder remembers between messages.
#[derive(Clone, Copy, Debug, PartialEq, Eq, Structural)]
pub struct I2cSecondary {
    /// A firmware block failed its checksum.
    pub dfu_crc_error: bool,
    /// A firmware message was too short, or a block not as long as it said.
    pub data_length_error: bool,
    /// The watchdog timeout that the host set last.
    pub host_watchdog_timeout_ms: u16,
}

/// The byte at position `i` of a message; zero behind its end.
pub open spec fn byte_at(bytes: Seq<u8>, i: int) -> u8 {
    if 0 <= i < bytes.len() {
        bytes[i]
    } else {
        0
    }
}

/// The number whose big-endian bytes are given.
pub open spec fn be16(b0: u8, b1: u8) -> u16 {
    (b0 * 0x100 + b1) as u16
}

/// The number whose big-endian bytes are given.
pub open spec fn be32(b0: u8, b1: u8, b2: u8, b3: u8) -> u32 {
    (b0 * 0x100_0000 + b1 * 0x1_0000 + b2 * 0x100 + b3) as u32
}

/// The checksum of `bytes` as `crc::Crc::<u32>::checksum` computes it for
/// the algorithm `CRC_32_ISO_HDLC`.
pub uninterp spec fn crc32_iso_hdlc(bytes: Seq<u8>) -> u32;

/// Calls `crc::Crc::<u32>::new(&CRC_32_ISO_HDLC).checksum(bytes)`. The
/// contract only gives the result its name.
#[verifier::external_body]
pub(crate) fn crc32_checksum(bytes: &[u8]) -> (crc: u32)
    ensures
        crc == crc32_iso_hdlc(bytes@),
{
    crc::Crc::<u32>::new(&crc::CRC_32_ISO_HDLC).checksum(bytes)
}

/// The part of a firmware block message that its checksum covers:
/// everything behind the checksum itself.
pub open spec fn checked_part(bytes: Seq<u8>) -> Seq<u8> {
    if bytes.len() >= 5 {
        bytes.subrange(5, bytes.len() as int)
    } else {
        Seq::empty()
    }
}

/// What a write does, as state after it and request.
pub struct Decoded {
    pub state: I2cSecondary,
    pub request: RequestView,
}

/// A write that asks for nothing.
pub open spec fn ignored(state: I2cSecondary) -> Decoded {
    Decoded { state, request: RequestView::Nothing }
}

/// A write that asks for something.
pub open spec fn asks(state: I2cSecondary, request: RequestView) -> Decoded {
    Decoded { state, request }
}

/// What the write of a firmware block does, given the checksum `crc` of
/// the part that the checksum covers.
pub open spec fn decode_block(state: I2cSecondary, bytes: Seq<u8>, crc: u32) -> Decoded {
    if bytes.len() < 10 {
        ignored(I2cSecondary { data_length_error: true, ..state })
    } else if state.dfu_crc_error || state.data_length_error {
        ignored(state)
    } else if crc != be32(bytes[1], bytes[2], bytes[3], bytes[4]) {
        ignored(I2cSecondary { dfu_crc_error: true, ..state })
    } else if be16(bytes[7], bytes[8]) != bytes.len() - 9 {
        ignored(I2cSecondary { data_length_error: true, ..state })
    } else {
        asks(
            state,
            RequestView::Flash(
                CommandView::WriteBlock {
                    block_num: be16(bytes[5], bytes[6]),
                    data: bytes.subrange(9, bytes.len() as int),
                },
            ),
        )
    }
}

/// What a write of `bytes` does. `pg_5v` says whether the host's rail is
/// up; `crc` is the checksum of [`checked_part`] and matters to firmware
/// blocks only.
pub open spec fn decode(state: I2cSecondary, bytes: Seq<u8>, pg_5v: bool, crc: u32) -> Decoded {
    let len = bytes.len();
    if len < 2 {
        ignored(state)
    } else {
        let register = bytes[0];
        if register == 0x10 {
            if bytes[1] == 0x00 && pg_5v {
                asks(state, RequestView::StateMachine(StateMachineEvents::Off))
            } else {
                ignored(state)
            }
        } else if register == 0x12 {
            if len != 3 {
                ignored(state)
            } else {
                asks(
                    I2cSecondary { host_watchdog_timeout_ms: be16(bytes[1], bytes[2]), ..state },
                    RequestView::StateMachine(
                        StateMachineEvents::SetHostWatchdogTimeout(be16(bytes[1], bytes[2])),
                    ),
                )
            }
        } else if register == 0x13 {
            if len != 3 {
                ignored(state)
            } else {
                asks(
                    state,
                    RequestView::Config(
                        ConfigManagerEvents::VscapPowerOnThreshold(
                            (be16(bytes[1], bytes[2]) * 10) as u32,
                        ),
                    ),
                )
            }
        } else if register == 0x14 {
            if len != 3 {
                ignored(state)
            } else {
                asks(
                    state,
                    RequestView::Config(
                        ConfigManagerEvents::VscapPowerOffThreshold(
                            (be16(bytes[1], bytes[2]) * 10) as u32,
                        ),
                    ),
                )
            }
        } else if register == 0x17 {
            asks(state, RequestView::LedBrightness(bytes[1]))
        } else if register == 0x18 {
            asks(state, RequestView::Config(ConfigManagerEvents::AutoRestart(bytes[1] != 0)))
        } else if register == 0x19 {
            asks(
                state,
                RequestView::Config(
                    ConfigManagerEvents::SoloDepletingTimeoutMs(
                        be32(
                            byte_at(bytes, 1),
                            byte_at(bytes, 2),
                            byte_at(bytes, 3),
                            byte_at(bytes, 4),
                        ),
                    ),
                ),
            )
        } else if register == 0x30 {
            asks(state, RequestView::StateMachine(StateMachineEvents::Shutdown))
        } else if register == 0x31 {
            asks(state, RequestView::StateMachine(StateMachineEvents::StandbyShutdown))
        } else if register == 0x40 {
            if len < 5 {
                ignored(I2cSecondary { data_length_error: true, ..state })
            } else {
                asks(
                    I2cSecondary { dfu_crc_error: false, data_length_error: false, ..state },
                    RequestView::Flash(
                        CommandView::StartUpdate {
                            total_size: be32(bytes[1], bytes[2], bytes[3], bytes[4]),
                        },
                    ),
                )
            }
        } else if register == 0x43 {
            decode_block(state, bytes, crc)
        } else if register == 0x44 {
            if state.dfu_crc_error || state.data_length_error {
                ignored(state)
            } else {
                asks(state, RequestView::Flash(CommandView::Commit))
            }
        } else if register == 0x45 {
            asks(state, RequestView::Flash(CommandView::Abort))
        } else if register == 0x50 || register == 0x51 || register == 0x52 {
            if len != 6 {
                ignored(state)
            } else {
                let bits = be32(bytes[4], bytes[3], bytes[2], bytes[1]);
                asks(
                    state,
                    RequestView::Config(
                        if register == 0x50 {
                            ConfigManagerEvents::VinCorrectionScale(bits)
                        } else if register == 0x51 {
                            ConfigManagerEvents::VscapCorrectionScale(bits)
                        } else {
                            ConfigManagerEvents::IinCorrectionScale(bits)
                        },
                    ),
                )
            }
        } else {
            ignored(state)
        }
    }
}

/// Computes [`be16`].
pub fn u16_from_be(b0: u8, b1: u8) -> (value: u16)
    ensures
        value == be16(b0, b1),
{
    (b0 as u16) * 0x100 + (b1 as u16)
}

/// Computes [`be32`].
pub fn u32_from_be(b0: u8, b1: u8, b2: u8, b3: u8) -> (value: u32)
    ensures
        value == be32(b0, b1, b2, b3),
{
    (b0 as u32) * 0x100_0000 + (b1 as u32) * 0x1_0000 + (b2 as u32) * 0x100 + (b3 as u32)
}

/// Computes [`byte_at`].
pub fn byte_or_zero(bytes: &[u8], i: usize) -> (byte: u8)
    ensures
        byte == byte_at(bytes@, i as int),
{
    if i < bytes.len() {
        bytes[i]
    } else {
        0
    }
}

/// The bytes of `bytes` from position `from` on.
fn tail_to_vec(bytes: &[u8], from: usize) -> (tail: Vec<u8>)
    requires
        from <= bytes@.len(),
    ensures
        tail@ == bytes@.subrange(from as int, bytes@.len() as int),
{
    let mut tail: Vec<u8> = Vec::new();
    let mut i: usize = from;
    while i < bytes.len()
        invariant
            from <= i <= bytes@.len(),
            tail@ == bytes@.subrange(from as int, i as int),
        decreases bytes@.len() - i,
    {
        tail.push(bytes[i]);
        assert(tail@ =~= bytes@.subrange(from as int, i + 1));
        i += 1;
    }
    tail
}

impl I2cSecondary {
    /// The responder before any message: no errors, watchdog off.
    pub fn new() -> (state: I2cSecondary)
        ensures
            state == (I2cSecondary {
                dfu_crc_error: false,
                data_length_error: false,
                host_watchdog_timeout_ms: 0,
            }),
    {
        I2cSecondary { dfu_crc_error: false, data_length_error: false, host_watchdog_timeout_ms: 0 }
    }

    /// Takes a write of `bytes` whose checked part has the checksum
    /// `calculated_crc`.
    pub fn decode_write(&mut self, bytes: &[u8], pg_5v: bool, calculated_crc: u32) -> (request:
        HostRequest)
        ensures
            *final(self) == decode(*old(self), bytes@, pg_5v, calculated_crc).state,
            request@ == decode(*old(self), bytes@, pg_5v, calculated_crc).request,
    {
        let len = bytes.len();
        if len < 2 {
            return HostRequest::Nothing;
        }
        let register = bytes[0];
        if register == 0x10 {
            if bytes[1] == 0x00 && pg_5v {
                HostRequest::StateMachine(StateMachineEvents::Off)
            } else {
                HostRequest::Nothing
            }
        } else if register == 0x12 {
            if len != 3 {
                HostRequest::Nothing
            } else {
                let timeout = u16_from_be(bytes[1], bytes[2]);
                self.host_watchdog_timeout_ms = timeout;
                HostRequest::StateMachine(StateMachineEvents::SetHostWatchdogTimeout(timeout))
            }
        } else if register == 0x13 {
            if len != 3 {
                HostRequest::Nothing
            } else {
                let centivolts = u16_from_be(bytes[1], bytes[2]);
                HostRequest::Config(
                    ConfigManagerEvents::VscapPowerOnThreshold((centivolts as u32) * 10),
                )
            }
        } else if register == 0x14 {
            if len != 3 {
                HostRequest::Nothing
            } else {
                let centivolts = u16_from_be(bytes[1], bytes[2]);
                HostRequest::Config(
                    ConfigManagerEvents::VscapPowerOffThreshold((centivolts as u32) * 10),
                )
            }
        } else if register == 0x17 {
            HostRequest::LedBrightness(bytes[1])
        } else if register == 0x18 {
            HostRequest::Config(ConfigManagerEvents::AutoRestart(bytes[1] != 0))
        } else if register == 0x19 {
            let timeout_ms = u32_from_be(
                byte_or_zero(bytes, 1),
                byte_or_zero(bytes, 2),
                byte_or_zero(bytes, 3),
                byte_or_zero(bytes, 4),
            );
            HostRequest::Config(ConfigManagerEvents::SoloDepletingTimeoutMs(timeout_ms))
        } else if register == 0x30 {
            HostRequest::StateMachine(StateMachineEvents::Shutdown)
        } else if register == 0x31 {
            HostRequest::StateMachine(StateMachineEvents::StandbyShutdown)
        } else if register == 0x40 {
            if len < 5 {
                self.data_length_error = true;
                HostRequest::Nothing
            } else {
                let size = u32_from_be(bytes[1], bytes[2], bytes[3], bytes[4]);
                self.dfu_crc_error = false;
                self.data_length_error = false;
                HostRequest::Flash(FlashWriteCommand::StartUpdate { total_size: size })
            }
        } else if register == 0x43 {
            if len < 10 {
                self.data_length_error = true;
                HostRequest::Nothing
            } else if self.dfu_crc_error || self.data_length_error {
                HostRequest::Nothing
            } else {
                let crc_checksum = u32_from_be(bytes[1], bytes[2], bytes[3], bytes[4]);
                let block_num = u16_from_be(bytes[5], bytes[6]);
                let block_length = u16_from_be(bytes[7], bytes[8]);
                if calculated_crc != crc_checksum {
                    self.dfu_crc_error = true;
                    HostRequest::Nothing
                } else if block_length as usize != len - 9 {
                    self.data_length_error = true;
                    HostRequest::Nothing
                } else {
                    HostRequest::Flash(
                        FlashWriteCommand::WriteBlock { block_num, data: tail_to_vec(bytes, 9) },
                    )
                }
            }
        } else if register == 0x44 {
            if self.dfu_crc_error || self.data_length_error {
                HostRequest::Nothing
            } else {
                HostRequest::Flash(FlashWriteCommand::Commit)
            }
        } else if register == 0x45 {
            HostRequest::Flash(FlashWriteCommand::Abort)
        } else if register == 0x50 || register == 0x51 || register == 0x52 {
            if len != 6 {
                HostRequest::Nothing
            } else {
                let bits = u32_from_be(bytes[4], bytes[3], bytes[2], bytes[1]);
                if register == 0x50 {
                    HostRequest::Config(ConfigManagerEvents::VinCorrectionScale(bits))
                } else if register == 0x51 {
                    HostRequest::Config(ConfigManagerEvents::VscapCorrectionScale(bits))
                } else {
                    HostRequest::Config(ConfigManagerEvents::IinCorrectionScale(bits))
                }
            }
        } else {
            HostRequest::Nothing
        }
    }

    /// Takes a write of `bytes`: computes the checksum where the message is
    /// a firmware block, and decodes.
    pub fn handle_write(&mut self, bytes: &[u8], pg_5v: bool) -> (request: HostRequest)
        ensures
            *final(self) == decode(
                *old(self),
                bytes@,
                pg_5v,
                crc32_iso_hdlc(checked_part(bytes@)),
            ).state,
            request@ == decode(
                *old(self),
                bytes@,
                pg_5v,
                crc32_iso_hdlc(checked_part(bytes@)),
            ).request,
    {
        let len = bytes.len();
        if len >= 10 && bytes[0] == 0x43 {
            let payload = slice_subrange(bytes, 5, len);
            let crc = crc32_checksum(payload);
            self.decode_write(bytes, pg_5v, crc)
        } else {
            let ghost crc = crc32_iso_hdlc(checked_part(bytes@));
            let request = self.decode_write(bytes, pg_5v, 0);
            assert(decode(*old(self), bytes@, pg_5v, 0) == decode(*old(self), bytes@, pg_5v, crc));
            request
        }
    }
}

/// What the registers are read from.
#[derive(Clone, Copy, Debug)]
pub struct ReadContext {
    pub inputs: Inputs,
    pub state: State,
    pub config: RuntimeConfig,
    /// The watchdog timeout that the host set last.
    pub host_watchdog_timeout_ms: u16,
    pub flash_writer_state: FlashUpdateState,
    pub blocks_received: u16,
    /// A firmware block failed its checksum.
    pub dfu_crc_error: bool,
    /// A firmware message was too short, or a block not as long as it said.
    pub data_length_error: bool,
    /// The flash writer's queue has room.
    pub ready_for_more: bool,
}

/// `value` on a scale on which `full` is 65535, cut off at 65535.
pub open spec fn scaled_reading(value: int, numerator: int, full: int) -> u16 {
    if value * numerator / full >= 0xffff {
        0xffff
    } else {
        (value * numerator / full) as u16
    }
}

/// A temperature on the scale from the lowest to the highest reported one.
pub open spec fn scaled_temperature(temp_mk: u32) -> u16 {
    if temp_mk <= MIN_TEMPERATURE_VALUE_MK {
        0
    } else {
        scaled_reading(
            temp_mk - MIN_TEMPERATURE_VALUE_MK,
            0xffff,
            MAX_TEMPERATURE_VALUE_MK - MIN_TEMPERATURE_VALUE_MK,
        )
    }
}

/// A threshold in hundredths of a volt, cut off at 65535.
pub open spec fn centivolts(mv: u32) -> u16 {
    if mv / 10 >= 0xffff {
        0xffff
    } else {
        (mv / 10) as u16
    }
}

/// The big-endian bytes of a number.
pub open spec fn be_bytes16(value: u16) -> Seq<u8> {
    seq![(value / 0x100) as u8, (value % 0x100) as u8]
}

/// The big-endian bytes of a number.
pub open spec fn be_bytes32(value: u32) -> Seq<u8> {
    seq![
        (value / 0x100_0000) as u8,
        (value / 0x1_0000 % 0x100) as u8,
        (value / 0x100 % 0x100) as u8,
        (value % 0x100) as u8,
    ]
}

/// The little-endian bytes of a number.
pub open spec fn le_bytes32(value: u32) -> Seq<u8> {
    seq![
        (value % 0x100) as u8,
        (value / 0x100 % 0x100) as u8,
        (value / 0x1_0000 % 0x100) as u8,
        (value / 0x100_0000) as u8,
    ]
}

/// A flag as a byte.
pub open spec fn flag(b: bool) -> u8 {
    if b {
        1
    } else {
        0
    }
}

/// What a read of `register` answers; `None` for a register that does not
/// exist.
pub open spec fn register_value(register: u8, context: ReadContext) -> Option<Seq<u8>> {
    if register == 0x01 {
        Some(seq![LEGACY_HW_VERSION])
    } else if register == 0x02 {
        Some(seq![LEGACY_FW_VERSION])
    } else if register == 0x03 {
        Some(seq![0xffu8, 0xffu8, 0xffu8, 0xffu8])
    } else if register == 0x04 {
        Some(FW_VERSION@)
    } else if register == 0x10 {
        Some(seq![flag(context.inputs.pg_5v)])
    } else if register == 0x12 {
        Some(be_bytes16(context.host_watchdog_timeout_ms))
    } else if register == 0x13 {
        Some(be_bytes16(centivolts(context.config.vscap_power_on_threshold_mv)))
    } else if register == 0x14 {
        Some(be_bytes16(centivolts(context.config.vscap_power_off_threshold_mv)))
    } else if register == 0x15 {
        Some(seq![state_code(context.state)])
    } else if register == 0x16 {
        Some(seq![0u8])
    } else if register == 0x17 {
        Some(seq![context.config.led_brightness])
    } else if register == 0x18 {
        Some(seq![flag(context.config.auto_restart)])
    } else if register == 0x19 {
        Some(be_bytes32(context.config.solo_depleting_timeout_ms))
    } else if register == 0x20 {
        Some(be_bytes16(scaled_reading(context.inputs.vin_mv as int, 0xffff, VIN_MAX_VALUE_MV as int)))
    } else if register == 0x21 {
        Some(
            be_bytes16(
                scaled_reading(context.inputs.vscap_mv as int, 0x1_0000, VSCAP_MAX_VALUE_MV as int),
            ),
        )
    } else if register == 0x22 {
        Some(be_bytes16(scaled_reading(context.inputs.iin_ma as int, 0xffff, IIN_MAX_VALUE_MA as int)))
    } else if register == 0x23 {
        Some(be_bytes16(scaled_temperature(context.inputs.mcu_temp_mk)))
    } else if register == 0x24 {
        Some(be_bytes16(scaled_temperature(context.inputs.pcb_temp_mk)))
    } else if register == 0x41 {
        Some(
            seq![
                dfu_state_code(
                    dfu_state(
                        context.flash_writer_state,
                        context.dfu_crc_error,
                        context.data_length_error,
                        context.ready_for_more,
                    ),
                ),
            ],
        )
    } else if register == 0x42 {
        Some(be_bytes16(context.blocks_received))
    } else if register == 0x50 {
        Some(le_bytes32(context.config.vin_correction_scale_bits))
    } else if register == 0x51 {
        Some(le_bytes32(context.config.vscap_correction_scale_bits))
    } else if register == 0x52 {
        Some(le_bytes32(context.config.iin_correction_scale_bits))
    } else {
        None
    }
}

/// Computes [`scaled_reading`].
pub fn scale_reading(value: u32, numerator: u32, full: u32) -> (scaled: u16)
    requires
        full > 0,
    ensures
        scaled == scaled_reading(value as int, numerator as int, full as int),
{
    assert(value * numerator <= 0xffff_ffff * 0xffff_ffff) by (nonlinear_arith)
        requires
            value <= 0xffff_ffff,
            numerator <= 0xffff_ffff,
    ;
    let scaled: u64 = (value as u64) * (numerator as u64) / (full as u64);
    if scaled >= 0xffff {
        0xffff
    } else {
        scaled as u16
    }
}

/// Computes [`scaled_temperature`].
pub fn scale_temperature(temp_mk: u32) -> (scaled: u16)
    ensures
        scaled == scaled_temperature(temp_mk),
{
    if temp_mk <= MIN_TEMPERATURE_VALUE_MK {
        0
    } else {
        scale_reading(
            temp_mk - MIN_TEMPERATURE_VALUE_MK,
            0xffff,
            MAX_TEMPERATURE_VALUE_MK - MIN_TEMPERATURE_VALUE_MK,
        )
    }
}

/// Computes [`centivolts`].
pub fn to_centivolts(mv: u32) -> (cv: u16)
    ensures
        cv == centivolts(mv),
{
    let cv = mv / 10;
    if cv >= 0xffff {
        0xffff
    } else {
        cv as u16
    }
}

/// Computes [`be_bytes16`].
pub fn u16_to_be(value: u16) -> (bytes: Vec<u8>)
    ensures
        bytes@ == be_bytes16(value),
{
    let mut bytes: Vec<u8> = Vec::new();
    bytes.push((value / 0x100) as u8);
    bytes.push((value % 0x100) as u8);
    assert(bytes@ =~= be_bytes16(value));
    bytes
}

/// Computes [`be_bytes32`].
pub fn u32_to_be(value: u32) -> (bytes: Vec<u8>)
    ensures
        bytes@ == be_bytes32(value),
{
    let mut bytes: Vec<u8> = Vec::new();
    bytes.push((value / 0x100_0000) as u8);
    bytes.push((value / 0x1_0000 % 0x100) as u8);
    bytes.push((value / 0x100 % 0x100) as u8);
    bytes.push((value % 0x100) as u8);
    assert(bytes@ =~= be_bytes32(value));
    bytes
}

/// Computes [`le_bytes32`].
pub fn u32_to_le(value: u32) -> (bytes: Vec<u8>)
    ensures
        bytes@ == le_bytes32(value),
{
    let mut bytes: Vec<u8> = Vec::new();
    bytes.push((value % 0x100) as u8);
    bytes.push((value / 0x100 % 0x100) as u8);
    bytes.push((value / 0x1_0000 % 0x100) as u8);
    bytes.push((value / 0x100_0000) as u8);
    assert(bytes@ =~= le_bytes32(value));
    bytes
}

/// One byte as a message.
fn one_byte(byte: u8) -> (bytes: Vec<u8>)
    ensures
        bytes@ == seq![byte],
{
    let mut bytes: Vec<u8> = Vec::new();
    bytes.push(byte);
    assert(bytes@ =~= seq![byte]);
    bytes
}

/// Answers a read of `register`; `None` for a register that does not exist.
pub fn read_register(register: u8, context: &ReadContext) -> (answer: Option<Vec<u8>>)
    ensures
        match (answer, register_value(register, *context)) {
            (Some(bytes), Some(value)) => bytes@ == value,
            (None, None) => true,
            _ => false,
        },
{
    if register == 0x01 {
        Some(one_byte(LEGACY_HW_VERSION))
    } else if register == 0x02 {
        Some(one_byte(LEGACY_FW_VERSION))
    } else if register == 0x03 {
        let mut bytes: Vec<u8> = Vec::new();
        bytes.push(0xff);
        bytes.push(0xff);
        bytes.push(0xff);
        bytes.push(0xff);
        assert(bytes@ =~= seq![0xffu8, 0xffu8, 0xffu8, 0xffu8]);
        Some(bytes)
    } else if register == 0x04 {
        let mut bytes: Vec<u8> = Vec::new();
        bytes.push(FW_VERSION[0]);
        bytes.push(FW_VERSION[1]);
        bytes.push(FW_VERSION[2]);
        bytes.push(FW_VERSION[3]);
        assert(bytes@ =~= FW_VERSION@);
        Some(bytes)
    } else if register == 0x10 {
        Some(one_byte(if context.inputs.pg_5v { 1 } else { 0 }))
    } else if register == 0x12 {
        Some(u16_to_be(context.host_watchdog_timeout_ms))
    } else if register == 0x13 {
        Some(u16_to_be(to_centivolts(context.config.vscap_power_on_threshold_mv)))
    } else if register == 0x14 {
        Some(u16_to_be(to_centivolts(context.config.vscap_power_off_threshold_mv)))
    } else if register == 0x15 {
        Some(one_byte(state_as_u8(&context.state)))
    } else if register == 0x16 {
        Some(one_byte(0))
    } else if register == 0x17 {
        Some(one_byte(context.config.led_brightness))
    } else if register == 0x18 {
        Some(one_byte(if context.config.auto_restart { 1 } else { 0 }))
    } else if register == 0x19 {
        Some(u32_to_be(context.config.solo_depleting_timeout_ms))
    } else if register == 0x20 {
        Some(u16_to_be(scale_reading(context.inputs.vin_mv, 0xffff, VIN_MAX_VALUE_MV)))
    } else if register == 0x21 {
        Some(u16_to_be(scale_reading(context.inputs.vscap_mv, 0x1_0000, VSCAP_MAX_VALUE_MV)))
    } else if register == 0x22 {
        Some(u16_to_be(scale_reading(context.inputs.iin_ma, 0xffff, IIN_MAX_VALUE_MA)))
    } else if register == 0x23 {
        Some(u16_to_be(scale_temperature(context.inputs.mcu_temp_mk)))
    } else if register == 0x24 {
        Some(u16_to_be(scale_temperature(context.inputs.pcb_temp_mk)))
    } else if register == 0x41 {
        let state = get_dfu_state(
            context.flash_writer_state,
            context.dfu_crc_error,
            context.data_length_error,
            context.ready_for_more,
        );
        Some(one_byte(state.as_u8()))
    } else if register == 0x42 {
        Some(u16_to_be(context.blocks_received))
    } else if register == 0x50 {
        Some(u32_to_le(context.config.vin_correction_scale_bits))
    } else if register == 0x51 {
        Some(u32_to_le(context.config.vscap_correction_scale_bits))
    } else if register == 0x52 {
        Some(u32_to_le(context.config.iin_correction_scale_bits))
    } else {
        None
    }
}

/// What the host did on the bus.
#[derive(Clone, Copy, Debug, PartialEq, Eq)]
pub enum Transaction<'a> {
    /// A write to every device on the bus.
    GeneralCall,
    /// A read that names no register.
    Read,
    /// A write of the given bytes.
    Write(&'a [u8]),
    /// A read of the given register.
    WriteRead(u8),
    /// A transaction that went wrong on the bus.
    Failed,
}

/// A transaction as a plain value.
pub enum TransactionView {
    GeneralCall,
    Read,
    Write(Seq<u8>),
    WriteRead(u8),
    Failed,
}

impl<'a> View for Transaction<'a> {
    type V = TransactionView;

    open spec fn view(&self) -> TransactionView {
        match *self {
            Transaction::GeneralCall => TransactionView::GeneralCall,
            Transaction::Read => TransactionView::Read,
            Transaction::Write(bytes) => TransactionView::Write(bytes@),
            Transaction::WriteRead(register) => TransactionView::WriteRead(register),
            Transaction::Failed => TransactionView::Failed,
        }
    }
}

/// What the firmware owes the host after a transaction.
#[derive(Debug, PartialEq, Eq)]
pub struct Reply {
    /// The bytes to put on the bus; `None` where nothing is read or the
    /// register does not exist.
    pub answer: Option<Vec<u8>>,
    /// What is to be carried out, in order.
    pub requests: Vec<HostRequest>,
}

/// The requests of a list as plain values.
pub open spec fn request_views(requests: Seq<HostRequest>) -> Seq<RequestView> {
    Seq::new(requests.len(), |i: int| requests[i]@)
}

/// The sign of life that every transaction is: a ping for the host
/// watchdog.
pub open spec fn sign_of_life() -> RequestView {
    RequestView::StateMachine(StateMachineEvents::HostWatchdogPing)
}

/// What is carried out after a transaction that asked for `request`: the
/// request, if it is one, and then the sign of life.
pub open spec fn followed_by_sign_of_life(request: RequestView) -> Seq<RequestView> {
    match request {
        RequestView::Nothing => seq![sign_of_life()],
        _ => seq![request, sign_of_life()],
    }
}

/// What a transaction leads to.
pub struct Handled {
    pub state: I2cSecondary,
    pub answer: Option<Seq<u8>>,
    pub requests: Seq<RequestView>,
}

/// What a transaction leads to. A write is decoded, with the host's rail as
/// `context` shows it and `crc` as the checksum of its [`checked_part`]; a
/// read of a register is answered from `context`; a read that names no
/// register is answered with a zero. Whatever the transaction was, and
/// whether it was taken or refused, it counts as a sign of life: the ping is
/// the last thing to be carried out.
pub open spec fn handled(
    state: I2cSecondary,
    transaction: TransactionView,
    context: ReadContext,
    crc: u32,
) -> Handled {
    match transaction {
        TransactionView::Write(bytes) => {
            let written = decode(state, bytes, context.inputs.pg_5v, crc);
            Handled {
                state: written.state,
                answer: None,
                requests: followed_by_sign_of_life(written.request),
            }
        },
        TransactionView::WriteRead(register) => Handled {
            state,
            answer: register_value(register, context),
            requests: seq![sign_of_life()],
        },
        TransactionView::Read => Handled {
            state,
            answer: Some(seq![0u8]),
            requests: seq![sign_of_life()],
        },
        _ => Handled { state, answer: None, requests: seq![sign_of_life()] },
    }
}

/// The checksum that matters to a transaction: that of the checked part of
/// a write.
pub open spec fn transaction_checksum(transaction: TransactionView) -> u32 {
    match transaction {
        TransactionView::Write(bytes) => crc32_iso_hdlc(checked_part(bytes)),
        _ => 0,
    }
}

impl I2cSecondary {
    /// Takes a transaction: decodes what was written, answers what was read,
    /// and adds the ping that any activity on the bus is worth.
    pub fn handle_transaction(&mut self, transaction: &Transaction, context: &ReadContext) -> (reply:
        Reply)
        ensures
            *final(self) == handled(
                *old(self),
                transaction@,
                *context,
                transaction_checksum(transaction@),
            ).state,
            match (
                reply.answer,
                handled(
                    *old(self),
                    transaction@,
                    *context,
                    transaction_checksum(transaction@),
                ).answer,
            ) {
                (Some(bytes), Some(value)) => bytes@ == value,
                (None, None) => true,
                _ => false,
            },
            request_views(reply.requests@) == handled(
                *old(self),
                transaction@,
                *context,
                transaction_checksum(transaction@),
            ).requests,
    {
        let mut requests: Vec<HostRequest> = Vec::new();
        let answer = match transaction {
            Transaction::Write(bytes) => {
                let request = self.handle_write(*bytes, context.inputs.pg_5v);
                match request {
                    HostRequest::Nothing => {},
                    _ => {
                        requests.push(request);
                    },
                }
                None
            },
            Transaction::WriteRead(register) => read_register(*register, context),
            Transaction::Read => Some(one_byte(0)),
            _ => None,
        };
        requests.push(HostRequest::StateMachine(StateMachineEvents::HostWatchdogPing));
        assert(request_views(requests@) =~= handled(
            *old(self),
            transaction@,
            *context,
            transaction_checksum(transaction@),
        ).requests);
        Reply { answer, requests }
    }
}

/// Every transaction, of whatever kind and whether taken or refused, ends
/// with exactly one sign of life: the ping is the last request, and what a
/// write itself asked for, if anything, comes before it and is no ping.
pub proof fn every_transaction_is_a_sign_of_life(
    state: I2cSecondary,
    transaction: TransactionView,
    context: ReadContext,
    crc: u32,
)
    ensures
        ({
            let requests = handled(state, transaction, context, crc).requests;
            &&& 1 <= requests.len() <= 2
            &&& requests.last() == sign_of_life()
            &&& requests.len() == 2 ==> requests[0] != sign_of_life()
        }),
{
}

/// A number that is written big-endian is read back as it was.
pub proof fn big_endian_reads_back(short: u16, long: u32)
    ensures
        be16(be_bytes16(short)[0], be_bytes16(short)[1]) == short,
        be32(
            be_bytes32(long)[0],
            be_bytes32(long)[1],
            be_bytes32(long)[2],
            be_bytes32(long)[3],
        ) == long,
        be32(
            le_bytes32(long)[3],
            le_bytes32(long)[2],
            le_bytes32(long)[1],
            le_bytes32(long)[0],
        ) == long,
{
}

/// A threshold that the host has set in hundredths of a volt is read back
/// as it was set.
pub proof fn threshold_reads_back(hundredths: u16)
    ensures
        centivolts((hundredths * 10) as u32) == hundredths,
{
}

/// What the host sets through a register, it reads back from the same
/// register, once the request has been carried out: the watchdog timeout at
/// once, a configuration value once the configuration has taken it over.
pub proof fn registers_read_back(
    state: I2cSecondary,
    register: u8,
    b1: u8,
    b2: u8,
    pg_5v: bool,
    crc: u32,
    context: ReadContext,
)
    requires
        register == 0x12 || register == 0x13 || register == 0x14,
    ensures
        ({
            let written = decode(state, seq![register, b1, b2], pg_5v, crc);
            let config = match written.request {
                RequestView::Config(event) => crate::config_manager::config_after(
                    context.config,
                    event,
                ),
                _ => context.config,
            };
            let after = ReadContext {
                config,
                host_watchdog_timeout_ms: written.state.host_watchdog_timeout_ms,
                ..context
            };
            register_value(register, after) == Some(seq![b1, b2])
        }),
{
    let value = be16(b1, b2);
    threshold_reads_back(value);
    big_endian_reads_back(value, 0);
    assert(be_bytes16(value) =~= seq![b1, b2]);
}

} // verus!
