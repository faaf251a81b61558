use halpi_power::config_manager::{ConfigManagerEvents, RuntimeConfig};
use halpi_power::flash_writer::{FlashUpdateState, FlashWriteCommand};
use halpi_power::gpio_input::Inputs;
use halpi_power::i2c_secondary::{
    byte_or_zero, get_dfu_state, read_register, scale_reading, scale_temperature, to_centivolts,
    u16_from_be, u16_to_be, u32_from_be, u32_to_be, u32_to_le, DFUState, HostRequest,
    I2cSecondary, ReadContext, Reply, Transaction,
};
use halpi_power::version::FW_VERSION;
use halpi_power::state_machine::{State, StateMachineEvents};

fn block_message(block_num: u16, data: &[u8]) -> Vec<u8> {
    let mut payload = Vec::new();
    payload.extend_from_slice(&block_num.to_be_bytes());
    payload.extend_from_slice(&(data.len() as u16).to_be_bytes());
    payload.extend_from_slice(data);
    let crc = crc::Crc::<u32>::new(&crc::CRC_32_ISO_HDLC).checksum(&payload);
    let mut message = vec![0x43];
    message.extend_from_slice(&crc.to_be_bytes());
    message.extend_from_slice(&payload);
    message
}

#[test]
fn byte_order_helpers() {
    assert_eq!(u16_from_be(0x12, 0x34), 0x1234);
    assert_eq!(u16_from_be(0xff, 0xff), 0xffff);
    assert_eq!(u32_from_be(0x12, 0x34, 0x56, 0x78), 0x1234_5678);
    assert_eq!(u32_from_be(0xff, 0xff, 0xff, 0xff), u32::MAX);
    assert_eq!(u16_to_be(0x1234), vec![0x12, 0x34]);
    assert_eq!(u32_to_be(0x1234_5678), vec![0x12, 0x34, 0x56, 0x78]);
    assert_eq!(u32_to_le(0x1234_5678), vec![0x78, 0x56, 0x34, 0x12]);
    assert_eq!(u32_to_le(1.059f32.to_bits()), 1.059f32.to_le_bytes().to_vec());
    assert_eq!(byte_or_zero(&[7, 8], 1), 8);
    assert_eq!(byte_or_zero(&[7, 8], 2), 0);
}

#[test]
fn short_writes_ask_for_nothing() {
    let mut state = I2cSecondary::new();
    assert_eq!(state.handle_write(&[], true), HostRequest::Nothing);
    assert_eq!(state.handle_write(&[0x30], true), HostRequest::Nothing);
    assert_eq!(state, I2cSecondary::new());
}

#[test]
fn power_off_needs_a_powered_host() {
    let mut state = I2cSecondary::new();
    assert_eq!(
        state.handle_write(&[0x10, 0x00], true),
        HostRequest::StateMachine(StateMachineEvents::Off)
    );
    assert_eq!(state.handle_write(&[0x10, 0x00], false), HostRequest::Nothing);
    assert_eq!(state.handle_write(&[0x10, 0x01], true), HostRequest::Nothing);
}

#[test]
fn watchdog_timeout_is_remembered() {
    let mut state = I2cSecondary::new();
    assert_eq!(
        state.handle_write(&[0x12, 0x13, 0x88], true),
        HostRequest::StateMachine(StateMachineEvents::SetHostWatchdogTimeout(5000))
    );
    assert_eq!(state.host_watchdog_timeout_ms, 5000);
    assert_eq!(state.handle_write(&[0x12, 0x13], true), HostRequest::Nothing);
    assert_eq!(state.handle_write(&[0x12, 0x13, 0x88, 0x00], true), HostRequest::Nothing);
    assert_eq!(state.host_watchdog_timeout_ms, 5000);
    assert_eq!(
        state.handle_write(&[0x12, 0x00, 0x00], true),
        HostRequest::StateMachine(StateMachineEvents::SetHostWatchdogTimeout(0))
    );
    assert_eq!(state.host_watchdog_timeout_ms, 0);
}

#[test]
fn thresholds_arrive_in_centivolts() {
    let mut state = I2cSecondary::new();
    assert_eq!(
        state.handle_write(&[0x13, 0x03, 0x20], true),
        HostRequest::Config(ConfigManagerEvents::VscapPowerOnThreshold(8_000))
    );
    assert_eq!(
        state.handle_write(&[0x14, 0x02, 0x26], true),
        HostRequest::Config(ConfigManagerEvents::VscapPowerOffThreshold(5_500))
    );
    assert_eq!(
        state.handle_write(&[0x13, 0xff, 0xff], true),
        HostRequest::Config(ConfigManagerEvents::VscapPowerOnThreshold(655_350))
    );
    assert_eq!(state.handle_write(&[0x13, 0x03], true), HostRequest::Nothing);
    assert_eq!(state.handle_write(&[0x14, 0x03, 0x20, 0x00], true), HostRequest::Nothing);
}

#[test]
fn single_byte_settings() {
    let mut state = I2cSecondary::new();
    assert_eq!(state.handle_write(&[0x17, 0x80], true), HostRequest::LedBrightness(0x80));
    assert_eq!(
        state.handle_write(&[0x18, 0x00], true),
        HostRequest::Config(ConfigManagerEvents::AutoRestart(false))
    );
    assert_eq!(
        state.handle_write(&[0x18, 0x02, 0x09], true),
        HostRequest::Config(ConfigManagerEvents::AutoRestart(true))
    );
    assert_eq!(
        state.handle_write(&[0x30, 0x00], false),
        HostRequest::StateMachine(StateMachineEvents::Shutdown)
    );
    assert_eq!(
        state.handle_write(&[0x31, 0xaa], false),
        HostRequest::StateMachine(StateMachineEvents::StandbyShutdown)
    );
    assert_eq!(state.handle_write(&[0x99, 0x00], true), HostRequest::Nothing);
    assert_eq!(state.handle_write(&[0x41, 0x00], true), HostRequest::Nothing);
}

#[test]
fn solo_timeout_reads_missing_bytes_as_zero() {
    let mut state = I2cSecondary::new();
    assert_eq!(
        state.handle_write(&[0x19, 0x00, 0x00, 0x13, 0x88], true),
        HostRequest::Config(ConfigManagerEvents::SoloDepletingTimeoutMs(5000))
    );
    assert_eq!(
        state.handle_write(&[0x19, 0x01], true),
        HostRequest::Config(ConfigManagerEvents::SoloDepletingTimeoutMs(0x0100_0000))
    );
    assert_eq!(
        state.handle_write(&[0x19, 0x01, 0x02, 0x03, 0x04, 0x05], true),
        HostRequest::Config(ConfigManagerEvents::SoloDepletingTimeoutMs(0x0102_0304))
    );
}

#[test]
fn correction_scales_travel_little_endian() {
    let mut state = I2cSecondary::new();
    let bytes = 1.25f32.to_le_bytes();
    for (register, expected) in [
        (0x50u8, ConfigManagerEvents::VinCorrectionScale(1.25f32.to_bits())),
        (0x51, ConfigManagerEvents::VscapCorrectionScale(1.25f32.to_bits())),
        (0x52, ConfigManagerEvents::IinCorrectionScale(1.25f32.to_bits())),
    ] {
        let message = [register, bytes[0], bytes[1], bytes[2], bytes[3], 0x00];
        assert_eq!(state.handle_write(&message, true), HostRequest::Config(expected));
        assert_eq!(state.handle_write(&message[..5], true), HostRequest::Nothing);
    }
}

#[test]
fn start_of_an_update_clears_the_error_flags() {
    let mut state = I2cSecondary {
        dfu_crc_error: true,
        data_length_error: true,
        host_watchdog_timeout_ms: 9,
    };
    assert_eq!(
        state.handle_write(&[0x40, 0x00, 0x01, 0x00, 0x00], true),
        HostRequest::Flash(FlashWriteCommand::StartUpdate { total_size: 65_536 })
    );
    assert_eq!(
        state,
        I2cSecondary { dfu_crc_error: false, data_length_error: false, host_watchdog_timeout_ms: 9 }
    );
    assert_eq!(state.handle_write(&[0x40, 0x00, 0x01, 0x00], true), HostRequest::Nothing);
    assert!(state.data_length_error);
    assert!(!state.dfu_crc_error);
}

#[test]
fn a_good_block_is_passed_on() {
    let mut state = I2cSecondary::new();
    let data = [1u8, 2, 3, 4, 5, 6, 7];
    let message = block_message(0x0102, &data);
    assert_eq!(
        state.handle_write(&message, true),
        HostRequest::Flash(FlashWriteCommand::WriteBlock {
            block_num: 0x0102,
            data: data.to_vec()
        })
    );
    assert_eq!(state, I2cSecondary::new());

    let full = vec![0xa5u8; 4096];
    let message = block_message(3, &full);
    assert_eq!(
        state.handle_write(&message, true),
        HostRequest::Flash(FlashWriteCommand::WriteBlock { block_num: 3, data: full })
    );
}

#[test]
fn the_checksum_is_the_iso_hdlc_one() {
    // The checksum of "123456789" is 0xcbf43926. Read as a block, the text
    // announces more data than it carries, so it passes the checksum and
    // fails the length.
    let mut message = vec![0x43, 0xcb, 0xf4, 0x39, 0x26];
    message.extend_from_slice(b"123456789");
    let mut state = I2cSecondary::new();
    assert_eq!(state.handle_write(&message, true), HostRequest::Nothing);
    assert!(!state.dfu_crc_error);
    assert!(state.data_length_error);

    message[4] = 0x27;
    let mut state = I2cSecondary::new();
    assert_eq!(state.handle_write(&message, true), HostRequest::Nothing);
    assert!(state.dfu_crc_error);
    assert!(!state.data_length_error);
}

#[test]
fn a_bad_block_sets_a_flag_and_blocks_what_follows() {
    let mut state = I2cSecondary::new();
    let mut message = block_message(1, &[9, 9, 9]);
    message[10] ^= 0x01;
    assert_eq!(state.handle_write(&message, true), HostRequest::Nothing);
    assert!(state.dfu_crc_error);

    let good = block_message(1, &[9, 9, 9]);
    assert_eq!(state.handle_write(&good, true), HostRequest::Nothing);
    assert_eq!(state.handle_write(&[0x44, 0x00], true), HostRequest::Nothing);
    assert_eq!(
        state.handle_write(&[0x45, 0x00], true),
        HostRequest::Flash(FlashWriteCommand::Abort)
    );
    assert!(state.dfu_crc_error);

    let mut state = I2cSecondary::new();
    assert_eq!(state.handle_write(&good[..9], true), HostRequest::Nothing);
    assert!(state.data_length_error);
    assert_eq!(state.handle_write(&good, true), HostRequest::Nothing);
    assert_eq!(state.handle_write(&[0x44, 0x00], true), HostRequest::Nothing);

    let mut state = I2cSecondary::new();
    assert_eq!(
        state.handle_write(&[0x44, 0x00], true),
        HostRequest::Flash(FlashWriteCommand::Commit)
    );
}

#[test]
fn decoding_takes_the_checksum_as_given() {
    let message = block_message(1, &[9, 9, 9]);
    let stated = u32_from_be(message[1], message[2], message[3], message[4]);
    let mut state = I2cSecondary::new();
    assert_eq!(
        state.decode_write(&message, true, stated),
        HostRequest::Flash(FlashWriteCommand::WriteBlock { block_num: 1, data: vec![9, 9, 9] })
    );
    assert_eq!(state.decode_write(&message, true, stated.wrapping_add(1)), HostRequest::Nothing);
    assert!(state.dfu_crc_error);
}

#[test]
fn update_state_shown_to_the_host() {
    assert_eq!(get_dfu_state(FlashUpdateState::Updating, true, true, true), DFUState::CRCError);
    assert_eq!(get_dfu_state(FlashUpdateState::Updating, false, true, true), DFUState::DataLengthError);
    assert_eq!(get_dfu_state(FlashUpdateState::ProtocolError, false, false, true), DFUState::ProtocolError);
    assert_eq!(get_dfu_state(FlashUpdateState::Idle, false, false, false), DFUState::Idle);
    assert_eq!(get_dfu_state(FlashUpdateState::Complete, false, false, true), DFUState::Idle);
    assert_eq!(get_dfu_state(FlashUpdateState::Preparing, false, false, true), DFUState::Preparing);
    assert_eq!(get_dfu_state(FlashUpdateState::WriteError, false, false, true), DFUState::WriteError);
    assert_eq!(get_dfu_state(FlashUpdateState::Updating, false, false, false), DFUState::QueueFull);
    assert_eq!(get_dfu_state(FlashUpdateState::Updating, false, false, true), DFUState::Updating);
    assert_eq!(get_dfu_state(FlashUpdateState::ReadyToCommit, false, false, false), DFUState::ReadyToCommit);
    let codes = [
        (DFUState::Idle, 0u8),
        (DFUState::Preparing, 1),
        (DFUState::Updating, 2),
        (DFUState::QueueFull, 3),
        (DFUState::ReadyToCommit, 4),
        (DFUState::CRCError, 5),
        (DFUState::DataLengthError, 6),
        (DFUState::WriteError, 7),
        (DFUState::ProtocolError, 8),
    ];
    for (state, code) in codes {
        assert_eq!(state.as_u8(), code);
    }
}

#[test]
fn readings_are_scaled_to_sixteen_bits() {
    assert_eq!(scale_reading(0, 0xffff, 40_000), 0);
    assert_eq!(scale_reading(40_000, 0xffff, 40_000), 0xffff);
    assert_eq!(scale_reading(12_000, 0xffff, 40_000), 19_660);
    assert_eq!(scale_reading(50_000, 0xffff, 40_000), 0xffff);
    assert_eq!(scale_reading(u32::MAX, u32::MAX, 1), 0xffff);
    assert_eq!(scale_reading(9_000, 0x1_0000, 11_000), 53_620);
    assert_eq!(scale_reading(11_000, 0x1_0000, 11_000), 0xffff);
    assert_eq!(scale_reading(1_650, 0xffff, 3_300), 32_767);
    assert_eq!(scale_temperature(0), 0);
    assert_eq!(scale_temperature(233_150), 0);
    assert_eq!(scale_temperature(373_150), 0xffff);
    assert_eq!(scale_temperature(400_000), 0xffff);
    assert_eq!(scale_temperature(298_150), 30_426);
    assert_eq!(to_centivolts(8_000), 800);
    assert_eq!(to_centivolts(5_509), 550);
    assert_eq!(to_centivolts(655_350), 0xffff);
    assert_eq!(to_centivolts(u32::MAX), 0xffff);
}

fn context() -> ReadContext {
    let mut inputs = Inputs::new();
    inputs.vin_mv = 12_000;
    inputs.vscap_mv = 9_000;
    inputs.iin_ma = 1_650;
    inputs.mcu_temp_mk = 298_150;
    inputs.pcb_temp_mk = 233_150;
    inputs.pg_5v = true;
    let mut config = RuntimeConfig::defaults();
    config.solo_depleting_timeout_ms = 0x0102_0304;
    ReadContext {
        inputs,
        state: State::Blackout { co_op_enabled: true, entry_time: 77 },
        config,
        host_watchdog_timeout_ms: 5_000,
        flash_writer_state: FlashUpdateState::Updating,
        blocks_received: 0x0203,
        dfu_crc_error: false,
        data_length_error: false,
        ready_for_more: false,
    }
}

#[test]
fn registers_answer_with_current_values() {
    let ctx = context();
    let table: [(u8, Vec<u8>); 25] = [
        (0x01, vec![0x00]),
        (0x02, vec![0xff]),
        (0x03, vec![0xff, 0xff, 0xff, 0xff]),
        (0x04, vec![3, 1, 2, 1]),
        (0x10, vec![1]),
        (0x12, vec![0x13, 0x88]),
        (0x13, vec![0x03, 0x20]),
        (0x14, vec![0x02, 0x26]),
        (0x15, vec![6]),
        (0x16, vec![0]),
        (0x17, vec![0x30]),
        (0x18, vec![1]),
        (0x19, vec![1, 2, 3, 4]),
        (0x20, 19_660u16.to_be_bytes().to_vec()),
        (0x21, 53_620u16.to_be_bytes().to_vec()),
        (0x22, 32_767u16.to_be_bytes().to_vec()),
        (0x23, 30_426u16.to_be_bytes().to_vec()),
        (0x24, vec![0, 0]),
        (0x41, vec![3]),
        (0x42, vec![0x02, 0x03]),
        (0x50, 1.015f32.to_le_bytes().to_vec()),
        (0x51, 1.059f32.to_le_bytes().to_vec()),
        (0x52, 0.811_533_1f32.to_le_bytes().to_vec()),
        (0x00, vec![]),
        (0x60, vec![]),
    ];
    for (register, expected) in table {
        let answer = read_register(register, &ctx);
        if expected.is_empty() {
            assert_eq!(answer, None);
        } else {
            assert_eq!(answer, Some(expected));
        }
    }
    assert_eq!(FW_VERSION, [3, 1, 2, 1]);
}

#[test]
fn registers_that_do_not_exist_answer_nothing() {
    let ctx = context();
    let known = [
        0x01u8, 0x02, 0x03, 0x04, 0x10, 0x12, 0x13, 0x14, 0x15, 0x16, 0x17, 0x18, 0x19, 0x20, 0x21,
        0x22, 0x23, 0x24, 0x41, 0x42, 0x50, 0x51, 0x52,
    ];
    for register in 0..=255u8 {
        assert_eq!(read_register(register, &ctx).is_some(), known.contains(&register));
    }
}

#[test]
fn update_errors_show_in_the_status_register() {
    let mut ctx = context();
    ctx.dfu_crc_error = true;
    assert_eq!(read_register(0x41, &ctx), Some(vec![5]));
    ctx.dfu_crc_error = false;
    ctx.data_length_error = true;
    assert_eq!(read_register(0x41, &ctx), Some(vec![6]));
    ctx.data_length_error = false;
    ctx.ready_for_more = true;
    assert_eq!(read_register(0x41, &ctx), Some(vec![2]));
    ctx.inputs.pg_5v = false;
    ctx.config.auto_restart = false;
    assert_eq!(read_register(0x10, &ctx), Some(vec![0]));
    assert_eq!(read_register(0x18, &ctx), Some(vec![0]));
}

fn ping() -> HostRequest {
    HostRequest::StateMachine(StateMachineEvents::HostWatchdogPing)
}

#[test]
fn every_kind_of_transaction_is_followed_by_one_ping() {
    let ctx = context();
    let mut state = I2cSecondary::new();
    assert_eq!(
        state.handle_transaction(&Transaction::GeneralCall, &ctx),
        Reply { answer: None, requests: vec![ping()] }
    );
    assert_eq!(
        state.handle_transaction(&Transaction::Failed, &ctx),
        Reply { answer: None, requests: vec![ping()] }
    );
    assert_eq!(
        state.handle_transaction(&Transaction::Read, &ctx),
        Reply { answer: Some(vec![0]), requests: vec![ping()] }
    );
    assert_eq!(
        state.handle_transaction(&Transaction::WriteRead(0x15), &ctx),
        Reply { answer: Some(vec![6]), requests: vec![ping()] }
    );
    assert_eq!(
        state.handle_transaction(&Transaction::WriteRead(0x99), &ctx),
        Reply { answer: None, requests: vec![ping()] }
    );
    assert_eq!(state, I2cSecondary::new());
}

#[test]
fn what_a_write_asks_for_comes_before_the_ping() {
    let ctx = context();
    let mut state = I2cSecondary::new();
    assert_eq!(
        state.handle_transaction(&Transaction::Write(&[0x30, 0x00]), &ctx),
        Reply {
            answer: None,
            requests: vec![HostRequest::StateMachine(StateMachineEvents::Shutdown), ping()]
        }
    );
    assert_eq!(
        state.handle_transaction(&Transaction::Write(&[0x12, 0x13, 0x88]), &ctx),
        Reply {
            answer: None,
            requests: vec![
                HostRequest::StateMachine(StateMachineEvents::SetHostWatchdogTimeout(5000)),
                ping()
            ]
        }
    );
    assert_eq!(state.host_watchdog_timeout_ms, 5000);
    assert_eq!(
        state.handle_transaction(&Transaction::Write(&[0x17, 0x40]), &ctx),
        Reply { answer: None, requests: vec![HostRequest::LedBrightness(0x40), ping()] }
    );
    let block = block_message(7, &[1, 2, 3, 4]);
    assert_eq!(
        state.handle_transaction(&Transaction::Write(&block), &ctx),
        Reply {
            answer: None,
            requests: vec![
                HostRequest::Flash(FlashWriteCommand::WriteBlock {
                    block_num: 7,
                    data: vec![1, 2, 3, 4]
                }),
                ping()
            ]
        }
    );
}

#[test]
fn a_refused_write_is_a_sign_of_life_all_the_same() {
    let ctx = context();
    let only_ping = Reply { answer: None, requests: vec![ping()] };
    let scale = 1.25f32.to_le_bytes();
    let mut bad_block = block_message(1, &[9, 9, 9]);
    bad_block[10] ^= 0x01;
    let refused: [&[u8]; 10] = [
        &[],
        &[0x30],
        &[0x40, 0x00, 0x01, 0x00],
        &[0x43, 1, 2, 3, 4, 5, 6, 7, 8],
        &bad_block,
        &[0x50, scale[0], scale[1], scale[2], scale[3]],
        &[0x51, scale[0]],
        &[0x52, scale[0], scale[1], scale[2], scale[3], 0, 0],
        &[0x12, 0x13],
        &[0x99, 0x00],
    ];
    for bytes in refused {
        let mut state = I2cSecondary::new();
        assert_eq!(state.handle_transaction(&Transaction::Write(bytes), &ctx), only_ping);
    }

    let mut state =
        I2cSecondary { dfu_crc_error: true, data_length_error: false, host_watchdog_timeout_ms: 0 };
    assert_eq!(state.handle_transaction(&Transaction::Write(&[0x44, 0x00]), &ctx), only_ping);
    let good_block = block_message(1, &[9, 9, 9]);
    assert_eq!(state.handle_transaction(&Transaction::Write(&good_block), &ctx), only_ping);
    assert!(state.dfu_crc_error);
}

#[test]
fn a_write_to_the_power_register_looks_at_the_rail_in_the_context() {
    let mut ctx = context();
    let mut state = I2cSecondary::new();
    assert_eq!(
        state.handle_transaction(&Transaction::Write(&[0x10, 0x00]), &ctx).requests,
        vec![HostRequest::StateMachine(StateMachineEvents::Off), ping()]
    );
    ctx.inputs.pg_5v = false;
    assert_eq!(
        state.handle_transaction(&Transaction::Write(&[0x10, 0x00]), &ctx).requests,
        vec![ping()]
    );
}
