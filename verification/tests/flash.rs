use halpi_power::flash_layout::{
    get_bootloader_appdata_range, get_bootloader_appdata_size, get_bootloader_dfu_range,
    get_bootloader_dfu_size, get_bootloader_state_range, get_bootloader_state_size, FlashLayout,
    PAGE_SIZE,
};
use halpi_power::flash_writer::{
    next_erase_chunk, num_blocks_for, offset_of_block, FlashOperation, FlashUpdateState, FlashWriteCommand,
    WriterStatus,
};

#[test]
fn layout_reports_ranges_and_sizes() {
    let layout =
        FlashLayout::new(0x6000..0x7000, 0x10_0000..0x1f_0000, 0x3f_0000..0x40_0000).unwrap();
    assert_eq!(get_bootloader_state_range(&layout), 0x6000..0x7000);
    assert_eq!(get_bootloader_dfu_range(&layout), 0x10_0000..0x1f_0000);
    assert_eq!(get_bootloader_appdata_range(&layout), 0x3f_0000..0x40_0000);
    assert_eq!(get_bootloader_state_size(&layout), PAGE_SIZE);
    assert_eq!(get_bootloader_dfu_size(&layout), 0xf_0000);
    assert_eq!(get_bootloader_appdata_size(&layout), 0x1_0000);
}

#[test]
fn layout_may_hold_empty_ranges() {
    let layout = FlashLayout::new(5..5, 0..u32::MAX, u32::MAX..u32::MAX).unwrap();
    assert_eq!(get_bootloader_state_size(&layout), 0);
    assert_eq!(get_bootloader_dfu_size(&layout), u32::MAX);
    assert_eq!(get_bootloader_appdata_size(&layout), 0);
}

#[test]
fn layout_refuses_a_range_that_ends_before_it_starts() {
    assert!(FlashLayout::new(2..1, 0..1, 0..1).is_none());
    assert!(FlashLayout::new(0..1, 2..1, 0..1).is_none());
    assert!(FlashLayout::new(0..1, 0..1, 2..1).is_none());
}

#[test]
fn block_counts_round_up() {
    assert_eq!(num_blocks_for(0), 0);
    assert_eq!(num_blocks_for(1), 1);
    assert_eq!(num_blocks_for(4096), 1);
    assert_eq!(num_blocks_for(4097), 2);
    assert_eq!(num_blocks_for(300_000), 74);
    assert_eq!(num_blocks_for(65_535 * 4096), 65_535);
    assert_eq!(num_blocks_for(65_535 * 4096 + 1), 0);
    assert_eq!(num_blocks_for(u32::MAX), 0);
    assert_eq!(offset_of_block(0), 0);
    assert_eq!(offset_of_block(3), 12_288);
    assert_eq!(offset_of_block(u16::MAX), 268_431_360);
}

fn idle() -> WriterStatus {
    WriterStatus {
        state: FlashUpdateState::Idle,
        blocks_received: 0,
        offset: 0,
        total_size: 0,
        total_num_blocks: 0,
        error_details: None,
    }
}

#[test]
fn new_status_is_idle() {
    assert_eq!(WriterStatus::new(), idle());
}

#[test]
fn an_update_runs_from_start_to_commit() {
    let mut status = WriterStatus::new();
    let op = status.on_command(FlashWriteCommand::StartUpdate { total_size: 5000 });
    assert_eq!(op, FlashOperation::Prepare);
    assert_eq!(
        status,
        WriterStatus {
            state: FlashUpdateState::Preparing,
            total_size: 5000,
            total_num_blocks: 2,
            ..idle()
        }
    );
    status.prepared(Ok(()));
    assert_eq!(status.state, FlashUpdateState::Updating);

    let op = status.on_command(FlashWriteCommand::WriteBlock { block_num: 0, data: vec![7; 4096] });
    assert_eq!(op, FlashOperation::Write { offset: 0, data: vec![7; 4096] });
    assert_eq!(status.state, FlashUpdateState::Updating);
    status.block_written(Ok(()), 4096);
    assert_eq!(status.state, FlashUpdateState::Updating);
    assert_eq!((status.blocks_received, status.offset), (1, 4096));

    let op = status.on_command(FlashWriteCommand::WriteBlock { block_num: 1, data: vec![8; 904] });
    assert_eq!(op, FlashOperation::Write { offset: 4096, data: vec![8; 904] });
    status.block_written(Ok(()), 904);
    assert_eq!(status.state, FlashUpdateState::ReadyToCommit);
    assert_eq!((status.blocks_received, status.offset), (2, 5000));

    let op = status.on_command(FlashWriteCommand::Commit);
    assert_eq!(op, FlashOperation::MarkUpdated);
    assert_eq!(status.state, FlashUpdateState::ReadyToCommit);
    status.committed(true);
    assert_eq!(status, WriterStatus { state: FlashUpdateState::Complete, ..idle() });

    let op = status.on_command(FlashWriteCommand::StartUpdate { total_size: 1 });
    assert_eq!(op, FlashOperation::Prepare);
    assert_eq!(status.total_num_blocks, 1);
}

#[test]
fn abort_is_always_accepted() {
    for state in [
        FlashUpdateState::Idle,
        FlashUpdateState::Preparing,
        FlashUpdateState::Updating,
        FlashUpdateState::ReadyToCommit,
        FlashUpdateState::WriteError,
        FlashUpdateState::ProtocolError,
        FlashUpdateState::Complete,
    ] {
        let mut status = WriterStatus {
            state,
            total_size: 9,
            total_num_blocks: 1,
            error_details: Some("x".to_string()),
            ..idle()
        };
        assert_eq!(status.on_command(FlashWriteCommand::Abort), FlashOperation::Nothing);
        assert_eq!(status, idle());
        let mut status = WriterStatus { state, error_details: Some("x".to_string()), ..idle() };
        let op = status.on_command(FlashWriteCommand::StartUpdate { total_size: 8192 });
        assert_eq!(op, FlashOperation::Prepare);
        assert_eq!(
            status,
            WriterStatus {
                state: FlashUpdateState::Preparing,
                total_size: 8192,
                total_num_blocks: 2,
                ..idle()
            }
        );
    }
}

fn rejected(state: FlashUpdateState, command: FlashWriteCommand) -> Option<String> {
    let mut status = WriterStatus { state, total_size: 77, total_num_blocks: 1, ..idle() };
    assert_eq!(status.on_command(command), FlashOperation::Nothing);
    assert_eq!(status.state, FlashUpdateState::ProtocolError);
    assert_eq!(status.total_size, 77);
    status.error_details
}

#[test]
fn commands_out_of_place_are_protocol_errors() {
    let block = || FlashWriteCommand::WriteBlock { block_num: 0, data: vec![1] };
    let idle_message = Some("Invalid request in idle state".to_string());
    let error_message = Some("Invalid request in error state".to_string());
    assert_eq!(rejected(FlashUpdateState::Idle, block()), idle_message);
    assert_eq!(rejected(FlashUpdateState::Idle, FlashWriteCommand::Commit), idle_message);
    assert_eq!(rejected(FlashUpdateState::Complete, block()), idle_message);
    assert_eq!(rejected(FlashUpdateState::Complete, FlashWriteCommand::Commit), idle_message);
    assert_eq!(
        rejected(FlashUpdateState::Updating, FlashWriteCommand::Commit),
        Some("Invalid request in updating state".to_string())
    );
    assert_eq!(
        rejected(FlashUpdateState::ReadyToCommit, block()),
        Some("Invalid request in ready to commit state".to_string())
    );
    for state in [
        FlashUpdateState::Preparing,
        FlashUpdateState::WriteError,
        FlashUpdateState::ProtocolError,
    ] {
        assert_eq!(rejected(state, block()), error_message);
        assert_eq!(rejected(state, FlashWriteCommand::Commit), error_message);
    }
}

#[test]
fn flash_failures_are_kept_in_the_status() {
    let mut status = WriterStatus::new();
    status.on_command(FlashWriteCommand::StartUpdate { total_size: 10_000 });
    status.prepared(Err("Flash erase failed".to_string()));
    assert_eq!(status.state, FlashUpdateState::WriteError);
    assert_eq!(status.error_details, Some("Flash erase failed".to_string()));
    assert_eq!(status.total_num_blocks, 3);

    let mut status = WriterStatus::new();
    status.on_command(FlashWriteCommand::StartUpdate { total_size: 10_000 });
    status.prepared(Ok(()));
    status.block_written(Err("Flash write failed".to_string()), 4096);
    assert_eq!(status.state, FlashUpdateState::WriteError);
    assert_eq!(status.error_details, Some("Flash write failed".to_string()));
    assert_eq!((status.blocks_received, status.offset), (0, 0));

    let mut status = WriterStatus {
        state: FlashUpdateState::ReadyToCommit,
        blocks_received: 3,
        offset: 10_000,
        total_size: 10_000,
        total_num_blocks: 3,
        error_details: None,
    };
    status.committed(false);
    assert_eq!(
        status,
        WriterStatus {
            state: FlashUpdateState::Complete,
            blocks_received: 3,
            offset: 10_000,
            total_size: 10_000,
            total_num_blocks: 3,
            error_details: Some("Failed to commit update".to_string()),
        }
    );
}

#[test]
fn an_update_of_no_bytes_is_ready_after_one_block() {
    let mut status = WriterStatus::new();
    status.on_command(FlashWriteCommand::StartUpdate { total_size: 0 });
    status.prepared(Ok(()));
    assert_eq!(status.state, FlashUpdateState::Updating);
    status.block_written(Ok(()), 0);
    assert_eq!(status.state, FlashUpdateState::ReadyToCommit);
    assert_eq!((status.blocks_received, status.offset), (1, 0));
}

#[test]
fn the_partition_is_erased_in_chunks_of_a_block() {
    assert_eq!(next_erase_chunk(0), 0);
    assert_eq!(next_erase_chunk(1), 1);
    assert_eq!(next_erase_chunk(4095), 4095);
    assert_eq!(next_erase_chunk(4096), 4096);
    assert_eq!(next_erase_chunk(4097), 4096);
    assert_eq!(next_erase_chunk(usize::MAX), 4096);
    let mut remaining = 10_000usize;
    let mut chunks = Vec::new();
    while remaining > 0 {
        let chunk = next_erase_chunk(remaining);
        chunks.push(chunk);
        remaining -= chunk as usize;
    }
    assert_eq!(chunks, vec![4096, 4096, 1808]);
}

#[test]
fn status_counters_can_be_tested_for_fitting_together() {
    assert!(WriterStatus::new().is_wf());
    let mut status = WriterStatus::new();
    status.on_command(FlashWriteCommand::StartUpdate { total_size: 10_000 });
    assert!(status.is_wf());
    status.prepared(Ok(()));
    status.block_written(Ok(()), 4096);
    assert!(status.is_wf());

    assert!(!WriterStatus { offset: 1, ..idle() }.is_wf());
    assert!(WriterStatus { offset: 4096, blocks_received: 1, ..idle() }.is_wf());
    assert!(!WriterStatus { offset: 4097, blocks_received: 1, ..idle() }.is_wf());
    assert!(WriterStatus {
        offset: 65_535 * 4096,
        blocks_received: 65_535,
        total_num_blocks: 65_535,
        ..idle()
    }
    .is_wf());
    for state in [FlashUpdateState::Updating, FlashUpdateState::Preparing] {
        assert!(!WriterStatus { state, blocks_received: 2, total_num_blocks: 2, ..idle() }.is_wf());
        assert!(WriterStatus { state, blocks_received: 1, total_num_blocks: 2, ..idle() }.is_wf());
        assert!(WriterStatus { state, blocks_received: 0, total_num_blocks: 0, ..idle() }.is_wf());
    }
    assert!(WriterStatus {
        state: FlashUpdateState::ReadyToCommit,
        blocks_received: 2,
        total_num_blocks: 2,
        ..idle()
    }
    .is_wf());
}
