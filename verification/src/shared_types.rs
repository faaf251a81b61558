//! The messages of the firmware update service as the host sees them.

use vstd::prelude::*;

verus! {

/// A command of the update service.
#[derive(Clone, Debug, PartialEq, Eq)]
pub enum FlashUpdateCommand {
    /// Begin an update.
    StartUpdate { num_blocks: u32, total_size: u32, expected_crc32: u32 },
    /// Hand over one block of the firmware.
    UploadBlock { block_num: u32, data: Vec<u8>, block_crc: u32 },
    /// Ask how far the update has come.
    GetStatus,
    /// Make the uploaded firmware the one to start next.
    CommitUpdate,
    /// Give the update up.
    AbortUpdate,
}

/// An answer of the update service.
#[derive(Clone, Debug, PartialEq, Eq)]
pub enum FlashUpdateResponse {
    /// A block has arrived and its checksum has been looked at.
    BlockReceived { success: bool, error_code: Option<u8> },
    /// How far the update has come.
    Status {
        state: FlashUpdateState,
        blocks_written: u32,
        ready_for_more: bool,
        error_details: Option<String>,
    },
    /// A command has been taken.
    Ack { success: bool, error_code: Option<u8> },
}

/// How far an update has come, as the update service reports it.
#[derive(Clone, Copy, Debug, PartialEq, Eq, Structural)]
pub enum FlashUpdateState {
    Idle,
    Updating,
    ReadyToCommit,
    WriteError,
    DataError,
    Complete,
}

} // verus!
