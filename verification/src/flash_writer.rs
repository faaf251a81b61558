//! The bookkeeping of a firmware update: which commands are accepted in
//! which state, what they ask of the flash, and what the result of each
//! flash operation does to the shared status.

use vstd::prelude::*;
use crate::config::{FLASH_ERASE_BLOCK_SIZE, FLASH_WRITE_BLOCK_SIZE};

verus! {

/// How far an update has come.
#[derive(Clone, Copy, Debug, PartialEq, Eq, Structural)]
pub enum FlashUpdateState {
    Idle,
    Preparing,
    Updating,
    ReadyToCommit,
    WriteError,
    ProtocolError,
    Complete,
}

/// A command for the flash writer.
#[derive(Clone, Debug, PartialEq, Eq)]
pub enum FlashWriteCommand {
    StartUpdate { total_size: u32 },
    WriteBlock { block_num: u16, data: Vec<u8> },
    Commit,
    Abort,
}

/// A command as a plain value.
pub enum CommandView {
    StartUpdate { total_size: u32 },
    WriteBlock { block_num: u16, data: Seq<u8> },
    Commit,
    Abort,
}

impl View for FlashWriteCommand {
    type V = CommandView;

    open spec fn view(&self) -> CommandView {
        match *self {
            FlashWriteCommand::StartUpdate { total_size } => CommandView::StartUpdate {
                total_size,
            },
            FlashWriteCommand::WriteBlock { block_num, data } => CommandView::WriteBlock {
                block_num,
                data: data@,
            },
            FlashWriteCommand::Commit => CommandView::Commit,
            FlashWriteCommand::Abort => CommandView::Abort,
        }
    }
}

/// The status that the flash writer shares with the rest of the firmware.
#[derive(Clone, Debug, PartialEq, Eq)]
pub struct WriterStatus {
    pub state: FlashUpdateState,
    pub blocks_received: u16,
    pub offset: u32,
    pub total_size: u32,
    pub total_num_blocks: u16,
    pub error_details: Option<String>,
}

/// The status as a plain value.
pub struct StatusView {
    pub state: FlashUpdateState,
    pub blocks_received: u16,
    pub offset: u32,
    pub total_size: u32,
    pub total_num_blocks: u16,
    pub error_details: Option<Seq<char>>,
}

impl View for WriterStatus {
    type V = StatusView;

    open spec fn view(&self) -> StatusView {
        StatusView {
            state: self.state,
            blocks_received: self.blocks_received,
            offset: self.offset,
            total_size: self.total_size,
            total_num_blocks: self.total_num_blocks,
            error_details: match self.error_details {
                Some(details) => Some(details@),
                None => None,
            },
        }
    }
}

/// What the flash writer is to do with the flash.
#[derive(Clone, Debug, PartialEq, Eq)]
pub enum FlashOperation {
    /// Nothing.
    Nothing,
    /// Erase the update partition, then report with
    /// [`WriterStatus::prepared`].
    Prepare,
    /// Write `data` at `offset` of the update partition, then report with
    /// [`WriterStatus::block_written`].
    Write { offset: u32, data: Vec<u8> },
    /// Mark the update as ready to be swapped in, then report with
    /// [`WriterStatus::committed`].
    MarkUpdated,
}

/// A flash operation as a plain value.
pub enum OperationView {
    Nothing,
    Prepare,
    Write { offset: u32, data: Seq<u8> },
    MarkUpdated,
}

impl View for FlashOperation {
    type V = OperationView;

    open spec fn view(&self) -> OperationView {
        match *self {
            FlashOperation::Nothing => OperationView::Nothing,
            FlashOperation::Prepare => OperationView::Prepare,
            FlashOperation::Write { offset, data } => OperationView::Write { offset, data: data@ },
            FlashOperation::MarkUpdated => OperationView::MarkUpdated,
        }
    }
}

/// The status with no update under way.
pub open spec fn idle_status() -> StatusView {
    StatusView {
        state: FlashUpdateState::Idle,
        blocks_received: 0,
        offset: 0,
        total_size: 0,
        total_num_blocks: 0,
        error_details: None,
    }
}

/// The number of blocks that `total_size` bytes take, as the sixteen bits
/// that the status holds of it.
pub open spec fn block_count(total_size: u32) -> u16 {
    (((total_size + FLASH_WRITE_BLOCK_SIZE - 1) / (FLASH_WRITE_BLOCK_SIZE as int)) % 0x1_0000) as u16
}

/// Where block `block_num` lies in the update partition.
pub open spec fn block_offset(block_num: u16) -> u32 {
    (FLASH_WRITE_BLOCK_SIZE * block_num) as u32
}

/// Whether `command` is out of place in `state`.
pub open spec fn violates_protocol(state: FlashUpdateState, command: CommandView) -> bool {
    match command {
        CommandView::StartUpdate { .. } => false,
        CommandView::Abort => false,
        CommandView::WriteBlock { .. } => state != FlashUpdateState::Updating,
        CommandView::Commit => state != FlashUpdateState::ReadyToCommit,
    }
}

/// What is recorded when a command is out of place in `state`.
pub open spec fn violation_message(state: FlashUpdateState) -> Seq<char> {
    match state {
        FlashUpdateState::Idle => "Invalid request in idle state"@,
        FlashUpdateState::Complete => "Invalid request in idle state"@,
        FlashUpdateState::Updating => "Invalid request in updating state"@,
        FlashUpdateState::ReadyToCommit => "Invalid request in ready to commit state"@,
        _ => "Invalid request in error state"@,
    }
}

/// The status right after `command` has been taken up.
pub open spec fn command_status(status: StatusView, command: CommandView) -> StatusView {
    match command {
        CommandView::StartUpdate { total_size } => StatusView {
            state: FlashUpdateState::Preparing,
            blocks_received: 0,
            offset: 0,
            total_size,
            total_num_blocks: block_count(total_size),
            error_details: None,
        },
        CommandView::Abort => idle_status(),
        _ => if violates_protocol(status.state, command) {
            StatusView {
                state: FlashUpdateState::ProtocolError,
                error_details: Some(violation_message(status.state)),
                ..status
            }
        } else {
            status
        },
    }
}

/// What `command` asks of the flash when it arrives in `state`.
pub open spec fn command_operation(state: FlashUpdateState, command: CommandView) -> OperationView {
    match command {
        CommandView::StartUpdate { .. } => OperationView::Prepare,
        CommandView::Abort => OperationView::Nothing,
        CommandView::WriteBlock { block_num, data } => if state == FlashUpdateState::Updating {
            OperationView::Write { offset: block_offset(block_num), data }
        } else {
            OperationView::Nothing
        },
        CommandView::Commit => if state == FlashUpdateState::ReadyToCommit {
            OperationView::MarkUpdated
        } else {
            OperationView::Nothing
        },
    }
}

/// How much of the update partition is erased in one go when `remaining`
/// bytes are still to be erased.
pub open spec fn erase_chunk(remaining: usize) -> u32 {
    if remaining < FLASH_ERASE_BLOCK_SIZE {
        remaining as u32
    } else {
        FLASH_ERASE_BLOCK_SIZE as u32
    }
}

/// Computes [`erase_chunk`].
pub fn next_erase_chunk(remaining: usize) -> (chunk: u32)
    ensures
        chunk == erase_chunk(remaining),
        chunk <= remaining,
        remaining > 0 ==> chunk > 0,
{
    if remaining < FLASH_ERASE_BLOCK_SIZE {
        remaining as u32
    } else {
        FLASH_ERASE_BLOCK_SIZE as u32
    }
}

/// Computes [`block_count`].
pub fn num_blocks_for(total_size: u32) -> (count: u16)
    ensures
        count == block_count(total_size),
{
    let size: u64 = total_size as u64;
    let blocks: u64 = (size + (FLASH_WRITE_BLOCK_SIZE as u64) - 1) / (FLASH_WRITE_BLOCK_SIZE as u64);
    (blocks % 0x1_0000) as u16
}

/// Computes [`block_offset`].
pub fn offset_of_block(block_num: u16) -> (offset: u32)
    ensures
        offset == block_offset(block_num),
{
    assert(FLASH_WRITE_BLOCK_SIZE * block_num <= 4096 * 0xffff) by (nonlinear_arith)
        requires
            FLASH_WRITE_BLOCK_SIZE == 4096,
            block_num <= 0xffff,
    ;
    (FLASH_WRITE_BLOCK_SIZE as u32) * (block_num as u32)
}

impl WriterStatus {
    /// Whether the counters fit together: the offset is within the blocks
    /// received, and while blocks are awaited at least one is missing.
    pub open spec fn wf(&self) -> bool {
        &&& self.offset <= self.blocks_received * FLASH_WRITE_BLOCK_SIZE
        &&& self.state == FlashUpdateState::Updating || self.state == FlashUpdateState::Preparing
            ==> self.blocks_received == 0 || self.blocks_received < self.total_num_blocks
    }

    /// Computes [`Self::wf`].
    pub fn is_wf(&self) -> (ok: bool)
        ensures
            ok == self.wf(),
    {
        let reach: u64 = (self.blocks_received as u64) * (FLASH_WRITE_BLOCK_SIZE as u64);
        let awaiting = match self.state {
            FlashUpdateState::Updating => true,
            FlashUpdateState::Preparing => true,
            _ => false,
        };
        (self.offset as u64) <= reach && (!awaiting || self.blocks_received == 0
            || self.blocks_received < self.total_num_blocks)
    }

    /// The status with no update under way.
    pub fn new() -> (status: WriterStatus)
        ensures
            status@ == idle_status(),
            status.wf(),
    {
        WriterStatus {
            state: FlashUpdateState::Idle,
            blocks_received: 0,
            offset: 0,
            total_size: 0,
            total_num_blocks: 0,
            error_details: None,
        }
    }

    /// Back to no update under way.
    pub fn abort_update(&mut self)
        ensures
            final(self)@ == idle_status(),
            final(self).wf(),
    {
        self.state = FlashUpdateState::Idle;
        self.blocks_received = 0;
        self.offset = 0;
        self.total_size = 0;
        self.total_num_blocks = 0;
        self.error_details = None;
    }

    /// Records the start of an update of `total_size` bytes in `num_blocks`
    /// blocks; the update partition is to be erased next.
    pub fn start_update(&mut self, total_size: u32, num_blocks: u16)
        ensures
            final(self)@ == (StatusView {
                state: FlashUpdateState::Preparing,
                blocks_received: 0,
                offset: 0,
                total_size,
                total_num_blocks: num_blocks,
                error_details: None,
            }),
            final(self).wf(),
    {
        self.state = FlashUpdateState::Preparing;
        self.blocks_received = 0;
        self.offset = 0;
        self.total_size = total_size;
        self.total_num_blocks = num_blocks;
        self.error_details = None;
    }

    /// Takes up `command`: updates the status and says what is to be done
    /// with the flash. A command that is out of place in the current state
    /// is recorded as a protocol error and asks for nothing.
    pub fn on_command(&mut self, command: FlashWriteCommand) -> (operation: FlashOperation)
        requires
            old(self).wf(),
        ensures
            final(self)@ == command_status(old(self)@, command@),
            operation@ == command_operation(old(self)@.state, command@),
            final(self).wf(),
    {
        let state = self.state;
        match command {
            FlashWriteCommand::StartUpdate { total_size } => {
                self.start_update(total_size, num_blocks_for(total_size));
                FlashOperation::Prepare
            },
            FlashWriteCommand::Abort => {
                self.abort_update();
                FlashOperation::Nothing
            },
            FlashWriteCommand::WriteBlock { block_num, data } => {
                match state {
                    FlashUpdateState::Updating => FlashOperation::Write {
                        offset: offset_of_block(block_num),
                        data,
                    },
                    _ => {
                        self.reject(state);
                        FlashOperation::Nothing
                    },
                }
            },
            FlashWriteCommand::Commit => {
                match state {
                    FlashUpdateState::ReadyToCommit => FlashOperation::MarkUpdated,
                    _ => {
                        self.reject(state);
                        FlashOperation::Nothing
                    },
                }
            },
        }
    }

    /// Records a command that was out of place in `state`.
    fn reject(&mut self, state: FlashUpdateState)
        ensures
            final(self)@ == (StatusView {
                state: FlashUpdateState::ProtocolError,
                error_details: Some(violation_message(state)),
                ..old(self)@
            }),
            final(self).wf() == (old(self).offset <= old(self).blocks_received
                * FLASH_WRITE_BLOCK_SIZE),
    {
        let message = match state {
            FlashUpdateState::Idle => "Invalid request in idle state",
            FlashUpdateState::Complete => "Invalid request in idle state",
            FlashUpdateState::Updating => "Invalid request in updating state",
            FlashUpdateState::ReadyToCommit => "Invalid request in ready to commit state",
            _ => "Invalid request in error state",
        };
        self.state = FlashUpdateState::ProtocolError;
        self.error_details = Some(message.to_owned());
    }

    /// Records how erasing the update partition went: blocks are taken from
    /// now on, or the error is kept.
    pub fn prepared(&mut self, result: Result<(), String>)
        requires
            old(self).wf(),
            old(self).state == FlashUpdateState::Preparing,
        ensures
            final(self).wf(),
            final(self)@ == match result {
                Ok(_) => StatusView { state: FlashUpdateState::Updating, ..old(self)@ },
                Err(details) => StatusView {
                    state: FlashUpdateState::WriteError,
                    error_details: Some(details@),
                    ..old(self)@
                },
            },
    {
        match result {
            Ok(_) => {
                self.state = FlashUpdateState::Updating;
            },
            Err(details) => {
                self.state = FlashUpdateState::WriteError;
                self.error_details = Some(details);
            },
        }
    }

    /// Records how writing a block of `data_len` bytes went: the block is
    /// counted, and with the last block the update is ready to commit; or
    /// the error is kept.
    pub fn block_written(&mut self, result: Result<(), String>, data_len: usize)
        requires
            old(self).wf(),
            old(self).state == FlashUpdateState::Updating,
            data_len <= FLASH_WRITE_BLOCK_SIZE,
        ensures
            final(self)@ == match result {
                Ok(_) => StatusView {
                    state: if old(self).blocks_received + 1 >= old(self).total_num_blocks {
                        FlashUpdateState::ReadyToCommit
                    } else {
                        FlashUpdateState::Updating
                    },
                    blocks_received: (old(self).blocks_received + 1) as u16,
                    offset: (old(self).offset + data_len) as u32,
                    ..old(self)@
                },
                Err(details) => StatusView {
                    state: FlashUpdateState::WriteError,
                    error_details: Some(details@),
                    ..old(self)@
                },
            },
            final(self).wf(),
    {
        match result {
            Ok(_) => {
                let ghost blocks = self.blocks_received as int;
                let ghost offset = self.offset as int;
                assert(offset + data_len <= (blocks + 1) * FLASH_WRITE_BLOCK_SIZE <= 0xffff * 4096)
                    by (nonlinear_arith)
                    requires
                        0 <= blocks < 0xffff,
                        offset <= blocks * FLASH_WRITE_BLOCK_SIZE,
                        data_len <= FLASH_WRITE_BLOCK_SIZE,
                        FLASH_WRITE_BLOCK_SIZE == 4096,
                ;
                self.blocks_received += 1;
                self.offset += data_len as u32;
                if self.blocks_received >= self.total_num_blocks {
                    self.state = FlashUpdateState::ReadyToCommit;
                }
            },
            Err(details) => {
                self.state = FlashUpdateState::WriteError;
                self.error_details = Some(details);
            },
        }
    }

    /// Records how marking the update went. The update counts as complete
    /// either way; a failure leaves its note in the details.
    pub fn committed(&mut self, succeeded: bool)
        requires
            old(self).wf(),
        ensures
            final(self).wf(),
            final(self)@ == if succeeded {
                StatusView { state: FlashUpdateState::Complete, ..idle_status() }
            } else {
                StatusView {
                    state: FlashUpdateState::Complete,
                    error_details: Some("Failed to commit update"@),
                    ..old(self)@
                }
            },
    {
        if succeeded {
            self.blocks_received = 0;
            self.offset = 0;
            self.total_size = 0;
            self.total_num_blocks = 0;
            self.error_details = None;
        } else {
            self.error_details = Some("Failed to commit update".to_owned());
        }
        self.state = FlashUpdateState::Complete;
    }
}

} // verus!
