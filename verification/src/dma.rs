//! Direct memory access: how a channel is programmed for a circular transfer.

use vstd::prelude::*;

verus! {

/// Priority of a channel among the channels of one controller.
#[derive(Clone, Copy, Debug, PartialEq, Eq, Structural)]
pub enum Priority {
    Low,
    Medium,
    High,
    VeryHigh,
}

/// Width of one transferred item.
#[derive(Clone, Copy, Debug, PartialEq, Eq, Structural)]
pub enum Width {
    Bits8,
    Bits16,
    Bits32,
}

/// Which way the items go.
#[derive(Clone, Copy, Debug, PartialEq, Eq, Structural)]
pub enum Direction {
    /// Read from the peripheral, write to memory
    FromPeripheral,
    /// Read from memory, write to the peripheral
    FromMemory,
}

/// The fields of a channel's configuration register that a transfer sets. The
/// other bits of the register stay as they are.
#[derive(Clone, Copy, Debug, PartialEq, Eq, Structural)]
pub struct ChannelConfig {
    /// Memory to memory mode
    pub mem2mem: bool,
    pub priority: Priority,
    /// Width of an item in memory
    pub memory_size: Width,
    /// Width of an item at the peripheral
    pub peripheral_size: Width,
    /// The memory address moves on after each item
    pub memory_increment: bool,
    /// The peripheral address moves on after each item
    pub peripheral_increment: bool,
    /// After the last item the transfer starts over
    pub circular: bool,
    pub direction: Direction,
    /// The channel runs
    pub enable: bool,
}

/// One step of programming a channel. The steps of a list are performed in its
/// order.
#[derive(Clone, Copy, Debug, PartialEq, Eq, Structural)]
pub enum Step {
    /// Write the memory address register
    SetMemoryAddress(u32),
    /// Write the number of items to transfer
    SetTransferCount(u16),
    /// Write the peripheral address register
    SetPeripheralAddress(u32),
    /// Full fence: no access to the buffer that stands before it may be moved
    /// behind it
    Fence,
    /// Set these fields of the configuration register
    Configure(ChannelConfig),
}

/// Where a double buffer lies: two segments of `segment_len` bytes each, one
/// behind the other, the first at `address`.
#[derive(Clone, Copy, Debug, PartialEq, Eq, Structural)]
pub struct DoubleBuffer {
    pub address: u32,
    pub segment_len: usize,
}

/// Longest segment of a double buffer: the transfer counter has 16 bits and
/// counts both segments.
pub const MAX_SEGMENT_LEN: usize = 0x7FFF;

/// The configuration of a channel that streams bytes from a peripheral into a
/// double buffer for ever.
pub open spec fn circular_config() -> ChannelConfig {
    ChannelConfig {
        mem2mem: false,
        priority: Priority::High,
        memory_size: Width::Bits8,
        peripheral_size: Width::Bits8,
        memory_increment: true,
        peripheral_increment: false,
        circular: true,
        direction: Direction::FromPeripheral,
        enable: true,
    }
}

/// The steps that start a circular transfer from the register at `peripheral`
/// into `buffer`: the addresses and the count of one full cycle, which is both
/// segments; then the fence; and only then the configuration that lets the
/// channel run.
pub open spec fn circular_program(buffer: DoubleBuffer, peripheral: u32) -> Seq<Step> {
    seq![
        Step::SetMemoryAddress(buffer.address),
        Step::SetTransferCount((2 * buffer.segment_len) as u16),
        Step::SetPeripheralAddress(peripheral),
        Step::Fence,
        Step::Configure(circular_config()),
    ]
}

/// Whether the step lets the channel run.
pub open spec fn starts_channel(step: Step) -> bool {
    step matches Step::Configure(config) && config.enable
}

/// In the steps of a circular transfer the fence stands behind the step that
/// names the buffer, and the one step that lets the channel run stands behind
/// the fence: the channel cannot be seen running before the buffer is in place.
pub proof fn lemma_fence_before_start(buffer: DoubleBuffer, peripheral: u32)
    ensures
        ({
            let program = circular_program(buffer, peripheral);
            forall|i: int, j: int, k: int|
                0 <= i < program.len() && 0 <= j < program.len() && 0 <= k < program.len()
                    && program[i] is SetMemoryAddress && program[j] is Fence && starts_channel(
                    program[k],
                ) ==> i < j < k
        }),
        exists|k: int|
            0 <= k < circular_program(buffer, peripheral).len() && starts_channel(
                #[trigger] circular_program(buffer, peripheral)[k],
            ),
{
    let program = circular_program(buffer, peripheral);
    assert(starts_channel(program[4]));
}

/// The steps of a circular transfer name the first segment as the place to
/// write to, count both segments, so twice the length of one, and read from
/// the peripheral.
pub proof fn lemma_circular_program_shape(buffer: DoubleBuffer, peripheral: u32)
    requires
        buffer.segment_len <= MAX_SEGMENT_LEN,
    ensures
        circular_program(buffer, peripheral).len() == 5,
        circular_program(buffer, peripheral)[0] == Step::SetMemoryAddress(buffer.address),
        circular_program(buffer, peripheral)[1] matches Step::SetTransferCount(count) && count
            == 2 * buffer.segment_len,
        circular_program(buffer, peripheral)[2] == Step::SetPeripheralAddress(peripheral),
        circular_program(buffer, peripheral)[4] matches Step::Configure(config)
            && config.direction == Direction::FromPeripheral && config.circular
            && config.memory_increment && !config.peripheral_increment && config.priority
            == Priority::High,
{
}

/// A circular transfer under way: the channel and the buffer that it fills,
/// held together until the transfer is taken apart again.
pub struct CircBuffer<BUFFER, CHANNEL> {
    buffer: BUFFER,
    channel: CHANNEL,
}

impl<BUFFER, CHANNEL> CircBuffer<BUFFER, CHANNEL> {
    /// The buffer that the transfer fills.
    pub closed spec fn buffer(&self) -> BUFFER {
        self.buffer
    }

    /// The channel that runs the transfer.
    pub closed spec fn channel(&self) -> CHANNEL {
        self.channel
    }

    /// Joins a buffer and the channel that was programmed to fill it.
    pub fn new(buffer: BUFFER, channel: CHANNEL) -> (r: Self)
        ensures
            r.buffer() == buffer,
            r.channel() == channel,
    {
        CircBuffer { buffer, channel }
    }

    /// Takes the transfer apart. The caller has stopped the channel.
    pub fn release(self) -> (r: (BUFFER, CHANNEL))
        ensures
            r.0 == self.buffer(),
            r.1 == self.channel(),
    {
        (self.buffer, self.channel)
    }
}

} // verus!
