//! Serial

use vstd::prelude::*;
use core::marker::PhantomData;
use crate::dma::{
    circular_program, ChannelConfig, CircBuffer, Direction, DoubleBuffer, Priority, Step, Width,
    MAX_SEGMENT_LEN,
};
use crate::gpio::{PA10, PA2, PA3, PA9, PB6, PB7};
use crate::rcc::{Bus, Clocks};
use crate::retry::WouldBlock;
use crate::time::{Bps, Hertz};

verus! {

/// Interrupt event
#[derive(Clone, Copy, Debug, PartialEq, Eq, Structural)]
pub enum Event {
    /// New data has been received
    Rxne,
    /// New data can be sent
    Txe,
}

/// Serial error
#[derive(Clone, Copy, Debug, PartialEq, Eq, Structural)]
pub enum Error {
    /// Framing error
    Framing,
    /// Noise error
    Noise,
    /// RX buffer overrun
    Overrun,
    /// Parity check error
    Parity,
    /// Kept so that a later fault can be added; the receiver never reports it.
    _Extensible,
}

/// The first serial peripheral.
pub struct USART1;

/// The second serial peripheral.
pub struct USART2;

/// A transmit and receive pin pair that is wired to the peripheral `USART`.
/// A pair without an impl cannot be handed to a [`Serial`].
pub trait Pins<USART> {
    const REMAP: u8;
}

impl Pins<USART1> for (PA9, PA10) {
    const REMAP: u8 = 0;
}

impl Pins<USART1> for (PB6, PB7) {
    const REMAP: u8 = 1;
}

impl Pins<USART2> for (PA2, PA3) {
    const REMAP: u8 = 0;
}

/// The flags of the status register, as one read of it found them.
#[derive(Clone, Copy, Debug, PartialEq, Eq, Structural)]
pub struct Status {
    /// A received frame failed the parity check
    pub parity_error: bool,
    /// A received frame had no stop bit where one was due
    pub framing_error: bool,
    /// Noise was detected on a received frame
    pub noise_error: bool,
    /// A frame arrived while the last one was still unread
    pub overrun_error: bool,
    /// A received byte waits in the data register
    pub data_ready: bool,
    /// The last frame has left the shift register
    pub transmit_complete: bool,
    /// The data register can take the next byte to send
    pub transmit_empty: bool,
}

/// The bits of the first control register that this driver sets.
#[derive(Clone, Copy, Debug, PartialEq, Eq, Structural)]
pub struct Control {
    /// The peripheral is switched on
    pub enable: bool,
    /// The receiver is switched on
    pub receive: bool,
    /// The transmitter is switched on
    pub transmit: bool,
    /// An interrupt is raised when a byte has been received
    pub rxne_interrupt: bool,
    /// An interrupt is raised when the next byte can be sent
    pub txe_interrupt: bool,
}

impl Control {
    /// The register as construction leaves it: peripheral, receiver and
    /// transmitter on, no interrupt asked for.
    pub open spec fn running() -> Control {
        Control {
            enable: true,
            receive: true,
            transmit: true,
            rxne_interrupt: false,
            txe_interrupt: false,
        }
    }

    /// This register with the interrupt for `event` switched on or off, and
    /// every other bit as it was.
    pub open spec fn with_interrupt(self, event: Event, on: bool) -> Control {
        match event {
            Event::Rxne => Control { rxne_interrupt: on, ..self },
            Event::Txe => Control { txe_interrupt: on, ..self },
        }
    }
}

/// One step of bringing a serial peripheral up. The steps of a list are
/// performed in its order.
#[derive(Clone, Copy, Debug, PartialEq, Eq, Structural)]
pub enum Setup {
    /// Open the peripheral's clock gate on the bus
    EnableClock(Bus),
    /// Pull the peripheral's reset line on the bus
    AssertReset(Bus),
    /// Let the peripheral's reset line go
    ReleaseReset(Bus),
    /// Write the baud rate register
    SetDivisor(u32),
    /// Write the first control register whole
    SetControl(Control),
}

/// Smallest divisor that the baud rate generator can work with.
pub const MIN_DIVISOR: u32 = 16;

/// The baud rate divisor for a bus that runs at `bus` and a line that runs at
/// `baud_rate`: how many bus cycles one bit lasts. There is none where the rate
/// is zero or the bus is too slow for it.
pub open spec fn divisor(bus: Hertz, baud_rate: Bps) -> Option<u32> {
    if baud_rate.0 > 0 && bus.0 / baud_rate.0 >= MIN_DIVISOR {
        Some(bus.0 / baud_rate.0)
    } else {
        None
    }
}

/// Computes the baud rate divisor, or tells that the rate is impossible on this
/// bus.
pub fn baud_divisor(bus: Hertz, baud_rate: Bps) -> (r: Option<u32>)
    ensures
        r == divisor(bus, baud_rate),
        r is Some <==> baud_rate.0 > 0 && bus.0 / baud_rate.0 >= 16,
{
    if baud_rate.0 == 0 {
        return None;
    }
    let brr: u32 = bus.0 / baud_rate.0;
    if brr >= MIN_DIVISOR {
        Some(brr)
    } else {
        None
    }
}

/// The steps that bring up a peripheral on `bus` with the divisor `brr`: clock
/// on, reset pulsed, divisor written, and last the control register, which
/// starts the peripheral.
pub open spec fn bring_up(bus: Bus, brr: u32) -> Seq<Setup> {
    seq![
        Setup::EnableClock(bus),
        Setup::AssertReset(bus),
        Setup::ReleaseReset(bus),
        Setup::SetDivisor(brr),
        Setup::SetControl(Control::running()),
    ]
}

/// Serial abstraction
pub struct Serial<USART, PINS> {
    usart: USART,
    pins: PINS,
    control: Control,
}

/// Serial receiver
pub struct Rx<USART> {
    _usart: PhantomData<USART>,
}

/// Serial transmitter
pub struct Tx<USART> {
    _usart: PhantomData<USART>,
}

impl<USART, PINS> Serial<USART, PINS> {
    /// The peripheral that this value owns.
    pub closed spec fn usart(&self) -> USART {
        self.usart
    }

    /// The pins that this value owns.
    pub closed spec fn pins(&self) -> PINS {
        self.pins
    }

    /// What the first control register holds.
    pub closed spec fn spec_control(&self) -> Control {
        self.control
    }

    /// What the first control register holds, for the caller to write there.
    #[verifier::when_used_as_spec(spec_control)]
    pub fn control(&self) -> (r: Control)
        ensures
            r == self.spec_control(),
    {
        self.control
    }

    fn configure(usart: USART, pins: PINS, baud_rate: Bps, bus: Bus, frequency: Hertz) -> (r: (
        Self,
        Vec<Setup>,
    ))
        requires
            divisor(frequency, baud_rate) is Some,
        ensures
            r.0.usart() == usart,
            r.0.pins() == pins,
            r.0.control() == Control::running(),
            r.1@ == bring_up(bus, divisor(frequency, baud_rate)->0),
    {
        let brr: u32 = frequency.0 / baud_rate.0;
        let control = Control {
            enable: true,
            receive: true,
            transmit: true,
            rxne_interrupt: false,
            txe_interrupt: false,
        };
        let mut steps: Vec<Setup> = Vec::new();
        steps.push(Setup::EnableClock(bus));
        steps.push(Setup::AssertReset(bus));
        steps.push(Setup::ReleaseReset(bus));
        steps.push(Setup::SetDivisor(brr));
        steps.push(Setup::SetControl(control));
        assert(steps@ =~= bring_up(bus, brr));
        (Serial { usart, pins, control }, steps)
    }

    /// Starts listening for an interrupt event
    pub fn listen(&mut self, event: Event)
        ensures
            final(self).control() == old(self).control().with_interrupt(event, true),
            final(self).usart() == old(self).usart(),
            final(self).pins() == old(self).pins(),
    {
        match event {
            Event::Rxne => {
                self.control.rxne_interrupt = true;
            },
            Event::Txe => {
                self.control.txe_interrupt = true;
            },
        }
    }

    /// Stops listening for an interrupt event
    pub fn unlisten(&mut self, event: Event)
        ensures
            final(self).control() == old(self).control().with_interrupt(event, false),
            final(self).usart() == old(self).usart(),
            final(self).pins() == old(self).pins(),
    {
        match event {
            Event::Rxne => {
                self.control.rxne_interrupt = false;
            },
            Event::Txe => {
                self.control.txe_interrupt = false;
            },
        }
    }

    /// Splits the `Serial` abstraction into a transmitter and a receiver half
    pub fn split(self) -> (Tx<USART>, Rx<USART>) {
        (Tx { _usart: PhantomData }, Rx { _usart: PhantomData })
    }

    /// Releases the USART peripheral and associated pins
    pub fn free(self) -> (r: (USART, PINS))
        ensures
            r.0 == self.usart(),
            r.1 == self.pins(),
    {
        (self.usart, self.pins)
    }
}

impl<PINS> Serial<USART1, PINS> {
    /// Configures the first USART peripheral to provide serial communication
    ///
    /// The peripheral sits on the high-speed bus and divides that bus's clock.
    /// The steps returned are for the caller to perform, in their order.
    pub fn usart1(usart: USART1, pins: PINS, baud_rate: Bps, clocks: Clocks) -> (r: (
        Self,
        Vec<Setup>,
    )) where PINS: Pins<USART1>
        requires
            divisor(clocks.pclk2, baud_rate) is Some,
        ensures
            r.0.usart() == usart,
            r.0.pins() == pins,
            r.0.control() == Control::running(),
            r.1@ == bring_up(Bus::APB2, divisor(clocks.pclk2, baud_rate)->0),
    {
        Self::configure(usart, pins, baud_rate, Bus::APB2, clocks.pclk2)
    }
}

impl<PINS> Serial<USART2, PINS> {
    /// Configures the second USART peripheral to provide serial communication
    ///
    /// The peripheral sits on the low-speed bus and divides that bus's clock.
    /// The steps returned are for the caller to perform, in their order.
    pub fn usart2(usart: USART2, pins: PINS, baud_rate: Bps, clocks: Clocks) -> (r: (
        Self,
        Vec<Setup>,
    )) where PINS: Pins<USART2>
        requires
            divisor(clocks.pclk1, baud_rate) is Some,
        ensures
            r.0.usart() == usart,
            r.0.pins() == pins,
            r.0.control() == Control::running(),
            r.1@ == bring_up(Bus::APB1R1, divisor(clocks.pclk1, baud_rate)->0),
    {
        Self::configure(usart, pins, baud_rate, Bus::APB1R1, clocks.pclk1)
    }
}

/// What the receiver does after it has seen the status flags.
#[derive(Clone, Copy, Debug, PartialEq, Eq, Structural)]
pub enum RxAction {
    /// Read the receive data register once; the byte read is the result, and
    /// the read clears the ready flag.
    Fetch,
    /// Touch nothing and report the fault.
    Fail(Error),
    /// Touch nothing; nothing has arrived yet.
    WouldBlock,
}

/// What the transmitter does after it has seen the status flags.
#[derive(Clone, Copy, Debug, PartialEq, Eq, Structural)]
pub enum TxAction {
    /// Write the byte to the transmit data register once.
    Store(u8),
    /// Touch nothing; the last byte has not left the data register yet.
    WouldBlock,
}

/// What a read does on the flags `status`. A fault goes before data, and of
/// several faults the first of parity, framing, noise, overrun is reported.
pub open spec fn read_action(status: Status) -> RxAction {
    if status.parity_error {
        RxAction::Fail(Error::Parity)
    } else if status.framing_error {
        RxAction::Fail(Error::Framing)
    } else if status.noise_error {
        RxAction::Fail(Error::Noise)
    } else if status.overrun_error {
        RxAction::Fail(Error::Overrun)
    } else if status.data_ready {
        RxAction::Fetch
    } else {
        RxAction::WouldBlock
    }
}

/// What a write of `byte` does on the flags `status`.
pub open spec fn write_action(status: Status, byte: u8) -> TxAction {
    if status.transmit_empty {
        TxAction::Store(byte)
    } else {
        TxAction::WouldBlock
    }
}

/// A register of a serial peripheral.
#[derive(Clone, Copy, Debug, PartialEq, Eq, Structural)]
pub enum Register {
    /// Status flags; reading it changes nothing
    Status,
    /// The byte received; the receiver's alone
    ReceiveData,
    /// The byte to send; the transmitter's alone
    TransmitData,
    /// The baud rate divisor
    BaudRate,
    /// The first control register
    Control,
}

/// One access to a register.
#[derive(Clone, Copy, Debug, PartialEq, Eq, Structural)]
pub enum Access {
    Load(Register),
    Store(Register, u8),
}

impl Access {
    /// The register that is accessed.
    pub open spec fn register(self) -> Register {
        match self {
            Access::Load(register) => register,
            Access::Store(register, _) => register,
        }
    }
}

impl RxAction {
    /// The register accesses that carry the action out.
    pub open spec fn accesses(self) -> Seq<Access> {
        match self {
            RxAction::Fetch => seq![Access::Load(Register::ReceiveData)],
            RxAction::Fail(_) => seq![],
            RxAction::WouldBlock => seq![],
        }
    }
}

impl TxAction {
    /// The register accesses that carry the action out.
    pub open spec fn accesses(self) -> Seq<Access> {
        match self {
            TxAction::Store(byte) => seq![Access::Store(Register::TransmitData, byte)],
            TxAction::WouldBlock => seq![],
        }
    }
}

/// All the register accesses of one read by the receiver: the status flags,
/// then what the action taken on them needs.
pub open spec fn read_trace(status: Status) -> Seq<Access> {
    seq![Access::Load(Register::Status)] + read_action(status).accesses()
}

/// All the register accesses of one write by the transmitter.
pub open spec fn write_trace(status: Status, byte: u8) -> Seq<Access> {
    seq![Access::Load(Register::Status)] + write_action(status, byte).accesses()
}

/// All the register accesses of one flush by the transmitter.
pub open spec fn flush_trace(status: Status) -> Seq<Access> {
    seq![Access::Load(Register::Status)]
}

/// The outcome of a read goes by a fixed order of precedence, whatever flags
/// are set together: parity error, framing error, noise error, overrun error,
/// data, and with none of them the retry signal.
pub proof fn lemma_read_priority(status: Status)
    ensures
        read_action(status) == RxAction::Fail(Error::Parity) <==> status.parity_error,
        read_action(status) == RxAction::Fail(Error::Framing) <==> !status.parity_error
            && status.framing_error,
        read_action(status) == RxAction::Fail(Error::Noise) <==> !status.parity_error
            && !status.framing_error && status.noise_error,
        read_action(status) == RxAction::Fail(Error::Overrun) <==> !status.parity_error
            && !status.framing_error && !status.noise_error && status.overrun_error,
        read_action(status) == RxAction::Fetch <==> !status.parity_error && !status.framing_error
            && !status.noise_error && !status.overrun_error && status.data_ready,
        read_action(status) == RxAction::WouldBlock <==> !status.parity_error
            && !status.framing_error && !status.noise_error && !status.overrun_error
            && !status.data_ready,
        read_action(status) != RxAction::Fail(Error::_Extensible),
{
}

/// A write while the data register is still full asks for a retry and stores
/// nothing: no access of it is a store.
pub proof fn lemma_blocked_write_stores_nothing(status: Status, byte: u8)
    requires
        !status.transmit_empty,
    ensures
        write_action(status, byte) == TxAction::WouldBlock,
        forall|i: int|
            0 <= i < write_trace(status, byte).len() ==> #[trigger] write_trace(status, byte)[i]
                is Load,
{
}

/// The receiver keeps to its side of the peripheral: it loads the status flags
/// and the receive data register, and stores nowhere. The transmit data
/// register in particular it never touches.
pub proof fn lemma_receiver_keeps_to_its_side(status: Status)
    ensures
        forall|i: int|
            0 <= i < read_trace(status).len() ==> {
                let access = #[trigger] read_trace(status)[i];
                access == Access::Load(Register::Status) || access == Access::Load(
                    Register::ReceiveData,
                )
            },
{
}

/// The transmitter keeps to its side of the peripheral: it loads the status
/// flags and stores to the transmit data register, nothing else. The receive
/// data register in particular it never touches.
pub proof fn lemma_transmitter_keeps_to_its_side(status: Status, byte: u8)
    ensures
        forall|i: int|
            0 <= i < write_trace(status, byte).len() ==> {
                let access = #[trigger] write_trace(status, byte)[i];
                access == Access::Load(Register::Status) || access == Access::Store(
                    Register::TransmitData,
                    byte,
                )
            },
        forall|i: int|
            0 <= i < flush_trace(status).len() ==> #[trigger] flush_trace(status)[i]
                == Access::Load(Register::Status),
{
}

/// A baud rate is accepted exactly where the bus clock divided by it comes to
/// 16 or more, and the divisor is then that quotient.
pub proof fn lemma_divisor_accepted(bus: Hertz, baud_rate: Bps)
    requires
        baud_rate.0 > 0,
    ensures
        divisor(bus, baud_rate) is Some <==> bus.0 / baud_rate.0 >= 16,
        divisor(bus, baud_rate) is Some ==> divisor(bus, baud_rate)->0 == bus.0 / baud_rate.0,
{
}

impl<USART> Rx<USART> {
    /// Reads a single byte, without waiting: decides on the status flags, which
    /// the caller has just read, what is done next.
    pub fn read(&mut self, status: Status) -> (r: RxAction)
        ensures
            r == read_action(status),
    {
        if status.parity_error {
            RxAction::Fail(Error::Parity)
        } else if status.framing_error {
            RxAction::Fail(Error::Framing)
        } else if status.noise_error {
            RxAction::Fail(Error::Noise)
        } else if status.overrun_error {
            RxAction::Fail(Error::Overrun)
        } else if status.data_ready {
            RxAction::Fetch
        } else {
            RxAction::WouldBlock
        }
    }
}

impl<USART> Rx<USART> {
    /// Turns the receiver into a stream: gives the steps that program `chan` to
    /// copy every byte that arrives in the data register, at the address
    /// `data_register`, into the double buffer `buffer`, which lies at `place`,
    /// round and round. The caller performs the steps in their order.
    ///
    /// The receiver is used up; the result holds the buffer and the channel
    /// for as long as the stream runs.
    pub fn circ_read<B, C>(self, chan: C, buffer: B, place: DoubleBuffer, data_register: u32) -> (r: (
        CircBuffer<B, C>,
        Vec<Step>,
    ))
        requires
            place.segment_len <= MAX_SEGMENT_LEN,
        ensures
            r.0.buffer() == buffer,
            r.0.channel() == chan,
            r.1@ == circular_program(place, data_register),
    {
        let count: usize = place.segment_len * 2;
        let config = ChannelConfig {
            mem2mem: false,
            priority: Priority::High,
            memory_size: Width::Bits8,
            peripheral_size: Width::Bits8,
            memory_increment: true,
            peripheral_increment: false,
            circular: true,
            direction: Direction::FromPeripheral,
            enable: true,
        };
        let mut steps: Vec<Step> = Vec::new();
        steps.push(Step::SetMemoryAddress(place.address));
        steps.push(Step::SetTransferCount(count as u16));
        steps.push(Step::SetPeripheralAddress(data_register));
        steps.push(Step::Fence);
        steps.push(Step::Configure(config));
        assert(steps@ =~= circular_program(place, data_register));
        (CircBuffer::new(buffer, chan), steps)
    }
}

impl<USART> Tx<USART> {
    /// Ensures that no frame is still on its way out: succeeds once the
    /// transmission is complete.
    pub fn flush(&mut self, status: Status) -> (r: Result<(), WouldBlock>)
        ensures
            r is Ok <==> status.transmit_complete,
    {
        if status.transmit_complete {
            Ok(())
        } else {
            Err(WouldBlock)
        }
    }

    /// Writes a single byte, without waiting: decides on the status flags, which
    /// the caller has just read, what is done next.
    pub fn write(&mut self, status: Status, byte: u8) -> (r: TxAction)
        ensures
            r == write_action(status, byte),
    {
        if status.transmit_empty {
            TxAction::Store(byte)
        } else {
            TxAction::WouldBlock
        }
    }
}

} // verus!
