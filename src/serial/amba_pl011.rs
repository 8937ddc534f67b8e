//! Register protocol of the AMBA PL011 UART.
//!
//! The register block itself lives at a hardware address and is accessed
//! with volatile reads and writes by the code that owns that mapping. This
//! module holds what the driver decides: the layout of the block, its bit
//! masks, and a polling state machine that, given the values the hardware
//! returned, says which single bus access to perform next.

use vstd::prelude::*;

verus! {

// Byte offsets of the registers from the base of the block.
/// Data Register (read-write, low byte significant).
pub const DR_OFFSET: usize = 0x000;

/// Receive Status / Error Clear Register (read-write).
pub const RSR_ECR_OFFSET: usize = 0x004;

/// Flag Register (read-only).
pub const FR_OFFSET: usize = 0x018;

/// IrDA Low-Power Register (read-write).
pub const ILPR_OFFSET: usize = 0x020;

/// Integer Baud Rate Register (read-write).
pub const IBRD_OFFSET: usize = 0x024;

/// Fractional Baud Rate Register (read-write).
pub const FBRD_OFFSET: usize = 0x028;

/// Line Control Register (read-write).
pub const LCR_H_OFFSET: usize = 0x02C;

/// Control Register (read-write).
pub const CR_OFFSET: usize = 0x030;

/// Interrupt FIFO Level Select Register (read-write).
pub const IFLS_OFFSET: usize = 0x034;

/// Interrupt Mask Set/Clear Register (read-write).
pub const IMSC_OFFSET: usize = 0x038;

/// Raw Interrupt Status Register (read-only).
pub const RIS_OFFSET: usize = 0x03C;

/// Masked Interrupt Status Register (read-only).
pub const MIS_OFFSET: usize = 0x040;

/// Interrupt Clear Register (write-only).
pub const ICR_OFFSET: usize = 0x044;

/// DMA Control Register (read-write).
pub const DMACR_OFFSET: usize = 0x048;

/// First of the four Peripheral ID registers (read-only).
pub const PERIPH_ID_OFFSET: usize = 0xFE0;

/// First of the four PrimeCell ID registers (read-only).
pub const PCELL_ID_OFFSET: usize = 0xFF0;

/// Size in bytes of the whole register block.
pub const BLOCK_SIZE: usize = 0x1000;

/// Flag Register: transmit FIFO full.
pub const FR_TXFF: u32 = 1 << 5;

/// Flag Register: receive FIFO empty.
pub const FR_RXFE: u32 = 1 << 4;

/// Flag Register: UART busy.
pub const FR_BUSY: u32 = 1 << 3;

/// Line Control Register: 8-bit word length.
pub const LCR_H_WLEN_8: u32 = 0b11 << 5;

/// Line Control Register: enable FIFOs.
pub const LCR_H_FEN: u32 = 1 << 4;

/// Control Register: UART enable.
pub const CR_UARTEN: u32 = 1 << 0;

/// Control Register: transmit enable.
pub const CR_TXE: u32 = 1 << 8;

/// Control Register: receive enable.
pub const CR_RXE: u32 = 1 << 9;

/// One bus transaction on the register block.
#[derive(Debug, Clone, Copy, PartialEq, Eq, Structural)]
pub enum RegisterAccess {
    /// Read the Flag Register and report its value.
    ReadFlags,
    /// Read the Data Register and report its value.
    ReadData,
    /// Write the value to the Data Register.
    WriteData(u32),
    /// Write the value to the Control Register.
    WriteControl(u32),
}

/// What the driver is in the middle of.
#[derive(Debug, Clone, Copy, PartialEq, Eq, Structural)]
pub enum UartPhase {
    /// No operation in progress.
    Idle,
    /// Waiting for room in the transmit FIFO to send the byte.
    Transmitting(u8),
    /// Waiting for the receive FIFO to hold a byte.
    Receiving,
    /// The Data Register read has been requested; its value is awaited.
    Collecting,
}

/// The transmit FIFO is full according to Flag Register value `flags`.
pub open spec fn tx_full(flags: u32) -> bool {
    flags & FR_TXFF != 0
}

/// The receive FIFO is empty according to Flag Register value `flags`.
pub open spec fn rx_empty(flags: u32) -> bool {
    flags & FR_RXFE != 0
}

/// The phase polls the Flag Register.
pub open spec fn is_polling(p: UartPhase) -> bool {
    p is Transmitting || p is Receiving
}

/// While in phase `p`, Flag Register value `flags` says to keep waiting.
pub open spec fn must_wait(p: UartPhase, flags: u32) -> bool {
    match p {
        UartPhase::Transmitting(_) => tx_full(flags),
        UartPhase::Receiving => rx_empty(flags),
        _ => false,
    }
}

/// Next phase and access once the condition polled for in `p` holds.
pub open spec fn ready_step(p: UartPhase) -> (UartPhase, RegisterAccess) {
    match p {
        UartPhase::Transmitting(b) => (UartPhase::Idle, RegisterAccess::WriteData(b as u32)),
        UartPhase::Receiving => (UartPhase::Collecting, RegisterAccess::ReadData),
        _ => (p, RegisterAccess::ReadFlags),
    }
}

/// Next phase and access after the Flag Register read `flags` in phase `p`.
pub open spec fn flags_step(p: UartPhase, flags: u32) -> (UartPhase, RegisterAccess) {
    if must_wait(p, flags) {
        (p, RegisterAccess::ReadFlags)
    } else {
        ready_step(p)
    }
}

/// Final phase and the accesses requested when, starting in phase `p`,
/// successive Flag Register reads return `flags` in order; reads after the
/// driver stops polling are not taken.
pub open spec fn poll_run(p: UartPhase, flags: Seq<u32>) -> (UartPhase, Seq<RegisterAccess>)
    decreases flags.len(),
{
    if flags.len() == 0 {
        (p, Seq::empty())
    } else {
        let (q, acc) = poll_run(p, flags.drop_last());
        if is_polling(q) {
            let (r, a) = flags_step(q, flags.last());
            (r, acc.push(a))
        } else {
            (q, acc)
        }
    }
}

/// `n` Flag Register reads.
pub open spec fn flag_reads(n: nat) -> Seq<RegisterAccess> {
    Seq::new(n, |_i: int| RegisterAccess::ReadFlags)
}

/// While every Flag Register read says to wait, the driver keeps polling and
/// requests nothing but Flag Register reads.
proof fn lemma_poll_all_wait(p: UartPhase, flags: Seq<u32>)
    requires
        is_polling(p),
        forall|i: int| 0 <= i < flags.len() ==> must_wait(p, #[trigger] flags[i]),
    ensures
        poll_run(p, flags) == (p, flag_reads(flags.len())),
    decreases flags.len(),
{
    if flags.len() > 0 {
        let prev = flags.drop_last();
        assert forall|i: int| 0 <= i < prev.len() implies must_wait(p, #[trigger] prev[i]) by {
            assert(prev[i] == flags[i]);
        }
        lemma_poll_all_wait(p, prev);
        assert(must_wait(p, flags[flags.len() - 1]));
        assert(flag_reads(prev.len()).push(RegisterAccess::ReadFlags) == flag_reads(flags.len()));
    }
}

/// When the first read that lets the driver proceed is read `j`, the driver
/// requests `j` further Flag Register reads and then the single access that
/// completes the wait, and stops polling.
proof fn lemma_poll_ready_at(p: UartPhase, flags: Seq<u32>, j: int)
    requires
        is_polling(p),
        0 <= j < flags.len(),
        forall|i: int| 0 <= i < j ==> must_wait(p, #[trigger] flags[i]),
        !must_wait(p, flags[j]),
    ensures
        poll_run(p, flags) == (ready_step(p).0, flag_reads(j as nat).push(ready_step(p).1)),
    decreases flags.len(),
{
    let prev = flags.drop_last();
    if j < prev.len() {
        assert forall|i: int| 0 <= i < j implies must_wait(p, #[trigger] prev[i]) by {
            assert(prev[i] == flags[i]);
        }
        assert(prev[j] == flags[j]);
        lemma_poll_ready_at(p, prev, j);
    } else {
        assert forall|i: int| 0 <= i < prev.len() implies must_wait(p, #[trigger] prev[i]) by {
            assert(prev[i] == flags[i]);
        }
        lemma_poll_all_wait(p, prev);
    }
}

/// Transmit protocol: whatever values the Flag Register returns, the Data
/// Register is never written while the transmit FIFO is full. If it stays
/// full, only Flag Register reads are requested; once the first read shows
/// room, exactly one write follows, of the byte zero-extended, and the
/// transmission is over.
pub proof fn lemma_transmit_protocol(byte: u8, flags: Seq<u32>)
    ensures
        (forall|i: int| 0 <= i < flags.len() ==> tx_full(#[trigger] flags[i])) ==> poll_run(
            UartPhase::Transmitting(byte),
            flags,
        ) == (UartPhase::Transmitting(byte), flag_reads(flags.len())),
        forall|j: int|
            0 <= j < flags.len() && (forall|i: int| 0 <= i < j ==> tx_full(#[trigger] flags[i]))
                && !tx_full(#[trigger] flags[j]) ==> poll_run(UartPhase::Transmitting(byte), flags)
                == (UartPhase::Idle, flag_reads(j as nat).push(
                RegisterAccess::WriteData(byte as u32),
            )),
{
    let p = UartPhase::Transmitting(byte);
    if forall|i: int| 0 <= i < flags.len() ==> tx_full(#[trigger] flags[i]) {
        lemma_poll_all_wait(p, flags);
    }
    assert forall|j: int|
        0 <= j < flags.len() && (forall|i: int| 0 <= i < j ==> tx_full(#[trigger] flags[i]))
            && !tx_full(#[trigger] flags[j]) implies poll_run(p, flags) == (
        UartPhase::Idle,
        flag_reads(j as nat).push(RegisterAccess::WriteData(byte as u32)),
    ) by {
        lemma_poll_ready_at(p, flags, j);
    }
}

/// Receive protocol: whatever values the Flag Register returns, the Data
/// Register is never read while the receive FIFO is empty. If it stays
/// empty, only Flag Register reads are requested; once the first read shows
/// data, exactly one Data Register read follows.
pub proof fn lemma_receive_protocol(flags: Seq<u32>)
    ensures
        (forall|i: int| 0 <= i < flags.len() ==> rx_empty(#[trigger] flags[i])) ==> poll_run(
            UartPhase::Receiving,
            flags,
        ) == (UartPhase::Receiving, flag_reads(flags.len())),
        forall|j: int|
            0 <= j < flags.len() && (forall|i: int| 0 <= i < j ==> rx_empty(#[trigger] flags[i]))
                && !rx_empty(#[trigger] flags[j]) ==> poll_run(UartPhase::Receiving, flags) == (
            UartPhase::Collecting,
            flag_reads(j as nat).push(RegisterAccess::ReadData),
        ),
{
    let p = UartPhase::Receiving;
    if forall|i: int| 0 <= i < flags.len() ==> rx_empty(#[trigger] flags[i]) {
        lemma_poll_all_wait(p, flags);
    }
    assert forall|j: int|
        0 <= j < flags.len() && (forall|i: int| 0 <= i < j ==> rx_empty(#[trigger] flags[i]))
            && !rx_empty(#[trigger] flags[j]) implies poll_run(p, flags) == (
        UartPhase::Collecting,
        flag_reads(j as nat).push(RegisterAccess::ReadData),
    ) by {
        lemma_poll_ready_at(p, flags, j);
    }
}

/// Polling state machine of the PL011 driver.
pub struct Pl011Driver {
    phase: UartPhase,
}

impl View for Pl011Driver {
    type V = UartPhase;

    closed spec fn view(&self) -> UartPhase {
        self.phase
    }
}

impl Pl011Driver {
    /// A driver with no operation in progress.
    pub fn new() -> (r: Self)
        ensures
            r@ == UartPhase::Idle,
    {
        Pl011Driver { phase: UartPhase::Idle }
    }

    /// The current phase.
    pub fn phase(&self) -> (r: UartPhase)
        ensures
            r == self@,
    {
        self.phase
    }

    /// Starts transmitting `byte`: the first access is a Flag Register read.
    pub fn start_transmit(&mut self, byte: u8) -> (r: RegisterAccess)
        requires
            old(self)@ == UartPhase::Idle,
        ensures
            final(self)@ == UartPhase::Transmitting(byte),
            r == RegisterAccess::ReadFlags,
    {
        self.phase = UartPhase::Transmitting(byte);
        RegisterAccess::ReadFlags
    }

    /// Starts receiving a byte: the first access is a Flag Register read.
    pub fn start_receive(&mut self) -> (r: RegisterAccess)
        requires
            old(self)@ == UartPhase::Idle,
        ensures
            final(self)@ == UartPhase::Receiving,
            r == RegisterAccess::ReadFlags,
    {
        self.phase = UartPhase::Receiving;
        RegisterAccess::ReadFlags
    }

    /// Takes the value of a Flag Register read and returns the next access:
    /// another Flag Register read while the awaited condition does not hold,
    /// otherwise the Data Register write of the byte being transmitted
    /// (zero-extended) or the Data Register read of the byte being received.
    pub fn flags_read(&mut self, flags: u32) -> (r: RegisterAccess)
        requires
            is_polling(old(self)@),
        ensures
            (final(self)@, r) == flags_step(old(self)@, flags),
    {
        match self.phase {
            UartPhase::Transmitting(b) => {
                if flags & FR_TXFF != 0 {
                    RegisterAccess::ReadFlags
                } else {
                    self.phase = UartPhase::Idle;
                    RegisterAccess::WriteData(b as u32)
                }
            },
            _ => {
                if flags & FR_RXFE != 0 {
                    RegisterAccess::ReadFlags
                } else {
                    self.phase = UartPhase::Collecting;
                    RegisterAccess::ReadData
                }
            },
        }
    }

    /// Takes the value of the Data Register read and returns the received
    /// byte: its low eight bits.
    pub fn data_read(&mut self, data: u32) -> (r: u8)
        requires
            old(self)@ == UartPhase::Collecting,
        ensures
            final(self)@ == UartPhase::Idle,
            r as u32 == data & 0xff,
            r as int == data as int % 256,
    {
        self.phase = UartPhase::Idle;
        assert(data & 0xff == data % 256) by (bit_vector);
        (data & 0xff) as u8
    }

    /// The single access that enables the UART together with its
    /// transmitter and receiver.
    pub fn enable(&self) -> (r: RegisterAccess)
        ensures
            r == RegisterAccess::WriteControl(CR_UARTEN | CR_TXE | CR_RXE),
            r == RegisterAccess::WriteControl(0x301),
    {
        assert((1u32 << 0u32) | (1u32 << 8u32) | (1u32 << 9u32) == 0x301u32) by (bit_vector);
        RegisterAccess::WriteControl(CR_UARTEN | CR_TXE | CR_RXE)
    }

    /// The single access that clears every enable bit.
    pub fn disable(&self) -> (r: RegisterAccess)
        ensures
            r == RegisterAccess::WriteControl(0),
    {
        RegisterAccess::WriteControl(0)
    }
}

} // verus!
