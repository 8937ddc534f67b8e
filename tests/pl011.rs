use std::cell::RefCell;

use quokka::serial::amba_pl011::{
    Pl011Driver, RegisterAccess, UartPhase, BLOCK_SIZE, CR_OFFSET, CR_RXE, CR_TXE, CR_UARTEN,
    DMACR_OFFSET, DR_OFFSET, FR_OFFSET, FR_RXFE, FR_TXFF, ICR_OFFSET, PCELL_ID_OFFSET,
    PERIPH_ID_OFFSET,
};
use quokka::serial::Serial;

/// A bus transaction as the simulated block saw it, with the flag value in
/// force when it happened.
#[derive(Debug, Clone, Copy, PartialEq, Eq)]
enum Seen {
    FlagRead(u32),
    DataRead(u32),
    DataWrite(u32, u32),
    ControlWrite(u32),
}

/// Simulated register block: the Flag Register returns the scripted values
/// in turn, repeating the last one.
struct SimBlock {
    flags: Vec<u32>,
    next_flag: RefCell<usize>,
    data: u32,
    log: RefCell<Vec<Seen>>,
}

impl SimBlock {
    fn new(flags: Vec<u32>, data: u32) -> SimBlock {
        SimBlock { flags, next_flag: RefCell::new(0), data, log: RefCell::new(Vec::new()) }
    }

    fn current_flags(&self) -> u32 {
        let i = *self.next_flag.borrow();
        self.flags[i.min(self.flags.len() - 1)]
    }

    fn read_flags(&self) -> u32 {
        let f = self.current_flags();
        *self.next_flag.borrow_mut() += 1;
        self.log.borrow_mut().push(Seen::FlagRead(f));
        f
    }

    fn last_flags(&self) -> u32 {
        let i = *self.next_flag.borrow();
        if i == 0 {
            0
        } else {
            self.flags[(i - 1).min(self.flags.len() - 1)]
        }
    }

    /// Performs one access; returns the value read, if any.
    fn perform(&self, a: RegisterAccess) -> Option<u32> {
        match a {
            RegisterAccess::ReadFlags => Some(self.read_flags()),
            RegisterAccess::ReadData => {
                self.log.borrow_mut().push(Seen::DataRead(self.data));
                Some(self.data)
            }
            RegisterAccess::WriteData(v) => {
                let f = self.last_flags();
                self.log.borrow_mut().push(Seen::DataWrite(v, f));
                None
            }
            RegisterAccess::WriteControl(v) => {
                self.log.borrow_mut().push(Seen::ControlWrite(v));
                None
            }
        }
    }

    fn transmit(&self, byte: u8) {
        let mut d = Pl011Driver::new();
        let mut a = d.start_transmit(byte);
        loop {
            match self.perform(a) {
                Some(f) => a = d.flags_read(f),
                None => break,
            }
        }
        assert_eq!(d.phase(), UartPhase::Idle);
    }

    fn receive(&self) -> u8 {
        let mut d = Pl011Driver::new();
        let mut a = d.start_receive();
        loop {
            let v = self.perform(a).unwrap();
            if a == RegisterAccess::ReadData {
                return d.data_read(v);
            }
            a = d.flags_read(v);
        }
    }

    fn seen(&self) -> Vec<Seen> {
        self.log.borrow().clone()
    }
}

impl Serial for SimBlock {
    fn init() -> &'static Self {
        Box::leak(Box::new(SimBlock::new(vec![FR_TXFF, 0], 0)))
    }

    fn enable(&self) {
        self.perform(Pl011Driver::new().enable());
    }

    fn disable(&self) {
        self.perform(Pl011Driver::new().disable());
    }

    fn write_byte(&self, c: u8) {
        *self.next_flag.borrow_mut() = 0;
        self.transmit(c);
    }

    fn read_byte(&self) -> u8 {
        self.receive()
    }
}

#[test]
fn transmit_waits_while_tx_full() {
    let sim = SimBlock::new(vec![FR_TXFF, FR_TXFF | FR_RXFE, FR_TXFF, FR_RXFE], 0);
    sim.transmit(0x41);
    assert_eq!(
        sim.seen(),
        vec![
            Seen::FlagRead(FR_TXFF),
            Seen::FlagRead(FR_TXFF | FR_RXFE),
            Seen::FlagRead(FR_TXFF),
            Seen::FlagRead(FR_RXFE),
            Seen::DataWrite(0x41, FR_RXFE),
        ]
    );
}

#[test]
fn transmit_writes_byte_zero_extended() {
    let sim = SimBlock::new(vec![0], 0);
    sim.transmit(0xFF);
    assert_eq!(sim.seen(), vec![Seen::FlagRead(0), Seen::DataWrite(0xFF, 0)]);
}

#[test]
fn flags_read_keeps_polling_while_full() {
    let mut d = Pl011Driver::new();
    assert_eq!(d.start_transmit(7), RegisterAccess::ReadFlags);
    assert_eq!(d.flags_read(0xFFFF_FFFF), RegisterAccess::ReadFlags);
    assert_eq!(d.phase(), UartPhase::Transmitting(7));
    assert_eq!(d.flags_read(!FR_TXFF), RegisterAccess::WriteData(7));
    assert_eq!(d.phase(), UartPhase::Idle);
}

#[test]
fn receive_waits_while_rx_empty() {
    let sim = SimBlock::new(vec![FR_RXFE, FR_RXFE | FR_TXFF, FR_TXFF], 0x5A);
    let b = sim.receive();
    assert_eq!(b, 0x5A);
    assert_eq!(
        sim.seen(),
        vec![
            Seen::FlagRead(FR_RXFE),
            Seen::FlagRead(FR_RXFE | FR_TXFF),
            Seen::FlagRead(FR_TXFF),
            Seen::DataRead(0x5A),
        ]
    );
}

#[test]
fn receive_returns_low_byte_of_data() {
    let sim = SimBlock::new(vec![0], 0x1234_56AB);
    assert_eq!(sim.receive(), 0xAB);
    let mut d = Pl011Driver::new();
    d.start_receive();
    assert_eq!(d.flags_read(0), RegisterAccess::ReadData);
    assert_eq!(d.phase(), UartPhase::Collecting);
    assert_eq!(d.data_read(0xFFFF_FF00), 0);
    assert_eq!(d.phase(), UartPhase::Idle);
}

#[test]
fn enable_writes_control_once() {
    let sim = SimBlock::new(vec![0], 0);
    sim.enable();
    assert_eq!(sim.seen(), vec![Seen::ControlWrite(0x301)]);
    assert_eq!(CR_UARTEN | CR_TXE | CR_RXE, (1 << 0) | (1 << 8) | (1 << 9));
}

#[test]
fn disable_writes_zero_once() {
    let sim = SimBlock::new(vec![0], 0);
    sim.disable();
    assert_eq!(sim.seen(), vec![Seen::ControlWrite(0)]);
}

#[test]
fn transmit_string_sends_each_byte_in_order() {
    let sim = SimBlock::init();
    sim.write_string("ab");
    assert_eq!(
        sim.seen(),
        vec![
            Seen::FlagRead(FR_TXFF),
            Seen::FlagRead(0),
            Seen::DataWrite(b'a' as u32, 0),
            Seen::FlagRead(FR_TXFF),
            Seen::FlagRead(0),
            Seen::DataWrite(b'b' as u32, 0),
        ]
    );
}

#[test]
fn transmit_empty_string_touches_nothing() {
    let sim = SimBlock::new(vec![0], 0);
    sim.write_string("");
    assert!(sim.seen().is_empty());
}

#[test]
fn register_layout_matches_hardware() {
    assert_eq!(DR_OFFSET, 0x000);
    assert_eq!(FR_OFFSET, 0x018);
    assert_eq!(CR_OFFSET, 0x030);
    assert_eq!(ICR_OFFSET, 0x044);
    assert_eq!(DMACR_OFFSET, 0x048);
    assert_eq!(PERIPH_ID_OFFSET, 0xFE0);
    assert_eq!(PCELL_ID_OFFSET, 0xFF0);
    assert_eq!(BLOCK_SIZE, 0x1000);
    assert_eq!(FR_TXFF, 0x20);
    assert_eq!(FR_RXFE, 0x10);
}
