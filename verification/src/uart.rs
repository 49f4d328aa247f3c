//! Raw model of a UART-class (NS16550A-compatible) character device.
//!
//! The real device is a block of eight memory-mapped registers at a
//! board-supplied base address: receiver and transmitter share offset
//! zero with opposite access directions, interrupt-enable sits at
//! offset one, modem-control at offset four, and line-status at offset
//! five, whose bit 0 reports "data available" and bit 5 "transmitter
//! holding register empty".  Here the registers are modeled as explicit
//! state, so the probe operations and the software queues around them
//! can be specified and verified exactly.

use vstd::prelude::*;

use std::collections::VecDeque;

verus! {

/// Interrupt-enable register: receive-data-available interrupt source.
pub const IER_RX_AVAILABLE: u8 = 0x01;

/// Interrupt-enable register: transmitter-empty interrupt source.
pub const IER_TX_EMPTY: u8 = 0x02;

/// Line-status register: a received byte is available.
pub const LSR_DATA_AVAILABLE: u8 = 0x01;

/// Line-status register: the transmitter holding register is empty.
pub const LSR_THR_EMPTY: u8 = 0x20;

/// Modem-control register: data terminal ready.
pub const MCR_DATA_TERMINAL_READY: u8 = 0x01;

/// Modem-control register: request to send.
pub const MCR_REQUEST_TO_SEND: u8 = 0x02;

/// Modem-control register: auxiliary output 1.
pub const MCR_AUX_OUTPUT1: u8 = 0x04;

/// Modem-control register: auxiliary output 2.
pub const MCR_AUX_OUTPUT2: u8 = 0x08;

/// Identity of a suspended operation's resumption callback: the handle
/// the interrupt dispatcher invokes to mark that operation runnable.
pub type WakerId = usize;

/// Hardware activity on the line, observed while the processor waits
/// for an interrupt.
#[derive(Clone, Copy)]
pub enum HwEvent {
    /// One byte arrives on the wire and enters the receive FIFO.
    Recv(u8),
    /// The transmitter finishes shifting out the pending byte.
    TxIdle,
}

/// Mathematical state of the raw device, for contracts and laws.
#[verifier::ext_equal]
pub struct DevModel {
    /// Bytes received on the line and not yet drained from the
    /// hardware FIFO.
    pub rx_fifo: Seq<u8>,
    /// Whether the transmitter holding register is empty.
    pub thr_empty: bool,
    /// Every byte the transmitter has accepted, in emission order.
    pub tx_history: Seq<u8>,
    /// Bytes drained from hardware but not yet consumed by a reader.
    pub read_buffer: Seq<u8>,
    /// Suspended readers, oldest first.
    pub read_waiters: Seq<WakerId>,
    /// Suspended writers, oldest first.
    pub write_waiters: Seq<WakerId>,
    /// Interrupt-enable register contents.
    pub ier: u8,
    /// Modem-control register contents.
    pub mcr: u8,
}

/// Raw device: the modeled registers plus the software queues the
/// driver keeps beside them.
pub struct NS16550aRaw {
    /// Identifies the memory-mapped register block this models.
    pub base_addr: usize,
    /// Modeled hardware receive FIFO: bytes on the wire not yet read
    /// out of the receiver buffer register.
    pub rx_fifo: VecDeque<u8>,
    /// Modeled line-status bit 5: the transmitter holding register is
    /// empty and will accept a byte.
    pub thr_empty: bool,
    /// Modeled transmit side: every byte stored to the transmitter
    /// holding register, in order.
    pub tx_history: Vec<u8>,
    /// Modeled interrupt-enable register contents.
    pub ier: u8,
    /// Modeled modem-control register contents.
    pub mcr: u8,
    /// Bytes the dispatcher drained from hardware, awaiting a reader.
    pub read_buffer: VecDeque<u8>,
    /// Resumption callbacks of suspended readers, oldest first.
    pub read_waker_list: VecDeque<WakerId>,
    /// Resumption callbacks of suspended writers, oldest first.
    pub write_waker_list: VecDeque<WakerId>,
}

impl View for NS16550aRaw {
    type V = DevModel;

    open spec fn view(&self) -> DevModel {
        DevModel {
            rx_fifo: self.rx_fifo@,
            thr_empty: self.thr_empty,
            tx_history: self.tx_history@,
            read_buffer: self.read_buffer@,
            read_waiters: self.read_waker_list@,
            write_waiters: self.write_waker_list@,
            ier: self.ier,
            mcr: self.mcr,
        }
    }
}

/// Line-status register value a read of offset five would return.
pub open spec fn spec_lsr(d: DevModel) -> u8 {
    (if d.rx_fifo.len() > 0 {
        LSR_DATA_AVAILABLE
    } else {
        0
    }) | (if d.thr_empty {
        LSR_THR_EMPTY
    } else {
        0
    })
}

impl NS16550aRaw {
    /// A device fresh out of reset: nothing received, transmitter idle,
    /// all queues empty, interrupt sources off.
    pub fn new(base_addr: usize) -> (r: Self)
        ensures
            r@ == (DevModel {
                rx_fifo: Seq::<u8>::empty(),
                thr_empty: true,
                tx_history: Seq::<u8>::empty(),
                read_buffer: Seq::<u8>::empty(),
                read_waiters: Seq::<WakerId>::empty(),
                write_waiters: Seq::<WakerId>::empty(),
                ier: 0,
                mcr: 0,
            }),
            r.base_addr == base_addr,
    {
        NS16550aRaw {
            base_addr,
            rx_fifo: VecDeque::new(),
            thr_empty: true,
            tx_history: Vec::new(),
            ier: 0,
            mcr: 0,
            read_buffer: VecDeque::new(),
            read_waker_list: VecDeque::new(),
            write_waker_list: VecDeque::new(),
        }
    }

    /// Bring the device to an operational state: raise the modem
    /// control lines and enable the receive-data-available interrupt
    /// source.  Nothing else changes.
    pub fn init(&mut self)
        ensures
            *final(self) == (NS16550aRaw {
                mcr: MCR_DATA_TERMINAL_READY | MCR_REQUEST_TO_SEND | MCR_AUX_OUTPUT2,
                ier: IER_RX_AVAILABLE,
                ..*old(self)
            }),
    {
        self.mcr = MCR_DATA_TERMINAL_READY | MCR_REQUEST_TO_SEND | MCR_AUX_OUTPUT2;
        self.ier = IER_RX_AVAILABLE;
    }

    /// Pure probe of the receive side: if the line status shows data
    /// available, read the receiver buffer register, consuming one
    /// hardware FIFO entry; otherwise return nothing and change
    /// nothing.
    pub fn read(&mut self) -> (r: Option<u8>)
        ensures
            old(self).rx_fifo@.len() > 0 ==> {
                &&& r == Some(old(self).rx_fifo@[0])
                &&& *final(self) == (NS16550aRaw {
                    rx_fifo: final(self).rx_fifo,
                    ..*old(self)
                })
                &&& final(self).rx_fifo@ == old(self).rx_fifo@.subrange(
                    1,
                    old(self).rx_fifo@.len() as int,
                )
            },
            old(self).rx_fifo@.len() == 0 ==> r is None && *final(self) == *old(self),
    {
        if self.rx_fifo.len() > 0 {
            self.rx_fifo.pop_front()
        } else {
            None
        }
    }

    /// Pure probe of the transmit side: whether the transmitter holding
    /// register will currently accept a new byte.  No side effect.
    pub fn writable(&self) -> (r: bool)
        ensures
            r == self.thr_empty,
    {
        self.thr_empty
    }

    /// Store one byte to the transmitter holding register.  The driver
    /// only stores while the register is empty; the register is then
    /// busy until the hardware shifts the byte out.
    pub fn write_thr(&mut self, ch: u8)
        requires
            old(self).thr_empty,
        ensures
            *final(self) == (NS16550aRaw {
                thr_empty: false,
                tx_history: final(self).tx_history,
                ..*old(self)
            }),
            final(self).tx_history@ == old(self).tx_history@.push(ch),
    {
        self.tx_history.push(ch);
        self.thr_empty = false;
    }

    /// Hardware activity, not driver code: one byte arrives on the
    /// line and enters the receive FIFO.
    pub fn hw_receive_byte(&mut self, ch: u8)
        ensures
            *final(self) == (NS16550aRaw { rx_fifo: final(self).rx_fifo, ..*old(self) }),
            final(self).rx_fifo@ == old(self).rx_fifo@.push(ch),
    {
        self.rx_fifo.push_back(ch);
    }

    /// Hardware activity, not driver code: the transmitter finishes
    /// shifting out the pending byte and the holding register empties.
    pub fn hw_tx_complete(&mut self)
        ensures
            *final(self) == (NS16550aRaw { thr_empty: true, ..*old(self) }),
    {
        self.thr_empty = true;
    }

    /// Read the line-status register: data-available and
    /// transmitter-empty bits, computed from the modeled hardware.
    pub fn lsr(&self) -> (r: u8)
        ensures
            r == spec_lsr(self@),
    {
        let rx: u8 = if self.rx_fifo.len() > 0 {
            LSR_DATA_AVAILABLE
        } else {
            0
        };
        let tx: u8 = if self.thr_empty {
            LSR_THR_EMPTY
        } else {
            0
        };
        rx | tx
    }
}

} // verus!
