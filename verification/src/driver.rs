//! Asynchronous character-device driver and interrupt dispatcher.
//!
//! `read` and `write` construct suspendable operations over the raw
//! device.  An operation's poll either completes at once or registers
//! the caller's resumption callback in the matching waiter queue and
//! suspends.  The interrupt dispatcher is the only code path that
//! drains hardware state and resumes waiters, always the oldest first,
//! and all cross-context state is reached through the interrupt-free
//! cell, so poll-side and dispatcher-side mutation never interleave.

use vstd::prelude::*;

use std::collections::VecDeque;

use crate::cell::UPIntrFreeCell;
use crate::executor::SchedFlags;
use crate::executor::__pender;
use crate::masking::IntrLine;
use crate::masking::IntrMaskingInfo;
use crate::masking::guard_round_trip;
use crate::uart::DevModel;
use crate::uart::NS16550aRaw;
use crate::uart::WakerId;

verus! {

/// Result of polling a suspendable operation once.
pub enum Poll<T> {
    /// The operation completed with this value.
    Ready(T),
    /// Not ready; the operation suspended awaiting a resumption.
    Pending,
}

/// Lifecycle of a suspendable operation.
#[derive(Clone, Copy)]
pub enum OpState {
    /// Created, never polled.
    Idle,
    /// Suspended awaiting a resumption callback.
    Waiting,
    /// Finished; must not be polled again.
    Completed,
}

/// Effect of one reader poll on the device: consume the oldest buffered
/// byte if there is one; otherwise suspend, registering the caller's
/// callback unless an already-registered one would resume the same
/// logical waiter.
pub open spec fn spec_reader_poll(d: DevModel, w: WakerId) -> (DevModel, Option<u8>) {
    if d.read_buffer.len() > 0 {
        (
            DevModel { read_buffer: d.read_buffer.subrange(1, d.read_buffer.len() as int), ..d },
            Some(d.read_buffer[0]),
        )
    } else if d.read_waiters.contains(w) {
        (d, None)
    } else {
        (DevModel { read_waiters: d.read_waiters.push(w), ..d }, None)
    }
}

/// Effect of one writer poll on the device: if the transmitter is
/// ready, store exactly the writer's byte and complete; otherwise
/// suspend, registering the caller's callback unless it is already
/// registered.
pub open spec fn spec_writer_poll(d: DevModel, w: WakerId, ch: u8) -> (DevModel, bool) {
    if d.thr_empty {
        (DevModel { thr_empty: false, tx_history: d.tx_history.push(ch), ..d }, true)
    } else if d.write_waiters.contains(w) {
        (d, false)
    } else {
        (DevModel { write_waiters: d.write_waiters.push(w), ..d }, false)
    }
}

/// Effect of one dispatcher run on the device, and which reader and
/// writer callbacks it resumes: drain at most one byte into the receive
/// buffer, resuming the oldest reader if one waits; and if the
/// transmitter is ready, resume the oldest writer, who performs the
/// register write on its own next poll.
pub open spec fn spec_handle_irq(d: DevModel) -> (DevModel, Option<WakerId>, Option<WakerId>) {
    let (d1, woken_r): (DevModel, Option<WakerId>) = if d.rx_fifo.len() > 0 {
        let drained = DevModel {
            rx_fifo: d.rx_fifo.subrange(1, d.rx_fifo.len() as int),
            read_buffer: d.read_buffer.push(d.rx_fifo[0]),
            ..d
        };
        if d.read_waiters.len() > 0 {
            (
                DevModel {
                    read_waiters: d.read_waiters.subrange(1, d.read_waiters.len() as int),
                    ..drained
                },
                Some(d.read_waiters[0]),
            )
        } else {
            (drained, None)
        }
    } else {
        (d, None)
    };
    if d1.thr_empty && d1.write_waiters.len() > 0 {
        (
            DevModel { write_waiters: d1.write_waiters.subrange(1, d1.write_waiters.len() as int), ..d1 },
            woken_r,
            Some(d1.write_waiters[0]),
        )
    } else {
        (d1, woken_r, None)
    }
}

/// State of the device after `n` reader polls under identity `w`, each
/// consuming one buffered byte.
pub open spec fn drain_reads(d: DevModel, n: nat, w: WakerId) -> DevModel
    decreases n,
{
    if n == 0 {
        d
    } else {
        spec_reader_poll(drain_reads(d, (n - 1) as nat, w), w).0
    }
}

/// Reader polls drain the receive buffer strictly from the front: after
/// `n` of them the buffer has lost exactly its first `n` bytes and
/// nothing else of the device has moved.
proof fn lemma_drain_reads(d: DevModel, n: nat, w: WakerId)
    requires
        n <= d.read_buffer.len(),
    ensures
        drain_reads(d, n, w) == (DevModel { read_buffer: d.read_buffer.skip(n as int), ..d }),
    decreases n,
{
    if n == 0 {
        assert(d.read_buffer.skip(0) == d.read_buffer);
        assert(drain_reads(d, n, w) =~= DevModel { read_buffer: d.read_buffer.skip(0), ..d });
    } else {
        lemma_drain_reads(d, (n - 1) as nat, w);
        let prev = drain_reads(d, (n - 1) as nat, w);
        assert(prev.read_buffer.len() > 0);
        assert(spec_reader_poll(prev, w).0.read_buffer =~= d.read_buffer.skip(n as int));
        assert(drain_reads(d, n, w) =~= DevModel { read_buffer: d.read_buffer.skip(n as int), ..d });
    }
}

/// A byte the dispatcher delivers while no reader is waiting resumes
/// nobody, is retained at the back of the receive buffer, and later
/// reads hand the buffered bytes out strictly in order, this byte after
/// all earlier ones.
pub proof fn lemma_byte_retained_in_order(d: DevModel, w: WakerId)
    requires
        d.rx_fifo.len() > 0,
        d.read_waiters.len() == 0,
    ensures
        spec_handle_irq(d).1 is None,
        spec_handle_irq(d).0.read_buffer == d.read_buffer.push(d.rx_fifo[0]),
        forall|k: int| 0 <= k <= d.read_buffer.len() ==> spec_reader_poll(
            #[trigger] drain_reads(spec_handle_irq(d).0, k as nat, w),
            w,
        ).1 == Some(spec_handle_irq(d).0.read_buffer[k]),
        spec_reader_poll(
            drain_reads(spec_handle_irq(d).0, d.read_buffer.len(), w),
            w,
        ).1 == Some(d.rx_fifo[0]),
{
    let s = spec_handle_irq(d).0;
    assert(s.read_buffer == d.read_buffer.push(d.rx_fifo[0]));
    assert forall|k: int| 0 <= k <= d.read_buffer.len() implies spec_reader_poll(
        #[trigger] drain_reads(s, k as nat, w),
        w,
    ).1 == Some(s.read_buffer[k]) by {
        lemma_drain_reads(s, k as nat, w);
        assert(drain_reads(s, k as nat, w).read_buffer == s.read_buffer.skip(k));
        assert(s.read_buffer.skip(k).len() > 0);
        assert(s.read_buffer.skip(k)[0] == s.read_buffer[k]);
    }
    let kk = d.read_buffer.len() as int;
    assert(spec_reader_poll(drain_reads(s, kk as nat, w), w).1 == Some(s.read_buffer[kk]));
    assert(s.read_buffer[kk] == d.rx_fifo[0]);
    assert(kk as nat == d.read_buffer.len());
}

/// First-in, first-out delivery: with two readers suspended in order
/// and two bytes arriving via the dispatcher, the first reader is
/// resumed first and completes with the first byte, the second with the
/// second; no reordering.
pub proof fn lemma_fifo_reader_order(d: DevModel, r1: WakerId, r2: WakerId, b1: u8, b2: u8)
    requires
        d.read_buffer.len() == 0,
        d.read_waiters == seq![r1, r2],
        d.rx_fifo == seq![b1, b2],
    ensures
        spec_handle_irq(d).1 == Some(r1),
        spec_handle_irq(spec_handle_irq(d).0).1 == Some(r2),
        spec_reader_poll(spec_handle_irq(spec_handle_irq(d).0).0, r1).1 == Some(b1),
        spec_reader_poll(
            spec_reader_poll(spec_handle_irq(spec_handle_irq(d).0).0, r1).0,
            r2,
        ).1 == Some(b2),
{
    let s1 = spec_handle_irq(d).0;
    assert(d.rx_fifo[0] == b1);
    assert(d.read_waiters[0] == r1);
    assert(s1.rx_fifo =~= seq![b2]);
    assert(s1.read_buffer =~= seq![b1]);
    assert(s1.read_waiters =~= seq![r2]);
    let s2 = spec_handle_irq(s1).0;
    assert(s2.read_buffer =~= seq![b1, b2]);
    assert(s2.read_waiters =~= Seq::<WakerId>::empty());
    let p1 = spec_reader_poll(s2, r1).0;
    assert(p1.read_buffer =~= seq![b2]);
}

/// State of the device after a sequence of writer polls, applied left
/// to right, each under its own identity and byte.
pub open spec fn apply_writer_polls(d: DevModel, polls: Seq<(WakerId, u8)>) -> DevModel
    decreases polls.len(),
{
    if polls.len() == 0 {
        d
    } else {
        spec_writer_poll(apply_writer_polls(d, polls.drop_last()), polls.last().0, polls.last().1).0
    }
}

/// A writer poll completes iff it observes the transmitter ready, and
/// then it stores exactly its one byte; a poll that observes it busy
/// stores nothing.
pub proof fn lemma_writer_completes_iff_ready(d: DevModel, w: WakerId, ch: u8)
    ensures
        spec_writer_poll(d, w, ch).1 <==> d.thr_empty,
        spec_writer_poll(d, w, ch).1 ==> spec_writer_poll(d, w, ch).0.tx_history
            == d.tx_history.push(ch),
        !spec_writer_poll(d, w, ch).1 ==> spec_writer_poll(d, w, ch).0.tx_history == d.tx_history,
{
}

/// While the transmitter never becomes ready, any number of writer
/// polls produce no write at all: the transmit history is untouched and
/// the transmitter is still busy.
pub proof fn lemma_no_write_before_ready(d: DevModel, polls: Seq<(WakerId, u8)>)
    requires
        !d.thr_empty,
    ensures
        !apply_writer_polls(d, polls).thr_empty,
        apply_writer_polls(d, polls).tx_history == d.tx_history,
    decreases polls.len(),
{
    if polls.len() == 0 {
    } else {
        lemma_no_write_before_ready(d, polls.drop_last());
    }
}

/// Whether this callback is already registered, so that repeated polls
/// of one suspended operation do not accumulate queue entries.
fn contains_waker(q: &VecDeque<WakerId>, w: WakerId) -> (r: bool)
    ensures
        r == q@.contains(w),
{
    let n = q.len();
    let mut i: usize = 0;
    while i < n
        invariant
            n == q@.len(),
            i <= n,
            forall|j: int| 0 <= j < i ==> q@[j] != w,
        decreases n - i,
    {
        if q[i] == w {
            return true;
        }
        i = i + 1;
    }
    false
}

/// Suspendable read operation: holds the identity under which it
/// suspends and, once completed, the byte it read.
#[derive(Clone, Copy)]
pub struct AsyncCharReader {
    /// The resumption callback's identity for this operation.
    pub waker: WakerId,
    pub state: OpState,
    /// The byte read, once completed.
    pub result: Option<u8>,
}

/// Suspendable write operation: holds the byte to send and the identity
/// under which it suspends.
#[derive(Clone, Copy)]
pub struct AsyncCharWriter {
    /// The resumption callback's identity for this operation.
    pub waker: WakerId,
    /// The byte this operation will store to the transmitter.
    pub ch: u8,
    pub state: OpState,
}

impl AsyncCharReader {
    /// One poll step against the raw device, to run under the
    /// interrupt-free guard: completes with the oldest buffered byte,
    /// or suspends.
    pub fn poll_device(&mut self, dev: &mut NS16550aRaw) -> (r: Poll<u8>)
        requires
            !(old(self).state is Completed),
        ensures
            final(dev)@ == spec_reader_poll(old(dev)@, old(self).waker).0,
            final(dev).base_addr == old(dev).base_addr,
            final(self).waker == old(self).waker,
            match r {
                Poll::Ready(b) => {
                    &&& spec_reader_poll(old(dev)@, old(self).waker).1 == Some(b)
                    &&& final(self).state is Completed
                    &&& final(self).result == Some(b)
                },
                Poll::Pending => {
                    &&& spec_reader_poll(old(dev)@, old(self).waker).1 is None
                    &&& final(self).state is Waiting
                    &&& final(self).result == old(self).result
                },
            },
    {
        if let Some(ch) = dev.read_buffer.pop_front() {
            self.state = OpState::Completed;
            self.result = Some(ch);
            Poll::Ready(ch)
        } else {
            if !contains_waker(&dev.read_waker_list, self.waker) {
                dev.read_waker_list.push_back(self.waker);
            }
            self.state = OpState::Waiting;
            Poll::Pending
        }
    }
}

impl AsyncCharWriter {
    /// One poll step against the raw device, to run under the
    /// interrupt-free guard: stores exactly its byte when the
    /// transmitter is ready, or suspends without writing anything.
    pub fn poll_device(&mut self, dev: &mut NS16550aRaw) -> (r: Poll<()>)
        requires
            !(old(self).state is Completed),
        ensures
            final(dev)@ == spec_writer_poll(old(dev)@, old(self).waker, old(self).ch).0,
            final(dev).base_addr == old(dev).base_addr,
            final(self).waker == old(self).waker,
            final(self).ch == old(self).ch,
            match r {
                Poll::Ready(u) => {
                    &&& spec_writer_poll(old(dev)@, old(self).waker, old(self).ch).1
                    &&& final(self).state is Completed
                },
                Poll::Pending => {
                    &&& !spec_writer_poll(old(dev)@, old(self).waker, old(self).ch).1
                    &&& final(self).state is Waiting
                },
            },
    {
        if dev.writable() {
            dev.write_thr(self.ch);
            self.state = OpState::Completed;
            Poll::Ready(())
        } else {
            if !contains_waker(&dev.write_waker_list, self.waker) {
                dev.write_waker_list.push_back(self.waker);
            }
            self.state = OpState::Waiting;
            Poll::Pending
        }
    }
}

impl AsyncCharReader {
    /// One poll of the read operation: takes the interrupt-free guard,
    /// runs the poll step against the raw device, releases the guard.
    pub fn poll(
        &mut self,
        uart: &mut AsyncNS16550a,
        mask: &mut IntrMaskingInfo,
        line: &mut IntrLine,
    ) -> (r: Poll<u8>)
        requires
            !(old(self).state is Completed),
            !old(uart).inner.is_borrowed(),
            old(mask).nested_level < usize::MAX,
            old(mask).nested_level > 0 ==> !old(line).enabled,
        ensures
            !final(uart).inner.is_borrowed(),
            final(uart).inner.contents()@ == spec_reader_poll(
                old(uart).inner.contents()@,
                old(self).waker,
            ).0,
            final(uart).inner.contents().base_addr == old(uart).inner.contents().base_addr,
            final(self).waker == old(self).waker,
            guard_round_trip(*old(mask), *old(line), *final(mask), *final(line)),
            match r {
                Poll::Ready(b) => {
                    &&& spec_reader_poll(old(uart).inner.contents()@, old(self).waker).1 == Some(b)
                    &&& final(self).state is Completed
                    &&& final(self).result == Some(b)
                },
                Poll::Pending => {
                    &&& spec_reader_poll(old(uart).inner.contents()@, old(self).waker).1 is None
                    &&& final(self).state is Waiting
                    &&& final(self).result == old(self).result
                },
            },
    {
        let mut dev = uart.inner.exclusive_access(mask, line);
        let r = self.poll_device(&mut dev);
        uart.inner.release(dev, mask, line);
        r
    }
}

impl AsyncCharWriter {
    /// One poll of the write operation: takes the interrupt-free guard,
    /// runs the poll step against the raw device, releases the guard.
    pub fn poll(
        &mut self,
        uart: &mut AsyncNS16550a,
        mask: &mut IntrMaskingInfo,
        line: &mut IntrLine,
    ) -> (r: Poll<()>)
        requires
            !(old(self).state is Completed),
            !old(uart).inner.is_borrowed(),
            old(mask).nested_level < usize::MAX,
            old(mask).nested_level > 0 ==> !old(line).enabled,
        ensures
            !final(uart).inner.is_borrowed(),
            final(uart).inner.contents()@ == spec_writer_poll(
                old(uart).inner.contents()@,
                old(self).waker,
                old(self).ch,
            ).0,
            final(uart).inner.contents().base_addr == old(uart).inner.contents().base_addr,
            final(self).waker == old(self).waker,
            final(self).ch == old(self).ch,
            guard_round_trip(*old(mask), *old(line), *final(mask), *final(line)),
            match r {
                Poll::Ready(u) => {
                    &&& spec_writer_poll(old(uart).inner.contents()@, old(self).waker, old(self).ch).1
                    &&& final(self).state is Completed
                },
                Poll::Pending => {
                    &&& !spec_writer_poll(old(uart).inner.contents()@, old(self).waker, old(self).ch).1
                    &&& final(self).state is Waiting
                },
            },
    {
        let mut dev = uart.inner.exclusive_access(mask, line);
        let r = self.poll_device(&mut dev);
        uart.inner.release(dev, mask, line);
        r
    }
}

/// The character device as the rest of the process sees it: the raw
/// device behind an interrupt-free cell, so poll-side and
/// interrupt-side access are strictly serialized.
pub struct AsyncNS16550a {
    pub inner: UPIntrFreeCell<NS16550aRaw>,
}

impl AsyncNS16550a {
    pub fn new(base_addr: usize) -> (r: Self)
        ensures
            !r.inner.is_borrowed(),
            r.inner.contents()@ == (DevModel {
                rx_fifo: Seq::<u8>::empty(),
                thr_empty: true,
                tx_history: Seq::<u8>::empty(),
                read_buffer: Seq::<u8>::empty(),
                read_waiters: Seq::<WakerId>::empty(),
                write_waiters: Seq::<WakerId>::empty(),
                ier: 0,
                mcr: 0,
            }),
            r.inner.contents().base_addr == base_addr,
    {
        AsyncNS16550a { inner: UPIntrFreeCell::new(NS16550aRaw::new(base_addr)) }
    }

    /// Bring the device to an operational state, under the guard.
    pub fn init(&mut self, mask: &mut IntrMaskingInfo, line: &mut IntrLine)
        requires
            !old(self).inner.is_borrowed(),
            old(mask).nested_level < usize::MAX,
            old(mask).nested_level > 0 ==> !old(line).enabled,
        ensures
            !final(self).inner.is_borrowed(),
            final(self).inner.contents()@ == (DevModel {
                mcr: (crate::uart::MCR_DATA_TERMINAL_READY | crate::uart::MCR_REQUEST_TO_SEND
                    | crate::uart::MCR_AUX_OUTPUT2),
                ier: crate::uart::IER_RX_AVAILABLE,
                ..old(self).inner.contents()@
            }),
            final(self).inner.contents().base_addr == old(self).inner.contents().base_addr,
            guard_round_trip(*old(mask), *old(line), *final(mask), *final(line)),
    {
        let mut dev = self.inner.exclusive_access(mask, line);
        dev.init();
        self.inner.release(dev, mask, line);
    }

    /// Start a suspendable read operation under the given resumption
    /// identity.
    pub fn read(&self, waker: WakerId) -> (op: AsyncCharReader)
        ensures
            op.waker == waker,
            op.state is Idle,
            op.result is None,
    {
        AsyncCharReader { waker, state: OpState::Idle, result: None }
    }

    /// Start a suspendable write operation for one byte under the given
    /// resumption identity.
    pub fn write(&self, ch: u8, waker: WakerId) -> (op: AsyncCharWriter)
        ensures
            op.waker == waker,
            op.ch == ch,
            op.state is Idle,
    {
        AsyncCharWriter { waker, ch, state: OpState::Idle }
    }

    /// Hardware activity landing in the modeled registers.  At the
    /// halt point no guard is held, so the acquire here stands for the
    /// register change happening between two instructions; the
    /// dispatcher is then invoked separately once the interrupt fires.
    pub fn hw_event(&mut self, ev: crate::uart::HwEvent, mask: &mut IntrMaskingInfo, line: &mut IntrLine)
        requires
            !old(self).inner.is_borrowed(),
            old(mask).nested_level < usize::MAX,
            old(mask).nested_level > 0 ==> !old(line).enabled,
        ensures
            !final(self).inner.is_borrowed(),
            final(self).inner.contents().base_addr == old(self).inner.contents().base_addr,
            final(self).inner.contents()@ == (match ev {
                crate::uart::HwEvent::Recv(b) => DevModel {
                    rx_fifo: old(self).inner.contents()@.rx_fifo.push(b),
                    ..old(self).inner.contents()@
                },
                crate::uart::HwEvent::TxIdle => DevModel {
                    thr_empty: true,
                    ..old(self).inner.contents()@
                },
            }),
            guard_round_trip(*old(mask), *old(line), *final(mask), *final(line)),
    {
        let mut dev = self.inner.exclusive_access(mask, line);
        match ev {
            crate::uart::HwEvent::Recv(b) => dev.hw_receive_byte(b),
            crate::uart::HwEvent::TxIdle => dev.hw_tx_complete(),
        }
        self.inner.release(dev, mask, line);
    }

    /// The interrupt dispatcher: under the guard, drain at most one
    /// received byte into the buffer, resume the oldest waiting reader
    /// if any, and if the transmitter is ready resume the oldest
    /// waiting writer.  Each resumption raises the scheduler's pend
    /// signal.  Never blocks, never does unbounded work.
    pub fn handle_irq(&mut self, mask: &mut IntrMaskingInfo, line: &mut IntrLine, flags: &mut SchedFlags) -> (woken: (
        Option<WakerId>,
        Option<WakerId>,
    ))
        requires
            !old(self).inner.is_borrowed(),
            old(mask).nested_level < usize::MAX,
            old(mask).nested_level > 0 ==> !old(line).enabled,
        ensures
            !final(self).inner.is_borrowed(),
            final(self).inner.contents()@ == spec_handle_irq(old(self).inner.contents()@).0,
            final(self).inner.contents().base_addr == old(self).inner.contents().base_addr,
            woken.0 == spec_handle_irq(old(self).inner.contents()@).1,
            woken.1 == spec_handle_irq(old(self).inner.contents()@).2,
            guard_round_trip(*old(mask), *old(line), *final(mask), *final(line)),
            final(flags).work_pending == (old(flags).work_pending || woken.0 is Some
                || woken.1 is Some),
            final(flags).finished == old(flags).finished,
    {
        let mut dev = self.inner.exclusive_access(mask, line);
        let mut woken_r: Option<WakerId> = None;
        let mut woken_w: Option<WakerId> = None;
        if let Some(ch) = dev.read() {
            dev.read_buffer.push_back(ch);
            if dev.read_waker_list.len() > 0 {
                woken_r = dev.read_waker_list.pop_front();
            }
        }
        if dev.writable() {
            if dev.write_waker_list.len() > 0 {
                woken_w = dev.write_waker_list.pop_front();
            }
        }
        if woken_r.is_some() {
            __pender(flags);
        }
        if woken_w.is_some() {
            __pender(flags);
        }
        self.inner.release(dev, mask, line);
        (woken_r, woken_w)
    }
}

/// Entry from the hardware interrupt vector.  Interrupt delivery
/// happens only while the interrupt-enable line is on; while any
/// interrupt-free guard is held the line is off, so the dispatcher
/// neither observes nor mutates anything and the interrupt stays
/// pending at the hardware.  Returns the resumed callbacks, or `None`
/// when delivery was masked.
pub fn try_deliver_irq(
    uart: &mut AsyncNS16550a,
    mask: &mut IntrMaskingInfo,
    line: &mut IntrLine,
    flags: &mut SchedFlags,
) -> (delivered: Option<(Option<WakerId>, Option<WakerId>)>)
    requires
        old(line).enabled ==> !old(uart).inner.is_borrowed(),
        old(mask).nested_level > 0 ==> !old(line).enabled,
        old(mask).nested_level < usize::MAX,
    ensures
        !old(line).enabled ==> {
            &&& delivered is None
            &&& *final(uart) == *old(uart)
            &&& *final(mask) == *old(mask)
            &&& *final(line) == *old(line)
            &&& *final(flags) == *old(flags)
        },
        old(line).enabled ==> {
            &&& delivered == Some(
                (
                    spec_handle_irq(old(uart).inner.contents()@).1,
                    spec_handle_irq(old(uart).inner.contents()@).2,
                ),
            )
            &&& !final(uart).inner.is_borrowed()
            &&& final(uart).inner.contents()@ == spec_handle_irq(old(uart).inner.contents()@).0
            &&& final(uart).inner.contents().base_addr == old(uart).inner.contents().base_addr
            &&& guard_round_trip(*old(mask), *old(line), *final(mask), *final(line))
            &&& final(flags).finished == old(flags).finished
            &&& final(flags).work_pending == (old(flags).work_pending || spec_handle_irq(
                old(uart).inner.contents()@,
            ).1 is Some || spec_handle_irq(old(uart).inner.contents()@).2 is Some)
        },
{
    if line.enabled {
        let woken = uart.handle_irq(mask, line, flags);
        Some(woken)
    } else {
        None
    }
}

} // verus!
