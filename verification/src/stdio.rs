//! Standard input and output, built on the character device.
//!
//! Stdin reads one byte at a time through a suspendable read operation;
//! stdout writes whole buffers through the console path.  Blocking is
//! the scheduler's business: one call here is one poll step, and a step
//! that would block reports so instead, to be retried after the
//! operation is resumed.

use vstd::prelude::*;

use crate::driver::AsyncCharReader;
use crate::driver::AsyncNS16550a;
use crate::driver::Poll;
use crate::driver::spec_reader_poll;
use crate::masking::IntrLine;
use crate::masking::IntrMaskingInfo;
use crate::masking::guard_round_trip;
use crate::uart::DevModel;
use crate::uart::WakerId;

verus! {

/// One await step of reading a byte from the device: polls the given
/// read operation once under the interrupt-free guard.
pub fn read_char(
    uart: &mut AsyncNS16550a,
    op: &mut AsyncCharReader,
    mask: &mut IntrMaskingInfo,
    line: &mut IntrLine,
) -> (r: Poll<u8>)
    requires
        !(old(op).state is Completed),
        !old(uart).inner.is_borrowed(),
        old(mask).nested_level < usize::MAX,
        old(mask).nested_level > 0 ==> !old(line).enabled,
    ensures
        !final(uart).inner.is_borrowed(),
        final(uart).inner.contents()@ == spec_reader_poll(
            old(uart).inner.contents()@,
            old(op).waker,
        ).0,
        final(uart).inner.contents().base_addr == old(uart).inner.contents().base_addr,
        final(op).waker == old(op).waker,
        guard_round_trip(*old(mask), *old(line), *final(mask), *final(line)),
        match r {
            Poll::Ready(b) => {
                &&& spec_reader_poll(old(uart).inner.contents()@, old(op).waker).1 == Some(b)
                &&& final(op).state is Completed
                &&& final(op).result == Some(b)
            },
            Poll::Pending => {
                &&& spec_reader_poll(old(uart).inner.contents()@, old(op).waker).1 is None
                &&& final(op).state is Waiting
                &&& final(op).result == old(op).result
            },
        },
{
    op.poll(uart, mask, line)
}

/// Standard input: readable, not writable; delivers bytes received by
/// the device.
pub struct Stdin {}

/// Standard output: writable, not readable; emits bytes through the
/// console path.
pub struct Stdout {}

impl Stdin {
    pub fn readable(&self) -> (r: bool)
        ensures
            r,
    {
        true
    }

    pub fn writable(&self) -> (r: bool)
        ensures
            !r,
    {
        false
    }

    /// One step of the blocking one-byte read: when a received byte is
    /// buffered, store it into the single-slot buffer and report one
    /// byte read; otherwise the operation suspends and the caller
    /// retries after resumption, reporting no byte yet.
    pub fn read(
        &self,
        uart: &mut AsyncNS16550a,
        op: &mut AsyncCharReader,
        mask: &mut IntrMaskingInfo,
        line: &mut IntrLine,
        buf: &mut Vec<u8>,
    ) -> (n: usize)
        requires
            old(buf).len() == 1,
            !(old(op).state is Completed),
            !old(uart).inner.is_borrowed(),
            old(mask).nested_level < usize::MAX,
            old(mask).nested_level > 0 ==> !old(line).enabled,
        ensures
            !final(uart).inner.is_borrowed(),
            final(uart).inner.contents()@ == spec_reader_poll(
                old(uart).inner.contents()@,
                old(op).waker,
            ).0,
            guard_round_trip(*old(mask), *old(line), *final(mask), *final(line)),
            final(uart).inner.contents().base_addr == old(uart).inner.contents().base_addr,
            final(buf).len() == 1,
            final(op).waker == old(op).waker,
            n == 1 || n == 0,
            n == 1 <==> spec_reader_poll(old(uart).inner.contents()@, old(op).waker).1 is Some,
            n == 1 ==> Some(final(buf)@[0]) == spec_reader_poll(
                old(uart).inner.contents()@,
                old(op).waker,
            ).1 && final(op).state is Completed && final(op).result == spec_reader_poll(
                old(uart).inner.contents()@,
                old(op).waker,
            ).1,
            n == 0 ==> final(buf)@ == old(buf)@ && final(op).state is Waiting && final(op).result
                == old(op).result,
    {
        let r = read_char(uart, op, mask, line);
        match r {
            Poll::Ready(b) => {
                buf.set(0, b);
                1
            },
            Poll::Pending => 0,
        }
    }
}

impl Stdout {
    pub fn readable(&self) -> (r: bool)
        ensures
            !r,
    {
        false
    }

    pub fn writable(&self) -> (r: bool)
        ensures
            r,
    {
        true
    }

    /// Write the whole buffer to the console and report how much was
    /// written: always all of it.  Nothing of the device moves but the
    /// transmit side.
    pub fn write(
        &self,
        uart: &mut AsyncNS16550a,
        mask: &mut IntrMaskingInfo,
        line: &mut IntrLine,
        buf: &[u8],
    ) -> (n: usize)
        requires
            !old(uart).inner.is_borrowed(),
            old(mask).nested_level < usize::MAX,
            old(mask).nested_level > 0 ==> !old(line).enabled,
        ensures
            !final(uart).inner.is_borrowed(),
            final(uart).inner.contents()@ == (DevModel {
                tx_history: old(uart).inner.contents()@.tx_history + buf@,
                thr_empty: (if buf@.len() == 0 {
                    old(uart).inner.contents()@.thr_empty
                } else {
                    false
                }),
                ..old(uart).inner.contents()@
            }),
            final(uart).inner.contents().base_addr == old(uart).inner.contents().base_addr,
            n == buf@.len(),
            buf@.len() == 0 ==> *final(mask) == *old(mask) && *final(line) == *old(line),
            buf@.len() > 0 ==> guard_round_trip(*old(mask), *old(line), *final(mask), *final(line)),
    {
        crate::console::print(uart, mask, line, buf);
        buf.len()
    }
}

} // verus!
