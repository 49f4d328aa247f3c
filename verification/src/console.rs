//! Console output: the synchronous, blocking transmit path.
//!
//! Console text is emitted byte by byte: each byte waits until the
//! transmitter holding register is empty and is then stored to it.  The
//! wait makes progress because the transmitter empties on its own — the
//! hardware shifts the pending byte out with no help from software — so
//! the spin is modeled by advancing the transmitter to idle before the
//! store.  Each byte is emitted under the interrupt-free guard, which
//! is re-acquired per byte so interrupts are not masked across the
//! whole message.

use vstd::prelude::*;

use crate::driver::AsyncNS16550a;
use crate::masking::IntrLine;
use crate::masking::IntrMaskingInfo;
use crate::masking::guard_round_trip;
use crate::uart::DevModel;

verus! {

/// Write a message to the console device: every byte of `s` is handed
/// to the transmitter, in order, each after waiting out the previous
/// transmission.  Nothing else of the device moves.
pub fn print(
    uart: &mut AsyncNS16550a,
    mask: &mut IntrMaskingInfo,
    line: &mut IntrLine,
    s: &[u8],
)
    requires
        !old(uart).inner.is_borrowed(),
        old(mask).nested_level < usize::MAX,
        old(mask).nested_level > 0 ==> !old(line).enabled,
    ensures
        !final(uart).inner.is_borrowed(),
        final(uart).inner.contents()@ == (DevModel {
            tx_history: old(uart).inner.contents()@.tx_history + s@,
            thr_empty: (if s@.len() == 0 {
                old(uart).inner.contents()@.thr_empty
            } else {
                false
            }),
            ..old(uart).inner.contents()@
        }),
        final(uart).inner.contents().base_addr == old(uart).inner.contents().base_addr,
        s@.len() == 0 ==> *final(mask) == *old(mask) && *final(line) == *old(line),
        s@.len() > 0 ==> guard_round_trip(*old(mask), *old(line), *final(mask), *final(line)),
{
    let n = s.len();
    let mut i: usize = 0;
    while i < n
        invariant
            n == s@.len(),
            i <= n,
            !uart.inner.is_borrowed(),
            mask.nested_level < usize::MAX,
            mask.nested_level > 0 ==> !line.enabled,
            uart.inner.contents()@ == (DevModel {
                tx_history: old(uart).inner.contents()@.tx_history + s@.subrange(0, i as int),
                thr_empty: (if i == 0 {
                    old(uart).inner.contents()@.thr_empty
                } else {
                    false
                }),
                ..old(uart).inner.contents()@
            }),
            uart.inner.contents().base_addr == old(uart).inner.contents().base_addr,
            i == 0 ==> *mask == *old(mask) && *line == *old(line),
            i > 0 ==> guard_round_trip(*old(mask), *old(line), *mask, *line),
        decreases n - i,
    {
        let mut dev = uart.inner.exclusive_access(mask, line);
        if !dev.writable() {
            // The previous byte finishes shifting out; the spin ends.
            dev.hw_tx_complete();
        }
        dev.write_thr(s[i]);
        uart.inner.release(dev, mask, line);
        proof {
            assert(s@.subrange(0, i + 1) == s@.subrange(0, i as int).push(s@[i as int]));
        }
        i = i + 1;
    }
    proof {
        assert(s@.subrange(0, n as int) == s@);
        if s@.len() == 0 {
            assert(old(uart).inner.contents()@.tx_history + s@ =~= old(
                uart,
            ).inner.contents()@.tx_history);
        }
        assert(uart.inner.contents()@ =~= DevModel {
            tx_history: old(uart).inner.contents()@.tx_history + s@,
            thr_empty: (if s@.len() == 0 {
                old(uart).inner.contents()@.thr_empty
            } else {
                false
            }),
            ..old(uart).inner.contents()@
        });
    }
}

} // verus!
