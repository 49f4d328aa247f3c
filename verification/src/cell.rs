//! Exclusive-access cells.
//!
//! On a single core, shared mutable state needs no true lock: it is
//! enough to check that at most one borrow of a cell is live at a time.
//! `UPSafeCell` tracks that single live borrow; taking a second one is
//! a fatal programming error and is ruled out by precondition here.
//! `UPIntrFreeCell` additionally pairs the borrow with the process-wide
//! masking counter, so that holding the borrow also keeps the interrupt
//! dispatcher from running.
//!
//! A live borrow moves the value out of the cell, so code without the
//! borrow cannot reach the protected value at all; `release` puts the
//! value back and is the explicit counterpart of dropping a guard.

use vstd::prelude::*;

use crate::masking::IntrLine;
use crate::masking::IntrMaskingInfo;
use crate::masking::mask_state;
use crate::masking::spec_enter;
use crate::masking::spec_exit;

verus! {

/// Single-owner wrapper for state shared across a uniprocessor: at most
/// one exclusive borrow may be live; a second concurrent borrow is a
/// fatal invariant violation.
pub struct UPSafeCell<T> {
    value: Option<T>,
}

impl<T> UPSafeCell<T> {
    /// Whether an exclusive borrow is currently live.
    pub closed spec fn is_borrowed(&self) -> bool {
        self.value is None
    }

    /// The protected value, meaningful only while not borrowed.
    pub closed spec fn contents(&self) -> T
        recommends
            !self.is_borrowed(),
    {
        self.value->Some_0
    }

    pub fn new(value: T) -> (r: Self)
        ensures
            !r.is_borrowed(),
            r.contents() == value,
    {
        UPSafeCell { value: Some(value) }
    }

    /// Take the single exclusive borrow, moving the value out until
    /// `release` returns it.  Borrowing an already borrowed cell is
    /// fatal and excluded by precondition.
    pub fn exclusive_access(&mut self) -> (v: T)
        requires
            !old(self).is_borrowed(),
        ensures
            final(self).is_borrowed(),
            v == old(self).contents(),
    {
        self.value.take().unwrap()
    }

    /// End the exclusive borrow, storing the value back.
    pub fn release(&mut self, value: T)
        requires
            old(self).is_borrowed(),
        ensures
            !final(self).is_borrowed(),
            final(self).contents() == value,
    {
        self.value = Some(value);
    }
}

/// Exclusive-access cell whose borrow additionally masks interrupts:
/// acquiring enters the process-wide masking counter before taking the
/// borrow, and releasing drops the borrow before leaving the counter,
/// so interrupt-context code never observes or mutates the protected
/// value while any holder, nested ones included, is live.
pub struct UPIntrFreeCell<T> {
    value: Option<T>,
}

impl<T> UPIntrFreeCell<T> {
    /// Whether an exclusive borrow is currently live.
    pub closed spec fn is_borrowed(&self) -> bool {
        self.value is None
    }

    /// The protected value, meaningful only while not borrowed.
    pub closed spec fn contents(&self) -> T
        recommends
            !self.is_borrowed(),
    {
        self.value->Some_0
    }

    pub fn new(value: T) -> (r: Self)
        ensures
            !r.is_borrowed(),
            r.contents() == value,
    {
        UPIntrFreeCell { value: Some(value) }
    }

    /// Acquire: enter one nested mask (disabling interrupt delivery),
    /// then take the exclusive borrow.  Borrowing an already borrowed
    /// cell is fatal and excluded by precondition.
    pub fn exclusive_access(&mut self, mask: &mut IntrMaskingInfo, line: &mut IntrLine) -> (v: T)
        requires
            !old(self).is_borrowed(),
            old(mask).nested_level < usize::MAX,
        ensures
            final(self).is_borrowed(),
            v == old(self).contents(),
            mask_state(*final(mask), *final(line)) == spec_enter(
                mask_state(*old(mask), *old(line)),
            ),
            final(mask).nested_level == old(mask).nested_level + 1,
            !final(line).enabled,
    {
        mask.enter(line);
        self.value.take().unwrap()
    }

    /// Scoped session: run the supplied operation on the protected
    /// value under the guard, and release unconditionally afterwards.
    /// The operation receives the value and hands it back beside its
    /// result, so the borrow cannot outlive the session.
    pub fn exclusive_session<F, V>(
        &mut self,
        mask: &mut IntrMaskingInfo,
        line: &mut IntrLine,
        f: F,
    ) -> (v: V) where F: FnOnce(T) -> (T, V)
        requires
            !old(self).is_borrowed(),
            old(mask).nested_level < usize::MAX,
            call_requires(f, (old(self).contents(),)),
        ensures
            !final(self).is_borrowed(),
            call_ensures(f, (old(self).contents(),), (final(self).contents(), v)),
            mask_state(*final(mask), *final(line)) == spec_exit(
                spec_enter(mask_state(*old(mask), *old(line))),
            ),
            final(mask).nested_level == old(mask).nested_level,
    {
        let inner = self.exclusive_access(mask, line);
        let (inner_after, v) = f(inner);
        self.release(inner_after, mask, line);
        v
    }

    /// Release, in this order: store the value back ending the borrow,
    /// then leave one nested mask (re-enabling interrupt delivery only
    /// on the outermost release, and only if interrupts were enabled
    /// before the outermost acquire).
    pub fn release(&mut self, value: T, mask: &mut IntrMaskingInfo, line: &mut IntrLine)
        requires
            old(self).is_borrowed(),
            old(mask).nested_level > 0,
        ensures
            !final(self).is_borrowed(),
            final(self).contents() == value,
            mask_state(*final(mask), *final(line)) == spec_exit(
                mask_state(*old(mask), *old(line)),
            ),
            final(mask).nested_level == old(mask).nested_level - 1,
    {
        self.value = Some(value);
        mask.exit(line);
    }
}

} // verus!
