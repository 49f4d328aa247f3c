//! Nested interrupt masking.
//!
//! A single core delivers interrupts only while its global
//! interrupt-enable line is on.  Code that must not be preempted masks
//! interrupts; masking is re-entrant, so a process-wide counter records
//! the nesting depth and whether interrupts were enabled before the
//! first mask.  Interrupts are re-enabled only when the last nested
//! mask is released, and only if they were enabled originally.

use vstd::prelude::*;

verus! {

/// The core's global interrupt-enable line, modeled as explicit state.
/// On real hardware this is a bit of the processor status register,
/// toggled by privileged instructions.
pub struct IntrLine {
    /// Whether the hardware currently delivers interrupts.
    pub enabled: bool,
}

impl IntrLine {
    pub fn new(enabled: bool) -> (r: Self)
        ensures
            r.enabled == enabled,
    {
        IntrLine { enabled }
    }

    /// Atomically read the current enablement and disable delivery;
    /// models the swap-and-disable privileged operation.
    pub fn swap_and_disable_intr(&mut self) -> (prev: bool)
        ensures
            prev == old(self).enabled,
            !final(self).enabled,
    {
        let prev = self.enabled;
        self.enabled = false;
        prev
    }

    /// Re-enable interrupt delivery; models the enable privileged
    /// operation.
    pub fn enable_intr(&mut self)
        ensures
            final(self).enabled,
    {
        self.enabled = true;
    }
}

/// Process-wide masking counter: how many nested masks are live, and
/// whether interrupts were enabled before the outermost one.
pub struct IntrMaskingInfo {
    pub nested_level: usize,
    pub intr_enable_before_masking: bool,
}

/// Mathematical state of the masking counter together with the
/// interrupt line, for stating the masking laws.
pub struct MaskState {
    pub nested_level: nat,
    pub saved: bool,
    pub line_enabled: bool,
}

/// The joint state of a masking counter and the interrupt line.
pub open spec fn mask_state(m: IntrMaskingInfo, line: IntrLine) -> MaskState {
    MaskState {
        nested_level: m.nested_level as nat,
        saved: m.intr_enable_before_masking,
        line_enabled: line.enabled,
    }
}

/// Effect of one `enter`: disable the line, remember the prior
/// enablement on the outermost transition, deepen the nesting.
pub open spec fn spec_enter(s: MaskState) -> MaskState {
    MaskState {
        nested_level: s.nested_level + 1,
        saved: if s.nested_level == 0 {
            s.line_enabled
        } else {
            s.saved
        },
        line_enabled: false,
    }
}

/// Effect of one `exit`: shallow the nesting; re-enable the line only
/// on the innermost-to-zero transition, and only if interrupts were
/// enabled before the outermost mask.
pub open spec fn spec_exit(s: MaskState) -> MaskState
    recommends
        s.nested_level > 0,
{
    let d = (s.nested_level - 1) as nat;
    MaskState {
        nested_level: d,
        saved: s.saved,
        line_enabled: if d == 0 && s.saved {
            true
        } else {
            s.line_enabled
        },
    }
}

impl IntrMaskingInfo {
    pub fn new() -> (r: Self)
        ensures
            r.nested_level == 0,
            !r.intr_enable_before_masking,
    {
        IntrMaskingInfo { nested_level: 0, intr_enable_before_masking: false }
    }

    /// Acquire one nested mask: disables interrupt delivery in
    /// hardware, and on the outermost acquisition records whether it
    /// was enabled beforehand.
    pub fn enter(&mut self, line: &mut IntrLine)
        requires
            old(self).nested_level < usize::MAX,
        ensures
            mask_state(*final(self), *final(line)) == spec_enter(
                mask_state(*old(self), *old(line)),
            ),
            final(self).nested_level == old(self).nested_level + 1,
            !final(line).enabled,
    {
        let prev_enable = line.swap_and_disable_intr();
        if self.nested_level == 0 {
            self.intr_enable_before_masking = prev_enable;
        }
        self.nested_level = self.nested_level + 1;
    }

    /// Release one nested mask: re-enables interrupt delivery only when
    /// the last mask goes away and interrupts were enabled before the
    /// first one.
    pub fn exit(&mut self, line: &mut IntrLine)
        requires
            old(self).nested_level > 0,
        ensures
            mask_state(*final(self), *final(line)) == spec_exit(
                mask_state(*old(self), *old(line)),
            ),
            final(self).nested_level == old(self).nested_level - 1,
    {
        self.nested_level = self.nested_level - 1;
        if self.nested_level == 0 && self.intr_enable_before_masking {
            line.enable_intr();
        }
    }
}

/// How one paired enter/exit round trip leaves the counter and the
/// line, seen from outside: the depth and the line are restored, and
/// the saved enablement is the line's value at the outermost acquire.
/// Holds provided the system invariant that the line is disabled
/// whenever some mask is already held.
pub open spec fn guard_round_trip(
    m0: IntrMaskingInfo,
    l0: IntrLine,
    m1: IntrMaskingInfo,
    l1: IntrLine,
) -> bool {
    &&& m1.nested_level == m0.nested_level
    &&& l1.enabled == l0.enabled
    &&& m1.intr_enable_before_masking == (if m0.nested_level == 0 {
        l0.enabled
    } else {
        m0.intr_enable_before_masking
    })
}

/// One masking call, for stating laws over call sequences.
pub enum MaskOp {
    Enter,
    Exit,
}

/// Effect of one masking call on the joint state.
pub open spec fn apply_op(s: MaskState, op: MaskOp) -> MaskState {
    match op {
        MaskOp::Enter => spec_enter(s),
        MaskOp::Exit => spec_exit(s),
    }
}

/// Effect of a sequence of masking calls, applied left to right.
pub open spec fn apply_ops(s: MaskState, ops: Seq<MaskOp>) -> MaskState
    decreases ops.len(),
{
    if ops.len() == 0 {
        s
    } else {
        apply_op(apply_ops(s, ops.drop_last()), ops.last())
    }
}

/// Net nesting contribution of a call sequence: enters minus exits.
pub open spec fn net_depth(ops: Seq<MaskOp>) -> int
    decreases ops.len(),
{
    if ops.len() == 0 {
        0
    } else {
        net_depth(ops.drop_last()) + (match ops.last() {
            MaskOp::Enter => 1int,
            MaskOp::Exit => -1int,
        })
    }
}

/// A call sequence is well nested when no prefix exits more than it has
/// entered and the whole sequence balances.
pub open spec fn well_nested(ops: Seq<MaskOp>) -> bool {
    &&& net_depth(ops) == 0
    &&& forall|i: int| 0 <= i <= ops.len() ==> net_depth(#[trigger] ops.subrange(0, i)) >= 0
}

/// Running a prefix-nonnegative call sequence from an unmasked state:
/// the nesting depth tracks the net count; while the net count is
/// positive the line is disabled and the saved enablement is the
/// original one; when the net count returns to zero the line is back to
/// its original enablement.
proof fn lemma_apply_tracks_net(s: MaskState, ops: Seq<MaskOp>)
    requires
        s.nested_level == 0,
        forall|i: int| 0 <= i <= ops.len() ==> net_depth(#[trigger] ops.subrange(0, i)) >= 0,
    ensures
        apply_ops(s, ops).nested_level == net_depth(ops),
        net_depth(ops) == 0 ==> apply_ops(s, ops).line_enabled == s.line_enabled,
        net_depth(ops) > 0 ==> !apply_ops(s, ops).line_enabled && apply_ops(s, ops).saved
            == s.line_enabled,
    decreases ops.len(),
{
    if ops.len() == 0 {
    } else {
        let head = ops.drop_last();
        assert forall|i: int| 0 <= i <= head.len() implies net_depth(
            #[trigger] head.subrange(0, i),
        ) >= 0 by {
            assert(head.subrange(0, i) == ops.subrange(0, i));
        }
        lemma_apply_tracks_net(s, head);
        assert(ops.subrange(0, ops.len() as int) == ops);
        assert(head == ops.subrange(0, ops.len() - 1));
        let t = apply_ops(s, head);
        match ops.last() {
            MaskOp::Enter => {
                if net_depth(head) == 0 {
                    assert(apply_ops(s, ops) == spec_enter(t));
                }
            },
            MaskOp::Exit => {
                assert(net_depth(ops) == net_depth(head) - 1);
                assert(net_depth(ops) >= 0);
                assert(net_depth(head) > 0);
            },
        }
    }
}

/// For any well-nested sequence of enter/exit calls starting unmasked,
/// the nesting counter returns to zero and interrupts are enabled at
/// the end iff they were enabled before the first enter.
pub proof fn lemma_well_nested_masking(s: MaskState, ops: Seq<MaskOp>)
    requires
        s.nested_level == 0,
        well_nested(ops),
    ensures
        apply_ops(s, ops).nested_level == 0,
        apply_ops(s, ops).line_enabled == s.line_enabled,
{
    lemma_apply_tracks_net(s, ops);
}

/// While at least one mask is held, no sequence of further well-behaved
/// enter/exit calls re-enables the interrupt line: interrupt-context
/// code stays excluded for the whole nested duration.
pub proof fn lemma_line_disabled_while_nested(s: MaskState, ops: Seq<MaskOp>)
    requires
        s.nested_level > 0,
        !s.line_enabled,
        forall|i: int| 0 <= i <= ops.len() ==> s.nested_level + net_depth(
            #[trigger] ops.subrange(0, i),
        ) > 0,
    ensures
        apply_ops(s, ops).nested_level == s.nested_level + net_depth(ops),
        !apply_ops(s, ops).line_enabled,
    decreases ops.len(),
{
    if ops.len() == 0 {
    } else {
        let head = ops.drop_last();
        assert forall|i: int| 0 <= i <= head.len() implies s.nested_level + net_depth(
            #[trigger] head.subrange(0, i),
        ) > 0 by {
            assert(head.subrange(0, i) == ops.subrange(0, i));
        }
        lemma_line_disabled_while_nested(s, head);
        assert(ops.subrange(0, ops.len() as int) == ops);
        assert(head == ops.subrange(0, ops.len() - 1));
    }
}

} // verus!
