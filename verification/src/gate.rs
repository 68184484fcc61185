//! The change gate: the sole write path into a text element's content.

use vstd::prelude::*;

use crate::text::TextElement;

verus! {

/// The relation between a text element before and after one gate application:
/// content equal to the committed content passes through as a no-op; different
/// content is written to both content fields and invalidates the measured
/// size, signalling downstream that a fresh measurement is required.
pub open spec fn gate_spec(before: TextElement, proposed: Seq<char>, after: TextElement) -> bool {
    if proposed == before.committed_content@ {
        after == before
    } else {
        &&& after.role == before.role
        &&& after.content@ == proposed
        &&& after.committed_content@ == proposed
        &&& after.measured_size is None
    }
}

/// Compares proposed content against committed content and forwards a write
/// only when they differ.
pub struct ChangeGate {}

impl ChangeGate {
    /// Apply proposed content to an element through the change gate.  Returns whether
    /// the element changed, which is also exactly when a measurement was
    /// invalidated.
    pub fn apply(element: &mut TextElement, proposed: String) -> (changed: bool)
        requires
            old(element).wf(),
        ensures
            changed == (proposed@ != old(element).committed_content@),
            gate_spec(*old(element), proposed@, *final(element)),
            final(element).wf(),
    {
        if proposed == element.committed_content {
            false
        } else {
            element.content = proposed.clone();
            element.committed_content = proposed;
            element.measured_size = None;
            true
        }
    }
}

/// Law: the change gate is idempotent.  Applying the same proposed content twice
/// invalidates the measurement at most once: whatever the first application
/// did, the second one changes nothing.
pub proof fn lemma_gate_idempotent(
    e0: TextElement,
    e1: TextElement,
    e2: TextElement,
    proposed: Seq<char>,
)
    requires
        gate_spec(e0, proposed, e1),
        gate_spec(e1, proposed, e2),
    ensures
        e2 == e1,
{
}

} // verus!
