//! Text elements: the content a widget shows, the content it has committed
//! for measurement, and the size the host's measurement stage produced.

use vstd::prelude::*;

verus! {

/// Upper bound on any measured dimension, which keeps the derived-geometry
/// arithmetic far away from overflow.
pub const MAX_DIM: u64 = 1_000_000_000;

/// The function a text element plays within its widget.
#[derive(Clone, Copy, PartialEq, Eq, Structural, Debug)]
pub enum Role {
    Primary,
    LeftPart,
    RightPart,
    Matched,
    Unmatched,
    InvisibleProbe,
}

/// A measured width and height, in integer units.
#[derive(Clone, Copy, PartialEq, Eq, Structural, Debug)]
pub struct MeasuredSize {
    pub width: u64,
    pub height: u64,
}

impl MeasuredSize {
    pub open spec fn wf(self) -> bool {
        self.width <= MAX_DIM && self.height <= MAX_DIM
    }
}

/// Where an element stands in the measurement pipeline.
#[derive(Clone, Copy, PartialEq, Eq, Structural, Debug)]
pub enum MeasureState {
    /// The committed content has changed since the last measurement; the
    /// measured size must not be read.
    Stale,
    /// A measurement pass has run since the last content change.
    Measured,
}

/// One text element.  `content` is what the element shows, `committed_content`
/// what has been handed to the host for measurement; the change gate keeps the
/// two equal.  `measured_size` is `None` from a content change until the next
/// measurement pass.
pub struct TextElement {
    pub role: Role,
    pub content: String,
    pub committed_content: String,
    pub measured_size: Option<MeasuredSize>,
}

impl TextElement {
    /// The element's stage in the `Stale -> Measured` pipeline, derived from
    /// whether a measured size is present.
    pub open spec fn state(self) -> MeasureState {
        if self.measured_size is Some {
            MeasureState::Measured
        } else {
            MeasureState::Stale
        }
    }

    /// Any size the element carries stays within `MAX_DIM`.
    pub open spec fn wf(self) -> bool {
        self.measured_size matches Some(s) ==> s.wf()
    }

    /// A fresh element starts with its content committed and unmeasured.
    pub fn new(role: Role, content: String) -> (e: TextElement)
        ensures
            e.role == role,
            e.content@ == content@,
            e.committed_content@ == content@,
            e.measured_size is None,
            e.state() == MeasureState::Stale,
            e.wf(),
    {
        let committed = content.clone();
        TextElement { role, content, committed_content: committed, measured_size: None }
    }

    /// Record the size the host measured for the committed content.  The
    /// measurement stage is the sole writer of `measured_size`.
    pub fn record_measurement(&mut self, size: MeasuredSize)
        requires
            size.wf(),
        ensures
            final(self).role == old(self).role,
            final(self).content == old(self).content,
            final(self).committed_content == old(self).committed_content,
            final(self).measured_size == Some(size),
            final(self).state() == MeasureState::Measured,
            final(self).wf(),
    {
        self.measured_size = Some(size);
    }
}

} // verus!
