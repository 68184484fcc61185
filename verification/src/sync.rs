//! Deferred geometry synchronization: derive a widget's background extent and
//! its children's offsets from the children's measured sizes, once those are
//! available.

use vstd::prelude::*;

use crate::collide::MAX_COORD;
use crate::text::TextElement;

verus! {

/// Constant padding added around the probe's measured size when deriving the
/// background extent.
pub const PADDING: u64 = 8;

/// A widget of two text parts anchored at the ends of a shared background,
/// plus an invisible probe element whose content is the concatenation of the
/// visible parts: measuring the probe yields the combined width without the
/// risk of the parts breaking lines separately.
///
/// The background extent, the child offsets and the cached global mirrors are
/// derived, never authored: after a successful synchronization pass they equal
/// a pure function of the measured sizes, the padding constant and the
/// parent's cached global position.
pub struct CompositeWidget {
    /// The parent's resolved global x position, cached once per frame.  Every
    /// child offset is derived from this single snapshot rather than from the
    /// host's incremental hierarchical propagation, which lags a frame behind
    /// and would jitter.
    pub global_x: i64,
    pub left: TextElement,
    pub right: TextElement,
    pub probe: TextElement,
    pub background_width: u64,
    pub background_height: u64,
    /// Derived local x offset of the left part.
    pub left_offset_x: i64,
    /// Derived local x offset of the right part.
    pub right_offset_x: i64,
    /// Cached global mirror of the left part's position, written together with
    /// the local offset so neither lags the other.
    pub left_global_x: i64,
    /// Cached global mirror of the right part's position.
    pub right_global_x: i64,
}

impl CompositeWidget {
    pub open spec fn wf(self) -> bool {
        &&& -MAX_COORD <= self.global_x <= MAX_COORD
        &&& self.left.wf()
        &&& self.right.wf()
        &&& self.probe.wf()
    }

    /// All children carry a measured size: a measurement pass has run since
    /// the last content change, so the synchronizer may derive geometry.
    pub open spec fn ready(self) -> bool {
        &&& self.left.measured_size is Some
        &&& self.right.measured_size is Some
        &&& self.probe.measured_size is Some
    }

    /// A fresh widget with all derived geometry still zero.
    pub fn new(global_x: i64, left: TextElement, right: TextElement, probe: TextElement) -> (w:
        CompositeWidget)
        requires
            -MAX_COORD <= global_x <= MAX_COORD,
            left.wf(),
            right.wf(),
            probe.wf(),
        ensures
            w.global_x == global_x,
            w.left == left,
            w.right == right,
            w.probe == probe,
            w.background_width == 0 && w.background_height == 0,
            w.left_offset_x == 0 && w.right_offset_x == 0,
            w.left_global_x == 0 && w.right_global_x == 0,
            w.wf(),
    {
        CompositeWidget {
            global_x,
            left,
            right,
            probe,
            background_width: 0,
            background_height: 0,
            left_offset_x: 0,
            right_offset_x: 0,
            left_global_x: 0,
            right_global_x: 0,
        }
    }
}

/// What one synchronization pass does to a widget.  With every child measured,
/// the background extent becomes the probe's measured size plus the padding,
/// and the two parts are placed from the parent's cached global position `gx`:
///
/// * the left part at `gx + background_width / 2 - left_width / 2`, flush to
///   the background's right inner edge,
/// * the right part at `gx - background_width / 2 + right_width / 2`, flush to
///   the left inner edge,
///
/// so the two halves visually meet in the middle.  Both the local offset and
/// the cached global mirror receive the derived value.  Halves of odd widths
/// round down.  With any measurement missing the pass writes nothing at all —
/// it never computes with a stale or default size — and retries next frame.
pub open spec fn sync_spec(w: CompositeWidget) -> CompositeWidget {
    if w.ready() {
        let probe = w.probe.measured_size.unwrap();
        let left = w.left.measured_size.unwrap();
        let right = w.right.measured_size.unwrap();
        let bg_w = (probe.width + PADDING) as u64;
        let bg_h = (probe.height + PADDING) as u64;
        let left_x = (w.global_x + bg_w as int / 2 - left.width as int / 2) as i64;
        let right_x = (w.global_x - bg_w as int / 2 + right.width as int / 2) as i64;
        CompositeWidget {
            background_width: bg_w,
            background_height: bg_h,
            left_offset_x: left_x,
            right_offset_x: right_x,
            left_global_x: left_x,
            right_global_x: right_x,
            ..w
        }
    } else {
        w
    }
}

/// Consumes measured sizes once available and derives the dependent geometry.
pub struct GeometrySynchronizer {}

impl GeometrySynchronizer {
    /// Run one synchronization pass over the widget.  Returns whether the pass
    /// wrote, which is exactly when every child was measured; otherwise the
    /// widget is left untouched for a retry on a later pass.
    pub fn synchronize(widget: &mut CompositeWidget) -> (wrote: bool)
        requires
            old(widget).wf(),
        ensures
            *final(widget) == sync_spec(*old(widget)),
            wrote == old(widget).ready(),
            final(widget).wf(),
    {
        let probe_size = match widget.probe.measured_size {
            Some(s) => s,
            None => {
                return false;
            },
        };
        let left_size = match widget.left.measured_size {
            Some(s) => s,
            None => {
                return false;
            },
        };
        let right_size = match widget.right.measured_size {
            Some(s) => s,
            None => {
                return false;
            },
        };
        let bg_w = probe_size.width + PADDING;
        let bg_h = probe_size.height + PADDING;
        let left_x = widget.global_x + (bg_w / 2) as i64 - (left_size.width / 2) as i64;
        let right_x = widget.global_x - (bg_w / 2) as i64 + (right_size.width / 2) as i64;
        widget.background_width = bg_w;
        widget.background_height = bg_h;
        widget.left_offset_x = left_x;
        widget.right_offset_x = right_x;
        widget.left_global_x = left_x;
        widget.right_global_x = right_x;
        true
    }
}

/// Law: synchronization converges.  Once a widget's children are measured, a
/// single pass fixes the derived geometry, and any further pass over the
/// result — the measured sizes and the cached parent position being owned by
/// other stages and untouched here — changes nothing.
pub proof fn lemma_sync_converges(w: CompositeWidget)
    ensures
        sync_spec(sync_spec(w)) == sync_spec(w),
{
}

/// Law: a widget with any measurement missing is skipped untouched; the
/// synchronizer never substitutes a default size.
pub proof fn lemma_sync_skips_unmeasured(w: CompositeWidget)
    requires
        !w.ready(),
    ensures
        sync_spec(w) == w,
{
}

} // verus!
