//! Axis-aligned bounding-box collision classification.
//!
//! `classify` reports which edge of a target box a cursor box currently
//! penetrates, or that the cursor sits deep inside the target, or that the
//! boxes do not overlap at all.

use vstd::prelude::*;

verus! {

/// Every coordinate handled by the classifier stays within this bound, which
/// keeps all intermediate arithmetic far away from `i64` overflow.
pub const MAX_COORD: i64 = 1_000_000_000;

/// An axis-aligned box given by its center and half-extents, in integer units.
#[derive(Clone, Copy, PartialEq, Eq, Structural, Debug)]
pub struct CollisionBox {
    pub center_x: i64,
    pub center_y: i64,
    pub half_width: i64,
    pub half_height: i64,
}

/// The outcome of a collision classification: the target edge the cursor
/// penetrates, or `Inside` for deep interpenetration with no single edge.
#[derive(Clone, Copy, PartialEq, Eq, Structural, Debug)]
pub enum Side {
    Left,
    Right,
    Top,
    Bottom,
    Inside,
}

impl CollisionBox {
    /// Non-negative half-extents, every coordinate within `MAX_COORD`.
    pub open spec fn wf(self) -> bool {
        &&& 0 <= self.half_width <= MAX_COORD
        &&& 0 <= self.half_height <= MAX_COORD
        &&& -MAX_COORD <= self.center_x <= MAX_COORD
        &&& -MAX_COORD <= self.center_y <= MAX_COORD
    }

    pub open spec fn lo_x(self) -> int {
        self.center_x - self.half_width
    }

    pub open spec fn hi_x(self) -> int {
        self.center_x + self.half_width
    }

    pub open spec fn lo_y(self) -> int {
        self.center_y - self.half_height
    }

    pub open spec fn hi_y(self) -> int {
        self.center_y + self.half_height
    }
}

/// Two boxes overlap when their interiors intersect on both axes; boxes that
/// merely touch along an edge do not overlap.
pub open spec fn overlaps(a: CollisionBox, b: CollisionBox) -> bool {
    &&& a.lo_x() < b.hi_x()
    &&& b.lo_x() < a.hi_x()
    &&& a.lo_y() < b.hi_y()
    &&& b.lo_y() < a.hi_y()
}

/// On the x axis, `a`'s span covers all of `b`'s: the overlap is full, so
/// neither vertical edge of `b` separates the boxes and the axis names no side.
pub open spec fn covers_x(a: CollisionBox, b: CollisionBox) -> bool {
    a.lo_x() <= b.lo_x() && b.hi_x() <= a.hi_x()
}

/// On the y axis, `a`'s span covers all of `b`'s.
pub open spec fn covers_y(a: CollisionBox, b: CollisionBox) -> bool {
    a.lo_y() <= b.lo_y() && b.hi_y() <= a.hi_y()
}

/// `a`'s horizontal span lies within `b`'s.
pub open spec fn within_x(a: CollisionBox, b: CollisionBox) -> bool {
    b.lo_x() <= a.lo_x() && a.hi_x() <= b.hi_x()
}

/// `a`'s vertical span lies within `b`'s.
pub open spec fn within_y(a: CollisionBox, b: CollisionBox) -> bool {
    b.lo_y() <= a.lo_y() && a.hi_y() <= b.hi_y()
}

/// Penetration depth on the x axis: the distance the cursor would have to
/// travel to leave through the nearer vertical edge of the target.
pub open spec fn depth_x(cursor: CollisionBox, target: CollisionBox) -> int {
    let from_left = cursor.hi_x() - target.lo_x();
    let from_right = target.hi_x() - cursor.lo_x();
    if from_left <= from_right {
        from_left
    } else {
        from_right
    }
}

/// Penetration depth on the y axis.
pub open spec fn depth_y(cursor: CollisionBox, target: CollisionBox) -> int {
    let from_bottom = cursor.hi_y() - target.lo_y();
    let from_top = target.hi_y() - cursor.lo_y();
    if from_bottom <= from_top {
        from_bottom
    } else {
        from_top
    }
}

/// The side named by the x axis: the cursor penetrates from the side of the
/// target its center lies on.  A centered cursor counts as `Left`, the side
/// of highest priority.
pub open spec fn side_x(cursor: CollisionBox, target: CollisionBox) -> Side {
    if cursor.center_x <= target.center_x {
        Side::Left
    } else {
        Side::Right
    }
}

/// The side named by the y axis.  A centered cursor counts as `Top`, which
/// has priority over `Bottom`.
pub open spec fn side_y(cursor: CollisionBox, target: CollisionBox) -> Side {
    if cursor.center_y >= target.center_y {
        Side::Top
    } else {
        Side::Bottom
    }
}

/// The classification policy, in full:
///
/// * no overlap on some axis: no result;
/// * the cursor lies entirely within the target, or entirely covers it:
///   `Inside` (deep interpenetration beyond any single edge);
/// * an axis on which the cursor covers the target's whole span is fully
///   overlapped and names no side, so the other axis decides;
/// * otherwise the axis with the smaller penetration depth decides, and the
///   cursor's center picks the edge on that axis.
///
/// Ties are resolved deterministically with priority
/// `Left > Right > Top > Bottom`: equal depths fall to the x axis, and a
/// cursor centered on the deciding axis falls to `Left` (or `Top`).
pub open spec fn classify_spec(cursor: CollisionBox, target: CollisionBox) -> Option<Side> {
    if !overlaps(cursor, target) {
        None
    } else if within_x(cursor, target) && within_y(cursor, target) {
        Some(Side::Inside)
    } else if covers_x(cursor, target) && covers_y(cursor, target) {
        Some(Side::Inside)
    } else if covers_y(cursor, target) {
        Some(side_x(cursor, target))
    } else if covers_x(cursor, target) {
        Some(side_y(cursor, target))
    } else if depth_x(cursor, target) <= depth_y(cursor, target) {
        Some(side_x(cursor, target))
    } else {
        Some(side_y(cursor, target))
    }
}

/// Classify the overlap of the cursor box against the target box.
pub fn classify(cursor: &CollisionBox, target: &CollisionBox) -> (r: Option<Side>)
    requires
        cursor.wf(),
        target.wf(),
    ensures
        r == classify_spec(*cursor, *target),
{
    let a_lo_x = cursor.center_x - cursor.half_width;
    let a_hi_x = cursor.center_x + cursor.half_width;
    let a_lo_y = cursor.center_y - cursor.half_height;
    let a_hi_y = cursor.center_y + cursor.half_height;
    let b_lo_x = target.center_x - target.half_width;
    let b_hi_x = target.center_x + target.half_width;
    let b_lo_y = target.center_y - target.half_height;
    let b_hi_y = target.center_y + target.half_height;

    if !(a_lo_x < b_hi_x && b_lo_x < a_hi_x && a_lo_y < b_hi_y && b_lo_y < a_hi_y) {
        return None;
    }

    let within_both = b_lo_x <= a_lo_x && a_hi_x <= b_hi_x && b_lo_y <= a_lo_y && a_hi_y <= b_hi_y;
    let covers_on_x = a_lo_x <= b_lo_x && b_hi_x <= a_hi_x;
    let covers_on_y = a_lo_y <= b_lo_y && b_hi_y <= a_hi_y;

    if within_both || (covers_on_x && covers_on_y) {
        Some(Side::Inside)
    } else if covers_on_y {
        Some(pick_side_x(cursor, target))
    } else if covers_on_x {
        Some(pick_side_y(cursor, target))
    } else {
        let from_left = a_hi_x - b_lo_x;
        let from_right = b_hi_x - a_lo_x;
        let dx = if from_left <= from_right {
            from_left
        } else {
            from_right
        };
        let from_bottom = a_hi_y - b_lo_y;
        let from_top = b_hi_y - a_lo_y;
        let dy = if from_bottom <= from_top {
            from_bottom
        } else {
            from_top
        };
        if dx <= dy {
            Some(pick_side_x(cursor, target))
        } else {
            Some(pick_side_y(cursor, target))
        }
    }
}

/// The edge named by the x axis, by the cursor center's side of the target.
fn pick_side_x(cursor: &CollisionBox, target: &CollisionBox) -> (s: Side)
    ensures
        s == side_x(*cursor, *target),
{
    if cursor.center_x <= target.center_x {
        Side::Left
    } else {
        Side::Right
    }
}

/// The edge named by the y axis.
fn pick_side_y(cursor: &CollisionBox, target: &CollisionBox) -> (s: Side)
    ensures
        s == side_y(*cursor, *target),
{
    if cursor.center_y >= target.center_y {
        Side::Top
    } else {
        Side::Bottom
    }
}

/// Law: a classification exists exactly when the boxes geometrically overlap,
/// and overlap does not depend on the order of the two boxes; hence whether
/// `classify` reports a collision is symmetric in its arguments, even though
/// the reported edge is named from the cursor's point of view.
pub proof fn lemma_classify_overlap_symmetric(a: CollisionBox, b: CollisionBox)
    ensures
        classify_spec(a, b) is Some <==> overlaps(a, b),
        overlaps(a, b) == overlaps(b, a),
        classify_spec(a, b) is Some <==> classify_spec(b, a) is Some,
{
}

} // verus!
