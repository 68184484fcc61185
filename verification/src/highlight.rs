//! Edge-highlight state driven by collision classification, the layout of the
//! four highlight sprites around a target, and pointer-coordinate conversion.

use vstd::prelude::*;

use crate::collide::CollisionBox;
use crate::collide::MAX_COORD;
use crate::collide::Side;

verus! {

/// Visibility of the four edge-highlight sprites around the target.
#[derive(Clone, Copy, PartialEq, Eq, Structural, Debug)]
pub struct HighlightState {
    pub left: bool,
    pub right: bool,
    pub top: bool,
    pub bottom: bool,
}

/// The highlight state that a classification result calls for: exactly the
/// matching edge, every edge for `Inside`, none when there is no collision.
pub open spec fn highlights_for(classification: Option<Side>) -> HighlightState {
    match classification {
        None => HighlightState { left: false, right: false, top: false, bottom: false },
        Some(Side::Left) => HighlightState { left: true, right: false, top: false, bottom: false },
        Some(Side::Right) => HighlightState { left: false, right: true, top: false, bottom: false },
        Some(Side::Top) => HighlightState { left: false, right: false, top: true, bottom: false },
        Some(Side::Bottom) => HighlightState {
            left: false,
            right: false,
            top: false,
            bottom: true,
        },
        Some(Side::Inside) => HighlightState { left: true, right: true, top: true, bottom: true },
    }
}

impl HighlightState {
    /// How many of the four highlights are visible.
    pub open spec fn visible_count(self) -> int {
        (if self.left {
            1int
        } else {
            0int
        }) + (if self.right {
            1int
        } else {
            0int
        }) + (if self.top {
            1int
        } else {
            0int
        }) + (if self.bottom {
            1int
        } else {
            0int
        })
    }

    /// All four highlights visible: the designated `Inside` set.
    pub open spec fn all_visible(self) -> bool {
        self.left && self.right && self.top && self.bottom
    }

    /// The startup state: every highlight hidden.
    pub fn new_hidden() -> (s: HighlightState)
        ensures
            s == highlights_for(None),
    {
        HighlightState { left: false, right: false, top: false, bottom: false }
    }

    /// Reset-then-set update: first hide every highlight, then show the one the
    /// classification names (or all four for `Inside`).  The reset guarantees
    /// that no stale highlight survives a change of result between frames.
    pub fn update(&mut self, classification: Option<Side>)
        ensures
            *final(self) == highlights_for(classification),
    {
        self.left = false;
        self.right = false;
        self.top = false;
        self.bottom = false;
        match classification {
            Some(Side::Left) => {
                self.left = true;
            },
            Some(Side::Right) => {
                self.right = true;
            },
            Some(Side::Top) => {
                self.top = true;
            },
            Some(Side::Bottom) => {
                self.bottom = true;
            },
            Some(Side::Inside) => {
                self.left = true;
                self.right = true;
                self.top = true;
                self.bottom = true;
            },
            None => {},
        }
    }
}

/// Law: after an update, at most one highlight is visible, except for the
/// `Inside` classification, which shows exactly the designated set of all four.
pub proof fn lemma_highlight_exclusive(classification: Option<Side>)
    ensures
        classification != Some(Side::Inside) ==> highlights_for(classification).visible_count()
            <= 1,
        classification == Some(Side::Inside) ==> highlights_for(classification).all_visible(),
{
}

/// Size and offset, relative to the target's center, of one highlight sprite.
#[derive(Clone, Copy, PartialEq, Eq, Structural, Debug)]
pub struct HighlightSprite {
    pub width: u64,
    pub height: u64,
    pub offset_x: i64,
    pub offset_y: i64,
}

/// The four highlight sprites of one target.
#[derive(Clone, Copy, PartialEq, Eq, Structural, Debug)]
pub struct HighlightLayout {
    pub left: HighlightSprite,
    pub right: HighlightSprite,
    pub top: HighlightSprite,
    pub bottom: HighlightSprite,
}

/// Derive the four highlight sprites from the target's size: the side
/// highlights take the target's inner half toward that side, the top and
/// bottom highlights the corresponding horizontal half.  Odd sizes round the
/// half and quarter down.
pub fn highlight_layout(target_width: u64, target_height: u64) -> (r: HighlightLayout)
    requires
        target_width <= MAX_COORD as u64,
        target_height <= MAX_COORD as u64,
    ensures
        r.left.width == target_width / 2 && r.left.height == target_height,
        r.left.offset_x == -((target_width / 4) as int) && r.left.offset_y == 0,
        r.right.width == target_width / 2 && r.right.height == target_height,
        r.right.offset_x == target_width / 4 && r.right.offset_y == 0,
        r.top.width == target_width && r.top.height == target_height / 2,
        r.top.offset_x == 0 && r.top.offset_y == target_height / 4,
        r.bottom.width == target_width && r.bottom.height == target_height / 2,
        r.bottom.offset_x == 0 && r.bottom.offset_y == -((target_height / 4) as int),
{
    let quarter_w = (target_width / 4) as i64;
    let quarter_h = (target_height / 4) as i64;
    let side = HighlightSprite {
        width: target_width / 2,
        height: target_height,
        offset_x: 0,
        offset_y: 0,
    };
    let band = HighlightSprite {
        width: target_width,
        height: target_height / 2,
        offset_x: 0,
        offset_y: 0,
    };
    HighlightLayout {
        left: HighlightSprite { offset_x: -quarter_w, ..side },
        right: HighlightSprite { offset_x: quarter_w, ..side },
        top: HighlightSprite { offset_y: quarter_h, ..band },
        bottom: HighlightSprite { offset_y: -quarter_h, ..band },
    }
}

/// Convert a pointer position from window coordinates (origin in a window
/// corner) to world coordinates (origin at the window center), as the host's
/// cursor events require.  Odd window sizes place the center a half unit low.
pub fn window_to_world(
    window_width: u64,
    window_height: u64,
    pos_x: i64,
    pos_y: i64,
) -> (r: (i64, i64))
    requires
        window_width <= MAX_COORD as u64,
        window_height <= MAX_COORD as u64,
        -MAX_COORD <= pos_x <= MAX_COORD,
        -MAX_COORD <= pos_y <= MAX_COORD,
    ensures
        r.0 == pos_x - window_width as int / 2,
        r.1 == pos_y - window_height as int / 2,
{
    let half_w = (window_width / 2) as i64;
    let half_h = (window_height / 2) as i64;
    (pos_x - half_w, pos_y - half_h)
}

/// One pointer event's worth of the collision flow, in the order the frame
/// runs it: convert the event position (which the host delivers within the
/// window) to world coordinates, move the cursor box there, classify it
/// against the target, and drive the highlights reset-then-set.
pub fn pointer_event(
    cursor: &mut CollisionBox,
    target: &CollisionBox,
    highlights: &mut HighlightState,
    window_width: u64,
    window_height: u64,
    pos_x: i64,
    pos_y: i64,
) -> (r: Option<Side>)
    requires
        old(cursor).wf(),
        target.wf(),
        window_width <= MAX_COORD as u64,
        window_height <= MAX_COORD as u64,
        0 <= pos_x <= window_width,
        0 <= pos_y <= window_height,
    ensures
        final(cursor).center_x == pos_x - window_width as int / 2,
        final(cursor).center_y == pos_y - window_height as int / 2,
        final(cursor).half_width == old(cursor).half_width,
        final(cursor).half_height == old(cursor).half_height,
        final(cursor).wf(),
        r == crate::collide::classify_spec(*final(cursor), *target),
        *final(highlights) == highlights_for(r),
{
    let (x, y) = window_to_world(window_width, window_height, pos_x, pos_y);
    move_cursor(cursor, x, y);
    let r = crate::collide::classify(cursor, target);
    highlights.update(r);
    r
}

/// Move the cursor box to a pointer position while keeping its extents.
pub fn move_cursor(cursor: &mut CollisionBox, x: i64, y: i64)
    requires
        -MAX_COORD <= x <= MAX_COORD,
        -MAX_COORD <= y <= MAX_COORD,
    ensures
        final(cursor).center_x == x,
        final(cursor).center_y == y,
        final(cursor).half_width == old(cursor).half_width,
        final(cursor).half_height == old(cursor).half_height,
        old(cursor).wf() ==> final(cursor).wf(),
{
    cursor.center_x = x;
    cursor.center_y = y;
}

} // verus!
