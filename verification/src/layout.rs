//! Where notifications are placed on the screen: offsets of stacked
//! notifications, the edges an anchor binds to, and the margins of a
//! notification's surface.

use vstd::prelude::*;
use crate::config::{Anchor, Config, MarginConfig, StackingMode};

verus! {

/// The width that horizontal stacking assumes for a notification, in
/// pixels.
pub const STACKING_WIDTH: i32 = 350;

/// The height that the margins assume for a notification, in pixels.
pub const ESTIMATED_HEIGHT: i32 = 100;

/// The offset of the notification at a position of the stack: down by
/// its height and the gap for each one before it where they are stacked
/// vertically, to the side by the assumed width and the gap where they
/// are stacked horizontally, and none where they overlay each other.
pub open spec fn stack_offset(mode: StackingMode, index: int, height: int, gap: int) -> (int, int) {
    match mode {
        StackingMode::Vertical => (0, index * (height + gap)),
        StackingMode::Horizontal => (index * (STACKING_WIDTH + gap), 0),
        StackingMode::Overlay => (0, 0),
    }
}

/// The margins of the surface of the notification at a position of the
/// stack, as `(top, right, bottom, left)`: the configured margins, moved
/// away from the anchored edge by the assumed height and the gap for
/// each notification before it.
pub open spec fn surface_margins(anchor: Anchor, margin: MarginConfig, gap: int, index: int) -> (
    int,
    int,
    int,
    int,
) {
    let offset = index * (ESTIMATED_HEIGHT + gap);
    if anchors_top(anchor) {
        (margin.top + offset, margin.right as int, margin.bottom as int, margin.left as int)
    } else {
        (margin.top as int, margin.right as int, margin.bottom + offset, margin.left as int)
    }
}

/// Whether an anchor binds to the top edge rather than to the bottom.
pub open spec fn anchors_top(anchor: Anchor) -> bool {
    anchor == Anchor::TopLeft || anchor == Anchor::TopCenter || anchor == Anchor::TopRight
}

/// The edges that an anchor binds to, as `(top, bottom, left, right)`.
pub open spec fn bound_edges(anchor: Anchor) -> (bool, bool, bool, bool) {
    match anchor {
        Anchor::TopLeft => (true, false, true, false),
        Anchor::TopCenter => (true, false, false, false),
        Anchor::TopRight => (true, false, false, true),
        Anchor::BottomLeft => (false, true, true, false),
        Anchor::BottomCenter => (false, true, false, false),
        Anchor::BottomRight => (false, true, false, true),
    }
}

/// `index * step`, in 128 bits.
fn product(index: usize, step: i64) -> (r: i128)
    requires
        -0x2_0000_0000 <= step <= 0x2_0000_0000,
    ensures
        r == index * step,
        -0x2_0000_0000_0000_0000_0000_0000 <= r <= 0x2_0000_0000_0000_0000_0000_0000,
{
    assert(-0xFFFF_FFFF_FFFF_FFFF * 0x2_0000_0000 <= index * step <= 0xFFFF_FFFF_FFFF_FFFF
        * 0x2_0000_0000) by (nonlinear_arith)
        requires
            0 <= index <= 0xFFFF_FFFF_FFFF_FFFF,
            -0x2_0000_0000 <= step <= 0x2_0000_0000,
    ;
    (index as i128) * (step as i128)
}

/// Calculates positions of stacked notifications.
pub struct StackingLayout;

impl StackingLayout {
    /// The offset of the notification at a position of the stack, as
    /// `(x, y)`.
    pub fn calculate_offset(mode: &StackingMode, index: usize, notification_height: i32, gap: i32) -> (r: (
        i32,
        i32,
    ))
        requires
            i32::MIN <= stack_offset(*mode, index as int, notification_height as int, gap as int).0
                <= i32::MAX,
            i32::MIN <= stack_offset(*mode, index as int, notification_height as int, gap as int).1
                <= i32::MAX,
        ensures
            r.0 == stack_offset(*mode, index as int, notification_height as int, gap as int).0,
            r.1 == stack_offset(*mode, index as int, notification_height as int, gap as int).1,
    {
        match mode {
            StackingMode::Vertical => {
                let y = product(index, notification_height as i64 + gap as i64);
                (0, y as i32)
            },
            StackingMode::Horizontal => {
                let x = product(index, STACKING_WIDTH as i64 + gap as i64);
                (x as i32, 0)
            },
            StackingMode::Overlay => (0, 0),
        }
    }

    /// The offset of the notification at a position of the stack, where
    /// it can be told in 32 bits.
    pub fn checked_offset(mode: &StackingMode, index: usize, notification_height: i32, gap: i32) -> (r: Option<
        (i32, i32),
    >)
        ensures
            match r {
                Some(o) => o.0 == stack_offset(
                    *mode,
                    index as int,
                    notification_height as int,
                    gap as int,
                ).0 && o.1 == stack_offset(
                    *mode,
                    index as int,
                    notification_height as int,
                    gap as int,
                ).1,
                None => {
                    let o = stack_offset(
                        *mode,
                        index as int,
                        notification_height as int,
                        gap as int,
                    );
                    o.0 < i32::MIN || o.0 > i32::MAX || o.1 < i32::MIN || o.1 > i32::MAX
                },
            },
    {
        let step: i64 = match mode {
            StackingMode::Vertical => notification_height as i64 + gap as i64,
            StackingMode::Horizontal => STACKING_WIDTH as i64 + gap as i64,
            StackingMode::Overlay => {
                return Some((0, 0));
            },
        };
        let p = product(index, step);
        if p >= i32::MIN as i128 && p <= i32::MAX as i128 {
            Some(StackingLayout::calculate_offset(mode, index, notification_height, gap))
        } else {
            None
        }
    }
}

/// Knows the margins that notifications keep from the screen edges.
pub struct LayoutManager {
    anchor: Anchor,
    margin: MarginConfig,
}

impl LayoutManager {
    /// The anchor that the layout follows.
    pub closed spec fn anchor(&self) -> Anchor {
        self.anchor
    }

    /// The margins that the layout follows.
    pub closed spec fn margin(&self) -> MarginConfig {
        self.margin
    }

    /// A layout that follows the positioning of a configuration.
    pub fn new(config: &Config) -> (r: LayoutManager)
        ensures
            r.anchor() == config.positioning.anchor,
            r.margin() == config.positioning.margin,
    {
        LayoutManager { anchor: config.positioning.anchor, margin: config.positioning.margin }
    }

    /// The configured margins, as `(top, right, bottom, left)`. They are
    /// the same at every position of the stack.
    pub fn calculate_position(&self, _index: usize) -> (r: (i32, i32, i32, i32))
        ensures
            r == (self.margin().top, self.margin().right, self.margin().bottom, self.margin().left),
    {
        (self.margin.top, self.margin.right, self.margin.bottom, self.margin.left)
    }

    /// The edges that an anchor binds to, as `(top, bottom, left, right)`.
    pub fn anchor_edges(anchor: Anchor) -> (r: (bool, bool, bool, bool))
        ensures
            r == bound_edges(anchor),
    {
        match anchor {
            Anchor::TopLeft => (true, false, true, false),
            Anchor::TopCenter => (true, false, false, false),
            Anchor::TopRight => (true, false, false, true),
            Anchor::BottomLeft => (false, true, true, false),
            Anchor::BottomCenter => (false, true, false, false),
            Anchor::BottomRight => (false, true, false, true),
        }
    }

    /// The margins of the surface of the notification at a position of
    /// the stack, as `(top, right, bottom, left)`, where they can be told
    /// in 32 bits.
    pub fn margins_at(&self, gap: u32, index: usize) -> (r: Option<(i32, i32, i32, i32)>)
        ensures
            match r {
                Some(m) => (m.0 as int, m.1 as int, m.2 as int, m.3 as int) == surface_margins(
                    self.anchor(),
                    self.margin(),
                    gap as int,
                    index as int,
                ),
                None => {
                    let m = surface_margins(self.anchor(), self.margin(), gap as int, index as int);
                    m.0 > i32::MAX || m.0 < i32::MIN || m.2 > i32::MAX || m.2 < i32::MIN
                },
            },
    {
        let offset: i128 = product(index, ESTIMATED_HEIGHT as i64 + gap as i64);
        let top = match self.anchor {
            Anchor::TopLeft | Anchor::TopCenter | Anchor::TopRight => true,
            _ => false,
        };
        if top {
            let t: i128 = self.margin.top as i128 + offset;
            if t > i32::MAX as i128 || t < i32::MIN as i128 {
                None
            } else {
                Some((t as i32, self.margin.right, self.margin.bottom, self.margin.left))
            }
        } else {
            let b: i128 = self.margin.bottom as i128 + offset;
            if b > i32::MAX as i128 || b < i32::MIN as i128 {
                None
            } else {
                Some((self.margin.top, self.margin.right, b as i32, self.margin.left))
            }
        }
    }
}

} // verus!
