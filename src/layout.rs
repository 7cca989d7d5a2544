use vstd::prelude::*;

verus! {

/// Coordinates are screen pixels within this magnitude.
pub const COORD_LIMIT: i64 = 1_000_000_000_000;

/// The narrowest wrap width a panel is given, in pixels.
pub const MIN_USABLE_WIDTH: i64 = 120;

/// Padding between the panel's frame and its text, on every side.
pub const PANEL_PADDING: i64 = 12;

/// Length of the tail that points from the panel to the anchor.
pub const TAIL_LENGTH: i64 = 10;

/// An axis-aligned rectangle in screen coordinates.
#[derive(Clone, Copy, Debug, PartialEq, Eq, Structural)]
pub struct Rect {
    pub min_x: i64,
    pub min_y: i64,
    pub max_x: i64,
    pub max_y: i64,
}

pub open spec fn in_range(v: int) -> bool {
    -COORD_LIMIT <= v <= COORD_LIMIT
}

impl Rect {
    /// Ordered corners, all coordinates within range.
    pub open spec fn valid(&self) -> bool {
        &&& in_range(self.min_x as int)
        &&& in_range(self.min_y as int)
        &&& in_range(self.max_x as int)
        &&& in_range(self.max_y as int)
        &&& self.min_x <= self.max_x
        &&& self.min_y <= self.max_y
    }

    pub fn new(min_x: i64, min_y: i64, max_x: i64, max_y: i64) -> (r: Rect)
        ensures
            r == (Rect { min_x, min_y, max_x, max_y }),
    {
        Rect { min_x, min_y, max_x, max_y }
    }

    /// Whether the two rectangles share an area of positive size.
    pub fn overlaps(&self, other: &Rect) -> (r: bool)
        ensures
            r == overlaps(*self, *other),
    {
        self.min_x < other.max_x && other.min_x < self.max_x && self.min_y < other.max_y
            && other.min_y < self.max_y
    }
}

/// Positive-area intersection of two rectangles.
pub open spec fn overlaps(a: Rect, b: Rect) -> bool {
    a.min_x < b.max_x && b.min_x < a.max_x && a.min_y < b.max_y && b.min_y < a.max_y
}

/// Which side of the anchor the panel stands on.
#[derive(Clone, Copy, Debug, PartialEq, Eq, Structural)]
pub enum Side {
    Left,
    Right,
}

pub open spec fn opposite(s: Side) -> Side {
    match s {
        Side::Left => Side::Right,
        Side::Right => Side::Left,
    }
}

pub open spec fn max_int(a: int, b: int) -> int {
    if a >= b { a } else { b }
}

pub open spec fn min_int(a: int, b: int) -> int {
    if a <= b { a } else { b }
}

/// Free width between the screen's left edge and the anchor, less the gap.
pub open spec fn space_left(anchor: Rect, screen: Rect, gap: int) -> int {
    max_int(anchor.min_x - screen.min_x - gap, 0)
}

/// Free width between the anchor and the screen's right edge, less the gap.
pub open spec fn space_right(anchor: Rect, screen: Rect, gap: int) -> int {
    max_int(screen.max_x - anchor.max_x - gap, 0)
}

/// A side can take a panel of the minimum usable width.
pub open spec fn viable(space: int, gap: int) -> bool {
    space >= MIN_USABLE_WIDTH + gap
}

/// The side chosen for free widths `l` and `r`: the preferred left side when
/// it is viable and no smaller (or the right is not viable); without a
/// preference, the left only when viable and strictly wider; else the right
/// when viable; with neither viable, the wider side (ties go by preference).
pub open spec fn choose_side(l: int, r: int, gap: int, prefer_left: bool) -> Side {
    if prefer_left && viable(l, gap) && (l >= r || !viable(r, gap)) {
        Side::Left
    } else if !prefer_left && viable(l, gap) && l > r {
        Side::Left
    } else if viable(r, gap) {
        Side::Right
    } else if viable(l, gap) {
        Side::Left
    } else if l > r || (l == r && prefer_left) {
        Side::Left
    } else {
        Side::Right
    }
}

/// Width to wrap text at: the chosen side's space less the gap, at most the
/// target width, and never under the minimum usable width.
pub open spec fn wrap_width(space: int, gap: int, target: int) -> int {
    max_int(MIN_USABLE_WIDTH as int, min_int(space - gap, target))
}

/// The side and wrap width a panel gets, before its text is measured.
#[derive(Clone, Copy, Debug, PartialEq, Eq, Structural)]
pub struct WrapPlan {
    pub side: Side,
    pub wrap_width: i64,
}

pub open spec fn plan_spec(
    anchor: Rect,
    screen: Rect,
    gap: int,
    target_width: int,
    prefer_left: bool,
) -> WrapPlan {
    let l = space_left(anchor, screen, gap);
    let r = space_right(anchor, screen, gap);
    let side = choose_side(l, r, gap, prefer_left);
    let space = if side == Side::Left { l } else { r };
    WrapPlan { side, wrap_width: wrap_width(space, gap, target_width) as i64 }
}

/// Preconditions shared by the layout functions.
pub open spec fn layout_inputs_ok(anchor: Rect, screen: Rect, gap: int) -> bool {
    anchor.valid() && screen.valid() && 0 <= gap <= COORD_LIMIT
}

/// Chooses the side of `anchor` for the panel and the width to wrap its text
/// at, given a target width (the pixel width of the longest line wanted).
pub fn plan_wrap(anchor: &Rect, screen: &Rect, gap: i64, target_width: i64, prefer_left: bool) -> (r: WrapPlan)
    requires
        layout_inputs_ok(*anchor, *screen, gap as int),
        0 <= target_width <= COORD_LIMIT,
    ensures
        r == plan_spec(*anchor, *screen, gap as int, target_width as int, prefer_left),
{
    let l0 = anchor.min_x - screen.min_x - gap;
    let l = if l0 > 0 { l0 } else { 0 };
    let r0 = screen.max_x - anchor.max_x - gap;
    let r = if r0 > 0 { r0 } else { 0 };
    let need = MIN_USABLE_WIDTH + gap;
    let left_ok = l >= need;
    let right_ok = r >= need;
    let side = if prefer_left && left_ok && (l >= r || !right_ok) {
        Side::Left
    } else if !prefer_left && left_ok && l > r {
        Side::Left
    } else if right_ok {
        Side::Right
    } else if left_ok {
        Side::Left
    } else if l > r || (l == r && prefer_left) {
        Side::Left
    } else {
        Side::Right
    };
    let space = match side {
        Side::Left => l,
        Side::Right => r,
    };
    let bounded = if space - gap <= target_width { space - gap } else { target_width };
    let wrap = if bounded >= MIN_USABLE_WIDTH { bounded } else { MIN_USABLE_WIDTH };
    WrapPlan { side, wrap_width: wrap }
}

/// Where the panel finally stands.
#[derive(Clone, Copy, Debug, PartialEq, Eq, Structural)]
pub struct Placement {
    pub rect: Rect,
    /// The side of the anchor the panel stands on.
    pub side: Side,
    /// False when even the other side overlaps the anchor (drawn anyway).
    pub clear_of_anchor: bool,
}

/// Height of the visible frame: the padded text, capped at the padded limit.
pub open spec fn visible_height(text_height: int, max_height: int) -> int {
    min_int(text_height, max_height) + 2 * PANEL_PADDING
}

/// Left edge of a panel of width `w` flush against `side` of the anchor.
pub open spec fn flush_x(anchor: Rect, side: Side, w: int, gap: int) -> int {
    match side {
        Side::Left => anchor.min_x - gap - w,
        Side::Right => anchor.max_x + gap,
    }
}

/// Top edge of a panel of height `h` centred on the anchor, shifted down to
/// the screen's top edge, then up to its bottom edge where it overflows.
pub open spec fn clamped_y(anchor: Rect, screen: Rect, h: int) -> int {
    let centred = (anchor.min_y + anchor.max_y - h) / 2;
    let below_top = if centred < screen.min_y { screen.min_y as int } else { centred };
    if below_top + h > screen.max_y { screen.max_y - h } else { below_top }
}

pub open spec fn panel_at(x: int, y: int, w: int, h: int) -> Rect {
    Rect { min_x: x as i64, min_y: y as i64, max_x: (x + w) as i64, max_y: (y + h) as i64 }
}

pub open spec fn place_spec(
    anchor: Rect,
    screen: Rect,
    side: Side,
    wrap: int,
    text_height: int,
    max_height: int,
    gap: int,
) -> Placement {
    let w = wrap + 2 * PANEL_PADDING;
    let h = visible_height(text_height, max_height);
    let y = clamped_y(anchor, screen, h);
    let first = panel_at(flush_x(anchor, side, w, gap), y, w, h);
    if !overlaps(first, anchor) {
        Placement { rect: first, side, clear_of_anchor: true }
    } else {
        let second = panel_at(flush_x(anchor, opposite(side), w, gap), y, w, h);
        Placement { rect: second, side: opposite(side), clear_of_anchor: !overlaps(second, anchor) }
    }
}

/// `x / 2` rounded towards negative infinity.
fn half_floor(x: i64) -> (r: i64)
    requires
        -4 * COORD_LIMIT <= x <= 4 * COORD_LIMIT,
    ensures
        r == x as int / 2,
{
    if x >= 0 {
        x / 2
    } else {
        let r = -((1 - x) / 2);
        assert(r == x as int / 2) by (nonlinear_arith)
            requires
                x < 0,
                r == -((1 - x) as int / 2),
        ;
        r
    }
}

/// Places the panel for text measured `text_height` pixels tall when wrapped
/// at `wrap` pixels: padded, its visible height capped at the padded
/// `max_height` (the rest scrolls), flush against `side` of the anchor at
/// `gap`, centred on the anchor vertically and shifted into the screen's
/// vertical extent. If it then overlaps the anchor it goes to the other side
/// once; if that overlaps too, the result says so.
pub fn place_panel(
    anchor: &Rect,
    screen: &Rect,
    side: Side,
    wrap: i64,
    text_height: i64,
    max_height: i64,
    gap: i64,
) -> (r: Placement)
    requires
        layout_inputs_ok(*anchor, *screen, gap as int),
        0 <= wrap <= COORD_LIMIT,
        0 <= text_height <= COORD_LIMIT,
        0 <= max_height <= COORD_LIMIT,
    ensures
        r == place_spec(
            *anchor,
            *screen,
            side,
            wrap as int,
            text_height as int,
            max_height as int,
            gap as int,
        ),
        r.clear_of_anchor == !overlaps(r.rect, *anchor),
{
    let w = wrap + 2 * PANEL_PADDING;
    let shown = if text_height <= max_height { text_height } else { max_height };
    let h = shown + 2 * PANEL_PADDING;
    let centred = half_floor(anchor.min_y + anchor.max_y - h);
    let below_top = if centred < screen.min_y { screen.min_y } else { centred };
    let y = if below_top + h > screen.max_y { screen.max_y - h } else { below_top };
    let x = match side {
        Side::Left => anchor.min_x - gap - w,
        Side::Right => anchor.max_x + gap,
    };
    let first = Rect { min_x: x, min_y: y, max_x: x + w, max_y: y + h };
    if !first.overlaps(anchor) {
        Placement { rect: first, side, clear_of_anchor: true }
    } else {
        let other = match side {
            Side::Left => Side::Right,
            Side::Right => Side::Left,
        };
        let x2 = match other {
            Side::Left => anchor.min_x - gap - w,
            Side::Right => anchor.max_x + gap,
        };
        let second = Rect { min_x: x2, min_y: y, max_x: x2 + w, max_y: y + h };
        let clear = !second.overlaps(anchor);
        Placement { rect: second, side: other, clear_of_anchor: clear }
    }
}

/// The three corners of the tail drawn from the panel's edge that faces the
/// anchor, at the panel's vertical centre; it does not change the panel.
pub fn tail_points(panel: &Rect, side: Side) -> (r: [(i64, i64); 3])
    requires
        panel.valid(),
    ensures
        ({
            let cy = (panel.min_y + panel.max_y) / 2;
            match side {
                Side::Left => r@ == seq![
                    (panel.max_x, cy as i64),
                    ((panel.max_x + 7) as i64, cy as i64),
                    ((panel.max_x + TAIL_LENGTH) as i64, (cy + 5) as i64),
                ],
                Side::Right => r@ == seq![
                    (panel.min_x, cy as i64),
                    ((panel.min_x - 7) as i64, cy as i64),
                    ((panel.min_x - TAIL_LENGTH) as i64, (cy + 5) as i64),
                ],
            }
        }),
{
    let cy = half_floor(panel.min_y + panel.max_y);
    let r = match side {
        Side::Left => [
            (panel.max_x, cy),
            (panel.max_x + 7, cy),
            (panel.max_x + TAIL_LENGTH, cy + 5),
        ],
        Side::Right => [
            (panel.min_x, cy),
            (panel.min_x - 7, cy),
            (panel.min_x - TAIL_LENGTH, cy + 5),
        ],
    };
    assert(r@ =~= match side {
        Side::Left => seq![
            (panel.max_x, cy),
            ((panel.max_x + 7) as i64, cy),
            ((panel.max_x + TAIL_LENGTH) as i64, (cy + 5) as i64),
        ],
        Side::Right => seq![
            (panel.min_x, cy),
            ((panel.min_x - 7) as i64, cy),
            ((panel.min_x - TAIL_LENGTH) as i64, (cy + 5) as i64),
        ],
    });
    r
}

/// Layout non-overlap: with a non-negative gap, the panel that planning and
/// placement produce never shares area with the anchor, stays on the planned
/// side, and is reported clear of it.
pub proof fn lemma_panel_clear_of_anchor(
    anchor: Rect,
    screen: Rect,
    gap: int,
    target_width: int,
    prefer_left: bool,
    text_height: int,
    max_height: int,
)
    requires
        layout_inputs_ok(anchor, screen, gap),
        0 <= target_width <= COORD_LIMIT,
        0 <= text_height <= COORD_LIMIT,
        0 <= max_height <= COORD_LIMIT,
    ensures
        ({
            let plan = plan_spec(anchor, screen, gap, target_width, prefer_left);
            let p = place_spec(
                anchor,
                screen,
                plan.side,
                plan.wrap_width as int,
                text_height,
                max_height,
                gap,
            );
            &&& !overlaps(p.rect, anchor)
            &&& p.clear_of_anchor
            &&& p.side == plan.side
        }),
{
}

/// Layout containment: whenever the panel's visible height fits the screen's
/// height, its vertical extent lies within the screen's, whatever the side
/// and wrap width.
pub proof fn lemma_panel_within_screen_vertically(
    anchor: Rect,
    screen: Rect,
    side: Side,
    wrap: int,
    text_height: int,
    max_height: int,
    gap: int,
)
    requires
        layout_inputs_ok(anchor, screen, gap),
        0 <= wrap <= COORD_LIMIT,
        0 <= text_height <= COORD_LIMIT,
        0 <= max_height <= COORD_LIMIT,
        visible_height(text_height, max_height) <= screen.max_y - screen.min_y,
    ensures
        ({
            let p = place_spec(anchor, screen, side, wrap, text_height, max_height, gap);
            screen.min_y <= p.rect.min_y && p.rect.max_y <= screen.max_y
        }),
{
}

/// Side preference: with equal free width on both sides and the left side
/// preferred, the panel goes to the left.
pub proof fn lemma_equal_space_prefers_left(
    anchor: Rect,
    screen: Rect,
    gap: int,
    target_width: int,
)
    requires
        layout_inputs_ok(anchor, screen, gap),
        0 <= target_width <= COORD_LIMIT,
        space_left(anchor, screen, gap) == space_right(anchor, screen, gap),
    ensures
        plan_spec(anchor, screen, gap, target_width, true).side == Side::Left,
{
}

} // verus!
