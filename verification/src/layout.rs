//! Layout engine: places a centered content rectangle in the viewport,
//! stacks the page's bands (banner, tab bar, content) inside it from top
//! to bottom, splits the content band into two stacked panels, and
//! computes the padded, clamped rectangle behind them all.  Bands never
//! overlap and never leave their parent rectangle.

use vstd::prelude::*;
use vstd::math::max;
use vstd::math::min;

verus! {

/// Height of the tab-bar band: one row of titles inside a border.
pub const TABS_HEIGHT: u16 = 3;

/// Height of the content band under the tab bar.
pub const CONTENT_HEIGHT: u16 = 20;

/// Height of the upper panel of the content band.
pub const PANEL_TOP_HEIGHT: u16 = 14;

/// Height of the lower panel of the content band.
pub const PANEL_BOTTOM_HEIGHT: u16 = 6;

/// A rectangle of character cells, in the coordinates of the screen
/// grid: `x` grows rightward, `y` grows downward.
#[derive(Clone, Copy, Debug, PartialEq, Eq, Structural)]
pub struct Rect {
    pub x: u16,
    pub y: u16,
    pub width: u16,
    pub height: u16,
}

impl Rect {
    /// First column to the right of the rectangle.
    pub open spec fn right(&self) -> int {
        self.x + self.width
    }

    /// First row below the rectangle.
    pub open spec fn bottom(&self) -> int {
        self.y + self.height
    }

    /// Both edges stay within the range of the screen grid's
    /// coordinates.
    pub open spec fn wf(&self) -> bool {
        self.right() <= u16::MAX && self.bottom() <= u16::MAX
    }

    /// The rectangle lies entirely inside `outer`.
    pub open spec fn within(&self, outer: Rect) -> bool {
        &&& outer.x <= self.x
        &&& self.right() <= outer.right()
        &&& outer.y <= self.y
        &&& self.bottom() <= outer.bottom()
    }
}

/// Share of the viewport width that the centered rectangle takes, in
/// percent: narrower on desktop, wider on a mobile viewport.
pub open spec fn width_percent(mobile: bool) -> u16 {
    if mobile {
        80
    } else {
        60
    }
}

/// Share of the viewport height that the centered rectangle takes, in
/// percent: short on mobile, tall on desktop.
pub open spec fn height_percent(mobile: bool) -> u16 {
    if mobile {
        30
    } else {
        80
    }
}

/// `len` scaled down to `pct` percent, rounded toward zero.
pub open spec fn scaled(len: u16, pct: u16) -> int {
    (len * pct) / 100
}

/// The centered content rectangle of a viewport: a fixed share of its
/// width and height, centered on both axes.
pub open spec fn spec_centered(viewport: Rect, mobile: bool) -> Rect {
    let w = scaled(viewport.width, width_percent(mobile));
    let h = scaled(viewport.height, height_percent(mobile));
    Rect {
        x: (viewport.x + (viewport.width - w) / 2) as u16,
        y: (viewport.y + (viewport.height - h) / 2) as u16,
        width: w as u16,
        height: h as u16,
    }
}

/// Computes the centered content rectangle of the viewport.
pub fn centered_rect(viewport: Rect, mobile: bool) -> (r: Rect)
    requires
        viewport.wf(),
    ensures
        r == spec_centered(viewport, mobile),
        r.width == scaled(viewport.width, width_percent(mobile)),
        r.height == scaled(viewport.height, height_percent(mobile)),
        r.x - viewport.x == (viewport.width - r.width) / 2,
        r.y - viewport.y == (viewport.height - r.height) / 2,
        r.within(viewport),
        r.wf(),
{
    let pw: u16 = if mobile {
        80
    } else {
        60
    };
    let ph: u16 = if mobile {
        30
    } else {
        80
    };
    proof {
        assert((viewport.width * pw) / 100 <= viewport.width && (viewport.height * ph) / 100
            <= viewport.height) by (nonlinear_arith)
            requires
                pw <= 100 && ph <= 100,
        ;
    }
    let w: u16 = ((viewport.width as u32) * (pw as u32) / 100) as u16;
    let h: u16 = ((viewport.height as u32) * (ph as u32) / 100) as u16;
    let x: u16 = viewport.x + (viewport.width - w) / 2;
    let y: u16 = viewport.y + (viewport.height - h) / 2;
    Rect { x, y, width: w, height: h }
}

/// Rows taken by the first `k` bands when heights `hs` are stacked in a
/// parent of height `cap`: each band gets its asked height, cut down to
/// the rows still free.
pub open spec fn used_height(hs: Seq<u16>, cap: int, k: int) -> int
    decreases k,
{
    if k <= 0 {
        0
    } else {
        let prev = used_height(hs, cap, k - 1);
        prev + min(hs[k - 1] as int, cap - prev)
    }
}

/// The used rows never leave the range `[0, cap]`.
proof fn lemma_used_height_bounds(hs: Seq<u16>, cap: int, k: int)
    requires
        0 <= cap,
    ensures
        0 <= used_height(hs, cap, k) <= cap,
    decreases k,
{
    if k > 0 {
        lemma_used_height_bounds(hs, cap, k - 1);
    }
}

/// Later bands never start above earlier ones.
proof fn lemma_used_height_monotonic(hs: Seq<u16>, cap: int, i: int, j: int)
    requires
        0 <= cap,
        i <= j,
    ensures
        used_height(hs, cap, i) <= used_height(hs, cap, j),
    decreases j - i,
{
    if i < j {
        lemma_used_height_monotonic(hs, cap, i, j - 1);
        lemma_used_height_bounds(hs, cap, j - 1);
    }
}

/// The bands that stacking heights `hs` in `parent` produces: full
/// width, one below the other from the parent's top edge.
pub open spec fn band_stack(parent: Rect, hs: Seq<u16>) -> Seq<Rect> {
    Seq::new(
        hs.len(),
        |i: int|
            Rect {
                x: parent.x,
                y: (parent.y + used_height(hs, parent.height as int, i)) as u16,
                width: parent.width,
                height: (used_height(hs, parent.height as int, i + 1) - used_height(
                    hs,
                    parent.height as int,
                    i,
                )) as u16,
            },
    )
}

/// Stacks one band per requested height inside `parent`, top to bottom
/// in the given order.  Bands keep their requested heights until the
/// parent runs out of rows; the rest get what is left, then nothing.
pub fn stack_bands(parent: Rect, heights: &Vec<u16>) -> (bands: Vec<Rect>)
    requires
        parent.wf(),
    ensures
        bands@ == band_stack(parent, heights@),
        bands@.len() == heights@.len(),
        forall|i: int|
            0 <= i < bands@.len() ==> (#[trigger] bands@[i]).wf() && bands@[i].within(parent),
{
    let ghost cap: int = parent.height as int;
    let mut bands: Vec<Rect> = Vec::new();
    let mut used: u16 = 0;
    let mut i: usize = 0;
    while i < heights.len()
        invariant
            parent.wf(),
            i <= heights@.len(),
            used == used_height(heights@, cap, i as int),
            0 <= used <= parent.height,
            cap == parent.height as int,
            bands@ =~= band_stack(parent, heights@).subrange(0, i as int),
        decreases heights@.len() - i,
    {
        let remaining: u16 = parent.height - used;
        let asked: u16 = heights[i];
        let h: u16 = if asked < remaining {
            asked
        } else {
            remaining
        };
        bands.push(Rect { x: parent.x, y: parent.y + used, width: parent.width, height: h });
        proof {
            assert(bands@ =~= band_stack(parent, heights@).subrange(0, i as int + 1));
        }
        used = used + h;
        i = i + 1;
    }
    proof {
        assert(bands@ =~= band_stack(parent, heights@));
        assert forall|k: int| 0 <= k < bands@.len() implies (#[trigger] bands@[k]).wf()
            && bands@[k].within(parent) by {
            lemma_used_height_bounds(heights@, cap, k);
            lemma_used_height_bounds(heights@, cap, k + 1);
            lemma_used_height_monotonic(heights@, cap, k, k + 1);
        }
    }
    bands
}

/// Rows covered by the first `k` rectangles of `rs` together.
pub open spec fn height_sum(rs: Seq<Rect>, k: int) -> int
    decreases k,
{
    if k <= 0 {
        0
    } else {
        height_sum(rs, k - 1) + rs[k - 1].height
    }
}

/// The band heights telescope: the first `k` bands cover exactly the
/// rows that stacking allotted to them.
proof fn lemma_band_stack_height_sum(parent: Rect, hs: Seq<u16>, k: int)
    requires
        parent.wf(),
        0 <= k <= hs.len(),
    ensures
        height_sum(band_stack(parent, hs), k) == used_height(hs, parent.height as int, k),
    decreases k,
{
    if k > 0 {
        lemma_band_stack_height_sum(parent, hs, k - 1);
        lemma_used_height_bounds(hs, parent.height as int, k - 1);
        lemma_used_height_bounds(hs, parent.height as int, k);
        lemma_used_height_monotonic(hs, parent.height as int, k - 1, k);
    }
}

/// Law: however the viewport is sized, stacked bands never overlap —
/// each one ends at or above the top of every later one — and their
/// heights sum to at most the parent rectangle's height.
pub proof fn lemma_band_stack_fits(parent: Rect, hs: Seq<u16>)
    requires
        parent.wf(),
    ensures
        height_sum(band_stack(parent, hs), hs.len() as int) <= parent.height,
        forall|i: int, j: int|
            0 <= i < j < hs.len() ==> (#[trigger] band_stack(parent, hs)[i]).bottom() <= (
            #[trigger] band_stack(parent, hs)[j]).y,
{
    let cap = parent.height as int;
    lemma_band_stack_height_sum(parent, hs, hs.len() as int);
    lemma_used_height_bounds(hs, cap, hs.len() as int);
    assert forall|i: int, j: int| 0 <= i < j < hs.len() implies (#[trigger] band_stack(
        parent,
        hs,
    )[i]).bottom() <= (#[trigger] band_stack(parent, hs)[j]).y by {
        lemma_used_height_bounds(hs, cap, i);
        lemma_used_height_bounds(hs, cap, i + 1);
        lemma_used_height_bounds(hs, cap, j);
        lemma_used_height_monotonic(hs, cap, i + 1, j);
    }
}

/// Splits the content band into the two stacked panels of the active
/// tab: a tall upper panel and a short lower one, cut down in turn when
/// the band is small.
pub fn split_content(body: Rect) -> (panels: (Rect, Rect))
    requires
        body.wf(),
    ensures
        panels.0.x == body.x && panels.1.x == body.x,
        panels.0.width == body.width && panels.1.width == body.width,
        panels.0.y == body.y,
        panels.0.height == min(PANEL_TOP_HEIGHT as int, body.height as int),
        panels.1.y == body.y + panels.0.height,
        panels.1.height == min(PANEL_BOTTOM_HEIGHT as int, body.height - panels.0.height),
        panels.0.within(body) && panels.1.within(body),
        panels.0.wf() && panels.1.wf(),
        panels.0.bottom() <= panels.1.y,
{
    let top_h: u16 = if body.height < PANEL_TOP_HEIGHT {
        body.height
    } else {
        PANEL_TOP_HEIGHT
    };
    let rem: u16 = body.height - top_h;
    let bottom_h: u16 = if rem < PANEL_BOTTOM_HEIGHT {
        rem
    } else {
        PANEL_BOTTOM_HEIGHT
    };
    let top = Rect { x: body.x, y: body.y, width: body.width, height: top_h };
    let bottom = Rect { x: body.x, y: body.y + top_h, width: body.width, height: bottom_h };
    (top, bottom)
}

/// The requested heights of the page's three bands: the banner with one
/// spare row, the tab bar, and the content band.
pub open spec fn spec_page_heights(banner_rows: u16) -> Seq<u16> {
    seq![(banner_rows + 1) as u16, TABS_HEIGHT, CONTENT_HEIGHT]
}

/// Lays out one render pass of the page: centers the content rectangle
/// in the viewport and stacks the banner, tab-bar and content bands in
/// it.  Returns the centered rectangle and the three bands.
pub fn page_bands(viewport: Rect, mobile: bool, banner_rows: u16) -> (r: (Rect, Vec<Rect>))
    requires
        viewport.wf(),
        banner_rows < u16::MAX,
    ensures
        r.0 == spec_centered(viewport, mobile),
        r.1@ == band_stack(spec_centered(viewport, mobile), spec_page_heights(banner_rows)),
        r.1@.len() == 3,
        forall|i: int| 0 <= i < 3 ==> (#[trigger] r.1@[i]).wf() && r.1@[i].within(r.0),
{
    let centered: Rect = centered_rect(viewport, mobile);
    let heights: Vec<u16> = vec![banner_rows + 1, TABS_HEIGHT, CONTENT_HEIGHT];
    proof {
        assert(heights@ =~= spec_page_heights(banner_rows));
    }
    let bands: Vec<Rect> = stack_bands(centered, &heights);
    (centered, bands)
}

/// `r` moved and shrunk as little as possible to lie inside `frame`.
pub open spec fn spec_clamp(r: Rect, frame: Rect) -> Rect {
    let w = min(r.width as int, frame.width as int);
    let h = min(r.height as int, frame.height as int);
    Rect {
        x: max(frame.x as int, min(r.x as int, frame.right() - w)) as u16,
        y: max(frame.y as int, min(r.y as int, frame.bottom() - h)) as u16,
        width: w as u16,
        height: h as u16,
    }
}

/// Clamps `r` into `frame`: keeps `r`'s size where it fits, and slides
/// the rectangle the shortest way into the frame.
pub fn clamp_rect(r: Rect, frame: Rect) -> (c: Rect)
    requires
        frame.wf(),
    ensures
        c == spec_clamp(r, frame),
        c.within(frame),
        c.wf(),
{
    let w: u16 = if r.width < frame.width {
        r.width
    } else {
        frame.width
    };
    let h: u16 = if r.height < frame.height {
        r.height
    } else {
        frame.height
    };
    let x_hi: u16 = frame.x + frame.width - w;
    let y_hi: u16 = frame.y + frame.height - h;
    let x: u16 = if r.x < frame.x {
        frame.x
    } else if r.x > x_hi {
        x_hi
    } else {
        r.x
    };
    let y: u16 = if r.y < frame.y {
        frame.y
    } else if r.y > y_hi {
        y_hi
    } else {
        r.y
    };
    Rect { x, y, width: w, height: h }
}

/// Rows that the first `k` of the requested heights ask for together,
/// capped at one more than the screen grid allows: beyond that cap the
/// exact total no longer matters, the padded band is clamped anyway.
pub open spec fn asked_height(hs: Seq<u16>, k: int) -> int
    decreases k,
{
    if k <= 0 {
        0
    } else {
        min(asked_height(hs, k - 1) + hs[k - 1], 0x1_0000)
    }
}

/// The rectangle drawn behind the page: the content rectangle padded by
/// two columns and one row on each side, tall enough for all requested
/// band heights plus the border rows.
pub open spec fn spec_backdrop(content: Rect, hs: Seq<u16>) -> Rect {
    Rect {
        x: max(content.x - 2, 0) as u16,
        y: max(content.y - 1, 0) as u16,
        width: min(content.width + 4, u16::MAX as int) as u16,
        height: min(asked_height(hs, hs.len() as int) + 3, u16::MAX as int) as u16,
    }
}

/// The capped total never leaves `[0, 0x1_0000]`.
proof fn lemma_asked_height_bounds(hs: Seq<u16>, k: int)
    ensures
        0 <= asked_height(hs, k) <= 0x1_0000,
    decreases k,
{
    if k > 0 {
        lemma_asked_height_bounds(hs, k - 1);
    }
}

/// Computes the backdrop rectangle behind the page: pads the content
/// rectangle sideways and upward, gives it the total of the requested
/// band heights plus the border rows, and clamps the result into the
/// screen frame.
pub fn backdrop_rect(content: Rect, heights: &Vec<u16>, frame: Rect) -> (r: Rect)
    requires
        frame.wf(),
    ensures
        r == spec_clamp(spec_backdrop(content, heights@), frame),
        r.within(frame),
        r.wf(),
{
    let mut total: u32 = 0;
    let mut i: usize = 0;
    while i < heights.len()
        invariant
            i <= heights@.len(),
            total == asked_height(heights@, i as int),
            total <= 0x1_0000,
        decreases heights@.len() - i,
    {
        total = total + heights[i] as u32;
        if total > 0x1_0000 {
            total = 0x1_0000;
        }
        i = i + 1;
    }
    let x: u16 = if content.x >= 2 {
        content.x - 2
    } else {
        0
    };
    let y: u16 = if content.y >= 1 {
        content.y - 1
    } else {
        0
    };
    let width: u16 = if content.width <= u16::MAX - 4 {
        content.width + 4
    } else {
        u16::MAX
    };
    let height: u16 = if total + 3 <= u16::MAX as u32 {
        (total + 3) as u16
    } else {
        u16::MAX
    };
    let padded = Rect { x, y, width, height };
    proof {
        lemma_asked_height_bounds(heights@, heights@.len() as int);
        assert(padded == spec_backdrop(content, heights@));
    }
    clamp_rect(padded, frame)
}

} // verus!
