use vstd::prelude::*;

verus! {

/// A rectangle of terminal cells: left column, top row, width and height.
#[derive(Clone, Copy, Debug, PartialEq, Eq, Structural)]
pub struct Region {
    pub x: u16,
    pub y: u16,
    pub width: u16,
    pub height: u16,
}

impl Region {
    /// The column just past the region's right edge.
    pub open spec fn right(self) -> int {
        self.x + self.width
    }
}

/// Share of the frame's width given to the menu column, in percent.
pub const MENU_PERCENT: u16 = 30;

/// Width of the blank column between the two panels.
pub const GAP_WIDTH: u16 = 2;

/// Share of the frame's width given to the activity column, in percent.
pub const ACTIONS_PERCENT: u16 = 68;

/// The last column a region may reach: the area's right edge, capped at the
/// largest coordinate a terminal cell can have.
pub open spec fn area_end(area: Region) -> int {
    if area.x + area.width > u16::MAX {
        u16::MAX as int
    } else {
        area.x + area.width
    }
}

pub open spec fn clamp(v: int, lo: int, hi: int) -> int {
    if v < lo {
        lo
    } else if v > hi {
        hi
    } else {
        v
    }
}

/// The regions `raw` placed into `area` from column `start` on, left to right:
/// each keeps its column and width where that fits, is pushed right past the
/// one before it, and is cut at the area's right edge. All take the area's
/// rows.
pub open spec fn fit_from(area: Region, raw: Seq<Region>, start: int) -> Seq<Region>
    decreases raw.len(),
{
    if raw.len() == 0 {
        seq![]
    } else {
        let x = clamp(raw[0].x as int, start, area_end(area));
        let end = clamp(raw[0].right(), x, area_end(area));
        let placed = Region { x: x as u16, y: area.y, width: (end - x) as u16, height: area.height };
        seq![placed] + fit_from(area, raw.drop_first(), end)
    }
}

/// The regions `raw` placed into `area`, starting at its left edge.
pub open spec fn fit(area: Region, raw: Seq<Region>) -> Seq<Region> {
    fit_from(area, raw, area.x as int)
}

/// Sum of the widths of a sequence of regions.
pub open spec fn total_width(regions: Seq<Region>) -> int
    decreases regions.len(),
{
    if regions.len() == 0 {
        0
    } else {
        regions[0].width + total_width(regions.drop_first())
    }
}

/// The regions lie inside `area`, on its rows, left to right without
/// overlapping, their widths add up to no more than the area's, and a
/// zero-width area gives zero-width regions.
pub open spec fn tiles(area: Region, regions: Seq<Region>) -> bool {
    &&& forall|i: int|
        0 <= i < regions.len() ==> {
            &&& area.x <= #[trigger] regions[i].x
            &&& regions[i].right() <= area.x + area.width
            &&& regions[i].y == area.y
            &&& regions[i].height == area.height
        }
    &&& forall|i: int, j: int|
        0 <= i < j < regions.len() ==> #[trigger] regions[i].right() <= #[trigger] regions[j].x
    &&& total_width(regions) <= area.width
    &&& area.width == 0 ==> forall|i: int| 0 <= i < regions.len() ==> #[trigger] regions[i].width == 0
}

proof fn lemma_fit_from(area: Region, raw: Seq<Region>, start: int)
    requires
        area.x <= start <= area_end(area),
    ensures
        fit_from(area, raw, start).len() == raw.len(),
        forall|i: int|
            0 <= i < raw.len() ==> {
                &&& start <= #[trigger] fit_from(area, raw, start)[i].x
                &&& fit_from(area, raw, start)[i].right() <= area_end(area)
                &&& fit_from(area, raw, start)[i].y == area.y
                &&& fit_from(area, raw, start)[i].height == area.height
            },
        forall|i: int, j: int|
            0 <= i < j < raw.len() ==> #[trigger] fit_from(area, raw, start)[i].right()
                <= #[trigger] fit_from(area, raw, start)[j].x,
        total_width(fit_from(area, raw, start)) <= area_end(area) - start,
    decreases raw.len(),
{
    if raw.len() > 0 {
        let x = clamp(raw[0].x as int, start, area_end(area));
        let end = clamp(raw[0].right(), x, area_end(area));
        let out = fit_from(area, raw, start);
        let rest = fit_from(area, raw.drop_first(), end);
        lemma_fit_from(area, raw.drop_first(), end);
        assert(out.drop_first() =~= rest);
        assert forall|i: int| 0 < i < raw.len() implies #[trigger] out[i] == rest[i - 1] by {}
        assert forall|i: int, j: int|
            0 <= i < j < raw.len() implies #[trigger] out[i].right() <= #[trigger] out[j].x by {
            if i > 0 {
                assert(out[i] == rest[i - 1]);
            }
            assert(out[j] == rest[j - 1]);
        }
    }
}

/// Fitting any regions into an area yields regions that tile it: inside it,
/// left to right, disjoint, with widths summing to at most its width, and all
/// of zero width when the area has zero width.
pub proof fn lemma_fit_tiles(area: Region, raw: Seq<Region>)
    ensures
        fit(area, raw).len() == raw.len(),
        tiles(area, fit(area, raw)),
{
    lemma_fit_from(area, raw, area.x as int);
    let out = fit(area, raw);
    assert forall|i: int| 0 <= i < out.len() implies {
        &&& area.x <= #[trigger] out[i].x
        &&& out[i].right() <= area.x + area.width
        &&& out[i].y == area.y
        &&& out[i].height == area.height
    } by {}
    assert forall|i: int, j: int|
        0 <= i < j < out.len() implies #[trigger] out[i].right() <= #[trigger] out[j].x by {}
    if area.width == 0 {
        assert forall|i: int| 0 <= i < out.len() implies #[trigger] out[i].width == 0 by {
            assert(area.x <= out[i].x);
        }
    }
}

/// Relies on ratatui's `Layout::split` with a horizontal direction and three
/// constraints: it returns one rectangle per constraint, each on the area's
/// rows. Where the constraints ask for more than the area holds, the solver
/// may share the shortfall differently from one call to the next, so nothing
/// is claimed of the columns chosen.
#[verifier::external_body]
fn split_columns(area: Region, left_percent: u16, gap: u16, right_percent: u16) -> (r: Vec<Region>)
    ensures
        r@.len() == 3,
        forall|i: int| 0 <= i < 3 ==> #[trigger] r@[i].y == area.y && r@[i].height == area.height,
{
    let rect = ratatui::layout::Rect { x: area.x, y: area.y, width: area.width, height: area.height };
    let rects = ratatui::layout::Layout::default().direction(
        ratatui::layout::Direction::Horizontal,
    ).constraints(
        [
            ratatui::layout::Constraint::Percentage(left_percent),
            ratatui::layout::Constraint::Length(gap),
            ratatui::layout::Constraint::Percentage(right_percent),
        ],
    ).split(rect);
    rects.iter().map(|c| Region { x: c.x, y: c.y, width: c.width, height: c.height }).collect()
}

/// Places `raw` into `area` left to right (see `fit`), so that the result
/// tiles the area whatever `raw` holds.
pub fn fit_regions(area: Region, raw: &Vec<Region>) -> (r: Vec<Region>)
    ensures
        r@ == fit(area, raw@),
        tiles(area, r@),
{
    let hi: u16 = if area.x as u32 + area.width as u32 > u16::MAX as u32 {
        u16::MAX
    } else {
        area.x + area.width
    };
    let mut out: Vec<Region> = Vec::new();
    let mut cursor: u16 = area.x;
    let mut i: usize = 0;
    proof {
        assert(raw@.subrange(0, raw@.len() as int) =~= raw@);
        assert(out@ + fit(area, raw@) =~= fit(area, raw@));
    }
    while i < raw.len()
        invariant
            i <= raw@.len(),
            hi == area_end(area),
            area.x <= cursor <= hi,
            out@ + fit_from(area, raw@.subrange(i as int, raw@.len() as int), cursor as int) == fit(
                area,
                raw@,
            ),
        decreases raw.len() - i,
    {
        let r = raw[i];
        let x: u16 = if r.x < cursor {
            cursor
        } else if r.x > hi {
            hi
        } else {
            r.x
        };
        let r_end: u32 = r.x as u32 + r.width as u32;
        let end: u16 = if r_end < x as u32 {
            x
        } else if r_end > hi as u32 {
            hi
        } else {
            r_end as u16
        };
        let placed = Region { x, y: area.y, width: end - x, height: area.height };
        proof {
            let rest = raw@.subrange(i as int, raw@.len() as int);
            assert(rest.drop_first() =~= raw@.subrange(i + 1, raw@.len() as int));
            assert(fit_from(area, rest, cursor as int) == seq![placed] + fit_from(
                area,
                raw@.subrange(i + 1, raw@.len() as int),
                end as int,
            ));
        }
        let ghost before = out@;
        out.push(placed);
        proof {
            assert(out@ =~= before + seq![placed]);
            assert((before + seq![placed]) + fit_from(
                area,
                raw@.subrange(i + 1, raw@.len() as int),
                end as int,
            ) =~= before + (seq![placed] + fit_from(
                area,
                raw@.subrange(i + 1, raw@.len() as int),
                end as int,
            )));
        }
        cursor = end;
        i = i + 1;
    }
    proof {
        assert(fit_from(area, raw@.subrange(i as int, raw@.len() as int), cursor as int) =~= seq![]);
        assert(out@ + seq![] =~= out@);
        lemma_fit_tiles(area, raw@);
    }
    out
}

/// The three columns of a frame: the menu, the gap and the activity panel.
/// They are whatever columns the solver gave, fitted into the area, so they
/// tile it.
pub fn split_frame(area: Region) -> (r: Vec<Region>)
    ensures
        r@.len() == 3,
        tiles(area, r@),
{
    let raw = split_columns(area, MENU_PERCENT, GAP_WIDTH, ACTIONS_PERCENT);
    proof {
        lemma_fit_tiles(area, raw@);
    }
    fit_regions(area, &raw)
}

} // verus!
