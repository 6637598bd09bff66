use super::{upto, Argument, Coords, ResizeRule, SplitKind, Tokens};
use vstd::prelude::*;

verus! {

/// A concrete, rectangular region of the screen.
///
/// The region is inclusive of the top and left boundary and exclusive of the
/// bottom and right boundary.
#[derive(Copy, Clone, Debug, Eq, PartialEq, Structural)]
pub struct Region {
    pub left: u32,
    pub top: u32,
    pub right: u32,
    pub bottom: u32,
}

/// The smaller of two numbers.
pub open spec fn lesser(a: int, b: int) -> int {
    if a <= b {
        a
    } else {
        b
    }
}

/// The larger of two numbers.
pub open spec fn greater(a: int, b: int) -> int {
    if a >= b {
        a
    } else {
        b
    }
}

/// The point of the span from `lo` to `hi`, both inclusive, nearest to `p`.
pub open spec fn nearest(p: int, lo: int, hi: int) -> int {
    greater(lesser(p, hi), lo)
}

/// Where the span from `lo` up to `hi` (exclusive) lies once it was moved
/// the least distance that makes it hold `p`. A point before the span
/// becomes its first point, one behind it its last.
pub open spec fn moved_span(lo: int, hi: int, p: int) -> (int, int) {
    if p < lo {
        (p, p + (hi - lo))
    } else if hi <= p {
        (p + 1 - (hi - lo), p + 1)
    } else {
        (lo, hi)
    }
}

/// The dividing line of a span for an offset counted from its low end: it
/// leaves at least one unit behind it.
pub open spec fn cut_from_low(lo: int, hi: int, n: int) -> int {
    lesser(lo + n, hi - 1)
}

/// The dividing line of a span for an offset counted back from its high
/// end: it leaves at least one unit on each side where the span has two.
pub open spec fn cut_from_high(lo: int, hi: int, n: int) -> int {
    lesser(greater(hi - n, lo + 1), hi - 1)
}

/// The dividing line of a span under a rule.
pub open spec fn cut(lo: int, hi: int, n: int, rule: ResizeRule) -> int {
    match rule {
        ResizeRule::MaxRightBottom => cut_from_high(lo, hi, n),
        _ => cut_from_low(lo, hi, n),
    }
}

impl Region {
    /// A region has a positive width and a positive height.
    pub open spec fn wf(&self) -> bool {
        self.left < self.right && self.top < self.bottom
    }

    /// The region between two corners, given in either order.
    pub open spec fn spec_new(x1: u32, y1: u32, x2: u32, y2: u32) -> Region {
        Region {
            left: lesser(x1 as int, x2 as int) as u32,
            top: lesser(y1 as int, y2 as int) as u32,
            right: greater(x1 as int, x2 as int) as u32,
            bottom: greater(y1 as int, y2 as int) as u32,
        }
    }

    pub open spec fn spec_contains(&self, coords: Coords) -> bool {
        self.left <= coords.x < self.right && self.top <= coords.y < self.bottom
    }

    pub open spec fn spec_width(&self) -> int {
        self.right - self.left
    }

    pub open spec fn spec_height(&self) -> int {
        self.bottom - self.top
    }

    pub open spec fn spec_xy_within(&self, coords: Coords) -> Coords {
        Coords {
            x: nearest(coords.x as int, self.left as int, self.right - 1) as u32,
            y: nearest(coords.y as int, self.top as int, self.bottom - 1) as u32,
        }
    }

    pub open spec fn spec_move_to_contain(&self, coords: Coords) -> Region {
        let (left, right) = moved_span(self.left as int, self.right as int, coords.x as int);
        let (top, bottom) = moved_span(self.top as int, self.bottom as int, coords.y as int);
        Region { left: left as u32, top: top as u32, right: right as u32, bottom: bottom as u32 }
    }

    pub open spec fn spec_split(self, kind: SplitKind, rule: ResizeRule) -> (
        SplitKind,
        Region,
        Region,
    ) {
        match kind {
            SplitKind::Horizontal(n) => {
                let at = cut(self.top as int, self.bottom as int, n as int, rule) as u32;
                (
                    SplitKind::Horizontal(at),
                    Region { bottom: at, ..self },
                    Region { top: at, ..self },
                )
            },
            SplitKind::Vertical(n) => {
                let at = cut(self.left as int, self.right as int, n as int, rule) as u32;
                (SplitKind::Vertical(at), Region { right: at, ..self }, Region { left: at, ..self })
            },
        }
    }

    /// Creates a region from two corners. The corners need not be ordered,
    /// but they must differ in both coordinates.
    pub fn new(x1: u32, y1: u32, x2: u32, y2: u32) -> (r: Region)
        requires
            x1 != x2,
            y1 != y2,
        ensures
            r == Region::spec_new(x1, y1, x2, y2),
            r.wf(),
    {
        let (left, right) = if x1 <= x2 {
            (x1, x2)
        } else {
            (x2, x1)
        };
        let (top, bottom) = if y1 <= y2 {
            (y1, y2)
        } else {
            (y2, y1)
        };
        Region { left, top, right, bottom }
    }

    /// Returns true if the given coordinates lie within this region.
    pub fn contains(&self, coords: Coords) -> (r: bool)
        ensures
            r == self.spec_contains(coords),
    {
        self.left <= coords.x && coords.x < self.right && self.top <= coords.y && coords.y
            < self.bottom
    }

    /// Returns the width of this region.
    pub fn width(&self) -> (r: u32)
        requires
            self.wf(),
        ensures
            r == self.spec_width(),
            r >= 1,
    {
        self.right - self.left
    }

    /// Returns the height of this region.
    pub fn height(&self) -> (r: u32)
        requires
            self.wf(),
        ensures
            r == self.spec_height(),
            r >= 1,
    {
        self.bottom - self.top
    }

    /// Calculates the nearest coordinates within the region.
    pub fn xy_within(&self, coords: Coords) -> (r: Coords)
        requires
            self.wf(),
        ensures
            r == self.spec_xy_within(coords),
            self.spec_contains(r),
    {
        Coords { x: self.x_within(coords.x), y: self.y_within(coords.y) }
    }

    /// Calculates the nearest x value within the region.
    pub fn x_within(&self, x: u32) -> (r: u32)
        requires
            self.wf(),
        ensures
            r == nearest(x as int, self.left as int, self.right - 1),
            self.left <= r < self.right,
    {
        let low = if x <= self.right - 1 {
            x
        } else {
            self.right - 1
        };
        if low >= self.left {
            low
        } else {
            self.left
        }
    }

    /// Calculates the nearest y value within the region.
    pub fn y_within(&self, y: u32) -> (r: u32)
        requires
            self.wf(),
        ensures
            r == nearest(y as int, self.top as int, self.bottom - 1),
            self.top <= r < self.bottom,
    {
        let low = if y <= self.bottom - 1 {
            y
        } else {
            self.bottom - 1
        };
        if low >= self.top {
            low
        } else {
            self.top
        }
    }

    /// Translates coordinates into the region's own space, where its left
    /// top cell is the origin. Coordinates before the region stay at zero.
    pub fn offset(&self, coords: Coords) -> (r: Coords)
        ensures
            r.x == greater(coords.x - self.left, 0),
            r.y == greater(coords.y - self.top, 0),
    {
        Coords { x: coords.x.saturating_sub(self.left), y: coords.y.saturating_sub(self.top) }
    }

    /// Moves the region the least distance, on each axis by itself, that
    /// makes it hold the coordinates. Width and height stay as they are; a
    /// region that holds the coordinates already stays where it is.
    pub fn move_to_contain(&self, coords: Coords) -> (r: Region)
        requires
            self.wf(),
            coords.x < u32::MAX,
            coords.y < u32::MAX,
        ensures
            r == self.spec_move_to_contain(coords),
            r.wf(),
            r.spec_contains(coords),
            r.spec_width() == self.spec_width(),
            r.spec_height() == self.spec_height(),
            self.spec_contains(coords) ==> r == *self,
    {
        let w = self.width();
        let h = self.height();
        match (
            coords.x < self.left,
            self.right <= coords.x,
            coords.y < self.top,
            self.bottom <= coords.y,
        ) {
            // Left and above
            (true, false, true, false) => Region::new(
                coords.x,
                coords.y,
                coords.x + w,
                coords.y + h,
            ),
            // Left and below
            (true, false, false, true) => Region::new(
                coords.x,
                (coords.y + 1).saturating_sub(h),
                coords.x + w,
                (coords.y + 1).saturating_sub(h) + h,
            ),
            // Right and above
            (false, true, true, false) => Region::new(
                (coords.x + 1).saturating_sub(w),
                coords.y,
                (coords.x + 1).saturating_sub(w) + w,
                coords.y + h,
            ),
            // Right and below
            (false, true, false, true) => Region::new(
                (coords.x + 1).saturating_sub(w),
                (coords.y + 1).saturating_sub(h),
                (coords.x + 1).saturating_sub(w) + w,
                (coords.y + 1).saturating_sub(h) + h,
            ),
            // Left only
            (true, false, false, false) => Region::new(
                coords.x,
                self.top,
                coords.x + w,
                self.bottom,
            ),
            // Right only
            (false, true, false, false) => Region::new(
                (coords.x + 1).saturating_sub(w),
                self.top,
                (coords.x + 1).saturating_sub(w) + w,
                self.bottom,
            ),
            // Above only
            (false, false, true, false) => Region::new(
                self.left,
                coords.y,
                self.right,
                coords.y + h,
            ),
            // Below only
            (false, false, false, true) => Region::new(
                self.left,
                (coords.y + 1).saturating_sub(h),
                self.right,
                (coords.y + 1).saturating_sub(h) + h,
            ),
            _ => *self,
        }
    }

    /// Splits the region in two along an axis. The offset is counted from
    /// the low end, or under `MaxRightBottom` back from the high end, and
    /// held inside the region. Gives the split with the line's coordinate,
    /// the half before the line and the half behind it.
    pub fn split(self, kind: SplitKind, rule: ResizeRule) -> (r: (SplitKind, Region, Region))
        requires
            self.wf(),
        ensures
            r == self.spec_split(kind, rule),
    {
        match (kind, rule) {
            (SplitKind::Horizontal(n), ResizeRule::MaxLeftTop)
            | (SplitKind::Horizontal(n), ResizeRule::Percentage) => {
                let n = Self::low_cut(self.top, self.bottom, n);
                (
                    SplitKind::Horizontal(n),
                    Region { bottom: n, ..self },
                    Region { top: n, ..self },
                )
            },
            (SplitKind::Horizontal(n), ResizeRule::MaxRightBottom) => {
                let n = Self::high_cut(self.top, self.bottom, n);
                (
                    SplitKind::Horizontal(n),
                    Region { bottom: n, ..self },
                    Region { top: n, ..self },
                )
            },
            (SplitKind::Vertical(n), ResizeRule::MaxLeftTop)
            | (SplitKind::Vertical(n), ResizeRule::Percentage) => {
                let n = Self::low_cut(self.left, self.right, n);
                (SplitKind::Vertical(n), Region { right: n, ..self }, Region { left: n, ..self })
            },
            (SplitKind::Vertical(n), ResizeRule::MaxRightBottom) => {
                let n = Self::high_cut(self.left, self.right, n);
                (SplitKind::Vertical(n), Region { right: n, ..self }, Region { left: n, ..self })
            },
        }
    }

    fn low_cut(lo: u32, hi: u32, n: u32) -> (r: u32)
        requires
            lo < hi,
        ensures
            r == cut_from_low(lo as int, hi as int, n as int),
    {
        if n >= hi - 1 - lo {
            hi - 1
        } else {
            lo + n
        }
    }

    fn high_cut(lo: u32, hi: u32, n: u32) -> (r: u32)
        requires
            lo < hi,
        ensures
            r == cut_from_high(lo as int, hi as int, n as int),
    {
        let back = hi.saturating_sub(n);
        let held = if back >= lo + 1 {
            back
        } else {
            lo + 1
        };
        if held <= hi - 1 {
            held
        } else {
            hi - 1
        }
    }

    /// The two corners of a region may be given in either order.
    pub proof fn lemma_new_symmetric(x1: u32, y1: u32, x2: u32, y2: u32)
        ensures
            Region::spec_new(x1, y1, x2, y2) == Region::spec_new(x2, y2, x1, y1),
    {
    }

    /// The nearest coordinates within a region lie within it; taking the
    /// nearest of them again changes nothing; and coordinates within the
    /// region are their own nearest.
    pub proof fn lemma_within_idempotent(self, p: Coords)
        requires
            self.wf(),
        ensures
            self.spec_contains(self.spec_xy_within(p)),
            self.spec_xy_within(self.spec_xy_within(p)) == self.spec_xy_within(p),
            self.spec_contains(p) ==> self.spec_xy_within(p) == p,
    {
    }

    /// A region moved to hold coordinates holds them, and is as wide and as
    /// high as before.
    pub proof fn lemma_move_to_contain(self, p: Coords)
        requires
            self.wf(),
            p.x < u32::MAX,
            p.y < u32::MAX,
        ensures
            self.spec_move_to_contain(p).spec_contains(p),
            self.spec_move_to_contain(p).spec_width() == self.spec_width(),
            self.spec_move_to_contain(p).spec_height() == self.spec_height(),
    {
    }

    /// The halves of a split lie side by side and make up the region.
    pub proof fn lemma_split_covers(self, kind: SplitKind, rule: ResizeRule, p: Coords)
        requires
            self.wf(),
        ensures
            ({
                let (_, first, second) = self.spec_split(kind, rule);
                self.spec_contains(p) <==> (first.spec_contains(p) || second.spec_contains(p))
            }),
            ({
                let (_, first, second) = self.spec_split(kind, rule);
                !(first.spec_contains(p) && second.spec_contains(p))
            }),
    {
    }

    /// Neither half of a split is empty, where the region is at least two
    /// units wide and high and the offset, unless it is counted back from
    /// the high end, is not zero.
    pub proof fn lemma_split_halves(self, kind: SplitKind, rule: ResizeRule)
        requires
            self.wf(),
            self.spec_width() >= 2,
            self.spec_height() >= 2,
            rule != ResizeRule::MaxRightBottom ==> match kind {
                SplitKind::Horizontal(n) => n >= 1,
                SplitKind::Vertical(n) => n >= 1,
            },
        ensures
            self.spec_split(kind, rule).1.wf(),
            self.spec_split(kind, rule).2.wf(),
    {
    }
}

impl Argument for Region {
    open spec fn faithful(&self) -> bool {
        self.wf()
    }

    open spec fn tokens(&self) -> Seq<u64> {
        seq![self.left as u64, self.top as u64, self.right as u64, self.bottom as u64]
    }

    /// Four tokens are two corners, in either order; corners that span no
    /// region give nothing. Fewer tokens give the fallback.
    open spec fn parsed(toks: Seq<u64>, default: Option<Region>) -> Option<Region> {
        if toks.len() >= 4 {
            if toks[0] as u32 != toks[2] as u32 && toks[1] as u32 != toks[3] as u32 {
                Some(
                    Region::spec_new(
                        toks[0] as u32,
                        toks[1] as u32,
                        toks[2] as u32,
                        toks[3] as u32,
                    ),
                )
            } else {
                None
            }
        } else {
            default
        }
    }

    open spec fn taken(toks: Seq<u64>) -> nat {
        upto(toks, 4)
    }

    fn from_nums(args: &mut Tokens, default: Option<Region>) -> (r: Option<Region>) {
        let l = args.next();
        let t = args.next();
        let r = args.next();
        let b = args.next();
        proof {
            assert(args@ =~= old(args)@.skip(Self::taken(old(args)@) as int));
        }
        match (l, t, r, b) {
            (Some(l), Some(t), Some(r), Some(b)) => {
                let x1 = #[verifier::truncate] (l as u32);
                let y1 = #[verifier::truncate] (t as u32);
                let x2 = #[verifier::truncate] (r as u32);
                let y2 = #[verifier::truncate] (b as u32);
                if x1 != x2 && y1 != y2 {
                    Some(Region::new(x1, y1, x2, y2))
                } else {
                    None
                }
            },
            _ => default,
        }
    }

    fn push_nums(&self, out: &mut Vec<u64>) {
        out.push(self.left as u64);
        out.push(self.top as u64);
        out.push(self.right as u64);
        out.push(self.bottom as u64);
        proof {
            assert(final(out)@ =~= old(out)@ + self.tokens());
        }
    }

    proof fn lemma_tokens_parse(self, default: Option<Region>) {
    }

    proof fn lemma_parsed_faithful(toks: Seq<u64>, default: Option<Region>) {
    }
}

} // verus!
