//! Grid geometry: cells and axis-aligned rectangles.

use vstd::prelude::*;
use crate::direction::Direction;

verus! {

/// A cell of the grid. `x` grows to the right and `y` grows downwards.
///
/// Points are ordered by `x` first and `y` second.
#[derive(Copy, Clone, Debug, PartialEq, Eq, PartialOrd, Ord, Hash, Structural)]
pub struct Point {
    pub x: usize,
    pub y: usize,
}

impl Point {
    /// The cell at column `x` and row `y`.
    pub fn new(x: usize, y: usize) -> (p: Point)
        ensures
            p.x == x,
            p.y == y,
    {
        Point { x, y }
    }

    /// Whether the cell next to this one in direction `d` has coordinates
    /// that fit the grid's integer type.
    pub open spec fn has_neighbor(self, d: Direction) -> bool {
        match d {
            Direction::Up => self.y > 0,
            Direction::Down => self.y < usize::MAX,
            Direction::Left => self.x > 0,
            Direction::Right => self.x < usize::MAX,
        }
    }

    /// The cell one step away in direction `d`.
    pub open spec fn neighbor(self, d: Direction) -> Point
        recommends
            self.has_neighbor(d),
    {
        match d {
            Direction::Up => Point { x: self.x, y: (self.y - 1) as usize },
            Direction::Down => Point { x: self.x, y: (self.y + 1) as usize },
            Direction::Left => Point { x: (self.x - 1) as usize, y: self.y },
            Direction::Right => Point { x: (self.x + 1) as usize, y: self.y },
        }
    }
}

/// An axis-aligned rectangle of cells. The left and top edges belong to the
/// rectangle, the right and bottom edges do not.
#[derive(Copy, Clone, Debug, PartialEq, Eq, Structural)]
pub struct Rect {
    pub x: usize,
    pub y: usize,
    pub width: usize,
    pub height: usize,
}

impl Rect {
    /// The right and bottom edges are representable coordinates.
    pub open spec fn wf(&self) -> bool {
        &&& self.x + self.width <= usize::MAX
        &&& self.y + self.height <= usize::MAX
    }

    /// Membership of a cell: `x <= p.x < x + width` and `y <= p.y < y + height`.
    pub open spec fn spec_contains(&self, point: &Point) -> bool {
        &&& self.x <= point.x < self.x + self.width
        &&& self.y <= point.y < self.y + self.height
    }

    /// The number of cells of the rectangle.
    pub open spec fn spec_area(&self) -> nat {
        (self.width * self.height) as nat
    }

    /// The cells of the rectangle, as a set.
    pub open spec fn cells(&self) -> Set<Point> {
        Set::new(|p: Point| self.spec_contains(&p))
    }

    /// The first column of the rectangle.
    pub fn left(&self) -> (edge: usize)
        ensures
            edge == self.x,
    {
        self.x
    }

    /// The first column to the right of the rectangle.
    pub fn right(&self) -> (edge: usize)
        requires
            self.x + self.width <= usize::MAX,
        ensures
            edge == self.x + self.width,
    {
        self.x + self.width
    }

    /// The first row of the rectangle.
    pub fn top(&self) -> (edge: usize)
        ensures
            edge == self.y,
    {
        self.y
    }

    /// The first row below the rectangle.
    pub fn bottom(&self) -> (edge: usize)
        requires
            self.y + self.height <= usize::MAX,
        ensures
            edge == self.y + self.height,
    {
        self.y + self.height
    }

    /// Same as [`Rect::left`].
    pub fn x1(&self) -> (edge: usize)
        ensures
            edge == self.x,
    {
        self.left()
    }

    /// Same as [`Rect::right`].
    pub fn x2(&self) -> (edge: usize)
        requires
            self.x + self.width <= usize::MAX,
        ensures
            edge == self.x + self.width,
    {
        self.right()
    }

    /// Same as [`Rect::top`].
    pub fn y1(&self) -> (edge: usize)
        ensures
            edge == self.y,
    {
        self.top()
    }

    /// Same as [`Rect::bottom`].
    pub fn y2(&self) -> (edge: usize)
        requires
            self.y + self.height <= usize::MAX,
        ensures
            edge == self.y + self.height,
    {
        self.bottom()
    }

    /// Whether `point` lies inside the rectangle. Defined for every
    /// rectangle, also one whose right or bottom edge is not representable.
    #[verifier::when_used_as_spec(spec_contains)]
    pub fn contains(&self, point: &Point) -> (inside: bool)
        ensures
            inside == self.spec_contains(point),
    {
        self.x <= point.x && point.x - self.x < self.width
            && self.y <= point.y && point.y - self.y < self.height
    }

    /// The number of cells of the rectangle.
    pub fn area(&self) -> (cells: usize)
        requires
            self.width * self.height <= usize::MAX,
        ensures
            cells == self.spec_area(),
    {
        self.width * self.height
    }
}


/// The first `w` cells of row `y`, from column `x` on.
spec fn row_cells(x: usize, y: usize, w: nat) -> Set<Point> {
    Set::new(|p: Point| p.y == y && x <= p.x < x + w)
}

proof fn lemma_row_cells(x: usize, y: usize, w: nat)
    requires
        x + w <= usize::MAX,
    ensures
        row_cells(x, y, w).finite(),
        row_cells(x, y, w).len() == w,
    decreases w,
{
    if w == 0 {
        assert(row_cells(x, y, w) =~= Set::<Point>::empty());
    } else {
        let shorter = (w - 1) as nat;
        lemma_row_cells(x, y, shorter);
        let last = Point { x: (x + shorter) as usize, y };
        assert(!row_cells(x, y, shorter).contains(last));
        assert(row_cells(x, y, w) =~= row_cells(x, y, shorter).insert(last));
    }
}

/// The first `h` rows of `r`.
spec fn band_cells(r: Rect, h: nat) -> Set<Point> {
    Set::new(|p: Point| r.x <= p.x < r.x + r.width && r.y <= p.y < r.y + h)
}

proof fn lemma_band_cells(r: Rect, h: nat)
    requires
        r.wf(),
        h <= r.height,
    ensures
        band_cells(r, h).finite(),
        band_cells(r, h).len() == r.width * h,
    decreases h,
{
    if h == 0 {
        assert(band_cells(r, h) =~= Set::<Point>::empty());
        assert(r.width * h == 0) by (nonlinear_arith)
            requires
                h == 0,
        ;
    } else {
        let lower = (h - 1) as nat;
        lemma_band_cells(r, lower);
        let row = row_cells(r.x, (r.y + lower) as usize, r.width as nat);
        lemma_row_cells(r.x, (r.y + lower) as usize, r.width as nat);
        assert(band_cells(r, lower).disjoint(row));
        assert(band_cells(r, h) =~= band_cells(r, lower) + row);
        vstd::set_lib::lemma_set_disjoint_lens(band_cells(r, lower), row);
        assert(r.width * h == r.width * lower + r.width) by (nonlinear_arith)
            requires
                h == lower + 1,
        ;
    }
}

/// A rectangle has `width * height` cells.
pub proof fn lemma_cells_len(r: Rect)
    requires
        r.wf(),
    ensures
        r.cells().finite(),
        r.cells().len() == r.width * r.height,
{
    lemma_band_cells(r, r.height as nat);
    assert(r.cells() =~= band_cells(r, r.height as nat));
}

} // verus!
