//! A finite set of grid cells, kept in an ordered tree.

use vstd::prelude::*;
use std::collections::BTreeSet;
use vstd::std_specs::cmp::OrdSpec;
use vstd::std_specs::iter::IteratorSpec;
use crate::geometry::Point;

verus! {

/// A finite set of cells. The cells are stored by their coordinates, column
/// first, so the tree orders them as [`Point`] itself is ordered.
pub struct PointSet {
    cells: BTreeSet<(usize, usize)>,
}

impl View for PointSet {
    type V = Set<Point>;

    /// The cells of the set.
    closed spec fn view(&self) -> Set<Point> {
        Set::new(|p: Point| self.cells@.contains((p.x, p.y)))
    }
}

/// Whether `cells` goes from left to right, and from top to bottom within a
/// column.
pub open spec fn ascending(cells: Seq<Point>) -> bool {
    forall|i: int, j: int|
        0 <= i < j < cells.len() ==> cells[i].x < cells[j].x || (cells[i].x == cells[j].x
            && cells[i].y < cells[j].y)
}

impl PointSet {
    /// The tree and the set it stands for are finite and of one size.
    pub closed spec fn wf(&self) -> bool {
        &&& self.cells@.finite()
        &&& self@.finite()
        &&& self@.len() == self.cells@.len()
    }

    /// The empty set.
    pub fn new() -> (set: Self)
        ensures
            set.wf(),
            set@ == Set::<Point>::empty(),
    {
        let set = Self { cells: BTreeSet::new() };
        assert(set@ =~= Set::<Point>::empty());
        set
    }

    /// Whether `point` is in the set.
    pub fn contains(&self, point: &Point) -> (found: bool)
        ensures
            found == self@.contains(*point),
    {
        let key = (point.x, point.y);
        self.cells.contains(&key)
    }

    /// Adds `point` to the set and says whether it was new.
    pub fn insert(&mut self, point: Point) -> (added: bool)
        requires
            old(self).wf(),
        ensures
            final(self).wf(),
            final(self)@ == old(self)@.insert(point),
            added == !old(self)@.contains(point),
    {
        let added = self.cells.insert((point.x, point.y));
        assert(self@ =~= old(self)@.insert(point));
        added
    }

    /// Takes `point` out of the set and says whether it was there.
    pub fn remove(&mut self, point: &Point) -> (removed: bool)
        requires
            old(self).wf(),
        ensures
            final(self).wf(),
            final(self)@ == old(self)@.remove(*point),
            removed == old(self)@.contains(*point),
    {
        let key = (point.x, point.y);
        let removed = self.cells.remove(&key);
        assert(self@ =~= old(self)@.remove(*point));
        removed
    }

    /// The cells of the set, each once, from left to right and from top to
    /// bottom within a column.
    pub fn to_vec(&self) -> (cells: Vec<Point>)
        requires
            self.wf(),
        ensures
            cells@.no_duplicates(),
            cells@.to_set() == self@,
            ascending(cells@),
    {
        let mut cells: Vec<Point> = Vec::new();
        let ghost keys = self.cells.iter().remaining().unref();
        proof {
            // The tree hands its keys out in increasing order, and pairs
            // are ordered by their first part, then by their second.
            let refs = self.cells.iter().remaining();
            vstd::std_specs::btree::axiom_increasing_seq_meaning(refs);
            assert forall|i: int, j: int| 0 <= i < j < keys.len() implies keys[i].0 < keys[j].0 || (
            keys[i].0 == keys[j].0 && keys[i].1 < keys[j].1) by {
                assert(OrdSpec::cmp_spec(&refs[i], &refs[j]) is Less);
            }
        }
        for key in iter: self.cells.iter()
            invariant
                cells@.len() == iter.index(),
                iter.seq().unref() == keys,
                keys.no_duplicates(),
                keys.to_set() == self.cells@,
                forall|i: int, j: int|
                    0 <= i < j < keys.len() ==> keys[i].0 < keys[j].0 || (keys[i].0 == keys[j].0
                        && keys[i].1 < keys[j].1),
                forall|i: int|
                    0 <= i < cells@.len() ==> cells@[i] == (Point { x: keys[i].0, y: keys[i].1 }),
        {
            cells.push(Point::new(key.0, key.1));
        }
        proof {
            assert(cells@.len() == keys.len());
            assert forall|p: Point| self@.contains(p) implies cells@.to_set().contains(p) by {
                assert(keys.to_set().contains((p.x, p.y)));
                let i = choose|i: int| 0 <= i < keys.len() && keys[i] == (p.x, p.y);
                assert(cells@[i] == p);
            }
            assert forall|p: Point| cells@.to_set().contains(p) implies self@.contains(p) by {
                let i = choose|i: int| 0 <= i < cells@.len() && cells@[i] == p;
                assert(keys[i] == (p.x, p.y));
                assert(keys.to_set().contains(keys[i]));
            }
            assert(cells@.to_set() =~= self@);
        }
        cells
    }

    /// The number of cells in the set.
    pub fn len(&self) -> (n: usize)
        requires
            self.wf(),
        ensures
            n == self@.len(),
    {
        self.cells.len()
    }
}

} // verus!
