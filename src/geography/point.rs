use vstd::prelude::*;

verus! {

/// Largest absolute value a coordinate of the simulated world may take.
///
/// Keeping coordinates well inside `i32` lets neighbours, offsets and cell
/// counts be computed without overflow.
pub const COORDINATE_LIMIT: i32 = 1_000_000_000;

/// A cell of the simulation grid.
#[derive(Copy, Clone, Debug, Hash, PartialEq, Eq, Structural)]
pub struct Point {
    pub x: i32,
    pub y: i32,
}

/// The eight offsets of the cells around a cell, in row-major order.
pub open spec fn neighbor_offset(i: int) -> (int, int) {
    if i == 0 {
        (-1, -1)
    } else if i == 1 {
        (0, -1)
    } else if i == 2 {
        (1, -1)
    } else if i == 3 {
        (-1, 0)
    } else if i == 4 {
        (1, 0)
    } else if i == 5 {
        (-1, 1)
    } else if i == 6 {
        (0, 1)
    } else {
        (1, 1)
    }
}

impl Point {
    /// Both coordinates lie within `COORDINATE_LIMIT`.
    pub open spec fn is_valid(&self) -> bool {
        -COORDINATE_LIMIT <= self.x <= COORDINATE_LIMIT && -COORDINATE_LIMIT <= self.y
            <= COORDINATE_LIMIT
    }

    /// The cells that touch this one, by side or by corner.
    pub open spec fn is_adjacent_to(&self, other: Point) -> bool {
        let dx = other.x - self.x;
        let dy = other.y - self.y;
        -1 <= dx <= 1 && -1 <= dy <= 1 && !(dx == 0 && dy == 0)
    }

    /// The `i`-th neighbour of this point in row-major order.
    pub open spec fn neighbor_spec(&self, i: int) -> Point {
        Point {
            x: (self.x + neighbor_offset(i).0) as i32,
            y: (self.y + neighbor_offset(i).1) as i32,
        }
    }

    pub fn new(x: i32, y: i32) -> (r: Point)
        ensures
            r.x == x,
            r.y == y,
    {
        Point { x, y }
    }

    /// Component-wise sum of two points.
    pub fn add(self, other: Point) -> (r: Point)
        requires
            i32::MIN <= self.x + other.x <= i32::MAX,
            i32::MIN <= self.y + other.y <= i32::MAX,
        ensures
            r.x == self.x + other.x,
            r.y == self.y + other.y,
    {
        Point { x: self.x + other.x, y: self.y + other.y }
    }

    /// Component-wise difference of two points.
    pub fn sub(self, other: Point) -> (r: Point)
        requires
            i32::MIN <= self.x - other.x <= i32::MAX,
            i32::MIN <= self.y - other.y <= i32::MAX,
        ensures
            r.x == self.x - other.x,
            r.y == self.y - other.y,
    {
        Point { x: self.x - other.x, y: self.y - other.y }
    }

    /// Walks through the eight points around this one. The points need not
    /// lie in any grid or area: the caller filters out those that do not.
    pub fn neighbor_iterator(&self) -> (r: NeighborIterator)
        requires
            self.is_valid(),
        ensures
            r.point == *self,
            r.index == 0,
    {
        NeighborIterator::new(*self)
    }

    /// The eight points around this one, in row-major order.
    pub fn neighbors(&self) -> (r: Vec<Point>)
        requires
            self.is_valid(),
        ensures
            r@.len() == 8,
            forall|i: int| 0 <= i < 8 ==> #[trigger] r@[i] == self.neighbor_spec(i),
            forall|i: int| 0 <= i < 8 ==> self.is_adjacent_to(#[trigger] r@[i]),
    {
        let mut it = self.neighbor_iterator();
        let mut r: Vec<Point> = Vec::new();
        while it.index < 8
            invariant
                it.point == *self,
                it.index <= 8,
                self.is_valid(),
                r@.len() == it.index,
                forall|i: int| 0 <= i < r@.len() ==> #[trigger] r@[i] == self.neighbor_spec(i),
            decreases 8 - it.index,
        {
            let p = it.next();
            match p {
                Some(q) => r.push(q),
                None => {},
            }
        }
        r
    }
}

/// Yields the neighbours of a point one at a time.
pub struct NeighborIterator {
    pub point: Point,
    pub index: usize,
}

impl NeighborIterator {
    pub fn new(point: Point) -> (r: NeighborIterator)
        ensures
            r.point == point,
            r.index == 0,
    {
        NeighborIterator { point, index: 0 }
    }

    /// The next neighbour, or `None` once all eight were given.
    pub fn next(&mut self) -> (r: Option<Point>)
        requires
            old(self).point.is_valid(),
        ensures
            final(self).point == old(self).point,
            old(self).index < 8 ==> r == Some(old(self).point.neighbor_spec(old(self).index as int))
                && final(self).index == old(self).index + 1,
            old(self).index >= 8 ==> r.is_none() && final(self).index == old(self).index,
    {
        if self.index >= 8 {
            return None;
        }
        let (dx, dy): (i32, i32) = match self.index {
            0 => (-1, -1),
            1 => (0, -1),
            2 => (1, -1),
            3 => (-1, 0),
            4 => (1, 0),
            5 => (-1, 1),
            6 => (0, 1),
            _ => (1, 1),
        };
        self.index = self.index + 1;
        Some(Point::new(self.point.x + dx, self.point.y + dy))
    }
}

} // verus!
