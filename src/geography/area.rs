use vstd::prelude::*;

use crate::geography::point::Point;
use crate::random::{in_range, sample};
use rand::rngs::StdRng;
use vstd::arithmetic::div_mod::{lemma_fundamental_div_mod, lemma_mod_pos_bound};
use vstd::seq_lib::lemma_seq_contains_after_push;

verus! {

/// An axis-aligned rectangle of cells; both corners are inside it.
#[derive(Copy, Clone, Debug, Hash, PartialEq, Eq, Structural)]
pub struct Area {
    pub start_offset: Point,
    pub end_offset: Point,
}

/// Absolute value of an integer.
pub open spec fn abs(v: int) -> int {
    if v < 0 {
        -v
    } else {
        v
    }
}

/// Every point `q` adjacent to a valid point `p` is one of its eight
/// neighbours, and each of those is adjacent to it.
pub proof fn lemma_adjacent_iff_neighbor(p: Point, q: Point)
    requires
        p.is_valid(),
    ensures
        p.is_adjacent_to(q) <==> exists|i: int| 0 <= i < 8 && #[trigger] p.neighbor_spec(i) == q,
{
    if p.is_adjacent_to(q) {
        let dx = q.x - p.x;
        let dy = q.y - p.y;
        let i: int = if dy == -1 {
            dx + 1
        } else if dy == 0 {
            if dx == -1 {
                3
            } else {
                4
            }
        } else {
            dx + 6
        };
        assert(0 <= i < 8 && p.neighbor_spec(i) == q);
    }
    if exists|i: int| 0 <= i < 8 && #[trigger] p.neighbor_spec(i) == q {
        let i = choose|i: int| 0 <= i < 8 && #[trigger] p.neighbor_spec(i) == q;
        assert(0 <= i < 8);
        assert(p.is_adjacent_to(q)) by {
            assert(i == 0 || i == 1 || i == 2 || i == 3 || i == 4 || i == 5 || i == 6 || i == 7);
        }
    }
}

/// The first `n` neighbours of `p` that lie in `area`, in offset order.
pub open spec fn neighbors_in(area: Area, p: Point, n: int) -> Seq<Point>
    decreases n,
{
    if n <= 0 {
        Seq::empty()
    } else if area.contains_spec(p.neighbor_spec(n - 1)) {
        neighbors_in(area, p, n - 1).push(p.neighbor_spec(n - 1))
    } else {
        neighbors_in(area, p, n - 1)
    }
}

proof fn lemma_neighbors_in(area: Area, p: Point, n: int)
    requires
        p.is_valid(),
        0 <= n <= 8,
    ensures
        neighbors_in(area, p, n).no_duplicates(),
        forall|q: Point| neighbors_in(area, p, n).contains(q) ==> among_first_neighbors(p, q, n),
    decreases n,
{
    if n > 0 {
        lemma_neighbors_in(area, p, n - 1);
        let prev = neighbors_in(area, p, n - 1);
        let q = p.neighbor_spec(n - 1);
        assert forall|k: int| 0 <= k < n - 1 implies p.neighbor_spec(k) != q by {
            assert(k == 0 || k == 1 || k == 2 || k == 3 || k == 4 || k == 5 || k == 6);
            assert(n - 1 == 1 || n - 1 == 2 || n - 1 == 3 || n - 1 == 4 || n - 1 == 5 || n - 1 == 6
                || n - 1 == 7);
        }
        if area.contains_spec(q) {
            if prev.contains(q) {
                assert(among_first_neighbors(p, q, n - 1));
                let k = choose|k: int| 0 <= k < n - 1 && #[trigger] p.neighbor_spec(k) == q;
                assert(p.neighbor_spec(k) != q);
            }
            assert(!prev.contains(q));
            assert forall|x: Point| #[trigger] prev.push(q).contains(x) implies among_first_neighbors(
                p,
                x,
                n,
            ) by {
                lemma_seq_contains_after_push(prev, q, x);
                if x != q {
                    assert(prev.contains(x));
                    assert(among_first_neighbors(p, x, n - 1));
                    let k = choose|k: int| 0 <= k < n - 1 && #[trigger] p.neighbor_spec(k) == x;
                    assert(0 <= k < n);
                } else {
                    assert(p.neighbor_spec(n - 1) == x);
                }
            }
        } else {
            assert forall|x: Point| #[trigger] prev.contains(x) implies among_first_neighbors(p, x, n) by {
                assert(among_first_neighbors(p, x, n - 1));
                let k = choose|k: int| 0 <= k < n - 1 && #[trigger] p.neighbor_spec(k) == x;
                assert(0 <= k < n);
            }
        }
    }
}

/// `q` is one of the first `n` neighbours of `p`.
pub open spec fn among_first_neighbors(p: Point, q: Point, n: int) -> bool {
    exists|k: int| 0 <= k < n && #[trigger] p.neighbor_spec(k) == q
}

/// The `k`-th cell of a well-formed area lies in it, and distinct `k` give
/// distinct cells.
pub proof fn lemma_point_at(area: Area, k: int, j: int)
    requires
        area.wf(),
        0 <= k < area.width() * area.height(),
        0 <= j < area.width() * area.height(),
    ensures
        area.contains_spec(area.point_at(k)),
        k != j ==> area.point_at(k) != area.point_at(j),
        area.point_at(k).x == area.start_offset.x + k % area.width(),
        area.point_at(k).y == area.start_offset.y + k / area.width(),
{
    let w = area.width();
    let h = area.height();
    lemma_mod_pos_bound(k, w);
    lemma_mod_pos_bound(j, w);
    lemma_fundamental_div_mod(k, w);
    lemma_fundamental_div_mod(j, w);
    assert(0 <= k / w < h) by (nonlinear_arith)
        requires
            0 <= k < w * h,
            w > 0,
            k == w * (k / w) + k % w,
            0 <= k % w < w,
    ;
    assert(0 <= j / w < h) by (nonlinear_arith)
        requires
            0 <= j < w * h,
            w > 0,
            j == w * (j / w) + j % w,
            0 <= j % w < w,
    ;
}

impl Area {
    /// Both corners are valid points and `start_offset` is the lower corner.
    pub open spec fn wf(&self) -> bool {
        &&& self.start_offset.is_valid()
        &&& self.end_offset.is_valid()
        &&& self.start_offset.x <= self.end_offset.x
        &&& self.start_offset.y <= self.end_offset.y
    }

    pub open spec fn contains_spec(&self, p: Point) -> bool {
        self.start_offset.x <= p.x <= self.end_offset.x && self.start_offset.y <= p.y
            <= self.end_offset.y
    }

    /// Number of columns of a well-formed area.
    pub open spec fn width(&self) -> int {
        self.end_offset.x - self.start_offset.x + 1
    }

    /// Number of rows of a well-formed area.
    pub open spec fn height(&self) -> int {
        self.end_offset.y - self.start_offset.y + 1
    }

    /// The number of cells, as the spread of the corners gives it.
    pub open spec fn cell_count(&self) -> int {
        (abs(self.end_offset.x - self.start_offset.x) + 1) * (abs(
            self.end_offset.y - self.start_offset.y,
        ) + 1)
    }

    /// The `i`-th cell of the area in row-major order.
    pub open spec fn point_at(&self, i: int) -> Point {
        Point {
            x: (self.start_offset.x + i % self.width()) as i32,
            y: (self.start_offset.y + i / self.width()) as i32,
        }
    }

    pub open spec fn new_spec(start_offset: Point, end_offset: Point) -> Area {
        Area { start_offset, end_offset }
    }

    pub fn new(start_offset: Point, end_offset: Point) -> (r: Area)
        ensures
            r == Area::new_spec(start_offset, end_offset),
    {
        Area { start_offset, end_offset }
    }

    /// Walks through the cells of this area in row-major order.
    pub fn iter(&self) -> (r: AreaIterator)
        requires
            self.wf(),
        ensures
            r.wf(),
            r.area == *self,
            r.iter_index == (Point { x: (self.start_offset.x - 1) as i32, y: self.start_offset.y }),
    {
        AreaIterator::new(*self)
    }

    /// The `k`-th cell of this area in row-major order.
    fn point_at_index(&self, k: usize) -> (r: Point)
        requires
            self.wf(),
            k < self.width() * self.height(),
        ensures
            r == self.point_at(k as int),
            self.contains_spec(r),
    {
        proof {
            lemma_point_at(*self, k as int, k as int);
        }
        let w = (self.end_offset.x as i64 - self.start_offset.x as i64 + 1) as usize;
        let x = self.start_offset.x as i64 + (k % w) as i64;
        let y = self.start_offset.y as i64 + (k / w) as i64;
        Point::new(x as i32, y as i32)
    }

    /// A cell of this area drawn at random.
    pub fn get_random_point(&self, rng: &mut StdRng) -> (r: Point)
        requires
            self.wf(),
        ensures
            self.contains_spec(r),
    {
        let x = in_range(rng, self.start_offset.x, self.end_offset.x);
        let y = in_range(rng, self.start_offset.y, self.end_offset.y);
        Point::new(x, y)
    }

    /// `number_of_points` distinct cells of this area drawn at random, or
    /// `None` when the area has fewer cells than that.
    pub fn random_points(&self, number_of_points: usize, rng: &mut StdRng) -> (r: Option<
        Vec<Point>,
    >)
        requires
            self.wf(),
            self.cell_count() <= usize::MAX,
        ensures
            r.is_none() <==> self.cell_count() < number_of_points,
            r matches Some(v) ==> {
                &&& v@.len() == number_of_points
                &&& v@.no_duplicates()
                &&& forall|i: int| 0 <= i < v@.len() ==> self.contains_spec(#[trigger] v@[i])
            },
    {
        let number_of_cells = self.get_number_of_cells();
        if number_of_cells < number_of_points {
            return None;
        }
        assert(self.cell_count() == self.width() * self.height());
        let indices = sample(rng, number_of_cells, number_of_points);
        let mut points: Vec<Point> = Vec::new();
        let mut i: usize = 0;
        while i < indices.len()
            invariant
                self.wf(),
                i <= indices@.len(),
                indices@.len() == number_of_points,
                indices@.no_duplicates(),
                number_of_cells == self.width() * self.height(),
                forall|j: int| 0 <= j < indices@.len() ==> indices@[j] < number_of_cells,
                points@.len() == i,
                forall|j: int|
                    0 <= j < i ==> #[trigger] points@[j] == self.point_at(indices@[j] as int),
            decreases indices@.len() - i,
        {
            let p = self.point_at_index(indices[i]);
            points.push(p);
            i = i + 1;
        }
        proof {
            assert forall|a: int, b: int|
                0 <= a < points@.len() && 0 <= b < points@.len() && a != b implies points@[a]
                != points@[b] by {
                lemma_point_at(*self, indices@[a] as int, indices@[b] as int);
            }
            assert forall|a: int| 0 <= a < points@.len() implies self.contains_spec(
                #[trigger] points@[a],
            ) by {
                lemma_point_at(*self, indices@[a] as int, indices@[a] as int);
            }
        }
        Some(points)
    }

    pub fn contains(&self, point: &Point) -> (r: bool)
        ensures
            r == self.contains_spec(*point),
    {
        self.start_offset.x <= point.x && self.end_offset.x >= point.x && self.start_offset.y
            <= point.y && self.end_offset.y >= point.y
    }

    pub fn get_number_of_cells(&self) -> (r: usize)
        requires
            self.start_offset.is_valid(),
            self.end_offset.is_valid(),
            self.cell_count() <= usize::MAX,
        ensures
            r == self.cell_count(),
    {
        let dx = self.end_offset.x as i64 - self.start_offset.x as i64;
        let dy = self.end_offset.y as i64 - self.start_offset.y as i64;
        let w: u64 = if dx < 0 {
            (-dx) as u64 + 1
        } else {
            dx as u64 + 1
        };
        let h: u64 = if dy < 0 {
            (-dy) as u64 + 1
        } else {
            dy as u64 + 1
        };
        assert(w * h <= 0xffff_ffff_ffff_ffff) by (nonlinear_arith)
            requires
                w <= 2_000_000_001,
                h <= 2_000_000_001,
        ;
        (w * h) as usize
    }

    /// The points of this area that touch `point`, in row-major order.
    pub fn get_neighbors_of(&self, point: Point) -> (r: Vec<Point>)
        requires
            point.is_valid(),
        ensures
            forall|q: Point| r@.contains(q) <==> (self.contains_spec(q) && point.is_adjacent_to(q)),
            r@.len() <= 8,
            r@ == neighbors_in(*self, point, 8),
            r@.no_duplicates(),
    {
        let all = point.neighbors();
        let mut r: Vec<Point> = Vec::new();
        let mut i: usize = 0;
        while i < 8
            invariant
                i <= 8,
                all@.len() == 8,
                r@.len() <= i,
                r@ == neighbors_in(*self, point, i as int),
                point.is_valid(),
                forall|k: int| 0 <= k < 8 ==> #[trigger] all@[k] == point.neighbor_spec(k),
                forall|q: Point|
                    #[trigger] r@.contains(q) <==> (self.contains_spec(q) && among_first_neighbors(
                        point,
                        q,
                        i as int,
                    )),
            decreases 8 - i,
        {
            let q = all[i];
            let ghost old_r = r@;
            if self.contains(&q) {
                r.push(q);
            }
            proof {
                assert forall|p: Point|
                    #[trigger] r@.contains(p) <==> (self.contains_spec(p) && among_first_neighbors(
                        point,
                        p,
                        i + 1,
                    )) by {
                    if self.contains_spec(q) {
                        lemma_seq_contains_after_push(old_r, q, p);
                    }
                    if among_first_neighbors(point, p, i + 1) {
                        let k = choose|k: int| 0 <= k < i + 1 && #[trigger] point.neighbor_spec(k) == p;
                        if k < i {
                            assert(among_first_neighbors(point, p, i as int));
                        }
                    }
                    if old_r.contains(p) {
                        assert(among_first_neighbors(point, p, i as int));
                        let k = choose|k: int| 0 <= k < i && #[trigger] point.neighbor_spec(k) == p;
                        assert(0 <= k < i + 1 && point.neighbor_spec(k) == p);
                    }
                    if p == q {
                        assert(point.neighbor_spec(i as int) == p);
                    }
                }
            }
            i = i + 1;
        }
        proof {
            lemma_neighbors_in(*self, point, 8);
            assert forall|q: Point|
                r@.contains(q) <==> (self.contains_spec(q) && point.is_adjacent_to(q)) by {
                lemma_adjacent_iff_neighbor(point, q);
            }
        }
        r
    }
}

/// The building at `row`, `col` of a block of square buildings of side
/// `size` whose first building starts at `start`.
pub open spec fn factory_area(start: Point, size: int, row: int, col: int) -> Area {
    Area {
        start_offset: Point { x: (start.x + col * size) as i32, y: (start.y + row * size) as i32 },
        end_offset: Point {
            x: (start.x + col * size + size - 1) as i32,
            y: (start.y + row * size + size - 1) as i32,
        },
    }
}

/// How many buildings of side `size` fit along a span from `lo` to `hi`.
pub open spec fn buildings_along(lo: int, hi: int, size: int) -> int {
    (hi - lo + 1) / size
}

proof fn lemma_row_major_index(r: int, c: int, i: int, n: int)
    requires
        0 <= r < i,
        0 <= c < n,
    ensures
        0 <= r * n + c < i * n,
        r * n + c >= 0,
{
    assert(r * n + c < i * n) by (nonlinear_arith)
        requires
            0 <= r < i,
            0 <= c < n,
    ;
    assert(r * n + c >= 0) by (nonlinear_arith)
        requires
            0 <= r,
            0 <= c,
            0 <= n,
    ;
}

/// Divides the rectangle from `start_point` to `end_point` into square
/// buildings of side `size`, row by row; cells that do not fill a whole
/// building at the right or top edge are left out.
pub fn area_factory(start_point: Point, end_point: Point, size: i32) -> (r: Vec<Area>)
    requires
        start_point.is_valid(),
        end_point.is_valid(),
        start_point.x <= end_point.x,
        start_point.y <= end_point.y,
        size > 0,
    ensures
        r@.len() == buildings_along(start_point.x as int, end_point.x as int, size as int)
            * buildings_along(start_point.y as int, end_point.y as int, size as int),
        forall|row: int, col: int|
            0 <= row < buildings_along(start_point.y as int, end_point.y as int, size as int) && 0
                <= col < buildings_along(start_point.x as int, end_point.x as int, size as int)
                ==> r@[row * buildings_along(start_point.x as int, end_point.x as int, size as int)
                + col] == #[trigger] factory_area(start_point, size as int, row, col),
        forall|k: int| 0 <= k < r@.len() ==> (#[trigger] r@[k]).wf(),
{
    let feasible_x: i32 = (end_point.x - start_point.x + 1) / size;
    let feasible_y: i32 = (end_point.y - start_point.y + 1) / size;
    let ghost nx = feasible_x as int;
    let ghost ny = feasible_y as int;
    let ghost sz = size as int;
    assert(nx * sz <= end_point.x - start_point.x + 1 && ny * sz <= end_point.y - start_point.y
        + 1) by (nonlinear_arith)
        requires
            nx == (end_point.x - start_point.x + 1) / sz,
            ny == (end_point.y - start_point.y + 1) / sz,
            sz > 0,
            end_point.x - start_point.x + 1 > 0,
            end_point.y - start_point.y + 1 > 0,
    ;
    assert(nx >= 0 && ny >= 0);
    let mut areas: Vec<Area> = Vec::new();
    let mut current = start_point;
    let mut i: i32 = 0;
    while i < feasible_y
        invariant
            0 <= i <= ny,
            nx >= 0,
            sz > 0,
            nx * sz <= end_point.x - start_point.x + 1,
            ny * sz <= end_point.y - start_point.y + 1,
            start_point.is_valid(),
            end_point.is_valid(),
            feasible_x == nx,
            feasible_y == ny,
            size == sz,
            nx == buildings_along(start_point.x as int, end_point.x as int, sz),
            ny == buildings_along(start_point.y as int, end_point.y as int, sz),
            areas@.len() == i * nx,
            forall|k: int| 0 <= k < areas@.len() ==> (#[trigger] areas@[k]).wf(),
            current.x == start_point.x,
            current.y == start_point.y + i * sz,
            forall|row: int, col: int|
                0 <= row < i && 0 <= col < nx ==> areas@[row * nx + col]
                    == #[trigger] factory_area(start_point, sz, row, col),
        decreases ny - i,
    {
        let mut j: i32 = 0;
        assert((i + 1) * sz <= ny * sz) by (nonlinear_arith)
            requires
                i + 1 <= ny,
                sz > 0,
        ;
        while j < feasible_x
            invariant
                0 <= i < ny,
                0 <= j <= nx,
                nx >= 0,
                sz > 0,
                nx * sz <= end_point.x - start_point.x + 1,
                (i + 1) * sz <= end_point.y - start_point.y + 1,
                start_point.is_valid(),
                end_point.is_valid(),
                feasible_x == nx,
                size == sz,
                areas@.len() == i * nx + j,
                forall|k: int| 0 <= k < areas@.len() ==> (#[trigger] areas@[k]).wf(),
                current.x == start_point.x + j * sz,
                current.y == start_point.y + i * sz,
                forall|row: int, col: int|
                    0 <= row < i && 0 <= col < nx ==> areas@[row * nx + col]
                        == #[trigger] factory_area(start_point, sz, row, col),
                forall|col: int|
                    0 <= col < j ==> areas@[i * nx + col] == #[trigger] factory_area(
                        start_point,
                        sz,
                        i as int,
                        col,
                    ),
            decreases nx - j,
        {
            assert((j + 1) * sz <= nx * sz) by (nonlinear_arith)
                requires
                    j + 1 <= nx,
                    sz > 0,
            ;
            assert((i + 1) * sz == i * sz + sz && (j + 1) * sz == j * sz + sz) by (nonlinear_arith);
            let current_end = Point::new(current.x + size - 1, current.y + size - 1);
            let ghost before = areas@;
            areas.push(Area::new(current, current_end));
            proof {
                assert forall|row: int, col: int|
                    0 <= row < i && 0 <= col < nx implies areas@[row * nx + col]
                        == #[trigger] factory_area(start_point, sz, row, col) by {
                    lemma_row_major_index(row, col, i as int, nx);
                    assert(areas@[row * nx + col] == before[row * nx + col]);
                }
                assert forall|col: int|
                    0 <= col < j + 1 implies areas@[i * nx + col] == #[trigger] factory_area(
                        start_point,
                        sz,
                        i as int,
                        col,
                    ) by {
                    if col < j {
                        assert(areas@[i * nx + col] == before[i * nx + col]);
                    }
                }
            }
            current.x = current.x + size;
            j = j + 1;
        }
        assert((i + 1) * nx == i * nx + nx && (i + 1) * sz == i * sz + sz) by (nonlinear_arith);
        proof {
            assert forall|row: int, col: int|
                0 <= row < i + 1 && 0 <= col < nx implies areas@[row * nx + col]
                    == #[trigger] factory_area(start_point, sz, row, col) by {
                if row == i {
                    assert(areas@[i * nx + col] == factory_area(start_point, sz, i as int, col));
                }
            }
        }
        current.x = start_point.x;
        current.y = current.y + size;
        i = i + 1;
    }
    assert(ny * nx == nx * ny) by (nonlinear_arith);
    areas
}

/// Walks through the cells of an area in row-major order.
pub struct AreaIterator {
    pub area: Area,
    pub iter_index: Point,
}

/// The cell after `idx` in row-major order over `area`.
pub open spec fn successor(area: Area, idx: Point) -> Point {
    if idx.x + 1 > area.end_offset.x {
        Point { x: area.start_offset.x, y: (idx.y + 1) as i32 }
    } else {
        Point { x: (idx.x + 1) as i32, y: idx.y }
    }
}

impl AreaIterator {
    /// The iterator stays on the cells of its area, or one step before or
    /// after them.
    pub open spec fn wf(&self) -> bool {
        &&& self.area.wf()
        &&& self.area.start_offset.x - 1 <= self.iter_index.x <= self.area.end_offset.x
        &&& self.area.start_offset.y <= self.iter_index.y <= self.area.end_offset.y + 1
    }

    pub fn new(area: Area) -> (r: AreaIterator)
        requires
            area.wf(),
        ensures
            r.wf(),
            r.area == area,
            r.iter_index == (Point { x: (area.start_offset.x - 1) as i32, y: area.start_offset.y }),
    {
        AreaIterator { area, iter_index: Point::new(area.start_offset.x - 1, area.start_offset.y) }
    }

    /// The next cell of the area, or `None` once every cell was given.
    pub fn next(&mut self) -> (r: Option<Point>)
        requires
            old(self).wf(),
        ensures
            final(self).wf(),
            final(self).area == old(self).area,
            old(self).iter_index.y > old(self).area.end_offset.y ==> r.is_none() && *final(self)
                == *old(self),
            old(self).iter_index.y <= old(self).area.end_offset.y ==> ({
                let s = successor(old(self).area, old(self).iter_index);
                &&& final(self).iter_index == s
                &&& r == if s.y > old(self).area.end_offset.y {
                    None::<Point>
                } else {
                    Some(s)
                }
            }),
            r matches Some(p) ==> old(self).area.contains_spec(p),
    {
        if self.iter_index.y > self.area.end_offset.y {
            return None;
        }
        let mut new_x = self.iter_index.x + 1;
        let mut new_y = self.iter_index.y;
        if new_x > self.area.end_offset.x {
            new_x = self.area.start_offset.x;
            new_y = new_y + 1;
        }
        self.iter_index = Point::new(new_x, new_y);
        if new_y > self.area.end_offset.y {
            return None;
        }
        Some(self.iter_index)
    }
}

} // verus!
