use vstd::prelude::*;

use crate::geography::area::lemma_point_at;
use crate::geography::{Area, Point};
use vstd::arithmetic::div_mod::{
    lemma_fundamental_div_mod_converse_div,
    lemma_fundamental_div_mod_converse_mod,
};

verus! {

/// No two cells hold the same agent.
pub open spec fn is_injective(m: Map<Point, usize>) -> bool {
    forall|p: Point, q: Point|
        #![trigger m[p], m[q]]
        m.dom().contains(p) && m.dom().contains(q) && p != q ==> m[p] != m[q]
}

/// The position of a cell of `area` in its row-major order.
pub open spec fn index_of(area: Area, p: Point) -> int {
    (p.y - area.start_offset.y) * area.width() + (p.x - area.start_offset.x)
}

/// The row-major position of a cell of a well-formed area is in range and
/// leads back to the cell.
pub proof fn lemma_index_of(area: Area, p: Point)
    requires
        area.wf(),
        area.contains_spec(p),
    ensures
        0 <= index_of(area, p) < area.width() * area.height(),
        area.point_at(index_of(area, p)) == p,
{
    let w = area.width();
    let h = area.height();
    let dx = p.x - area.start_offset.x;
    let dy = p.y - area.start_offset.y;
    let i = index_of(area, p);
    assert(0 <= i < w * h) by (nonlinear_arith)
        requires
            0 <= dx < w,
            0 <= dy < h,
            i == dy * w + dx,
    ;
    assert(i == dy * w + dx);
    lemma_fundamental_div_mod_converse_div(i, w, dy, dx);
    lemma_fundamental_div_mod_converse_mod(i, w, dy, dx);
}

/// Which agent stands on each cell of a rectangular grid. Agents are named
/// by their index in the population; a cell holds at most one agent, and an
/// agent stands on at most one cell.
pub struct AgentLocationMap {
    pub grid_area: Area,
    pub cells: Vec<Option<usize>>,
}

impl AgentLocationMap {
    /// The occupied cells and the agent on each.
    pub closed spec fn view(&self) -> Map<Point, usize> {
        Map::new(
            |p: Point|
                self.grid_area.contains_spec(p) && self.cells@[index_of(self.grid_area, p)] is Some,
            |p: Point| self.cells@[index_of(self.grid_area, p)]->Some_0,
        )
    }

    pub closed spec fn wf(&self) -> bool {
        &&& self.grid_area.wf()
        &&& self.grid_area.width() * self.grid_area.height() <= usize::MAX
        &&& self.cells@.len() == self.grid_area.width() * self.grid_area.height()
        &&& forall|i: int, j: int|
            #![trigger self.cells@[i], self.cells@[j]]
            0 <= i < self.cells@.len() && 0 <= j < self.cells@.len() && i != j
                && self.cells@[i] is Some ==> self.cells@[i] != self.cells@[j]
    }

    /// The number of cells of the grid.
    pub open spec fn size(&self) -> int {
        self.grid_area.width() * self.grid_area.height()
    }

    /// Only cells of the grid are occupied, and no agent stands on two
    /// cells.
    pub proof fn lemma_view(&self)
        requires
            self.wf(),
        ensures
            forall|p: Point| #[trigger] self@.dom().contains(p) ==> self.grid_area.contains_spec(p),
            is_injective(self@),
            self.grid_area.wf(),
            self.size() <= usize::MAX,
    {
        assert forall|p: Point, q: Point|
            #![trigger self@[p], self@[q]]
            self@.dom().contains(p) && self@.dom().contains(q) && p != q implies self@[p]
            != self@[q] by {
            lemma_index_of(self.grid_area, p);
            lemma_index_of(self.grid_area, q);
            assert(self.cells@[index_of(self.grid_area, p)] != self.cells@[index_of(
                self.grid_area,
                q,
            )]);
        }
    }

    /// An empty grid over `grid_area`.
    pub fn new(grid_area: Area) -> (r: AgentLocationMap)
        requires
            grid_area.wf(),
            grid_area.width() * grid_area.height() <= usize::MAX,
        ensures
            r.wf(),
            r.grid_area == grid_area,
            r@ == Map::<Point, usize>::empty(),
    {
        assert(grid_area.cell_count() == grid_area.width() * grid_area.height());
        let n = grid_area.get_number_of_cells();
        let mut cells: Vec<Option<usize>> = Vec::new();
        let mut i: usize = 0;
        while i < n
            invariant
                i <= n,
                cells@.len() == i,
                forall|k: int| 0 <= k < i ==> #[trigger] cells@[k] is None,
            decreases n - i,
        {
            cells.push(None);
            i = i + 1;
        }
        let r = AgentLocationMap { grid_area, cells };
        assert(r@ =~= Map::<Point, usize>::empty()) by {
            assert forall|p: Point| !r@.dom().contains(p) by {
                if grid_area.contains_spec(p) {
                    lemma_index_of(grid_area, p);
                }
            }
        }
        r
    }

    /// The slot of a cell of the grid.
    fn index(&self, p: &Point) -> (r: usize)
        requires
            self.wf(),
            self.grid_area.contains_spec(*p),
        ensures
            r == index_of(self.grid_area, *p),
            r < self.cells@.len(),
    {
        proof {
            lemma_index_of(self.grid_area, *p);
        }
        let w = (self.grid_area.end_offset.x as i64 - self.grid_area.start_offset.x as i64
            + 1) as usize;
        let dx = (p.x as i64 - self.grid_area.start_offset.x as i64) as usize;
        let dy = (p.y as i64 - self.grid_area.start_offset.y as i64) as usize;
        assert(dy * w + dx == index_of(self.grid_area, *p));
        dy * w + dx
    }

    pub fn is_point_in_grid(&self, point: &Point) -> (r: bool)
        ensures
            r == self.grid_area.contains_spec(*point),
    {
        self.grid_area.contains(point)
    }

    /// No agent stands on `cell`; a cell outside the grid is vacant.
    pub fn is_cell_vacant(&self, cell: &Point) -> (r: bool)
        requires
            self.wf(),
        ensures
            r == !self@.dom().contains(*cell),
    {
        if !self.grid_area.contains(cell) {
            return true;
        }
        let i = self.index(cell);
        self.cells[i].is_none()
    }

    /// The agent standing on `cell`, if any.
    pub fn get_agent_for(&self, cell: &Point) -> (r: Option<usize>)
        requires
            self.wf(),
        ensures
            r == if self@.dom().contains(*cell) {
                Some(self@[*cell])
            } else {
                None::<usize>
            },
    {
        if !self.grid_area.contains(cell) {
            return None;
        }
        let i = self.index(cell);
        self.cells[i]
    }

    /// Where an agent on `from` that tries to go to `to` ends up, judged on
    /// this grid: `to` when it is a vacant cell of the grid, else `from`.
    pub fn resolve_move(&self, from: Point, to: Point) -> (r: Point)
        requires
            self.wf(),
        ensures
            r == if self.grid_area.contains_spec(to) && !self@.dom().contains(to) {
                to
            } else {
                from
            },
    {
        if self.is_point_in_grid(&to) && self.is_cell_vacant(&to) {
            to
        } else {
            from
        }
    }

    /// Puts `agent` on the vacant cell `cell`.
    pub fn place_agent(&mut self, cell: Point, agent: usize)
        requires
            old(self).wf(),
            old(self).grid_area.contains_spec(cell),
            !old(self)@.dom().contains(cell),
            forall|p: Point| #[trigger] old(self)@.dom().contains(p) ==> old(self)@[p] != agent,
        ensures
            final(self).wf(),
            final(self).grid_area == old(self).grid_area,
            final(self)@ == old(self)@.insert(cell, agent),
    {
        let i = self.index(&cell);
        let ghost old_cells = self.cells@;
        let ghost area = self.grid_area;
        proof {
            assert forall|k: int| 0 <= k < old_cells.len() && k != i implies old_cells[k] != Some(
                agent,
            ) by {
                if old_cells[k] is Some {
                    lemma_point_at(area, k, k);
                    let p = area.point_at(k);
                    lemma_index_of(area, p);
                    assert(index_of(area, p) == k) by {
                        lemma_point_at(area, k, index_of(area, p));
                    }
                    assert(old(self)@.dom().contains(p));
                }
            }
        }
        self.cells.set(i, Some(agent));
        proof {
            assert(self@ =~= old(self)@.insert(cell, agent)) by {
                assert forall|p: Point| area.contains_spec(p) implies #[trigger] self.cells@[index_of(
                    area,
                    p,
                )] == if p == cell {
                    Some(agent)
                } else {
                    old_cells[index_of(area, p)]
                } by {
                    lemma_index_of(area, p);
                    lemma_index_of(area, cell);
                    if p != cell {
                        lemma_point_at(area, index_of(area, p), index_of(area, cell));
                    }
                }
            }
        }
    }

    /// Moves the agent on `from` to `to` when `to` is a vacant cell of the
    /// grid and returns where the agent stands afterwards. When `to` is
    /// occupied or outside the grid, or no agent stands on `from`, nothing
    /// changes and `from` is returned.
    pub fn move_agent(&mut self, from: Point, to: Point) -> (r: Point)
        requires
            old(self).wf(),
        ensures
            final(self).wf(),
            final(self).grid_area == old(self).grid_area,
            ({
                let can_move = old(self)@.dom().contains(from) && old(
                    self,
                ).grid_area.contains_spec(to) && !old(self)@.dom().contains(to);
                &&& can_move ==> r == to && final(self)@ == old(self)@.remove(from).insert(
                    to,
                    old(self)@[from],
                )
                &&& !can_move ==> r == from && final(self)@ == old(self)@
            }),
    {
        if !self.grid_area.contains(&from) || !self.grid_area.contains(&to) {
            return from;
        }
        let i = self.index(&from);
        let j = self.index(&to);
        match self.cells[i] {
            None => from,
            Some(agent) => {
                if self.cells[j].is_some() {
                    return from;
                }
                let ghost area = self.grid_area;
                let ghost old_cells = self.cells@;
                proof {
                    lemma_index_of(area, from);
                    lemma_index_of(area, to);
                }
                self.cells.set(i, None);
                self.cells.set(j, Some(agent));
                proof {
                    assert forall|a: int, b: int|
                        #![trigger self.cells@[a], self.cells@[b]]
                        0 <= a < self.cells@.len() && 0 <= b < self.cells@.len() && a != b
                            && self.cells@[a] is Some implies self.cells@[a] != self.cells@[b] by {
                        if a != j && b != j && a != i && b != i {
                            assert(old_cells[a] != old_cells[b]);
                        } else if a == j {
                            if b != i {
                                assert(old_cells[i as int] != old_cells[b]);
                            }
                        } else if b == j {
                            if a != i {
                                assert(old_cells[a] != old_cells[i as int]);
                            }
                        }
                    }
                    assert(self@ =~= old(self)@.remove(from).insert(to, agent)) by {
                        assert forall|p: Point| area.contains_spec(p) implies #[trigger] self.cells@[index_of(
                            area,
                            p,
                        )] == if p == to {
                            Some(agent)
                        } else if p == from {
                            None::<usize>
                        } else {
                            old_cells[index_of(area, p)]
                        } by {
                            lemma_index_of(area, p);
                            if p != to {
                                lemma_point_at(area, index_of(area, p), index_of(area, to));
                            }
                            if p != from {
                                lemma_point_at(area, index_of(area, p), index_of(area, from));
                            }
                        }
                    }
                }
                to
            },
        }
    }

    /// The first cell of `hospital`, in row-major order, that is a vacant
    /// cell of this grid: `(true, cell)`; or `(false, cell)` when there is
    /// none.
    pub fn goto_hospital(&self, hospital: &Area, cell: Point) -> (r: (bool, Point))
        requires
            self.wf(),
            hospital.wf(),
        ensures
            r.0 ==> hospital.contains_spec(r.1) && self.grid_area.contains_spec(r.1)
                && !self@.dom().contains(r.1),
            !r.0 ==> r.1 == cell && forall|p: Point|
                hospital.contains_spec(p) && self.grid_area.contains_spec(p)
                    ==> #[trigger] self@.dom().contains(p),
    {
        let mut y = hospital.start_offset.y;
        while y <= hospital.end_offset.y
            invariant
                self.wf(),
                hospital.wf(),
                hospital.start_offset.y <= y <= hospital.end_offset.y + 1,
                forall|p: Point|
                    hospital.contains_spec(p) && p.y < y && self.grid_area.contains_spec(p)
                        ==> #[trigger] self@.dom().contains(p),
            decreases hospital.end_offset.y + 1 - y,
        {
            let mut x = hospital.start_offset.x;
            while x <= hospital.end_offset.x
                invariant
                    self.wf(),
                    hospital.wf(),
                    hospital.start_offset.y <= y <= hospital.end_offset.y,
                    hospital.start_offset.x <= x <= hospital.end_offset.x + 1,
                    forall|p: Point|
                        hospital.contains_spec(p) && p.y < y && self.grid_area.contains_spec(p)
                            ==> #[trigger] self@.dom().contains(p),
                    forall|p: Point|
                        hospital.contains_spec(p) && p.y == y && p.x < x
                            && self.grid_area.contains_spec(p) ==> #[trigger] self@.dom().contains(
                            p,
                        ),
                decreases hospital.end_offset.x + 1 - x,
            {
                let p = Point::new(x, y);
                if self.is_point_in_grid(&p) && self.is_cell_vacant(&p) {
                    return (true, p);
                }
                x = x + 1;
            }
            y = y + 1;
        }
        (false, cell)
    }

    /// The cells of `area` that are vacant cells of this grid, in row-major
    /// order.
    pub fn vacant_cells_in(&self, area: &Area) -> (r: Vec<Point>)
        requires
            self.wf(),
            area.wf(),
        ensures
            forall|k: int|
                0 <= k < r@.len() ==> {
                    &&& area.contains_spec(#[trigger] r@[k])
                    &&& self.grid_area.contains_spec(r@[k])
                    &&& !self@.dom().contains(r@[k])
                },
            forall|p: Point|
                area.contains_spec(p) && self.grid_area.contains_spec(p) && !self@.dom().contains(p)
                    ==> #[trigger] r@.contains(p),
    {
        let mut r: Vec<Point> = Vec::new();
        let mut y = area.start_offset.y;
        while y <= area.end_offset.y
            invariant
                self.wf(),
                area.wf(),
                area.start_offset.y <= y <= area.end_offset.y + 1,
                forall|k: int|
                    0 <= k < r@.len() ==> {
                        &&& area.contains_spec(#[trigger] r@[k])
                        &&& self.grid_area.contains_spec(r@[k])
                        &&& !self@.dom().contains(r@[k])
                    },
                forall|p: Point|
                    area.contains_spec(p) && p.y < y && self.grid_area.contains_spec(p)
                        && !self@.dom().contains(p) ==> #[trigger] r@.contains(p),
            decreases area.end_offset.y + 1 - y,
        {
            let mut x = area.start_offset.x;
            while x <= area.end_offset.x
                invariant
                    self.wf(),
                    area.wf(),
                    area.start_offset.y <= y <= area.end_offset.y,
                    area.start_offset.x <= x <= area.end_offset.x + 1,
                    forall|k: int|
                        0 <= k < r@.len() ==> {
                            &&& area.contains_spec(#[trigger] r@[k])
                            &&& self.grid_area.contains_spec(r@[k])
                            &&& !self@.dom().contains(r@[k])
                        },
                    forall|p: Point|
                        area.contains_spec(p) && (p.y < y || (p.y == y && p.x < x))
                            && self.grid_area.contains_spec(p) && !self@.dom().contains(p)
                            ==> #[trigger] r@.contains(p),
                decreases area.end_offset.x + 1 - x,
            {
                let p = Point::new(x, y);
                let ghost before = r@;
                if self.is_point_in_grid(&p) && self.is_cell_vacant(&p) {
                    r.push(p);
                    proof {
                        assert forall|q: Point|
                            area.contains_spec(q) && (q.y < y || (q.y == y && q.x < x + 1))
                                && self.grid_area.contains_spec(q) && !self@.dom().contains(q)
                                implies #[trigger] r@.contains(q) by {
                            if q == p {
                                assert(r@[r@.len() - 1] == q);
                            } else {
                                assert(before.contains(q));
                                let j = choose|j: int| 0 <= j < before.len() && before[j] == q;
                                assert(r@[j] == q);
                            }
                        }
                    }
                }
                x = x + 1;
            }
            y = y + 1;
        }
        r
    }

    /// The number of cells of the grid.
    pub fn number_of_cells(&self) -> (r: usize)
        requires
            self.wf(),
        ensures
            r == self.size(),
    {
        self.cells.len()
    }

    /// The cell at row-major position `i` of the grid.
    pub fn cell_at(&self, i: usize) -> (r: Point)
        requires
            self.wf(),
            i < self.size(),
        ensures
            r == self.grid_area.point_at(i as int),
            self.grid_area.contains_spec(r),
            index_of(self.grid_area, r) == i,
    {
        proof {
            lemma_point_at(self.grid_area, i as int, i as int);
            let p = self.grid_area.point_at(i as int);
            lemma_index_of(self.grid_area, p);
            if index_of(self.grid_area, p) != i {
                lemma_point_at(self.grid_area, i as int, index_of(self.grid_area, p));
            }
        }
        let w = (self.grid_area.end_offset.x as i64 - self.grid_area.start_offset.x as i64
            + 1) as usize;
        let x = self.grid_area.start_offset.x as i64 + (i % w) as i64;
        let y = self.grid_area.start_offset.y as i64 + (i / w) as i64;
        Point::new(x as i32, y as i32)
    }
}

} // verus!
