use vstd::prelude::*;

verus! {

/// An integer cell coordinate `(x, y)`.
#[derive(Clone, Copy, Debug, PartialEq, Eq, Structural, Hash, Default)]
pub struct GridCoord {
    pub x: i32,
    pub y: i32,
}

impl GridCoord {
    pub fn new(x: i32, y: i32) -> (r: GridCoord)
        ensures
            r.x == x,
            r.y == y,
    {
        GridCoord { x, y }
    }
}

/// Why a grid operation was refused.
#[derive(Clone, Copy, Debug, PartialEq, Eq, Structural)]
pub enum GridError {
    /// A grid was asked for with a width or a height that is not positive.
    InvalidDimensions,
    /// A coordinate lies outside `[0, width) x [0, height)`.
    OutOfBounds,
}

/// `c` names a cell of a `w` by `h` grid.
pub open spec fn in_bounds(c: GridCoord, w: int, h: int) -> bool {
    0 <= c.x < w && 0 <= c.y < h
}

/// Row-major slot index of `c` in a grid of width `w`.
pub open spec fn index_of(c: GridCoord, w: int) -> int {
    c.y * w + c.x
}

/// Row-major indexing maps the cells of a `w` by `h` grid into `[0, w * h)`.
proof fn lemma_index_in_range(c: GridCoord, w: int, h: int)
    requires
        in_bounds(c, w, h),
    ensures
        0 <= index_of(c, w) < w * h,
{
    assert(c.y * w + c.x < w * h) by (nonlinear_arith)
        requires
            0 <= c.x < w,
            0 <= c.y < h,
    ;
    assert(0 <= c.y * w) by (nonlinear_arith)
        requires
            0 <= c.y,
            0 < w,
    ;
}

/// Every cell `c` of a `w` by `h` grid comes back from its slot index: the
/// index `c.y * w + c.x` has remainder `c.x` and quotient `c.y` by `w`, which
/// is what `index_to_coord` returns for it.
pub proof fn lemma_index_round_trip(c: GridCoord, w: int, h: int)
    requires
        in_bounds(c, w, h),
    ensures
        index_of(c, w) % w == c.x,
        index_of(c, w) / w == c.y,
{
    vstd::arithmetic::div_mod::lemma_fundamental_div_mod_converse(
        index_of(c, w),
        w,
        c.y as int,
        c.x as int,
    );
}

/// Every slot index `i` of a `w` by `h` grid comes back from its cell: the
/// cell `(i % w, i / w)` lies inside the grid and has index `i`.
pub proof fn lemma_coord_round_trip(i: int, w: int, h: int)
    requires
        w > 0,
        h > 0,
        0 <= i < w * h,
    ensures
        0 <= i % w < w,
        0 <= i / w < h,
        (i / w) * w + i % w == i,
{
    vstd::arithmetic::div_mod::lemma_fundamental_div_mod(i, w);
    vstd::arithmetic::div_mod::lemma_mod_pos_bound(i, w);
    vstd::arithmetic::div_mod::lemma_div_pos_is_pos(i, w);
    let q = i / w;
    let m = i % w;
    assert(q < h) by (nonlinear_arith)
        requires
            i == w * q + m,
            0 <= m < w,
            i < w * h,
            w > 0,
    ;
    assert(q * w == w * q) by (nonlinear_arith);
}

/// Two cells of a grid share a slot only when they are the same cell.
pub proof fn lemma_index_injective(a: GridCoord, b: GridCoord, w: int, h: int)
    requires
        in_bounds(a, w, h),
        in_bounds(b, w, h),
        index_of(a, w) == index_of(b, w),
    ensures
        a == b,
{
    lemma_index_round_trip(a, w, h);
    lemma_index_round_trip(b, w, h);
}

/// `s` with the slot of `c`, in a grid of width `w`, replaced by `v`.
pub open spec fn with_slot<T>(s: Seq<Option<T>>, w: int, c: GridCoord, v: Option<T>) -> Seq<
    Option<T>,
> {
    s.update(index_of(c, w), v)
}

/// `s` after placing each `(cell, occupant)` of `added`, in order.
pub open spec fn place_all<T>(s: Seq<Option<T>>, w: int, added: Seq<(GridCoord, T)>) -> Seq<
    Option<T>,
>
    decreases added.len(),
{
    if added.len() == 0 {
        s
    } else {
        let (c, o) = added.last();
        with_slot(place_all(s, w, added.drop_last()), w, c, Some(o))
    }
}

/// `s` after each `(from, to, occupant)` of `moved`, in order: the slot of
/// `from` is emptied, then `occupant` is put in the slot of `to`.
pub open spec fn move_all<T>(s: Seq<Option<T>>, w: int, moved: Seq<(GridCoord, GridCoord, T)>) -> Seq<
    Option<T>,
>
    decreases moved.len(),
{
    if moved.len() == 0 {
        s
    } else {
        let (from, to, o) = moved.last();
        with_slot(with_slot(move_all(s, w, moved.drop_last()), w, from, None), w, to, Some(o))
    }
}

/// `s` with the slot of each cell of `removed` emptied.
pub open spec fn clear_all<T>(s: Seq<Option<T>>, w: int, removed: Seq<GridCoord>) -> Seq<
    Option<T>,
>
    decreases removed.len(),
{
    if removed.len() == 0 {
        s
    } else {
        with_slot(clear_all(s, w, removed.drop_last()), w, removed.last(), None)
    }
}

/// A dense `width` by `height` store holding one optional occupant per cell.
pub struct HexGrid<T> {
    width: i32,
    height: i32,
    cells: Vec<Option<T>>,
}

impl<T: Copy> HexGrid<T> {
    pub closed spec fn spec_width(&self) -> int {
        self.width as int
    }

    pub closed spec fn spec_height(&self) -> int {
        self.height as int
    }

    /// The slots in row-major order.
    pub closed spec fn slots(&self) -> Seq<Option<T>> {
        self.cells@
    }

    /// Both sides are positive and there is one slot per cell.
    pub open spec fn wf(&self) -> bool {
        &&& self.spec_width() > 0
        &&& self.spec_height() > 0
        &&& self.spec_width() * self.spec_height() <= usize::MAX
        &&& self.slots().len() == self.spec_width() * self.spec_height()
    }

    pub open spec fn contains(&self, c: GridCoord) -> bool {
        in_bounds(c, self.spec_width(), self.spec_height())
    }

    /// Every cell that a batch of changes names lies inside the grid.
    pub open spec fn accepts_batch(
        &self,
        added: Seq<(GridCoord, T)>,
        moved: Seq<(GridCoord, GridCoord, T)>,
        removed: Seq<GridCoord>,
    ) -> bool {
        &&& forall|i: int| 0 <= i < added.len() ==> self.contains(#[trigger] added[i].0)
        &&& forall|i: int|
            0 <= i < moved.len() ==> self.contains(#[trigger] moved[i].0) && self.contains(
                moved[i].1,
            )
        &&& forall|i: int| 0 <= i < removed.len() ==> self.contains(#[trigger] removed[i])
    }

    /// What the slot of `c` holds.
    pub open spec fn slot(&self, c: GridCoord) -> Option<T> {
        self.slots()[index_of(c, self.spec_width())]
    }

    /// A grid of `width` by `height` empty cells; refused unless both are
    /// positive.
    pub fn new(width: i32, height: i32) -> (r: Result<HexGrid<T>, GridError>)
        requires
            width > 0 && height > 0 ==> width * height <= usize::MAX,
        ensures
            r is Ok <==> (width > 0 && height > 0),
            r is Err ==> r == Err::<HexGrid<T>, GridError>(GridError::InvalidDimensions),
            r matches Ok(g) ==> {
                &&& g.wf()
                &&& g.spec_width() == width
                &&& g.spec_height() == height
                &&& forall|i: int| 0 <= i < g.slots().len() ==> g.slots()[i] is None
            },
    {
        if width <= 0 || height <= 0 {
            return Err(GridError::InvalidDimensions);
        }
        let n: usize = (width as usize) * (height as usize);
        let mut cells: Vec<Option<T>> = Vec::new();
        let mut i: usize = 0;
        while i < n
            invariant
                i <= n,
                cells@.len() == i,
                forall|j: int| 0 <= j < i ==> cells@[j] is None,
            decreases n - i,
        {
            cells.push(None);
            i = i + 1;
        }
        Ok(HexGrid { width, height, cells })
    }

    /// Setting the same occupant at the same cell a second time changes
    /// nothing: after two such writes the slots are those after one. (Outside
    /// the grid both writes are refused and leave the grid as it was.)
    pub proof fn lemma_set_occupant_idempotent(&self, c: GridCoord, o: T)
        requires
            self.wf(),
        ensures
            self.contains(c) ==> with_slot(
                with_slot(self.slots(), self.spec_width(), c, Some(o)),
                self.spec_width(),
                c,
                Some(o),
            ) == with_slot(self.slots(), self.spec_width(), c, Some(o)),
    {
        if self.contains(c) {
            lemma_index_in_range(c, self.width as int, self.height as int);
            let once = with_slot(self.slots(), self.spec_width(), c, Some(o));
            assert(with_slot(once, self.spec_width(), c, Some(o)) =~= once);
        }
    }

    /// Row-major slot index of a cell of the grid.
    pub fn coord_to_index(&self, coord: GridCoord) -> (r: usize)
        requires
            self.wf(),
            self.contains(coord),
        ensures
            r == index_of(coord, self.spec_width()),
            r < self.slots().len(),
    {
        proof {
            lemma_index_in_range(coord, self.width as int, self.height as int);
            assert(coord.y * self.width <= index_of(coord, self.width as int));
        }
        (coord.y as usize) * (self.width as usize) + (coord.x as usize)
    }

    /// The cell whose slot index is `index`.
    pub fn index_to_coord(&self, index: usize) -> (r: GridCoord)
        requires
            self.wf(),
            index < self.slots().len(),
        ensures
            r.x == index as int % self.spec_width(),
            r.y == index as int / self.spec_width(),
            self.contains(r),
            index_of(r, self.spec_width()) == index,
    {
        proof {
            lemma_coord_round_trip(index as int, self.width as int, self.height as int);
        }
        let w = self.width as usize;
        GridCoord { x: (index % w) as i32, y: (index / w) as i32 }
    }

    /// Puts `occupant` in the slot of `coord`, replacing what was there.
    /// Refused, with the grid unchanged, when `coord` lies outside the grid.
    pub fn set_occupant(&mut self, coord: GridCoord, occupant: T) -> (r: Result<(), GridError>)
        requires
            old(self).wf(),
        ensures
            final(self).wf(),
            final(self).spec_width() == old(self).spec_width(),
            final(self).spec_height() == old(self).spec_height(),
            r is Ok <==> old(self).contains(coord),
            r is Ok ==> final(self).slots() == with_slot(
                old(self).slots(),
                old(self).spec_width(),
                coord,
                Some(occupant),
            ),
            r is Err ==> r == Err::<(), GridError>(GridError::OutOfBounds) && *final(self)
                == *old(self),
    {
        if !self.in_grid(coord) {
            return Err(GridError::OutOfBounds);
        }
        let i = self.coord_to_index(coord);
        self.cells.set(i, Some(occupant));
        Ok(())
    }

    /// Empties the slot of `coord`. Refused, with the grid unchanged, when
    /// `coord` lies outside the grid.
    pub fn clear_occupant(&mut self, coord: GridCoord) -> (r: Result<(), GridError>)
        requires
            old(self).wf(),
        ensures
            final(self).wf(),
            final(self).spec_width() == old(self).spec_width(),
            final(self).spec_height() == old(self).spec_height(),
            r is Ok <==> old(self).contains(coord),
            r is Ok ==> final(self).slots() == with_slot(
                old(self).slots(),
                old(self).spec_width(),
                coord,
                None,
            ),
            r is Err ==> r == Err::<(), GridError>(GridError::OutOfBounds) && *final(self)
                == *old(self),
    {
        if !self.in_grid(coord) {
            return Err(GridError::OutOfBounds);
        }
        let i = self.coord_to_index(coord);
        self.cells.set(i, None);
        Ok(())
    }

    /// The occupant of `coord`; `None` for an empty cell and for a
    /// coordinate outside the grid.
    pub fn occupant_at(&self, coord: GridCoord) -> (r: Option<T>)
        requires
            self.wf(),
        ensures
            r == (if self.contains(coord) {
                self.slot(coord)
            } else {
                None
            }),
    {
        if !self.in_grid(coord) {
            return None;
        }
        let i = self.coord_to_index(coord);
        self.cells[i]
    }

    /// Whether `coord` names a cell of the grid.
    pub fn in_grid(&self, coord: GridCoord) -> (r: bool)
        requires
            self.wf(),
        ensures
            r == self.contains(coord),
    {
        0 <= coord.x && coord.x < self.width && 0 <= coord.y && coord.y < self.height
    }

    /// Whether `a` and `b` are one and the same cell of the grid; false when
    /// either lies outside it.
    pub fn same_cell(&self, a: GridCoord, b: GridCoord) -> (r: bool)
        requires
            self.wf(),
        ensures
            r == (self.contains(a) && self.contains(b) && a == b),
    {
        if !self.in_grid(a) || !self.in_grid(b) {
            return false;
        }
        let ia = self.coord_to_index(a);
        let ib = self.coord_to_index(b);
        proof {
            if ia == ib {
                lemma_index_injective(a, b, self.width as int, self.height as int);
            }
        }
        ia == ib
    }

    /// The number of slots, `width * height`.
    pub fn slot_count(&self) -> (r: usize)
        requires
            self.wf(),
        ensures
            r == self.spec_width() * self.spec_height(),
            r == self.slots().len(),
    {
        self.cells.len()
    }

    pub fn width(&self) -> (r: i32)
        requires
            self.wf(),
        ensures
            r == self.spec_width(),
            r > 0,
    {
        self.width
    }

    pub fn height(&self) -> (r: i32)
        requires
            self.wf(),
        ensures
            r == self.spec_height(),
            r > 0,
    {
        self.height
    }

    /// Brings the grid up to date with one tick's changes: each added
    /// occupant is placed at its cell, each moved occupant leaves its old
    /// cell empty and takes its new one, and each removed occupant's last
    /// cell is emptied, in that order. Refused, with the grid unchanged,
    /// when any cell named lies outside the grid.
    pub fn reconcile(
        &mut self,
        added: &Vec<(GridCoord, T)>,
        moved: &Vec<(GridCoord, GridCoord, T)>,
        removed: &Vec<GridCoord>,
    ) -> (r: Result<(), GridError>)
        requires
            old(self).wf(),
        ensures
            final(self).wf(),
            final(self).spec_width() == old(self).spec_width(),
            final(self).spec_height() == old(self).spec_height(),
            r is Ok <==> old(self).accepts_batch(added@, moved@, removed@),
            r is Ok ==> final(self).slots() == clear_all(
                move_all(
                    place_all(old(self).slots(), old(self).spec_width(), added@),
                    old(self).spec_width(),
                    moved@,
                ),
                old(self).spec_width(),
                removed@,
            ),
            r is Err ==> r == Err::<(), GridError>(GridError::OutOfBounds) && *final(self)
                == *old(self),
    {
        if !self.batch_in_grid(added, moved, removed) {
            return Err(GridError::OutOfBounds);
        }
        let ghost w = self.spec_width();
        let ghost start = self.slots();
        let mut i: usize = 0;
        while i < added.len()
            invariant
                self.wf(),
                self.spec_width() == w,
                self.spec_height() == old(self).spec_height(),
                self.accepts_batch(added@, moved@, removed@),
                i <= added@.len(),
                self.slots() == place_all(start, w, added@.take(i as int)),
            decreases added@.len() - i,
        {
            let (c, o) = added[i];
            let _ = self.set_occupant(c, o);
            proof {
                assert(added@.take(i + 1).drop_last() =~= added@.take(i as int));
            }
            i = i + 1;
        }
        assert(added@.take(added@.len() as int) =~= added@);
        let ghost placed = self.slots();
        let mut j: usize = 0;
        while j < moved.len()
            invariant
                self.wf(),
                self.spec_width() == w,
                self.spec_height() == old(self).spec_height(),
                self.accepts_batch(added@, moved@, removed@),
                j <= moved@.len(),
                self.slots() == move_all(placed, w, moved@.take(j as int)),
            decreases moved@.len() - j,
        {
            let (from, to, o) = moved[j];
            let _ = self.clear_occupant(from);
            let _ = self.set_occupant(to, o);
            proof {
                assert(moved@.take(j + 1).drop_last() =~= moved@.take(j as int));
            }
            j = j + 1;
        }
        assert(moved@.take(moved@.len() as int) =~= moved@);
        let ghost shifted = self.slots();
        let mut k: usize = 0;
        while k < removed.len()
            invariant
                self.wf(),
                self.spec_width() == w,
                self.spec_height() == old(self).spec_height(),
                self.accepts_batch(added@, moved@, removed@),
                k <= removed@.len(),
                self.slots() == clear_all(shifted, w, removed@.take(k as int)),
            decreases removed@.len() - k,
        {
            let c = removed[k];
            let _ = self.clear_occupant(c);
            proof {
                assert(removed@.take(k + 1).drop_last() =~= removed@.take(k as int));
            }
            k = k + 1;
        }
        assert(removed@.take(removed@.len() as int) =~= removed@);
        Ok(())
    }

    /// Whether every cell that a batch of changes names lies inside the grid.
    pub fn batch_in_grid(
        &self,
        added: &Vec<(GridCoord, T)>,
        moved: &Vec<(GridCoord, GridCoord, T)>,
        removed: &Vec<GridCoord>,
    ) -> (r: bool)
        requires
            self.wf(),
        ensures
            r == self.accepts_batch(added@, moved@, removed@),
    {
        let mut i: usize = 0;
        while i < added.len()
            invariant
                self.wf(),
                i <= added@.len(),
                forall|j: int| 0 <= j < i ==> self.contains(#[trigger] added@[j].0),
            decreases added@.len() - i,
        {
            if !self.in_grid(added[i].0) {
                return false;
            }
            i = i + 1;
        }
        let mut m: usize = 0;
        while m < moved.len()
            invariant
                self.wf(),
                m <= moved@.len(),
                forall|j: int| 0 <= j < added@.len() ==> self.contains(#[trigger] added@[j].0),
                forall|j: int|
                    #![trigger moved@[j]]
                    0 <= j < m ==> self.contains(moved@[j].0) && self.contains(moved@[j].1),
            decreases moved@.len() - m,
        {
            let step = moved[m];
            if !self.in_grid(step.0) || !self.in_grid(step.1) {
                return false;
            }
            m = m + 1;
        }
        let mut k: usize = 0;
        while k < removed.len()
            invariant
                self.wf(),
                k <= removed@.len(),
                forall|j: int| 0 <= j < added@.len() ==> self.contains(#[trigger] added@[j].0),
                forall|j: int|
                    0 <= j < moved@.len() ==> self.contains(#[trigger] moved@[j].0)
                        && self.contains(moved@[j].1),
                forall|j: int| 0 <= j < k ==> self.contains(#[trigger] removed@[j]),
            decreases removed@.len() - k,
        {
            if !self.in_grid(removed[k]) {
                return false;
            }
            k = k + 1;
        }
        true
    }
}

} // verus!
