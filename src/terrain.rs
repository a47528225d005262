use vstd::prelude::*;

use crate::grid::{GridCoord, GridError, HexGrid, index_of};

verus! {

/// What a cell of the map is made of.
#[derive(Clone, Copy, Debug, PartialEq, Eq, Structural, Hash)]
pub enum TerrainType {
    Land,
    Water,
}

/// The value a cell of terrain `t` has in the map texture.
pub open spec fn spec_terrain_code(t: TerrainType) -> u32 {
    match t {
        TerrainType::Land => 0,
        TerrainType::Water => 1,
    }
}

/// The terrain a new map gives to cell `c`: water along the first three
/// columns and the first three rows, land elsewhere.
pub open spec fn spec_starting_terrain(c: GridCoord) -> TerrainType {
    if c.x < 3 || c.y < 3 {
        TerrainType::Water
    } else {
        TerrainType::Land
    }
}

impl TerrainType {
    /// The value a cell of this terrain has in the map texture.
    pub fn texture_code(&self) -> (r: u32)
        ensures
            r == spec_terrain_code(*self),
    {
        match self {
            TerrainType::Land => 0,
            TerrainType::Water => 1,
        }
    }

    /// Units may be selected on land only.
    pub fn is_selectable(&self) -> (r: bool)
        ensures
            r == (*self == TerrainType::Land),
    {
        match self {
            TerrainType::Land => true,
            TerrainType::Water => false,
        }
    }

    /// The terrain a new map gives to the cell `coord`.
    pub fn starting(coord: GridCoord) -> (r: TerrainType)
        ensures
            r == spec_starting_terrain(coord),
    {
        if coord.x < 3 || coord.y < 3 {
            TerrainType::Water
        } else {
            TerrainType::Land
        }
    }
}

/// `s` after writing the code of each `(cell, terrain)` of `cells`, in
/// order, at the cell's slot of a grid of width `w`.
pub open spec fn paint(s: Seq<u32>, w: int, cells: Seq<(GridCoord, TerrainType)>) -> Seq<u32>
    decreases cells.len(),
{
    if cells.len() == 0 {
        s
    } else {
        let (c, t) = cells.last();
        paint(s, w, cells.drop_last()).update(index_of(c, w), spec_terrain_code(t))
    }
}

/// The map of a `w` by `h` grid: every slot starts at code 0 and then
/// `cells` are painted over it.
pub open spec fn terrain_map(w: int, h: int, cells: Seq<(GridCoord, TerrainType)>) -> Seq<u32> {
    paint(Seq::new((w * h) as nat, |i: int| 0u32), w, cells)
}

/// Word `i` of `b`, read from bytes `4 i .. 4 i + 4` lowest byte first.
pub open spec fn le_word(b: Seq<u8>, i: int) -> int {
    b[4 * i] + 256 * b[4 * i + 1] + 65536 * b[4 * i + 2] + 16777216 * b[4 * i + 3]
}

/// Word `i` of `b`, read from bytes `4 i .. 4 i + 4` highest byte first.
pub open spec fn be_word(b: Seq<u8>, i: int) -> int {
    b[4 * i + 3] + 256 * b[4 * i + 2] + 65536 * b[4 * i + 1] + 16777216 * b[4 * i]
}

/// `b` holds the words of `w`, four bytes each, all in one byte order.
pub open spec fn bytes_of_words(b: Seq<u8>, w: Seq<u32>) -> bool {
    &&& b.len() == 4 * w.len()
    &&& {
        ||| forall|i: int| 0 <= i < w.len() ==> le_word(b, i) == #[trigger] w[i]
        ||| forall|i: int| 0 <= i < w.len() ==> be_word(b, i) == #[trigger] w[i]
    }
}

/// Relies on bytemuck::cast_slice from `u32` to `u8`: it cannot fail, as a
/// byte has alignment 1 and divides every length, and it hands back the
/// words' own bytes in memory order, which is the machine's byte order.
#[verifier::external_body]
fn words_as_bytes(words: &Vec<u32>) -> (r: Vec<u8>)
    ensures
        bytes_of_words(r@, words@),
{
    bytemuck::cast_slice::<u32, u8>(words.as_slice()).to_vec()
}

/// The terrain map of `grid`, one code per slot in row-major order: 0 where
/// `cells` names no terrain, else the code of the last terrain named for
/// the cell. Refused when a cell named lies outside the grid.
pub fn terrain_buffer<T: Copy>(grid: &HexGrid<T>, cells: &Vec<(GridCoord, TerrainType)>) -> (r:
    Result<Vec<u32>, GridError>)
    requires
        grid.wf(),
    ensures
        r is Ok <==> forall|i: int| 0 <= i < cells@.len() ==> grid.contains(#[trigger] cells@[i].0),
        r is Err ==> r == Err::<Vec<u32>, GridError>(GridError::OutOfBounds),
        r matches Ok(b) ==> b@ == terrain_map(grid.spec_width(), grid.spec_height(), cells@),
{
    let mut i: usize = 0;
    while i < cells.len()
        invariant
            grid.wf(),
            i <= cells@.len(),
            forall|j: int| 0 <= j < i ==> grid.contains(#[trigger] cells@[j].0),
        decreases cells@.len() - i,
    {
        if !grid.in_grid(cells[i].0) {
            return Err(GridError::OutOfBounds);
        }
        i = i + 1;
    }
    let n: usize = grid.slot_count();
    let mut map: Vec<u32> = Vec::new();
    let mut k: usize = 0;
    while k < n
        invariant
            k <= n,
            map@ == Seq::new(k as nat, |i: int| 0u32),
        decreases n - k,
    {
        map.push(0);
        k = k + 1;
        assert(map@ =~= Seq::new(k as nat, |i: int| 0u32));
    }
    let ghost w = grid.spec_width();
    let ghost blank = map@;
    let mut j: usize = 0;
    while j < cells.len()
        invariant
            grid.wf(),
            w == grid.spec_width(),
            n == grid.spec_width() * grid.spec_height(),
            n == grid.slots().len(),
            forall|i: int| 0 <= i < cells@.len() ==> grid.contains(#[trigger] cells@[i].0),
            j <= cells@.len(),
            map@.len() == n,
            map@ == paint(blank, w, cells@.take(j as int)),
        decreases cells@.len() - j,
    {
        let (c, t) = cells[j];
        let at = grid.coord_to_index(c);
        map.set(at, t.texture_code());
        proof {
            assert(cells@.take(j + 1).drop_last() =~= cells@.take(j as int));
        }
        j = j + 1;
    }
    assert(cells@.take(cells@.len() as int) =~= cells@);
    Ok(map)
}

/// The bytes of the terrain map texture of `grid`: the words of
/// `terrain_buffer`, four bytes each in the machine's byte order.
pub fn terrain_texture<T: Copy>(grid: &HexGrid<T>, cells: &Vec<(GridCoord, TerrainType)>) -> (r:
    Result<Vec<u8>, GridError>)
    requires
        grid.wf(),
    ensures
        r is Ok <==> forall|i: int| 0 <= i < cells@.len() ==> grid.contains(#[trigger] cells@[i].0),
        r is Err ==> r == Err::<Vec<u8>, GridError>(GridError::OutOfBounds),
        r matches Ok(b) ==> bytes_of_words(
            b@,
            terrain_map(grid.spec_width(), grid.spec_height(), cells@),
        ),
{
    match terrain_buffer(grid, cells) {
        Ok(words) => Ok(words_as_bytes(&words)),
        Err(e) => Err(e),
    }
}

} // verus!
