//! The heightfield: per-vertex elevation over a fixed rectangular board.

use vstd::prelude::*;
use crate::structure::{Direction, Structure, StructurePlacement};

verus! {

/// Number of blocks along the x axis.
pub const BOARD_WIDTH: u32 = 100;

/// Number of blocks along the y axis.
pub const BOARD_HEIGHT: u32 = 100;

/// Number of vertices: `(BOARD_WIDTH + 1) * (BOARD_HEIGHT + 1)`.
pub const VERTEX_COUNT: usize = 10201;

/// Number of blocks: `BOARD_WIDTH * BOARD_HEIGHT`.
pub const BLOCK_COUNT: usize = 10000;

/// Height of the water surface; a block whose four corners all sit here is water.
pub const WATER_LEVEL: u8 = 0;

/// Lowest height a vertex may have.
pub const MIN_HEIGHT: u8 = 0;

/// Highest height a vertex may have.
pub const MAX_HEIGHT: u8 = 6;

pub type VertexHeight = u8;

pub type VertexPosition = u32;

pub type BlockPosition = u32;

/// A grid intersection; on the board when `x <= BOARD_WIDTH` and `y <= BOARD_HEIGHT`.
#[derive(PartialEq, Eq, Structural, Clone, Copy, Debug)]
pub struct Vertex {
    pub x: VertexPosition,
    pub y: VertexPosition,
}

/// A unit cell whose corners are the vertices `(x, y)` to `(x + 1, y + 1)`;
/// on the board when `x < BOARD_WIDTH` and `y < BOARD_HEIGHT`.
#[derive(PartialEq, Eq, Structural, Clone, Copy, Debug)]
pub struct Block {
    pub x: BlockPosition,
    pub y: BlockPosition,
}

pub open spec fn vertex_in_bounds(x: int, y: int) -> bool {
    0 <= x <= BOARD_WIDTH && 0 <= y <= BOARD_HEIGHT
}

/// The perimeter rule, used for both sculpting and seeding: a vertex is an
/// edge vertex unless it lies strictly inside the board.
pub open spec fn vertex_is_edge(x: int, y: int) -> bool {
    x <= 0 || y <= 0 || x >= BOARD_WIDTH || y >= BOARD_HEIGHT
}

pub open spec fn block_in_bounds(x: int, y: int) -> bool {
    0 <= x < BOARD_WIDTH && 0 <= y < BOARD_HEIGHT
}

/// Position of vertex `(x, y)` in the row-major height array, whose rows
/// hold `BOARD_WIDTH + 1` vertices.
pub open spec fn vertex_index(x: int, y: int) -> int {
    y * 101 + x
}

/// Position of block `(x, y)` in the row-major occupancy array, whose rows
/// hold `BOARD_WIDTH` blocks.
pub open spec fn block_index(x: int, y: int) -> int {
    y * 100 + x
}

impl Vertex {
    pub open spec fn on_board(self) -> bool {
        vertex_in_bounds(self.x as int, self.y as int)
    }

    pub open spec fn is_edge(self) -> bool {
        vertex_is_edge(self.x as int, self.y as int)
    }

    /// Whether sculpting must leave this vertex alone.
    pub fn is_edge_vertex(&self) -> (r: bool)
        ensures
            r == self.is_edge(),
    {
        self.x == 0 || self.y == 0 || self.x >= BOARD_WIDTH || self.y >= BOARD_HEIGHT
    }
}

impl Block {
    pub open spec fn on_board(self) -> bool {
        block_in_bounds(self.x as int, self.y as int)
    }
}

impl From<Vertex> for Block {
    fn from(v: Vertex) -> (r: Block)
        ensures
            r.x == v.x && r.y == v.y,
    {
        Block { x: v.x, y: v.y }
    }
}

impl vstd::std_specs::convert::FromSpecImpl<Vertex> for Block {
    open spec fn obeys_from_spec() -> bool {
        true
    }

    open spec fn from_spec(v: Vertex) -> Block {
        Block { x: v.x, y: v.y }
    }
}

impl From<Block> for Vertex {
    fn from(b: Block) -> (r: Vertex)
        ensures
            r.x == b.x && r.y == b.y,
    {
        Vertex { x: b.x, y: b.y }
    }
}

impl vstd::std_specs::convert::FromSpecImpl<Block> for Vertex {
    open spec fn obeys_from_spec() -> bool {
        true
    }

    open spec fn from_spec(b: Block) -> Vertex {
        Vertex { x: b.x, y: b.y }
    }
}


/// Height of vertex `(x, y)` in a row-major height array.
pub open spec fn height_at(heights: Seq<u8>, x: int, y: int) -> int {
    heights[vertex_index(x, y)] as int
}

/// Chebyshev adjacency (or equality) of two grid points.
pub open spec fn adjacent(x1: int, y1: int, x2: int, y2: int) -> bool {
    -1 <= x1 - x2 <= 1 && -1 <= y1 - y2 <= 1
}

/// No two Chebyshev-adjacent vertices differ in height by more than one.
pub open spec fn smooth(heights: Seq<u8>) -> bool {
    forall|x1: int, y1: int, x2: int, y2: int|
        vertex_in_bounds(x1, y1) && vertex_in_bounds(x2, y2) && adjacent(x1, y1, x2, y2)
            ==> -1 <= #[trigger] height_at(heights, x1, y1) - #[trigger] height_at(heights, x2, y2)
            <= 1
}

/// The starting terrain: a water-level perimeter around land one unit high,
/// with a raised patch that steps up twice.
pub open spec fn seed_height(x: int, y: int) -> int {
    if vertex_is_edge(x, y) {
        0
    } else if 7 <= x <= 8 && 4 <= y <= 5 {
        3
    } else if 5 <= x <= 9 && 3 <= y <= 6 {
        2
    } else {
        1
    }
}

#[derive(PartialEq, Eq, Structural, Clone, Copy, Debug)]
pub enum LandType {
    Water,
    Land,
}

/// Water exactly when all four corners of block `(x, y)` sit at the water level.
pub open spec fn land_type_of(heights: Seq<u8>, x: int, y: int) -> LandType {
    if height_at(heights, x, y) == WATER_LEVEL && height_at(heights, x + 1, y) == WATER_LEVEL
        && height_at(heights, x, y + 1) == WATER_LEVEL && height_at(heights, x + 1, y + 1)
        == WATER_LEVEL {
        LandType::Water
    } else {
        LandType::Land
    }
}

/// Why a structure could not be placed.
#[derive(PartialEq, Eq, Structural, Clone, Copy, Debug)]
pub enum PlacementError {
    /// Part of the footprint lies off the board.
    OutOfBounds,
    /// Part of the footprint is already occupied.
    Collision,
}

/// The placement covering block `(x, y)`, if any, by the occupancy index.
pub open spec fn occupant_at(occupants: Seq<Option<usize>>, x: int, y: int) -> Option<usize> {
    occupants[block_index(x, y)]
}

/// The occupancy index agrees with the placement list: a block names a
/// placement exactly when that placement covers it.
pub open spec fn occupancy_consistent(
    placements: Seq<StructurePlacement>,
    occupants: Seq<Option<usize>>,
) -> bool {
    &&& forall|x: int, y: int|
        block_in_bounds(x, y) && (#[trigger] occupant_at(occupants, x, y)).is_some() ==> {
            let i = occupant_at(occupants, x, y).unwrap() as int;
            i < placements.len() && placements[i].covers(x, y)
        }
    &&& forall|i: int, x: int, y: int|
        0 <= i < placements.len() && #[trigger] placements[i].covers(x, y) ==> block_in_bounds(x, y)
            && occupant_at(occupants, x, y) == Some(i as usize)
}

/// What a board holds: heights, placements in the order they were made, and
/// for each block the index of the placement covering it.
pub struct BoardView {
    pub heights: Seq<u8>,
    pub placements: Seq<StructurePlacement>,
    pub occupants: Seq<Option<usize>>,
}

impl BoardView {
    pub open spec fn height(self, v: Vertex) -> int {
        height_at(self.heights, v.x as int, v.y as int)
    }

    pub open spec fn occupant(self, x: int, y: int) -> Option<usize> {
        occupant_at(self.occupants, x, y)
    }

    pub open spec fn heights_in_range(self) -> bool {
        forall|i: int| 0 <= i < VERTEX_COUNT ==> MIN_HEIGHT <= #[trigger] self.heights[i] <= MAX_HEIGHT
    }

    pub open spec fn wf(self) -> bool {
        &&& self.heights.len() == VERTEX_COUNT
        &&& self.occupants.len() == BLOCK_COUNT
        &&& self.placements.len() <= usize::MAX
        &&& self.heights_in_range()
        &&& occupancy_consistent(self.placements, self.occupants)
    }

    /// What the occupancy index shows at block `(x, y)`.
    pub open spec fn structure_at(self, x: int, y: int) -> Option<Structure> {
        match self.occupant(x, y) {
            Some(i) => Some(self.placements[i as int].structure),
            None => None,
        }
    }

    pub open spec fn fits(self, p: StructurePlacement) -> bool {
        p.origin.x + p.footprint().0 <= BOARD_WIDTH && p.origin.y + p.footprint().1 <= BOARD_HEIGHT
    }

    pub open spec fn is_free_for(self, p: StructurePlacement) -> bool {
        forall|x: int, y: int| #[trigger] p.covers(x, y) ==> self.occupant(x, y).is_none()
    }
}

/// What one placement attempt of `p` does to a board, given its result `r`:
/// `OutOfBounds` exactly when the footprint leaves the board, else
/// `Collision` exactly when a block of it is taken, else success, which
/// appends `p` to the placements and points every block under it, and only
/// those, at the new index. A failure changes nothing.
pub open spec fn placement_effect(
    before: BoardView,
    after: BoardView,
    p: StructurePlacement,
    r: Result<(), PlacementError>,
) -> bool {
    &&& after.heights == before.heights
    &&& !before.fits(p) ==> r == Err::<(), PlacementError>(PlacementError::OutOfBounds)
    &&& before.fits(p) && !before.is_free_for(p) ==> r == Err::<(), PlacementError>(
        PlacementError::Collision,
    )
    &&& before.fits(p) && before.is_free_for(p) ==> r is Ok
    &&& r is Err ==> after == before
    &&& r is Ok ==> after.placements == before.placements.push(p)
    &&& r is Ok ==> forall|x: int, y: int|
        block_in_bounds(x, y) ==> #[trigger] after.occupant(x, y) == if p.covers(x, y) {
            Some(before.placements.len() as usize)
        } else {
            before.occupant(x, y)
        }
}

/// The heightfield together with the structure registry and its occupancy index.
pub struct Board {
    vertices: Vec<VertexHeight>,
    structures: Vec<StructurePlacement>,
    block_occupants: Vec<Option<usize>>,
}

impl View for Board {
    type V = BoardView;

    closed spec fn view(&self) -> BoardView {
        BoardView {
            heights: self.vertices@,
            placements: self.structures@,
            occupants: self.block_occupants@,
        }
    }
}

pub proof fn lemma_vertex_index_bounds(x: int, y: int)
    requires
        vertex_in_bounds(x, y),
    ensures
        0 <= vertex_index(x, y) < VERTEX_COUNT,
{
}

pub proof fn lemma_block_index_bounds(x: int, y: int)
    requires
        block_in_bounds(x, y),
    ensures
        0 <= block_index(x, y) < BLOCK_COUNT,
{
}

/// On a well-formed board every vertex height lies in `[MIN_HEIGHT, MAX_HEIGHT]`.
/// Every board is built well-formed and every mutation keeps it so.
pub proof fn lemma_heights_in_range(b: BoardView, v: Vertex)
    requires
        b.wf(),
        v.on_board(),
    ensures
        MIN_HEIGHT <= b.height(v) <= MAX_HEIGHT,
{
    assert(b.heights[vertex_index(v.x as int, v.y as int)] <= MAX_HEIGHT);
}

fn vertex_offset(v: Vertex) -> (r: usize)
    requires
        v.on_board(),
    ensures
        r == vertex_index(v.x as int, v.y as int),
        r < VERTEX_COUNT,
{
    proof {
        lemma_vertex_index_bounds(v.x as int, v.y as int);
    }
    (v.y * 101 + v.x) as usize
}

fn block_offset(x: u32, y: u32) -> (r: usize)
    requires
        block_in_bounds(x as int, y as int),
    ensures
        r == block_index(x as int, y as int),
        r < BLOCK_COUNT,
{
    proof {
        lemma_block_index_bounds(x as int, y as int);
    }
    (y * 100 + x) as usize
}

fn seed_vertex_height(x: u32, y: u32) -> (r: VertexHeight)
    ensures
        r == seed_height(x as int, y as int),
{
    if x == 0 || y == 0 || x >= BOARD_WIDTH || y >= BOARD_HEIGHT {
        WATER_LEVEL
    } else if 7 <= x && x <= 8 && 4 <= y && y <= 5 {
        WATER_LEVEL + 3
    } else if 5 <= x && x <= 9 && 3 <= y && y <= 6 {
        WATER_LEVEL + 2
    } else {
        WATER_LEVEL + 1
    }
}

/// The seeded terrain satisfies the slope rule.
pub proof fn lemma_seed_smooth(heights: Seq<u8>)
    requires
        heights.len() == VERTEX_COUNT,
        forall|x: int, y: int|
            vertex_in_bounds(x, y) ==> #[trigger] height_at(heights, x, y) == seed_height(x, y),
    ensures
        smooth(heights),
{
}

impl Board {
    /// A board with the seeded terrain and no structures.
    pub fn new() -> (r: Board)
        ensures
            r@.wf(),
            forall|x: int, y: int|
                vertex_in_bounds(x, y) ==> #[trigger] height_at(r@.heights, x, y) == seed_height(x, y),
            smooth(r@.heights),
            r@.placements.len() == 0,
            forall|i: int| 0 <= i < BLOCK_COUNT ==> (#[trigger] r@.occupants[i]).is_none(),
    {
        let mut vertices: Vec<VertexHeight> = Vec::new();
        let mut y: u32 = 0;
        while y <= BOARD_HEIGHT
            invariant
                y <= BOARD_HEIGHT + 1,
                vertices@.len() == vertex_index(0, y as int),
                forall|i: int| 0 <= i < vertices@.len() ==> #[trigger] vertices@[i] <= MAX_HEIGHT,
                forall|xx: int, yy: int|
                    vertex_in_bounds(xx, yy) && yy < y ==> #[trigger] height_at(vertices@, xx, yy)
                        == seed_height(xx, yy),
            decreases BOARD_HEIGHT + 1 - y,
        {
            let mut x: u32 = 0;
            while x <= BOARD_WIDTH
                invariant
                    y <= BOARD_HEIGHT,
                    x <= BOARD_WIDTH + 1,
                    vertices@.len() == vertex_index(x as int, y as int),
                    forall|i: int| 0 <= i < vertices@.len() ==> #[trigger] vertices@[i] <= MAX_HEIGHT,
                    forall|xx: int, yy: int|
                        vertex_in_bounds(xx, yy) && (yy < y || (yy == y && xx < x))
                            ==> #[trigger] height_at(vertices@, xx, yy) == seed_height(xx, yy),
                decreases BOARD_WIDTH + 1 - x,
            {
                let h = seed_vertex_height(x, y);
                let ghost before = vertices@;
                vertices.push(h);
                proof {
                    assert forall|xx: int, yy: int|
                        vertex_in_bounds(xx, yy) && (yy < y || (yy == y && xx <= x)) implies
                        #[trigger] height_at(vertices@, xx, yy) == seed_height(xx, yy) by {
                        if yy != y || xx != x {
                            assert(height_at(before, xx, yy) == seed_height(xx, yy));
                        }
                    }
                }
                x = x + 1;
            }
            y = y + 1;
        }
        let mut block_occupants: Vec<Option<usize>> = Vec::new();
        let mut i: usize = 0;
        while i < BLOCK_COUNT
            invariant
                i <= BLOCK_COUNT,
                block_occupants@.len() == i,
                forall|j: int| 0 <= j < i ==> (#[trigger] block_occupants@[j]).is_none(),
            decreases BLOCK_COUNT - i,
        {
            block_occupants.push(None);
            i = i + 1;
        }
        let r = Board { vertices, structures: Vec::new(), block_occupants };
        proof {
            lemma_seed_smooth(r@.heights);
        }
        r
    }

    pub fn width(&self) -> (r: u32)
        ensures
            r == BOARD_WIDTH,
    {
        BOARD_WIDTH
    }

    pub fn height(&self) -> (r: u32)
        ensures
            r == BOARD_HEIGHT,
    {
        BOARD_HEIGHT
    }

    pub fn vertex_on_board(&self, v: Vertex) -> (r: bool)
        ensures
            r == v.on_board(),
    {
        v.x <= BOARD_WIDTH && v.y <= BOARD_HEIGHT
    }

    pub fn vertex_height(&self, v: Vertex) -> (r: VertexHeight)
        requires
            self@.wf(),
            v.on_board(),
        ensures
            r == self@.height(v),
            MIN_HEIGHT <= r <= MAX_HEIGHT,
    {
        self.vertices[vertex_offset(v)]
    }

    /// Writes one height directly; every other vertex and the registry are unchanged.
    pub fn set_vertex_height(&mut self, v: Vertex, height: VertexHeight)
        requires
            old(self)@.wf(),
            v.on_board(),
            height <= MAX_HEIGHT,
        ensures
            final(self)@.wf(),
            final(self)@.heights == old(self)@.heights.update(
                vertex_index(v.x as int, v.y as int),
                height,
            ),
            final(self)@.placements == old(self)@.placements,
            final(self)@.occupants == old(self)@.occupants,
    {
        let i = vertex_offset(v);
        self.vertices.set(i, height);
    }

    /// The structure standing on `block`, if any.
    pub fn block_structure_type(&self, block: Block) -> (r: Option<Structure>)
        requires
            self@.wf(),
            block.on_board(),
        ensures
            r == self@.structure_at(block.x as int, block.y as int),
    {
        match self.block_occupants[block_offset(block.x, block.y)] {
            Some(idx) => Some(self.structures[idx].structure),
            None => None,
        }
    }

    /// Whether any block of `placement`'s footprint is taken; the footprint must fit.
    fn footprint_occupied(&self, placement: &StructurePlacement) -> (r: bool)
        requires
            self@.wf(),
            self@.fits(*placement),
        ensures
            r == !self@.is_free_for(*placement),
    {
        let w = placement.width() as u32;
        let h = placement.height() as u32;
        let x0 = placement.origin.x;
        let y0 = placement.origin.y;
        let mut y = y0;
        while y < y0 + h
            invariant
                self@.wf(),
                self@.fits(*placement),
                w == placement.footprint().0,
                h == placement.footprint().1,
                x0 == placement.origin.x,
                y0 == placement.origin.y,
                y0 <= y <= y0 + h,
                forall|xx: int, yy: int|
                    #[trigger] placement.covers(xx, yy) && yy < y ==> self@.occupant(xx, yy).is_none(),
            decreases y0 + h - y,
        {
            let mut x = x0;
            while x < x0 + w
                invariant
                    self@.wf(),
                    self@.fits(*placement),
                    w == placement.footprint().0,
                    h == placement.footprint().1,
                    x0 == placement.origin.x,
                    y0 == placement.origin.y,
                    y0 <= y < y0 + h,
                    x0 <= x <= x0 + w,
                    forall|xx: int, yy: int|
                        #[trigger] placement.covers(xx, yy) && (yy < y || (yy == y && xx < x))
                            ==> self@.occupant(xx, yy).is_none(),
                decreases x0 + w - x,
            {
                if self.block_occupants[block_offset(x, y)].is_some() {
                    assert(placement.covers(x as int, y as int));
                    return true;
                }
                x = x + 1;
            }
            y = y + 1;
        }
        false
    }

    /// Places `structure` facing `orientation` with its top-left block at
    /// `origin`, and records it in the occupancy index under its own index.
    ///
    /// Fails with `OutOfBounds` when the footprint leaves the board and with
    /// `Collision` when any block of it is already occupied; nothing changes then.
    pub fn place_structure(
        &mut self,
        structure: Structure,
        orientation: Direction,
        origin: Block,
    ) -> (r: Result<(), PlacementError>)
        requires
            old(self)@.wf(),
        ensures
            final(self)@.wf(),
            placement_effect(old(self)@, final(self)@, (StructurePlacement { structure, orientation, origin }), r),
    {
        let placement = StructurePlacement { structure, orientation, origin };
        let w = placement.width() as u32;
        let h = placement.height() as u32;
        if origin.x > BOARD_WIDTH - w || origin.y > BOARD_HEIGHT - h {
            return Err(PlacementError::OutOfBounds);
        }
        if self.footprint_occupied(&placement) {
            return Err(PlacementError::Collision);
        }
        let ghost before = self@;
        let idx = self.structures.len();
        self.structures.push(placement);
        // The list's length is a `usize`, which bounds how many placements it holds.
        let count = self.structures.len();
        assert(count == before.placements.len() + 1);
        let mut y = origin.y;
        while y < origin.y + h
            invariant
                before.wf(),
                before.fits(placement),
                before.is_free_for(placement),
                w == placement.footprint().0,
                h == placement.footprint().1,
                origin == placement.origin,
                idx == before.placements.len(),
                self@.heights == before.heights,
                self@.placements == before.placements.push(placement),
                self@.occupants.len() == BLOCK_COUNT,
                origin.y <= y <= origin.y + h,
                forall|xx: int, yy: int|
                    block_in_bounds(xx, yy) ==> #[trigger] self@.occupant(xx, yy) == if placement.covers(
                        xx,
                        yy,
                    ) && yy < y {
                        Some(idx)
                    } else {
                        before.occupant(xx, yy)
                    },
            decreases origin.y + h - y,
        {
            let mut x = origin.x;
            while x < origin.x + w
                invariant
                    before.wf(),
                    before.fits(placement),
                    w == placement.footprint().0,
                    h == placement.footprint().1,
                    origin == placement.origin,
                    idx == before.placements.len(),
                    self@.heights == before.heights,
                    self@.placements == before.placements.push(placement),
                    self@.occupants.len() == BLOCK_COUNT,
                    origin.y <= y < origin.y + h,
                    origin.x <= x <= origin.x + w,
                    forall|xx: int, yy: int|
                        block_in_bounds(xx, yy) ==> #[trigger] self@.occupant(xx, yy) == if placement.covers(
                            xx,
                            yy,
                        ) && (yy < y || (yy == y && xx < x)) {
                            Some(idx)
                        } else {
                            before.occupant(xx, yy)
                        },
                decreases origin.x + w - x,
            {
                let i = block_offset(x, y);
                let ghost pre = self@;
                self.block_occupants.set(i, Some(idx));
                proof {
                    assert forall|xx: int, yy: int| block_in_bounds(xx, yy) implies #[trigger] self@.occupant(
                        xx,
                        yy,
                    ) == if placement.covers(xx, yy) && (yy < y || (yy == y && xx <= x)) {
                        Some(idx)
                    } else {
                        before.occupant(xx, yy)
                    } by {
                        if !(xx == x && yy == y) {
                            assert(block_index(xx, yy) != block_index(x as int, y as int));
                            assert(pre.occupant(xx, yy) == self@.occupant(xx, yy));
                        } else {
                            assert(placement.covers(xx, yy));
                        }
                    }
                }
                x = x + 1;
            }
            y = y + 1;
        }
        proof {
            let ghost after = self@;
            assert forall|x: int, y: int|
                block_in_bounds(x, y) && (#[trigger] occupant_at(after.occupants, x, y)).is_some() implies {
                let i = occupant_at(after.occupants, x, y).unwrap() as int;
                i < after.placements.len() && after.placements[i].covers(x, y)
            } by {
                assert(after.occupant(x, y) == occupant_at(after.occupants, x, y));
                if !placement.covers(x, y) {
                    assert(before.occupant(x, y) == occupant_at(before.occupants, x, y));
                }
            }
            assert forall|i: int, x: int, y: int|
                0 <= i < after.placements.len() && #[trigger] after.placements[i].covers(x, y) implies block_in_bounds(x, y)
                && occupant_at(after.occupants, x, y) == Some(i as usize) by {
                if i < before.placements.len() {
                    assert(before.placements[i] == after.placements[i]);
                    assert(occupant_at(before.occupants, x, y) == Some(i as usize));
                    assert(after.occupant(x, y) == occupant_at(after.occupants, x, y));
                    if placement.covers(x, y) {
                        assert(before.occupant(x, y).is_none());
                    }
                } else {
                    assert(after.occupant(x, y) == occupant_at(after.occupants, x, y));
                }
            }
        }
        Ok(())
    }

    /// Land or water, from the heights of the block's four corners.
    pub fn block_land_type(&self, x: VertexPosition, y: VertexPosition) -> (r: LandType)
        requires
            self@.wf(),
            block_in_bounds(x as int, y as int),
        ensures
            r == land_type_of(self@.heights, x as int, y as int),
    {
        let corners = [
            self.vertex_height(Vertex { x, y }),
            self.vertex_height(Vertex { x: x + 1, y }),
            self.vertex_height(Vertex { x, y: y + 1 }),
            self.vertex_height(Vertex { x: x + 1, y: y + 1 }),
        ];
        let mut i: usize = 0;
        while i < 4
            invariant
                i <= 4,
                corners@ == seq![
                    height_at(self@.heights, x as int, y as int) as u8,
                    height_at(self@.heights, x + 1, y as int) as u8,
                    height_at(self@.heights, x as int, y + 1) as u8,
                    height_at(self@.heights, x + 1, y + 1) as u8,
                ],
                forall|j: int| 0 <= j < i ==> corners@[j] == WATER_LEVEL,
            decreases 4 - i,
        {
            if corners[i] > WATER_LEVEL {
                return LandType::Land;
            }
            i = i + 1;
        }
        LandType::Water
    }
}

} // verus!
