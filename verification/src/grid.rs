//! Static board geometry: tile classification, neighbour lookup, and the
//! mapping between grid coordinates and world-space points.
//!
//! World space is the non-negative quadrant of a 2D integer lattice. A
//! board occupies the rectangle starting at `origin` and extending
//! `width * tile_size` by `height * tile_size`. Every coordinate the board
//! can produce stays below [`MAX_COORD`], which leaves ample headroom for
//! the fixed-point interpolation done by the animation system.

use vstd::prelude::*;
use vstd::arithmetic::div_mod::lemma_div_multiples_vanish_fancy;
use vstd::arithmetic::div_mod::lemma_fundamental_div_mod_converse;
use vstd::arithmetic::div_mod::lemma_multiply_divide_lt;

verus! {

/// Upper bound on every world-space coordinate a well-formed board touches.
pub const MAX_COORD: u64 = 1_000_000_000_000;

/// Sprite id of tiles on the board's border.
pub const BOUNDARY_SPRITE: u8 = 1;

/// Sprite id of ordinary interior tiles.
pub const PLAIN_SPRITE: u8 = 0;

/// A continuous world-space point, in subunits of the caller's choosing.
#[derive(Clone, Copy, Debug, PartialEq, Eq, Structural)]
pub struct WorldPoint {
    pub x: u64,
    pub y: u64,
}

/// A (column, row) address of one tile on the board.
#[derive(Clone, Copy, Debug, PartialEq, Eq, Structural)]
pub struct GridCoordinate {
    pub col: u32,
    pub row: u32,
}

/// One cell of the board: a sprite classification and a walkability flag.
#[derive(Clone, Copy, Debug, PartialEq, Eq, Structural)]
pub struct Tile {
    pub sprite: u8,
    pub walkable: bool,
}

impl Tile {
    /// The sprite id used to classify this tile for rendering.
    pub fn get_tile_type(&self) -> (r: u8)
        ensures
            r == self.sprite,
    {
        self.sprite
    }

    /// Whether entities may stand on this tile.
    pub fn is_walkable(&self) -> (r: bool)
        ensures
            r == self.walkable,
    {
        self.walkable
    }
}

/// The four directions a tile-to-tile move can take. North is towards
/// row 0, West towards column 0.
#[derive(Clone, Copy, Debug, PartialEq, Eq, Structural)]
pub enum GridDirection {
    DirectionNorth,
    DirectionSouth,
    DirectionEast,
    DirectionWest,
}

/// The tile a freshly constructed board holds at coordinate `c`: the
/// boundary tile on the first and last row and column, the plain walkable
/// tile everywhere else.
pub open spec fn spec_tile_for(width: u32, height: u32, c: GridCoordinate) -> Tile {
    if c.row as int % (height - 1) == 0 || c.col == 0 || c.col == width - 1 {
        Tile { sprite: BOUNDARY_SPRITE, walkable: false }
    } else {
        Tile { sprite: PLAIN_SPRITE, walkable: true }
    }
}

/// Division and remainder of a row-major index: for `c < width`, the index
/// `r * width + c` decomposes back into row `r` and column `c`.
proof fn lemma_flat_index(width: u32, r: u32, c: u32)
    requires
        0 < width,
        c < width,
    ensures
        (r * width + c) / (width as int) == r,
        (r * width + c) % (width as int) == c,
{
    lemma_fundamental_div_mod_converse(
        r * width + c,
        width as int,
        r as int,
        c as int,
    );
}

/// A row-major index of an in-bounds coordinate lies inside the tile array.
proof fn lemma_flat_index_bound(width: u32, height: u32, r: u32, c: u32)
    requires
        r < height,
        c < width,
    ensures
        r * width + c < width * height,
{
    assert(r * width + c < width * height) by (nonlinear_arith)
        requires
            r < height,
            c < width,
    ;
}

/// The static game board: immutable after construction, shared read-only
/// by the movement and animation systems.
pub struct Board {
    pub width: u32,
    pub height: u32,
    /// Side length of one square tile, in world subunits.
    pub tile_size: u64,
    /// World-space point of the board's upper-left corner.
    pub origin: WorldPoint,
    /// Row-major: the tile at (col, row) sits at index `row * width + col`.
    pub tiles: Vec<Tile>,
}

impl Board {
    /// Geometric well-formedness: at least a 2 by 2 board of non-degenerate
    /// tiles, whose full extent stays below [`MAX_COORD`] on both axes.
    pub open spec fn wf(self) -> bool {
        &&& 2 <= self.width
        &&& 2 <= self.height
        &&& 1 <= self.tile_size
        &&& self.tiles@.len() == self.width * self.height
        &&& self.origin.x + self.width * self.tile_size <= MAX_COORD
        &&& self.origin.y + self.height * self.tile_size <= MAX_COORD
    }

    /// `c` addresses a tile of this board.
    pub open spec fn in_bounds(self, c: GridCoordinate) -> bool {
        c.col < self.width && c.row < self.height
    }

    /// `p` lies inside the board's world-space rectangle.
    pub open spec fn in_world(self, p: WorldPoint) -> bool {
        &&& self.origin.x <= p.x < self.origin.x + self.width * self.tile_size
        &&& self.origin.y <= p.y < self.origin.y + self.height * self.tile_size
    }

    /// Row-major index of the tile at `c`.
    pub open spec fn tile_index(self, c: GridCoordinate) -> int {
        c.row * self.width + c.col
    }

    /// The tile stored at `c`.
    pub open spec fn spec_tile_at(self, c: GridCoordinate) -> Tile {
        self.tiles@[self.tile_index(c)]
    }

    /// The adjacent coordinate in direction `d`, or `None` when the move
    /// would leave the board: West at column 0, East at the last column,
    /// North at row 0, South at the last row. No wraparound.
    pub open spec fn spec_neighbor(self, c: GridCoordinate, d: GridDirection) -> Option<
        GridCoordinate,
    > {
        match d {
            GridDirection::DirectionNorth => if c.row == 0 {
                None
            } else {
                Some(GridCoordinate { col: c.col, row: (c.row - 1) as u32 })
            },
            GridDirection::DirectionSouth => if c.row >= self.height - 1 {
                None
            } else {
                Some(GridCoordinate { col: c.col, row: (c.row + 1) as u32 })
            },
            GridDirection::DirectionEast => if c.col >= self.width - 1 {
                None
            } else {
                Some(GridCoordinate { col: (c.col + 1) as u32, row: c.row })
            },
            GridDirection::DirectionWest => if c.col == 0 {
                None
            } else {
                Some(GridCoordinate { col: (c.col - 1) as u32, row: c.row })
            },
        }
    }

    /// World-space x of the centre of the tile in column `col`.
    pub open spec fn spec_center_x(self, col: u32) -> int {
        self.origin.x + col * self.tile_size + self.tile_size / 2
    }

    /// World-space y of the centre of the tile in row `row`.
    pub open spec fn spec_center_y(self, row: u32) -> int {
        self.origin.y + row * self.tile_size + self.tile_size / 2
    }

    /// The visual centre of tile `c`: `origin + (c + 1/2) * tile_size`,
    /// componentwise, with the half tile rounded down.
    pub open spec fn spec_center(self, c: GridCoordinate) -> WorldPoint {
        WorldPoint { x: self.spec_center_x(c.col) as u64, y: self.spec_center_y(c.row) as u64 }
    }

    /// The coordinate of the tile containing `p`:
    /// `floor((p - origin) / tile_size)` componentwise.
    pub open spec fn spec_world_to_grid(self, p: WorldPoint) -> GridCoordinate {
        GridCoordinate {
            col: ((p.x - self.origin.x) / self.tile_size as int) as u32,
            row: ((p.y - self.origin.y) / self.tile_size as int) as u32,
        }
    }

    /// Build a `width` by `height` board of square tiles with side
    /// `tile_size`, anchored at `origin`. The first and last row and the
    /// first and last column carry the boundary tile; all other tiles are
    /// plain and walkable.
    pub fn new(width: u32, height: u32, tile_size: u64, origin: WorldPoint) -> (b: Board)
        requires
            2 <= width,
            2 <= height,
            1 <= tile_size,
            width * height <= usize::MAX,
            origin.x + width * tile_size <= MAX_COORD,
            origin.y + height * tile_size <= MAX_COORD,
        ensures
            b.wf(),
            b.width == width,
            b.height == height,
            b.tile_size == tile_size,
            b.origin == origin,
            forall|c: GridCoordinate|
                b.in_bounds(c) ==> b.spec_tile_at(c) == spec_tile_for(width, height, c),
    {
        let mut tiles: Vec<Tile> = Vec::new();
        let mut i: u32 = 0;
        while i < height
            invariant
                i <= height,
                2 <= width,
                2 <= height,
                tiles@.len() == i * width,
                forall|k: int|
                    0 <= k < tiles@.len() ==> #[trigger] tiles@[k] == spec_tile_for(
                        width,
                        height,
                        GridCoordinate {
                            col: (k % width as int) as u32,
                            row: (k / width as int) as u32,
                        },
                    ),
            decreases height - i,
        {
            let mut j: u32 = 0;
            while j < width
                invariant
                    j <= width,
                    i < height,
                    2 <= width,
                    2 <= height,
                    tiles@.len() == i * width + j,
                    forall|k: int|
                        0 <= k < tiles@.len() ==> #[trigger] tiles@[k] == spec_tile_for(
                            width,
                            height,
                            GridCoordinate {
                                col: (k % width as int) as u32,
                                row: (k / width as int) as u32,
                            },
                        ),
                decreases width - j,
            {
                let boundary = i % (height - 1) == 0 || j == 0 || j == width - 1;
                let tile = if boundary {
                    Tile { sprite: BOUNDARY_SPRITE, walkable: false }
                } else {
                    Tile { sprite: PLAIN_SPRITE, walkable: true }
                };
                proof {
                    lemma_flat_index(width, i, j);
                    assert(tile == spec_tile_for(width, height, GridCoordinate { col: j, row: i }));
                }
                tiles.push(tile);
                j = j + 1;
            }
            proof {
                assert((i + 1) * width == i * width + width) by (nonlinear_arith);
            }
            i = i + 1;
        }
        proof {
            assert(height * width == width * height) by (nonlinear_arith);
        }
        let b = Board { width, height, tile_size, origin, tiles };
        proof {
            assert forall|c: GridCoordinate| b.in_bounds(c) implies b.spec_tile_at(c)
                == spec_tile_for(width, height, c) by {
                lemma_flat_index(width, c.row, c.col);
                lemma_flat_index_bound(width, height, c.row, c.col);
            }
        }
        b
    }

    /// Neighbour lookup. The returned coordinate, when present, is again
    /// inside the board; `None` marks the board edge (an expected boundary
    /// condition, not an error).
    pub fn get_neighbour(&self, coord: GridCoordinate, direction: GridDirection) -> (r: Option<
        GridCoordinate,
    >)
        requires
            self.wf(),
            self.in_bounds(coord),
        ensures
            r == self.spec_neighbor(coord, direction),
            r is Some ==> self.in_bounds(r->Some_0),
    {
        match direction {
            GridDirection::DirectionNorth => {
                if coord.row == 0 {
                    None
                } else {
                    Some(GridCoordinate { col: coord.col, row: coord.row - 1 })
                }
            },
            GridDirection::DirectionSouth => {
                if coord.row >= self.height - 1 {
                    None
                } else {
                    Some(GridCoordinate { col: coord.col, row: coord.row + 1 })
                }
            },
            GridDirection::DirectionEast => {
                if coord.col >= self.width - 1 {
                    None
                } else {
                    Some(GridCoordinate { col: coord.col + 1, row: coord.row })
                }
            },
            GridDirection::DirectionWest => {
                if coord.col == 0 {
                    None
                } else {
                    Some(GridCoordinate { col: coord.col - 1, row: coord.row })
                }
            },
        }
    }

    /// The tile stored at `coord`. Callers must only pass coordinates
    /// derived from `get_neighbour` or `get_tile_coordinates`; anything
    /// else is a contract violation upstream.
    pub fn get_tile(&self, coord: GridCoordinate) -> (r: Tile)
        requires
            self.wf(),
            self.in_bounds(coord),
        ensures
            r == self.spec_tile_at(coord),
    {
        proof {
            lemma_flat_index_bound(self.width, self.height, coord.row, coord.col);
            assert(self.tiles.len() == self.width * self.height);
        }
        let i: usize = coord.row as usize * self.width as usize + coord.col as usize;
        self.tiles[i]
    }

    /// The coordinate of the tile containing `point`, by componentwise
    /// floor division. Only defined for points inside the board; the
    /// result is always in bounds.
    pub fn get_tile_coordinates(&self, point: WorldPoint) -> (r: GridCoordinate)
        requires
            self.wf(),
            self.in_world(point),
        ensures
            r == self.spec_world_to_grid(point),
            self.in_bounds(r),
    {
        let dx = point.x - self.origin.x;
        let dy = point.y - self.origin.y;
        proof {
            assert(self.tile_size * self.width == self.width * self.tile_size)
                by (nonlinear_arith);
            assert(self.tile_size * self.height == self.height * self.tile_size)
                by (nonlinear_arith);
            lemma_multiply_divide_lt(dx as int, self.tile_size as int, self.width as int);
            lemma_multiply_divide_lt(dy as int, self.tile_size as int, self.height as int);
        }
        GridCoordinate { col: (dx / self.tile_size) as u32, row: (dy / self.tile_size) as u32 }
    }

    /// The visual centre of tile `cell`, used both as the start anchor of
    /// an animation and as the render anchor. Always inside the board.
    pub fn get_tile_center_world_coordinate(&self, cell: GridCoordinate) -> (r: WorldPoint)
        requires
            self.wf(),
            self.in_bounds(cell),
        ensures
            r == self.spec_center(cell),
            self.in_world(r),
    {
        proof {
            assert(cell.col * self.tile_size + self.tile_size / 2 < self.width * self.tile_size)
                by (nonlinear_arith)
                requires
                    cell.col < self.width,
                    1 <= self.tile_size,
            ;
            assert(cell.row * self.tile_size + self.tile_size / 2 < self.height * self.tile_size)
                by (nonlinear_arith)
                requires
                    cell.row < self.height,
                    1 <= self.tile_size,
            ;
        }
        WorldPoint {
            x: self.origin.x + cell.col as u64 * self.tile_size + self.tile_size / 2,
            y: self.origin.y + cell.row as u64 * self.tile_size + self.tile_size / 2,
        }
    }

    /// Read-only projection for the rendering collaborator: the centre
    /// point and tile of every cell, row-major.
    pub fn render_geometry(&self) -> (r: Vec<(WorldPoint, Tile)>)
        requires
            self.wf(),
        ensures
            r@.len() == self.width * self.height,
            forall|c: GridCoordinate|
                self.in_bounds(c) ==> r@[self.tile_index(c)] == (
                self.spec_center(c),
                self.spec_tile_at(c),
            ),
    {
        let mut out: Vec<(WorldPoint, Tile)> = Vec::new();
        let mut i: u32 = 0;
        while i < self.height
            invariant
                self.wf(),
                i <= self.height,
                out@.len() == i * self.width,
                forall|k: int|
                    0 <= k < out@.len() ==> #[trigger] out@[k] == {
                        let c = GridCoordinate {
                            col: (k % self.width as int) as u32,
                            row: (k / self.width as int) as u32,
                        };
                        (self.spec_center(c), self.spec_tile_at(c))
                    },
            decreases self.height - i,
        {
            let mut j: u32 = 0;
            while j < self.width
                invariant
                    self.wf(),
                    i < self.height,
                    j <= self.width,
                    out@.len() == i * self.width + j,
                    forall|k: int|
                        0 <= k < out@.len() ==> #[trigger] out@[k] == {
                            let c = GridCoordinate {
                                col: (k % self.width as int) as u32,
                                row: (k / self.width as int) as u32,
                            };
                            (self.spec_center(c), self.spec_tile_at(c))
                        },
                decreases self.width - j,
            {
                let c = GridCoordinate { col: j, row: i };
                let center = self.get_tile_center_world_coordinate(c);
                let tile = self.get_tile(c);
                proof {
                    lemma_flat_index(self.width, i, j);
                }
                out.push((center, tile));
                j = j + 1;
            }
            proof {
                assert((i + 1) * self.width == i * self.width + self.width) by (nonlinear_arith);
            }
            i = i + 1;
        }
        proof {
            assert(self.height * self.width == self.width * self.height) by (nonlinear_arith);
            assert forall|c: GridCoordinate| self.in_bounds(c) implies out@[self.tile_index(c)] == (
                self.spec_center(c),
                self.spec_tile_at(c),
            ) by {
                lemma_flat_index(self.width, c.row, c.col);
                lemma_flat_index_bound(self.width, self.height, c.row, c.col);
            }
        }
        out
    }
}

/// Round trip of tile addressing: the centre of any valid tile maps back
/// to that tile. `world_to_grid(grid_to_world_center(c)) == c` for every
/// in-bounds coordinate `c`.
pub proof fn lemma_world_to_grid_center_roundtrip(b: Board, c: GridCoordinate)
    requires
        b.wf(),
        b.in_bounds(c),
    ensures
        b.spec_world_to_grid(b.spec_center(c)) == c,
{
    let ts = b.tile_size as int;
    assert(c.col * ts + ts / 2 < b.width * ts) by (nonlinear_arith)
        requires
            c.col < b.width,
            1 <= ts,
    ;
    assert(c.row * ts + ts / 2 < b.height * ts) by (nonlinear_arith)
        requires
            c.row < b.height,
            1 <= ts,
    ;
    assert(c.col * ts == ts * c.col) by (nonlinear_arith);
    assert(c.row * ts == ts * c.row) by (nonlinear_arith);
    lemma_div_multiples_vanish_fancy(c.col as int, ts / 2, ts);
    lemma_div_multiples_vanish_fancy(c.row as int, ts / 2, ts);
}

} // verus!
