//! The grid: tiles stored row by row with `y` pointing up, sizes, positions
//! and the transforms between host positions, plugin positions and tile
//! indices.
use vstd::arithmetic::div_mod::{
    lemma_fundamental_div_mod_converse_div,
    lemma_fundamental_div_mod_converse_mod,
};
use vstd::prelude::*;

use crate::api::{Color, Pos};
use crate::SPRITE_SIZE;

verus! {

/// What a tile is made of.
#[derive(Clone, Copy, Debug, PartialEq, Eq, Hash, Structural)]
pub enum TileType {
    Floor,
    Wall,
}

impl Default for TileType {
    fn default() -> (r: Self)
        ensures
            r == TileType::Floor,
    {
        TileType::Floor
    }
}

impl TileType {
    /// Index of the tile's picture in the tile set.
    pub open spec fn index_spec(self) -> u16 {
        match self {
            TileType::Floor => 0u16,
            TileType::Wall => 1u16,
        }
    }

    pub fn to_index(self) -> (r: u16)
        ensures
            r == self.index_spec(),
    {
        match self {
            TileType::Floor => 0,
            TileType::Wall => 1,
        }
    }

    pub open spec fn is_floor(self) -> bool {
        self == TileType::Floor
    }
}

/// The color a tile has when nothing has painted it.
pub open spec fn neutral_color() -> Color {
    (255u8, 255u8, 255u8)
}

/// One cell of the grid.
#[derive(Clone, Copy, Debug, PartialEq, Eq)]
pub struct TileInfo {
    pub tile_type: TileType,
    pub color: Color,
}

/// A floor tile of the neutral color.
pub open spec fn default_tile() -> TileInfo {
    TileInfo { tile_type: TileType::Floor, color: neutral_color() }
}

impl Default for TileInfo {
    fn default() -> (r: Self)
        ensures
            r == default_tile(),
    {
        TileInfo { tile_type: TileType::Floor, color: (255, 255, 255) }
    }
}

/// Width and height of the grid, in tiles.
#[derive(Clone, Copy, Debug, PartialEq, Eq, Structural)]
pub struct MapSize {
    pub width: u32,
    pub height: u32,
}

impl MapSize {
    pub fn new(width: u32, height: u32) -> (r: Self)
        ensures
            r.width == width,
            r.height == height,
    {
        MapSize { width, height }
    }

    /// Whether `p` names a tile of a grid of this size.
    pub open spec fn contains(self, p: MapPos) -> bool {
        p.x < self.width && p.y < self.height
    }

    /// Whether a grid of this size has at least one tile.
    pub open spec fn non_empty(self) -> bool {
        self.width >= 1 && self.height >= 1
    }
}

/// A host position: `x` to the right, `y` up, `(0, 0)` at the bottom left.
#[derive(Clone, Copy, Debug, PartialEq, Eq, Hash, Structural)]
pub struct MapPos {
    pub x: u32,
    pub y: u32,
}

impl MapPos {
    /// The nearest position inside a grid of the given size.
    pub open spec fn clamp_spec(self, size: MapSize) -> MapPos {
        MapPos {
            x: if self.x < size.width { self.x } else { (size.width - 1) as u32 },
            y: if self.y < size.height { self.y } else { (size.height - 1) as u32 },
        }
    }

    pub fn clamp(self, size: &MapSize) -> (r: MapPos)
        requires
            size.non_empty(),
        ensures
            r == self.clamp_spec(*size),
            size.contains(r),
    {
        MapPos {
            x: if self.x < size.width { self.x } else { size.width - 1 },
            y: if self.y < size.height { self.y } else { size.height - 1 },
        }
    }

    /// Index of the tile in a row-major list whose first row is the top one.
    pub open spec fn tile_index_spec(self, size: MapSize) -> int {
        (size.height - 1 - self.y) * size.width + self.x
    }

    /// Index of the tile at this position, clamped into the grid, in a
    /// row-major list whose first row is the top one.
    pub fn into_tile_index(self, size: &MapSize) -> (r: usize)
        requires
            size.non_empty(),
            size.width * size.height <= usize::MAX,
        ensures
            r == self.clamp_spec(*size).tile_index_spec(*size),
            r < size.width * size.height,
            size.contains(self) ==> (r as int) % (size.width as int) == self.x,
            size.contains(self) ==> size.height - 1 - (r as int) / (size.width as int) == self.y,
    {
        let pos = self.clamp(size);
        proof {
            lemma_tile_index_round_trip(pos, *size);
        }
        let row = (size.height - pos.y - 1) as usize;
        proof {
            lemma_index_in_grid(row as int, pos.x as int, size.width as int, size.height as int);
        }
        row * (size.width as usize) + pos.x as usize
    }

    /// The position of the tile at `index` in a row-major list whose first row
    /// is the top one.
    pub fn from_tile_index(index: usize, size: &MapSize) -> (r: MapPos)
        requires
            size.non_empty(),
            index < size.width * size.height,
        ensures
            r.x == (index as int) % (size.width as int),
            r.y == size.height - 1 - (index as int) / (size.width as int),
            size.contains(r),
            r.tile_index_spec(*size) == index,
    {
        let w = size.width as usize;
        let row = index / w;
        let col = index % w;
        proof {
            lemma_row_of_index(index as int, size.width as int, size.height as int);
        }
        MapPos { x: col as u32, y: size.height - 1 - row as u32 }
    }

    /// The position as a plugin sees it: `(column, row)`, row 0 at the top.
    pub open spec fn to_array_spec(self, size: MapSize) -> Pos {
        (self.x, (size.height - 1 - self.y) as u32)
    }

    pub fn to_array(self, size: &MapSize) -> (r: Pos)
        requires
            size.contains(self),
        ensures
            r == self.to_array_spec(*size),
    {
        (self.x, size.height - 1 - self.y)
    }

    /// The host position of a plugin position, if it lies in the grid.
    pub open spec fn from_array_spec(pos: Pos, size: MapSize) -> Option<MapPos> {
        if pos.0 < size.width && pos.1 < size.height {
            Some(MapPos { x: pos.0, y: (size.height - 1 - pos.1) as u32 })
        } else {
            None
        }
    }

    pub fn from_array(pos: Pos, size: &MapSize) -> (r: Option<MapPos>)
        ensures
            r == MapPos::from_array_spec(pos, *size),
    {
        if pos.0 < size.width && pos.1 < size.height {
            Some(MapPos { x: pos.0, y: size.height - 1 - pos.1 })
        } else {
            None
        }
    }

    /// Bottom-left corner of the tile on screen, in pixels.
    pub fn to_display(self) -> (r: (u64, u64))
        ensures
            r.0 == self.x * SPRITE_SIZE,
            r.1 == self.y * SPRITE_SIZE,
    {
        (self.x as u64 * SPRITE_SIZE as u64, self.y as u64 * SPRITE_SIZE as u64)
    }

    /// The tile under a point of the screen, given in whole pixels.
    pub fn from_display(px: u32, py: u32) -> (r: MapPos)
        ensures
            r.x == px / SPRITE_SIZE,
            r.y == py / SPRITE_SIZE,
    {
        MapPos { x: px / SPRITE_SIZE, y: py / SPRITE_SIZE }
    }
}

proof fn lemma_index_in_grid(row: int, col: int, w: int, h: int)
    requires
        0 <= row < h,
        0 <= col < w,
    ensures
        0 <= row * w + col < w * h,
{
    assert(row * w + col < w * h) by (nonlinear_arith)
        requires
            0 <= row < h,
            0 <= col < w,
    ;
    assert(0 <= row * w) by (nonlinear_arith)
        requires
            0 <= row,
            0 <= w,
    ;
}

proof fn lemma_row_of_index(index: int, w: int, h: int)
    requires
        w >= 1,
        0 <= index < w * h,
    ensures
        0 <= index / w < h,
        0 <= index % w < w,
        (index / w) * w + index % w == index,
{
    assert(0 <= index / w < h) by (nonlinear_arith)
        requires
            w >= 1,
            0 <= index < w * h,
    ;
    assert((index / w) * w + index % w == index) by (nonlinear_arith)
        requires
            w >= 1,
    ;
}

/// The grid, row by row: `self.0[y][x]` is the tile at `MapPos { x, y }`,
/// row 0 at the bottom.
#[derive(Clone, Debug)]
pub struct Grid(pub Vec<Vec<TileInfo>>);

impl View for Grid {
    type V = Seq<Seq<TileInfo>>;

    open spec fn view(&self) -> Seq<Seq<TileInfo>> {
        rows_view(&self.0)
    }
}

/// The rows of a vector of vectors, as sequences.
pub open spec fn rows_view<T>(v: &Vec<Vec<T>>) -> Seq<Seq<T>> {
    v@.map_values(|row: Vec<T>| row@)
}

/// `h` rows of `w` items each.
pub open spec fn has_size<T>(g: Seq<Seq<T>>, w: int, h: int) -> bool {
    g.len() == h && forall|y: int| 0 <= y < h ==> #[trigger] g[y].len() == w
}

/// A `w` by `h` grid of default tiles.
pub open spec fn blank(w: int, h: int) -> Seq<Seq<TileInfo>> {
    Seq::new(h as nat, |y: int| Seq::new(w as nat, |x: int| default_tile()))
}

/// A grid of `ow` by `oh` resized to `nw` by `nh`: the tiles that both sizes
/// share are kept, the others are default tiles.
pub open spec fn resized(g: Seq<Seq<TileInfo>>, ow: int, oh: int, nw: int, nh: int) -> Seq<
    Seq<TileInfo>,
> {
    Seq::new(
        nh as nat,
        |y: int| Seq::new(nw as nat, |x: int| if y < oh && x < ow { g[y][x] } else { default_tile() }),
    )
}

/// The grid holds every tile that a resize from `ow` by `oh` to `nw` by `nh`
/// keeps: at least the shared rows, each at least the shared width long.
pub open spec fn overlap_readable(g: Seq<Seq<TileInfo>>, ow: int, oh: int, nw: int, nh: int) -> bool {
    let rows = if oh < nh { oh } else { nh };
    let cols = if ow < nw { ow } else { nw };
    g.len() >= rows && forall|y: int| 0 <= y < rows ==> #[trigger] g[y].len() >= cols
}

/// What a plugin sees of a grid: one row of flags per row of tiles, the top
/// row first, `true` where the tile is floor.
pub open spec fn snapshot_of(g: Seq<Seq<TileInfo>>) -> Seq<Seq<bool>> {
    Seq::new(g.len(), |i: int| g[g.len() - 1 - i].map_values(|t: TileInfo| t.tile_type.is_floor()))
}

/// Whether the snapshot marks the tile at host position `p` as passable.
pub open spec fn snapshot_passable(s: Seq<Seq<bool>>, size: MapSize, p: MapPos) -> bool {
    s[p.to_array_spec(size).1 as int][p.to_array_spec(size).0 as int]
}

/// The grid with every tile's color set back to the neutral one.
pub open spec fn uncolored(g: Seq<Seq<TileInfo>>) -> Seq<Seq<TileInfo>> {
    Seq::new(
        g.len(),
        |y: int| g[y].map_values(|t: TileInfo| TileInfo { tile_type: t.tile_type, color: neutral_color() }),
    )
}

/// The grid with the tile at `p` replaced.
pub open spec fn with_tile(g: Seq<Seq<TileInfo>>, p: MapPos, t: TileInfo) -> Seq<Seq<TileInfo>> {
    g.update(p.y as int, g[p.y as int].update(p.x as int, t))
}

impl Grid {
    /// The grid has the given size.
    pub open spec fn wf(&self, size: MapSize) -> bool {
        has_size(self@, size.width as int, size.height as int)
    }

    /// A grid of the given size, all default tiles.
    pub fn new(size: &MapSize) -> (r: Self)
        ensures
            r@ == blank(size.width as int, size.height as int),
            r.wf(*size),
    {
        let mut rows: Vec<Vec<TileInfo>> = Vec::new();
        let mut y: u32 = 0;
        while y < size.height
            invariant
                y <= size.height,
                rows_view(&rows) =~= blank(size.width as int, y as int),
            decreases size.height - y,
        {
            let mut row: Vec<TileInfo> = Vec::new();
            let mut x: u32 = 0;
            while x < size.width
                invariant
                    x <= size.width,
                    row@ =~= Seq::new(x as nat, |i: int| default_tile()),
                decreases size.width - x,
            {
                row.push(TileInfo::default());
                x = x + 1;
            }
            let ghost before = rows_view(&rows);
            rows.push(row);
            assert(rows_view(&rows) =~= before.push(row@));
            y = y + 1;
        }
        let r = Grid(rows);
        assert(r.wf(*size));
        r
    }

    /// The grid resized from `old_size` to `new_size`: the tiles that both
    /// sizes share keep their place, the new ones are default tiles.
    pub fn new_from_old(old: &Grid, old_size: &MapSize, new_size: &MapSize) -> (r: Self)
        requires
            overlap_readable(old@, old_size.width as int, old_size.height as int, new_size.width as int, new_size.height as int),
        ensures
            r@ == resized(
                old@,
                old_size.width as int,
                old_size.height as int,
                new_size.width as int,
                new_size.height as int,
            ),
            r.wf(*new_size),
    {
        let ghost target = resized(
            old@,
            old_size.width as int,
            old_size.height as int,
            new_size.width as int,
            new_size.height as int,
        );
        let mut rows: Vec<Vec<TileInfo>> = Vec::with_capacity(new_size.height as usize);
        let mut y: u32 = 0;
        while y < new_size.height
            invariant
                y <= new_size.height,
                overlap_readable(old@, old_size.width as int, old_size.height as int, new_size.width as int, new_size.height as int),
                target == resized(
                    old@,
                    old_size.width as int,
                    old_size.height as int,
                    new_size.width as int,
                    new_size.height as int,
                ),
                rows_view(&rows) =~= target.take(y as int),
            decreases new_size.height - y,
        {
            let mut row: Vec<TileInfo> = Vec::with_capacity(new_size.width as usize);
            let mut x: u32 = 0;
            while x < new_size.width
                invariant
                    x <= new_size.width,
                    y < new_size.height,
                    overlap_readable(old@, old_size.width as int, old_size.height as int, new_size.width as int, new_size.height as int),
                    target == resized(
                        old@,
                        old_size.width as int,
                        old_size.height as int,
                        new_size.width as int,
                        new_size.height as int,
                    ),
                    row@ =~= target[y as int].take(x as int),
                decreases new_size.width - x,
            {
                if y < old_size.height && x < old_size.width {
                    assert(old.0@[y as int]@ == old@[y as int]);
                    row.push(old.0[y as usize][x as usize]);
                } else {
                    row.push(TileInfo::default());
                }
                x = x + 1;
            }
            assert(row@ =~= target[y as int]);
            let ghost before = rows_view(&rows);
            rows.push(row);
            assert(rows_view(&rows) =~= before.push(row@));
            assert(target.take(y as int).push(target[y as int]) =~= target.take(y + 1));
            y = y + 1;
        }
        assert(target.take(new_size.height as int) =~= target);
        Grid(rows)
    }

    /// The snapshot handed to a plugin: the rows top first, `true` for floor.
    pub fn to_pathfinding_map(&self) -> (r: Vec<Vec<bool>>)
        ensures
            rows_view(&r) == snapshot_of(self@),
    {
        let h = self.0.len();
        let mut rows: Vec<Vec<bool>> = Vec::with_capacity(h);
        let mut i: usize = 0;
        while i < h
            invariant
                h == self@.len(),
                i <= h,
                rows_view(&rows) =~= snapshot_of(self@).take(i as int),
            decreases h - i,
        {
            let src = &self.0[h - 1 - i];
            let w = src.len();
            let mut row: Vec<bool> = Vec::with_capacity(w);
            let mut x: usize = 0;
            while x < w
                invariant
                    i < h,
                    h == self@.len(),
                    src@ == self@[h - 1 - i],
                    w == src@.len(),
                    x <= w,
                    row@ =~= snapshot_of(self@)[i as int].take(x as int),
                decreases w - x,
            {
                row.push(matches!(src[x].tile_type, TileType::Floor));
                x = x + 1;
            }
            assert(row@ =~= snapshot_of(self@)[i as int]);
            let ghost before = rows_view(&rows);
            rows.push(row);
            assert(rows_view(&rows) =~= before.push(row@));
            assert(snapshot_of(self@).take(i as int).push(snapshot_of(self@)[i as int])
                =~= snapshot_of(self@).take(i + 1));
            i = i + 1;
        }
        assert(snapshot_of(self@).take(h as int) =~= snapshot_of(self@));
        rows
    }

    /// The tile at `pos`.
    pub fn get_tile(&self, pos: &MapPos) -> (r: &TileInfo)
        requires
            pos.y < self@.len(),
            pos.x < self@[pos.y as int].len(),
        ensures
            *r == self@[pos.y as int][pos.x as int],
    {
        &self.0[pos.y as usize][pos.x as usize]
    }

    /// The tile at `pos`, to change in place.
    pub fn get_tile_mut(&mut self, pos: &MapPos) -> (r: &mut TileInfo)
        requires
            pos.y < old(self)@.len(),
            pos.x < old(self)@[pos.y as int].len(),
        ensures
            *r == old(self)@[pos.y as int][pos.x as int],
            final(self)@ == with_tile(old(self)@, *pos, *final(r)),
    {
        &mut self.0[pos.y as usize][pos.x as usize]
    }

    /// Whether the grid has the given size.
    pub fn has_size(&self, size: &MapSize) -> (r: bool)
        ensures
            r == self.wf(*size),
    {
        if self.0.len() != size.height as usize {
            return false;
        }
        let h = self.0.len();
        let mut y: usize = 0;
        while y < h
            invariant
                h == self@.len(),
                h == size.height,
                y <= h,
                forall|k: int| 0 <= k < y ==> #[trigger] self@[k].len() == size.width,
            decreases h - y,
        {
            assert(self@[y as int] == self.0@[y as int]@);
            if self.0[y].len() != size.width as usize {
                assert(self@[y as int].len() != size.width);
                return false;
            }
            y = y + 1;
        }
        true
    }

    /// Every tile back to the neutral color; tile kinds stay.
    pub fn clear_colors(&mut self)
        ensures
            final(self)@ == uncolored(old(self)@),
    {
        let h = self.0.len();
        let mut rows: Vec<Vec<TileInfo>> = Vec::with_capacity(h);
        let mut y: usize = 0;
        while y < h
            invariant
                h == self@.len(),
                y <= h,
                rows_view(&rows) =~= uncolored(self@).take(y as int),
            decreases h - y,
        {
            let src = &self.0[y];
            let w = src.len();
            let mut row: Vec<TileInfo> = Vec::with_capacity(w);
            let mut x: usize = 0;
            while x < w
                invariant
                    y < h,
                    h == self@.len(),
                    src@ == self@[y as int],
                    w == src@.len(),
                    x <= w,
                    row@ =~= uncolored(self@)[y as int].take(x as int),
                decreases w - x,
            {
                row.push(TileInfo { tile_type: src[x].tile_type, color: (255, 255, 255) });
                x = x + 1;
            }
            assert(row@ =~= uncolored(self@)[y as int]);
            let ghost before = rows_view(&rows);
            rows.push(row);
            assert(rows_view(&rows) =~= before.push(row@));
            assert(uncolored(self@).take(y as int).push(uncolored(self@)[y as int])
                =~= uncolored(self@).take(y + 1));
            y = y + 1;
        }
        assert(uncolored(self@).take(h as int) =~= uncolored(self@));
        self.0 = rows;
    }

    /// Sets the kind of the tile nearest to `pos`; its color stays.
    pub fn place_tile(&mut self, size: &MapSize, pos: MapPos, tile_type: TileType)
        requires
            old(self).wf(*size),
            size.non_empty(),
        ensures
            final(self)@ == with_tile(
                old(self)@,
                pos.clamp_spec(*size),
                TileInfo {
                    tile_type,
                    color: old(self)@[pos.clamp_spec(*size).y as int][pos.clamp_spec(
                        *size,
                    ).x as int].color,
                },
            ),
            final(self).wf(*size),
    {
        let p = pos.clamp(size);
        let tile = self.get_tile_mut(&p);
        tile.tile_type = tile_type;
    }

    /// Turns the tile under each goal into floor, keeping its color.
    pub fn fix_goals_floor(&mut self, goals: &Vec<MapPos>)
        requires
            forall|i: int|
                0 <= i < goals@.len() ==> #[trigger] goals@[i].y < old(self)@.len()
                    && goals@[i].x < old(self)@[goals@[i].y as int].len(),
        ensures
            final(self)@ == floored(old(self)@, goals@),
    {
        let n = goals.len();
        let mut i: usize = 0;
        while i < n
            invariant
                n == goals@.len(),
                i <= n,
                self@ == floored(old(self)@, goals@.take(i as int)),
                self@.len() == old(self)@.len(),
                forall|y: int| 0 <= y < self@.len() ==> #[trigger] self@[y].len() == old(self)@[y].len(),
                forall|k: int|
                    0 <= k < goals@.len() ==> #[trigger] goals@[k].y < old(self)@.len()
                        && goals@[k].x < old(self)@[goals@[k].y as int].len(),
            decreases n - i,
        {
            let g = goals[i];
            assert(goals@.take(i + 1).drop_last() =~= goals@.take(i as int));
            if matches!(self.get_tile(&g).tile_type, TileType::Wall) {
                let tile = self.get_tile_mut(&g);
                tile.tile_type = TileType::Floor;
            } else {
                let ghost t = self@[g.y as int][g.x as int];
                assert(TileInfo { tile_type: TileType::Floor, color: t.color } == t);
                assert(self@[g.y as int].update(g.x as int, t) =~= self@[g.y as int]);
                assert(self@.update(g.y as int, self@[g.y as int]) =~= self@);
            }
            i = i + 1;
        }
        assert(goals@.take(n as int) =~= goals@);
    }

    /// The tiles as the renderer wants them: the top row first, each tile as
    /// its picture index and color.
    pub fn to_tilemap(&self) -> (r: Vec<(u16, Color)>)
        ensures
            r@ == tilemap_of(self@),
    {
        let h = self.0.len();
        let mut out: Vec<(u16, Color)> = Vec::new();
        let mut i: usize = 0;
        while i < h
            invariant
                h == self@.len(),
                i <= h,
                out@ == flatten_rows(data_rows(self@).take(i as int)),
            decreases h - i,
        {
            let src = &self.0[h - 1 - i];
            let w = src.len();
            let mut x: usize = 0;
            let ghost start = out@;
            while x < w
                invariant
                    i < h,
                    h == self@.len(),
                    src@ == self@[h - 1 - i],
                    w == src@.len(),
                    x <= w,
                    out@ =~= start + data_rows(self@)[i as int].take(x as int),
                decreases w - x,
            {
                let t = src[x];
                out.push((t.tile_type.to_index(), t.color));
                x = x + 1;
            }
            assert(data_rows(self@)[i as int].take(w as int) =~= data_rows(self@)[i as int]);
            assert(data_rows(self@).take(i + 1).drop_last() =~= data_rows(self@).take(i as int));
            i = i + 1;
        }
        assert(data_rows(self@).take(h as int) =~= data_rows(self@));
        out
    }
}

/// A goal's tile turned into floor, its color kept.
pub open spec fn floor_at(g: Seq<Seq<TileInfo>>, p: MapPos) -> Seq<Seq<TileInfo>> {
    with_tile(g, p, TileInfo { tile_type: TileType::Floor, color: g[p.y as int][p.x as int].color })
}

/// The grid with the tile under each goal turned into floor, in order.
pub open spec fn floored(g: Seq<Seq<TileInfo>>, goals: Seq<MapPos>) -> Seq<Seq<TileInfo>>
    decreases goals.len(),
{
    if goals.len() == 0 {
        g
    } else {
        floor_at(floored(g, goals.drop_last()), goals.last())
    }
}

/// A tile as the renderer wants it: picture index and color.
pub open spec fn tile_data(t: TileInfo) -> (u16, Color) {
    (t.tile_type.index_spec(), t.color)
}

/// The rows of the grid as render data, the top row first.
pub open spec fn data_rows(g: Seq<Seq<TileInfo>>) -> Seq<Seq<(u16, Color)>> {
    Seq::new(g.len(), |i: int| g[g.len() - 1 - i].map_values(|t: TileInfo| tile_data(t)))
}

/// The rows one after the other.
pub open spec fn flatten_rows<T>(rows: Seq<Seq<T>>) -> Seq<T>
    decreases rows.len(),
{
    if rows.len() == 0 {
        Seq::empty()
    } else {
        flatten_rows(rows.drop_last()) + rows.last()
    }
}

/// The render data of the whole grid.
pub open spec fn tilemap_of(g: Seq<Seq<TileInfo>>) -> Seq<(u16, Color)> {
    flatten_rows(data_rows(g))
}

/// Where a dragged goal lands when the cursor is over `target`: the nearest
/// tile of the grid, unless another goal already stands on `target`, in
/// which case it stays where it is (`None`).
pub fn drag_goal(goals: &Vec<MapPos>, dragged: usize, target: MapPos, size: &MapSize) -> (r: Option<
    MapPos,
>)
    requires
        size.non_empty(),
    ensures
        r == if exists|i: int| 0 <= i < goals@.len() && i != dragged && #[trigger] goals@[i] == target {
            None
        } else {
            Some(target.clamp_spec(*size))
        },
{
    let n = goals.len();
    let mut i: usize = 0;
    while i < n
        invariant
            n == goals@.len(),
            i <= n,
            forall|k: int| 0 <= k < i && k != dragged ==> #[trigger] goals@[k] != target,
        decreases n - i,
    {
        if i != dragged && goals[i] == target {
            return None;
        }
        i = i + 1;
    }
    Some(target.clamp(size))
}

/// Whether a snapshot handed to a plugin marks the tile at host position
/// `pos` as passable: the plugin's rows run top to bottom.
pub fn is_passable(snapshot: &Vec<Vec<bool>>, size: &MapSize, pos: MapPos) -> (r: bool)
    requires
        has_size(rows_view(snapshot), size.width as int, size.height as int),
        size.contains(pos),
    ensures
        r == snapshot_passable(rows_view(snapshot), *size, pos),
{
    let (col, row) = pos.to_array(size);
    assert(rows_view(snapshot)[row as int] == snapshot@[row as int]@);
    snapshot[row as usize][col as usize]
}

/// Turning a grid into the plugin's snapshot and reading a host position
/// back through the coordinate flip gives the tile's own passability, for
/// every tile.
pub proof fn lemma_snapshot_round_trip(g: Seq<Seq<TileInfo>>, size: MapSize)
    requires
        has_size(g, size.width as int, size.height as int),
    ensures
        has_size(snapshot_of(g), size.width as int, size.height as int),
        forall|p: MapPos|
            size.contains(p) ==> #[trigger] snapshot_passable(snapshot_of(g), size, p)
                == g[p.y as int][p.x as int].tile_type.is_floor(),
{
    let s = snapshot_of(g);
    assert forall|y: int| 0 <= y < size.height implies #[trigger] s[y].len() == size.width by {
        assert(g[g.len() - 1 - y].len() == size.width);
    }
    assert forall|p: MapPos| size.contains(p) implies #[trigger] snapshot_passable(s, size, p)
        == g[p.y as int][p.x as int].tile_type.is_floor() by {
        let row = size.height - 1 - p.y;
        assert(g.len() - 1 - row == p.y);
        assert(g[p.y as int].len() == size.width);
    }
}

/// A host position inside the grid goes to the plugin's coordinates and back
/// unchanged, and so does a plugin position inside the grid.
pub proof fn lemma_array_round_trip(p: MapPos, q: Pos, size: MapSize)
    ensures
        size.contains(p) ==> MapPos::from_array_spec(p.to_array_spec(size), size) == Some(p),
        MapPos::from_array_spec(q, size) matches Some(m) ==> size.contains(m) && m.to_array_spec(size)
            == q,
{
}

/// A position inside the grid goes to its tile index and back unchanged.
pub proof fn lemma_tile_index_round_trip(p: MapPos, size: MapSize)
    requires
        size.contains(p),
    ensures
        0 <= p.tile_index_spec(size) < size.width * size.height,
        p.tile_index_spec(size) / (size.width as int) == size.height - 1 - p.y,
        p.tile_index_spec(size) % (size.width as int) == p.x,
{
    let w = size.width as int;
    let row = size.height - 1 - p.y;
    lemma_index_in_grid(row, p.x as int, w, size.height as int);
    lemma_fundamental_div_mod_converse_div(p.tile_index_spec(size), w, row, p.x as int);
    lemma_fundamental_div_mod_converse_mod(p.tile_index_spec(size), w, row, p.x as int);
}

/// Resizing a grid and resizing it back keeps every tile that both sizes
/// share; every other tile is a default tile.
pub proof fn lemma_resize_round_trip(g: Seq<Seq<TileInfo>>, w: int, h: int, w2: int, h2: int)
    requires
        has_size(g, w, h),
        w >= 0,
        w2 >= 0,
        h2 >= 0,
    ensures
        has_size(resized(resized(g, w, h, w2, h2), w2, h2, w, h), w, h),
        forall|x: int, y: int|
            0 <= x < w && 0 <= y < h ==> #[trigger] resized(resized(g, w, h, w2, h2), w2, h2, w, h)[y][x]
                == if x < w2 && y < h2 {
                g[y][x]
            } else {
                default_tile()
            },
{
    let back = resized(resized(g, w, h, w2, h2), w2, h2, w, h);
    assert forall|y: int| 0 <= y < h implies #[trigger] back[y].len() == w by {}
}

/// Clamping twice gives what clamping once gives, and a clamped position lies
/// in the grid.
pub proof fn lemma_clamp_idempotent(p: MapPos, size: MapSize)
    requires
        size.non_empty(),
    ensures
        p.clamp_spec(size).clamp_spec(size) == p.clamp_spec(size),
        size.contains(p.clamp_spec(size)),
{
}

proof fn lemma_flatten_uniform<T>(rows: Seq<Seq<T>>, w: int)
    requires
        w >= 0,
        forall|i: int| 0 <= i < rows.len() ==> #[trigger] rows[i].len() == w,
    ensures
        flatten_rows(rows).len() == rows.len() * w,
        forall|k: int, x: int|
            0 <= k < rows.len() && 0 <= x < w ==> flatten_rows(rows)[#[trigger] (k * w + x)]
                == #[trigger] rows[k][x],
    decreases rows.len(),
{
    if rows.len() > 0 {
        let n = rows.len() as int;
        let front = rows.drop_last();
        lemma_flatten_uniform(front, w);
        assert((n - 1) * w + w == n * w) by (nonlinear_arith);
        assert forall|k: int, x: int| 0 <= k < rows.len() && 0 <= x < w implies flatten_rows(
            rows,
        )[#[trigger] (k * w + x)] == #[trigger] rows[k][x] by {
            if k < n - 1 {
                assert(k * w + x < (n - 1) * w) by (nonlinear_arith)
                    requires
                        0 <= k < n - 1,
                        0 <= x < w,
                ;
                assert(front[k] == rows[k]);
            } else {
                assert(k * w + x == (n - 1) * w + x);
            }
        }
    }
}

/// In the render data of a grid, the tile at a host position stands at that
/// position's tile index.
pub proof fn lemma_tilemap_index(g: Seq<Seq<TileInfo>>, size: MapSize, p: MapPos)
    requires
        has_size(g, size.width as int, size.height as int),
        size.contains(p),
    ensures
        tilemap_of(g).len() == size.width * size.height,
        tilemap_of(g)[p.tile_index_spec(size)] == tile_data(g[p.y as int][p.x as int]),
{
    let w = size.width as int;
    let h = size.height as int;
    let rows = data_rows(g);
    assert forall|i: int| 0 <= i < rows.len() implies #[trigger] rows[i].len() == w by {
        assert(g[g.len() - 1 - i].len() == w);
    }
    lemma_flatten_uniform(rows, w);
    assert(h * w == w * h) by (nonlinear_arith);
    let row = h - 1 - p.y;
    assert(rows[row][p.x as int] == tile_data(g[p.y as int][p.x as int]));
    assert(p.tile_index_spec(size) == row * w + p.x);
}

} // verus!
