use vstd::prelude::*;

use crate::common::Direction;

verus! {

/// An integer grid coordinate; `y` grows downwards, row by row.
#[derive(Clone, Copy, Debug, PartialEq, Eq, Hash, Structural)]
pub struct TilePos {
    pub x: i32,
    pub y: i32,
}

/// Column offset of one step in `d`.
pub open spec fn step_x(d: Direction) -> int {
    match d {
        Direction::Left => -1,
        Direction::Right => 1,
        _ => 0,
    }
}

/// Row offset of one step in `d`.
pub open spec fn step_y(d: Direction) -> int {
    match d {
        Direction::Up => -1,
        Direction::Down => 1,
        _ => 0,
    }
}

pub open spec fn fits_i32(v: int) -> bool {
    -0x8000_0000 <= v <= 0x7fff_ffff
}

pub open spec fn abs_int(v: int) -> int {
    if v < 0 {
        -v
    } else {
        v
    }
}

impl TilePos {
    /// The neighbouring coordinate in `d` is representable.
    pub open spec fn can_translate(self, d: Direction) -> bool {
        fits_i32(self.x + step_x(d)) && fits_i32(self.y + step_y(d))
    }

    pub open spec fn translated(self, d: Direction) -> TilePos {
        TilePos { x: (self.x + step_x(d)) as i32, y: (self.y + step_y(d)) as i32 }
    }

    /// Squared Euclidean distance: the one metric used to rank tiles.
    pub open spec fn dist_spec(self, other: TilePos) -> int {
        (self.x - other.x) * (self.x - other.x) + (self.y - other.y) * (self.y - other.y)
    }

    /// Equal, or one step apart along a row or a column.
    pub open spec fn adjacent_or_equal(self, other: TilePos) -> bool {
        abs_int(self.x - other.x) + abs_int(self.y - other.y) <= 1
    }

    /// The adjacent coordinate one step in `d`.
    pub fn translate(&self, d: &Direction) -> (r: TilePos)
        requires
            self.can_translate(*d),
        ensures
            r == self.translated(*d),
    {
        match d {
            Direction::Up => TilePos { x: self.x, y: self.y - 1 },
            Direction::Down => TilePos { x: self.x, y: self.y + 1 },
            Direction::Left => TilePos { x: self.x - 1, y: self.y },
            Direction::Right => TilePos { x: self.x + 1, y: self.y },
        }
    }

    /// The adjacent coordinate one step in `d`, or `None` where it leaves the `i32` range.
    pub fn checked_translate(&self, d: &Direction) -> (r: Option<TilePos>)
        ensures
            r == (if self.can_translate(*d) {
                Some(self.translated(*d))
            } else {
                None
            }),
    {
        let ok = match d {
            Direction::Up => self.y > i32::MIN,
            Direction::Down => self.y < i32::MAX,
            Direction::Left => self.x > i32::MIN,
            Direction::Right => self.x < i32::MAX,
        };
        if ok {
            Some(self.translate(d))
        } else {
            None
        }
    }

    /// Squared Euclidean distance to `other`.
    pub fn dist_to(&self, other: &TilePos) -> (r: u128)
        ensures
            r == self.dist_spec(*other),
    {
        let dx: i128 = self.x as i128 - other.x as i128;
        let dy: i128 = self.y as i128 - other.y as i128;
        assert(0 <= dx * dx <= 0x1_0000_0000 * 0x1_0000_0000) by (nonlinear_arith)
            requires
                -0x1_0000_0000 <= dx <= 0x1_0000_0000,
        ;
        assert(0 <= dy * dy <= 0x1_0000_0000 * 0x1_0000_0000) by (nonlinear_arith)
            requires
                -0x1_0000_0000 <= dy <= 0x1_0000_0000,
        ;
        (dx * dx + dy * dy) as u128
    }
}

/// The corner a wall piece turns at.
#[derive(Clone, Copy, Debug, PartialEq, Eq, Structural)]
pub enum Corner {
    TopRight,
    BottomRight,
    BottomLeft,
    TopLeft,
}

/// The drawn shape of a wall piece; it plays no part in navigation.
#[derive(Clone, Copy, Debug, PartialEq, Eq, Structural)]
pub enum WallType {
    Straight(Direction),
    DoubleStraight(Direction),
    DoubleCorner(Corner),
    VerticalLineInnerCorner(Corner),
    HorizontalLineInnerCornerTopRight,
    HorizontalLineInnerCornerTopLeft,
    OuterCorner(Corner),
    InnerCorner(Corner),
    NestCorner(Corner),
    Inner,
}

/// What a cell of the maze holds.
#[derive(Clone, Copy, Debug, PartialEq, Eq, Structural)]
pub enum MapType {
    Empty,
    Wall(WallType),
    /// The door of the pursuers' nest: closed to the player, and to pursuers heading `Down`.
    GhostOnlyBarrier,
}

/// The cell at `p`, where `p` lies inside the authored rows.
pub open spec fn cell(g: Seq<Seq<MapType>>, p: TilePos) -> Option<MapType> {
    if 0 <= p.y < g.len() && 0 <= p.x < g[p.y as int].len() {
        Some(g[p.y as int][p.x as int])
    } else {
        None
    }
}

/// Impassable terrain: a wall, or anything outside the maze.
pub open spec fn is_wall_spec(g: Seq<Seq<MapType>>, p: TilePos) -> bool {
    match cell(g, p) {
        Some(MapType::Wall(_)) => true,
        None => true,
        _ => false,
    }
}

/// The entry for the neighbour of `p` in `d`, if that neighbour is not a wall.
pub open spec fn neighbour_entry(g: Seq<Seq<MapType>>, p: TilePos, d: Direction) -> Seq<
    (TilePos, Direction),
> {
    if p.can_translate(d) && !is_wall_spec(g, p.translated(d)) {
        seq![(p.translated(d), d)]
    } else {
        Seq::empty()
    }
}

/// The non-wall neighbours of `p` with the heading that reaches each, in the order Up, Left, Down, Right.
pub open spec fn open_neighbours(g: Seq<Seq<MapType>>, p: TilePos) -> Seq<(TilePos, Direction)> {
    neighbour_entry(g, p, Direction::Up) + neighbour_entry(g, p, Direction::Left)
        + neighbour_entry(g, p, Direction::Down) + neighbour_entry(g, p, Direction::Right)
}

/// One step in any direction lands next to the starting tile.
pub proof fn lemma_step_adjacent(p: TilePos, d: Direction)
    requires
        p.can_translate(d),
    ensures
        p.adjacent_or_equal(p.translated(d)),
{
}

/// Every open neighbour of `p` lies one step from `p` in the heading listed with it,
/// and is no wall.
pub proof fn lemma_open_neighbour_is_step(g: Seq<Seq<MapType>>, p: TilePos, e: (TilePos, Direction))
    requires
        open_neighbours(g, p).contains(e),
    ensures
        p.can_translate(e.1),
        e.0 == p.translated(e.1),
        !is_wall_spec(g, e.0),
        p.adjacent_or_equal(e.0),
{
    let u = neighbour_entry(g, p, Direction::Up);
    let l = neighbour_entry(g, p, Direction::Left);
    let d = neighbour_entry(g, p, Direction::Down);
    let r = neighbour_entry(g, p, Direction::Right);
    let s = open_neighbours(g, p);
    let i = choose|i: int| 0 <= i < s.len() && s[i] == e;
    if i < u.len() {
        assert(s[i] == u[i]);
    } else if i < u.len() + l.len() {
        assert(s[i] == l[i - u.len()]);
    } else if i < u.len() + l.len() + d.len() {
        assert(s[i] == d[i - u.len() - l.len()]);
    } else {
        assert(s[i] == r[i - u.len() - l.len() - d.len()]);
    }
    lemma_step_adjacent(p, e.1);
}

/// A passable tile from which no move is possible: a fault in the authored maze.
pub open spec fn isolated(g: Seq<Seq<MapType>>, p: TilePos) -> bool {
    !is_wall_spec(g, p) && open_neighbours(g, p).len() == 0
}

/// A lookup of a position outside the maze.
#[derive(Clone, Copy, Debug, PartialEq, Eq, Structural)]
pub struct OutOfBounds {
    pub pos: TilePos,
}

/// The maze: rows of cells, fixed once built.
pub struct Maze {
    rows: Vec<Vec<MapType>>,
}

impl View for Maze {
    type V = Seq<Seq<MapType>>;

    closed spec fn view(&self) -> Seq<Seq<MapType>> {
        self.rows@.map_values(|r: Vec<MapType>| r@)
    }
}

impl Maze {
    /// A maze with the given rows, the first row at `y == 0`.
    pub fn new(rows: Vec<Vec<MapType>>) -> (r: Maze)
        ensures
            r@ == rows@.map_values(|r: Vec<MapType>| r@),
    {
        Maze { rows }
    }

    /// The number of rows.
    pub fn height(&self) -> (r: usize)
        ensures
            r == self@.len(),
    {
        self.rows.len()
    }

    /// The classification of the cell at `pos`.
    pub fn get_at(&self, pos: &TilePos) -> (r: Result<MapType, OutOfBounds>)
        ensures
            r == (match cell(self@, *pos) {
                Some(k) => Ok(k),
                None => Err(OutOfBounds { pos: *pos }),
            }),
    {
        if pos.y < 0 || pos.y as usize >= self.rows.len() {
            return Err(OutOfBounds { pos: *pos });
        }
        let row = &self.rows[pos.y as usize];
        if pos.x < 0 || pos.x as usize >= row.len() {
            return Err(OutOfBounds { pos: *pos });
        }
        Ok(row[pos.x as usize])
    }

    /// Whether `pos` is impassable terrain; positions outside the maze are.
    pub fn is_wall(&self, pos: &TilePos) -> (r: bool)
        ensures
            r == is_wall_spec(self@, *pos),
    {
        match self.get_at(pos) {
            Ok(MapType::Wall(_)) => true,
            Ok(_) => false,
            Err(_) => true,
        }
    }

    fn push_if_open(&self, pos: &TilePos, d: Direction, out: &mut Vec<(TilePos, Direction)>)
        ensures
            final(out)@ == old(out)@ + neighbour_entry(self@, *pos, d),
    {
        match pos.checked_translate(&d) {
            Some(n) => {
                if !self.is_wall(&n) {
                    out.push((n, d));
                    assert(final(out)@ =~= old(out)@ + neighbour_entry(self@, *pos, d));
                } else {
                    assert(old(out)@ =~= old(out)@ + neighbour_entry(self@, *pos, d));
                }
            },
            None => {
                assert(old(out)@ =~= old(out)@ + neighbour_entry(self@, *pos, d));
            },
        }
    }

    /// A passable tile without any open neighbour, if the maze has one; the first in
    /// row-major order is reported. A maze meant for play has none.
    pub fn find_isolated_tile(&self) -> (r: Option<TilePos>)
        ensures
            r is None <==> forall|p: TilePos| !#[trigger] isolated(self@, p),
            r matches Some(p) ==> isolated(self@, p),
    {
        let mut y: usize = 0;
        while y < self.rows.len() && y <= i32::MAX as usize
            invariant
                forall|p: TilePos| #[trigger] isolated(self@, p) ==> p.y >= y,
            decreases self.rows.len() - y,
        {
            let mut x: usize = 0;
            while x < self.rows[y].len() && x <= i32::MAX as usize
                invariant
                    y < self.rows.len(),
                    y <= i32::MAX,
                    forall|p: TilePos| #[trigger] isolated(self@, p) ==> p.y > y || (p.y == y && p.x >= x),
                decreases self.rows[y as int].len() - x,
            {
                let pos = TilePos { x: x as i32, y: y as i32 };
                if !self.is_wall(&pos) && self.get_empty_neighbours(&pos).len() == 0 {
                    assert(isolated(self@, pos));
                    return Some(pos);
                }
                x += 1;
            }
            assert forall|p: TilePos| #[trigger] isolated(self@, p) implies p.y >= y + 1 by {
                if p.y == y {
                    assert(self@[y as int] == self.rows@[y as int]@);
                }
            }
            y += 1;
        }
        assert forall|p: TilePos| !#[trigger] isolated(self@, p) by {
            if isolated(self@, p) {
                assert(self@.len() == self.rows.len());
            }
        }
        None
    }

    /// The non-wall neighbours of `pos`, each with the heading that reaches it.
    pub fn get_empty_neighbours(&self, pos: &TilePos) -> (r: Vec<(TilePos, Direction)>)
        ensures
            r@ == open_neighbours(self@, *pos),
    {
        let mut out: Vec<(TilePos, Direction)> = Vec::new();
        self.push_if_open(pos, Direction::Up, &mut out);
        self.push_if_open(pos, Direction::Left, &mut out);
        self.push_if_open(pos, Direction::Down, &mut out);
        self.push_if_open(pos, Direction::Right, &mut out);
        assert(out@ =~= open_neighbours(self@, *pos));
        out
    }
}

} // verus!
