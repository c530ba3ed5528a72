//! The active tetrimino: piece identities, rotation states, movement
//! directions, and the `Block` itself.

use vstd::prelude::*;

use crate::field::Field;
use crate::rotation_system::RotationSystem;

verus! {

/// The identifier for a particular piece kind.
///
/// `Empty` is a sentinel used for empty field cells; it never names an
/// active piece.
#[derive(Clone, Copy, Debug, Hash, PartialEq, Eq, Structural)]
pub enum Id {
    I,
    T,
    L,
    J,
    S,
    Z,
    O,
    Empty,
}

impl Id {
    /// The small-integer index of this identity, in declaration order.
    pub open spec fn index_spec(self) -> int {
        match self {
            Id::I => 0,
            Id::T => 1,
            Id::L => 2,
            Id::J => 3,
            Id::S => 4,
            Id::Z => 5,
            Id::O => 6,
            Id::Empty => 7,
        }
    }

    /// Convert this identity to its small-integer index.
    pub fn to_index(self) -> (r: usize)
        ensures
            r == self.index_spec(),
    {
        match self {
            Id::I => 0,
            Id::T => 1,
            Id::L => 2,
            Id::J => 3,
            Id::S => 4,
            Id::Z => 5,
            Id::O => 6,
            Id::Empty => 7,
        }
    }

    /// Recover an identity from its index; out-of-range values are refused.
    pub fn from_index(v: usize) -> (r: Option<Id>)
        ensures
            v < 8 ==> (r matches Some(id) && id.index_spec() == v),
            v >= 8 ==> r is None,
    {
        match v {
            0 => Some(Id::I),
            1 => Some(Id::T),
            2 => Some(Id::L),
            3 => Some(Id::J),
            4 => Some(Id::S),
            5 => Some(Id::Z),
            6 => Some(Id::O),
            7 => Some(Id::Empty),
            _ => Option::None,
        }
    }

    /// The sequence of the seven real piece identities, in index order.
    pub open spec fn variants_spec() -> Seq<Id> {
        seq![Id::I, Id::T, Id::L, Id::J, Id::S, Id::Z, Id::O]
    }

    /// Returns all `Id` variants that name a real piece.
    ///
    /// This does not return the `Empty` variant.
    pub fn variants() -> (r: Vec<Id>)
        ensures
            r@ == Id::variants_spec(),
    {
        let r = vec![Id::I, Id::T, Id::L, Id::J, Id::S, Id::Z, Id::O];
        proof {
            assert(r@ =~= Id::variants_spec());
        }
        r
    }
}

/// A rotation state, in clockwise 90-degree increments.
///
/// The same values also describe a relative rotation: how far a block
/// should turn from where it stands now.
#[derive(Clone, Copy, Debug, Hash, PartialEq, Eq, Structural)]
pub enum Rotation {
    R0,
    R90,
    R180,
    R270,
}

impl Rotation {
    /// The small-integer index of this rotation, in quarter turns.
    pub open spec fn index_spec(self) -> int {
        match self {
            Rotation::R0 => 0,
            Rotation::R90 => 1,
            Rotation::R180 => 2,
            Rotation::R270 => 3,
        }
    }

    /// Convert this rotation to its index in quarter turns.
    pub fn to_index(self) -> (r: usize)
        ensures
            r == self.index_spec(),
    {
        match self {
            Rotation::R0 => 0,
            Rotation::R90 => 1,
            Rotation::R180 => 2,
            Rotation::R270 => 3,
        }
    }

    /// The rotation one quarter turn clockwise from this one.
    pub open spec fn clockwise_spec(self) -> Rotation {
        match self {
            Rotation::R0 => Rotation::R90,
            Rotation::R90 => Rotation::R180,
            Rotation::R180 => Rotation::R270,
            Rotation::R270 => Rotation::R0,
        }
    }

    /// The rotation one quarter turn anticlockwise from this one.
    pub open spec fn anticlockwise_spec(self) -> Rotation {
        match self {
            Rotation::R0 => Rotation::R270,
            Rotation::R90 => Rotation::R0,
            Rotation::R180 => Rotation::R90,
            Rotation::R270 => Rotation::R180,
        }
    }

    /// Returns the next clockwise rotation.
    pub fn clockwise(&self) -> (r: Rotation)
        ensures
            r == self.clockwise_spec(),
            r.index_spec() == (self.index_spec() + 1) % 4,
    {
        match self {
            Rotation::R0 => Rotation::R90,
            Rotation::R90 => Rotation::R180,
            Rotation::R180 => Rotation::R270,
            Rotation::R270 => Rotation::R0,
        }
    }

    /// Returns the next anticlockwise rotation.
    pub fn anticlockwise(&self) -> (r: Rotation)
        ensures
            r == self.anticlockwise_spec(),
            r.index_spec() == (self.index_spec() + 3) % 4,
    {
        match self {
            Rotation::R0 => Rotation::R270,
            Rotation::R90 => Rotation::R0,
            Rotation::R180 => Rotation::R90,
            Rotation::R270 => Rotation::R180,
        }
    }

    /// Returns all known `Rotation` variants, in quarter-turn order.
    pub fn variants() -> (r: Vec<Rotation>)
        ensures
            r@ == seq![Rotation::R0, Rotation::R90, Rotation::R180, Rotation::R270],
    {
        let r = vec![Rotation::R0, Rotation::R90, Rotation::R180, Rotation::R270];
        proof {
            assert(r@ =~= seq![Rotation::R0, Rotation::R90, Rotation::R180, Rotation::R270]);
        }
        r
    }
}

/// A movement along one of the four directional axes.
///
/// The y axis grows downward, so `Down` is `(0, 1)`.
#[derive(Clone, Copy, Debug, Hash, PartialEq, Eq, Structural)]
pub enum Direction {
    Left,
    Right,
    Up,
    Down,
}

impl Direction {
    /// The unit step this direction stands for, `(dx, dy)`.
    pub open spec fn vector_spec(self) -> (int, int) {
        match self {
            Direction::Left => (-1, 0),
            Direction::Right => (1, 0),
            Direction::Up => (0, -1),
            Direction::Down => (0, 1),
        }
    }

    /// Return all known `Direction` variants.
    pub fn variants() -> (r: Vec<Direction>)
        ensures
            r@ == seq![Direction::Left, Direction::Right, Direction::Up, Direction::Down],
    {
        let r = vec![Direction::Left, Direction::Right, Direction::Up, Direction::Down];
        proof {
            assert(r@ =~= seq![
                Direction::Left,
                Direction::Right,
                Direction::Up,
                Direction::Down,
            ]);
        }
        r
    }
}


/// Is the single grid position `(x, y)` unusable for a block cell: outside
/// the field, or already filled?
pub open spec fn pos_blocked(f: Field, x: int, y: int) -> bool {
    x < 0 || y < 0 || x >= f.width || y >= f.height || f.cell(x, y) != Id::Empty
}

/// The absolute cells of a piece `id` in rotation `r` anchored at `(x, y)`
/// under rotation system `rs`.
pub open spec fn spec_cells(rs: RotationSystem, id: Id, r: Rotation, x: int, y: int) -> Seq<
    (int, int),
> {
    rs.offsets_spec(id, r).map_values(|o: (u32, u32)| (x + o.0 as int, y + o.1 as int))
}

/// Does any of `cells` land on a blocked position of `f`?
pub open spec fn cells_blocked(f: Field, cells: Seq<(int, int)>) -> bool {
    exists|i: int| 0 <= i < cells.len() && pos_blocked(f, cells[i].0, cells[i].1)
}

/// The rotation state reached from `r` by the relative turn `rel`:
/// `R0` is the identity, `R90` one clockwise turn, `R180` two, and
/// `R270` one anticlockwise turn.
pub open spec fn spec_turned(r: Rotation, rel: Rotation) -> Rotation {
    match rel {
        Rotation::R0 => r,
        Rotation::R90 => r.clockwise_spec(),
        Rotation::R180 => r.clockwise_spec().clockwise_spec(),
        Rotation::R270 => r.anticlockwise_spec(),
    }
}

/// A single active tetrimino: an identity, an `(x, y)` anchor within the
/// field (y growing downward), a rotation state, and the rotation system
/// whose offset table gives its cells.
#[derive(Clone, Copy, Debug)]
pub struct Block {
    /// X-coordinate of the piece.
    pub x: i32,
    /// Y-coordinate of the piece.
    pub y: i32,
    /// Id of the block.
    pub id: Id,
    /// Rotation state of the block.
    pub r: Rotation,
    /// Rotation system used to calculate block offsets.
    pub rs: RotationSystem,
}

/// Optional values which can be set when initializing a `Block`.
///
/// An `x` or `y` of `Some(..)` overrides the field's spawn position.
#[derive(Clone, Copy, Debug)]
pub struct BlockOptions {
    /// Override for the spawn x coordinate.
    pub x: Option<i32>,
    /// Override for the spawn y coordinate.
    pub y: Option<i32>,
    /// The initial rotation state.
    pub rotation: Rotation,
    /// The rotation system the block uses.
    pub rotation_system: RotationSystem,
}

impl Default for BlockOptions {
    /// The defaults: spawn position, `R0`, the SRS system.
    fn default() -> (r: BlockOptions)
        ensures
            r.x is None && r.y is None,
            r.rotation == Rotation::R0,
            r.rotation_system == RotationSystem::Srs,
    {
        BlockOptions {
            x: Option::None,
            y: Option::None,
            rotation: Rotation::R0,
            rotation_system: RotationSystem::Srs,
        }
    }
}

impl Block {
    /// A block names a real piece, never the empty sentinel.
    pub open spec fn wf(self) -> bool {
        self.id != Id::Empty
    }

    /// The absolute cells this block occupies.
    pub open spec fn cells(self) -> Seq<(int, int)> {
        spec_cells(self.rs, self.id, self.r, self.x as int, self.y as int)
    }

    /// Does this block, displaced by `(xo, yo)`, collide with a wall,
    /// the floor, the ceiling, or a filled cell of `f`?
    pub open spec fn spec_collides_at(self, f: Field, xo: int, yo: int) -> bool {
        cells_blocked(
            f,
            spec_cells(self.rs, self.id, self.r, self.x + xo, self.y + yo),
        )
    }

    /// Does this block collide at its current position?
    pub open spec fn spec_collides(self, f: Field) -> bool {
        self.spec_collides_at(f, 0, 0)
    }

    /// Construct a `Block` with default values: at `field.spawn`, in
    /// rotation `R0`, under the SRS rotation system.
    pub fn new(id: Id, field: &Field) -> (b: Block)
        requires
            id != Id::Empty,
        ensures
            b.id == id,
            b.x == field.spawn.0 && b.y == field.spawn.1,
            b.r == Rotation::R0,
            b.rs == RotationSystem::Srs,
            b.wf(),
    {
        Block::with_options(id, field, BlockOptions::default())
    }

    /// Construct a `Block` with specific values.
    pub fn with_options(id: Id, field: &Field, options: BlockOptions) -> (b: Block)
        requires
            id != Id::Empty,
        ensures
            b.id == id,
            b.x == if options.x is Some {
                options.x->0
            } else {
                field.spawn.0
            },
            b.y == if options.y is Some {
                options.y->0
            } else {
                field.spawn.1
            },
            b.r == options.rotation,
            b.rs == options.rotation_system,
            b.wf(),
    {
        Block {
            id,
            x: match options.x {
                Some(x) => x,
                Option::None => field.spawn.0,
            },
            y: match options.y {
                Some(y) => y,
                Option::None => field.spawn.1,
            },
            r: options.rotation,
            rs: options.rotation_system,
        }
    }

    /// Return whether the block collides with `field` at the specified
    /// offset from its current position.
    pub(crate) fn collides_at_offset(&self, field: &Field, offset: (i32, i32)) -> (r: bool)
        requires
            field.wf(),
            self.wf(),
        ensures
            r == self.spec_collides_at(*field, offset.0 as int, offset.1 as int),
    {
        let d = self.rs.data(self.id, self.r);
        let ghost cand = spec_cells(
            self.rs,
            self.id,
            self.r,
            self.x + offset.0,
            self.y + offset.1,
        );
        let mut i: usize = 0;
        let mut hit = false;
        while i < 4
            invariant
                0 <= i <= 4,
                field.wf(),
                self.wf(),
                d@ == self.rs.offsets_spec(self.id, self.r),
                cand == spec_cells(
                    self.rs,
                    self.id,
                    self.r,
                    self.x + offset.0,
                    self.y + offset.1,
                ),
                cand.len() == 4,
                hit == exists|j: int| 0 <= j < i && pos_blocked(*field, cand[j].0, cand[j].1),
            decreases 4 - i,
        {
            let (dx, dy) = d[i];
            let cx: i64 = self.x as i64 + dx as i64 + offset.0 as i64;
            let cy: i64 = self.y as i64 + dy as i64 + offset.1 as i64;
            let blocked: bool = cx < 0 || cy < 0 || cx >= field.width as i64 || cy
                >= field.height as i64 || {
                proof {
                    assert(field.grid()[cy as int] == field.data@[cy as int]@);
                }
                let cell = field.data[cy as usize][cx as usize];
                cell != Id::Empty
            };
            proof {
                assert(cand[i as int] == (self.x + dx + offset.0, self.y + dy + offset.1));
                assert(blocked == pos_blocked(*field, cand[i as int].0, cand[i as int].1));
            }
            hit = hit || blocked;
            i += 1;
        }
        hit
    }

    /// Return whether the current `Block` collides with `field` at its
    /// current position.
    pub fn collides(&self, field: &Field) -> (r: bool)
        requires
            field.wf(),
            self.wf(),
        ensures
            r == self.spec_collides(*field),
    {
        self.collides_at_offset(field, (0, 0))
    }

    /// Shift the block by the specified offset if the shifted position is
    /// free; otherwise leave it unchanged.  No intermediate positions are
    /// checked.
    pub(crate) fn shift_raw(&mut self, field: &Field, offset: (i32, i32)) -> (r: bool)
        requires
            field.wf(),
            old(self).wf(),
        ensures
            r == !old(self).spec_collides_at(*field, offset.0 as int, offset.1 as int),
            !r ==> *final(self) == *old(self),
            r ==> final(self).id == old(self).id && final(self).r == old(self).r && final(self).rs == old(self).rs && final(self).x as int == old(self).x + offset.0 && final(self).y as int == old(self).y + offset.1,
            final(self).wf(),
    {
        if self.collides_at_offset(field, offset) {
            false
        } else {
            proof {
                let cand = spec_cells(
                    self.rs,
                    self.id,
                    self.r,
                    self.x + offset.0,
                    self.y + offset.1,
                );
                self.rs.lemma_offsets_wf(self.id, self.r);
                let o = self.rs.offsets_spec(self.id, self.r)[0];
                assert(cand[0] == (self.x + offset.0 + o.0, self.y + offset.1 + o.1));
                assert(!pos_blocked(*field, cand[0].0, cand[0].1));
            }
            self.x = self.x + offset.0;
            self.y = self.y + offset.1;
            true
        }
    }

    /// Shift the block one step in the specified direction, returning
    /// whether the move succeeded.  `Up` is not a gameplay move.
    pub fn shift(&mut self, field: &Field, direction: Direction) -> (r: bool)
        requires
            field.wf(),
            old(self).wf(),
            direction != Direction::Up,
        ensures
            r == !old(self).spec_collides_at(
                *field,
                direction.vector_spec().0,
                direction.vector_spec().1,
            ),
            !r ==> *final(self) == *old(self),
            r ==> final(self).id == old(self).id && final(self).r == old(self).r && final(self).rs == old(self).rs && final(self).x as int == old(self).x
                + direction.vector_spec().0 && final(self).y as int == old(self).y
                + direction.vector_spec().1,
            r ==> !final(self).spec_collides(*field),
            final(self).wf(),
    {
        let offset: (i32, i32) = match direction {
            Direction::Left => (-1, 0),
            Direction::Right => (1, 0),
            Direction::Down => (0, 1),
            Direction::Up => (0, -1),
        };
        self.shift_raw(field, offset)
    }

    /// Repeatedly shift the block in `direction` until a collision stops
    /// it.  The block ends on the last free position of the ray: every
    /// step taken was free, and one more step would collide.
    pub fn shift_extend(&mut self, field: &Field, direction: Direction)
        requires
            field.wf(),
            old(self).wf(),
            direction != Direction::Up,
        ensures
            final(self).id == old(self).id && final(self).r == old(self).r && final(self).rs
                == old(self).rs,
            exists|k: int|
                0 <= k && final(self).x as int == old(self).x + k * direction.vector_spec().0
                    && final(self).y as int == old(self).y + k * direction.vector_spec().1
                    && chain_free(
                    *old(self),
                    *field,
                    direction.vector_spec().0,
                    direction.vector_spec().1,
                    k,
                ),
            final(self).spec_collides_at(
                *field,
                direction.vector_spec().0,
                direction.vector_spec().1,
            ),
            final(self).wf(),
    {
        let ghost vx = direction.vector_spec().0;
        let ghost vy = direction.vector_spec().1;
        let ghost start = *self;
        let ghost mut k: int = 0;
        while self.shift(field, direction)
            invariant
                field.wf(),
                self.wf(),
                direction != Direction::Up,
                vx == direction.vector_spec().0,
                vy == direction.vector_spec().1,
                0 <= k,
                self.id == start.id && self.r == start.r && self.rs == start.rs,
                self.x as int == start.x + k * vx,
                self.y as int == start.y + k * vy,
                chain_free(start, *field, vx, vy, k),
            decreases shift_measure(*self, *field, direction),
        {
            proof {
                k = k + 1;
                assert(self.x as int == start.x + k * vx) by (nonlinear_arith)
                    requires
                        self.x as int == (start.x + (k - 1) * vx) + vx,
                {}
                assert(self.y as int == start.y + k * vy) by (nonlinear_arith)
                    requires
                        self.y as int == (start.y + (k - 1) * vy) + vy,
                {}
                assert forall|j: int| 1 <= j <= k implies !cells_blocked(
                    *field,
                    #[trigger] spec_cells(
                        start.rs,
                        start.id,
                        start.r,
                        start.x + j * vx,
                        start.y + j * vy,
                    ),
                ) by {
                    if j < k {
                        assert(chain_free(start, *field, vx, vy, k - 1));
                    } else {
                        assert(!self.spec_collides(*field));
                        assert(spec_cells(
                            start.rs,
                            start.id,
                            start.r,
                            start.x + j * vx,
                            start.y + j * vy,
                        ) == spec_cells(self.rs, self.id, self.r, self.x as int, self.y as int));
                    }
                }
                self.rs.lemma_offsets_wf(self.id, self.r);
                let o = self.rs.offsets_spec(self.id, self.r)[0];
                assert(self.cells()[0] == (self.x + o.0, self.y + o.1));
                assert(!pos_blocked(*field, self.cells()[0].0, self.cells()[0].1));
            }
        }
    }

    /// Rotate the block by the relative turn `rotation` and then apply the
    /// given offset; if the result collides, restore both and report
    /// failure.  This is the primitive that wallkick searches use.
    pub fn rotate_at_offset(&mut self, field: &Field, rotation: Rotation, offset: (i32, i32)) -> (r:
        bool)
        requires
            field.wf(),
            old(self).wf(),
        ensures
            r == !cells_blocked(
                *field,
                spec_cells(
                    old(self).rs,
                    old(self).id,
                    spec_turned(old(self).r, rotation),
                    old(self).x + offset.0,
                    old(self).y + offset.1,
                ),
            ),
            !r ==> *final(self) == *old(self),
            r ==> final(self).id == old(self).id && final(self).rs == old(self).rs && final(self).r == spec_turned(old(self).r, rotation) && final(self).x as int == old(self).x
                + offset.0 && final(self).y as int == old(self).y + offset.1,
            r ==> !final(self).spec_collides(*field),
            final(self).wf(),
    {
        let original_rotation = self.r;
        let new_rotation = match rotation {
            Rotation::R0 => self.r,
            Rotation::R90 => self.r.clockwise(),
            Rotation::R180 => self.r.clockwise().clockwise(),
            Rotation::R270 => self.r.anticlockwise(),
        };
        self.r = new_rotation;
        if self.shift_raw(field, offset) {
            true
        } else {
            self.r = original_rotation;
            false
        }
    }

    /// Rotate the block by the specified relative turn, with no offset.
    pub fn rotate(&mut self, field: &Field, rotation: Rotation) -> (r: bool)
        requires
            field.wf(),
            old(self).wf(),
        ensures
            r == !cells_blocked(
                *field,
                spec_cells(
                    old(self).rs,
                    old(self).id,
                    spec_turned(old(self).r, rotation),
                    old(self).x as int,
                    old(self).y as int,
                ),
            ),
            !r ==> *final(self) == *old(self),
            r ==> final(self).id == old(self).id && final(self).rs == old(self).rs && final(self).r == spec_turned(old(self).r, rotation) && final(self).x == old(self).x && final(self).y == old(self).y,
            r ==> !final(self).spec_collides(*field),
            final(self).wf(),
    {
        self.rotate_at_offset(field, rotation, (0, 0))
    }

    /// Check if the block occupies a particular `(x, y)` absolute location.
    pub fn occupies(&self, pos: (usize, usize)) -> (r: bool)
        requires
            self.wf(),
        ensures
            r == self.cells().contains((pos.0 as int, pos.1 as int)),
    {
        let d = self.rs.data(self.id, self.r);
        let mut i: usize = 0;
        let mut found = false;
        while i < 4
            invariant
                0 <= i <= 4,
                self.wf(),
                d@ == self.rs.offsets_spec(self.id, self.r),
                self.cells().len() == 4,
                found == exists|j: int|
                    0 <= j < i && self.cells()[j] == (pos.0 as int, pos.1 as int),
            decreases 4 - i,
        {
            let (dx, dy) = d[i];
            let cx: i64 = self.x as i64 + dx as i64;
            let cy: i64 = self.y as i64 + dy as i64;
            let here = cx >= 0 && cy >= 0 && cx as usize == pos.0 && cy as usize == pos.1;
            proof {
                assert(self.cells()[i as int] == (self.x + dx, self.y + dy));
                assert(here == (self.cells()[i as int] == (pos.0 as int, pos.1 as int)));
            }
            found = found || here;
            i += 1;
        }
        proof {
            if found {
                let j = choose|j: int|
                    0 <= j < 4 && self.cells()[j] == (pos.0 as int, pos.1 as int);
                assert(self.cells().contains((pos.0 as int, pos.1 as int)));
            } else {
                if self.cells().contains((pos.0 as int, pos.1 as int)) {
                    let j = choose|j: int|
                        0 <= j < self.cells().len() && self.cells()[j] == (
                        pos.0 as int,
                        pos.1 as int,
                        );
                }
            }
        }
        found
    }

    /// Returns a new `Block` which is the current block's ghost: the same
    /// piece dropped straight down to its resting place.
    pub fn ghost(&self, field: &Field) -> (g: Block)
        requires
            field.wf(),
            self.wf(),
        ensures
            dropped_from(*self, g, *field),
            g.wf(),
    {
        let mut g = self.clone();
        proof {
            assert(g == *self);
        }
        g.shift_extend(field, Direction::Down);
        proof {
            let k0 = choose|k: int|
                0 <= k && g.x as int == self.x + k * 0 && g.y as int == self.y + k * 1
                    && chain_free(*self, *field, 0, 1, k);
            assert(g.x == self.x);
            assert(g.y == self.y + k0);
            assert(chain_free(*self, *field, 0, 1, k0));
        }
        g
    }
}

/// Positions `1..=k` steps along the ray `(vx, vy)` from `b` are all free
/// of collision.
pub open spec fn chain_free(b: Block, f: Field, vx: int, vy: int, k: int) -> bool {
    forall|j: int|
        1 <= j <= k ==> !cells_blocked(
            f,
            #[trigger] spec_cells(b.rs, b.id, b.r, b.x + j * vx, b.y + j * vy),
        )
}

/// `g` is the resting place of `b` dropped straight down in `f`: the same
/// piece, some free distance below, with the next step down blocked.
pub open spec fn dropped_from(b: Block, g: Block, f: Field) -> bool {
    &&& g.id == b.id && g.r == b.r && g.rs == b.rs && g.x == b.x
    &&& exists|k: int| 0 <= k && g.y == b.y + k && chain_free(b, f, 0, 1, k)
    &&& g.spec_collides_at(f, 0, 1)
}

/// The loop measure for `shift_extend`: how much further the block could
/// conceivably travel in the given direction.
pub open spec fn shift_measure(b: Block, f: Field, d: Direction) -> int {
    let m = match d {
        Direction::Left => b.x + 4,
        Direction::Right => f.width - b.x,
        Direction::Down => f.height - b.y,
        Direction::Up => 0,
    };
    if m < 0 {
        0
    } else {
        m
    }
}


/// Law: a clockwise quarter turn that needs no offsets, followed by an
/// anticlockwise quarter turn, returns the block to its original state.
///
/// If the block fits where it stands and the turned piece also fits with
/// no offset applied, then the reverse turn targets exactly the original
/// cells, so it succeeds and restores the original `(id, r, x, y)`.
pub proof fn lemma_rotate_round_trip(b: Block, f: Field)
    requires
        b.wf(),
        !b.spec_collides(f),
    ensures
        !cells_blocked(
            f,
            spec_cells(b.rs, b.id, spec_turned(b.r, Rotation::R90), b.x as int, b.y as int),
        ) ==> {
            &&& spec_turned(spec_turned(b.r, Rotation::R90), Rotation::R270) == b.r
            &&& !cells_blocked(
                f,
                spec_cells(
                    b.rs,
                    b.id,
                    spec_turned(spec_turned(b.r, Rotation::R90), Rotation::R270),
                    b.x as int,
                    b.y as int,
                ),
            )
        },
{
}

/// Law: a successful shift left followed by a shift right restores the
/// original position, and the shift right is guaranteed to succeed.
///
/// If the block fits where it stands and one step left is free, the step
/// right from there aims back at the original cells, which are free.
pub proof fn lemma_shift_reversible(b: Block, f: Field)
    requires
        b.wf(),
        !b.spec_collides(f),
    ensures
        !cells_blocked(f, spec_cells(b.rs, b.id, b.r, b.x - 1, b.y as int)) ==> !cells_blocked(
            f,
            spec_cells(b.rs, b.id, b.r, (b.x - 1) + 1, b.y as int),
        ),
        (b.x - 1) + 1 == b.x,
{
}

/// Law: taking the ghost of a ghost changes nothing — the resting place
/// of a block that already rests is itself.
///
/// `dropped_from(b, g, f)` is what [`Block::ghost`] ensures of its result
/// `g`; applying it twice pins the second result to the first.
pub proof fn lemma_ghost_idempotent(b: Block, g: Block, g2: Block, f: Field)
    requires
        dropped_from(b, g, f),
        dropped_from(g, g2, f),
    ensures
        g2 == g,
{
    let k = choose|k: int| 0 <= k && g2.y == g.y + k && chain_free(g, f, 0, 1, k);
    if k >= 1 {
        assert(!cells_blocked(
            f,
            spec_cells(g.rs, g.id, g.r, g.x + 1 * 0, g.y + 1 * 1),
        ));
        assert(g.spec_collides_at(f, 0, 1));
        assert(false);
    }
    assert(g2.y == g.y);
}


/// The variant list is indexed by each identity's own index: entry `i`
/// has index `i`, and every real piece sits at its index.
pub proof fn lemma_variants_index()
    ensures
        forall|i: int| 0 <= i < 7 ==> (#[trigger] Id::variants_spec()[i]).index_spec() == i,
        forall|id: Id| id != Id::Empty ==> Id::variants_spec()[#[trigger] id.index_spec()] == id,
{
    let v = Id::variants_spec();
    assert forall|i: int| 0 <= i < 7 implies (#[trigger] v[i]).index_spec() == i by {
        if i == 0 {
            assert(v[0] == Id::I);
        } else if i == 1 {
            assert(v[1] == Id::T);
        } else if i == 2 {
            assert(v[2] == Id::L);
        } else if i == 3 {
            assert(v[3] == Id::J);
        } else if i == 4 {
            assert(v[4] == Id::S);
        } else if i == 5 {
            assert(v[5] == Id::Z);
        } else {
            assert(v[6] == Id::O);
        }
    }
    assert forall|id: Id| id != Id::Empty implies v[#[trigger] id.index_spec()] == id by {
        assert(v[id.index_spec()].index_spec() == id.index_spec());
        if id == Id::I {
            assert(v[0] == Id::I);
        } else if id == Id::T {
            assert(v[1] == Id::T);
        } else if id == Id::L {
            assert(v[2] == Id::L);
        } else if id == Id::J {
            assert(v[3] == Id::J);
        } else if id == Id::S {
            assert(v[4] == Id::S);
        } else if id == Id::Z {
            assert(v[5] == Id::Z);
        } else {
            assert(v[6] == Id::O);
        }
    }
}

} // verus!
