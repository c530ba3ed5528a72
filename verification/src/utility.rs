//! Helper methods which expose more specific behaviour for the
//! primitives — here, rotating a block through a wallkick search.

use vstd::prelude::*;

use crate::block::{cells_blocked, spec_cells, spec_turned, Block, Rotation};
use crate::field::Field;
use crate::wallkick::{kicks_spec, Wallkick};

verus! {

/// Does the block fit after the relative turn `rel` displaced by `off`?
pub open spec fn kick_fits(b: Block, f: Field, rel: Rotation, off: (i32, i32)) -> bool {
    !cells_blocked(
        f,
        spec_cells(b.rs, b.id, spec_turned(b.r, rel), b.x + off.0, b.y + off.1),
    )
}

/// `g` is `b` after the relative turn `rel` displaced by `off`.
pub open spec fn kick_applied(b: Block, g: Block, rel: Rotation, off: (i32, i32)) -> bool {
    &&& g.id == b.id
    &&& g.rs == b.rs
    &&& g.r == spec_turned(b.r, rel)
    &&& g.x as int == b.x + off.0
    &&& g.y as int == b.y + off.1
}

/// The index of the first offset at or after `i` whose candidate fits,
/// or `kicks.len()` when none does.
pub open spec fn first_fit_from(
    b: Block,
    f: Field,
    rel: Rotation,
    kicks: Seq<(i32, i32)>,
    i: int,
) -> int
    decreases kicks.len() - i,
{
    if i < 0 || i >= kicks.len() {
        kicks.len() as int
    } else if kick_fits(b, f, rel, kicks[i]) {
        i
    } else {
        first_fit_from(b, f, rel, kicks, i + 1)
    }
}

/// What a wallkick rotation achieves: the first offset of the kick
/// sequence whose candidate fits is applied; if none fits, the block is
/// unchanged and the rotation reports failure.
pub open spec fn wallkick_rotation_post(
    pre: Block,
    post: Block,
    f: Field,
    wk: Wallkick,
    rel: Rotation,
    r: bool,
) -> bool {
    let kicks = kicks_spec(wk, pre, f, rel);
    let fi = first_fit_from(pre, f, rel, kicks, 0);
    &&& r == (fi < kicks.len())
    &&& if r {
        kick_applied(pre, post, rel, kicks[fi])
    } else {
        post == pre
    }
}

impl Block {
    /// Rotate a `Block` using the specified wallkick policy.
    ///
    /// This iterates over all offsets of the wallkick's test and attempts
    /// rotations until one is successful: the first offset whose candidate
    /// fits is applied.  If none fits the block is unchanged and `false`
    /// is returned.
    pub fn rotate_with_wallkick(
        &mut self,
        field: &Field,
        wallkick: Wallkick,
        rotation: Rotation,
    ) -> (r: bool)
        requires
            old(self).wf(),
            field.wf(),
            wallkick == Wallkick::Srs ==> rotation == Rotation::R90 || rotation == Rotation::R270,
        ensures
            wallkick_rotation_post(*old(self), *final(self), *field, wallkick, rotation, r),
            final(self).wf(),
            r ==> !final(self).spec_collides(*field),
    {
        let kicks = wallkick.test(self, field, rotation);
        let ghost pre = *self;
        let ghost ks = kicks@;
        let mut i: usize = 0;
        let mut done = false;
        while !done && i < kicks.len()
            invariant
                field.wf(),
                pre.wf(),
                wallkick == Wallkick::Srs ==> rotation == Rotation::R90 || rotation
                    == Rotation::R270,
                ks == kicks@,
                kicks@ == kicks_spec(wallkick, pre, *field, rotation),
                i <= ks.len(),
                !done ==> *self == pre && first_fit_from(pre, *field, rotation, ks, 0)
                    == first_fit_from(pre, *field, rotation, ks, i as int),
                done ==> i < ks.len() && first_fit_from(pre, *field, rotation, ks, 0) == i as int
                    && kick_applied(pre, *self, rotation, ks[i as int]) && self.wf()
                    && !self.spec_collides(*field),
            decreases (if done { 0int } else { 1int }), ks.len() - i,
        {
            let (x, y) = kicks[i];
            if self.rotate_at_offset(field, rotation, (x, y)) {
                done = true;
                proof {
                    assert(kick_fits(pre, *field, rotation, ks[i as int]));
                    assert(first_fit_from(pre, *field, rotation, ks, i as int) == i);
                    assert(kick_applied(pre, *self, rotation, ks[i as int]));
                }
            } else {
                proof {
                    assert(!kick_fits(pre, *field, rotation, ks[i as int]));
                    assert(first_fit_from(pre, *field, rotation, ks, i as int) == first_fit_from(
                        pre,
                        *field,
                        rotation,
                        ks,
                        i as int + 1,
                    ));
                }
                i += 1;
            }
        }
        proof {
            if !done {
                assert(first_fit_from(pre, *field, rotation, ks, ks.len() as int) == ks.len());
            }
        }
        done
    }
}


/// Helper trait for the `Block` struct: the wallkick rotation as a
/// plain, contract-free interface.
///
/// The trait method carries no contract, so its implementation guards
/// its inputs at run time and refuses (returning `false`, the block
/// unchanged) whatever the verified search cannot accept.
pub trait BlockHelper {
    /// Rotate using the specified wallkick, returning whether any of
    /// its offsets succeeded.
    fn rotate_with_wallkick(
        &mut self,
        field: &Field,
        wallkick: Wallkick,
        rotation: Rotation,
    ) -> bool;
}

impl BlockHelper for Block {
    fn rotate_with_wallkick(
        &mut self,
        field: &Field,
        wallkick: Wallkick,
        rotation: Rotation,
    ) -> (r: bool) {
        if self.id == crate::block::Id::Empty {
            return false;
        }
        if !field.is_well_formed() {
            return false;
        }
        if wallkick == Wallkick::Srs && !(rotation == Rotation::R90 || rotation
            == Rotation::R270) {
            return false;
        }
        self.rotate_with_wallkick(field, wallkick, rotation)
    }
}

} // verus!
