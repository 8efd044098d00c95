//! The toroidal play area: its size, wrapping the craft, culling projectiles.
use vstd::prelude::*;

verus! {

/// Size of the play area in world units. The viewport's pixel size is halved
/// once (a display at twice the density), then the area spans
/// `[-width / 2, width / 2]` by `[-height / 2, height / 2]`.
#[derive(Clone, Copy, Debug, PartialEq, Eq, Structural)]
pub struct PlayArea {
    pub width: u32,
    pub height: u32,
}

impl PlayArea {
    pub fn from_viewport(width_px: u32, height_px: u32) -> (r: PlayArea)
        ensures
            r.width == width_px / 2,
            r.height == height_px / 2,
    {
        PlayArea { width: width_px / 2, height: height_px / 2 }
    }
}

/// Where a coordinate lies relative to `[-extent / 2, extent / 2]` along
/// one axis.
#[derive(Clone, Copy, Debug, PartialEq, Eq, Structural)]
pub enum Side {
    Below,
    Inside,
    Above,
}

/// Number of extents to add to a coordinate to wrap it back in: a single
/// teleport across the area, never a clamp.
pub open spec fn wrap_shift_of(side: Side) -> int {
    match side {
        Side::Below => 1,
        Side::Inside => 0,
        Side::Above => -1,
    }
}

/// Coordinate after wrapping, for a coordinate on the given side.
pub open spec fn wrapped(pos: int, side: Side, extent: int) -> int {
    pos + wrap_shift_of(side) * extent
}

pub fn wrap_shift(side: Side) -> (s: i8)
    ensures
        s as int == wrap_shift_of(side),
{
    match side {
        Side::Below => 1,
        Side::Inside => 0,
        Side::Above => -1,
    }
}

/// A coordinate past the upper edge moves down by one extent, one past the
/// lower edge up by one extent, and undoing that displacement brings it back
/// to where it was.
pub proof fn lemma_wrap_round_trip(pos: int, extent: int)
    ensures
        wrapped(pos, Side::Above, extent) == pos - extent,
        wrapped(pos, Side::Above, extent) + extent == pos,
        wrapped(pos, Side::Below, extent) == pos + extent,
        wrapped(pos, Side::Below, extent) - extent == pos,
        wrapped(pos, Side::Inside, extent) == pos,
{
}

/// A projectile is culled when its own x lies below the area, or when the
/// craft lies above it on x or outside it on y.
pub open spec fn culled(projectile_x: Side, craft_x: Side, craft_y: Side) -> bool {
    projectile_x == Side::Below || craft_x == Side::Above || craft_y != Side::Inside
}

pub fn is_culled(projectile_x: Side, craft_x: Side, craft_y: Side) -> (r: bool)
    ensures
        r == culled(projectile_x, craft_x, craft_y),
{
    projectile_x == Side::Below || craft_x == Side::Above || craft_y != Side::Inside
}

/// The items whose flag is false, in their original order.
pub open spec fn kept<T>(items: Seq<T>, drop: Seq<bool>) -> Seq<T>
    decreases items.len(),
{
    if items.len() == 0 {
        Seq::empty()
    } else {
        let prev = kept(items.drop_last(), drop.drop_last());
        if drop[items.len() - 1] {
            prev
        } else {
            prev.push(items.last())
        }
    }
}

/// The cull flag of each projectile, from the side of its own x.
pub open spec fn cull_flags(projectile_x: Seq<Side>, craft_x: Side, craft_y: Side) -> Seq<bool> {
    Seq::new(projectile_x.len(), |i: int| culled(projectile_x[i], craft_x, craft_y))
}

/// Removes the culled projectiles, keeping the order of those that stay.
/// `projectile_x[i]` is the side of the x coordinate of `items[i]`.
pub fn cull_projectiles<T>(
    items: &mut Vec<T>,
    projectile_x: &Vec<Side>,
    craft_x: Side,
    craft_y: Side,
)
    requires
        old(items).len() == projectile_x.len(),
    ensures
        final(items)@ == kept(old(items)@, cull_flags(projectile_x@, craft_x, craft_y)),
{
    let ghost orig = items@;
    let ghost flags = cull_flags(projectile_x@, craft_x, craft_y);
    let mut i: usize = 0;
    let mut j: usize = 0;
    while j < projectile_x.len()
        invariant
            j <= projectile_x.len(),
            orig.len() == projectile_x.len(),
            flags == cull_flags(projectile_x@, craft_x, craft_y),
            items@ == kept(orig.take(j as int), flags.take(j as int)) + orig.skip(j as int),
            i as int == kept(orig.take(j as int), flags.take(j as int)).len(),
        decreases projectile_x.len() - j,
    {
        let ghost before = kept(orig.take(j as int), flags.take(j as int));
        assert(orig.take(j + 1).drop_last() =~= orig.take(j as int));
        assert(flags.take(j + 1).drop_last() =~= flags.take(j as int));
        assert(orig.take(j + 1).last() == orig[j as int]);
        if is_culled(projectile_x[j], craft_x, craft_y) {
            items.remove(i);
            assert(items@ =~= before + orig.skip(j + 1));
        } else {
            assert(items@ =~= before.push(orig[j as int]) + orig.skip(j + 1));
            let len = items.len();
            assert(i < len);
            i = i + 1;
        }
        j = j + 1;
    }
    assert(orig.take(orig.len() as int) =~= orig);
    assert(flags.take(flags.len() as int) =~= flags);
    assert(items@ =~= kept(orig, flags));
}

} // verus!
