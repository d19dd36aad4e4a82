use vstd::prelude::*;

pub mod error;
pub mod json;
pub mod layer;
pub mod level;
pub mod tileset;

use crate::tileset::Tileset;

verus! {

/// A tile identifier that is unique across a whole level. It only has a
/// meaning together with the ordered list of tilesets of that level.
#[derive(Copy, Clone, Debug, PartialEq, Eq, Hash, Structural)]
pub struct GlobalTile(pub u32);

/// A tile identifier that is unique within one tileset: the offset of the
/// tile from the tileset's first global id.
#[derive(Copy, Clone, Debug, PartialEq, Eq, Hash, Structural)]
pub struct LocalTile(pub u32);

/// `g` lies in `[firstgid, firstgid + tilecount)` of the tileset `t`.
pub open spec fn tile_in_set(g: u32, t: Tileset) -> bool {
    t.firstgid.0 <= g && g - t.firstgid.0 < t.tilecount
}

/// `r` is what resolving `g` against `sets` gives: the first tileset whose
/// range holds `g`, with the offset of `g` in it, or `None` when no range does.
pub open spec fn resolves_to(g: u32, sets: Seq<Tileset>, r: Option<(usize, LocalTile)>) -> bool {
    match r {
        Some((i, l)) => {
            &&& i < sets.len()
            &&& tile_in_set(g, sets[i as int])
            &&& l.0 == g - sets[i as int].firstgid.0
            &&& forall|j: int| 0 <= j < i ==> !tile_in_set(g, #[trigger] sets[j])
        },
        None => forall|j: int| 0 <= j < sets.len() ==> !tile_in_set(g, #[trigger] sets[j]),
    }
}

/// No global id lies in the ranges of two different tilesets of `sets`.
pub open spec fn ranges_disjoint(sets: Seq<Tileset>) -> bool {
    forall|g: u32, i: int, j: int|
        0 <= i < sets.len() && 0 <= j < sets.len() && i != j ==> !(#[trigger] tile_in_set(g, sets[i])
            && #[trigger] tile_in_set(g, sets[j]))
}

impl GlobalTile {
    /// From this GlobalTile, given the tilesets of the level, find the index
    /// of the tileset it belongs to and its LocalTile there, or None if it
    /// belongs to none. The first tileset whose range holds it wins.
    pub fn find_local(self, sets: &[Tileset]) -> (r: Option<(usize, LocalTile)>)
        ensures
            resolves_to(self.0, sets@, r),
    {
        let mut i: usize = 0;
        while i < sets.len()
            invariant
                i <= sets@.len(),
                forall|j: int| 0 <= j < i ==> !tile_in_set(self.0, #[trigger] sets@[j]),
            decreases sets@.len() - i,
        {
            let set = &sets[i];
            if set.contains_tile(self) {
                let id = LocalTile(self.0 - set.firstgid.0);
                return Some((i, id));
            }
            i = i + 1;
        }
        None
    }
}

/// When the tileset ranges do not overlap, a global id that lies in the range
/// of the tileset at index `k` resolves to exactly that index, with the
/// offset of the id from the tileset's first global id.
pub proof fn lemma_resolve_owner(g: u32, sets: Seq<Tileset>, k: int, r: Option<(usize, LocalTile)>)
    requires
        ranges_disjoint(sets),
        0 <= k < sets.len(),
        tile_in_set(g, sets[k]),
        resolves_to(g, sets, r),
    ensures
        r == Some((k as usize, LocalTile((g - sets[k].firstgid.0) as u32))),
{
    match r {
        Some((i, l)) => {
            if i as int != k {
                assert(!(tile_in_set(g, sets[i as int]) && tile_in_set(g, sets[k])));
            }
        },
        None => {
            assert(!tile_in_set(g, sets[k]));
        },
    }
}

/// A global id that lies in the range of no tileset resolves to `None`.
pub proof fn lemma_resolve_none(g: u32, sets: Seq<Tileset>, r: Option<(usize, LocalTile)>)
    requires
        forall|j: int| 0 <= j < sets.len() ==> !tile_in_set(g, #[trigger] sets[j]),
        resolves_to(g, sets, r),
    ensures
        r is None,
{
    if let Some((i, l)) = r {
        assert(tile_in_set(g, sets[i as int]));
    }
}

} // verus!
