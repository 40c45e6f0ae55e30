//! Identity of views: the path of child indices that leads to a view, and
//! the id hashed from it.
use vstd::prelude::*;
use std::collections::hash_map::DefaultHasher;
use std::hash::Hasher;
use vstd::bytes::{spec_u64_to_le_bytes, u64_to_le_bytes};
use vstd::std_specs::hash::DefaultHasherAdditionalSpecFns;

verus! {

/// Path of child indices from the root to a view.
pub type IdPath = Vec<u64>;

/// Identifies a view; the id hashed from its path.
#[derive(Clone, Copy, PartialEq, Eq, Debug, Hash, Structural)]
pub struct ViewId {
    pub id: u64,
}

impl Default for ViewId {
    /// The id that stands for no view.
    fn default() -> (v: Self)
        ensures
            v.id == 0,
    {
        ViewId { id: 0 }
    }
}

impl ViewId {
    /// Stands for no view.
    pub fn is_default(&self) -> (b: bool)
        ensures
            b == (self.id == 0),
    {
        self.id == 0
    }
}

/// The byte chunks that are hashed for a path: each index, little-endian.
pub open spec fn path_chunks(path: Seq<u64>) -> Seq<Seq<u8>> {
    path.map_values(|x: u64| spec_u64_to_le_bytes(x))
}

/// The id of the view at `path`.
pub open spec fn path_id(path: Seq<u64>) -> ViewId {
    ViewId { id: DefaultHasher::spec_finish(path_chunks(path)) }
}

/// `a` is a prefix of `b`.
pub open spec fn is_prefix(a: Seq<u64>, b: Seq<u64>) -> bool {
    a.len() <= b.len() && b.subrange(0, a.len() as int) == a
}

/// Hashes `path` into the id of the view it leads to.
pub fn view_id(path: &IdPath) -> (v: ViewId)
    ensures
        v == path_id(path@),
{
    let mut hasher = DefaultHasher::new();
    let n = path.len();
    for i in 0..n
        invariant
            n == path@.len(),
            hasher@ == path_chunks(path@.take(i as int)),
    {
        let bytes = u64_to_le_bytes(path[i]);
        hasher.write(bytes.as_slice());
        proof {
            assert(path@.take(i + 1) =~= path@.take(i as int).push(path@[i as int]));
            assert(path_chunks(path@.take(i + 1)) =~= path_chunks(path@.take(i as int)).push(bytes@));
        }
    }
    proof {
        assert(path@.take(n as int) =~= path@);
    }
    ViewId { id: hasher.finish() }
}


/// Views are identified by their paths: the same path always gives the same
/// id, and the children of a view sit at different paths.
pub proof fn law_stable_identity(path: Seq<u64>, other: Seq<u64>, i: u64, j: u64)
    ensures
        path == other ==> path_id(path) == path_id(other),
        i != j ==> path.push(i) != path.push(j),
        is_prefix(path, path.push(i)),
{
    if i != j {
        assert(path.push(i)[path.len() as int] != path.push(j)[path.len() as int]);
    }
    assert(path.push(i).subrange(0, path.len() as int) =~= path);
}

} // verus!
