use vstd::prelude::*;

verus! {

/// How many times a primary ray may bounce off shiny surfaces.
pub const REFLECTION_DEPTH: u32 = 2;

/// A hit key lies under the optional upper bound (none means unbounded).
pub open spec fn below(k: i64, bound: Option<i64>) -> bool {
    match bound {
        Some(b) => k < b,
        None => true,
    }
}

/// Candidate `i` reported a hit, and it lies under the bound.
pub open spec fn eligible(keys: Seq<Option<i64>>, bound: Option<i64>, i: int) -> bool {
    &&& 0 <= i < keys.len()
    &&& keys[i] is Some
    &&& below(keys[i]->0, bound)
}

/// Candidate `i` is the nearest hit: no eligible hit is nearer, and every
/// eligible hit scanned before it is strictly farther.
pub open spec fn is_nearest(keys: Seq<Option<i64>>, bound: Option<i64>, i: int) -> bool {
    &&& eligible(keys, bound, i)
    &&& forall|j: int| #[trigger] eligible(keys, bound, j) ==> keys[i]->0 <= keys[j]->0
    &&& forall|j: int| 0 <= j < i && #[trigger] eligible(keys, bound, j) ==> keys[i]->0 < keys[j]->0
}

/// Picks the nearest of the hits that candidates reported along one ray.
/// `keys[i]` is the hit distance of candidate `i` as an order-preserving
/// key, or `None` for a miss; a hit counts only when its key is strictly
/// under `bound`. Among equally near hits the earliest candidate wins.
pub fn nearest_hit(keys: &Vec<Option<i64>>, bound: Option<i64>) -> (r: Option<usize>)
    ensures
        match r {
            Some(i) => is_nearest(keys@, bound, i as int),
            None => forall|i: int| !#[trigger] eligible(keys@, bound, i),
        },
{
    let mut best: Option<usize> = None;
    let mut best_key: Option<i64> = bound;
    let mut i: usize = 0;
    while i < keys.len()
        invariant
            i <= keys@.len(),
            match best {
                Some(b) => {
                    &&& b < i
                    &&& eligible(keys@, bound, b as int)
                    &&& best_key == keys@[b as int]
                    &&& forall|j: int| 0 <= j < i && #[trigger] eligible(keys@, bound, j) ==> keys@[b as int]->0 <= keys@[j]->0
                    &&& forall|j: int| 0 <= j < b && #[trigger] eligible(keys@, bound, j) ==> keys@[b as int]->0 < keys@[j]->0
                },
                None => {
                    &&& best_key == bound
                    &&& forall|j: int| 0 <= j < i ==> !#[trigger] eligible(keys@, bound, j)
                },
            },
        decreases keys@.len() - i,
    {
        if let Some(k) = keys[i] {
            let nearer = match best_key {
                Some(bk) => k < bk,
                None => true,
            };
            if nearer {
                best = Some(i);
                best_key = Some(k);
            }
        }
        i = i + 1;
    }
    best
}

/// At most one candidate is the nearest hit, so the choice is determined
/// by the keys alone.
pub proof fn lemma_nearest_unique(keys: Seq<Option<i64>>, bound: Option<i64>, i: int, j: int)
    requires
        is_nearest(keys, bound, i),
        is_nearest(keys, bound, j),
    ensures
        i == j,
{
    if i < j {
        assert(keys[j]->0 < keys[i]->0);
        assert(keys[i]->0 <= keys[j]->0);
    } else if j < i {
        assert(keys[i]->0 < keys[j]->0);
        assert(keys[j]->0 <= keys[i]->0);
    }
}

/// The depth left for a reflected ray, if one is cast: only from a
/// reflective surface, and only while depth remains.
pub open spec fn spec_next_reflection_depth(depth: u32, reflective: bool) -> Option<u32> {
    if depth > 0 && reflective {
        Some((depth - 1) as u32)
    } else {
        None
    }
}

/// The depth left for a reflected ray from a surface whose reflectivity is
/// positive (`reflective`), or `None` when the shade is the direct light.
#[verifier::when_used_as_spec(spec_next_reflection_depth)]
pub fn next_reflection_depth(depth: u32, reflective: bool) -> (r: Option<u32>)
    ensures
        r == spec_next_reflection_depth(depth, reflective),
{
    if depth > 0 && reflective {
        Some(depth - 1)
    } else {
        None
    }
}

/// With no depth left no reflected ray is cast, whatever the surface, and
/// each reflected ray has strictly less depth than the ray it came from.
pub proof fn lemma_reflection_bounded(depth: u32, reflective: bool)
    ensures
        spec_next_reflection_depth(0, reflective) is None,
        spec_next_reflection_depth(depth, reflective) matches Some(d) ==> d < depth,
{
}

} // verus!
