//! The reference catalog: an immutable set of named astronomical objects,
//! each at a known distance, with a nearest-neighbor lookup by distance.
//!
//! Distances are held in micro-light-years, so that absolute differences and
//! comparisons are exact integer arithmetic.

use vstd::prelude::*;

verus! {

/// One catalogued astronomical object. The distance from Earth is held in
/// micro-light-years (one millionth of a light-year), as an exact integer.
#[derive(Debug)]
pub struct CelestialObject {
    pub id: i64,
    pub name: String,
    pub distance_micro_ly: u64,
    pub object_type: String,
    pub description: String,
}

impl Clone for CelestialObject {
    fn clone(&self) -> (r: Self)
        ensures
            r == *self,
    {
        CelestialObject {
            id: self.id,
            name: self.name.clone(),
            distance_micro_ly: self.distance_micro_ly,
            object_type: self.object_type.clone(),
            description: self.description.clone(),
        }
    }
}

/// The absolute difference between an entry's distance and a query distance,
/// both in micro-light-years.
pub open spec fn abs_diff(d: u64, q: u64) -> int {
    if d >= q {
        d - q
    } else {
        q - d
    }
}

/// A catalog entry is valid when its name is non-empty. (Its distance is a
/// `u64`, hence non-negative by construction.)
pub open spec fn entry_valid(e: CelestialObject) -> bool {
    e.name@.len() > 0
}

/// Identifiers are pairwise distinct.
pub open spec fn ids_unique(s: Seq<CelestialObject>) -> bool {
    forall|i: int, j: int| 0 <= i < j < s.len() ==> s[i].id != s[j].id
}

/// The catalog invariant: every entry is valid and identifiers are unique.
pub open spec fn catalog_valid(s: Seq<CelestialObject>) -> bool {
    &&& ids_unique(s)
    &&& forall|i: int| 0 <= i < s.len() ==> entry_valid(#[trigger] s[i])
}

/// Entry `b` is nearest to query `q` among the first `n` entries of `s`:
/// it minimizes the absolute distance difference, and among entries at the
/// minimal difference it has the smallest identifier.
pub open spec fn nearest_in_prefix(s: Seq<CelestialObject>, q: u64, b: int, n: int) -> bool {
    &&& 0 <= b < n <= s.len()
    &&& forall|j: int|
        0 <= j < n ==> abs_diff(s[b].distance_micro_ly, q) <= abs_diff(
            #[trigger] s[j].distance_micro_ly,
            q,
        )
    &&& forall|j: int|
        0 <= j < n && abs_diff(#[trigger] s[j].distance_micro_ly, q) == abs_diff(
            s[b].distance_micro_ly,
            q,
        ) ==> s[b].id <= s[j].id
}

/// Entry `b` is nearest to query `q` over the whole catalog, ties broken by
/// the smallest identifier.
pub open spec fn is_nearest(s: Seq<CelestialObject>, q: u64, b: int) -> bool {
    nearest_in_prefix(s, q, b, s.len() as int)
}

/// `e` is the nearest entry of `s` to query `q` under the lowest-identifier
/// tie-break.
pub open spec fn is_nearest_entry(s: Seq<CelestialObject>, q: u64, e: CelestialObject) -> bool {
    exists|b: int| is_nearest(s, q, b) && e == s[b]
}

/// An immutable, pre-seeded collection of catalog entries. Built once by
/// `new`, which establishes the catalog invariant; never mutated afterwards.
pub struct ReferenceCatalog {
    entries: Vec<CelestialObject>,
}

impl View for ReferenceCatalog {
    type V = Seq<CelestialObject>;

    closed spec fn view(&self) -> Seq<CelestialObject> {
        self.entries@
    }
}

impl ReferenceCatalog {
    /// Builds a catalog from externally supplied entries, accepting exactly
    /// the entry sets that satisfy the catalog invariant (non-empty names,
    /// unique identifiers). An empty entry set is a valid catalog.
    pub fn new(entries: Vec<CelestialObject>) -> (r: Option<ReferenceCatalog>)
        ensures
            match r {
                Some(c) => c@ == entries@ && catalog_valid(entries@),
                None => !catalog_valid(entries@),
            },
    {
        let n = entries.len();
        let mut i: usize = 0;
        while i < n
            invariant
                n == entries@.len(),
                i <= n,
                forall|k: int| 0 <= k < i ==> entry_valid(#[trigger] entries@[k]),
            decreases n - i,
        {
            if entries[i].name.as_str().is_empty() {
                assert(!entry_valid(entries@[i as int]));
                return None;
            }
            i = i + 1;
        }
        let mut a: usize = 0;
        while a < n
            invariant
                n == entries@.len(),
                a <= n,
                forall|k: int, l: int| 0 <= k < a && k < l < n ==> entries@[k].id != entries@[l].id,
            decreases n - a,
        {
            let mut b: usize = a + 1;
            while b < n
                invariant
                    n == entries@.len(),
                    a < b,
                    a < n,
                    b <= n,
                    forall|l: int| a < l < b ==> entries@[a as int].id != entries@[l].id,
                decreases n - b,
            {
                if entries[a].id == entries[b].id {
                    assert(!ids_unique(entries@)) by {
                        assert(entries@[a as int].id == entries@[b as int].id);
                    }
                    return None;
                }
                b = b + 1;
            }
            a = a + 1;
        }
        Some(ReferenceCatalog { entries })
    }

    /// The number of entries.
    pub fn len(&self) -> (n: usize)
        ensures
            n == self@.len(),
    {
        self.entries.len()
    }

    /// A shared reference to the entry at index `i`.
    pub fn entry(&self, i: usize) -> (r: &CelestialObject)
        requires
            i < self@.len(),
        ensures
            *r == self@[i as int],
    {
        &self.entries[i]
    }

    /// Nearest-neighbor lookup by distance (micro-light-years): returns the
    /// entry minimizing the absolute distance difference to the query, ties
    /// broken deterministically by the smallest identifier. Absent exactly
    /// when the catalog is empty.
    pub fn nearest_to(&self, query_micro_ly: u64) -> (r: Option<CelestialObject>)
        ensures
            r is None <==> self@.len() == 0,
            match r {
                Some(e) => is_nearest_entry(self@, query_micro_ly, e),
                None => true,
            },
    {
        let n = self.entries.len();
        if n == 0 {
            return None;
        }
        let mut best: usize = 0;
        let mut i: usize = 1;
        while i < n
            invariant
                n == self@.len(),
                0 < n,
                best < i,
                i <= n,
                nearest_in_prefix(self@, query_micro_ly, best as int, i as int),
            decreases n - i,
        {
            let d_best = distance_gap(self.entries[best].distance_micro_ly, query_micro_ly);
            let d_i = distance_gap(self.entries[i].distance_micro_ly, query_micro_ly);
            if d_i < d_best || (d_i == d_best && self.entries[i].id < self.entries[best].id) {
                best = i;
            }
            i = i + 1;
        }
        let found = self.entries[best].clone();
        assert(is_nearest(self@, query_micro_ly, best as int));
        Some(found)
    }
}

/// The absolute difference of two distances in micro-light-years.
fn distance_gap(d: u64, q: u64) -> (r: u64)
    ensures
        r == abs_diff(d, q),
{
    if d >= q {
        d - q
    } else {
        q - d
    }
}

/// Tie-break determinism: under unique identifiers there is exactly one
/// nearest entry index for any query, so repeated lookups with the same
/// query agree.
pub proof fn lemma_nearest_unique(s: Seq<CelestialObject>, q: u64, b1: int, b2: int)
    requires
        ids_unique(s),
        is_nearest(s, q, b1),
        is_nearest(s, q, b2),
    ensures
        b1 == b2,
{
    assert(abs_diff(s[b1].distance_micro_ly, q) <= abs_diff(s[b2].distance_micro_ly, q));
    assert(abs_diff(s[b2].distance_micro_ly, q) <= abs_diff(s[b1].distance_micro_ly, q));
    assert(s[b1].id <= s[b2].id);
    assert(s[b2].id <= s[b1].id);
    if b1 < b2 {
        assert(s[b1].id != s[b2].id);
    }
    if b2 < b1 {
        assert(s[b2].id != s[b1].id);
    }
}

} // verus!
