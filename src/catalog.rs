//! The window catalog: windows found on screen, in the order in which they
//! were listed, looked up by position.

use vstd::prelude::*;
use indexmap::IndexMap;
use crate::geometry::Point;
use crate::models::CapturedWindow;

verus! {

#[verifier::external_type_specification]
#[verifier::external_body]
#[verifier::reject_recursive_types(K)]
#[verifier::reject_recursive_types(V)]
#[verifier::reject_recursive_types(S)]
pub struct ExIndexMap<K, V, S>(IndexMap<K, V, S>);

/// The entries of a catalog, in the map's order.
pub uninterp spec fn window_list(m: IndexMap<u32, CapturedWindow>) -> Seq<(u32, CapturedWindow)>;

/// Relies on `IndexMap::len`: the number of entries.
#[verifier::external_body]
pub(crate) fn window_count(m: &IndexMap<u32, CapturedWindow>) -> (r: usize)
    ensures
        r as int == window_list(*m).len(),
{
    m.len()
}

/// Relies on `IndexMap::get_index`: the entry at position `i` in the map's
/// order, `None` past the end.
#[verifier::external_body]
pub(crate) fn window_at(m: &IndexMap<u32, CapturedWindow>, i: usize) -> (r: Option<(u32, &CapturedWindow)>)
    ensures
        i < window_list(*m).len() ==> r == Some((window_list(*m)[i as int].0, &window_list(*m)[i as int].1)),
        i >= window_list(*m).len() ==> r is None,
{
    m.get_index(i).map(|(k, v)| (*k, v))
}

/// `j` is the first entry of `s` whose bounds hold `p`.
pub open spec fn is_first_hit(s: Seq<(u32, CapturedWindow)>, p: Point, j: int) -> bool {
    &&& 0 <= j < s.len()
    &&& s[j].1.covers(p)
    &&& forall|k: int| 0 <= k < j ==> !(#[trigger] s[k].1.covers(p))
}

/// The position of the first entry whose bounds hold `p`, if any does.
pub open spec fn first_hit(s: Seq<(u32, CapturedWindow)>, p: Point) -> Option<int> {
    if exists|j: int| is_first_hit(s, p, j) {
        Some(choose|j: int| is_first_hit(s, p, j))
    } else {
        None
    }
}

/// The first hit is unique, and there is one when any entry holds `p`.
pub proof fn lemma_first_hit(s: Seq<(u32, CapturedWindow)>, p: Point)
    ensures
        forall|j: int| is_first_hit(s, p, j) ==> first_hit(s, p) == Some(j),
        first_hit(s, p) is None ==> forall|k: int| 0 <= k < s.len() ==> !(#[trigger] s[k].1.covers(p)),
{
    assert forall|j: int| is_first_hit(s, p, j) implies first_hit(s, p) == Some(j) by {
        let c = choose|j: int| is_first_hit(s, p, j);
        assert(is_first_hit(s, p, c));
        if c < j {
            assert(!s[c].1.covers(p));
        } else if j < c {
            assert(!s[j].1.covers(p));
        }
    }
    if first_hit(s, p) is None {
        assert forall|k: int| 0 <= k < s.len() implies !(#[trigger] s[k].1.covers(p)) by {
            if s[k].1.covers(p) {
                lemma_hit_has_first(s, p, k);
            }
        }
    }
}

/// Below any entry that holds `p` there is a first one that does.
proof fn lemma_hit_has_first(s: Seq<(u32, CapturedWindow)>, p: Point, k: int)
    requires
        0 <= k < s.len(),
        s[k].1.covers(p),
    ensures
        exists|j: int| is_first_hit(s, p, j),
    decreases k,
{
    if exists|i: int| 0 <= i < k && #[trigger] s[i].1.covers(p) {
        let i = choose|i: int| 0 <= i < k && #[trigger] s[i].1.covers(p);
        lemma_hit_has_first(s, p, i);
    } else {
        assert(is_first_hit(s, p, k));
    }
}

/// The position of the first window in catalog order whose bounds hold `p`;
/// a point on a window's right or bottom edge is outside it.
pub fn find_at(windows: &IndexMap<u32, CapturedWindow>, p: Point) -> (r: Option<usize>)
    ensures
        r matches Some(j) ==> first_hit(window_list(*windows), p) == Some(j as int),
        r is None ==> first_hit(window_list(*windows), p) is None,
{
    let ghost s = window_list(*windows);
    let n = window_count(windows);
    let mut i: usize = 0;
    while i < n
        invariant
            n == s.len(),
            i <= n,
            s == window_list(*windows),
            forall|k: int| 0 <= k < i ==> !(#[trigger] s[k].1.covers(p)),
        decreases n - i,
    {
        if let Some((_, w)) = window_at(windows, i) {
            let tl = w.top_left();
            let br = w.bottom_right();
            if crate::geometry::contains(tl, br, p) {
                proof {
                    lemma_first_hit(s, p);
                    assert(is_first_hit(s, p, i as int));
                }
                return Some(i);
            }
        }
        i = i + 1;
    }
    proof {
        lemma_first_hit(s, p);
        if first_hit(s, p) is Some {
            let j = first_hit(s, p)->0;
            assert(is_first_hit(s, p, j));
        }
    }
    None
}

} // verus!
