//! The window's icon sizes and the order its asset source answers in.
use crate::text::texts;
use vstd::prelude::*;

verus! {

/// A navigation icon: the sidebar, where the icon carries the label.
pub const NAV: u32 = 18;

/// An action icon: buttons, list rows and menu items.
pub const ACTION: u32 = 16;

/// The single icon an empty page shows.
pub const EMPTY: u32 = 36;

/// Where an asset is answered from.
#[derive(Clone, Copy, PartialEq, Eq, Debug, Structural)]
pub enum AssetOrigin {
    /// The window's own marks.
    Extra,
    /// The application's brand mark.
    Brand,
    /// The component library's defaults, which the widgets expect to find.
    Defaults,
}

/// The path the brand mark is served under.
pub open spec fn brand_path() -> Seq<char> {
    seq!['b', 'r', 'a', 'n', 'd', '/', 'i', 'c', 'o', 'n', '.', 'p', 'n', 'g']
}

/// A name the window's own marks know is answered by them; then the brand
/// mark; everything else falls through to the library's defaults.
pub fn asset_origin(found_in_extra: bool, path: &str) -> (o: AssetOrigin)
    ensures
        o == (if found_in_extra {
            AssetOrigin::Extra
        } else if path@ == brand_path() {
            AssetOrigin::Brand
        } else {
            AssetOrigin::Defaults
        }),
{
    if found_in_extra {
        return AssetOrigin::Extra;
    }
    let brand = String::from_str("brand/icon.png");
    proof {
        reveal_strlit("brand/icon.png");
        assert(brand@ =~= brand_path());
    }
    if String::from_str(path) == brand {
        AssetOrigin::Brand
    } else {
        AssetOrigin::Defaults
    }
}

/// Whether `a` sorts before `b`: character by character by code point, a
/// proper prefix first. For UTF-8 text this is the byte order `str` sorts by.
pub open spec fn precedes(a: Seq<char>, b: Seq<char>) -> bool
    decreases a.len(),
{
    if a.len() == 0 {
        b.len() > 0
    } else if b.len() == 0 {
        false
    } else if a[0] != b[0] {
        (a[0] as int) < (b[0] as int)
    } else {
        precedes(a.drop_first(), b.drop_first())
    }
}

proof fn lemma_precedes_irreflexive(a: Seq<char>)
    ensures
        !precedes(a, a),
    decreases a.len(),
{
    if a.len() > 0 {
        lemma_precedes_irreflexive(a.drop_first());
    }
}

proof fn lemma_precedes_transitive(a: Seq<char>, b: Seq<char>, c: Seq<char>)
    requires
        precedes(a, b),
        precedes(b, c),
    ensures
        precedes(a, c),
    decreases a.len(),
{
    if a.len() > 0 && b.len() > 0 && c.len() > 0 && a[0] == b[0] && b[0] == c[0] {
        lemma_precedes_transitive(a.drop_first(), b.drop_first(), c.drop_first());
    }
}

proof fn lemma_precedes_total(a: Seq<char>, b: Seq<char>)
    requires
        a != b,
    ensures
        precedes(a, b) || precedes(b, a),
    decreases a.len(),
{
    if a.len() > 0 && b.len() > 0 && a[0] == b[0] {
        if a.drop_first() == b.drop_first() {
            assert(a =~= seq![a[0]] + a.drop_first());
            assert(b =~= seq![b[0]] + b.drop_first());
        }
        lemma_precedes_total(a.drop_first(), b.drop_first());
    } else if a.len() > 0 && b.len() > 0 {
        assert((a[0] as int) != (b[0] as int));
    } else if a.len() == 0 && b.len() == 0 {
        assert(a =~= b);
    }
}

proof fn lemma_precedes_skip(a: Seq<char>, b: Seq<char>, i: int)
    requires
        0 <= i <= a.len(),
        i <= b.len(),
        a.subrange(0, i) == b.subrange(0, i),
    ensures
        precedes(a, b) == precedes(a.skip(i), b.skip(i)),
    decreases i,
{
    if i > 0 {
        assert(a.subrange(0, i - 1) =~= a.subrange(0, i).subrange(0, i - 1));
        assert(b.subrange(0, i - 1) =~= b.subrange(0, i).subrange(0, i - 1));
        lemma_precedes_skip(a, b, i - 1);
        assert(a[i - 1] == a.subrange(0, i)[i - 1]);
        assert(b[i - 1] == b.subrange(0, i)[i - 1]);
        assert(a.skip(i - 1)[0] == a[i - 1]);
        assert(b.skip(i - 1)[0] == b[i - 1]);
        assert(a.skip(i - 1).drop_first() =~= a.skip(i));
        assert(b.skip(i - 1).drop_first() =~= b.skip(i));
    } else {
        assert(a.skip(0) =~= a);
        assert(b.skip(0) =~= b);
    }
}

/// Whether `a` sorts before `b`.
pub fn sorts_before(a: &str, b: &str) -> (r: bool)
    ensures
        r == precedes(a@, b@),
{
    let n = a.unicode_len();
    let m = b.unicode_len();
    let mut i: usize = 0;
    while i < n && i < m
        invariant
            n == a@.len(),
            m == b@.len(),
            i <= n,
            i <= m,
            a@.subrange(0, i as int) == b@.subrange(0, i as int),
        decreases n - i,
    {
        let x = a.get_char(i);
        let y = b.get_char(i);
        if x != y {
            proof {
                lemma_precedes_skip(a@, b@, i as int);
                assert(a@.skip(i as int)[0] == x);
                assert(b@.skip(i as int)[0] == y);
            }
            return (x as u32) < (y as u32);
        }
        proof {
            assert(a@.subrange(0, i + 1) =~= a@.subrange(0, i as int).push(x));
            assert(b@.subrange(0, i + 1) =~= b@.subrange(0, i as int).push(y));
        }
        i = i + 1;
    }
    proof {
        lemma_precedes_skip(a@, b@, i as int);
    }
    i == n && i < m
}

/// A list of names in strictly ascending order: sorted, each name once.
pub open spec fn ascending(s: Seq<Seq<char>>) -> bool {
    forall|i: int, j: int| 0 <= i < j < s.len() ==> precedes(#[trigger] s[i], #[trigger] s[j])
}

/// Puts a name in its place in a sorted list, unless it is already there.
fn insert_sorted(v: &mut Vec<String>, x: String)
    requires
        ascending(texts(old(v)@)),
    ensures
        ascending(texts(final(v)@)),
        forall|t: Seq<char>| texts(final(v)@).contains(t) <==> (texts(old(v)@).contains(t) || t == x@),
{
    let ghost before = texts(v@);
    let mut i: usize = 0;
    while i < v.len() && sorts_before(v[i].as_str(), x.as_str())
        invariant
            i <= v@.len(),
            v@ == old(v)@,
            before == texts(v@),
            ascending(before),
            forall|k: int| 0 <= k < i ==> precedes(#[trigger] before[k], x@),
        decreases v@.len() - i,
    {
        i = i + 1;
    }
    if i < v.len() && v[i] == x {
        proof {
            assert forall|t: Seq<char>| texts(v@).contains(t) <==> (before.contains(t) || t == x@) by {
                if t == x@ {
                    assert(before[i as int] == x@);
                }
            }
        }
        return;
    }
    proof {
        if i < v@.len() {
            lemma_precedes_total(before[i as int], x@);
            assert(precedes(x@, before[i as int]));
            assert forall|k: int| i < k < before.len() implies precedes(x@, #[trigger] before[k]) by {
                lemma_precedes_transitive(x@, before[i as int], before[k]);
            }
        }
    }
    let ghost xv = x@;
    v.insert(i, x);
    proof {
        let after = texts(v@);
        assert(after =~= before.insert(i as int, xv));
        assert forall|j: int, k: int| 0 <= j < k < after.len() implies precedes(#[trigger] after[j], #[trigger] after[k]) by {
            if k < i {
            } else if k == i {
            } else if j < i {
                assert(after[k] == before[k - 1]);
                if k - 1 == i as int {
                } else {
                    assert(precedes(before[j], before[i as int]));
                    lemma_precedes_transitive(before[j], before[i as int], before[k - 1]);
                }
            } else if j == i {
                assert(after[k] == before[k - 1]);
                if k - 1 > i as int {
                } else {
                }
            } else {
                assert(after[j] == before[j - 1]);
                assert(after[k] == before[k - 1]);
            }
        }
        assert forall|t: Seq<char>| after.contains(t) <==> (before.contains(t) || t == xv) by {
            if after.contains(t) {
                let k = choose|k: int| 0 <= k < after.len() && after[k] == t;
                if k < i {
                    assert(before[k] == t);
                } else if k > i {
                    assert(before[k - 1] == t);
                }
            }
            if before.contains(t) {
                let k = choose|k: int| 0 <= k < before.len() && before[k] == t;
                if k < i {
                    assert(after[k] == t);
                } else {
                    assert(after[k + 1] == t);
                }
            }
            if t == xv {
                assert(after[i as int] == t);
            }
        }
    }
}

/// Everything two sources list, as one sorted list with each name once:
/// the window's own marks and the library's defaults together.
pub fn merged_listing(extra: &Vec<String>, defaults: &Vec<String>) -> (r: Vec<String>)
    ensures
        ascending(texts(r@)),
        forall|t: Seq<char>| texts(r@).contains(t) <==> (texts(extra@).contains(t) || texts(defaults@).contains(t)),
{
    let mut r: Vec<String> = Vec::new();
    let mut i: usize = 0;
    while i < extra.len()
        invariant
            i <= extra@.len(),
            ascending(texts(r@)),
            forall|t: Seq<char>| texts(r@).contains(t) <==> texts(extra@).take(i as int).contains(t),
        decreases extra@.len() - i,
    {
                insert_sorted(&mut r, extra[i].clone());
        proof {
            let e = texts(extra@);
            let longer = e.take(i + 1);
            let shorter = e.take(i as int);
            assert(longer =~= shorter.push(e[i as int]));
            assert(e[i as int] == extra@[i as int]@);
            assert forall|t: Seq<char>| texts(r@).contains(t) <==> longer.contains(t) by {
                if longer.contains(t) {
                    let k = choose|k: int| 0 <= k < longer.len() && #[trigger] longer[k] == t;
                    if k < i {
                        assert(shorter[k] == t);
                    }
                }
                if shorter.contains(t) {
                    let k = choose|k: int| 0 <= k < shorter.len() && #[trigger] shorter[k] == t;
                    assert(longer[k] == t);
                }
                if t == e[i as int] {
                    assert(longer[i as int] == t);
                }
            }
        }
        i = i + 1;
    }
    proof {
        assert(texts(extra@).take(extra@.len() as int) =~= texts(extra@));
    }
    let mut j: usize = 0;
    while j < defaults.len()
        invariant
            j <= defaults@.len(),
            ascending(texts(r@)),
            forall|t: Seq<char>| texts(r@).contains(t) <==> (texts(extra@).contains(t) || texts(defaults@).take(
                j as int,
            ).contains(t)),
        decreases defaults@.len() - j,
    {
        insert_sorted(&mut r, defaults[j].clone());
        proof {
            let d = texts(defaults@);
            let longer = d.take(j + 1);
            let shorter = d.take(j as int);
            assert(longer =~= shorter.push(d[j as int]));
            assert(d[j as int] == defaults@[j as int]@);
            assert forall|t: Seq<char>| longer.contains(t) <==> (shorter.contains(t) || t == d[j as int]) by {
                if longer.contains(t) {
                    let k = choose|k: int| 0 <= k < longer.len() && #[trigger] longer[k] == t;
                    if k < j {
                        assert(shorter[k] == t);
                    }
                }
                if shorter.contains(t) {
                    let k = choose|k: int| 0 <= k < shorter.len() && #[trigger] shorter[k] == t;
                    assert(longer[k] == t);
                }
                if t == d[j as int] {
                    assert(longer[j as int] == t);
                }
            }
        }
        j = j + 1;
    }
    proof {
        assert(texts(defaults@).take(defaults@.len() as int) =~= texts(defaults@));
    }
    r
}

} // verus!
