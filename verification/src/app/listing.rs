//! The order in which directory listings are shown: directories first, each
//! group by name, and the names the file tree leaves out.
use vstd::prelude::*;
use crate::text::{chars_of, text_eq};

verus! {

/// Three-way comparison of two names, character by character by code
/// point (the order of `String` comparison, since UTF-8 keeps code point
/// order): negative, zero or positive as `a` comes before, equals or
/// comes after `b`.
pub open spec fn name_order(a: Seq<char>, b: Seq<char>) -> int
    decreases a.len(),
{
    if a.len() == 0 {
        if b.len() == 0 { 0 } else { -1 }
    } else if b.len() == 0 {
        1
    } else if (a[0] as u32) < (b[0] as u32) {
        -1
    } else if (a[0] as u32) > (b[0] as u32) {
        1
    } else {
        name_order(a.drop_first(), b.drop_first())
    }
}

/// Three-way comparison of two listing entries: a directory comes before a
/// file, and entries of the same kind go by name.
pub open spec fn entry_order(a_dir: bool, a: Seq<char>, b_dir: bool, b: Seq<char>) -> int {
    if a_dir && !b_dir {
        -1
    } else if !a_dir && b_dir {
        1
    } else {
        name_order(a, b)
    }
}

proof fn lemma_name_order_antisym(a: Seq<char>, b: Seq<char>)
    ensures
        name_order(a, b) == -name_order(b, a),
        -1 <= name_order(a, b) <= 1,
    decreases a.len(),
{
    if a.len() > 0 && b.len() > 0 && (a[0] as u32) == (b[0] as u32) {
        lemma_name_order_antisym(a.drop_first(), b.drop_first());
    }
}

proof fn lemma_name_order_trans(a: Seq<char>, b: Seq<char>, c: Seq<char>)
    requires
        name_order(a, b) <= 0,
        name_order(b, c) <= 0,
    ensures
        name_order(a, c) <= 0,
        name_order(a, b) < 0 || name_order(b, c) < 0 ==> name_order(a, c) < 0,
    decreases a.len(),
{
    if a.len() > 0 && b.len() > 0 && c.len() > 0 && (a[0] as u32) == (b[0] as u32) && (b[0] as u32)
        == (c[0] as u32) {
        lemma_name_order_trans(a.drop_first(), b.drop_first(), c.drop_first());
    }
}

/// Where two entries `(dir, name)` stand to each other.
pub open spec fn key_order(ks: Seq<(bool, Seq<char>)>, i: int, j: int) -> int {
    entry_order(ks[i].0, ks[i].1, ks[j].0, ks[j].1)
}

proof fn lemma_key_antisym(ks: Seq<(bool, Seq<char>)>, i: int, j: int)
    ensures
        key_order(ks, i, j) == -key_order(ks, j, i),
{
    lemma_name_order_antisym(ks[i].1, ks[j].1);
}

proof fn lemma_key_trans(ks: Seq<(bool, Seq<char>)>, i: int, j: int, k: int)
    requires
        key_order(ks, i, j) < 0,
        key_order(ks, j, k) <= 0,
    ensures
        key_order(ks, i, k) < 0,
{
    if ks[i].0 == ks[j].0 && ks[j].0 == ks[k].0 {
        lemma_name_order_trans(ks[i].1, ks[j].1, ks[k].1);
    }
}

/// Compares two names as `name_order` does.
pub fn compare_names(a: &str, b: &str) -> (r: i8)
    ensures
        r == name_order(a@, b@),
{
    let x = chars_of(a);
    let y = chars_of(b);
    let mut i: usize = 0;
    assert(a@.skip(0) =~= a@ && b@.skip(0) =~= b@);
    while i < x.len() && i < y.len()
        invariant
            x@ == a@,
            y@ == b@,
            i <= x@.len(),
            i <= y@.len(),
            name_order(a@, b@) == name_order(a@.skip(i as int), b@.skip(i as int)),
        decreases x@.len() - i,
    {
        let c = x[i] as u32;
        let d = y[i] as u32;
        if c < d {
            return -1;
        }
        if c > d {
            return 1;
        }
        assert(a@.skip(i as int).drop_first() =~= a@.skip(i + 1));
        assert(b@.skip(i as int).drop_first() =~= b@.skip(i + 1));
        i = i + 1;
    }
    if i < x.len() {
        1
    } else if i < y.len() {
        -1
    } else {
        0
    }
}

/// The entries `(dir, name)` of the listing.
pub open spec fn listing_keys(names: Seq<String>, dirs: Seq<bool>) -> Seq<(bool, Seq<char>)> {
    Seq::new(names.len(), |i: int| (dirs[i], names[i]@))
}

/// `order` lists each index below `n` once, sorted by `key_order`, and
/// entries that compare equal keep their order.
pub open spec fn sorted_listing(ks: Seq<(bool, Seq<char>)>, order: Seq<usize>, n: int) -> bool {
    &&& order.len() == n
    &&& forall|j: int| 0 <= j < n ==> #[trigger] order[j] < n
    &&& forall|j: int, k: int| 0 <= j < k < n ==> #[trigger] order[j] != #[trigger] order[k]
    &&& forall|j: int, k: int|
        0 <= j < k < n ==> #[trigger] key_order(ks, order[j] as int, order[k] as int) <= 0
    &&& forall|j: int, k: int|
        0 <= j < k < n && key_order(ks, order[j] as int, order[k] as int) == 0 ==> order[j]
            < order[k]
}

/// The order in which to show a listing whose entries have the names
/// `names` and are directories as `dirs` says: the positions of the entries,
/// directories first, each group by name, entries that compare equal in
/// their given order (a stable sort).
pub fn listing_order(names: &Vec<String>, dirs: &Vec<bool>) -> (order: Vec<usize>)
    requires
        names@.len() == dirs@.len(),
    ensures
        sorted_listing(listing_keys(names@, dirs@), order@, names@.len() as int),
{
    let ghost ks = listing_keys(names@, dirs@);
    let mut order: Vec<usize> = Vec::new();
    let mut i: usize = 0;
    while i < names.len()
        invariant
            names@.len() == dirs@.len(),
            ks == listing_keys(names@, dirs@),
            i <= names@.len(),
            sorted_listing(ks, order@, i as int),
        decreases names@.len() - i,
    {
        let mut p: usize = 0;
        while p < order.len()
            invariant
                names@.len() == dirs@.len(),
                ks == listing_keys(names@, dirs@),
                i < names@.len(),
                sorted_listing(ks, order@, i as int),
                p <= order@.len(),
                forall|j: int| 0 <= j < p ==> #[trigger] key_order(ks, i as int, order@[j] as int) >= 0,
            ensures
                p <= order@.len(),
                forall|j: int| 0 <= j < p ==> #[trigger] key_order(ks, i as int, order@[j] as int) >= 0,
                p < order@.len() ==> key_order(ks, i as int, order@[p as int] as int) < 0,
            decreases order@.len() - p,
        {
            let q = order[p];
            let c: i8 = if dirs[i] && !dirs[q] {
                -1
            } else if !dirs[i] && dirs[q] {
                1
            } else {
                compare_names(names[i].as_str(), names[q].as_str())
            };
            assert(c == key_order(ks, i as int, q as int));
            if c < 0 {
                break;
            }
            p = p + 1;
        }
        let ghost old_order = order@;
        proof {
            assert forall|j: int| p <= j < old_order.len() implies #[trigger] key_order(
                ks,
                i as int,
                old_order[j] as int,
            ) < 0 by {
                if j > p {
                    assert(key_order(ks, old_order[p as int] as int, old_order[j] as int) <= 0);
                    lemma_key_trans(ks, i as int, old_order[p as int] as int, old_order[j] as int);
                }
            }
        }
        order.insert(p, i);
        proof {
            let n = i + 1;
            let o = order@;
            assert(o.len() == n);
            assert forall|j: int| 0 <= j < n implies #[trigger] o[j] < n by {
                if j < p {
                    assert(o[j] == old_order[j]);
                } else if j > p {
                    assert(o[j] == old_order[j - 1]);
                }
            }
            assert forall|j: int, k: int| 0 <= j < k < n implies #[trigger] o[j] != #[trigger] o[k]
                && key_order(ks, o[j] as int, o[k] as int) <= 0 && (key_order(
                ks,
                o[j] as int,
                o[k] as int,
            ) == 0 ==> o[j] < o[k]) by {
                if k < p {
                    assert(o[j] == old_order[j] && o[k] == old_order[k]);
                } else if k == p {
                    assert(o[j] == old_order[j]);
                    assert(key_order(ks, i as int, old_order[j] as int) >= 0);
                    lemma_key_antisym(ks, i as int, old_order[j] as int);
                } else if j > p {
                    assert(o[j] == old_order[j - 1] && o[k] == old_order[k - 1]);
                } else if j == p {
                    assert(o[k] == old_order[k - 1]);
                    assert(key_order(ks, i as int, old_order[k - 1] as int) < 0);
                } else {
                    assert(o[j] == old_order[j] && o[k] == old_order[k - 1]);
                }
            }
        }
        i = i + 1;
    }
    order
}

/// The file tree leaves out hidden names (starting with a dot) and the
/// `target` and `node_modules` build folders.
pub open spec fn tree_shows(name: Seq<char>) -> bool {
    &&& !(name.len() > 0 && name[0] == '.')
    &&& name != "target"@
    &&& name != "node_modules"@
}

/// Whether the file tree shows an entry named `name`.
pub fn shown_in_tree(name: &str) -> (r: bool)
    ensures
        r == tree_shows(name@),
{
    let cs = chars_of(name);
    if cs.len() > 0 && cs[0] == '.' {
        return false;
    }
    !text_eq(name, "target") && !text_eq(name, "node_modules")
}

} // verus!
