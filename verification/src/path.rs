//! File names, extensions and parents of `/`-separated paths, as `std::path::Path`
//! reads them on Unix.
use vstd::prelude::*;
use crate::text::chars_of;

verus! {

/// Start of the path component that ends at `e`: just after the last `'/'` before `e`.
pub open spec fn comp_start(p: Seq<char>, e: int) -> int
    decreases e,
{
    if 0 < e <= p.len() && p[e - 1] != '/' {
        comp_start(p, e - 1)
    } else {
        e
    }
}

/// Bounds of `comp_start`.
pub proof fn lemma_comp_start(p: Seq<char>, e: int)
    requires
        0 <= e <= p.len(),
    ensures
        0 <= comp_start(p, e) <= e,
        0 < e && p[e - 1] != '/' ==> comp_start(p, e) < e,
        forall|i: int| comp_start(p, e) <= i < e ==> p[i] != '/',
        comp_start(p, e) == 0 || p[comp_start(p, e) - 1] == '/',
    decreases e,
{
    if 0 < e && p[e - 1] != '/' {
        lemma_comp_start(p, e - 1);
    }
}

/// The character range of the file name of the path prefix `p[..e]`: its
/// last component, skipping empty and `"."` components; `None` when that
/// component is `".."`, or when only a leading `"."`, a root or nothing is left.
pub open spec fn name_range_from(p: Seq<char>, e: int) -> Option<(int, int)>
    decreases e,
{
    if e <= 0 || e > p.len() {
        None
    } else if p[e - 1] == '/' {
        name_range_from(p, e - 1)
    } else {
        let s = comp_start(p, e);
        if s + 1 == e && p[s] == '.' {
            if s == 0 {
                None
            } else {
                proof {
                    lemma_comp_start(p, e);
                }
                name_range_from(p, s)
            }
        } else if s + 2 == e && p[s] == '.' && p[s + 1] == '.' {
            None
        } else {
            Some((s, e))
        }
    }
}

/// The character range of the file name of `p` (`Path::file_name`).
pub open spec fn name_range(p: Seq<char>) -> Option<(int, int)> {
    name_range_from(p, p.len() as int)
}

/// The last `'.'` in `p[s..e]`, or -1.
pub open spec fn last_dot(p: Seq<char>, s: int, e: int) -> int
    decreases e - s,
{
    if e <= s {
        -1
    } else if p[e - 1] == '.' {
        e - 1
    } else {
        last_dot(p, s, e - 1)
    }
}

/// The character range of the extension of `p` (`Path::extension`): what
/// follows the last `'.'` of the file name, unless that dot starts the name.
pub open spec fn ext_range(p: Seq<char>) -> Option<(int, int)> {
    match name_range(p) {
        None => None,
        Some((s, e)) => {
            let d = last_dot(p, s, e);
            if d < 0 || d == s {
                None
            } else {
                Some((d + 1, e))
            }
        },
    }
}

/// With no `'.'` in `p[from..e]`, the last dot up to `e` is the last dot up
/// to `from`.
proof fn lemma_last_dot_skips(p: Seq<char>, s: int, from: int, e: int)
    requires
        s <= from <= e <= p.len(),
        forall|i: int| from <= i < e ==> p[i] != '.',
    ensures
        last_dot(p, s, e) == last_dot(p, s, from),
    decreases e - from,
{
    if e > from {
        lemma_last_dot_skips(p, s, from, e - 1);
    }
}

/// The file `f.` followed by a non-empty word without `'/'` or `'.'` has
/// that word as its extension.
pub proof fn lemma_dotted_name(w: Seq<char>)
    requires
        w.len() > 0,
        forall|i: int| 0 <= i < w.len() ==> #[trigger] w[i] != '/' && w[i] != '.',
    ensures
        ext_range(seq!['f', '.'] + w) == Some((2int, 2 + w.len() as int)),
{
    let p = seq!['f', '.'] + w;
    let n = p.len() as int;
    assert forall|i: int| 0 <= i < n implies p[i] != '/' by {
        if i >= 2 {
            assert(p[i] == w[i - 2]);
        }
    }
    lemma_comp_start(p, n);
    assert(p[n - 1] == w[w.len() - 1]);
    assert(comp_start(p, n) == 0);
    assert(name_range(p) == Some((0int, n)));
    assert forall|i: int| 2 <= i < n implies p[i] != '.' by {
        assert(p[i] == w[i - 2]);
    }
    lemma_last_dot_skips(p, 0, 2, n);
    assert(last_dot(p, 0, 2) == 1);
}

/// Computes `name_range` of the characters `cs`.
pub fn file_name_range(cs: &Vec<char>) -> (r: Option<(usize, usize)>)
    ensures
        match r {
            None => name_range(cs@) is None,
            Some((s, e)) => name_range(cs@) == Some((s as int, e as int)) && s <= e <= cs@.len(),
        },
{
    let n = cs.len();
    let mut e = n;
    loop
        invariant
            n == cs@.len(),
            e <= n,
            name_range(cs@) == name_range_from(cs@, e as int),
        decreases e,
    {
        if e == 0 {
            return None;
        }
        if cs[e - 1] == '/' {
            e = e - 1;
            continue ;
        }
        let mut s = e;
        while s > 0 && cs[s - 1] != '/'
            invariant
                n == cs@.len(),
                s <= e <= n,
                cs@[e - 1] != '/',
                comp_start(cs@, s as int) == comp_start(cs@, e as int),
            decreases s,
        {
            s = s - 1;
        }
        proof {
            lemma_comp_start(cs@, e as int);
        }
        if e - s == 1 && cs[s] == '.' {
            if s == 0 {
                return None;
            }
            e = s;
            continue ;
        }
        if e - s == 2 && cs[s] == '.' && cs[s + 1] == '.' {
            return None;
        }
        return Some((s, e));
    }
}

/// Computes `ext_range` of the characters `cs`.
pub fn extension_range(cs: &Vec<char>) -> (r: Option<(usize, usize)>)
    ensures
        match r {
            None => ext_range(cs@) is None,
            Some((s, e)) => ext_range(cs@) == Some((s as int, e as int)) && s <= e <= cs@.len(),
        },
{
    match file_name_range(cs) {
        None => None,
        Some((s, e)) => {
            let mut d = e;
            while d > s && cs[d - 1] != '.'
                invariant
                    s <= d <= e <= cs@.len(),
                    last_dot(cs@, s as int, d as int) == last_dot(cs@, s as int, e as int),
                decreases d,
            {
                d = d - 1;
            }
            if d == s || d - 1 == s {
                None
            } else {
                Some((d, e))
            }
        },
    }
}

/// The file name of `path` (`Path::new(path).file_name()`), as a slice of it.
pub fn file_name_of(path: &str) -> (r: Option<&str>)
    ensures
        match r {
            None => name_range(path@) is None,
            Some(n) => exists|s: int, e: int|
                name_range(path@) == Some((s, e)) && n@ == path@.subrange(s, e),
        },
{
    let cs = chars_of(path);
    match file_name_range(&cs) {
        None => None,
        Some((s, e)) => Some(path.substring_char(s, e)),
    }
}

/// The extension of `path` (`Path::new(path).extension()`), as a slice of it.
pub fn extension_of(path: &str) -> (r: Option<&str>)
    ensures
        match r {
            None => ext_range(path@) is None,
            Some(x) => exists|s: int, e: int|
                ext_range(path@) == Some((s, e)) && x@ == path@.subrange(s, e),
        },
{
    let cs = chars_of(path);
    match extension_range(&cs) {
        None => None,
        Some((s, e)) => Some(path.substring_char(s, e)),
    }
}

/// Where the path prefix `p[..k]` ends once trailing `'/'`s and `"."`
/// components other than a leading one are dropped; a leading root stays.
pub open spec fn kept_end(p: Seq<char>, k: int) -> int
    decreases k,
{
    if k <= 0 || k > p.len() {
        0
    } else if k == 1 && p[0] == '/' {
        1
    } else if p[k - 1] == '/' {
        kept_end(p, k - 1)
    } else {
        let s = comp_start(p, k);
        if s + 1 == k && p[s] == '.' && s > 0 {
            proof {
                lemma_comp_start(p, k);
            }
            kept_end(p, s)
        } else {
            k
        }
    }
}

/// Where the parent of the path prefix `p[..e]` ends (`Path::parent` on
/// Unix): the last component, skipping trailing `'/'`s and `"."`
/// components other than a leading one, is dropped and what is left before
/// it kept (see `kept_end`); `None` for an empty path or a root alone.
pub open spec fn parent_end(p: Seq<char>, e: int) -> Option<int>
    decreases e,
{
    if e <= 0 || e > p.len() {
        None
    } else if p[e - 1] == '/' {
        if e == 1 {
            None
        } else {
            parent_end(p, e - 1)
        }
    } else {
        let s = comp_start(p, e);
        if s + 1 == e && p[s] == '.' && s > 0 {
            proof {
                lemma_comp_start(p, e);
            }
            parent_end(p, s)
        } else {
            Some(kept_end(p, s))
        }
    }
}

/// The parent of the path `p` (`Path::parent` on Unix).
pub open spec fn parent_path(p: Seq<char>) -> Option<Seq<char>> {
    match parent_end(p, p.len() as int) {
        Some(k) => Some(p.take(k)),
        None => None,
    }
}

/// The start of the component of `cs` that ends at `e`.
fn comp_start_at(cs: &Vec<char>, e: usize) -> (s: usize)
    requires
        e <= cs@.len(),
    ensures
        s == comp_start(cs@, e as int),
        s <= e,
{
    let mut s = e;
    while s > 0 && cs[s - 1] != '/'
        invariant
            s <= e <= cs@.len(),
            comp_start(cs@, s as int) == comp_start(cs@, e as int),
        decreases s,
    {
        s = s - 1;
    }
    s
}

/// Computes `kept_end` of the characters `cs`.
fn kept_end_of(cs: &Vec<char>, k0: usize) -> (r: usize)
    requires
        k0 <= cs@.len(),
    ensures
        r == kept_end(cs@, k0 as int),
        r <= k0,
{
    let mut k = k0;
    loop
        invariant
            k <= k0 <= cs@.len(),
            kept_end(cs@, k as int) == kept_end(cs@, k0 as int),
        decreases k,
    {
        if k == 0 {
            return 0;
        }
        if k == 1 && cs[0] == '/' {
            return 1;
        }
        if cs[k - 1] == '/' {
            k = k - 1;
            continue ;
        }
        let s = comp_start_at(cs, k);
        proof {
            lemma_comp_start(cs@, k as int);
        }
        if s + 1 == k && cs[s] == '.' && s > 0 {
            k = s;
            continue ;
        }
        return k;
    }
}

/// The parent of `p` (`Path::new(p).parent()` on Unix).
pub fn path_parent(p: &str) -> (r: Option<String>)
    ensures
        match parent_path(p@) {
            Some(q) => r matches Some(s) && s@ == q,
            None => r is None,
        },
{
    let cs = chars_of(p);
    let mut e = cs.len();
    loop
        invariant
            cs@ == p@,
            e <= cs@.len(),
            parent_end(p@, e as int) == parent_end(p@, p@.len() as int),
        decreases e,
    {
        if e == 0 {
            return None;
        }
        if cs[e - 1] == '/' {
            if e == 1 {
                return None;
            }
            e = e - 1;
            continue ;
        }
        let s = comp_start_at(&cs, e);
        proof {
            lemma_comp_start(cs@, e as int);
        }
        if s + 1 == e && cs[s] == '.' && s > 0 {
            e = s;
            continue ;
        }
        let k = kept_end_of(&cs, s);
        let q = p.substring_char(0, k);
        assert(q@ =~= p@.take(k as int));
        return Some(q.to_owned());
    }
}

} // verus!
