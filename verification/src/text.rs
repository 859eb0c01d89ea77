//! Text model shared by the editor: a line is a `String` whose view is its
//! sequence of characters; byte offsets into a line are offsets into the
//! line's UTF-8 encoding, as in `str`.
use vstd::prelude::*;
use vstd::utf8::*;

verus! {

broadcast use vstd::utf8::group_utf8_lib;

/// The UTF-8 encoding of a character sequence.
pub open spec fn utf8(s: Seq<char>) -> Seq<u8> {
    encode_utf8(s)
}

/// Length in bytes of the UTF-8 encoding of `s` (what `str::len` returns).
pub open spec fn byte_len(s: Seq<char>) -> nat {
    encode_utf8(s).len()
}

/// `i` is a byte offset at which a character of `s` starts, or the end of `s`.
pub open spec fn is_boundary(s: Seq<char>, i: int) -> bool {
    is_char_boundary(encode_utf8(s), i)
}

/// The number of characters that lie before byte offset `i` of `s`.
pub open spec fn char_index(s: Seq<char>, i: int) -> int {
    decode_utf8(encode_utf8(s).subrange(0, i)).len() as int
}

/// The byte offset at which character `k` of `s` starts.
pub open spec fn byte_offset(s: Seq<char>, k: int) -> nat {
    byte_len(s.take(k))
}

/// Unicode `White_Space` characters, as `char::is_whitespace` documents them.
pub open spec fn is_white(c: char) -> bool {
    let u = c as u32;
    ||| 0x09 <= u <= 0x0D
    ||| u == 0x20
    ||| u == 0x85
    ||| u == 0xA0
    ||| u == 0x1680
    ||| 0x2000 <= u <= 0x200A
    ||| u == 0x2028
    ||| u == 0x2029
    ||| u == 0x202F
    ||| u == 0x205F
    ||| u == 0x3000
}

/// Encoding distributes over concatenation.
pub proof fn lemma_utf8_concat(a: Seq<char>, b: Seq<char>)
    ensures
        encode_utf8(a + b) == encode_utf8(a) + encode_utf8(b),
    decreases a.len(),
{
    if a.len() == 0 {
        assert(a + b =~= b);
        assert(encode_utf8(a) =~= Seq::<u8>::empty());
        assert(encode_utf8(a) + encode_utf8(b) =~= encode_utf8(b));
    } else {
        assert((a + b).drop_first() =~= a.drop_first() + b);
        assert((a + b)[0] == a[0]);
        lemma_utf8_concat(a.drop_first(), b);
        assert(encode_utf8(a + b) =~= encode_scalar(a[0] as u32) + (encode_utf8(a.drop_first())
            + encode_utf8(b)));
        assert(encode_utf8(a + b) =~= encode_utf8(a) + encode_utf8(b));
    }
}

/// Encoding is injective.
pub proof fn lemma_utf8_injective(a: Seq<char>, b: Seq<char>)
    requires
        encode_utf8(a) == encode_utf8(b),
    ensures
        a == b,
{
    assert(decode_utf8(encode_utf8(a)) == a);
    assert(decode_utf8(encode_utf8(b)) == b);
}

/// Splitting the encoding of `s` at a character boundary splits `s` itself.
pub proof fn lemma_split_at_boundary(s: Seq<char>, i: int)
    requires
        is_boundary(s, i),
    ensures
        0 <= i <= byte_len(s),
        0 <= char_index(s, i) <= s.len(),
        encode_utf8(s.take(char_index(s, i))) == encode_utf8(s).subrange(0, i),
        encode_utf8(s.skip(char_index(s, i))) == encode_utf8(s).subrange(i, byte_len(s) as int),
        byte_offset(s, char_index(s, i)) == i,
        i < byte_len(s) ==> char_index(s, i) < s.len(),
{
    let bytes = encode_utf8(s);
    assert(valid_utf8(bytes));
    assert(0 <= i <= bytes.len()) by {
        reveal_with_fuel(is_char_boundary, 1);
    }
    let b1 = bytes.subrange(0, i);
    let b2 = bytes.subrange(i, bytes.len() as int);
    valid_utf8_split(bytes, i);
    decode_utf8_split(bytes, i);
    let d1 = decode_utf8(b1);
    let d2 = decode_utf8(b2);
    assert(decode_utf8(bytes) == s);
    assert(s =~= d1 + d2);
    let k = d1.len() as int;
    assert(s.take(k) =~= d1);
    assert(s.skip(k) =~= d2);
    assert(encode_utf8(d1) == b1);
    assert(encode_utf8(d2) == b2);
    if i < bytes.len() {
        if k == s.len() {
            assert(d2.len() == 0);
            assert(b2 =~= encode_utf8(d2));
            assert(false);
        }
    }
}

/// Every character offset corresponds to a boundary of the encoding.
pub proof fn lemma_offset_is_boundary(s: Seq<char>, k: int)
    requires
        0 <= k <= s.len(),
    ensures
        is_boundary(s, byte_offset(s, k) as int),
        char_index(s, byte_offset(s, k) as int) == k,
        byte_offset(s, k) <= byte_len(s),
    decreases k,
{
    let bytes = encode_utf8(s);
    lemma_utf8_concat(s.take(k), s.skip(k));
    assert(s.take(k) + s.skip(k) =~= s);
    let i = byte_offset(s, k) as int;
    assert(bytes.subrange(0, i) =~= encode_utf8(s.take(k)));
    assert(decode_utf8(encode_utf8(s.take(k))) == s.take(k));
    if k == 0 {
        assert(is_char_boundary(bytes, 0));
    } else {
        let rest = s.drop_first();
        encode_utf8_first_scalar(s);
        let w = length_of_first_scalar(bytes);
        assert(pop_first_scalar(bytes) =~= encode_utf8(rest));
        lemma_offset_is_boundary(rest, k - 1);
        assert(s.take(k) =~= seq![s[0]] + rest.take(k - 1));
        lemma_utf8_concat(seq![s[0]], rest.take(k - 1));
        lemma_utf8_single(s[0]);
        assert(i == w + byte_offset(rest, k - 1));
        assert(is_char_boundary(bytes, i) == is_char_boundary(pop_first_scalar(bytes), i - w));
    }
}

/// A single character encodes to between one and four bytes.
pub proof fn lemma_char_width(c: char)
    ensures
        1 <= byte_len(seq![c]) <= 4,
        (c as u32) < 0x80 <==> byte_len(seq![c]) == 1,
{
    lemma_utf8_single(c);
}

/// The encoding of a one-character sequence is the encoding of that character.
pub proof fn lemma_utf8_single(c: char)
    ensures
        encode_utf8(seq![c]) == encode_scalar(c as u32),
{
    assert(seq![c].drop_first() =~= Seq::<char>::empty());
    reveal_with_fuel(encode_utf8, 2);
    assert(encode_utf8(seq![c]) =~= encode_scalar(c as u32));
}


/// Byte length of a string slice (`str::len`).
pub fn text_len(s: &str) -> (n: usize)
    ensures
        n == byte_len(s@),
{
    let b = s.as_bytes();
    b.len()
}

/// Whether `i` is a character boundary of `s`.
pub fn text_is_boundary(s: &str, i: usize) -> (r: bool)
    ensures
        r == is_boundary(s@, i as int),
{
    s.is_char_boundary(i)
}

/// Splits `s` at byte offset `i` into two owned strings.
pub fn split_text(s: &str, i: usize) -> (res: (String, String))
    requires
        is_boundary(s@, i as int),
    ensures
        res.0@ == s@.take(char_index(s@, i as int)),
        res.1@ == s@.skip(char_index(s@, i as int)),
{
    proof {
        lemma_split_at_boundary(s@, i as int);
    }
    let (a, b) = s.split_at(i);
    proof {
        lemma_utf8_injective(a@, s@.take(char_index(s@, i as int)));
        lemma_utf8_injective(b@, s@.skip(char_index(s@, i as int)));
    }
    (a.to_owned(), b.to_owned())
}

/// Character equality of two string slices.
pub fn text_eq(a: &str, b: &str) -> (r: bool)
    ensures
        r == (a@ == b@),
{
    let x = a.as_bytes();
    let y = b.as_bytes();
    if x.len() != y.len() {
        return false;
    }
    let mut i: usize = 0;
    while i < x.len()
        invariant
            x@ == encode_utf8(a@),
            y@ == encode_utf8(b@),
            x@.len() == y@.len(),
            0 <= i <= x@.len(),
            forall|j: int| 0 <= j < i ==> x@[j] == y@[j],
        decreases x@.len() - i,
    {
        if x[i] != y[i] {
            return false;
        }
        i = i + 1;
    }
    proof {
        assert(x@ =~= y@);
        lemma_utf8_injective(a@, b@);
    }
    true
}

/// The first byte offset `p >= from` at which `needle` occurs in `hay`.
pub open spec fn find_from(hay: Seq<u8>, needle: Seq<u8>, from: int) -> Option<int> {
    if exists|p: int| #[trigger] occurs_at(hay, needle, p) && from <= p {
        Some(choose|p: int| #[trigger] occurs_at(hay, needle, p) && from <= p && forall|q: int|
            from <= q < p ==> !occurs_at(hay, needle, q))
    } else {
        None
    }
}

/// `needle` occurs in `hay` starting at byte offset `p`.
pub open spec fn occurs_at(hay: Seq<u8>, needle: Seq<u8>, p: int) -> bool {
    0 <= p && p + needle.len() <= hay.len() && hay.subrange(p, p + needle.len()) == needle
}

proof fn lemma_find_from_first(hay: Seq<u8>, needle: Seq<u8>, from: int, p: int)
    requires
        occurs_at(hay, needle, p),
        from <= p,
        forall|q: int| from <= q < p ==> !occurs_at(hay, needle, q),
    ensures
        find_from(hay, needle, from) == Some(p),
{
    let w = choose|p: int| #[trigger] occurs_at(hay, needle, p) && from <= p && forall|q: int|
        from <= q < p ==> !occurs_at(hay, needle, q);
    assert(occurs_at(hay, needle, p) && from <= p && forall|q: int|
        from <= q < p ==> !occurs_at(hay, needle, q));
    if w < p {
        assert(!occurs_at(hay, needle, w));
    }
    if p < w {
        assert(!occurs_at(hay, needle, p));
    }
}

/// An occurrence at `w` at or after `k`, with none from `from` up to `k`,
/// makes `find_from` give the first one.
proof fn lemma_first_occurrence(hay: Seq<u8>, needle: Seq<u8>, from: int, k: int, w: int)
    requires
        from <= k <= w,
        occurs_at(hay, needle, w),
        forall|q: int| from <= q < k ==> !occurs_at(hay, needle, q),
    ensures
        find_from(hay, needle, from) is Some,
        from <= find_from(hay, needle, from)->0,
        occurs_at(hay, needle, find_from(hay, needle, from)->0),
        forall|q: int| from <= q < find_from(hay, needle, from)->0 ==> !occurs_at(hay, needle, q),
    decreases w - k,
{
    if occurs_at(hay, needle, k) {
        lemma_find_from_first(hay, needle, from, k);
    } else {
        lemma_first_occurrence(hay, needle, from, k + 1, w);
    }
}

/// `find_from` gives the first offset at or after `from` at which `needle`
/// occurs in `hay`, and `None` exactly when it occurs at no such offset.
pub proof fn lemma_find_from_spec(hay: Seq<u8>, needle: Seq<u8>, from: int)
    ensures
        match find_from(hay, needle, from) {
            Some(p) => from <= p && occurs_at(hay, needle, p) && forall|q: int|
                from <= q < p ==> !occurs_at(hay, needle, q),
            None => forall|p: int| from <= p ==> !occurs_at(hay, needle, p),
        },
{
    if exists|p: int| #[trigger] occurs_at(hay, needle, p) && from <= p {
        let w = choose|p: int| #[trigger] occurs_at(hay, needle, p) && from <= p;
        lemma_first_occurrence(hay, needle, from, from, w);
    }
}

/// A non-empty character sequence has a non-empty encoding.
pub proof fn lemma_utf8_nonempty(s: Seq<char>)
    requires
        s.len() > 0,
    ensures
        utf8(s).len() > 0,
{
    assert(s =~= seq![s[0]] + s.drop_first());
    lemma_utf8_concat(seq![s[0]], s.drop_first());
    lemma_char_width(s[0]);
}

/// Byte-level substring search from offset `from` (the search `str::find` performs).
#[verifier::rlimit(40)]
pub fn find_bytes(hay: &[u8], needle: &[u8], from: usize) -> (r: Option<usize>)
    ensures
        match r {
            Some(p) => find_from(hay@, needle@, from as int) == Some(p as int),
            None => find_from(hay@, needle@, from as int) is None,
        },
{
    let n = hay.len();
    let m = needle.len();
    if m > n {
        assert forall|p: int| !#[trigger] occurs_at(hay@, needle@, p) by {}
        return None;
    }
    let mut p = from;
    while p <= n - m
        invariant
            n == hay@.len(),
            m == needle@.len(),
            m <= n,
            from <= p,
            forall|q: int| from <= q < p ==> !#[trigger] occurs_at(hay@, needle@, q),
        decreases n - m + 1 - p,
    {
        let mut j: usize = 0;
        let mut same = true;
        while j < m
            invariant
                n == hay@.len(),
                m == needle@.len(),
                p + m <= n,
                0 <= j <= m,
                same ==> forall|t: int| 0 <= t < j ==> hay@[p + t] == needle@[t],
                !same ==> !occurs_at(hay@, needle@, p as int),
            decreases m - j,
        {
            if same && hay[p + j] != needle[j] {
                same = false;
                proof {
                    if occurs_at(hay@, needle@, p as int) {
                        assert(hay@.subrange(p as int, p + m)[j as int] == hay@[p + j]);
                    }
                }
            }
            j = j + 1;
        }
        if same {
            proof {
                assert(hay@.subrange(p as int, p + m) =~= needle@);
                lemma_find_from_first(hay@, needle@, from as int, p as int);
            }
            return Some(p);
        }
        if p == n - m {
            proof {
                assert forall|q: int| from <= q implies !#[trigger] occurs_at(hay@, needle@, q) by {
                    if q > p {
                        assert(q + m > n);
                    }
                }
            }
            return None;
        }
        p = p + 1;
    }
    proof {
        assert forall|q: int| from <= q implies !#[trigger] occurs_at(hay@, needle@, q) by {
            if q >= p {
                assert(q + m > n);
            }
        }
    }
    None
}

/// Whether `c` is Unicode white space (`char::is_whitespace`).
pub fn is_whitespace(c: char) -> (r: bool)
    ensures
        r == is_white(c),
{
    let u = c as u32;
    (0x09 <= u && u <= 0x0D) || u == 0x20 || u == 0x85 || u == 0xA0 || u == 0x1680 || (0x2000
        <= u && u <= 0x200A) || u == 0x2028 || u == 0x2029 || u == 0x202F || u == 0x205F || u
        == 0x3000
}


/// `s` without its leading white space.
pub open spec fn trim_start_view(s: Seq<char>) -> Seq<char>
    decreases s.len(),
{
    if s.len() > 0 && is_white(s[0]) {
        trim_start_view(s.drop_first())
    } else {
        s
    }
}

/// `s` without its trailing white space.
pub open spec fn trim_end_view(s: Seq<char>) -> Seq<char>
    decreases s.len(),
{
    if s.len() > 0 && is_white(s.last()) {
        trim_end_view(s.drop_last())
    } else {
        s
    }
}

/// `s` without leading and trailing white space (what `str::trim` returns).
pub open spec fn trimmed(s: Seq<char>) -> Seq<char> {
    trim_end_view(trim_start_view(s))
}

/// `s` without leading and trailing white space.
pub fn trim(s: &str) -> (r: &str)
    ensures
        r@ == trimmed(s@),
{
    let cs = chars_of(s);
    let n = cs.len();
    let mut a: usize = 0;
    assert(s@.skip(0) =~= s@);
    while a < n && is_whitespace(cs[a])
        invariant
            a <= n,
            n == s@.len(),
            cs@ == s@,
            trim_start_view(s@.skip(a as int)) == trim_start_view(s@),
        decreases n - a,
    {
        assert(s@.skip(a as int).drop_first() =~= s@.skip(a + 1));
        a = a + 1;
    }
    assert(trim_start_view(s@.skip(a as int)) == s@.skip(a as int));
    let mut b: usize = n;
    assert(s@.subrange(a as int, n as int) =~= s@.skip(a as int));
    while b > a && is_whitespace(cs[b - 1])
        invariant
            a <= b <= n,
            n == s@.len(),
            cs@ == s@,
            trim_end_view(s@.subrange(a as int, b as int)) == trimmed(s@),
        decreases b - a,
    {
        assert(s@.subrange(a as int, b as int).drop_last() =~= s@.subrange(a as int, b - 1));
        b = b - 1;
    }
    s.substring_char(a, b)
}

/// The characters of `s`, one by one.
pub fn chars_of(s: &str) -> (v: Vec<char>)
    ensures
        v@ == s@,
{
    broadcast use vstd::string::group_string_axioms;

    let mut v: Vec<char> = Vec::new();
    for c in it: s.chars()
        invariant
            it.seq() == s@,
            v@ == s@.take(it.index() as int),
    {
        v.push(c);
        assert(v@ =~= s@.take(it.index() + 1));
    }
    assert(s@.take(s@.len() as int) =~= s@);
    v
}

/// The lowercase mapping of a string, as `str::to_lowercase` computes it.
pub uninterp spec fn lowercase(s: Seq<char>) -> Seq<char>;

/// Calls `str::to_lowercase`; its result is named `lowercase` (the full
/// Unicode mapping, which depends on the argument alone).
#[verifier::external_body]
pub(crate) fn to_lowercase(s: &str) -> (r: String)
    ensures
        r@ == lowercase(s@),
{
    s.to_lowercase()
}

/// Calls `String::push`, which appends one character.
#[verifier::external_body]
pub(crate) fn push_char(s: &mut String, c: char)
    ensures
        final(s)@ == old(s)@.push(c),
{
    s.push(c)
}

/// Calls `String::pop`, which removes and returns the last character, or
/// returns `None` and leaves an empty string unchanged.
#[verifier::external_body]
pub(crate) fn pop_char(s: &mut String) -> (r: Option<char>)
    ensures
        old(s)@.len() == 0 ==> r is None && final(s)@ == old(s)@,
        old(s)@.len() > 0 ==> r == Some(old(s)@.last()) && final(s)@ == old(s)@.drop_last(),
{
    s.pop()
}

} // verus!
