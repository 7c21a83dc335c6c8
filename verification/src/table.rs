//! The table of downloads: which downloads it shows for the search text and the
//! chosen file type, and in which order.

use vstd::prelude::*;
use vstd::string::*;
use crate::files::FDl;
use crate::text::{chars_of, trim, trim_bounds};

verus! {

/// `s` in lower case, as `str::to_lowercase` gives it.
pub uninterp spec fn lowercase(s: Seq<char>) -> Seq<char>;

/// Lower-cases `s` with std's `str::to_lowercase`. Trusted: the result is named
/// `lowercase` of the characters of `s`.
#[verifier::external_body]
fn to_lowercase(s: &str) -> (r: String)
    ensures
        r@ == lowercase(s@),
{
    s.to_lowercase()
}

/// Whether `needle` occurs in `hay` (always, when `needle` is empty).
pub open spec fn contains(hay: Seq<char>, needle: Seq<char>) -> bool {
    exists|i: int|
        0 <= i <= hay.len() - needle.len() && #[trigger] hay.subrange(i, i + needle.len()) == needle
}

/// The search finds a text wherever it sits in the other: `contains` holds exactly when
/// `needle` is some stretch `hay[i..j]` of `hay`, whether at the start, inside, at the
/// very end, or the whole of it.
pub proof fn law_contains_any_stretch(hay: Seq<char>, needle: Seq<char>)
    ensures
        contains(hay, needle) <==> exists|i: int, j: int|
            0 <= i <= j <= hay.len() && #[trigger] hay.subrange(i, j) == needle,
{
    if contains(hay, needle) {
        let i = choose|i: int|
            0 <= i <= hay.len() - needle.len() && #[trigger] hay.subrange(i, i + needle.len()) == needle;
        assert(hay.subrange(i, i + needle.len()) == needle);
    }
    if exists|i: int, j: int| 0 <= i <= j <= hay.len() && #[trigger] hay.subrange(i, j) == needle {
        let (i, j) = choose|i: int, j: int| 0 <= i <= j <= hay.len() && #[trigger] hay.subrange(i, j) == needle;
        assert(j - i == needle.len());
        assert(hay.subrange(i, i + needle.len()) == needle);
    }
}

/// Whether `s` ends with `suffix`.
pub open spec fn ends_with(s: Seq<char>, suffix: Seq<char>) -> bool {
    suffix.len() <= s.len() && s.subrange(s.len() - suffix.len(), s.len() as int) == suffix
}

/// `s` ends with `suffix` exactly when `s` is some text followed by `suffix`.
pub proof fn law_ends_with(s: Seq<char>, suffix: Seq<char>)
    ensures
        ends_with(s, suffix) <==> exists|t: Seq<char>| s == #[trigger] (t + suffix),
{
    if ends_with(s, suffix) {
        let t = s.subrange(0, s.len() - suffix.len());
        assert(s =~= t + suffix);
    }
    if exists|t: Seq<char>| s == #[trigger] (t + suffix) {
        let t = choose|t: Seq<char>| s == #[trigger] (t + suffix);
        assert(s.subrange(s.len() - suffix.len(), s.len() as int) =~= suffix);
    }
}

/// Whether `needle` occurs in `hay`.
pub fn chars_contain(hay: &Vec<char>, needle: &Vec<char>) -> (r: bool)
    ensures
        r == contains(hay@, needle@),
{
    let n = hay.len();
    let m = needle.len();
    if m > n {
        return false;
    }
    let mut i: usize = 0;
    while i <= n - m
        invariant
            n == hay@.len(),
            m == needle@.len(),
            m <= n,
            i <= n - m + 1,
            forall|k: int| 0 <= k < i ==> #[trigger] hay@.subrange(k, k + m) != needle@,
        decreases n - m + 1 - i,
    {
        let mut j: usize = 0;
        while j < m && hay[i + j] == needle[j]
            invariant
                n == hay@.len(),
                m == needle@.len(),
                i + m <= n,
                j <= m,
                forall|k: int| 0 <= k < j ==> hay@[i + k] == needle@[k],
            decreases m - j,
        {
            j = j + 1;
        }
        if j == m {
            assert(hay@.subrange(i as int, i + m) =~= needle@);
            return true;
        }
        assert(hay@.subrange(i as int, i + m)[j as int] != needle@[j as int]);
        i = i + 1;
    }
    assert forall|k: int| 0 <= k <= n - m implies #[trigger] hay@.subrange(k, k + m) != needle@ by {}
    false
}

/// Whether `s` ends with `suffix`.
pub fn chars_end_with(s: &Vec<char>, suffix: &Vec<char>) -> (r: bool)
    ensures
        r == ends_with(s@, suffix@),
{
    let n = s.len();
    let m = suffix.len();
    if m > n {
        return false;
    }
    let mut j: usize = 0;
    while j < m
        invariant
            n == s@.len(),
            m == suffix@.len(),
            m <= n,
            j <= m,
            forall|k: int| 0 <= k < j ==> s@[n - m + k] == suffix@[k],
        decreases m - j,
    {
        if s[n - m + j] != suffix[j] {
            assert(s@.subrange(n - m, n as int)[j as int] != suffix@[j as int]);
            return false;
        }
        j = j + 1;
    }
    assert(s@.subrange(n - m, n as int) =~= suffix@);
    true
}

/// The lower-cased characters of `s`.
fn lower_chars(s: &str) -> (r: Vec<char>)
    ensures
        r@ == lowercase(s@),
{
    let l = to_lowercase(s);
    chars_of(l.as_str())
}

/// The lower-cased characters of `s` once trimmed.
fn trimmed_lower_chars(s: &str) -> (r: Vec<char>)
    ensures
        r@ == lowercase(trim(s@)),
{
    let cs = chars_of(s);
    let (a, b) = trim_bounds(&cs);
    let t = s.substring_char(a, b);
    lower_chars(t)
}

/// Whether a download answers the search text: its name or its link, lower-cased,
/// holds the text.
pub open spec fn matches_search(f: FDl, search: Seq<char>) -> bool {
    contains(lowercase(f.file.name_on_disk@), search) || contains(lowercase(f.file.url.link@), search)
}

/// Whether a download is of a chosen file type: no type is chosen, or its trimmed,
/// lower-cased name ends with one of the trimmed, lower-cased extensions.
pub open spec fn matches_types(f: FDl, exts: Seq<Seq<char>>) -> bool {
    exts.len() == 0 || exists|k: int|
        0 <= k < exts.len() && #[trigger] ends_with(
            lowercase(trim(f.file.name_on_disk@)),
            lowercase(trim(exts[k])),
        )
}

/// Whether the table shows a download.
pub open spec fn shown(f: FDl, search: Seq<char>, exts: Seq<Seq<char>>) -> bool {
    matches_search(f, search) && matches_types(f, exts)
}

/// Lexicographic order on characters (the order of `String`).
pub open spec fn chars_lt(a: Seq<char>, b: Seq<char>) -> bool
    decreases a.len(),
{
    if a.len() == 0 {
        b.len() > 0
    } else if b.len() == 0 {
        false
    } else if a[0] != b[0] {
        a[0] < b[0]
    } else {
        chars_lt(a.drop_first(), b.drop_first())
    }
}

/// The sort key of a download: incomplete ones first, then by name.
pub open spec fn key(f: FDl) -> (bool, Seq<char>) {
    (f.file.complete, f.file.name_on_disk@)
}

/// Strict order on sort keys.
pub open spec fn key_lt(a: (bool, Seq<char>), b: (bool, Seq<char>)) -> bool {
    (!a.0 && b.0) || (a.0 == b.0 && chars_lt(a.1, b.1))
}

/// Whether the download at `i` comes before the one at `j`: by key, and by place
/// in the list between equal keys (a stable sort).
pub open spec fn precedes(files: Seq<FDl>, i: int, j: int) -> bool {
    key_lt(key(files[i]), key(files[j])) || (key(files[i]) == key(files[j]) && i < j)
}

/// The order on names is the lexicographic one: `a` comes before `b` exactly when `a` is
/// a proper prefix of `b`, or at the first place where they differ `a` has the smaller
/// character.
pub proof fn law_chars_lt_lexicographic(a: Seq<char>, b: Seq<char>)
    ensures
        chars_lt(a, b) <==> (a.len() < b.len() && b.subrange(0, a.len() as int) == a) || exists|k: int|
            0 <= k < a.len() && k < b.len() && a.subrange(0, k) == b.subrange(0, k) && #[trigger] a[k] < #[trigger] b[k],
    decreases a.len(),
{
    if a.len() > 0 && b.len() > 0 {
        let a1 = a.drop_first();
        let b1 = b.drop_first();
        law_chars_lt_lexicographic(a1, b1);
        if a[0] == b[0] {
            if a1.len() < b1.len() && b1.subrange(0, a1.len() as int) == a1 {
                assert forall|m: int| 0 <= m < a.len() implies #[trigger] b.subrange(0, a.len() as int)[m] == a[m] by {
                    if m > 0 {
                        assert(b1.subrange(0, a1.len() as int)[m - 1] == a1[m - 1]);
                    }
                }
                assert(b.subrange(0, a.len() as int) =~= a);
            }
            if a.len() < b.len() && b.subrange(0, a.len() as int) == a {
                assert(b1.subrange(0, a1.len() as int) =~= a1);
            }
            if exists|k: int| 0 <= k < a1.len() && k < b1.len() && a1.subrange(0, k) == b1.subrange(0, k) && #[trigger] a1[k] < #[trigger] b1[k] {
                let k = choose|k: int| 0 <= k < a1.len() && k < b1.len() && a1.subrange(0, k) == b1.subrange(0, k) && #[trigger] a1[k] < #[trigger] b1[k];
                assert(a.subrange(0, k + 1) =~= b.subrange(0, k + 1)) by {
                    assert forall|m: int| 0 <= m < k + 1 implies #[trigger] a.subrange(0, k + 1)[m] == b.subrange(0, k + 1)[m] by {
                        if m > 0 {
                            assert(a1.subrange(0, k)[m - 1] == b1.subrange(0, k)[m - 1]);
                        }
                    }
                }
                assert(a[k + 1] < b[k + 1]);
            }
            if exists|k: int| 0 <= k < a.len() && k < b.len() && a.subrange(0, k) == b.subrange(0, k) && #[trigger] a[k] < #[trigger] b[k] {
                let k = choose|k: int| 0 <= k < a.len() && k < b.len() && a.subrange(0, k) == b.subrange(0, k) && #[trigger] a[k] < #[trigger] b[k];
                assert(k > 0);
                assert(a1.subrange(0, k - 1) =~= b1.subrange(0, k - 1)) by {
                    assert forall|m: int| 0 <= m < k - 1 implies #[trigger] a1.subrange(0, k - 1)[m] == b1.subrange(0, k - 1)[m] by {
                        assert(a.subrange(0, k)[m + 1] == b.subrange(0, k)[m + 1]);
                    }
                }
                assert(a1[k - 1] < b1[k - 1]);
            }
        } else {
            if a[0] < b[0] {
                assert(a.subrange(0, 0) =~= b.subrange(0, 0));
                assert(a[0] < b[0]);
            }
            if a.len() < b.len() && b.subrange(0, a.len() as int) == a {
                assert(b.subrange(0, a.len() as int)[0] == a[0]);
            }
            if exists|k: int| 0 <= k < a.len() && k < b.len() && a.subrange(0, k) == b.subrange(0, k) && #[trigger] a[k] < #[trigger] b[k] {
                let k = choose|k: int| 0 <= k < a.len() && k < b.len() && a.subrange(0, k) == b.subrange(0, k) && #[trigger] a[k] < #[trigger] b[k];
                if k > 0 {
                    assert(a.subrange(0, k)[0] == b.subrange(0, k)[0]);
                }
            }
        }
    } else if a.len() == 0 && b.len() > 0 {
        assert(b.subrange(0, 0) =~= a);
    }
}

proof fn lemma_chars_lt_irreflexive(a: Seq<char>)
    ensures
        !chars_lt(a, a),
    decreases a.len(),
{
    if a.len() > 0 {
        lemma_chars_lt_irreflexive(a.drop_first());
    }
}

proof fn lemma_chars_lt_transitive(a: Seq<char>, b: Seq<char>, c: Seq<char>)
    requires
        chars_lt(a, b),
        chars_lt(b, c),
    ensures
        chars_lt(a, c),
    decreases a.len(),
{
    if a.len() > 0 && b.len() > 0 && c.len() > 0 && a[0] == b[0] && b[0] == c[0] {
        lemma_chars_lt_transitive(a.drop_first(), b.drop_first(), c.drop_first());
    }
}

proof fn lemma_chars_lt_total(a: Seq<char>, b: Seq<char>)
    ensures
        a == b || chars_lt(a, b) || chars_lt(b, a),
    decreases a.len(),
{
    if a.len() > 0 && b.len() > 0 && a[0] == b[0] {
        lemma_chars_lt_total(a.drop_first(), b.drop_first());
        if a.drop_first() == b.drop_first() {
            assert(a =~= seq![a[0]] + a.drop_first());
            assert(b =~= seq![b[0]] + b.drop_first());
        }
    } else if a.len() == 0 && b.len() == 0 {
        assert(a =~= b);
    }
}

proof fn lemma_key_lt_transitive(a: (bool, Seq<char>), b: (bool, Seq<char>), c: (bool, Seq<char>))
    requires
        key_lt(a, b),
        key_lt(b, c),
    ensures
        key_lt(a, c),
{
    if a.0 == b.0 && b.0 == c.0 {
        lemma_chars_lt_transitive(a.1, b.1, c.1);
    }
}

proof fn lemma_key_lt_irreflexive(a: (bool, Seq<char>))
    ensures
        !key_lt(a, a),
{
    lemma_chars_lt_irreflexive(a.1);
}

proof fn lemma_key_lt_total(a: (bool, Seq<char>), b: (bool, Seq<char>))
    ensures
        a == b || key_lt(a, b) || key_lt(b, a),
{
    lemma_chars_lt_total(a.1, b.1);
}

/// The table's order is a strict total order on the places of the list: no download
/// comes before itself, of two different downloads exactly one comes first, and the
/// order is transitive.
pub proof fn law_table_order(files: Seq<FDl>, i: int, j: int, k: int)
    requires
        0 <= i < files.len(),
        0 <= j < files.len(),
        0 <= k < files.len(),
    ensures
        !precedes(files, i, i),
        i != j ==> (precedes(files, i, j) <==> !precedes(files, j, i)),
        precedes(files, i, j) && precedes(files, j, k) ==> precedes(files, i, k),
{
    let (ki, kj, kk) = (key(files[i]), key(files[j]), key(files[k]));
    lemma_key_lt_irreflexive(ki);
    lemma_key_lt_total(ki, kj);
    if key_lt(ki, kj) && key_lt(kj, ki) {
        lemma_key_lt_transitive(ki, kj, ki);
    }
    if key_lt(ki, kj) && key_lt(kj, kk) {
        lemma_key_lt_transitive(ki, kj, kk);
    }
}

/// A list of places sorted by the table's order holds each place once.
pub proof fn law_sorted_places_distinct(files: Seq<FDl>, r: Seq<usize>)
    requires
        forall|k: int| 0 <= k < r.len() ==> r[k] < files.len(),
        forall|a: int, b: int| 0 <= a < b < r.len() ==> precedes(files, r[a] as int, r[b] as int),
    ensures
        r.no_duplicates(),
{
    assert forall|a: int, b: int| 0 <= a < r.len() && 0 <= b < r.len() && a != b implies r[a] != r[b] by {
        if a < b {
            law_table_order(files, r[a] as int, r[a] as int, r[a] as int);
            assert(precedes(files, r[a] as int, r[b] as int));
        } else {
            law_table_order(files, r[b] as int, r[b] as int, r[b] as int);
            assert(precedes(files, r[b] as int, r[a] as int));
        }
    }
}

/// Whether `a` comes strictly before `b` in lexicographic order.
fn chars_less(a: &Vec<char>, b: &Vec<char>) -> (r: bool)
    ensures
        r == chars_lt(a@, b@),
{
    let la = a.len();
    let lb = b.len();
    let mut i: usize = 0;
    assert(a@.subrange(0, la as int) =~= a@);
    assert(b@.subrange(0, lb as int) =~= b@);
    while i < la && i < lb && a[i] == b[i]
        invariant
            la == a@.len(),
            lb == b@.len(),
            i <= la,
            i <= lb,
            chars_lt(a@, b@) == chars_lt(a@.subrange(i as int, la as int), b@.subrange(i as int, lb as int)),
        decreases la - i,
    {
        proof {
            let sa = a@.subrange(i as int, la as int);
            let sb = b@.subrange(i as int, lb as int);
            assert(sa.drop_first() =~= a@.subrange(i + 1, la as int));
            assert(sb.drop_first() =~= b@.subrange(i + 1, lb as int));
            assert(sa[0] == sb[0]);
        }
        i = i + 1;
    }
    proof {
        let sa = a@.subrange(i as int, la as int);
        let sb = b@.subrange(i as int, lb as int);
        if i < la && i < lb {
            assert(sa[0] == a@[i as int] && sb[0] == b@[i as int]);
        }
    }
    if i == la {
        i < lb
    } else if i == lb {
        false
    } else {
        a[i] < b[i]
    }
}

/// Whether key `(c1, n1)` comes strictly before key `(c2, n2)`.
fn key_less(c1: bool, n1: &Vec<char>, c2: bool, n2: &Vec<char>) -> (r: bool)
    ensures
        r == key_lt((c1, n1@), (c2, n2@)),
{
    (!c1 && c2) || (c1 == c2 && chars_less(n1, n2))
}

/// The downloads that the table shows for the search text `search` and the chosen
/// extensions `exts`, as places in `files`: each shown download exactly once,
/// incomplete ones first, by name, and in list order between equal keys.
pub fn visible_files(files: &Vec<FDl>, search: &str, exts: &Vec<String>) -> (r: Vec<usize>)
    ensures
        forall|k: int| 0 <= k < r@.len() ==> r@[k] < files@.len(),
        forall|i: int|
            0 <= i < files@.len() ==> (shown(files@[i], search@, exts.deep_view()) <==> r@.contains(i as usize)),
        forall|a: int, b: int| 0 <= a < b < r@.len() ==> precedes(files@, r@[a] as int, r@[b] as int),
{
    let n = files.len();
    let search_chars = chars_of(search);
    let m = exts.len();
    let mut ext_chars: Vec<Vec<char>> = Vec::new();
    let mut e: usize = 0;
    while e < m
        invariant
            m == exts@.len(),
            e <= m,
            ext_chars@.len() == e,
            forall|k: int| 0 <= k < e ==> #[trigger] ext_chars@[k]@ == lowercase(trim(exts@[k]@)),
        decreases m - e,
    {
        ext_chars.push(trimmed_lower_chars(exts[e].as_str()));
        e = e + 1;
    }
    let mut names: Vec<Vec<char>> = Vec::new();
    let mut r: Vec<usize> = Vec::new();
    let mut i: usize = 0;
    while i < n
        invariant
            n == files@.len(),
            m == exts@.len(),
            i <= n,
            search_chars@ == search@,
            ext_chars@.len() == m,
            forall|k: int| 0 <= k < m ==> #[trigger] ext_chars@[k]@ == lowercase(trim(exts@[k]@)),
            names@.len() == i,
            forall|k: int| 0 <= k < i ==> #[trigger] names@[k]@ == files@[k].file.name_on_disk@,
            forall|k: int| 0 <= k < r@.len() ==> r@[k] < i,
            forall|k: int| 0 <= k < i ==> (shown(files@[k], search@, exts.deep_view()) <==> r@.contains(k as usize)),
            forall|a: int, b: int| 0 <= a < b < r@.len() ==> precedes(files@, r@[a] as int, r@[b] as int),
        decreases n - i,
    {
        let f = &files[i];
        let name = chars_of(f.file.name_on_disk.as_str());
        let lname = lower_chars(f.file.name_on_disk.as_str());
        let llink = lower_chars(f.file.url.link.as_str());
        let by_search = chars_contain(&lname, &search_chars) || chars_contain(&llink, &search_chars);
        let mut by_type = m == 0;
        if !by_type {
            let tname = trimmed_lower_chars(f.file.name_on_disk.as_str());
            let mut k: usize = 0;
            while k < m && !by_type
                invariant
                    m == exts@.len(),
                    m == ext_chars@.len(),
                    k <= m,
                    tname@ == lowercase(trim(files@[i as int].file.name_on_disk@)),
                    forall|q: int| 0 <= q < m ==> #[trigger] ext_chars@[q]@ == lowercase(trim(exts@[q]@)),
                    by_type <==> exists|q: int| 0 <= q < k && #[trigger] ends_with(tname@, lowercase(trim(exts@[q]@))),
                decreases m - k,
            {
                if chars_end_with(&tname, &ext_chars[k]) {
                    by_type = true;
                }
                k = k + 1;
            }
            proof {
                if !by_type {
                    assert forall|q: int| 0 <= q < m implies !#[trigger] ends_with(tname@, lowercase(trim(exts@[q]@))) by {}
                }
            }
        }
        proof {
            let dv = exts.deep_view();
            assert(dv.len() == m);
            assert forall|q: int| 0 <= q < m implies #[trigger] dv[q] == exts@[q]@ by {}
            let tn = lowercase(trim(files@[i as int].file.name_on_disk@));
            if m > 0 {
                if by_type {
                    let q = choose|q: int| 0 <= q < m && #[trigger] ends_with(tn, lowercase(trim(exts@[q]@)));
                    assert(ends_with(tn, lowercase(trim(dv[q]))));
                } else {
                    assert forall|q: int| 0 <= q < dv.len() implies !#[trigger] ends_with(tn, lowercase(trim(dv[q]))) by {
                        assert(dv[q] == exts@[q]@);
                    }
                }
            }
            assert(by_type == matches_types(files@[i as int], dv));
        }
        let ghost old_r = r@;
        if by_search && by_type {
            let mut p: usize = r.len();
            while p > 0
                invariant
                    p <= r@.len(),
                    r@ == old_r,
                    n == files@.len(),
                    i < n,
                    names@.len() == i,
                    forall|k: int| 0 <= k < i ==> #[trigger] names@[k]@ == files@[k].file.name_on_disk@,
                    name@ == files@[i as int].file.name_on_disk@,
                    forall|k: int| 0 <= k < r@.len() ==> r@[k] < i,
                    forall|q: int| p <= q < r@.len() ==> key_lt(key(files@[i as int]), key(files@[r@[q] as int])),
                    *f == files@[i as int],
                ensures
                    p <= r@.len(),
                    r@ == old_r,
                    forall|q: int| p <= q < r@.len() ==> key_lt(key(files@[i as int]), key(files@[r@[q] as int])),
                    p == 0 || !key_lt(key(files@[i as int]), key(files@[r@[p - 1] as int])),
                decreases p,
            {
                let prev = r[p - 1];
                assert(names@[prev as int]@ == files@[prev as int].file.name_on_disk@);
                if !key_less(f.file.complete, &name, files[prev].file.complete, &names[prev]) {
                    break;
                }
                p = p - 1;
            }
            proof {
                assert forall|q: int| 0 <= q < p implies precedes(files@, r@[q] as int, i as int) by {
                    let kq = key(files@[r@[q] as int]);
                    let kx = key(files@[i as int]);
                    let kl = key(files@[r@[p - 1] as int]);
                    if key_lt(kx, kq) {
                        if q < p - 1 {
                            assert(precedes(files@, r@[q] as int, r@[p - 1] as int));
                            if key_lt(kq, kl) {
                                lemma_key_lt_transitive(kx, kq, kl);
                            }
                        }
                    }
                    lemma_key_lt_total(kx, kq);
                }
            }
            r.insert(p, i);
            proof {
                assert forall|a: int, b: int| 0 <= a < b < r@.len() implies precedes(files@, r@[a] as int, r@[b] as int) by {
                    if a < p && b > p {
                        assert(r@[a] == old_r[a]);
                        assert(r@[b] == old_r[b - 1]);
                    } else if a < p && b < p {
                        assert(r@[a] == old_r[a] && r@[b] == old_r[b]);
                    } else if a > p {
                        assert(r@[a] == old_r[a - 1] && r@[b] == old_r[b - 1]);
                    } else if a == p {
                        assert(r@[b] == old_r[b - 1]);
                    }
                }
                assert forall|k: int| 0 <= k <= i implies (shown(files@[k], search@, exts.deep_view()) <==> r@.contains(k as usize)) by {
                    if k < i {
                        if old_r.contains(k as usize) {
                            let w = choose|w: int| 0 <= w < old_r.len() && old_r[w] == k as usize;
                            if w < p { assert(r@[w] == k as usize); } else { assert(r@[w + 1] == k as usize); }
                        }
                        if r@.contains(k as usize) {
                            let w = choose|w: int| 0 <= w < r@.len() && r@[w] == k as usize;
                            if w < p { assert(old_r[w] == k as usize); } else if w > p { assert(old_r[w - 1] == k as usize); }
                        }
                    } else {
                        assert(r@[p as int] == i);
                    }
                }
            }
        } else {
            proof {
                assert(!r@.contains(i as usize));
            }
        }
        names.push(name);
        i = i + 1;
    }
    r
}

} // verus!
