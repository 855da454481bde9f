//! Include headers required by generated C++ functions: rendering of a single
//! include statement, a strict order on headers, and deduplicated collection
//! into that order.

use vstd::prelude::*;

verus! {

/// Mathematical value of a [`Header`].
pub ghost struct HeaderV {
    pub name: Seq<char>,
    pub system: bool,
}

/// An include needed by a generated function: a file name, and a flag telling
/// a system include (`<name>`) from a local one (`"name"`).
pub struct Header {
    pub name: String,
    pub system: bool,
}

impl View for Header {
    type V = HeaderV;

    open spec fn view(&self) -> HeaderV {
        HeaderV { name: self.name@, system: self.system }
    }
}

/// The include statement for a header.
pub open spec fn spec_include_stmt(h: HeaderV) -> Seq<char> {
    if h.system {
        "#include <"@ + h.name + ">"@
    } else {
        "#include \""@ + h.name + "\""@
    }
}

impl Header {
    /// A system header, rendered in angle brackets.
    pub fn system(name: &str) -> (h: Header)
        ensures
            h@ == (HeaderV { name: name@, system: true }),
    {
        Header { name: name.to_owned(), system: true }
    }

    /// A local header, rendered in quotes.
    pub fn user(name: &str) -> (h: Header)
        ensures
            h@ == (HeaderV { name: name@, system: false }),
    {
        Header { name: name.to_owned(), system: false }
    }

    /// The include statement for this header.
    pub fn include_stmt(&self) -> (r: String)
        ensures
            r@ == spec_include_stmt(self@),
    {
        if self.system {
            let mut r = "#include <".to_owned();
            r.append(self.name.as_str());
            r.append(">");
            r
        } else {
            let mut r = "#include \"".to_owned();
            r.append(self.name.as_str());
            r.append("\"");
            r
        }
    }
}

/// The views of a sequence of headers.
pub open spec fn header_views(s: Seq<Header>) -> Seq<HeaderV> {
    s.map_values(|h: Header| h@)
}

/// Strict lexicographic order on character sequences, by scalar value.
pub open spec fn chars_lt(a: Seq<char>, b: Seq<char>) -> bool
    decreases a.len(),
{
    if b.len() == 0 {
        false
    } else if a.len() == 0 {
        true
    } else if a[0] != b[0] {
        a[0] < b[0]
    } else {
        chars_lt(a.drop_first(), b.drop_first())
    }
}

/// `chars_lt` is a strict total order: exactly one of `a < b`, `b < a`,
/// `a == b` holds.
pub proof fn lemma_chars_lt_trichotomy(a: Seq<char>, b: Seq<char>)
    ensures
        chars_lt(a, b) || chars_lt(b, a) || a == b,
        chars_lt(a, b) ==> !chars_lt(b, a) && a != b,
    decreases a.len(),
{
    if a.len() == 0 && b.len() == 0 {
        assert(a =~= b);
        assert(a == b);
    } else if a.len() == 0 {
        assert(chars_lt(a, b));
    } else if b.len() == 0 {
        assert(chars_lt(b, a));
    } else {
        if a[0] != b[0] {
            assert(chars_lt(a, b) || chars_lt(b, a));
        }
        if a[0] == b[0] {
            lemma_chars_lt_trichotomy(a.drop_first(), b.drop_first());
            if a.drop_first() == b.drop_first() {
                assert(a.len() == b.len());
                assert forall|i: int| 0 <= i < a.len() implies a[i] == b[i] by {
                    if i >= 1 {
                        assert(a[i] == a.drop_first()[i - 1]);
                        assert(b[i] == b.drop_first()[i - 1]);
                    }
                }
                assert(a =~= b);
                assert(a == b);
            }
        }
    }
}

/// `chars_lt` is transitive.
pub proof fn lemma_chars_lt_trans(a: Seq<char>, b: Seq<char>, c: Seq<char>)
    requires
        chars_lt(a, b),
        chars_lt(b, c),
    ensures
        chars_lt(a, c),
    decreases a.len(),
{
    if a.len() != 0 && b.len() != 0 && c.len() != 0 {
        if a[0] == b[0] && b[0] == c[0] {
            lemma_chars_lt_trans(a.drop_first(), b.drop_first(), c.drop_first());
        }
    }
}

/// Strict order on headers: system headers first, then lexicographic by name.
pub open spec fn header_lt(a: HeaderV, b: HeaderV) -> bool {
    (a.system && !b.system) || (a.system == b.system && chars_lt(a.name, b.name))
}

/// `header_lt` is a strict total order on headers.
pub proof fn lemma_header_lt_trichotomy(a: HeaderV, b: HeaderV)
    ensures
        header_lt(a, b) || header_lt(b, a) || a == b,
        header_lt(a, b) ==> !header_lt(b, a) && a != b,
{
    lemma_chars_lt_trichotomy(a.name, b.name);
}

/// `header_lt` is transitive.
pub proof fn lemma_header_lt_trans(a: HeaderV, b: HeaderV, c: HeaderV)
    requires
        header_lt(a, b),
        header_lt(b, c),
    ensures
        header_lt(a, c),
{
    if a.system == b.system && b.system == c.system {
        lemma_chars_lt_trans(a.name, b.name, c.name);
    }
}

/// Strictly sorted by `header_lt`; such a sequence holds no duplicates.
pub open spec fn headers_sorted(s: Seq<HeaderV>) -> bool {
    forall|i: int, j: int| 0 <= i < j < s.len() ==> header_lt(s[i], s[j])
}

/// Inserts a header into a sorted sequence, keeping it sorted and dropping
/// the header when it is already present.
pub open spec fn insert_header(s: Seq<HeaderV>, h: HeaderV) -> Seq<HeaderV>
    decreases s.len(),
{
    if s.len() == 0 {
        seq![h]
    } else if header_lt(s[0], h) {
        seq![s[0]] + insert_header(s.drop_first(), h)
    } else if s[0] == h {
        s
    } else {
        seq![h] + s
    }
}

/// The number of leading headers that are strictly below `h`.
pub open spec fn low_count(s: Seq<HeaderV>, h: HeaderV) -> int
    decreases s.len(),
{
    if s.len() == 0 {
        0
    } else if header_lt(s[0], h) {
        1 + low_count(s.drop_first(), h)
    } else {
        0
    }
}

/// `low_count` is the first position whose header is not below `h`.
pub proof fn lemma_low_count(s: Seq<HeaderV>, h: HeaderV)
    ensures
        0 <= low_count(s, h) <= s.len(),
        forall|j: int| 0 <= j < low_count(s, h) ==> header_lt(s[j], h),
        low_count(s, h) < s.len() ==> !header_lt(s[low_count(s, h)], h),
    decreases s.len(),
{
    if s.len() > 0 && header_lt(s[0], h) {
        lemma_low_count(s.drop_first(), h);
        assert forall|j: int| 0 <= j < low_count(s, h) implies header_lt(s[j], h) by {
            if j > 0 {
                assert(s.drop_first()[j - 1] == s[j]);
                assert(header_lt(s.drop_first()[j - 1], h));
            }
        }
        if low_count(s, h) < s.len() {
            assert(s.drop_first()[low_count(s.drop_first(), h)] == s[low_count(s, h)]);
        }
    }
}

/// Inserting keeps the sequence sorted and adds exactly the given header.
pub proof fn lemma_insert_header(s: Seq<HeaderV>, h: HeaderV)
    requires
        headers_sorted(s),
    ensures
        headers_sorted(insert_header(s, h)),
        forall|x: HeaderV| #[trigger] insert_header(s, h).contains(x) <==> s.contains(x) || x == h,
{
    let i = low_count(s, h);
    lemma_low_count(s, h);
    lemma_insert_header_at(s, h, i);
    if i < s.len() && s[i] == h {
        assert(insert_header(s, h) == s);
        assert(s.contains(h)) by {
            assert(s[i] == h);
        }
    } else {
        let r = s.take(i) + seq![h] + s.skip(i);
        assert(insert_header(s, h) == r);
        assert(r.len() == s.len() + 1);
        if i < s.len() {
            lemma_header_lt_trichotomy(s[i], h);
            assert(header_lt(h, s[i]));
        }
        assert forall|p: int, q: int| 0 <= p < q < r.len() implies header_lt(r[p], r[q]) by {
            assert(forall|j: int| 0 <= j < i ==> r[j] == s[j]);
            assert(r[i] == h);
            assert(forall|j: int| i < j < r.len() ==> r[j] == s[j - 1]);
            if p < i && q < i {
            } else if p < i && q == i {
            } else if p < i && q > i {
                if q - 1 == i {
                    assert(header_lt(s[p], h));
                    assert(header_lt(h, s[i]));
                    lemma_header_lt_trans(s[p], h, s[i]);
                } else {
                    assert(header_lt(s[p], s[q - 1]));
                }
            } else if p == i {
                if q - 1 == i {
                    assert(header_lt(h, s[i]));
                } else {
                    assert(header_lt(h, s[i]));
                    assert(header_lt(s[i], s[q - 1]));
                    lemma_header_lt_trans(h, s[i], s[q - 1]);
                }
            } else {
                assert(header_lt(s[p - 1], s[q - 1]));
            }
        }
        assert forall|x: HeaderV| #[trigger] r.contains(x) <==> s.contains(x) || x == h by {
            if r.contains(x) {
                let k = choose|k: int| 0 <= k < r.len() && r[k] == x;
                if k < i {
                    assert(s[k] == x);
                    assert(s.contains(x));
                } else if k == i {
                    assert(x == h);
                } else {
                    assert(s[k - 1] == x);
                    assert(s.contains(x));
                }
            }
            if s.contains(x) {
                let k = choose|k: int| 0 <= k < s.len() && s[k] == x;
                if k < i {
                    assert(r[k] == x);
                    assert(r.contains(x));
                } else {
                    assert(r[k + 1] == x);
                    assert(r.contains(x));
                }
            }
            assert(r[i] == h);
            assert(r.contains(h));
        }
    }
}

/// Compares two headers in the order of `header_lt`.
pub fn header_lt_exec(a: &Header, b: &Header) -> (r: bool)
    ensures
        r == header_lt(a@, b@),
{
    if a.system && !b.system {
        true
    } else if a.system == b.system {
        str_lt(a.name.as_str(), b.name.as_str())
    } else {
        false
    }
}

/// `chars_lt` is decided by the first position where the sequences differ.
proof fn lemma_chars_lt_skip(a: Seq<char>, b: Seq<char>, i: int)
    requires
        0 <= i <= a.len(),
        i <= b.len(),
        forall|j: int| 0 <= j < i ==> a[j] == b[j],
    ensures
        chars_lt(a, b) == chars_lt(a.skip(i), b.skip(i)),
    decreases i,
{
    if i == 0 {
        assert(a.skip(0) =~= a);
        assert(b.skip(0) =~= b);
    } else if a.len() > 0 && b.len() > 0 {
        assert(a.drop_first().skip(i - 1) =~= a.skip(i));
        assert(b.drop_first().skip(i - 1) =~= b.skip(i));
        lemma_chars_lt_skip(a.drop_first(), b.drop_first(), i - 1);
    }
}

/// Decides the strict lexicographic order on two strings.
pub fn str_lt(a: &str, b: &str) -> (r: bool)
    ensures
        r == chars_lt(a@, b@),
{
    let alen = a.unicode_len();
    let blen = b.unicode_len();
    let mut i: usize = 0;
    while i < alen && i < blen
        invariant
            alen == a@.len(),
            blen == b@.len(),
            i <= alen,
            i <= blen,
            forall|j: int| 0 <= j < i ==> a@[j] == b@[j],
        decreases alen - i,
    {
        let ca = a.get_char(i);
        let cb = b.get_char(i);
        if ca != cb {
            proof {
                lemma_chars_lt_skip(a@, b@, i as int);
                assert(a@.skip(i as int)[0] == a@[i as int]);
                assert(b@.skip(i as int)[0] == b@[i as int]);
            }
            return ca < cb;
        }
        i = i + 1;
    }
    proof {
        lemma_chars_lt_skip(a@, b@, i as int);
    }
    alen < blen
}

/// Inserts a header into a vector that is sorted by `header_lt`, keeping it
/// sorted and skipping a header that is already present.
pub fn insert_header_vec(hdrs: &mut Vec<Header>, h: Header)
    requires
        headers_sorted(header_views(old(hdrs)@)),
    ensures
        header_views(final(hdrs)@) == insert_header(header_views(old(hdrs)@), h@),
{
    let ghost orig = header_views(hdrs@);
    let mut i: usize = 0;
    while i < hdrs.len() && header_lt_exec(&hdrs[i], &h)
        invariant
            i <= hdrs.len(),
            header_views(hdrs@) == orig,
            forall|j: int| 0 <= j < i ==> header_lt(orig[j], h@),
        decreases hdrs.len() - i,
    {
        i = i + 1;
    }
    proof {
        lemma_insert_header_at(orig, h@, i as int);
    }
    if i < hdrs.len() && hdrs[i].system == h.system && hdrs[i].name == h.name {
        proof {
            assert(orig[i as int] == h@);
            assert(header_views(hdrs@) =~= insert_header(orig, h@));
        }
    } else {
        proof {
            if i < hdrs.len() {
                lemma_header_lt_trichotomy(orig[i as int], h@);
            }
        }
        hdrs.insert(i, h);
        proof {
            assert(header_views(hdrs@) =~= insert_header(orig, h@));
        }
    }
}

/// Unfolds `insert_header` to the first position whose header is not below
/// the inserted one.
proof fn lemma_insert_header_at(s: Seq<HeaderV>, h: HeaderV, i: int)
    requires
        0 <= i <= s.len(),
        forall|j: int| 0 <= j < i ==> header_lt(s[j], h),
    ensures
        i < s.len() && s[i] == h ==> insert_header(s, h) == s,
        i == s.len() || !header_lt(s[i], h) ==> (i < s.len() && s[i] == h) || insert_header(s, h)
            == s.take(i) + seq![h] + s.skip(i),
    decreases i,
{
    if i == 0 {
        if s.len() > 0 {
            lemma_header_lt_trichotomy(s[0], h);
        }
        if s.len() > 0 && !header_lt(s[0], h) && s[0] != h {
            assert(insert_header(s, h) =~= s.take(0) + seq![h] + s.skip(0));
        } else if s.len() == 0 {
            assert(insert_header(s, h) =~= s.take(0) + seq![h] + s.skip(0));
        }
    } else {
        let rest = s.drop_first();
        assert(header_lt(s[0], h));
        assert(forall|j: int| 0 <= j < i - 1 ==> rest[j] == s[j + 1]);
        lemma_insert_header_at(rest, h, i - 1);
        assert(insert_header(s, h) == seq![s[0]] + insert_header(rest, h));
        if i < s.len() && s[i] == h {
            assert(rest[i - 1] == h);
            assert(insert_header(rest, h) == rest);
            assert(seq![s[0]] + rest =~= s);
        } else if i == s.len() || !header_lt(s[i], h) {
            if i - 1 < rest.len() && rest[i - 1] == h {
                assert(s[i] == h);
            } else {
                assert(insert_header(rest, h) == rest.take(i - 1) + seq![h] + rest.skip(i - 1));
                assert(seq![s[0]] + (rest.take(i - 1) + seq![h] + rest.skip(i - 1)) =~= s.take(i)
                    + seq![h] + s.skip(i));
            }
        }
    }
}

} // verus!
