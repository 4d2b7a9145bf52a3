//! The lists shown to the user: languages by name, compilers as found.
use vstd::prelude::*;
use crate::filters::texts;
use crate::outside::{lower_of, lowercase};
use crate::text::compiler_line;
use crate::types::{CompilerInfo, Language};

verus! {

/// Whether text `a` comes before text `b` or equals it, comparing character
/// by character by code point (the order of `str`).
pub open spec fn text_le(a: Seq<char>, b: Seq<char>) -> bool
    decreases a.len(),
{
    if a.len() == 0 {
        true
    } else if b.len() == 0 {
        false
    } else if a[0] != b[0] {
        (a[0] as u32) < (b[0] as u32)
    } else {
        text_le(a.drop_first(), b.drop_first())
    }
}

/// Different characters have different code points.
proof fn lemma_char_code_injective(x: char, y: char)
    requires
        x != y,
    ensures
        x as u32 != y as u32,
{
}

/// Every text is in order with itself.
pub proof fn lemma_text_le_reflexive(a: Seq<char>)
    ensures
        text_le(a, a),
    decreases a.len(),
{
    if a.len() > 0 {
        lemma_text_le_reflexive(a.drop_first());
    }
}

/// Any two texts are in order one way or the other.
pub proof fn lemma_text_le_total(a: Seq<char>, b: Seq<char>)
    ensures
        text_le(a, b) || text_le(b, a),
    decreases a.len(),
{
    if a.len() > 0 && b.len() > 0 {
        if a[0] == b[0] {
            lemma_text_le_total(a.drop_first(), b.drop_first());
        } else {
            lemma_char_code_injective(a[0], b[0]);
        }
    }
}

/// Two texts in order both ways are the same text.
pub proof fn lemma_text_le_antisymmetric(a: Seq<char>, b: Seq<char>)
    requires
        text_le(a, b),
        text_le(b, a),
    ensures
        a == b,
    decreases a.len(),
{
    if a.len() > 0 && b.len() > 0 {
        lemma_text_le_antisymmetric(a.drop_first(), b.drop_first());
        assert(a =~= seq![a[0]] + a.drop_first());
        assert(b =~= seq![b[0]] + b.drop_first());
    }
}

/// The order of texts is transitive.
pub proof fn lemma_text_le_transitive(a: Seq<char>, b: Seq<char>, c: Seq<char>)
    requires
        text_le(a, b),
        text_le(b, c),
    ensures
        text_le(a, c),
    decreases a.len(),
{
    if a.len() > 0 && b.len() > 0 && c.len() > 0 && a[0] == b[0] && b[0] == c[0] {
        lemma_text_le_transitive(a.drop_first(), b.drop_first(), c.drop_first());
    }
}

/// Whether text `a` comes before text `b` or equals it.
pub fn text_in_order(a: &str, b: &str) -> (r: bool)
    ensures
        r == text_le(a@, b@),
{
    let n = a.unicode_len();
    let m = b.unicode_len();
    let mut i: usize = 0;
    assert(a@.skip(0) =~= a@);
    assert(b@.skip(0) =~= b@);
    while i < n && i < m
        invariant
            n == a@.len(),
            m == b@.len(),
            i <= n,
            i <= m,
            text_le(a@, b@) == text_le(a@.skip(i as int), b@.skip(i as int)),
        decreases n - i,
    {
        let x = a.get_char(i);
        let y = b.get_char(i);
        if x != y {
            return (x as u32) < (y as u32);
        }
        assert(a@.skip(i as int).drop_first() =~= a@.skip(i + 1));
        assert(b@.skip(i as int).drop_first() =~= b@.skip(i + 1));
        i = i + 1;
    }
    i == n
}

/// Whether entry `x` is listed before entry `y` when entries are listed by
/// their keys `k`, and entries with the same key in their own order.
pub open spec fn listed_before(k: Seq<Seq<char>>, x: int, y: int) -> bool {
    if k[x] == k[y] {
        x < y
    } else {
        text_le(k[x], k[y])
    }
}

/// Whether `o` lists the entries keyed by `k`: each entry once, by key, and
/// entries with the same key in their own order.
pub open spec fn is_listing_order(k: Seq<Seq<char>>, o: Seq<usize>) -> bool {
    &&& o.len() == k.len()
    &&& forall|p: int| 0 <= p < o.len() ==> o[p] < k.len()
    &&& forall|x: usize| x < k.len() ==> #[trigger] o.contains(x)
    &&& forall|p: int, q: int|
        0 <= p < q < o.len() ==> listed_before(k, o[p] as int, o[q] as int)
}

/// The order in which entries with keys `keys` are listed: by key, and those
/// with the same key in their own order.
pub fn listing_order(keys: &Vec<String>) -> (o: Vec<usize>)
    ensures
        is_listing_order(texts(keys@), o@),
{
    let ghost k = texts(keys@);
    let mut o: Vec<usize> = Vec::new();
    let mut i: usize = 0;
    while i < keys.len()
        invariant
            k == texts(keys@),
            i <= keys.len(),
            o@.len() == i,
            forall|p: int| 0 <= p < o@.len() ==> o@[p] < i,
            forall|x: usize| x < i ==> #[trigger] o@.contains(x),
            forall|p: int, q: int|
                0 <= p < q < o@.len() ==> listed_before(k, o@[p] as int, o@[q] as int),
        decreases keys.len() - i,
    {
        let mut pos: usize = o.len();
        while pos > 0 && !text_in_order(keys[o[pos - 1]].as_str(), keys[i].as_str())
            invariant
                k == texts(keys@),
                i < keys.len(),
                pos <= o@.len(),
                o@.len() == i,
                forall|p: int| 0 <= p < o@.len() ==> o@[p] < i,
                forall|q: int| pos <= q < o@.len() ==> !text_le(k[o@[q] as int], k[i as int]),
            decreases pos,
        {
            pos = pos - 1;
        }
        proof {
            let ki = k[i as int];
            assert forall|p: int| 0 <= p < pos implies listed_before(
                k,
                o@[p] as int,
                i as int,
            ) by {
                let last = k[o@[pos - 1] as int];
                assert(text_le(last, ki));
                if p < pos - 1 {
                    assert(listed_before(k, o@[p] as int, o@[pos - 1] as int));
                    if k[o@[p] as int] == last {
                        lemma_text_le_reflexive(last);
                    }
                    lemma_text_le_transitive(k[o@[p] as int], last, ki);
                }
            }
            assert forall|q: int| pos <= q < o@.len() implies listed_before(
                k,
                i as int,
                o@[q] as int,
            ) by {
                lemma_text_le_total(k[o@[q] as int], ki);
                lemma_text_le_reflexive(ki);
            }
        }
        let ghost before = o@;
        o.insert(pos, i);
        proof {
            assert forall|p: int, q: int| 0 <= p < q < o@.len() implies listed_before(
                k,
                o@[p] as int,
                o@[q] as int,
            ) by {
                if q < pos {
                    assert(o@[p] == before[p] && o@[q] == before[q]);
                } else if q == pos {
                    assert(o@[p] == before[p]);
                } else if p < pos {
                    assert(o@[p] == before[p] && o@[q] == before[q - 1]);
                } else if p == pos {
                    assert(o@[q] == before[q - 1]);
                } else {
                    assert(o@[p] == before[p - 1] && o@[q] == before[q - 1]);
                }
            }
            assert forall|x: usize| x < i + 1 implies #[trigger] o@.contains(x) by {
                if x == i {
                    assert(o@[pos as int] == x);
                } else {
                    assert(before.contains(x));
                    let p = choose|p: int| 0 <= p < before.len() && before[p] == x;
                    if p < pos {
                        assert(o@[p] == x);
                    } else {
                        assert(o@[p + 1] == x);
                    }
                }
            }
        }
        i = i + 1;
    }
    o
}

/// No entry is listed before itself, and no two entries each before the
/// other.
proof fn lemma_listed_before_asymmetric(k: Seq<Seq<char>>, x: int, y: int)
    requires
        listed_before(k, x, y),
    ensures
        !listed_before(k, y, x),
{
    if k[x] != k[y] && text_le(k[y], k[x]) {
        lemma_text_le_antisymmetric(k[x], k[y]);
    }
}

/// Two lists that hold the same entries, each ordered by `listed_before`,
/// are the same list.
proof fn lemma_sorted_same_entries(k: Seq<Seq<char>>, a: Seq<usize>, b: Seq<usize>)
    requires
        forall|p: int, q: int| 0 <= p < q < a.len() ==> listed_before(k, a[p] as int, a[q] as int),
        forall|p: int, q: int| 0 <= p < q < b.len() ==> listed_before(k, b[p] as int, b[q] as int),
        forall|x: usize| a.contains(x) <==> b.contains(x),
    ensures
        a == b,
    decreases a.len(),
{
    if a.len() == 0 {
        if b.len() > 0 {
            assert(b.contains(b[0]));
        }
        assert(a =~= b);
    } else {
        assert(a.contains(a[0]));
        assert(b.len() > 0);
        assert(b.contains(b[0]));
        let pa = choose|p: int| 0 <= p < a.len() && a[p] == b[0];
        let pb = choose|p: int| 0 <= p < b.len() && b[p] == a[0];
        if a[0] != b[0] {
            assert(pa > 0 && pb > 0);
            lemma_listed_before_asymmetric(k, a[0] as int, b[0] as int);
        }
        let ta = a.drop_first();
        let tb = b.drop_first();
        assert forall|x: usize| ta.contains(x) implies tb.contains(x) by {
            let p = choose|p: int| 0 <= p < ta.len() && ta[p] == x;
            assert(a[p + 1] == x);
            assert(a.contains(x));
            assert(b.contains(x));
            let q = choose|q: int| 0 <= q < b.len() && b[q] == x;
            if q == 0 {
                assert(listed_before(k, a[0] as int, a[p + 1] as int));
            } else {
                assert(tb[q - 1] == x);
            }
        }
        assert forall|x: usize| tb.contains(x) implies ta.contains(x) by {
            let p = choose|p: int| 0 <= p < tb.len() && tb[p] == x;
            assert(b[p + 1] == x);
            assert(b.contains(x));
            assert(a.contains(x));
            let q = choose|q: int| 0 <= q < a.len() && a[q] == x;
            if q == 0 {
                assert(listed_before(k, b[0] as int, b[p + 1] as int));
            } else {
                assert(ta[q - 1] == x);
            }
        }
        assert forall|p: int, q: int| 0 <= p < q < ta.len() implies listed_before(
            k,
            ta[p] as int,
            ta[q] as int,
        ) by {
            assert(ta[p] == a[p + 1] && ta[q] == a[q + 1]);
        }
        assert forall|p: int, q: int| 0 <= p < q < tb.len() implies listed_before(
            k,
            tb[p] as int,
            tb[q] as int,
        ) by {
            assert(tb[p] == b[p + 1] && tb[q] == b[q + 1]);
        }
        lemma_sorted_same_entries(k, ta, tb);
        assert(a =~= seq![a[0]] + ta);
        assert(b =~= seq![b[0]] + tb);
    }
}

/// Entries with given keys have one listing order.
pub proof fn lemma_listing_order_unique(k: Seq<Seq<char>>, o1: Seq<usize>, o2: Seq<usize>)
    requires
        is_listing_order(k, o1),
        is_listing_order(k, o2),
    ensures
        o1 == o2,
{
    assert forall|x: usize| o1.contains(x) implies o2.contains(x) by {
        let p = choose|p: int| 0 <= p < o1.len() && o1[p] == x;
        assert(o1[p] < k.len());
    }
    assert forall|x: usize| o2.contains(x) implies o1.contains(x) by {
        let p = choose|p: int| 0 <= p < o2.len() && o2[p] == x;
        assert(o2[p] < k.len());
    }
    lemma_sorted_same_entries(k, o1, o2);
}

/// The lower-case names of languages, the keys they are listed by.
pub open spec fn language_keys(langs: Seq<Language>) -> Seq<Seq<char>> {
    langs.map_values(|l: Language| lower_of(l.name@))
}

/// The line that lists a language: its name, then its id in brackets.
pub open spec fn language_line(l: Language) -> Seq<char> {
    "- "@ + l.name@ + " (id: "@ + l.id@ + ")"@
}

/// One line per language, by name regardless of case; languages whose
/// names differ in case alone keep their order.
pub fn language_listing(langs: &Vec<Language>) -> (lines: Vec<String>)
    ensures
        exists|o: Seq<usize>|
            is_listing_order(language_keys(langs@), o) && lines@.len() == o.len() && forall|
                p: int,
            |
                0 <= p < o.len() ==> #[trigger] lines@[p]@ == language_line(langs@[o[p] as int]),
{
    let mut keys: Vec<String> = Vec::new();
    let mut i: usize = 0;
    while i < langs.len()
        invariant
            i <= langs@.len(),
            keys@.len() == i,
            texts(keys@) == language_keys(langs@).subrange(0, i as int),
        decreases langs@.len() - i,
    {
        let key = lowercase(langs[i].name.as_str());
        let ghost before = keys@;
        keys.push(key);
        assert forall|j: int| 0 <= j <= i implies #[trigger] texts(keys@)[j] == language_keys(
            langs@,
        )[j] by {
            if j < i {
                assert(keys@[j] == before[j]);
                assert(texts(before)[j] == language_keys(langs@).subrange(0, i as int)[j]);
            }
        }
        assert(texts(keys@) =~= language_keys(langs@).subrange(0, i + 1));
        i = i + 1;
    }
    assert(texts(keys@) =~= language_keys(langs@));
    let o = listing_order(&keys);
    let mut lines: Vec<String> = Vec::new();
    let mut p: usize = 0;
    while p < o.len()
        invariant
            is_listing_order(language_keys(langs@), o@),
            o@.len() == langs@.len(),
            p <= o@.len(),
            lines@.len() == p,
            forall|j: int|
                0 <= j < p ==> #[trigger] lines@[j]@ == language_line(langs@[o@[j] as int]),
        decreases o@.len() - p,
    {
        let l = &langs[o[p]];
        let line = String::from_str("- ").concat(l.name.as_str()).concat(" (id: ").concat(
            l.id.as_str(),
        ).concat(")");
        lines.push(line);
        p = p + 1;
    }
    lines
}

/// The line that lists a compiler.
pub open spec fn compiler_listing_line(c: CompilerInfo) -> Seq<char> {
    "- "@ + compiler_line(c)
}

/// One line per compiler, in their order.
pub fn compiler_listing(compilers: &Vec<CompilerInfo>) -> (lines: Vec<String>)
    ensures
        lines@.len() == compilers@.len(),
        forall|p: int|
            0 <= p < lines@.len() ==> #[trigger] lines@[p]@ == compiler_listing_line(
                compilers@[p],
            ),
{
    let mut lines: Vec<String> = Vec::new();
    let mut p: usize = 0;
    while p < compilers.len()
        invariant
            p <= compilers@.len(),
            lines@.len() == p,
            forall|j: int|
                0 <= j < p ==> #[trigger] lines@[j]@ == compiler_listing_line(compilers@[j]),
        decreases compilers@.len() - p,
    {
        let line = String::from_str("- ").concat(compilers[p].to_text().as_str());
        lines.push(line);
        p = p + 1;
    }
    lines
}

} // verus!
