//! Choosing compilers from the list that the service returns.
use vstd::prelude::*;
use std::cmp::Ordering;
use crate::outside::{
    compare_versions, compile_pattern, is_version, regex_accepts, regex_is_match,
    version_order, version_parses, Pattern,
};
use crate::text::same_text;
use crate::types::CompilerInfo;

verus! {

/// What a search among compilers asks for. Each criterion left out lets
/// every compiler through.
#[derive(Debug, Clone)]
pub struct CompilerQuery {
    /// A regex searched for in the compiler's name, ignoring case.
    pub name: Option<String>,
    /// The language id, matched whole and ignoring case (read as a regex).
    pub language: Option<String>,
    /// The instruction-set id, matched whole (read as a regex).
    pub isa: Option<String>,
    /// The lowest version let through.
    pub version_min: Option<String>,
    /// The highest version let through.
    pub version_max: Option<String>,
}

/// The criterion of a query that cannot be used.
#[derive(Debug, Clone, Copy, PartialEq, Eq, Structural)]
pub enum SearchError {
    /// The name does not make a regex.
    BadName,
    /// The language does not make a regex.
    BadLanguage,
    /// The instruction set does not make a regex.
    BadInstructionSet,
    /// The lowest version is not a version.
    BadVersionMin,
    /// The highest version is not a version.
    BadVersionMax,
}

/// The regex that a name is searched with.
pub open spec fn name_pattern(n: Seq<char>) -> Seq<char> {
    "(?i)"@ + n
}

/// The regex that a language id is matched with.
pub open spec fn language_pattern(l: Seq<char>) -> Seq<char> {
    "(?i)^"@ + l + "$"@
}

/// The regex that an instruction-set id is matched with.
pub open spec fn isa_pattern(i: Seq<char>) -> Seq<char> {
    "^"@ + i + "$"@
}

/// Whether `hay` passes the optional regex `p`; true when there is none.
pub open spec fn passes_regex(p: Option<Seq<char>>, hay: Seq<char>) -> bool {
    match p {
        Some(t) => regex_is_match(t, hay),
        None => true,
    }
}

/// Whether the optional regex `p` compiles; true when there is none.
pub open spec fn usable_regex(p: Option<Seq<char>>) -> bool {
    match p {
        Some(t) => regex_accepts(t),
        None => true,
    }
}

/// The regex of the name criterion of `q`, if any.
pub open spec fn name_regex(q: CompilerQuery) -> Option<Seq<char>> {
    match q.name {
        Some(n) => Some(name_pattern(n@)),
        None => None,
    }
}

/// The regex of the language criterion of `q`, if any.
pub open spec fn language_regex(q: CompilerQuery) -> Option<Seq<char>> {
    match q.language {
        Some(l) => Some(language_pattern(l@)),
        None => None,
    }
}

/// The regex of the instruction-set criterion of `q`, if any.
pub open spec fn isa_regex(q: CompilerQuery) -> Option<Seq<char>> {
    match q.isa {
        Some(i) => Some(isa_pattern(i@)),
        None => None,
    }
}

/// Whether the version `v` is at least `lo`, when `lo` is given.
pub open spec fn at_least(v: Seq<char>, lo: Option<String>) -> bool {
    match lo {
        Some(m) => version_parses(v) && version_order(v, m@) != Ordering::Less,
        None => true,
    }
}

/// Whether the version `v` is at most `hi`, when `hi` is given.
pub open spec fn at_most(v: Seq<char>, hi: Option<String>) -> bool {
    match hi {
        Some(m) => version_parses(v) && version_order(v, m@) != Ordering::Greater,
        None => true,
    }
}

/// Whether compiler `c` meets every criterion of `q`.
pub open spec fn selected(c: CompilerInfo, q: CompilerQuery) -> bool {
    &&& passes_regex(name_regex(q), c.name@)
    &&& passes_regex(language_regex(q), c.lang@)
    &&& passes_regex(isa_regex(q), c.instructionSet@)
    &&& at_least(c.semver@, q.version_min)
    &&& at_most(c.semver@, q.version_max)
}

/// Whether an optional version, when given, is a version.
pub open spec fn usable_version(t: Option<String>) -> bool {
    match t {
        Some(s) => version_parses(s@),
        None => true,
    }
}

/// The first criterion of `q` that cannot be used, in the order name,
/// language, instruction set, lowest version, highest version.
pub open spec fn query_problem(q: CompilerQuery) -> Option<SearchError> {
    if !usable_regex(name_regex(q)) {
        Some(SearchError::BadName)
    } else if !usable_regex(language_regex(q)) {
        Some(SearchError::BadLanguage)
    } else if !usable_regex(isa_regex(q)) {
        Some(SearchError::BadInstructionSet)
    } else if !usable_version(q.version_min) {
        Some(SearchError::BadVersionMin)
    } else if !usable_version(q.version_max) {
        Some(SearchError::BadVersionMax)
    } else {
        None
    }
}

/// The text of an optional compiled regex.
spec fn pattern_text(p: Option<Pattern>) -> Option<Seq<char>> {
    match p {
        Some(x) => Some(x@),
        None => None,
    }
}

/// `pre + t + post`, when `t` is given.
spec fn framed(t: Option<String>, pre: Seq<char>, post: Seq<char>) -> Option<Seq<char>> {
    match t {
        Some(s) => Some(pre + s@ + post),
        None => None,
    }
}

/// Compiles `pre + t + post` when `t` is given.
fn compile_criterion(t: &Option<String>, pre: &str, post: &str) -> (r: Result<
    Option<Pattern>,
    (),
>)
    ensures
        r is Ok <==> usable_regex(framed(*t, pre@, post@)),
        r matches Ok(p) ==> pattern_text(p) == framed(*t, pre@, post@),
{
    match t {
        Some(s) => {
            let text = String::from_str(pre).concat(s.as_str()).concat(post);
            match compile_pattern(text.as_str()) {
                Ok(p) => Ok(Some(p)),
                Err(_) => Err(()),
            }
        },
        None => Ok(None),
    }
}

/// Whether `hay` passes an optional compiled regex.
fn passes(p: &Option<Pattern>, hay: &str) -> (r: bool)
    ensures
        r == passes_regex(pattern_text(*p), hay@),
{
    match p {
        Some(x) => x.is_match(hay),
        None => true,
    }
}

/// Whether version `v` lies within the optional bounds.
fn within_versions(v: &str, lo: &Option<String>, hi: &Option<String>) -> (r: bool)
    requires
        usable_version(*lo),
        usable_version(*hi),
    ensures
        r == (at_least(v@, *lo) && at_most(v@, *hi)),
{
    if let Some(m) = lo {
        match compare_versions(v, m.as_str()) {
            Some(Ordering::Less) => {
                return false;
            },
            Some(_) => {},
            None => {
                return false;
            },
        }
    }
    if let Some(m) = hi {
        match compare_versions(v, m.as_str()) {
            Some(Ordering::Greater) => {
                return false;
            },
            Some(_) => {},
            None => {
                return false;
            },
        }
    }
    true
}

/// The items of `s` whose flag in `keep` is set, in their order; an item
/// without a flag is left out.
pub open spec fn kept<A>(s: Seq<A>, keep: Seq<bool>) -> Seq<A>
    decreases s.len(),
{
    if s.len() == 0 {
        s
    } else {
        let rest = kept(s.drop_last(), keep);
        if s.len() - 1 < keep.len() && keep[s.len() - 1] {
            rest.push(s.last())
        } else {
            rest
        }
    }
}

/// Flags that tell of each item whether it passes `p` keep what `p` keeps.
pub proof fn lemma_kept_is_filter<A>(s: Seq<A>, keep: Seq<bool>, p: spec_fn(A) -> bool)
    requires
        keep.len() == s.len(),
        forall|j: int| 0 <= j < s.len() ==> keep[j] == p(#[trigger] s[j]),
    ensures
        kept(s, keep) == s.filter(p),
    decreases s.len(),
{
    reveal(Seq::filter);
    if s.len() > 0 {
        let shorter = s.drop_last();
        lemma_kept_is_filter(shorter, keep.drop_last(), p);
        lemma_kept_ignores_extra_flags(shorter, keep);
    }
}

/// Flags past the end of the items do not matter.
proof fn lemma_kept_ignores_extra_flags<A>(s: Seq<A>, keep: Seq<bool>)
    requires
        s.len() < keep.len(),
    ensures
        kept(s, keep) == kept(s, keep.subrange(0, s.len() as int)),
    decreases s.len(),
{
    if s.len() > 0 {
        lemma_kept_ignores_extra_flags(s.drop_last(), keep);
        lemma_kept_ignores_extra_flags(s.drop_last(), keep.subrange(0, s.len() as int));
        assert(keep.subrange(0, s.len() as int).subrange(0, s.len() - 1) =~= keep.subrange(
            0,
            s.len() - 1,
        ));
    }
}

/// The items whose flag in `keep` is set, in their order; an item without a
/// flag is left out.
pub fn keep_where<T>(items: Vec<T>, keep: &Vec<bool>) -> (r: Vec<T>)
    ensures
        r@ == kept(items@, keep@),
{
    let mut out: Vec<T> = Vec::new();
    let ghost all = items@;
    let n = items.len();
    let mut i: usize = 0;
    for x in it: items
        invariant
            it.seq() == all,
            i == it.index(),
            all.len() == n,
            out@ == kept(all.subrange(0, i as int), keep@),
    {
        if i < keep.len() && keep[i] {
            out.push(x);
        }
        proof {
            let next = all.subrange(0, i + 1);
            assert(next.drop_last() =~= all.subrange(0, i as int));
        }
        i = i + 1;
    }
    assert(all.subrange(0, all.len() as int) =~= all);
    out
}

/// The compilers of `all` that meet every criterion of `q`, in their order;
/// or, when a criterion cannot be used, the first such.
pub fn find_compilers(all: Vec<CompilerInfo>, q: &CompilerQuery) -> (r: Result<
    Vec<CompilerInfo>,
    SearchError,
>)
    ensures
        match query_problem(*q) {
            Some(e) => r == Err::<Vec<CompilerInfo>, SearchError>(e),
            None => r matches Ok(v) && v@ == all@.filter(|c: CompilerInfo| selected(c, *q)),
        },
{
    proof {
        reveal_strlit("");
        if q.name is Some {
            let n = q.name->Some_0;
            assert(name_pattern(n@) =~= "(?i)"@ + n@ + ""@);
        }
        assert(framed(q.name, "(?i)"@, ""@) == name_regex(*q));
        assert(framed(q.language, "(?i)^"@, "$"@) == language_regex(*q));
        assert(framed(q.isa, "^"@, "$"@) == isa_regex(*q));
    }
    let name_re = match compile_criterion(&q.name, "(?i)", "") {
        Ok(p) => p,
        Err(()) => {
            return Err(SearchError::BadName);
        },
    };
    let lang_re = match compile_criterion(&q.language, "(?i)^", "$") {
        Ok(p) => p,
        Err(()) => {
            return Err(SearchError::BadLanguage);
        },
    };
    let isa_re = match compile_criterion(&q.isa, "^", "$") {
        Ok(p) => p,
        Err(()) => {
            return Err(SearchError::BadInstructionSet);
        },
    };
    if let Some(v) = &q.version_min {
        if !is_version(v.as_str()) {
            return Err(SearchError::BadVersionMin);
        }
    }
    if let Some(v) = &q.version_max {
        if !is_version(v.as_str()) {
            return Err(SearchError::BadVersionMax);
        }
    }
    let mut verdicts: Vec<bool> = Vec::new();
    let mut i: usize = 0;
    while i < all.len()
        invariant
            i <= all@.len(),
            verdicts@.len() == i,
            pattern_text(name_re) == name_regex(*q),
            pattern_text(lang_re) == language_regex(*q),
            pattern_text(isa_re) == isa_regex(*q),
            usable_version(q.version_min),
            usable_version(q.version_max),
            forall|j: int| 0 <= j < i ==> verdicts@[j] == selected(#[trigger] all@[j], *q),
        decreases all@.len() - i,
    {
        let c = &all[i];
        let ok = passes(&name_re, c.name.as_str()) && passes(&lang_re, c.lang.as_str())
            && passes(&isa_re, c.instructionSet.as_str()) && within_versions(
            c.semver.as_str(),
            &q.version_min,
            &q.version_max,
        );
        verdicts.push(ok);
        i = i + 1;
    }
    proof {
        lemma_kept_is_filter(all@, verdicts@, |c: CompilerInfo| selected(c, *q));
    }
    Ok(keep_where(all, &verdicts))
}

/// The first compiler of `all` whose id is `id`, if any.
pub fn find_compiler_by_id(all: Vec<CompilerInfo>, id: &str) -> (r: Option<CompilerInfo>)
    ensures
        match r {
            Some(c) => exists|k: int|
                0 <= k < all@.len() && all@[k] == c && c.id@ == id@ && forall|j: int|
                    0 <= j < k ==> all@[j].id@ != id@,
            None => forall|j: int| 0 <= j < all@.len() ==> all@[j].id@ != id@,
        },
{
    for c in it: all
        invariant
            it.seq() == all@,
            forall|j: int| 0 <= j < it.index() ==> all@[j].id@ != id@,
    {
        if same_text(c.id.as_str(), id) {
            return Some(c);
        }
    }
    None
}

/// Keeping what passes `p` and then what passes `q` keeps what passes both.
pub proof fn lemma_filter_twice<A>(s: Seq<A>, p: spec_fn(A) -> bool, q: spec_fn(A) -> bool)
    ensures
        s.filter(p).filter(q) == s.filter(|x: A| p(x) && q(x)),
    decreases s.len(),
{
    reveal(Seq::filter);
    if s.len() > 0 {
        lemma_filter_twice(s.drop_last(), p, q);
        let rest = s.drop_last().filter(p);
        if p(s.last()) {
            assert(rest.push(s.last()).drop_last() =~= rest);
        }
    }
}

/// Choosing compilers by every criterion at once keeps the same compilers,
/// in the same order, as narrowing the list one criterion after another: by
/// name, language, instruction set, lowest version, highest version.
pub proof fn lemma_search_is_chained_narrowing(all: Seq<CompilerInfo>, q: CompilerQuery)
    ensures
        all.filter(|c: CompilerInfo| selected(c, q)) == all.filter(
            |c: CompilerInfo| passes_regex(name_regex(q), c.name@),
        ).filter(|c: CompilerInfo| passes_regex(language_regex(q), c.lang@)).filter(
            |c: CompilerInfo| passes_regex(isa_regex(q), c.instructionSet@),
        ).filter(|c: CompilerInfo| at_least(c.semver@, q.version_min)).filter(
            |c: CompilerInfo| at_most(c.semver@, q.version_max),
        ),
{
    let by_name = |c: CompilerInfo| passes_regex(name_regex(q), c.name@);
    let by_lang = |c: CompilerInfo| passes_regex(language_regex(q), c.lang@);
    let by_isa = |c: CompilerInfo| passes_regex(isa_regex(q), c.instructionSet@);
    let by_min = |c: CompilerInfo| at_least(c.semver@, q.version_min);
    let by_max = |c: CompilerInfo| at_most(c.semver@, q.version_max);
    let two = |c: CompilerInfo| by_name(c) && by_lang(c);
    let three = |c: CompilerInfo| two(c) && by_isa(c);
    let four = |c: CompilerInfo| three(c) && by_min(c);
    let five = |c: CompilerInfo| four(c) && by_max(c);
    lemma_filter_twice(all, by_name, by_lang);
    lemma_filter_twice(all, two, by_isa);
    lemma_filter_twice(all, three, by_min);
    lemma_filter_twice(all, four, by_max);
    assert(five =~= (|c: CompilerInfo| selected(c, q)));
}

/// The version bounds are inclusive: a compiler whose version compares
/// equal to a bound is kept by it, as a lowest and as a highest version.
pub proof fn lemma_version_bounds_inclusive(v: Seq<char>, bound: String)
    requires
        version_parses(v),
        version_order(v, bound@) == Ordering::Equal,
    ensures
        at_least(v, Some(bound)),
        at_most(v, Some(bound)),
{
}

} // verus!
