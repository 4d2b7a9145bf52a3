//! Building the set of output filters of a compilation.
use vstd::prelude::*;
use crate::text::same_text;
use crate::types::Filters;

verus! {

/// Every filter off.
pub open spec fn no_filters() -> Filters {
    Filters {
        binary: false,
        binaryObject: false,
        commentOnly: false,
        demangle: false,
        directives: false,
        execute: false,
        intel: false,
        labels: false,
        libraryCode: false,
        trim: false,
        debugCalls: false,
    }
}

/// The filters that an interactive session starts with: comments, directives,
/// unused labels and library code are hidden, symbols demangled, Intel syntax
/// used and debug calls hidden; no binary, no execution, no trimming.
pub open spec fn default_filters() -> Filters {
    Filters {
        binary: false,
        binaryObject: false,
        execute: false,
        commentOnly: true,
        demangle: true,
        directives: true,
        intel: true,
        labels: true,
        libraryCode: true,
        trim: false,
        debugCalls: true,
    }
}

/// Whether `n` is the name of a filter.
pub open spec fn is_filter_name(n: Seq<char>) -> bool {
    n == "binary"@ || n == "binaryObject"@ || n == "commentOnly"@ || n == "demangle"@
        || n == "directives"@ || n == "execute"@ || n == "intel"@ || n == "labels"@
        || n == "libraryCode"@ || n == "trim"@ || n == "debugCalls"@
}

/// `f` with the filter named `n` switched on; `f` itself when no filter has
/// that name.
pub open spec fn with_named(f: Filters, n: Seq<char>) -> Filters {
    if n == "binary"@ {
        Filters { binary: true, ..f }
    } else if n == "binaryObject"@ {
        Filters { binaryObject: true, ..f }
    } else if n == "commentOnly"@ {
        Filters { commentOnly: true, ..f }
    } else if n == "demangle"@ {
        Filters { demangle: true, ..f }
    } else if n == "directives"@ {
        Filters { directives: true, ..f }
    } else if n == "execute"@ {
        Filters { execute: true, ..f }
    } else if n == "intel"@ {
        Filters { intel: true, ..f }
    } else if n == "labels"@ {
        Filters { labels: true, ..f }
    } else if n == "libraryCode"@ {
        Filters { libraryCode: true, ..f }
    } else if n == "trim"@ {
        Filters { trim: true, ..f }
    } else if n == "debugCalls"@ {
        Filters { debugCalls: true, ..f }
    } else {
        f
    }
}

/// The filters that are on when exactly those named in `names` were asked
/// for, starting from every filter off.
pub open spec fn named_filters(names: Seq<Seq<char>>) -> Filters
    decreases names.len(),
{
    if names.len() == 0 {
        no_filters()
    } else {
        with_named(named_filters(names.drop_last()), names.last())
    }
}

/// The views of a list of texts.
pub open spec fn texts(v: Seq<String>) -> Seq<Seq<char>> {
    v.map_values(|s: String| s@)
}

impl Filters {
    /// Every filter off.
    pub fn all_disabled() -> (r: Self)
        ensures
            r == no_filters(),
    {
        Filters {
            binary: false,
            binaryObject: false,
            commentOnly: false,
            demangle: false,
            directives: false,
            execute: false,
            intel: false,
            labels: false,
            libraryCode: false,
            trim: false,
            debugCalls: false,
        }
    }

    /// The filters that an interactive session starts with.
    pub fn new() -> (r: Self)
        ensures
            r == default_filters(),
    {
        Filters {
            binary: false,
            binaryObject: false,
            execute: false,
            commentOnly: true,
            demangle: true,
            directives: true,
            intel: true,
            labels: true,
            libraryCode: true,
            trim: false,
            debugCalls: true,
        }
    }

    pub fn binary(self, v: bool) -> (r: Self)
        ensures
            r == (Filters { binary: v, ..self }),
    {
        let mut f = self;
        f.binary = v;
        f
    }

    pub fn binary_object(self, v: bool) -> (r: Self)
        ensures
            r == (Filters { binaryObject: v, ..self }),
    {
        let mut f = self;
        f.binaryObject = v;
        f
    }

    pub fn comment_only(self, v: bool) -> (r: Self)
        ensures
            r == (Filters { commentOnly: v, ..self }),
    {
        let mut f = self;
        f.commentOnly = v;
        f
    }

    pub fn demangle(self, v: bool) -> (r: Self)
        ensures
            r == (Filters { demangle: v, ..self }),
    {
        let mut f = self;
        f.demangle = v;
        f
    }

    pub fn directives(self, v: bool) -> (r: Self)
        ensures
            r == (Filters { directives: v, ..self }),
    {
        let mut f = self;
        f.directives = v;
        f
    }

    pub fn execute(self, v: bool) -> (r: Self)
        ensures
            r == (Filters { execute: v, ..self }),
    {
        let mut f = self;
        f.execute = v;
        f
    }

    pub fn intel(self, v: bool) -> (r: Self)
        ensures
            r == (Filters { intel: v, ..self }),
    {
        let mut f = self;
        f.intel = v;
        f
    }

    pub fn labels(self, v: bool) -> (r: Self)
        ensures
            r == (Filters { labels: v, ..self }),
    {
        let mut f = self;
        f.labels = v;
        f
    }

    #[allow(non_snake_case)]
    pub fn libraryCode(self, v: bool) -> (r: Self)
        ensures
            r == (Filters { libraryCode: v, ..self }),
    {
        let mut f = self;
        f.libraryCode = v;
        f
    }

    pub fn trim(self, v: bool) -> (r: Self)
        ensures
            r == (Filters { trim: v, ..self }),
    {
        let mut f = self;
        f.trim = v;
        f
    }

    #[allow(non_snake_case)]
    pub fn debugCalls(self, v: bool) -> (r: Self)
        ensures
            r == (Filters { debugCalls: v, ..self }),
    {
        let mut f = self;
        f.debugCalls = v;
        f
    }

    /// Switches on the filter named `name`. Returns whether a filter has that
    /// name; when none has, nothing changes.
    pub fn enable_named(&mut self, name: &str) -> (known: bool)
        ensures
            known == is_filter_name(name@),
            *final(self) == with_named(*old(self), name@),
    {
        if same_text(name, "binary") {
            self.binary = true;
        } else if same_text(name, "binaryObject") {
            self.binaryObject = true;
        } else if same_text(name, "commentOnly") {
            self.commentOnly = true;
        } else if same_text(name, "demangle") {
            self.demangle = true;
        } else if same_text(name, "directives") {
            self.directives = true;
        } else if same_text(name, "execute") {
            self.execute = true;
        } else if same_text(name, "intel") {
            self.intel = true;
        } else if same_text(name, "labels") {
            self.labels = true;
        } else if same_text(name, "libraryCode") {
            self.libraryCode = true;
        } else if same_text(name, "trim") {
            self.trim = true;
        } else if same_text(name, "debugCalls") {
            self.debugCalls = true;
        } else {
            return false;
        }
        true
    }

    /// The filters that are on when exactly those named in `names` are asked
    /// for, with the names that are no filter's, in their order.
    pub fn from_names(names: &Vec<String>) -> (r: (Self, Vec<String>))
        ensures
            r.0 == named_filters(texts(names@)),
            texts(r.1@) == texts(names@).filter(|n: Seq<char>| !is_filter_name(n)),
    {
        let mut f = Filters::all_disabled();
        let mut unknown: Vec<String> = Vec::new();
        let mut i: usize = 0;
        while i < names.len()
            invariant
                i <= names.len(),
                f == named_filters(texts(names@.subrange(0, i as int))),
                texts(unknown@) == texts(names@.subrange(0, i as int)).filter(
                    |n: Seq<char>| !is_filter_name(n),
                ),
            decreases names.len() - i,
        {
            let ghost before = texts(names@.subrange(0, i as int));
            let known = f.enable_named(names[i].as_str());
            if !known {
                unknown.push(names[i].clone());
            }
            proof {
                let after = texts(names@.subrange(0, i + 1));
                assert(after.drop_last() =~= before);
                assert(after.last() == names@[i as int]@);
                assert(texts(unknown@) =~= after.filter(|n: Seq<char>| !is_filter_name(n))) by {
                    reveal(Seq::filter);
                }
            }
            i = i + 1;
        }
        assert(names@.subrange(0, names.len() as int) =~= names@);
        (f, unknown)
    }

    /// The filters used for a compiler: those asked for, with execution
    /// switched off where the compiler cannot execute.
    pub fn for_compiler(self, supports_execute: bool) -> (r: Self)
        ensures
            r == (if supports_execute {
                self
            } else {
                Filters { execute: false, ..self }
            }),
    {
        if supports_execute {
            self
        } else {
            self.execute(false)
        }
    }
}

} // verus!
