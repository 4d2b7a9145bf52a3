//! Building compilation requests.
use vstd::prelude::*;
use crate::filters::no_filters;
use crate::types::{CompileJob, CompileOptions, Filters, OtherCompilerOptions};

verus! {

/// Whether `j` asks to compile `source` with the arguments `args` and the
/// filters `f`: assembly wanted, no executor, no tools or libraries, no
/// language given, and the code may be kept for debugging.
pub open spec fn is_job(j: CompileJob, source: Seq<char>, args: Seq<char>, f: Filters) -> bool {
    &&& j.source@ == source
    &&& j.options.userArguments@ == args
    &&& j.options.compilerOptions == (OtherCompilerOptions {
        skipAsm: false,
        executorRequest: false,
    })
    &&& j.options.filters == f
    &&& j.options.tools@.len() == 0
    &&& j.options.libraries@.len() == 0
    &&& j.lang is None
    &&& j.allowStoreCodeDebug
}

impl CompileJob {
    /// A request to compile `source` with the arguments `compiler_option`
    /// and the filters `filters`.
    pub fn build(source: &str, compiler_option: &str, filters: &Filters) -> (r: Self)
        ensures
            is_job(r, source@, compiler_option@, *filters),
    {
        CompileJob {
            source: String::from_str(source),
            options: CompileOptions {
                userArguments: String::from_str(compiler_option),
                compilerOptions: OtherCompilerOptions { skipAsm: false, executorRequest: false },
                filters: *filters,
                tools: Vec::new(),
                libraries: Vec::new(),
            },
            lang: None,
            allowStoreCodeDebug: true,
        }
    }

    /// A request to compile `source` with the arguments `compiler_option`
    /// and every filter off.
    pub fn build_simple(source: &str, compiler_option: &str) -> (r: Self)
        ensures
            is_job(r, source@, compiler_option@, no_filters()),
    {
        CompileJob {
            source: String::from_str(source),
            options: CompileOptions {
                userArguments: String::from_str(compiler_option),
                compilerOptions: OtherCompilerOptions { skipAsm: false, executorRequest: false },
                filters: Filters {
                    binary: false,
                    binaryObject: false,
                    commentOnly: false,
                    demangle: false,
                    directives: false,
                    execute: false,
                    intel: false,
                    labels: false,
                    libraryCode: false,
                    trim: false,
                    debugCalls: false,
                },
                tools: Vec::new(),
                libraries: Vec::new(),
            },
            lang: None,
            allowStoreCodeDebug: true,
        }
    }
}

} // verus!
