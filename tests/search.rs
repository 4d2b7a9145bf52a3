use ce_rs::search::{find_compiler_by_id, find_compilers, keep_where, CompilerQuery, SearchError};
use ce_rs::types::CompilerInfo;

fn compiler(id: &str, name: &str, lang: &str, isa: &str, semver: &str) -> CompilerInfo {
    CompilerInfo {
        id: id.to_string(),
        name: name.to_string(),
        lang: lang.to_string(),
        compilerType: "gcc".to_string(),
        semver: semver.to_string(),
        instructionSet: isa.to_string(),
        exe: None,
        version: None,
        fullVersion: None,
        baseName: None,
        alias: None,
        options: None,
        versionRe: None,
        explicitVersion: None,
        compilerCategories: None,
        debugPatched: None,
        demangler: None,
        demanglerType: None,
        demanglerArgs: None,
        objdumper: None,
        objdumperType: None,
        objdumperArgs: None,
        intelAsm: None,
        supportsAsmDocs: None,
        needsMulti: None,
        adarts: None,
        supportsDeviceAsmView: None,
        supportsDemangle: None,
        supportsBinary: None,
        supportsBinaryObject: None,
        supportsIntel: None,
        interpreted: None,
        supportsExecute: None,
        supportsGccDump: None,
        supportsFiltersInBinary: None,
        supportsOptOutput: None,
        supportsStackUsageOutput: None,
        supportsPpView: None,
        supportsAstView: None,
        supportsIrView: None,
        supportsLLVMOptPipelineView: None,
        supportsRustMirView: None,
        supportsRustMacroExpView: None,
        supportsRustHirView: None,
        supportsHaskellCoreView: None,
        supportsHaskellStgView: None,
        supportsHaskellCmmView: None,
        supportsCfg: None,
        supportsGnatDebugViews: None,
        supportsLibraryCodeFilter: None,
        supportsMarch: None,
        supportsTarget: None,
        supportsTargetIs: None,
        executionWrapper: None,
        executionWrapperArgs: None,
        postProcess: None,
        group: None,
        groupName: None,
        includeFlag: None,
        includePath: None,
        linkFlag: None,
        rpathFlag: None,
        libpathFlag: None,
        libPath: None,
        ldPath: None,
        extraPath: None,
        notification: None,
        isSemVer: None,
        isNightly: None,
        unwiseOptions: None,
        hidden: None,
        disabledFilters: None,
        optArg: None,
        stackUsageArg: None,
        removeEmptyGccDump: None,
        irArg: None,
        minIrArgs: None,
        llvmOptArg: None,
        llvmOptModuleScopeArg: None,
        llvmOptNoDiscardValueNamesArg: None,
        nvdisasm: None,
    }
}

fn query() -> CompilerQuery {
    CompilerQuery { name: None, language: None, isa: None, version_min: None, version_max: None }
}

fn sample() -> Vec<CompilerInfo> {
    vec![
        compiler("g131", "x86-64 GCC 13.1", "c++", "amd64", "13.1"),
        compiler("clang16", "x86-64 clang 16.0.0", "c++", "amd64", "16.0.0"),
        compiler("armg12", "ARM gcc 12.2", "c++", "arm32", "12.2"),
        compiler("cg14", "x86-64 gcc 14.0", "c", "amd64", "14.0"),
        compiler("gtrunk", "x86-64 gcc (trunk)", "c++", "AMD64", "trunk"),
    ]
}

fn ids(v: &[CompilerInfo]) -> Vec<String> {
    v.iter().map(|c| c.id.clone()).collect()
}

#[test]
fn empty_query_keeps_everything() {
    let r = find_compilers(sample(), &query()).unwrap();
    assert_eq!(ids(&r), vec!["g131", "clang16", "armg12", "cg14", "gtrunk"]);
}

#[test]
fn empty_list_gives_empty_result() {
    let mut q = query();
    q.name = Some("gcc".to_string());
    let r = find_compilers(Vec::new(), &q).unwrap();
    assert!(r.is_empty());
}

#[test]
fn name_is_searched_ignoring_case() {
    let mut q = query();
    q.name = Some("gcc".to_string());
    let r = find_compilers(sample(), &q).unwrap();
    assert_eq!(ids(&r), vec!["g131", "armg12", "cg14", "gtrunk"]);
}

#[test]
fn name_is_read_as_a_regex() {
    let mut q = query();
    q.name = Some("^arm".to_string());
    let r = find_compilers(sample(), &q).unwrap();
    assert_eq!(ids(&r), vec!["armg12"]);
}

#[test]
fn language_is_matched_whole_ignoring_case() {
    let mut q = query();
    q.language = Some("C".to_string());
    let r = find_compilers(sample(), &q).unwrap();
    assert_eq!(ids(&r), vec!["cg14"]);
}

#[test]
fn isa_is_matched_whole_and_exactly() {
    let mut q = query();
    q.isa = Some("amd64".to_string());
    let r = find_compilers(sample(), &q).unwrap();
    assert_eq!(ids(&r), vec!["g131", "clang16", "cg14"]);
    q.isa = Some("amd".to_string());
    assert!(find_compilers(sample(), &q).unwrap().is_empty());
}

#[test]
fn version_range_is_inclusive() {
    let mut q = query();
    q.version_min = Some("13.1".to_string());
    q.version_max = Some("14".to_string());
    let r = find_compilers(sample(), &q).unwrap();
    assert_eq!(ids(&r), vec!["g131", "cg14"]);
}

#[test]
fn version_min_alone_drops_unreadable_versions() {
    let mut q = query();
    q.version_min = Some("13".to_string());
    let r = find_compilers(sample(), &q).unwrap();
    assert_eq!(ids(&r), vec!["g131", "clang16", "cg14"]);
}

#[test]
fn criteria_are_combined() {
    let mut q = query();
    q.name = Some("gcc".to_string());
    q.language = Some("c\\+\\+".to_string());
    q.version_max = Some("13.1".to_string());
    let r = find_compilers(sample(), &q).unwrap();
    assert_eq!(ids(&r), vec!["g131", "armg12"]);
}

#[test]
fn bad_name_is_reported() {
    let mut q = query();
    q.name = Some("(".to_string());
    q.language = Some("c(".to_string());
    assert_eq!(find_compilers(sample(), &q).unwrap_err(), SearchError::BadName);
}

#[test]
fn bad_language_is_reported() {
    let mut q = query();
    q.language = Some("c(".to_string());
    q.isa = Some("[".to_string());
    assert_eq!(find_compilers(sample(), &q).unwrap_err(), SearchError::BadLanguage);
}

#[test]
fn bad_instruction_set_is_reported() {
    let mut q = query();
    q.isa = Some("[".to_string());
    assert_eq!(find_compilers(sample(), &q).unwrap_err(), SearchError::BadInstructionSet);
}

#[test]
fn bad_version_min_is_reported() {
    let mut q = query();
    q.version_min = Some("abc".to_string());
    assert_eq!(find_compilers(Vec::new(), &q).unwrap_err(), SearchError::BadVersionMin);
}

#[test]
fn bad_version_max_is_reported() {
    let mut q = query();
    q.version_min = Some("1".to_string());
    q.version_max = Some("xyz".to_string());
    assert_eq!(find_compilers(sample(), &q).unwrap_err(), SearchError::BadVersionMax);
}

#[test]
fn compiler_is_found_by_id() {
    let mut all = sample();
    all.push(compiler("cg14", "duplicate", "c", "amd64", "14.0"));
    let c = find_compiler_by_id(all, "cg14").unwrap();
    assert_eq!(c.name, "x86-64 gcc 14.0");
}

#[test]
fn unknown_id_finds_nothing() {
    assert!(find_compiler_by_id(sample(), "nope").is_none());
    assert!(find_compiler_by_id(Vec::new(), "cg14").is_none());
}

#[test]
fn keep_where_keeps_flagged_items_in_order() {
    assert_eq!(keep_where(vec![1, 2, 3, 4], &vec![true, false, true, true]), vec![1, 3, 4]);
    assert_eq!(keep_where(vec![1, 2, 3], &vec![true]), vec![1]);
    assert_eq!(keep_where(vec![1, 2], &vec![false, true, true]), vec![2]);
    assert!(keep_where(Vec::<u8>::new(), &vec![true]).is_empty());
}
