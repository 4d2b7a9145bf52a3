//! The records exchanged with a compiler-explorer service, as plain data.
use vstd::prelude::*;

verus! {

/// A language that the service knows.
#[allow(non_snake_case)]
#[derive(Debug, Clone)]
pub struct Language {
    pub id: String,
    pub name: String,
    pub monaco: String,
    pub extensions: Vec<String>,
    pub alias: Option<Vec<String>>,
    pub formatter: Option<String>,
    pub supportsExecute: Option<bool>,
    pub logoUrl: Option<String>,
    pub logoUrlDark: Option<String>,
    pub example: Option<String>,
    pub previewFilter: Option<String>,
    pub monacoDisassembly: Option<String>,
    pub tooltip: Option<String>,
    pub defaultCompiler: Option<String>,
}

/// A compiler that the service offers. The first six fields are always
/// present; the others only when the full description was asked for.
#[allow(non_snake_case)]
#[derive(Debug, Clone)]
pub struct CompilerInfo {
    pub id: String,
    pub name: String,
    pub lang: String,
    pub compilerType: String,
    pub semver: String,
    pub instructionSet: String,
    pub exe: Option<String>,
    pub version: Option<String>,
    pub fullVersion: Option<String>,
    pub baseName: Option<String>,
    pub alias: Option<Vec<String>>,
    pub options: Option<String>,
    pub versionRe: Option<String>,
    pub explicitVersion: Option<String>,
    pub compilerCategories: Option<Vec<String>>,
    pub debugPatched: Option<bool>,
    pub demangler: Option<String>,
    pub demanglerType: Option<String>,
    pub demanglerArgs: Option<Vec<String>>,
    pub objdumper: Option<String>,
    pub objdumperType: Option<String>,
    pub objdumperArgs: Option<Vec<String>>,
    pub intelAsm: Option<String>,
    pub supportsAsmDocs: Option<bool>,
    pub needsMulti: Option<bool>,
    pub adarts: Option<String>,
    pub supportsDeviceAsmView: Option<bool>,
    pub supportsDemangle: Option<bool>,
    pub supportsBinary: Option<bool>,
    pub supportsBinaryObject: Option<bool>,
    pub supportsIntel: Option<bool>,
    pub interpreted: Option<bool>,
    pub supportsExecute: Option<bool>,
    pub supportsGccDump: Option<bool>,
    pub supportsFiltersInBinary: Option<bool>,
    pub supportsOptOutput: Option<bool>,
    pub supportsStackUsageOutput: Option<bool>,
    pub supportsPpView: Option<bool>,
    pub supportsAstView: Option<bool>,
    pub supportsIrView: Option<bool>,
    pub supportsLLVMOptPipelineView: Option<bool>,
    pub supportsRustMirView: Option<bool>,
    pub supportsRustMacroExpView: Option<bool>,
    pub supportsRustHirView: Option<bool>,
    pub supportsHaskellCoreView: Option<bool>,
    pub supportsHaskellStgView: Option<bool>,
    pub supportsHaskellCmmView: Option<bool>,
    pub supportsCfg: Option<bool>,
    pub supportsGnatDebugViews: Option<bool>,
    pub supportsLibraryCodeFilter: Option<bool>,
    pub supportsMarch: Option<bool>,
    pub supportsTarget: Option<bool>,
    pub supportsTargetIs: Option<bool>,
    pub executionWrapper: Option<String>,
    pub executionWrapperArgs: Option<Vec<String>>,
    pub postProcess: Option<Vec<String>>,
    pub group: Option<String>,
    pub groupName: Option<String>,
    pub includeFlag: Option<String>,
    pub includePath: Option<String>,
    pub linkFlag: Option<String>,
    pub rpathFlag: Option<String>,
    pub libpathFlag: Option<String>,
    pub libPath: Option<Vec<String>>,
    pub ldPath: Option<Vec<String>>,
    pub extraPath: Option<Vec<String>>,
    pub notification: Option<String>,
    pub isSemVer: Option<bool>,
    pub isNightly: Option<bool>,
    pub unwiseOptions: Option<Vec<String>>,
    pub hidden: Option<bool>,
    pub disabledFilters: Option<Vec<String>>,
    pub optArg: Option<String>,
    pub stackUsageArg: Option<String>,
    pub removeEmptyGccDump: Option<bool>,
    pub irArg: Option<Vec<String>>,
    pub minIrArgs: Option<Vec<String>>,
    pub llvmOptArg: Option<Vec<String>>,
    pub llvmOptModuleScopeArg: Option<Vec<String>>,
    pub llvmOptNoDiscardValueNamesArg: Option<Vec<String>>,
    pub nvdisasm: Option<String>,
}

/// One session stored behind a short link.
#[derive(Debug, Clone)]
pub struct Session {
    pub id: u8,
    pub language: String,
    pub source: String,
    pub conformanceview: bool,
    pub compilers: Vec<CompilerConfig>,
    pub executors: Vec<ExecutorConfig>,
}

/// What a short link stands for.
#[derive(Debug, Clone)]
pub struct ShortLinkInfo {
    pub sessions: Vec<Session>,
    pub trees: Vec<Tree>,
}

/// A tree of a short link (its content is not read).
#[derive(Debug, Clone)]
pub struct Tree {}

/// An executor of a session (its content is not read).
#[derive(Debug, Clone)]
pub struct ExecutorConfig {}

/// A compiler pane of a session.
#[allow(non_snake_case)]
#[derive(Debug, Clone)]
pub struct CompilerConfig {
    pub _internalid: u8,
    pub id: String,
    pub options: String,
    pub filters: Filters,
    pub libs: Vec<Library>,
    pub specialoutputs: Vec<Output>,
    pub tools: Vec<Tool>,
}

/// A special output of a compiler pane (its content is not read).
#[derive(Debug, Clone)]
pub struct Output {}

/// A library attached to a compilation (none is ever attached).
#[derive(Debug, Clone)]
pub struct Library {}

/// A tool attached to a compilation (none is ever attached).
#[derive(Debug, Clone)]
pub struct Tool {}

/// The output filters that the service applies to a compilation.
#[allow(non_snake_case)]
#[derive(Debug, Clone, Copy, PartialEq, Eq, Structural)]
pub struct Filters {
    pub binary: bool,
    pub binaryObject: bool,
    pub commentOnly: bool,
    pub demangle: bool,
    pub directives: bool,
    pub execute: bool,
    pub intel: bool,
    pub labels: bool,
    pub libraryCode: bool,
    pub trim: bool,
    pub debugCalls: bool,
}

/// A compilation request.
#[allow(non_snake_case)]
#[derive(Debug, Clone)]
pub struct CompileJob {
    pub source: String,
    pub options: CompileOptions,
    pub lang: Option<String>,
    pub allowStoreCodeDebug: bool,
}

/// The options of a compilation request.
#[allow(non_snake_case)]
#[derive(Debug, Clone)]
pub struct CompileOptions {
    pub userArguments: String,
    pub compilerOptions: OtherCompilerOptions,
    pub filters: Filters,
    pub tools: Vec<Tool>,
    pub libraries: Vec<Library>,
}

/// What the service should skip or run besides compiling.
#[allow(non_snake_case)]
#[derive(Debug, Clone, Copy, PartialEq, Eq, Structural)]
pub struct OtherCompilerOptions {
    pub skipAsm: bool,
    pub executorRequest: bool,
}

/// A file offered for download after a compilation (its content is not read).
#[derive(Debug, Clone)]
pub struct Download {}

/// The result of a tool (its content is not read).
#[derive(Debug, Clone)]
pub struct ToolResult {}

/// A label of an assembly line (its content is not read).
#[derive(Debug, Clone)]
pub struct Label {}

/// A diagnostic attached to an output line.
#[derive(Debug, Clone)]
pub struct Tag {
    pub line: i32,
    pub column: i32,
    pub text: String,
    pub severity: i32,
    pub file: String,
}

/// The lines that a compiler or a program wrote to one stream.
#[derive(Debug, Clone)]
pub struct SomeOutput(pub Vec<OutputItem>);

/// One line of a stream.
#[derive(Debug, Clone)]
pub struct OutputItem {
    pub text: String,
    pub tag: Option<Tag>,
}

/// Where in the source an assembly line comes from.
#[derive(Debug, Clone)]
pub struct SourceLocation {
    pub file: Option<String>,
    pub line: i32,
}

/// The assembly that a compilation produced, line by line.
#[derive(Debug, Clone)]
pub struct AsmOutput(pub Vec<AsmOutputItem>);

/// One line of assembly.
#[derive(Debug, Clone)]
pub struct AsmOutputItem {
    pub text: String,
    pub source: Option<SourceLocation>,
    pub labels: Vec<Label>,
}

/// An argument that other users often pass to a compiler.
#[derive(Debug, Clone)]
pub struct PopularArgument {
    pub description: String,
    pub timesused: i32,
}

} // verus!
