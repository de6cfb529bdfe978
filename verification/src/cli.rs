//! The argument model of the `ghidra` command line: one variant per
//! subcommand, one struct per argument group.
//!
//! These are plain data types; the command-line parser of the binary
//! builds them. Subcommands that name one function accept it either as
//! a positional argument or through `--target`; `resolved_target` picks
//! the one to use.

use vstd::prelude::*;

verus! {

/// Top-level command line: the subcommand and the global flags.
#[derive(Clone, Debug)]
pub struct Cli {
    pub command: Commands,
    /// Log verbosity printed to stdout (`-v` = warn, `-vv` = info, `-vvv` = debug).
    pub verbose: u8,
    /// Suppress non-essential output.
    pub quiet: bool,
    /// Output as JSON.
    pub json: bool,
    /// Output JSON with pretty formatting.
    pub pretty: bool,
}

/// Every subcommand of the tool.
#[derive(Clone, Debug)]
pub enum Commands {
    /// Universal query command for any data type.
    Query(QueryArgs),
    /// Project management commands.
    Project(ProjectArgs),
    /// Program/binary management commands.
    Program(ProgramCommands),
    /// Function operations.
    Function(FunctionCommands),
    /// String operations.
    Strings(StringsCommands),
    /// Symbol operations.
    Symbol(SymbolCommands),
    /// Memory operations.
    Memory(MemoryCommands),
    /// Cross-reference operations.
    XRef(XRefCommands),
    /// Type operations.
    Type(TypeCommands),
    /// Struct/structure operations.
    Struct(StructCommands),
    /// Variable operations (list, rename, retype).
    Variable(VariableCommands),
    /// Enum operations (create).
    Enum(EnumCommands),
    /// Typedef operations (create).
    Typedef(TypedefCommands),
    /// Parse a C type definition and add it to the program.
    ParseC(ParseCTypeArgs),
    /// Bookmark operations (list, add, delete).
    Bookmark(BookmarkCommands),
    /// Comment operations.
    Comment(CommentCommands),
    /// Search operations.
    Find(FindCommands),
    /// Graph operations.
    Graph(GraphCommands),
    /// Decompile function.
    Decompile(DecompileArgs),
    /// Disassemble code.
    Disasm(DisasmArgs),
    /// Diff operations.
    Diff(DiffCommands),
    /// Dump/export data.
    Dump(DumpCommands),
    /// Patch binary.
    Patch(PatchCommands),
    /// Script execution.
    Script(ScriptCommands),
    /// Batch operations.
    Batch(BatchArgs),
    /// Configuration management.
    Config(ConfigCommands),
    /// Set default values.
    SetDefault(SetDefaultArgs),
    /// Program summary.
    Summary(SummaryArgs),
    /// Program statistics.
    Stats(StatsArgs),
    /// Show version information.
    Version,
    /// Check Ghidra installation.
    Doctor,
    /// Initialize configuration.
    Init,
    /// Import a binary into a project.
    Import(ImportArgs),
    /// Analyze a program.
    Analyze(AnalyzeArgs),
    /// Start the bridge.
    Start { project: Option<String>, program: Option<String> },
    /// Stop the bridge.
    Stop { project: Option<String> },
    /// Restart the bridge.
    Restart { project: Option<String>, program: Option<String> },
    /// Show bridge status.
    Status { project: Option<String> },
    /// Ping the bridge.
    Ping { project: Option<String> },
    /// Download and set up Ghidra.
    Setup(SetupArgs),
    /// Rename a symbol (shortcut for `symbol rename`).
    Rename(RenameArgs),
    /// Serve the tool over stdio for LLM integration.
    Mcp { project: Option<String>, program: Option<String> },
}

#[derive(Clone, Debug)]
pub enum ProjectCommands {
    /// Create a new project.
    Create { name: String },
    /// List all projects.
    List,
    /// Delete a project.
    Delete { name: String },
    /// Show project information.
    Info { name: Option<String> },
}

#[derive(Clone, Debug)]
pub enum ProgramCommands {
    List(ProgramTargetArgs),
    Open(ProgramTargetArgs),
    Close(ProgramTargetArgs),
    Delete(ProgramTargetArgs),
    Info(ProgramTargetArgs),
    Export(ExportArgs),
}

#[derive(Clone, Debug)]
pub enum FunctionCommands {
    List(QueryOptions),
    Get(FunctionGetArgs),
    Decompile(FunctionGetArgs),
    Disasm(FunctionGetArgs),
    Calls(FunctionGetArgs),
    XRefs(FunctionGetArgs),
    Rename(RenameArgs),
    Create(CreateFunctionArgs),
    Delete(FunctionGetArgs),
    SetSignature(SetFunctionSignatureArgs),
    SetReturnType(SetReturnTypeArgs),
}

#[derive(Clone, Debug)]
pub enum StringsCommands {
    List(QueryOptions),
    Refs(StringRefsArgs),
}

#[derive(Clone, Debug)]
pub enum SymbolCommands {
    List(QueryOptions),
    Get(SymbolGetArgs),
    Create(CreateSymbolArgs),
    Delete(SymbolGetArgs),
    Rename(RenameArgs),
}

#[derive(Clone, Debug)]
pub enum MemoryCommands {
    /// Show the memory map.
    MemoryMap(QueryOptions),
    Read(MemReadArgs),
    Write(MemWriteArgs),
    Search(MemSearchArgs),
}

#[derive(Clone, Debug)]
pub enum XRefCommands {
    To(XRefArgs),
    From(XRefArgs),
    List(XRefArgs),
}

#[derive(Clone, Debug)]
pub enum TypeCommands {
    List(QueryOptions),
    Get(TypeGetArgs),
    Create(CreateTypeArgs),
    Apply(ApplyTypeArgs),
}

#[derive(Clone, Debug)]
pub enum StructCommands {
    List(QueryOptions),
    Get(StructGetArgs),
    Create(StructCreateArgs),
    AddField(StructAddFieldArgs),
    RenameField(StructRenameFieldArgs),
    Delete(StructDeleteArgs),
}

#[derive(Clone, Debug)]
pub enum VariableCommands {
    List(VariableListArgs),
    Rename(VariableRenameArgs),
    Retype(VariableRetypeArgs),
}

#[derive(Clone, Debug)]
pub enum EnumCommands {
    Create(EnumCreateArgs),
}

#[derive(Clone, Debug)]
pub enum TypedefCommands {
    Create(TypedefCreateArgs),
}

#[derive(Clone, Debug)]
pub enum BookmarkCommands {
    List(BookmarkListArgs),
    Add(BookmarkAddArgs),
    Delete(BookmarkDeleteArgs),
}

#[derive(Clone, Debug)]
pub enum CommentCommands {
    List(QueryOptions),
    Get(CommentGetArgs),
    /// Set the comment at an address.
    SetText(CommentSetArgs),
    Delete(CommentGetArgs),
}

#[derive(Clone, Debug)]
pub enum FindCommands {
    String(FindStringArgs),
    Bytes(FindBytesArgs),
    Function(FindFunctionArgs),
    Calls(FindCallsArgs),
    Crypto(QueryOptions),
    Interesting(QueryOptions),
}

#[derive(Clone, Debug)]
pub enum GraphCommands {
    Calls(QueryOptions),
    Callers(GraphFunctionArgs),
    Callees(GraphFunctionArgs),
    Export(GraphExportArgs),
}

#[derive(Clone, Debug)]
pub enum DiffCommands {
    Programs(DiffProgramsArgs),
    Functions(DiffFunctionsArgs),
}

#[derive(Clone, Debug)]
pub enum DumpCommands {
    Imports(QueryOptions),
    Exports(QueryOptions),
    Functions(QueryOptions),
    Strings(QueryOptions),
}

#[derive(Clone, Debug)]
pub enum PatchCommands {
    Bytes(PatchBytesArgs),
    Nop(PatchNopArgs),
    Export(PatchExportArgs),
}

#[derive(Clone, Debug)]
pub enum ScriptCommands {
    Run(ScriptRunArgs),
    Python(ScriptInlineArgs),
    Java(ScriptInlineArgs),
    List,
}

#[derive(Clone, Debug)]
pub enum ConfigCommands {
    List,
    Get { key: String },
    /// Set a configuration value.
    SetValue { key: String, value: String },
    Reset,
}

#[derive(Clone, Debug)]
pub struct QueryArgs {
    /// Data type to query (functions, strings, imports, etc.)
    pub data_type: String,
    /// Target program
    pub program: Option<String>,
    /// Project name
    pub project: Option<String>,
    /// Filter expression
    pub filter: Option<String>,
    /// Field selection (comma-separated)
    pub fields: Option<String>,
    /// Output format
    pub format: Option<String>,
    /// Maximum number of results
    pub limit: Option<usize>,
    /// Skip first N results
    pub offset: Option<usize>,
    /// Sort by field(s) (comma-separated, prefix with - for descending)
    pub sort: Option<String>,
    /// Only return count
    pub count: bool,
    /// Output as JSON (shorthand for --format=json)
    pub json: bool,
}

#[derive(Clone, Debug)]
pub struct ProjectArgs {
    pub command: ProjectCommands,
}

#[derive(Clone, Debug)]
pub struct ProgramTargetArgs {
    pub program: Option<String>,
    pub project: Option<String>,
}

#[derive(Clone, Debug)]
pub struct ExportArgs {
    /// Export format (xml, json, asm, c)
    pub format: String,
    pub program: Option<String>,
    pub project: Option<String>,
    /// Output file
    pub output: Option<String>,
}

#[derive(Clone, Debug)]
pub struct FunctionGetArgs {
    /// Function target (name/address/FUN_...)
    pub positional_target: Option<String>,
    /// Function target (name | 0xaddr | FUN_<hex>)
    pub target: Option<String>,
    pub options: QueryOptions,
}

#[derive(Clone, Debug)]
pub struct RenameArgs {
    pub old_name: String,
    pub new_name: String,
    pub program: Option<String>,
    pub project: Option<String>,
}

#[derive(Clone, Debug)]
pub struct CreateFunctionArgs {
    pub address: String,
    pub name: Option<String>,
    pub program: Option<String>,
    pub project: Option<String>,
}

#[derive(Clone, Debug)]
pub struct SetFunctionSignatureArgs {
    /// Function name or address
    pub function: String,
    /// C-style function signature (e.g. "int main(int argc, char **argv)")
    pub signature: String,
    pub program: Option<String>,
    pub project: Option<String>,
}

#[derive(Clone, Debug)]
pub struct SetReturnTypeArgs {
    /// Function name or address
    pub function: String,
    /// Return type (e.g. int, void, long, char*)
    pub return_type: String,
    pub program: Option<String>,
    pub project: Option<String>,
}

#[derive(Clone, Debug)]
pub struct StringRefsArgs {
    pub string: String,
    pub options: QueryOptions,
}

#[derive(Clone, Debug)]
pub struct SymbolGetArgs {
    pub name: String,
    pub options: QueryOptions,
}

#[derive(Clone, Debug)]
pub struct CreateSymbolArgs {
    pub address: String,
    pub name: String,
    pub program: Option<String>,
    pub project: Option<String>,
}

#[derive(Clone, Debug)]
pub struct MemReadArgs {
    pub address: String,
    pub size: usize,
    pub options: QueryOptions,
}

#[derive(Clone, Debug)]
pub struct MemWriteArgs {
    pub address: String,
    pub bytes: String,
    pub program: Option<String>,
    pub project: Option<String>,
}

#[derive(Clone, Debug)]
pub struct MemSearchArgs {
    pub pattern: String,
    pub options: QueryOptions,
}

#[derive(Clone, Debug)]
pub struct XRefArgs {
    /// XRef target (name | 0xaddr | FUN_<hex>)
    pub positional_target: Option<String>,
    /// XRef target (name | 0xaddr | FUN_<hex>)
    pub target: Option<String>,
    pub options: QueryOptions,
}

#[derive(Clone, Debug)]
pub struct TypeGetArgs {
    pub name: String,
    pub options: QueryOptions,
}

#[derive(Clone, Debug)]
pub struct CreateTypeArgs {
    pub definition: String,
    pub program: Option<String>,
    pub project: Option<String>,
}

#[derive(Clone, Debug)]
pub struct ApplyTypeArgs {
    pub address: String,
    /// Name of the data type to apply.
    pub data_type: String,
    pub program: Option<String>,
    pub project: Option<String>,
}

#[derive(Clone, Debug)]
pub struct StructGetArgs {
    pub name: String,
    pub options: QueryOptions,
}

#[derive(Clone, Debug)]
pub struct StructCreateArgs {
    pub name: String,
    pub size: Option<usize>,
    pub category: Option<String>,
    pub program: Option<String>,
    pub project: Option<String>,
}

#[derive(Clone, Debug)]
pub struct StructAddFieldArgs {
    pub struct_name: String,
    pub field_name: String,
    pub field_type: String,
    pub size: Option<usize>,
    pub program: Option<String>,
    pub project: Option<String>,
}

#[derive(Clone, Debug)]
pub struct StructRenameFieldArgs {
    pub struct_name: String,
    pub old_name: String,
    pub new_name: String,
    pub program: Option<String>,
    pub project: Option<String>,
}

#[derive(Clone, Debug)]
pub struct StructDeleteArgs {
    pub name: String,
    pub program: Option<String>,
    pub project: Option<String>,
}

#[derive(Clone, Debug)]
pub struct VariableListArgs {
    /// Function name or address
    pub function: String,
    pub limit: Option<usize>,
    pub program: Option<String>,
    pub project: Option<String>,
    pub options: QueryOptions,
}

#[derive(Clone, Debug)]
pub struct VariableRenameArgs {
    /// Function name or address
    pub function: String,
    /// Current variable name
    pub old_name: String,
    /// New variable name
    pub new_name: String,
    pub program: Option<String>,
    pub project: Option<String>,
}

#[derive(Clone, Debug)]
pub struct VariableRetypeArgs {
    /// Function name or address
    pub function: String,
    /// Variable name
    pub variable: String,
    /// New data type (e.g. int, long, char*, pointer, or any defined type)
    pub new_type: String,
    pub program: Option<String>,
    pub project: Option<String>,
}

#[derive(Clone, Debug)]
pub struct EnumCreateArgs {
    /// Enum name
    pub name: String,
    /// Size in bytes (the command line defaults it to 4)
    pub size: usize,
    /// Category path (e.g. "/MyTypes")
    pub category: Option<String>,
    /// Members as a JSON array of `{"name", "value"}` objects
    pub members: Option<String>,
    pub program: Option<String>,
    pub project: Option<String>,
}

#[derive(Clone, Debug)]
pub struct TypedefCreateArgs {
    /// Typedef name
    pub name: String,
    /// Base type name
    pub base_type: String,
    /// Category path
    pub category: Option<String>,
    pub program: Option<String>,
    pub project: Option<String>,
}

#[derive(Clone, Debug)]
pub struct ParseCTypeArgs {
    /// C type definition (e.g. "struct foo { int x; int y; }")
    pub code: String,
    pub program: Option<String>,
    pub project: Option<String>,
}

#[derive(Clone, Debug)]
pub struct BookmarkListArgs {
    /// Filter by bookmark type (e.g. Note, Warning, Error, Analysis)
    pub bookmark_type: Option<String>,
    pub limit: Option<usize>,
    pub program: Option<String>,
    pub project: Option<String>,
}

#[derive(Clone, Debug)]
pub struct BookmarkAddArgs {
    /// Address to bookmark
    pub address: String,
    /// Bookmark type (the command line defaults it to `Note`)
    pub bookmark_type: String,
    /// Category label
    pub category: Option<String>,
    /// Comment text
    pub comment: Option<String>,
    pub program: Option<String>,
    pub project: Option<String>,
}

#[derive(Clone, Debug)]
pub struct BookmarkDeleteArgs {
    /// Address of bookmark to delete
    pub address: String,
    /// Only delete bookmarks of this type
    pub bookmark_type: Option<String>,
    pub program: Option<String>,
    pub project: Option<String>,
}

#[derive(Clone, Debug)]
pub struct CommentGetArgs {
    pub address: String,
    pub options: QueryOptions,
}

#[derive(Clone, Debug)]
pub struct CommentSetArgs {
    pub address: String,
    pub text: String,
    pub comment_type: Option<String>,
    pub program: Option<String>,
    pub project: Option<String>,
}

#[derive(Clone, Debug)]
pub struct FindStringArgs {
    pub pattern: String,
    pub options: QueryOptions,
}

#[derive(Clone, Debug)]
pub struct FindBytesArgs {
    pub hex: String,
    pub options: QueryOptions,
}

#[derive(Clone, Debug)]
pub struct FindFunctionArgs {
    pub pattern: String,
    pub options: QueryOptions,
}

#[derive(Clone, Debug)]
pub struct FindCallsArgs {
    /// Function target (name | 0xaddr | FUN_<hex>)
    pub positional_target: Option<String>,
    /// Function target (name | 0xaddr | FUN_<hex>)
    pub target: Option<String>,
    pub options: QueryOptions,
}

#[derive(Clone, Debug)]
pub struct GraphFunctionArgs {
    /// Function target (name | 0xaddr | FUN_<hex>)
    pub positional_target: Option<String>,
    /// Function target (name | 0xaddr | FUN_<hex>)
    pub target: Option<String>,
    pub depth: Option<usize>,
    pub options: QueryOptions,
}

#[derive(Clone, Debug)]
pub struct GraphExportArgs {
    /// Export format (e.g., dot, json)
    pub format: String,
    pub options: QueryOptions,
}

#[derive(Clone, Debug)]
pub struct DecompileArgs {
    /// Function target (name | 0xaddr | FUN_<hex>)
    pub positional_target: Option<String>,
    /// Function target (name | 0xaddr | FUN_<hex>)
    pub target: Option<String>,
    pub options: QueryOptions,
}

#[derive(Clone, Debug)]
pub struct DisasmArgs {
    /// Disassembly target (name | 0xaddr | FUN_<hex>)
    pub positional_target: Option<String>,
    /// Disassembly target (name | 0xaddr | FUN_<hex>)
    pub target: Option<String>,
    /// Number of instructions to disassemble
    pub num_instructions: Option<usize>,
    pub options: QueryOptions,
}

#[derive(Clone, Debug)]
pub struct DiffProgramsArgs {
    pub program1: String,
    pub program2: String,
    pub format: Option<String>,
    pub project: Option<String>,
}

#[derive(Clone, Debug)]
pub struct DiffFunctionsArgs {
    /// First function (name or address)
    pub func1: String,
    /// Second function (name or address)
    pub func2: String,
    pub format: Option<String>,
    pub project: Option<String>,
}

#[derive(Clone, Debug)]
pub struct PatchBytesArgs {
    pub address: String,
    pub hex: String,
    pub program: Option<String>,
    pub project: Option<String>,
}

#[derive(Clone, Debug)]
pub struct PatchNopArgs {
    pub address: String,
    pub count: Option<usize>,
    pub program: Option<String>,
    pub project: Option<String>,
}

#[derive(Clone, Debug)]
pub struct PatchExportArgs {
    pub output: String,
    pub program: Option<String>,
    pub project: Option<String>,
}

#[derive(Clone, Debug)]
pub struct ScriptRunArgs {
    pub script_path: String,
    pub program: Option<String>,
    pub project: Option<String>,
    /// Script arguments (after --)
    pub args: Vec<String>,
}

#[derive(Clone, Debug)]
pub struct ScriptInlineArgs {
    pub code: String,
    pub program: Option<String>,
    pub project: Option<String>,
}

#[derive(Clone, Debug)]
pub struct BatchArgs {
    pub script_file: String,
    pub project: Option<String>,
    pub program: Option<String>,
}

#[derive(Clone, Debug)]
pub struct SetDefaultArgs {
    pub kind: String,
    pub value: String,
}

#[derive(Clone, Debug)]
pub struct SummaryArgs {
    pub options: QueryOptions,
}

#[derive(Clone, Debug)]
pub struct StatsArgs {
    pub options: QueryOptions,
}

#[derive(Clone, Debug)]
pub struct ImportArgs {
    pub binary: String,
    pub program: Option<String>,
    pub project: Option<String>,
    /// Return immediately, let daemon continue import in background
    pub detach: bool,
}

#[derive(Clone, Debug)]
pub struct AnalyzeArgs {
    pub program: Option<String>,
    pub project: Option<String>,
    /// Return immediately, let daemon continue analysis in background
    pub detach: bool,
}

#[derive(Clone, Debug)]
pub struct QueryOptions {
    pub program: Option<String>,
    pub project: Option<String>,
    pub filter: Option<String>,
    pub fields: Option<String>,
    pub format: Option<String>,
    pub limit: Option<usize>,
    pub offset: Option<usize>,
    pub sort: Option<String>,
    pub count: bool,
    pub json: bool,
}

#[derive(Clone, Debug)]
pub struct SetupArgs {
    /// Specific Ghidra version to install (e.g., "11.0"). Defaults to latest.
    pub version: Option<String>,
    /// Installation directory. Defaults to standard data directory.
    pub dir: Option<String>,
    /// Skip Java check
    pub force: bool,
}

/// The target named by a `--target` flag or, failing that, by the
/// positional argument.
pub open spec fn chosen_target(target: Option<String>, positional: Option<String>) -> Seq<char> {
    match target {
        Some(t) => t@,
        None => match positional {
            Some(p) => p@,
            None => Seq::empty(),
        },
    }
}

/// Picks the `--target` value when present, else the positional one.
fn pick_target<'a>(target: &'a Option<String>, positional: &'a Option<String>) -> (r: &'a str)
    requires
        target.is_some() || positional.is_some(),
    ensures
        r@ == chosen_target(*target, *positional),
{
    match target {
        Some(t) => t.as_str(),
        None => match positional {
            Some(p) => p.as_str(),
            None => {
                assert(false);
                ""
            },
        },
    }
}

impl FunctionGetArgs {
    /// The function to act on; the parser guarantees one of the two
    /// forms was given.
    pub fn resolved_target(&self) -> (r: &str)
        requires
            self.target.is_some() || self.positional_target.is_some(),
        ensures
            r@ == chosen_target(self.target, self.positional_target),
    {
        pick_target(&self.target, &self.positional_target)
    }
}

impl XRefArgs {
    /// The address or symbol whose references are wanted.
    pub fn resolved_target(&self) -> (r: &str)
        requires
            self.target.is_some() || self.positional_target.is_some(),
        ensures
            r@ == chosen_target(self.target, self.positional_target),
    {
        pick_target(&self.target, &self.positional_target)
    }
}

impl FindCallsArgs {
    /// The function whose call sites are wanted.
    pub fn resolved_target(&self) -> (r: &str)
        requires
            self.target.is_some() || self.positional_target.is_some(),
        ensures
            r@ == chosen_target(self.target, self.positional_target),
    {
        pick_target(&self.target, &self.positional_target)
    }
}

impl GraphFunctionArgs {
    /// The function at the root of the call graph.
    pub fn resolved_target(&self) -> (r: &str)
        requires
            self.target.is_some() || self.positional_target.is_some(),
        ensures
            r@ == chosen_target(self.target, self.positional_target),
    {
        pick_target(&self.target, &self.positional_target)
    }
}

impl DecompileArgs {
    /// The function to decompile.
    pub fn resolved_target(&self) -> (r: &str)
        requires
            self.target.is_some() || self.positional_target.is_some(),
        ensures
            r@ == chosen_target(self.target, self.positional_target),
    {
        pick_target(&self.target, &self.positional_target)
    }
}

impl DisasmArgs {
    /// The address or function to disassemble.
    pub fn resolved_target(&self) -> (r: &str)
        requires
            self.target.is_some() || self.positional_target.is_some(),
        ensures
            r@ == chosen_target(self.target, self.positional_target),
    {
        pick_target(&self.target, &self.positional_target)
    }
}

} // verus!
