//! The text of a command: its variant, argument-group and field names
//! with their values, laid out as Rust's derived `Debug` lays them out
//! (`Decompile(DecompileArgs { positional_target: Some("main"), ... })`).
//!
//! The daemon keys its result cache by this text and quotes it when it
//! refuses a command. Strings are quoted with backslash escapes for the
//! quote, the backslash, tab, carriage return, line feed, NUL and the
//! other ASCII control characters (`\u{1b}`); every other character is
//! written as it is.

use vstd::prelude::*;
use vstd::string::StrSliceExecFns;
use crate::cli::{
    Commands, ProjectCommands, ProgramCommands, FunctionCommands, StringsCommands, SymbolCommands, MemoryCommands, XRefCommands, TypeCommands, StructCommands, VariableCommands, EnumCommands, TypedefCommands, BookmarkCommands, CommentCommands, FindCommands, GraphCommands, DiffCommands, DumpCommands, PatchCommands, ScriptCommands, ConfigCommands, QueryArgs, ProjectArgs, ProgramTargetArgs, ExportArgs, FunctionGetArgs, RenameArgs, CreateFunctionArgs, SetFunctionSignatureArgs, SetReturnTypeArgs, StringRefsArgs, SymbolGetArgs, CreateSymbolArgs, MemReadArgs, MemWriteArgs, MemSearchArgs, XRefArgs, TypeGetArgs, CreateTypeArgs, ApplyTypeArgs, StructGetArgs, StructCreateArgs, StructAddFieldArgs, StructRenameFieldArgs, StructDeleteArgs, VariableListArgs, VariableRenameArgs, VariableRetypeArgs, EnumCreateArgs, TypedefCreateArgs, ParseCTypeArgs, BookmarkListArgs, BookmarkAddArgs, BookmarkDeleteArgs, CommentGetArgs, CommentSetArgs, FindStringArgs, FindBytesArgs, FindFunctionArgs, FindCallsArgs, GraphFunctionArgs, GraphExportArgs, DecompileArgs, DisasmArgs, DiffProgramsArgs, DiffFunctionsArgs, PatchBytesArgs, PatchNopArgs, PatchExportArgs, ScriptRunArgs, ScriptInlineArgs, BatchArgs, SetDefaultArgs, SummaryArgs, StatsArgs, ImportArgs, AnalyzeArgs, QueryOptions, SetupArgs,
};
use crate::text::{decimal, u64_decimal};
use vstd::seq_lib::lemma_concat_associative;

verus! {

/// A hexadecimal digit, lowercase.
pub open spec fn hex_digit(d: nat) -> Seq<char> {
    if d == 0 { "0"@ } else if d == 1 { "1"@ } else if d == 2 { "2"@ } else if d == 3 { "3"@ }
    else if d == 4 { "4"@ } else if d == 5 { "5"@ } else if d == 6 { "6"@ } else if d == 7 { "7"@ }
    else if d == 8 { "8"@ } else if d == 9 { "9"@ } else if d == 10 { "a"@ } else if d == 11 { "b"@ }
    else if d == 12 { "c"@ } else if d == 13 { "d"@ } else if d == 14 { "e"@ } else { "f"@ }
}

/// The hexadecimal numeral of `n` (below 256), without leading zeros.
pub open spec fn small_hex(n: nat) -> Seq<char> {
    if n < 16 { hex_digit(n) } else { hex_digit(n / 16) + hex_digit(n % 16) }
}

/// How a character is written inside a quoted string.
pub open spec fn escaped_char(c: char) -> Seq<char> {
    if c == '"' {
        "\\\""@
    } else if c == '\\' {
        "\\\\"@
    } else if c == '\n' {
        "\\n"@
    } else if c == '\r' {
        "\\r"@
    } else if c == '\t' {
        "\\t"@
    } else if c == '\0' {
        "\\0"@
    } else if (c as u32) < 0x20 || (c as u32) == 0x7f {
        "\\u{"@ + small_hex(c as u32 as nat) + "}"@
    } else {
        seq![c]
    }
}

/// The characters of `s`, each written as inside a quoted string.
pub open spec fn escaped(s: Seq<char>) -> Seq<char>
    decreases s.len(),
{
    if s.len() == 0 {
        Seq::empty()
    } else {
        escaped(s.drop_last()) + escaped_char(s.last())
    }
}

/// `s` as a quoted string.
pub open spec fn quoted(s: Seq<char>) -> Seq<char> {
    "\""@ + escaped(s) + "\""@
}

/// An optional string: `Some("...")` or `None`.
pub open spec fn opt_quoted(o: Option<String>) -> Seq<char> {
    match o {
        Some(s) => "Some("@ + quoted(s@) + ")"@,
        None => "None"@,
    }
}

/// An optional count: `Some(n)` or `None`.
pub open spec fn opt_number(o: Option<usize>) -> Seq<char> {
    match o {
        Some(n) => "Some("@ + decimal(n as nat) + ")"@,
        None => "None"@,
    }
}

/// A flag: `true` or `false`.
pub open spec fn flag_text(b: bool) -> Seq<char> {
    if b { "true"@ } else { "false"@ }
}

/// The items of a list of strings, quoted and separated by `, `.
pub open spec fn quoted_items(v: Seq<String>) -> Seq<char>
    decreases v.len(),
{
    if v.len() == 0 {
        Seq::empty()
    } else if v.len() == 1 {
        quoted(v[0]@)
    } else {
        quoted_items(v.drop_last()) + ", "@ + quoted(v.last()@)
    }
}

/// A list of strings: `["a", "b"]`.
pub open spec fn list_quoted(v: Seq<String>) -> Seq<char> {
    "["@ + quoted_items(v) + "]"@
}

fn push_hex_digit(out: &mut String, d: u32)
    requires
        d < 16,
    ensures
        final(out)@ == old(out)@ + hex_digit(d as nat),
{
    if d == 0 { out.append("0"); } else if d == 1 { out.append("1"); } else if d == 2 { out.append("2"); }
    else if d == 3 { out.append("3"); } else if d == 4 { out.append("4"); } else if d == 5 { out.append("5"); }
    else if d == 6 { out.append("6"); } else if d == 7 { out.append("7"); } else if d == 8 { out.append("8"); }
    else if d == 9 { out.append("9"); } else if d == 10 { out.append("a"); } else if d == 11 { out.append("b"); }
    else if d == 12 { out.append("c"); } else if d == 13 { out.append("d"); } else if d == 14 { out.append("e"); }
    else { out.append("f"); }
}

fn push_small_hex(out: &mut String, n: u32)
    requires
        n < 256,
    ensures
        final(out)@ == old(out)@ + small_hex(n as nat),
{
    if n < 16 {
        push_hex_digit(out, n);
    } else {
        push_hex_digit(out, n / 16);
        push_hex_digit(out, n % 16);
        assert(out@ =~= old(out)@ + small_hex(n as nat));
    }
}

/// Appends the `i`-th character of `s`, written as inside a quoted
/// string.
fn push_escaped_char(out: &mut String, s: &str, i: usize)
    requires
        i < s@.len() <= usize::MAX,
    ensures
        final(out)@ == old(out)@ + escaped_char(s@[i as int]),
{
    let c = s.get_char(i);
    if c == '"' {
        out.append("\\\"");
    } else if c == '\\' {
        out.append("\\\\");
    } else if c == '\n' {
        out.append("\\n");
    } else if c == '\r' {
        out.append("\\r");
    } else if c == '\t' {
        out.append("\\t");
    } else if c == '\0' {
        out.append("\\0");
    } else if (c as u32) < 0x20 || (c as u32) == 0x7f {
        out.append("\\u{");
        push_small_hex(out, c as u32);
        out.append("}");
        assert(out@ =~= old(out)@ + escaped_char(s@[i as int]));
    } else {
        let one = s.substring_char(i, i + 1);
        assert(one@ =~= seq![c]);
        out.append(one);
    }
}

/// Appends `s` as a quoted string.
fn push_quoted(out: &mut String, s: &str)
    ensures
        final(out)@ == old(out)@ + quoted(s@),
{
    let ghost start = out@;
    out.append("\"");
    let n = s.unicode_len();
    let mut i: usize = 0;
    assert(s@.take(0) =~= Seq::<char>::empty());
    while i < n
        invariant
            n == s@.len(),
            i <= n,
            out@ == start + "\""@ + escaped(s@.take(i as int)),
        decreases n - i,
    {
        push_escaped_char(out, s, i);
        assert(s@.take(i + 1).drop_last() =~= s@.take(i as int));
        assert(s@.take(i + 1).last() == s@[i as int]);
        assert(out@ =~= start + "\""@ + escaped(s@.take(i + 1)));
        i += 1;
    }
    assert(s@.take(n as int) =~= s@);
    out.append("\"");
    assert(out@ =~= start + quoted(s@));
}

fn push_number(out: &mut String, n: u64)
    ensures
        final(out)@ == old(out)@ + decimal(n as nat),
{
    let t = u64_decimal(n);
    out.append(t.as_str());
}

fn push_opt_quoted(out: &mut String, o: &Option<String>)
    ensures
        final(out)@ == old(out)@ + opt_quoted(*o),
{
    match o {
        Some(s) => {
            out.append("Some(");
            push_quoted(out, s.as_str());
            out.append(")");
        },
        None => {
            out.append("None");
        },
    }
    assert(out@ =~= old(out)@ + opt_quoted(*o));
}

fn push_opt_number(out: &mut String, o: Option<usize>)
    ensures
        final(out)@ == old(out)@ + opt_number(o),
{
    match o {
        Some(n) => {
            out.append("Some(");
            push_number(out, n as u64);
            out.append(")");
        },
        None => {
            out.append("None");
        },
    }
    assert(out@ =~= old(out)@ + opt_number(o));
}

fn push_flag(out: &mut String, b: bool)
    ensures
        final(out)@ == old(out)@ + flag_text(b),
{
    if b {
        out.append("true");
    } else {
        out.append("false");
    }
}

fn push_list_quoted(out: &mut String, v: &Vec<String>)
    ensures
        final(out)@ == old(out)@ + list_quoted(v@),
{
    let ghost start = out@;
    out.append("[");
    let mut i: usize = 0;
    assert(v@.take(0) =~= Seq::<String>::empty());
    while i < v.len()
        invariant
            i <= v@.len(),
            out@ == start + "["@ + quoted_items(v@.take(i as int)),
        decreases v@.len() - i,
    {
        if i > 0 {
            out.append(", ");
        }
        push_quoted(out, v[i].as_str());
        assert(v@.take(i + 1).drop_last() =~= v@.take(i as int));
        assert(v@.take(i + 1).last() == v@[i as int]);
        if i == 0 {
            assert(v@.take(1)[0] == v@[0]);
            assert(out@ =~= start + "["@ + quoted_items(v@.take(1)));
        } else {
            assert(out@ =~= start + "["@ + quoted_items(v@.take(i + 1)));
        }
        i += 1;
    }
    assert(v@.take(v@.len() as int) =~= v@);
    out.append("]");
    assert(out@ =~= start + list_quoted(v@));
}

/// The text of a [`Commands`].
pub open spec fn commands_text(v: Commands) -> Seq<char> {
    match v {
        Commands::Query(x) => "Query("@ + query_args_text(x) + ")"@,
        Commands::Project(x) => "Project("@ + project_args_text(x) + ")"@,
        Commands::Program(x) => "Program("@ + program_commands_text(x) + ")"@,
        Commands::Function(x) => "Function("@ + function_commands_text(x) + ")"@,
        Commands::Strings(x) => "Strings("@ + strings_commands_text(x) + ")"@,
        Commands::Symbol(x) => "Symbol("@ + symbol_commands_text(x) + ")"@,
        Commands::Memory(x) => "Memory("@ + memory_commands_text(x) + ")"@,
        Commands::XRef(x) => "XRef("@ + x_ref_commands_text(x) + ")"@,
        Commands::Type(x) => "Type("@ + type_commands_text(x) + ")"@,
        Commands::Struct(x) => "Struct("@ + struct_commands_text(x) + ")"@,
        Commands::Variable(x) => "Variable("@ + variable_commands_text(x) + ")"@,
        Commands::Enum(x) => "Enum("@ + enum_commands_text(x) + ")"@,
        Commands::Typedef(x) => "Typedef("@ + typedef_commands_text(x) + ")"@,
        Commands::ParseC(x) => "ParseC("@ + parse_c_type_args_text(x) + ")"@,
        Commands::Bookmark(x) => "Bookmark("@ + bookmark_commands_text(x) + ")"@,
        Commands::Comment(x) => "Comment("@ + comment_commands_text(x) + ")"@,
        Commands::Find(x) => "Find("@ + find_commands_text(x) + ")"@,
        Commands::Graph(x) => "Graph("@ + graph_commands_text(x) + ")"@,
        Commands::Decompile(x) => "Decompile("@ + decompile_args_text(x) + ")"@,
        Commands::Disasm(x) => "Disasm("@ + disasm_args_text(x) + ")"@,
        Commands::Diff(x) => "Diff("@ + diff_commands_text(x) + ")"@,
        Commands::Dump(x) => "Dump("@ + dump_commands_text(x) + ")"@,
        Commands::Patch(x) => "Patch("@ + patch_commands_text(x) + ")"@,
        Commands::Script(x) => "Script("@ + script_commands_text(x) + ")"@,
        Commands::Batch(x) => "Batch("@ + batch_args_text(x) + ")"@,
        Commands::Config(x) => "Config("@ + config_commands_text(x) + ")"@,
        Commands::SetDefault(x) => "SetDefault("@ + set_default_args_text(x) + ")"@,
        Commands::Summary(x) => "Summary("@ + summary_args_text(x) + ")"@,
        Commands::Stats(x) => "Stats("@ + stats_args_text(x) + ")"@,
        Commands::Version => "Version"@,
        Commands::Doctor => "Doctor"@,
        Commands::Init => "Init"@,
        Commands::Import(x) => "Import("@ + import_args_text(x) + ")"@,
        Commands::Analyze(x) => "Analyze("@ + analyze_args_text(x) + ")"@,
        Commands::Start { project, program } => "Start { project: "@ + opt_quoted(project) + ", program: "@ + opt_quoted(program) + " }"@,
        Commands::Stop { project } => "Stop { project: "@ + opt_quoted(project) + " }"@,
        Commands::Restart { project, program } => "Restart { project: "@ + opt_quoted(project) + ", program: "@ + opt_quoted(program) + " }"@,
        Commands::Status { project } => "Status { project: "@ + opt_quoted(project) + " }"@,
        Commands::Ping { project } => "Ping { project: "@ + opt_quoted(project) + " }"@,
        Commands::Setup(x) => "Setup("@ + setup_args_text(x) + ")"@,
        Commands::Rename(x) => "Rename("@ + rename_args_text(x) + ")"@,
        Commands::Mcp { project, program } => "Mcp { project: "@ + opt_quoted(project) + ", program: "@ + opt_quoted(program) + " }"@,
    }
}

/// The text of a [`ProjectCommands`].
pub open spec fn project_commands_text(v: ProjectCommands) -> Seq<char> {
    match v {
        ProjectCommands::Create { name } => "Create { name: "@ + quoted(name@) + " }"@,
        ProjectCommands::List => "List"@,
        ProjectCommands::Delete { name } => "Delete { name: "@ + quoted(name@) + " }"@,
        ProjectCommands::Info { name } => "Info { name: "@ + opt_quoted(name) + " }"@,
    }
}

/// The text of a [`ProgramCommands`].
pub open spec fn program_commands_text(v: ProgramCommands) -> Seq<char> {
    match v {
        ProgramCommands::List(x) => "List("@ + program_target_args_text(x) + ")"@,
        ProgramCommands::Open(x) => "Open("@ + program_target_args_text(x) + ")"@,
        ProgramCommands::Close(x) => "Close("@ + program_target_args_text(x) + ")"@,
        ProgramCommands::Delete(x) => "Delete("@ + program_target_args_text(x) + ")"@,
        ProgramCommands::Info(x) => "Info("@ + program_target_args_text(x) + ")"@,
        ProgramCommands::Export(x) => "Export("@ + export_args_text(x) + ")"@,
    }
}

/// The text of a [`FunctionCommands`].
pub open spec fn function_commands_text(v: FunctionCommands) -> Seq<char> {
    match v {
        FunctionCommands::List(x) => "List("@ + query_options_text(x) + ")"@,
        FunctionCommands::Get(x) => "Get("@ + function_get_args_text(x) + ")"@,
        FunctionCommands::Decompile(x) => "Decompile("@ + function_get_args_text(x) + ")"@,
        FunctionCommands::Disasm(x) => "Disasm("@ + function_get_args_text(x) + ")"@,
        FunctionCommands::Calls(x) => "Calls("@ + function_get_args_text(x) + ")"@,
        FunctionCommands::XRefs(x) => "XRefs("@ + function_get_args_text(x) + ")"@,
        FunctionCommands::Rename(x) => "Rename("@ + rename_args_text(x) + ")"@,
        FunctionCommands::Create(x) => "Create("@ + create_function_args_text(x) + ")"@,
        FunctionCommands::Delete(x) => "Delete("@ + function_get_args_text(x) + ")"@,
        FunctionCommands::SetSignature(x) => "SetSignature("@ + set_function_signature_args_text(x) + ")"@,
        FunctionCommands::SetReturnType(x) => "SetReturnType("@ + set_return_type_args_text(x) + ")"@,
    }
}

/// The text of a [`StringsCommands`].
pub open spec fn strings_commands_text(v: StringsCommands) -> Seq<char> {
    match v {
        StringsCommands::List(x) => "List("@ + query_options_text(x) + ")"@,
        StringsCommands::Refs(x) => "Refs("@ + string_refs_args_text(x) + ")"@,
    }
}

/// The text of a [`SymbolCommands`].
pub open spec fn symbol_commands_text(v: SymbolCommands) -> Seq<char> {
    match v {
        SymbolCommands::List(x) => "List("@ + query_options_text(x) + ")"@,
        SymbolCommands::Get(x) => "Get("@ + symbol_get_args_text(x) + ")"@,
        SymbolCommands::Create(x) => "Create("@ + create_symbol_args_text(x) + ")"@,
        SymbolCommands::Delete(x) => "Delete("@ + symbol_get_args_text(x) + ")"@,
        SymbolCommands::Rename(x) => "Rename("@ + rename_args_text(x) + ")"@,
    }
}

/// The text of a [`MemoryCommands`].
pub open spec fn memory_commands_text(v: MemoryCommands) -> Seq<char> {
    match v {
        MemoryCommands::MemoryMap(x) => "Map("@ + query_options_text(x) + ")"@,
        MemoryCommands::Read(x) => "Read("@ + mem_read_args_text(x) + ")"@,
        MemoryCommands::Write(x) => "Write("@ + mem_write_args_text(x) + ")"@,
        MemoryCommands::Search(x) => "Search("@ + mem_search_args_text(x) + ")"@,
    }
}

/// The text of a [`XRefCommands`].
pub open spec fn x_ref_commands_text(v: XRefCommands) -> Seq<char> {
    match v {
        XRefCommands::To(x) => "To("@ + x_ref_args_text(x) + ")"@,
        XRefCommands::From(x) => "From("@ + x_ref_args_text(x) + ")"@,
        XRefCommands::List(x) => "List("@ + x_ref_args_text(x) + ")"@,
    }
}

/// The text of a [`TypeCommands`].
pub open spec fn type_commands_text(v: TypeCommands) -> Seq<char> {
    match v {
        TypeCommands::List(x) => "List("@ + query_options_text(x) + ")"@,
        TypeCommands::Get(x) => "Get("@ + type_get_args_text(x) + ")"@,
        TypeCommands::Create(x) => "Create("@ + create_type_args_text(x) + ")"@,
        TypeCommands::Apply(x) => "Apply("@ + apply_type_args_text(x) + ")"@,
    }
}

/// The text of a [`StructCommands`].
pub open spec fn struct_commands_text(v: StructCommands) -> Seq<char> {
    match v {
        StructCommands::List(x) => "List("@ + query_options_text(x) + ")"@,
        StructCommands::Get(x) => "Get("@ + struct_get_args_text(x) + ")"@,
        StructCommands::Create(x) => "Create("@ + struct_create_args_text(x) + ")"@,
        StructCommands::AddField(x) => "AddField("@ + struct_add_field_args_text(x) + ")"@,
        StructCommands::RenameField(x) => "RenameField("@ + struct_rename_field_args_text(x) + ")"@,
        StructCommands::Delete(x) => "Delete("@ + struct_delete_args_text(x) + ")"@,
    }
}

/// The text of a [`VariableCommands`].
pub open spec fn variable_commands_text(v: VariableCommands) -> Seq<char> {
    match v {
        VariableCommands::List(x) => "List("@ + variable_list_args_text(x) + ")"@,
        VariableCommands::Rename(x) => "Rename("@ + variable_rename_args_text(x) + ")"@,
        VariableCommands::Retype(x) => "Retype("@ + variable_retype_args_text(x) + ")"@,
    }
}

/// The text of a [`EnumCommands`].
pub open spec fn enum_commands_text(v: EnumCommands) -> Seq<char> {
    match v {
        EnumCommands::Create(x) => "Create("@ + enum_create_args_text(x) + ")"@,
    }
}

/// The text of a [`TypedefCommands`].
pub open spec fn typedef_commands_text(v: TypedefCommands) -> Seq<char> {
    match v {
        TypedefCommands::Create(x) => "Create("@ + typedef_create_args_text(x) + ")"@,
    }
}

/// The text of a [`BookmarkCommands`].
pub open spec fn bookmark_commands_text(v: BookmarkCommands) -> Seq<char> {
    match v {
        BookmarkCommands::List(x) => "List("@ + bookmark_list_args_text(x) + ")"@,
        BookmarkCommands::Add(x) => "Add("@ + bookmark_add_args_text(x) + ")"@,
        BookmarkCommands::Delete(x) => "Delete("@ + bookmark_delete_args_text(x) + ")"@,
    }
}

/// The text of a [`CommentCommands`].
pub open spec fn comment_commands_text(v: CommentCommands) -> Seq<char> {
    match v {
        CommentCommands::List(x) => "List("@ + query_options_text(x) + ")"@,
        CommentCommands::Get(x) => "Get("@ + comment_get_args_text(x) + ")"@,
        CommentCommands::SetText(x) => "Set("@ + comment_set_args_text(x) + ")"@,
        CommentCommands::Delete(x) => "Delete("@ + comment_get_args_text(x) + ")"@,
    }
}

/// The text of a [`FindCommands`].
pub open spec fn find_commands_text(v: FindCommands) -> Seq<char> {
    match v {
        FindCommands::String(x) => "String("@ + find_string_args_text(x) + ")"@,
        FindCommands::Bytes(x) => "Bytes("@ + find_bytes_args_text(x) + ")"@,
        FindCommands::Function(x) => "Function("@ + find_function_args_text(x) + ")"@,
        FindCommands::Calls(x) => "Calls("@ + find_calls_args_text(x) + ")"@,
        FindCommands::Crypto(x) => "Crypto("@ + query_options_text(x) + ")"@,
        FindCommands::Interesting(x) => "Interesting("@ + query_options_text(x) + ")"@,
    }
}

/// The text of a [`GraphCommands`].
pub open spec fn graph_commands_text(v: GraphCommands) -> Seq<char> {
    match v {
        GraphCommands::Calls(x) => "Calls("@ + query_options_text(x) + ")"@,
        GraphCommands::Callers(x) => "Callers("@ + graph_function_args_text(x) + ")"@,
        GraphCommands::Callees(x) => "Callees("@ + graph_function_args_text(x) + ")"@,
        GraphCommands::Export(x) => "Export("@ + graph_export_args_text(x) + ")"@,
    }
}

/// The text of a [`DiffCommands`].
pub open spec fn diff_commands_text(v: DiffCommands) -> Seq<char> {
    match v {
        DiffCommands::Programs(x) => "Programs("@ + diff_programs_args_text(x) + ")"@,
        DiffCommands::Functions(x) => "Functions("@ + diff_functions_args_text(x) + ")"@,
    }
}

/// The text of a [`DumpCommands`].
pub open spec fn dump_commands_text(v: DumpCommands) -> Seq<char> {
    match v {
        DumpCommands::Imports(x) => "Imports("@ + query_options_text(x) + ")"@,
        DumpCommands::Exports(x) => "Exports("@ + query_options_text(x) + ")"@,
        DumpCommands::Functions(x) => "Functions("@ + query_options_text(x) + ")"@,
        DumpCommands::Strings(x) => "Strings("@ + query_options_text(x) + ")"@,
    }
}

/// The text of a [`PatchCommands`].
pub open spec fn patch_commands_text(v: PatchCommands) -> Seq<char> {
    match v {
        PatchCommands::Bytes(x) => "Bytes("@ + patch_bytes_args_text(x) + ")"@,
        PatchCommands::Nop(x) => "Nop("@ + patch_nop_args_text(x) + ")"@,
        PatchCommands::Export(x) => "Export("@ + patch_export_args_text(x) + ")"@,
    }
}

/// The text of a [`ScriptCommands`].
pub open spec fn script_commands_text(v: ScriptCommands) -> Seq<char> {
    match v {
        ScriptCommands::Run(x) => "Run("@ + script_run_args_text(x) + ")"@,
        ScriptCommands::Python(x) => "Python("@ + script_inline_args_text(x) + ")"@,
        ScriptCommands::Java(x) => "Java("@ + script_inline_args_text(x) + ")"@,
        ScriptCommands::List => "List"@,
    }
}

/// The text of a [`ConfigCommands`].
pub open spec fn config_commands_text(v: ConfigCommands) -> Seq<char> {
    match v {
        ConfigCommands::List => "List"@,
        ConfigCommands::Get { key } => "Get { key: "@ + quoted(key@) + " }"@,
        ConfigCommands::SetValue { key, value } => "Set { key: "@ + quoted(key@) + ", value: "@ + quoted(value@) + " }"@,
        ConfigCommands::Reset => "Reset"@,
    }
}

/// The text of a [`QueryArgs`].
pub open spec fn query_args_text(v: QueryArgs) -> Seq<char> {
    "QueryArgs { data_type: "@ + quoted(v.data_type@) + ", program: "@ + opt_quoted(v.program) + ", project: "@ + opt_quoted(v.project) + ", filter: "@ + opt_quoted(v.filter) + ", fields: "@ + opt_quoted(v.fields) + ", format: "@ + opt_quoted(v.format) + ", limit: "@ + opt_number(v.limit) + ", offset: "@ + opt_number(v.offset) + ", sort: "@ + opt_quoted(v.sort) + ", count: "@ + flag_text(v.count) + ", json: "@ + flag_text(v.json) + " }"@
}

/// The text of a [`ProjectArgs`].
pub open spec fn project_args_text(v: ProjectArgs) -> Seq<char> {
    "ProjectArgs { command: "@ + project_commands_text(v.command) + " }"@
}

/// The text of a [`ProgramTargetArgs`].
pub open spec fn program_target_args_text(v: ProgramTargetArgs) -> Seq<char> {
    "ProgramTargetArgs { program: "@ + opt_quoted(v.program) + ", project: "@ + opt_quoted(v.project) + " }"@
}

/// The text of a [`ExportArgs`].
pub open spec fn export_args_text(v: ExportArgs) -> Seq<char> {
    "ExportArgs { format: "@ + quoted(v.format@) + ", program: "@ + opt_quoted(v.program) + ", project: "@ + opt_quoted(v.project) + ", output: "@ + opt_quoted(v.output) + " }"@
}

/// The text of a [`FunctionGetArgs`].
pub open spec fn function_get_args_text(v: FunctionGetArgs) -> Seq<char> {
    "FunctionGetArgs { positional_target: "@ + opt_quoted(v.positional_target) + ", target: "@ + opt_quoted(v.target) + ", options: "@ + query_options_text(v.options) + " }"@
}

/// The text of a [`RenameArgs`].
pub open spec fn rename_args_text(v: RenameArgs) -> Seq<char> {
    "RenameArgs { old_name: "@ + quoted(v.old_name@) + ", new_name: "@ + quoted(v.new_name@) + ", program: "@ + opt_quoted(v.program) + ", project: "@ + opt_quoted(v.project) + " }"@
}

/// The text of a [`CreateFunctionArgs`].
pub open spec fn create_function_args_text(v: CreateFunctionArgs) -> Seq<char> {
    "CreateFunctionArgs { address: "@ + quoted(v.address@) + ", name: "@ + opt_quoted(v.name) + ", program: "@ + opt_quoted(v.program) + ", project: "@ + opt_quoted(v.project) + " }"@
}

/// The text of a [`SetFunctionSignatureArgs`].
pub open spec fn set_function_signature_args_text(v: SetFunctionSignatureArgs) -> Seq<char> {
    "SetFunctionSignatureArgs { function: "@ + quoted(v.function@) + ", signature: "@ + quoted(v.signature@) + ", program: "@ + opt_quoted(v.program) + ", project: "@ + opt_quoted(v.project) + " }"@
}

/// The text of a [`SetReturnTypeArgs`].
pub open spec fn set_return_type_args_text(v: SetReturnTypeArgs) -> Seq<char> {
    "SetReturnTypeArgs { function: "@ + quoted(v.function@) + ", return_type: "@ + quoted(v.return_type@) + ", program: "@ + opt_quoted(v.program) + ", project: "@ + opt_quoted(v.project) + " }"@
}

/// The text of a [`StringRefsArgs`].
pub open spec fn string_refs_args_text(v: StringRefsArgs) -> Seq<char> {
    "StringRefsArgs { string: "@ + quoted(v.string@) + ", options: "@ + query_options_text(v.options) + " }"@
}

/// The text of a [`SymbolGetArgs`].
pub open spec fn symbol_get_args_text(v: SymbolGetArgs) -> Seq<char> {
    "SymbolGetArgs { name: "@ + quoted(v.name@) + ", options: "@ + query_options_text(v.options) + " }"@
}

/// The text of a [`CreateSymbolArgs`].
pub open spec fn create_symbol_args_text(v: CreateSymbolArgs) -> Seq<char> {
    "CreateSymbolArgs { address: "@ + quoted(v.address@) + ", name: "@ + quoted(v.name@) + ", program: "@ + opt_quoted(v.program) + ", project: "@ + opt_quoted(v.project) + " }"@
}

/// The text of a [`MemReadArgs`].
pub open spec fn mem_read_args_text(v: MemReadArgs) -> Seq<char> {
    "MemReadArgs { address: "@ + quoted(v.address@) + ", size: "@ + decimal(v.size as nat) + ", options: "@ + query_options_text(v.options) + " }"@
}

/// The text of a [`MemWriteArgs`].
pub open spec fn mem_write_args_text(v: MemWriteArgs) -> Seq<char> {
    "MemWriteArgs { address: "@ + quoted(v.address@) + ", bytes: "@ + quoted(v.bytes@) + ", program: "@ + opt_quoted(v.program) + ", project: "@ + opt_quoted(v.project) + " }"@
}

/// The text of a [`MemSearchArgs`].
pub open spec fn mem_search_args_text(v: MemSearchArgs) -> Seq<char> {
    "MemSearchArgs { pattern: "@ + quoted(v.pattern@) + ", options: "@ + query_options_text(v.options) + " }"@
}

/// The text of a [`XRefArgs`].
pub open spec fn x_ref_args_text(v: XRefArgs) -> Seq<char> {
    "XRefArgs { positional_target: "@ + opt_quoted(v.positional_target) + ", target: "@ + opt_quoted(v.target) + ", options: "@ + query_options_text(v.options) + " }"@
}

/// The text of a [`TypeGetArgs`].
pub open spec fn type_get_args_text(v: TypeGetArgs) -> Seq<char> {
    "TypeGetArgs { name: "@ + quoted(v.name@) + ", options: "@ + query_options_text(v.options) + " }"@
}

/// The text of a [`CreateTypeArgs`].
pub open spec fn create_type_args_text(v: CreateTypeArgs) -> Seq<char> {
    "CreateTypeArgs { definition: "@ + quoted(v.definition@) + ", program: "@ + opt_quoted(v.program) + ", project: "@ + opt_quoted(v.project) + " }"@
}

/// The text of a [`ApplyTypeArgs`].
pub open spec fn apply_type_args_text(v: ApplyTypeArgs) -> Seq<char> {
    "ApplyTypeArgs { address: "@ + quoted(v.address@) + ", type_name: "@ + quoted(v.data_type@) + ", program: "@ + opt_quoted(v.program) + ", project: "@ + opt_quoted(v.project) + " }"@
}

/// The text of a [`StructGetArgs`].
pub open spec fn struct_get_args_text(v: StructGetArgs) -> Seq<char> {
    "StructGetArgs { name: "@ + quoted(v.name@) + ", options: "@ + query_options_text(v.options) + " }"@
}

/// The text of a [`StructCreateArgs`].
pub open spec fn struct_create_args_text(v: StructCreateArgs) -> Seq<char> {
    "StructCreateArgs { name: "@ + quoted(v.name@) + ", size: "@ + opt_number(v.size) + ", category: "@ + opt_quoted(v.category) + ", program: "@ + opt_quoted(v.program) + ", project: "@ + opt_quoted(v.project) + " }"@
}

/// The text of a [`StructAddFieldArgs`].
pub open spec fn struct_add_field_args_text(v: StructAddFieldArgs) -> Seq<char> {
    "StructAddFieldArgs { struct_name: "@ + quoted(v.struct_name@) + ", field_name: "@ + quoted(v.field_name@) + ", field_type: "@ + quoted(v.field_type@) + ", size: "@ + opt_number(v.size) + ", program: "@ + opt_quoted(v.program) + ", project: "@ + opt_quoted(v.project) + " }"@
}

/// The text of a [`StructRenameFieldArgs`].
pub open spec fn struct_rename_field_args_text(v: StructRenameFieldArgs) -> Seq<char> {
    "StructRenameFieldArgs { struct_name: "@ + quoted(v.struct_name@) + ", old_name: "@ + quoted(v.old_name@) + ", new_name: "@ + quoted(v.new_name@) + ", program: "@ + opt_quoted(v.program) + ", project: "@ + opt_quoted(v.project) + " }"@
}

/// The text of a [`StructDeleteArgs`].
pub open spec fn struct_delete_args_text(v: StructDeleteArgs) -> Seq<char> {
    "StructDeleteArgs { name: "@ + quoted(v.name@) + ", program: "@ + opt_quoted(v.program) + ", project: "@ + opt_quoted(v.project) + " }"@
}

/// The text of a [`VariableListArgs`].
pub open spec fn variable_list_args_text(v: VariableListArgs) -> Seq<char> {
    "VariableListArgs { function: "@ + quoted(v.function@) + ", limit: "@ + opt_number(v.limit) + ", program: "@ + opt_quoted(v.program) + ", project: "@ + opt_quoted(v.project) + ", options: "@ + query_options_text(v.options) + " }"@
}

/// The text of a [`VariableRenameArgs`].
pub open spec fn variable_rename_args_text(v: VariableRenameArgs) -> Seq<char> {
    "VariableRenameArgs { function: "@ + quoted(v.function@) + ", old_name: "@ + quoted(v.old_name@) + ", new_name: "@ + quoted(v.new_name@) + ", program: "@ + opt_quoted(v.program) + ", project: "@ + opt_quoted(v.project) + " }"@
}

/// The text of a [`VariableRetypeArgs`].
pub open spec fn variable_retype_args_text(v: VariableRetypeArgs) -> Seq<char> {
    "VariableRetypeArgs { function: "@ + quoted(v.function@) + ", variable: "@ + quoted(v.variable@) + ", new_type: "@ + quoted(v.new_type@) + ", program: "@ + opt_quoted(v.program) + ", project: "@ + opt_quoted(v.project) + " }"@
}

/// The text of a [`EnumCreateArgs`].
pub open spec fn enum_create_args_text(v: EnumCreateArgs) -> Seq<char> {
    "EnumCreateArgs { name: "@ + quoted(v.name@) + ", size: "@ + decimal(v.size as nat) + ", category: "@ + opt_quoted(v.category) + ", members: "@ + opt_quoted(v.members) + ", program: "@ + opt_quoted(v.program) + ", project: "@ + opt_quoted(v.project) + " }"@
}

/// The text of a [`TypedefCreateArgs`].
pub open spec fn typedef_create_args_text(v: TypedefCreateArgs) -> Seq<char> {
    "TypedefCreateArgs { name: "@ + quoted(v.name@) + ", base_type: "@ + quoted(v.base_type@) + ", category: "@ + opt_quoted(v.category) + ", program: "@ + opt_quoted(v.program) + ", project: "@ + opt_quoted(v.project) + " }"@
}

/// The text of a [`ParseCTypeArgs`].
pub open spec fn parse_c_type_args_text(v: ParseCTypeArgs) -> Seq<char> {
    "ParseCTypeArgs { code: "@ + quoted(v.code@) + ", program: "@ + opt_quoted(v.program) + ", project: "@ + opt_quoted(v.project) + " }"@
}

/// The text of a [`BookmarkListArgs`].
pub open spec fn bookmark_list_args_text(v: BookmarkListArgs) -> Seq<char> {
    "BookmarkListArgs { bookmark_type: "@ + opt_quoted(v.bookmark_type) + ", limit: "@ + opt_number(v.limit) + ", program: "@ + opt_quoted(v.program) + ", project: "@ + opt_quoted(v.project) + " }"@
}

/// The text of a [`BookmarkAddArgs`].
pub open spec fn bookmark_add_args_text(v: BookmarkAddArgs) -> Seq<char> {
    "BookmarkAddArgs { address: "@ + quoted(v.address@) + ", bookmark_type: "@ + quoted(v.bookmark_type@) + ", category: "@ + opt_quoted(v.category) + ", comment: "@ + opt_quoted(v.comment) + ", program: "@ + opt_quoted(v.program) + ", project: "@ + opt_quoted(v.project) + " }"@
}

/// The text of a [`BookmarkDeleteArgs`].
pub open spec fn bookmark_delete_args_text(v: BookmarkDeleteArgs) -> Seq<char> {
    "BookmarkDeleteArgs { address: "@ + quoted(v.address@) + ", bookmark_type: "@ + opt_quoted(v.bookmark_type) + ", program: "@ + opt_quoted(v.program) + ", project: "@ + opt_quoted(v.project) + " }"@
}

/// The text of a [`CommentGetArgs`].
pub open spec fn comment_get_args_text(v: CommentGetArgs) -> Seq<char> {
    "CommentGetArgs { address: "@ + quoted(v.address@) + ", options: "@ + query_options_text(v.options) + " }"@
}

/// The text of a [`CommentSetArgs`].
pub open spec fn comment_set_args_text(v: CommentSetArgs) -> Seq<char> {
    "CommentSetArgs { address: "@ + quoted(v.address@) + ", text: "@ + quoted(v.text@) + ", comment_type: "@ + opt_quoted(v.comment_type) + ", program: "@ + opt_quoted(v.program) + ", project: "@ + opt_quoted(v.project) + " }"@
}

/// The text of a [`FindStringArgs`].
pub open spec fn find_string_args_text(v: FindStringArgs) -> Seq<char> {
    "FindStringArgs { pattern: "@ + quoted(v.pattern@) + ", options: "@ + query_options_text(v.options) + " }"@
}

/// The text of a [`FindBytesArgs`].
pub open spec fn find_bytes_args_text(v: FindBytesArgs) -> Seq<char> {
    "FindBytesArgs { hex: "@ + quoted(v.hex@) + ", options: "@ + query_options_text(v.options) + " }"@
}

/// The text of a [`FindFunctionArgs`].
pub open spec fn find_function_args_text(v: FindFunctionArgs) -> Seq<char> {
    "FindFunctionArgs { pattern: "@ + quoted(v.pattern@) + ", options: "@ + query_options_text(v.options) + " }"@
}

/// The text of a [`FindCallsArgs`].
pub open spec fn find_calls_args_text(v: FindCallsArgs) -> Seq<char> {
    "FindCallsArgs { positional_target: "@ + opt_quoted(v.positional_target) + ", target: "@ + opt_quoted(v.target) + ", options: "@ + query_options_text(v.options) + " }"@
}

/// The text of a [`GraphFunctionArgs`].
pub open spec fn graph_function_args_text(v: GraphFunctionArgs) -> Seq<char> {
    "GraphFunctionArgs { positional_target: "@ + opt_quoted(v.positional_target) + ", target: "@ + opt_quoted(v.target) + ", depth: "@ + opt_number(v.depth) + ", options: "@ + query_options_text(v.options) + " }"@
}

/// The text of a [`GraphExportArgs`].
pub open spec fn graph_export_args_text(v: GraphExportArgs) -> Seq<char> {
    "GraphExportArgs { format: "@ + quoted(v.format@) + ", options: "@ + query_options_text(v.options) + " }"@
}

/// The text of a [`DecompileArgs`].
pub open spec fn decompile_args_text(v: DecompileArgs) -> Seq<char> {
    "DecompileArgs { positional_target: "@ + opt_quoted(v.positional_target) + ", target: "@ + opt_quoted(v.target) + ", options: "@ + query_options_text(v.options) + " }"@
}

/// The text of a [`DisasmArgs`].
pub open spec fn disasm_args_text(v: DisasmArgs) -> Seq<char> {
    "DisasmArgs { positional_target: "@ + opt_quoted(v.positional_target) + ", target: "@ + opt_quoted(v.target) + ", num_instructions: "@ + opt_number(v.num_instructions) + ", options: "@ + query_options_text(v.options) + " }"@
}

/// The text of a [`DiffProgramsArgs`].
pub open spec fn diff_programs_args_text(v: DiffProgramsArgs) -> Seq<char> {
    "DiffProgramsArgs { program1: "@ + quoted(v.program1@) + ", program2: "@ + quoted(v.program2@) + ", format: "@ + opt_quoted(v.format) + ", project: "@ + opt_quoted(v.project) + " }"@
}

/// The text of a [`DiffFunctionsArgs`].
pub open spec fn diff_functions_args_text(v: DiffFunctionsArgs) -> Seq<char> {
    "DiffFunctionsArgs { func1: "@ + quoted(v.func1@) + ", func2: "@ + quoted(v.func2@) + ", format: "@ + opt_quoted(v.format) + ", project: "@ + opt_quoted(v.project) + " }"@
}

/// The text of a [`PatchBytesArgs`].
pub open spec fn patch_bytes_args_text(v: PatchBytesArgs) -> Seq<char> {
    "PatchBytesArgs { address: "@ + quoted(v.address@) + ", hex: "@ + quoted(v.hex@) + ", program: "@ + opt_quoted(v.program) + ", project: "@ + opt_quoted(v.project) + " }"@
}

/// The text of a [`PatchNopArgs`].
pub open spec fn patch_nop_args_text(v: PatchNopArgs) -> Seq<char> {
    "PatchNopArgs { address: "@ + quoted(v.address@) + ", count: "@ + opt_number(v.count) + ", program: "@ + opt_quoted(v.program) + ", project: "@ + opt_quoted(v.project) + " }"@
}

/// The text of a [`PatchExportArgs`].
pub open spec fn patch_export_args_text(v: PatchExportArgs) -> Seq<char> {
    "PatchExportArgs { output: "@ + quoted(v.output@) + ", program: "@ + opt_quoted(v.program) + ", project: "@ + opt_quoted(v.project) + " }"@
}

/// The text of a [`ScriptRunArgs`].
pub open spec fn script_run_args_text(v: ScriptRunArgs) -> Seq<char> {
    "ScriptRunArgs { script_path: "@ + quoted(v.script_path@) + ", program: "@ + opt_quoted(v.program) + ", project: "@ + opt_quoted(v.project) + ", args: "@ + list_quoted(v.args@) + " }"@
}

/// The text of a [`ScriptInlineArgs`].
pub open spec fn script_inline_args_text(v: ScriptInlineArgs) -> Seq<char> {
    "ScriptInlineArgs { code: "@ + quoted(v.code@) + ", program: "@ + opt_quoted(v.program) + ", project: "@ + opt_quoted(v.project) + " }"@
}

/// The text of a [`BatchArgs`].
pub open spec fn batch_args_text(v: BatchArgs) -> Seq<char> {
    "BatchArgs { script_file: "@ + quoted(v.script_file@) + ", project: "@ + opt_quoted(v.project) + ", program: "@ + opt_quoted(v.program) + " }"@
}

/// The text of a [`SetDefaultArgs`].
pub open spec fn set_default_args_text(v: SetDefaultArgs) -> Seq<char> {
    "SetDefaultArgs { kind: "@ + quoted(v.kind@) + ", value: "@ + quoted(v.value@) + " }"@
}

/// The text of a [`SummaryArgs`].
pub open spec fn summary_args_text(v: SummaryArgs) -> Seq<char> {
    "SummaryArgs { options: "@ + query_options_text(v.options) + " }"@
}

/// The text of a [`StatsArgs`].
pub open spec fn stats_args_text(v: StatsArgs) -> Seq<char> {
    "StatsArgs { options: "@ + query_options_text(v.options) + " }"@
}

/// The text of a [`ImportArgs`].
pub open spec fn import_args_text(v: ImportArgs) -> Seq<char> {
    "ImportArgs { binary: "@ + quoted(v.binary@) + ", program: "@ + opt_quoted(v.program) + ", project: "@ + opt_quoted(v.project) + ", detach: "@ + flag_text(v.detach) + " }"@
}

/// The text of a [`AnalyzeArgs`].
pub open spec fn analyze_args_text(v: AnalyzeArgs) -> Seq<char> {
    "AnalyzeArgs { program: "@ + opt_quoted(v.program) + ", project: "@ + opt_quoted(v.project) + ", detach: "@ + flag_text(v.detach) + " }"@
}

/// The text of a [`QueryOptions`].
pub open spec fn query_options_text(v: QueryOptions) -> Seq<char> {
    "QueryOptions { program: "@ + opt_quoted(v.program) + ", project: "@ + opt_quoted(v.project) + ", filter: "@ + opt_quoted(v.filter) + ", fields: "@ + opt_quoted(v.fields) + ", format: "@ + opt_quoted(v.format) + ", limit: "@ + opt_number(v.limit) + ", offset: "@ + opt_number(v.offset) + ", sort: "@ + opt_quoted(v.sort) + ", count: "@ + flag_text(v.count) + ", json: "@ + flag_text(v.json) + " }"@
}

/// The text of a [`SetupArgs`].
pub open spec fn setup_args_text(v: SetupArgs) -> Seq<char> {
    "SetupArgs { version: "@ + opt_quoted(v.version) + ", dir: "@ + opt_quoted(v.dir) + ", force: "@ + flag_text(v.force) + " }"@
}
fn push_commands(out: &mut String, v: &Commands)
    ensures
        final(out)@ == old(out)@ + commands_text(*v),
{
    let ghost start = out@;
    match v {
        Commands::Query(x) => {
            out.append("Query(");
            let ghost mut acc: Seq<char> = "Query("@;
            push_query_args(out, x);
            proof { lemma_concat_associative(start, acc, query_args_text(*x)); acc = acc + query_args_text(*x); }
            out.append(")");
            proof { lemma_concat_associative(start, acc, ")"@); acc = acc + ")"@; }
        },
        Commands::Project(x) => {
            out.append("Project(");
            let ghost mut acc: Seq<char> = "Project("@;
            push_project_args(out, x);
            proof { lemma_concat_associative(start, acc, project_args_text(*x)); acc = acc + project_args_text(*x); }
            out.append(")");
            proof { lemma_concat_associative(start, acc, ")"@); acc = acc + ")"@; }
        },
        Commands::Program(x) => {
            out.append("Program(");
            let ghost mut acc: Seq<char> = "Program("@;
            push_program_commands(out, x);
            proof { lemma_concat_associative(start, acc, program_commands_text(*x)); acc = acc + program_commands_text(*x); }
            out.append(")");
            proof { lemma_concat_associative(start, acc, ")"@); acc = acc + ")"@; }
        },
        Commands::Function(x) => {
            out.append("Function(");
            let ghost mut acc: Seq<char> = "Function("@;
            push_function_commands(out, x);
            proof { lemma_concat_associative(start, acc, function_commands_text(*x)); acc = acc + function_commands_text(*x); }
            out.append(")");
            proof { lemma_concat_associative(start, acc, ")"@); acc = acc + ")"@; }
        },
        Commands::Strings(x) => {
            out.append("Strings(");
            let ghost mut acc: Seq<char> = "Strings("@;
            push_strings_commands(out, x);
            proof { lemma_concat_associative(start, acc, strings_commands_text(*x)); acc = acc + strings_commands_text(*x); }
            out.append(")");
            proof { lemma_concat_associative(start, acc, ")"@); acc = acc + ")"@; }
        },
        Commands::Symbol(x) => {
            out.append("Symbol(");
            let ghost mut acc: Seq<char> = "Symbol("@;
            push_symbol_commands(out, x);
            proof { lemma_concat_associative(start, acc, symbol_commands_text(*x)); acc = acc + symbol_commands_text(*x); }
            out.append(")");
            proof { lemma_concat_associative(start, acc, ")"@); acc = acc + ")"@; }
        },
        Commands::Memory(x) => {
            out.append("Memory(");
            let ghost mut acc: Seq<char> = "Memory("@;
            push_memory_commands(out, x);
            proof { lemma_concat_associative(start, acc, memory_commands_text(*x)); acc = acc + memory_commands_text(*x); }
            out.append(")");
            proof { lemma_concat_associative(start, acc, ")"@); acc = acc + ")"@; }
        },
        Commands::XRef(x) => {
            out.append("XRef(");
            let ghost mut acc: Seq<char> = "XRef("@;
            push_x_ref_commands(out, x);
            proof { lemma_concat_associative(start, acc, x_ref_commands_text(*x)); acc = acc + x_ref_commands_text(*x); }
            out.append(")");
            proof { lemma_concat_associative(start, acc, ")"@); acc = acc + ")"@; }
        },
        Commands::Type(x) => {
            out.append("Type(");
            let ghost mut acc: Seq<char> = "Type("@;
            push_type_commands(out, x);
            proof { lemma_concat_associative(start, acc, type_commands_text(*x)); acc = acc + type_commands_text(*x); }
            out.append(")");
            proof { lemma_concat_associative(start, acc, ")"@); acc = acc + ")"@; }
        },
        Commands::Struct(x) => {
            out.append("Struct(");
            let ghost mut acc: Seq<char> = "Struct("@;
            push_struct_commands(out, x);
            proof { lemma_concat_associative(start, acc, struct_commands_text(*x)); acc = acc + struct_commands_text(*x); }
            out.append(")");
            proof { lemma_concat_associative(start, acc, ")"@); acc = acc + ")"@; }
        },
        Commands::Variable(x) => {
            out.append("Variable(");
            let ghost mut acc: Seq<char> = "Variable("@;
            push_variable_commands(out, x);
            proof { lemma_concat_associative(start, acc, variable_commands_text(*x)); acc = acc + variable_commands_text(*x); }
            out.append(")");
            proof { lemma_concat_associative(start, acc, ")"@); acc = acc + ")"@; }
        },
        Commands::Enum(x) => {
            out.append("Enum(");
            let ghost mut acc: Seq<char> = "Enum("@;
            push_enum_commands(out, x);
            proof { lemma_concat_associative(start, acc, enum_commands_text(*x)); acc = acc + enum_commands_text(*x); }
            out.append(")");
            proof { lemma_concat_associative(start, acc, ")"@); acc = acc + ")"@; }
        },
        Commands::Typedef(x) => {
            out.append("Typedef(");
            let ghost mut acc: Seq<char> = "Typedef("@;
            push_typedef_commands(out, x);
            proof { lemma_concat_associative(start, acc, typedef_commands_text(*x)); acc = acc + typedef_commands_text(*x); }
            out.append(")");
            proof { lemma_concat_associative(start, acc, ")"@); acc = acc + ")"@; }
        },
        Commands::ParseC(x) => {
            out.append("ParseC(");
            let ghost mut acc: Seq<char> = "ParseC("@;
            push_parse_c_type_args(out, x);
            proof { lemma_concat_associative(start, acc, parse_c_type_args_text(*x)); acc = acc + parse_c_type_args_text(*x); }
            out.append(")");
            proof { lemma_concat_associative(start, acc, ")"@); acc = acc + ")"@; }
        },
        Commands::Bookmark(x) => {
            out.append("Bookmark(");
            let ghost mut acc: Seq<char> = "Bookmark("@;
            push_bookmark_commands(out, x);
            proof { lemma_concat_associative(start, acc, bookmark_commands_text(*x)); acc = acc + bookmark_commands_text(*x); }
            out.append(")");
            proof { lemma_concat_associative(start, acc, ")"@); acc = acc + ")"@; }
        },
        Commands::Comment(x) => {
            out.append("Comment(");
            let ghost mut acc: Seq<char> = "Comment("@;
            push_comment_commands(out, x);
            proof { lemma_concat_associative(start, acc, comment_commands_text(*x)); acc = acc + comment_commands_text(*x); }
            out.append(")");
            proof { lemma_concat_associative(start, acc, ")"@); acc = acc + ")"@; }
        },
        Commands::Find(x) => {
            out.append("Find(");
            let ghost mut acc: Seq<char> = "Find("@;
            push_find_commands(out, x);
            proof { lemma_concat_associative(start, acc, find_commands_text(*x)); acc = acc + find_commands_text(*x); }
            out.append(")");
            proof { lemma_concat_associative(start, acc, ")"@); acc = acc + ")"@; }
        },
        Commands::Graph(x) => {
            out.append("Graph(");
            let ghost mut acc: Seq<char> = "Graph("@;
            push_graph_commands(out, x);
            proof { lemma_concat_associative(start, acc, graph_commands_text(*x)); acc = acc + graph_commands_text(*x); }
            out.append(")");
            proof { lemma_concat_associative(start, acc, ")"@); acc = acc + ")"@; }
        },
        Commands::Decompile(x) => {
            out.append("Decompile(");
            let ghost mut acc: Seq<char> = "Decompile("@;
            push_decompile_args(out, x);
            proof { lemma_concat_associative(start, acc, decompile_args_text(*x)); acc = acc + decompile_args_text(*x); }
            out.append(")");
            proof { lemma_concat_associative(start, acc, ")"@); acc = acc + ")"@; }
        },
        Commands::Disasm(x) => {
            out.append("Disasm(");
            let ghost mut acc: Seq<char> = "Disasm("@;
            push_disasm_args(out, x);
            proof { lemma_concat_associative(start, acc, disasm_args_text(*x)); acc = acc + disasm_args_text(*x); }
            out.append(")");
            proof { lemma_concat_associative(start, acc, ")"@); acc = acc + ")"@; }
        },
        Commands::Diff(x) => {
            out.append("Diff(");
            let ghost mut acc: Seq<char> = "Diff("@;
            push_diff_commands(out, x);
            proof { lemma_concat_associative(start, acc, diff_commands_text(*x)); acc = acc + diff_commands_text(*x); }
            out.append(")");
            proof { lemma_concat_associative(start, acc, ")"@); acc = acc + ")"@; }
        },
        Commands::Dump(x) => {
            out.append("Dump(");
            let ghost mut acc: Seq<char> = "Dump("@;
            push_dump_commands(out, x);
            proof { lemma_concat_associative(start, acc, dump_commands_text(*x)); acc = acc + dump_commands_text(*x); }
            out.append(")");
            proof { lemma_concat_associative(start, acc, ")"@); acc = acc + ")"@; }
        },
        Commands::Patch(x) => {
            out.append("Patch(");
            let ghost mut acc: Seq<char> = "Patch("@;
            push_patch_commands(out, x);
            proof { lemma_concat_associative(start, acc, patch_commands_text(*x)); acc = acc + patch_commands_text(*x); }
            out.append(")");
            proof { lemma_concat_associative(start, acc, ")"@); acc = acc + ")"@; }
        },
        Commands::Script(x) => {
            out.append("Script(");
            let ghost mut acc: Seq<char> = "Script("@;
            push_script_commands(out, x);
            proof { lemma_concat_associative(start, acc, script_commands_text(*x)); acc = acc + script_commands_text(*x); }
            out.append(")");
            proof { lemma_concat_associative(start, acc, ")"@); acc = acc + ")"@; }
        },
        Commands::Batch(x) => {
            out.append("Batch(");
            let ghost mut acc: Seq<char> = "Batch("@;
            push_batch_args(out, x);
            proof { lemma_concat_associative(start, acc, batch_args_text(*x)); acc = acc + batch_args_text(*x); }
            out.append(")");
            proof { lemma_concat_associative(start, acc, ")"@); acc = acc + ")"@; }
        },
        Commands::Config(x) => {
            out.append("Config(");
            let ghost mut acc: Seq<char> = "Config("@;
            push_config_commands(out, x);
            proof { lemma_concat_associative(start, acc, config_commands_text(*x)); acc = acc + config_commands_text(*x); }
            out.append(")");
            proof { lemma_concat_associative(start, acc, ")"@); acc = acc + ")"@; }
        },
        Commands::SetDefault(x) => {
            out.append("SetDefault(");
            let ghost mut acc: Seq<char> = "SetDefault("@;
            push_set_default_args(out, x);
            proof { lemma_concat_associative(start, acc, set_default_args_text(*x)); acc = acc + set_default_args_text(*x); }
            out.append(")");
            proof { lemma_concat_associative(start, acc, ")"@); acc = acc + ")"@; }
        },
        Commands::Summary(x) => {
            out.append("Summary(");
            let ghost mut acc: Seq<char> = "Summary("@;
            push_summary_args(out, x);
            proof { lemma_concat_associative(start, acc, summary_args_text(*x)); acc = acc + summary_args_text(*x); }
            out.append(")");
            proof { lemma_concat_associative(start, acc, ")"@); acc = acc + ")"@; }
        },
        Commands::Stats(x) => {
            out.append("Stats(");
            let ghost mut acc: Seq<char> = "Stats("@;
            push_stats_args(out, x);
            proof { lemma_concat_associative(start, acc, stats_args_text(*x)); acc = acc + stats_args_text(*x); }
            out.append(")");
            proof { lemma_concat_associative(start, acc, ")"@); acc = acc + ")"@; }
        },
        Commands::Version => {
            out.append("Version");
        },
        Commands::Doctor => {
            out.append("Doctor");
        },
        Commands::Init => {
            out.append("Init");
        },
        Commands::Import(x) => {
            out.append("Import(");
            let ghost mut acc: Seq<char> = "Import("@;
            push_import_args(out, x);
            proof { lemma_concat_associative(start, acc, import_args_text(*x)); acc = acc + import_args_text(*x); }
            out.append(")");
            proof { lemma_concat_associative(start, acc, ")"@); acc = acc + ")"@; }
        },
        Commands::Analyze(x) => {
            out.append("Analyze(");
            let ghost mut acc: Seq<char> = "Analyze("@;
            push_analyze_args(out, x);
            proof { lemma_concat_associative(start, acc, analyze_args_text(*x)); acc = acc + analyze_args_text(*x); }
            out.append(")");
            proof { lemma_concat_associative(start, acc, ")"@); acc = acc + ")"@; }
        },
        Commands::Start { project, program } => {
            out.append("Start { project: ");
            let ghost mut acc: Seq<char> = "Start { project: "@;
            push_opt_quoted(out, project);
            proof { lemma_concat_associative(start, acc, opt_quoted(*project)); acc = acc + opt_quoted(*project); }
            out.append(", program: ");
            proof { lemma_concat_associative(start, acc, ", program: "@); acc = acc + ", program: "@; }
            push_opt_quoted(out, program);
            proof { lemma_concat_associative(start, acc, opt_quoted(*program)); acc = acc + opt_quoted(*program); }
            out.append(" }");
            proof { lemma_concat_associative(start, acc, " }"@); acc = acc + " }"@; }
        },
        Commands::Stop { project } => {
            out.append("Stop { project: ");
            let ghost mut acc: Seq<char> = "Stop { project: "@;
            push_opt_quoted(out, project);
            proof { lemma_concat_associative(start, acc, opt_quoted(*project)); acc = acc + opt_quoted(*project); }
            out.append(" }");
            proof { lemma_concat_associative(start, acc, " }"@); acc = acc + " }"@; }
        },
        Commands::Restart { project, program } => {
            out.append("Restart { project: ");
            let ghost mut acc: Seq<char> = "Restart { project: "@;
            push_opt_quoted(out, project);
            proof { lemma_concat_associative(start, acc, opt_quoted(*project)); acc = acc + opt_quoted(*project); }
            out.append(", program: ");
            proof { lemma_concat_associative(start, acc, ", program: "@); acc = acc + ", program: "@; }
            push_opt_quoted(out, program);
            proof { lemma_concat_associative(start, acc, opt_quoted(*program)); acc = acc + opt_quoted(*program); }
            out.append(" }");
            proof { lemma_concat_associative(start, acc, " }"@); acc = acc + " }"@; }
        },
        Commands::Status { project } => {
            out.append("Status { project: ");
            let ghost mut acc: Seq<char> = "Status { project: "@;
            push_opt_quoted(out, project);
            proof { lemma_concat_associative(start, acc, opt_quoted(*project)); acc = acc + opt_quoted(*project); }
            out.append(" }");
            proof { lemma_concat_associative(start, acc, " }"@); acc = acc + " }"@; }
        },
        Commands::Ping { project } => {
            out.append("Ping { project: ");
            let ghost mut acc: Seq<char> = "Ping { project: "@;
            push_opt_quoted(out, project);
            proof { lemma_concat_associative(start, acc, opt_quoted(*project)); acc = acc + opt_quoted(*project); }
            out.append(" }");
            proof { lemma_concat_associative(start, acc, " }"@); acc = acc + " }"@; }
        },
        Commands::Setup(x) => {
            out.append("Setup(");
            let ghost mut acc: Seq<char> = "Setup("@;
            push_setup_args(out, x);
            proof { lemma_concat_associative(start, acc, setup_args_text(*x)); acc = acc + setup_args_text(*x); }
            out.append(")");
            proof { lemma_concat_associative(start, acc, ")"@); acc = acc + ")"@; }
        },
        Commands::Rename(x) => {
            out.append("Rename(");
            let ghost mut acc: Seq<char> = "Rename("@;
            push_rename_args(out, x);
            proof { lemma_concat_associative(start, acc, rename_args_text(*x)); acc = acc + rename_args_text(*x); }
            out.append(")");
            proof { lemma_concat_associative(start, acc, ")"@); acc = acc + ")"@; }
        },
        Commands::Mcp { project, program } => {
            out.append("Mcp { project: ");
            let ghost mut acc: Seq<char> = "Mcp { project: "@;
            push_opt_quoted(out, project);
            proof { lemma_concat_associative(start, acc, opt_quoted(*project)); acc = acc + opt_quoted(*project); }
            out.append(", program: ");
            proof { lemma_concat_associative(start, acc, ", program: "@); acc = acc + ", program: "@; }
            push_opt_quoted(out, program);
            proof { lemma_concat_associative(start, acc, opt_quoted(*program)); acc = acc + opt_quoted(*program); }
            out.append(" }");
            proof { lemma_concat_associative(start, acc, " }"@); acc = acc + " }"@; }
        },
    }
}

fn push_project_commands(out: &mut String, v: &ProjectCommands)
    ensures
        final(out)@ == old(out)@ + project_commands_text(*v),
{
    let ghost start = out@;
    match v {
        ProjectCommands::Create { name } => {
            out.append("Create { name: ");
            let ghost mut acc: Seq<char> = "Create { name: "@;
            push_quoted(out, name.as_str());
            proof { lemma_concat_associative(start, acc, quoted(name@)); acc = acc + quoted(name@); }
            out.append(" }");
            proof { lemma_concat_associative(start, acc, " }"@); acc = acc + " }"@; }
        },
        ProjectCommands::List => {
            out.append("List");
        },
        ProjectCommands::Delete { name } => {
            out.append("Delete { name: ");
            let ghost mut acc: Seq<char> = "Delete { name: "@;
            push_quoted(out, name.as_str());
            proof { lemma_concat_associative(start, acc, quoted(name@)); acc = acc + quoted(name@); }
            out.append(" }");
            proof { lemma_concat_associative(start, acc, " }"@); acc = acc + " }"@; }
        },
        ProjectCommands::Info { name } => {
            out.append("Info { name: ");
            let ghost mut acc: Seq<char> = "Info { name: "@;
            push_opt_quoted(out, name);
            proof { lemma_concat_associative(start, acc, opt_quoted(*name)); acc = acc + opt_quoted(*name); }
            out.append(" }");
            proof { lemma_concat_associative(start, acc, " }"@); acc = acc + " }"@; }
        },
    }
}

fn push_program_commands(out: &mut String, v: &ProgramCommands)
    ensures
        final(out)@ == old(out)@ + program_commands_text(*v),
{
    let ghost start = out@;
    match v {
        ProgramCommands::List(x) => {
            out.append("List(");
            let ghost mut acc: Seq<char> = "List("@;
            push_program_target_args(out, x);
            proof { lemma_concat_associative(start, acc, program_target_args_text(*x)); acc = acc + program_target_args_text(*x); }
            out.append(")");
            proof { lemma_concat_associative(start, acc, ")"@); acc = acc + ")"@; }
        },
        ProgramCommands::Open(x) => {
            out.append("Open(");
            let ghost mut acc: Seq<char> = "Open("@;
            push_program_target_args(out, x);
            proof { lemma_concat_associative(start, acc, program_target_args_text(*x)); acc = acc + program_target_args_text(*x); }
            out.append(")");
            proof { lemma_concat_associative(start, acc, ")"@); acc = acc + ")"@; }
        },
        ProgramCommands::Close(x) => {
            out.append("Close(");
            let ghost mut acc: Seq<char> = "Close("@;
            push_program_target_args(out, x);
            proof { lemma_concat_associative(start, acc, program_target_args_text(*x)); acc = acc + program_target_args_text(*x); }
            out.append(")");
            proof { lemma_concat_associative(start, acc, ")"@); acc = acc + ")"@; }
        },
        ProgramCommands::Delete(x) => {
            out.append("Delete(");
            let ghost mut acc: Seq<char> = "Delete("@;
            push_program_target_args(out, x);
            proof { lemma_concat_associative(start, acc, program_target_args_text(*x)); acc = acc + program_target_args_text(*x); }
            out.append(")");
            proof { lemma_concat_associative(start, acc, ")"@); acc = acc + ")"@; }
        },
        ProgramCommands::Info(x) => {
            out.append("Info(");
            let ghost mut acc: Seq<char> = "Info("@;
            push_program_target_args(out, x);
            proof { lemma_concat_associative(start, acc, program_target_args_text(*x)); acc = acc + program_target_args_text(*x); }
            out.append(")");
            proof { lemma_concat_associative(start, acc, ")"@); acc = acc + ")"@; }
        },
        ProgramCommands::Export(x) => {
            out.append("Export(");
            let ghost mut acc: Seq<char> = "Export("@;
            push_export_args(out, x);
            proof { lemma_concat_associative(start, acc, export_args_text(*x)); acc = acc + export_args_text(*x); }
            out.append(")");
            proof { lemma_concat_associative(start, acc, ")"@); acc = acc + ")"@; }
        },
    }
}

fn push_function_commands(out: &mut String, v: &FunctionCommands)
    ensures
        final(out)@ == old(out)@ + function_commands_text(*v),
{
    let ghost start = out@;
    match v {
        FunctionCommands::List(x) => {
            out.append("List(");
            let ghost mut acc: Seq<char> = "List("@;
            push_query_options(out, x);
            proof { lemma_concat_associative(start, acc, query_options_text(*x)); acc = acc + query_options_text(*x); }
            out.append(")");
            proof { lemma_concat_associative(start, acc, ")"@); acc = acc + ")"@; }
        },
        FunctionCommands::Get(x) => {
            out.append("Get(");
            let ghost mut acc: Seq<char> = "Get("@;
            push_function_get_args(out, x);
            proof { lemma_concat_associative(start, acc, function_get_args_text(*x)); acc = acc + function_get_args_text(*x); }
            out.append(")");
            proof { lemma_concat_associative(start, acc, ")"@); acc = acc + ")"@; }
        },
        FunctionCommands::Decompile(x) => {
            out.append("Decompile(");
            let ghost mut acc: Seq<char> = "Decompile("@;
            push_function_get_args(out, x);
            proof { lemma_concat_associative(start, acc, function_get_args_text(*x)); acc = acc + function_get_args_text(*x); }
            out.append(")");
            proof { lemma_concat_associative(start, acc, ")"@); acc = acc + ")"@; }
        },
        FunctionCommands::Disasm(x) => {
            out.append("Disasm(");
            let ghost mut acc: Seq<char> = "Disasm("@;
            push_function_get_args(out, x);
            proof { lemma_concat_associative(start, acc, function_get_args_text(*x)); acc = acc + function_get_args_text(*x); }
            out.append(")");
            proof { lemma_concat_associative(start, acc, ")"@); acc = acc + ")"@; }
        },
        FunctionCommands::Calls(x) => {
            out.append("Calls(");
            let ghost mut acc: Seq<char> = "Calls("@;
            push_function_get_args(out, x);
            proof { lemma_concat_associative(start, acc, function_get_args_text(*x)); acc = acc + function_get_args_text(*x); }
            out.append(")");
            proof { lemma_concat_associative(start, acc, ")"@); acc = acc + ")"@; }
        },
        FunctionCommands::XRefs(x) => {
            out.append("XRefs(");
            let ghost mut acc: Seq<char> = "XRefs("@;
            push_function_get_args(out, x);
            proof { lemma_concat_associative(start, acc, function_get_args_text(*x)); acc = acc + function_get_args_text(*x); }
            out.append(")");
            proof { lemma_concat_associative(start, acc, ")"@); acc = acc + ")"@; }
        },
        FunctionCommands::Rename(x) => {
            out.append("Rename(");
            let ghost mut acc: Seq<char> = "Rename("@;
            push_rename_args(out, x);
            proof { lemma_concat_associative(start, acc, rename_args_text(*x)); acc = acc + rename_args_text(*x); }
            out.append(")");
            proof { lemma_concat_associative(start, acc, ")"@); acc = acc + ")"@; }
        },
        FunctionCommands::Create(x) => {
            out.append("Create(");
            let ghost mut acc: Seq<char> = "Create("@;
            push_create_function_args(out, x);
            proof { lemma_concat_associative(start, acc, create_function_args_text(*x)); acc = acc + create_function_args_text(*x); }
            out.append(")");
            proof { lemma_concat_associative(start, acc, ")"@); acc = acc + ")"@; }
        },
        FunctionCommands::Delete(x) => {
            out.append("Delete(");
            let ghost mut acc: Seq<char> = "Delete("@;
            push_function_get_args(out, x);
            proof { lemma_concat_associative(start, acc, function_get_args_text(*x)); acc = acc + function_get_args_text(*x); }
            out.append(")");
            proof { lemma_concat_associative(start, acc, ")"@); acc = acc + ")"@; }
        },
        FunctionCommands::SetSignature(x) => {
            out.append("SetSignature(");
            let ghost mut acc: Seq<char> = "SetSignature("@;
            push_set_function_signature_args(out, x);
            proof { lemma_concat_associative(start, acc, set_function_signature_args_text(*x)); acc = acc + set_function_signature_args_text(*x); }
            out.append(")");
            proof { lemma_concat_associative(start, acc, ")"@); acc = acc + ")"@; }
        },
        FunctionCommands::SetReturnType(x) => {
            out.append("SetReturnType(");
            let ghost mut acc: Seq<char> = "SetReturnType("@;
            push_set_return_type_args(out, x);
            proof { lemma_concat_associative(start, acc, set_return_type_args_text(*x)); acc = acc + set_return_type_args_text(*x); }
            out.append(")");
            proof { lemma_concat_associative(start, acc, ")"@); acc = acc + ")"@; }
        },
    }
}

fn push_strings_commands(out: &mut String, v: &StringsCommands)
    ensures
        final(out)@ == old(out)@ + strings_commands_text(*v),
{
    let ghost start = out@;
    match v {
        StringsCommands::List(x) => {
            out.append("List(");
            let ghost mut acc: Seq<char> = "List("@;
            push_query_options(out, x);
            proof { lemma_concat_associative(start, acc, query_options_text(*x)); acc = acc + query_options_text(*x); }
            out.append(")");
            proof { lemma_concat_associative(start, acc, ")"@); acc = acc + ")"@; }
        },
        StringsCommands::Refs(x) => {
            out.append("Refs(");
            let ghost mut acc: Seq<char> = "Refs("@;
            push_string_refs_args(out, x);
            proof { lemma_concat_associative(start, acc, string_refs_args_text(*x)); acc = acc + string_refs_args_text(*x); }
            out.append(")");
            proof { lemma_concat_associative(start, acc, ")"@); acc = acc + ")"@; }
        },
    }
}

fn push_symbol_commands(out: &mut String, v: &SymbolCommands)
    ensures
        final(out)@ == old(out)@ + symbol_commands_text(*v),
{
    let ghost start = out@;
    match v {
        SymbolCommands::List(x) => {
            out.append("List(");
            let ghost mut acc: Seq<char> = "List("@;
            push_query_options(out, x);
            proof { lemma_concat_associative(start, acc, query_options_text(*x)); acc = acc + query_options_text(*x); }
            out.append(")");
            proof { lemma_concat_associative(start, acc, ")"@); acc = acc + ")"@; }
        },
        SymbolCommands::Get(x) => {
            out.append("Get(");
            let ghost mut acc: Seq<char> = "Get("@;
            push_symbol_get_args(out, x);
            proof { lemma_concat_associative(start, acc, symbol_get_args_text(*x)); acc = acc + symbol_get_args_text(*x); }
            out.append(")");
            proof { lemma_concat_associative(start, acc, ")"@); acc = acc + ")"@; }
        },
        SymbolCommands::Create(x) => {
            out.append("Create(");
            let ghost mut acc: Seq<char> = "Create("@;
            push_create_symbol_args(out, x);
            proof { lemma_concat_associative(start, acc, create_symbol_args_text(*x)); acc = acc + create_symbol_args_text(*x); }
            out.append(")");
            proof { lemma_concat_associative(start, acc, ")"@); acc = acc + ")"@; }
        },
        SymbolCommands::Delete(x) => {
            out.append("Delete(");
            let ghost mut acc: Seq<char> = "Delete("@;
            push_symbol_get_args(out, x);
            proof { lemma_concat_associative(start, acc, symbol_get_args_text(*x)); acc = acc + symbol_get_args_text(*x); }
            out.append(")");
            proof { lemma_concat_associative(start, acc, ")"@); acc = acc + ")"@; }
        },
        SymbolCommands::Rename(x) => {
            out.append("Rename(");
            let ghost mut acc: Seq<char> = "Rename("@;
            push_rename_args(out, x);
            proof { lemma_concat_associative(start, acc, rename_args_text(*x)); acc = acc + rename_args_text(*x); }
            out.append(")");
            proof { lemma_concat_associative(start, acc, ")"@); acc = acc + ")"@; }
        },
    }
}

fn push_memory_commands(out: &mut String, v: &MemoryCommands)
    ensures
        final(out)@ == old(out)@ + memory_commands_text(*v),
{
    let ghost start = out@;
    match v {
        MemoryCommands::MemoryMap(x) => {
            out.append("Map(");
            let ghost mut acc: Seq<char> = "Map("@;
            push_query_options(out, x);
            proof { lemma_concat_associative(start, acc, query_options_text(*x)); acc = acc + query_options_text(*x); }
            out.append(")");
            proof { lemma_concat_associative(start, acc, ")"@); acc = acc + ")"@; }
        },
        MemoryCommands::Read(x) => {
            out.append("Read(");
            let ghost mut acc: Seq<char> = "Read("@;
            push_mem_read_args(out, x);
            proof { lemma_concat_associative(start, acc, mem_read_args_text(*x)); acc = acc + mem_read_args_text(*x); }
            out.append(")");
            proof { lemma_concat_associative(start, acc, ")"@); acc = acc + ")"@; }
        },
        MemoryCommands::Write(x) => {
            out.append("Write(");
            let ghost mut acc: Seq<char> = "Write("@;
            push_mem_write_args(out, x);
            proof { lemma_concat_associative(start, acc, mem_write_args_text(*x)); acc = acc + mem_write_args_text(*x); }
            out.append(")");
            proof { lemma_concat_associative(start, acc, ")"@); acc = acc + ")"@; }
        },
        MemoryCommands::Search(x) => {
            out.append("Search(");
            let ghost mut acc: Seq<char> = "Search("@;
            push_mem_search_args(out, x);
            proof { lemma_concat_associative(start, acc, mem_search_args_text(*x)); acc = acc + mem_search_args_text(*x); }
            out.append(")");
            proof { lemma_concat_associative(start, acc, ")"@); acc = acc + ")"@; }
        },
    }
}

fn push_x_ref_commands(out: &mut String, v: &XRefCommands)
    ensures
        final(out)@ == old(out)@ + x_ref_commands_text(*v),
{
    let ghost start = out@;
    match v {
        XRefCommands::To(x) => {
            out.append("To(");
            let ghost mut acc: Seq<char> = "To("@;
            push_x_ref_args(out, x);
            proof { lemma_concat_associative(start, acc, x_ref_args_text(*x)); acc = acc + x_ref_args_text(*x); }
            out.append(")");
            proof { lemma_concat_associative(start, acc, ")"@); acc = acc + ")"@; }
        },
        XRefCommands::From(x) => {
            out.append("From(");
            let ghost mut acc: Seq<char> = "From("@;
            push_x_ref_args(out, x);
            proof { lemma_concat_associative(start, acc, x_ref_args_text(*x)); acc = acc + x_ref_args_text(*x); }
            out.append(")");
            proof { lemma_concat_associative(start, acc, ")"@); acc = acc + ")"@; }
        },
        XRefCommands::List(x) => {
            out.append("List(");
            let ghost mut acc: Seq<char> = "List("@;
            push_x_ref_args(out, x);
            proof { lemma_concat_associative(start, acc, x_ref_args_text(*x)); acc = acc + x_ref_args_text(*x); }
            out.append(")");
            proof { lemma_concat_associative(start, acc, ")"@); acc = acc + ")"@; }
        },
    }
}

fn push_type_commands(out: &mut String, v: &TypeCommands)
    ensures
        final(out)@ == old(out)@ + type_commands_text(*v),
{
    let ghost start = out@;
    match v {
        TypeCommands::List(x) => {
            out.append("List(");
            let ghost mut acc: Seq<char> = "List("@;
            push_query_options(out, x);
            proof { lemma_concat_associative(start, acc, query_options_text(*x)); acc = acc + query_options_text(*x); }
            out.append(")");
            proof { lemma_concat_associative(start, acc, ")"@); acc = acc + ")"@; }
        },
        TypeCommands::Get(x) => {
            out.append("Get(");
            let ghost mut acc: Seq<char> = "Get("@;
            push_type_get_args(out, x);
            proof { lemma_concat_associative(start, acc, type_get_args_text(*x)); acc = acc + type_get_args_text(*x); }
            out.append(")");
            proof { lemma_concat_associative(start, acc, ")"@); acc = acc + ")"@; }
        },
        TypeCommands::Create(x) => {
            out.append("Create(");
            let ghost mut acc: Seq<char> = "Create("@;
            push_create_type_args(out, x);
            proof { lemma_concat_associative(start, acc, create_type_args_text(*x)); acc = acc + create_type_args_text(*x); }
            out.append(")");
            proof { lemma_concat_associative(start, acc, ")"@); acc = acc + ")"@; }
        },
        TypeCommands::Apply(x) => {
            out.append("Apply(");
            let ghost mut acc: Seq<char> = "Apply("@;
            push_apply_type_args(out, x);
            proof { lemma_concat_associative(start, acc, apply_type_args_text(*x)); acc = acc + apply_type_args_text(*x); }
            out.append(")");
            proof { lemma_concat_associative(start, acc, ")"@); acc = acc + ")"@; }
        },
    }
}

fn push_struct_commands(out: &mut String, v: &StructCommands)
    ensures
        final(out)@ == old(out)@ + struct_commands_text(*v),
{
    let ghost start = out@;
    match v {
        StructCommands::List(x) => {
            out.append("List(");
            let ghost mut acc: Seq<char> = "List("@;
            push_query_options(out, x);
            proof { lemma_concat_associative(start, acc, query_options_text(*x)); acc = acc + query_options_text(*x); }
            out.append(")");
            proof { lemma_concat_associative(start, acc, ")"@); acc = acc + ")"@; }
        },
        StructCommands::Get(x) => {
            out.append("Get(");
            let ghost mut acc: Seq<char> = "Get("@;
            push_struct_get_args(out, x);
            proof { lemma_concat_associative(start, acc, struct_get_args_text(*x)); acc = acc + struct_get_args_text(*x); }
            out.append(")");
            proof { lemma_concat_associative(start, acc, ")"@); acc = acc + ")"@; }
        },
        StructCommands::Create(x) => {
            out.append("Create(");
            let ghost mut acc: Seq<char> = "Create("@;
            push_struct_create_args(out, x);
            proof { lemma_concat_associative(start, acc, struct_create_args_text(*x)); acc = acc + struct_create_args_text(*x); }
            out.append(")");
            proof { lemma_concat_associative(start, acc, ")"@); acc = acc + ")"@; }
        },
        StructCommands::AddField(x) => {
            out.append("AddField(");
            let ghost mut acc: Seq<char> = "AddField("@;
            push_struct_add_field_args(out, x);
            proof { lemma_concat_associative(start, acc, struct_add_field_args_text(*x)); acc = acc + struct_add_field_args_text(*x); }
            out.append(")");
            proof { lemma_concat_associative(start, acc, ")"@); acc = acc + ")"@; }
        },
        StructCommands::RenameField(x) => {
            out.append("RenameField(");
            let ghost mut acc: Seq<char> = "RenameField("@;
            push_struct_rename_field_args(out, x);
            proof { lemma_concat_associative(start, acc, struct_rename_field_args_text(*x)); acc = acc + struct_rename_field_args_text(*x); }
            out.append(")");
            proof { lemma_concat_associative(start, acc, ")"@); acc = acc + ")"@; }
        },
        StructCommands::Delete(x) => {
            out.append("Delete(");
            let ghost mut acc: Seq<char> = "Delete("@;
            push_struct_delete_args(out, x);
            proof { lemma_concat_associative(start, acc, struct_delete_args_text(*x)); acc = acc + struct_delete_args_text(*x); }
            out.append(")");
            proof { lemma_concat_associative(start, acc, ")"@); acc = acc + ")"@; }
        },
    }
}

fn push_variable_commands(out: &mut String, v: &VariableCommands)
    ensures
        final(out)@ == old(out)@ + variable_commands_text(*v),
{
    let ghost start = out@;
    match v {
        VariableCommands::List(x) => {
            out.append("List(");
            let ghost mut acc: Seq<char> = "List("@;
            push_variable_list_args(out, x);
            proof { lemma_concat_associative(start, acc, variable_list_args_text(*x)); acc = acc + variable_list_args_text(*x); }
            out.append(")");
            proof { lemma_concat_associative(start, acc, ")"@); acc = acc + ")"@; }
        },
        VariableCommands::Rename(x) => {
            out.append("Rename(");
            let ghost mut acc: Seq<char> = "Rename("@;
            push_variable_rename_args(out, x);
            proof { lemma_concat_associative(start, acc, variable_rename_args_text(*x)); acc = acc + variable_rename_args_text(*x); }
            out.append(")");
            proof { lemma_concat_associative(start, acc, ")"@); acc = acc + ")"@; }
        },
        VariableCommands::Retype(x) => {
            out.append("Retype(");
            let ghost mut acc: Seq<char> = "Retype("@;
            push_variable_retype_args(out, x);
            proof { lemma_concat_associative(start, acc, variable_retype_args_text(*x)); acc = acc + variable_retype_args_text(*x); }
            out.append(")");
            proof { lemma_concat_associative(start, acc, ")"@); acc = acc + ")"@; }
        },
    }
}

fn push_enum_commands(out: &mut String, v: &EnumCommands)
    ensures
        final(out)@ == old(out)@ + enum_commands_text(*v),
{
    let ghost start = out@;
    match v {
        EnumCommands::Create(x) => {
            out.append("Create(");
            let ghost mut acc: Seq<char> = "Create("@;
            push_enum_create_args(out, x);
            proof { lemma_concat_associative(start, acc, enum_create_args_text(*x)); acc = acc + enum_create_args_text(*x); }
            out.append(")");
            proof { lemma_concat_associative(start, acc, ")"@); acc = acc + ")"@; }
        },
    }
}

fn push_typedef_commands(out: &mut String, v: &TypedefCommands)
    ensures
        final(out)@ == old(out)@ + typedef_commands_text(*v),
{
    let ghost start = out@;
    match v {
        TypedefCommands::Create(x) => {
            out.append("Create(");
            let ghost mut acc: Seq<char> = "Create("@;
            push_typedef_create_args(out, x);
            proof { lemma_concat_associative(start, acc, typedef_create_args_text(*x)); acc = acc + typedef_create_args_text(*x); }
            out.append(")");
            proof { lemma_concat_associative(start, acc, ")"@); acc = acc + ")"@; }
        },
    }
}

fn push_bookmark_commands(out: &mut String, v: &BookmarkCommands)
    ensures
        final(out)@ == old(out)@ + bookmark_commands_text(*v),
{
    let ghost start = out@;
    match v {
        BookmarkCommands::List(x) => {
            out.append("List(");
            let ghost mut acc: Seq<char> = "List("@;
            push_bookmark_list_args(out, x);
            proof { lemma_concat_associative(start, acc, bookmark_list_args_text(*x)); acc = acc + bookmark_list_args_text(*x); }
            out.append(")");
            proof { lemma_concat_associative(start, acc, ")"@); acc = acc + ")"@; }
        },
        BookmarkCommands::Add(x) => {
            out.append("Add(");
            let ghost mut acc: Seq<char> = "Add("@;
            push_bookmark_add_args(out, x);
            proof { lemma_concat_associative(start, acc, bookmark_add_args_text(*x)); acc = acc + bookmark_add_args_text(*x); }
            out.append(")");
            proof { lemma_concat_associative(start, acc, ")"@); acc = acc + ")"@; }
        },
        BookmarkCommands::Delete(x) => {
            out.append("Delete(");
            let ghost mut acc: Seq<char> = "Delete("@;
            push_bookmark_delete_args(out, x);
            proof { lemma_concat_associative(start, acc, bookmark_delete_args_text(*x)); acc = acc + bookmark_delete_args_text(*x); }
            out.append(")");
            proof { lemma_concat_associative(start, acc, ")"@); acc = acc + ")"@; }
        },
    }
}

fn push_comment_commands(out: &mut String, v: &CommentCommands)
    ensures
        final(out)@ == old(out)@ + comment_commands_text(*v),
{
    let ghost start = out@;
    match v {
        CommentCommands::List(x) => {
            out.append("List(");
            let ghost mut acc: Seq<char> = "List("@;
            push_query_options(out, x);
            proof { lemma_concat_associative(start, acc, query_options_text(*x)); acc = acc + query_options_text(*x); }
            out.append(")");
            proof { lemma_concat_associative(start, acc, ")"@); acc = acc + ")"@; }
        },
        CommentCommands::Get(x) => {
            out.append("Get(");
            let ghost mut acc: Seq<char> = "Get("@;
            push_comment_get_args(out, x);
            proof { lemma_concat_associative(start, acc, comment_get_args_text(*x)); acc = acc + comment_get_args_text(*x); }
            out.append(")");
            proof { lemma_concat_associative(start, acc, ")"@); acc = acc + ")"@; }
        },
        CommentCommands::SetText(x) => {
            out.append("Set(");
            let ghost mut acc: Seq<char> = "Set("@;
            push_comment_set_args(out, x);
            proof { lemma_concat_associative(start, acc, comment_set_args_text(*x)); acc = acc + comment_set_args_text(*x); }
            out.append(")");
            proof { lemma_concat_associative(start, acc, ")"@); acc = acc + ")"@; }
        },
        CommentCommands::Delete(x) => {
            out.append("Delete(");
            let ghost mut acc: Seq<char> = "Delete("@;
            push_comment_get_args(out, x);
            proof { lemma_concat_associative(start, acc, comment_get_args_text(*x)); acc = acc + comment_get_args_text(*x); }
            out.append(")");
            proof { lemma_concat_associative(start, acc, ")"@); acc = acc + ")"@; }
        },
    }
}

fn push_find_commands(out: &mut String, v: &FindCommands)
    ensures
        final(out)@ == old(out)@ + find_commands_text(*v),
{
    let ghost start = out@;
    match v {
        FindCommands::String(x) => {
            out.append("String(");
            let ghost mut acc: Seq<char> = "String("@;
            push_find_string_args(out, x);
            proof { lemma_concat_associative(start, acc, find_string_args_text(*x)); acc = acc + find_string_args_text(*x); }
            out.append(")");
            proof { lemma_concat_associative(start, acc, ")"@); acc = acc + ")"@; }
        },
        FindCommands::Bytes(x) => {
            out.append("Bytes(");
            let ghost mut acc: Seq<char> = "Bytes("@;
            push_find_bytes_args(out, x);
            proof { lemma_concat_associative(start, acc, find_bytes_args_text(*x)); acc = acc + find_bytes_args_text(*x); }
            out.append(")");
            proof { lemma_concat_associative(start, acc, ")"@); acc = acc + ")"@; }
        },
        FindCommands::Function(x) => {
            out.append("Function(");
            let ghost mut acc: Seq<char> = "Function("@;
            push_find_function_args(out, x);
            proof { lemma_concat_associative(start, acc, find_function_args_text(*x)); acc = acc + find_function_args_text(*x); }
            out.append(")");
            proof { lemma_concat_associative(start, acc, ")"@); acc = acc + ")"@; }
        },
        FindCommands::Calls(x) => {
            out.append("Calls(");
            let ghost mut acc: Seq<char> = "Calls("@;
            push_find_calls_args(out, x);
            proof { lemma_concat_associative(start, acc, find_calls_args_text(*x)); acc = acc + find_calls_args_text(*x); }
            out.append(")");
            proof { lemma_concat_associative(start, acc, ")"@); acc = acc + ")"@; }
        },
        FindCommands::Crypto(x) => {
            out.append("Crypto(");
            let ghost mut acc: Seq<char> = "Crypto("@;
            push_query_options(out, x);
            proof { lemma_concat_associative(start, acc, query_options_text(*x)); acc = acc + query_options_text(*x); }
            out.append(")");
            proof { lemma_concat_associative(start, acc, ")"@); acc = acc + ")"@; }
        },
        FindCommands::Interesting(x) => {
            out.append("Interesting(");
            let ghost mut acc: Seq<char> = "Interesting("@;
            push_query_options(out, x);
            proof { lemma_concat_associative(start, acc, query_options_text(*x)); acc = acc + query_options_text(*x); }
            out.append(")");
            proof { lemma_concat_associative(start, acc, ")"@); acc = acc + ")"@; }
        },
    }
}

fn push_graph_commands(out: &mut String, v: &GraphCommands)
    ensures
        final(out)@ == old(out)@ + graph_commands_text(*v),
{
    let ghost start = out@;
    match v {
        GraphCommands::Calls(x) => {
            out.append("Calls(");
            let ghost mut acc: Seq<char> = "Calls("@;
            push_query_options(out, x);
            proof { lemma_concat_associative(start, acc, query_options_text(*x)); acc = acc + query_options_text(*x); }
            out.append(")");
            proof { lemma_concat_associative(start, acc, ")"@); acc = acc + ")"@; }
        },
        GraphCommands::Callers(x) => {
            out.append("Callers(");
            let ghost mut acc: Seq<char> = "Callers("@;
            push_graph_function_args(out, x);
            proof { lemma_concat_associative(start, acc, graph_function_args_text(*x)); acc = acc + graph_function_args_text(*x); }
            out.append(")");
            proof { lemma_concat_associative(start, acc, ")"@); acc = acc + ")"@; }
        },
        GraphCommands::Callees(x) => {
            out.append("Callees(");
            let ghost mut acc: Seq<char> = "Callees("@;
            push_graph_function_args(out, x);
            proof { lemma_concat_associative(start, acc, graph_function_args_text(*x)); acc = acc + graph_function_args_text(*x); }
            out.append(")");
            proof { lemma_concat_associative(start, acc, ")"@); acc = acc + ")"@; }
        },
        GraphCommands::Export(x) => {
            out.append("Export(");
            let ghost mut acc: Seq<char> = "Export("@;
            push_graph_export_args(out, x);
            proof { lemma_concat_associative(start, acc, graph_export_args_text(*x)); acc = acc + graph_export_args_text(*x); }
            out.append(")");
            proof { lemma_concat_associative(start, acc, ")"@); acc = acc + ")"@; }
        },
    }
}

fn push_diff_commands(out: &mut String, v: &DiffCommands)
    ensures
        final(out)@ == old(out)@ + diff_commands_text(*v),
{
    let ghost start = out@;
    match v {
        DiffCommands::Programs(x) => {
            out.append("Programs(");
            let ghost mut acc: Seq<char> = "Programs("@;
            push_diff_programs_args(out, x);
            proof { lemma_concat_associative(start, acc, diff_programs_args_text(*x)); acc = acc + diff_programs_args_text(*x); }
            out.append(")");
            proof { lemma_concat_associative(start, acc, ")"@); acc = acc + ")"@; }
        },
        DiffCommands::Functions(x) => {
            out.append("Functions(");
            let ghost mut acc: Seq<char> = "Functions("@;
            push_diff_functions_args(out, x);
            proof { lemma_concat_associative(start, acc, diff_functions_args_text(*x)); acc = acc + diff_functions_args_text(*x); }
            out.append(")");
            proof { lemma_concat_associative(start, acc, ")"@); acc = acc + ")"@; }
        },
    }
}

fn push_dump_commands(out: &mut String, v: &DumpCommands)
    ensures
        final(out)@ == old(out)@ + dump_commands_text(*v),
{
    let ghost start = out@;
    match v {
        DumpCommands::Imports(x) => {
            out.append("Imports(");
            let ghost mut acc: Seq<char> = "Imports("@;
            push_query_options(out, x);
            proof { lemma_concat_associative(start, acc, query_options_text(*x)); acc = acc + query_options_text(*x); }
            out.append(")");
            proof { lemma_concat_associative(start, acc, ")"@); acc = acc + ")"@; }
        },
        DumpCommands::Exports(x) => {
            out.append("Exports(");
            let ghost mut acc: Seq<char> = "Exports("@;
            push_query_options(out, x);
            proof { lemma_concat_associative(start, acc, query_options_text(*x)); acc = acc + query_options_text(*x); }
            out.append(")");
            proof { lemma_concat_associative(start, acc, ")"@); acc = acc + ")"@; }
        },
        DumpCommands::Functions(x) => {
            out.append("Functions(");
            let ghost mut acc: Seq<char> = "Functions("@;
            push_query_options(out, x);
            proof { lemma_concat_associative(start, acc, query_options_text(*x)); acc = acc + query_options_text(*x); }
            out.append(")");
            proof { lemma_concat_associative(start, acc, ")"@); acc = acc + ")"@; }
        },
        DumpCommands::Strings(x) => {
            out.append("Strings(");
            let ghost mut acc: Seq<char> = "Strings("@;
            push_query_options(out, x);
            proof { lemma_concat_associative(start, acc, query_options_text(*x)); acc = acc + query_options_text(*x); }
            out.append(")");
            proof { lemma_concat_associative(start, acc, ")"@); acc = acc + ")"@; }
        },
    }
}

fn push_patch_commands(out: &mut String, v: &PatchCommands)
    ensures
        final(out)@ == old(out)@ + patch_commands_text(*v),
{
    let ghost start = out@;
    match v {
        PatchCommands::Bytes(x) => {
            out.append("Bytes(");
            let ghost mut acc: Seq<char> = "Bytes("@;
            push_patch_bytes_args(out, x);
            proof { lemma_concat_associative(start, acc, patch_bytes_args_text(*x)); acc = acc + patch_bytes_args_text(*x); }
            out.append(")");
            proof { lemma_concat_associative(start, acc, ")"@); acc = acc + ")"@; }
        },
        PatchCommands::Nop(x) => {
            out.append("Nop(");
            let ghost mut acc: Seq<char> = "Nop("@;
            push_patch_nop_args(out, x);
            proof { lemma_concat_associative(start, acc, patch_nop_args_text(*x)); acc = acc + patch_nop_args_text(*x); }
            out.append(")");
            proof { lemma_concat_associative(start, acc, ")"@); acc = acc + ")"@; }
        },
        PatchCommands::Export(x) => {
            out.append("Export(");
            let ghost mut acc: Seq<char> = "Export("@;
            push_patch_export_args(out, x);
            proof { lemma_concat_associative(start, acc, patch_export_args_text(*x)); acc = acc + patch_export_args_text(*x); }
            out.append(")");
            proof { lemma_concat_associative(start, acc, ")"@); acc = acc + ")"@; }
        },
    }
}

fn push_script_commands(out: &mut String, v: &ScriptCommands)
    ensures
        final(out)@ == old(out)@ + script_commands_text(*v),
{
    let ghost start = out@;
    match v {
        ScriptCommands::Run(x) => {
            out.append("Run(");
            let ghost mut acc: Seq<char> = "Run("@;
            push_script_run_args(out, x);
            proof { lemma_concat_associative(start, acc, script_run_args_text(*x)); acc = acc + script_run_args_text(*x); }
            out.append(")");
            proof { lemma_concat_associative(start, acc, ")"@); acc = acc + ")"@; }
        },
        ScriptCommands::Python(x) => {
            out.append("Python(");
            let ghost mut acc: Seq<char> = "Python("@;
            push_script_inline_args(out, x);
            proof { lemma_concat_associative(start, acc, script_inline_args_text(*x)); acc = acc + script_inline_args_text(*x); }
            out.append(")");
            proof { lemma_concat_associative(start, acc, ")"@); acc = acc + ")"@; }
        },
        ScriptCommands::Java(x) => {
            out.append("Java(");
            let ghost mut acc: Seq<char> = "Java("@;
            push_script_inline_args(out, x);
            proof { lemma_concat_associative(start, acc, script_inline_args_text(*x)); acc = acc + script_inline_args_text(*x); }
            out.append(")");
            proof { lemma_concat_associative(start, acc, ")"@); acc = acc + ")"@; }
        },
        ScriptCommands::List => {
            out.append("List");
        },
    }
}

fn push_config_commands(out: &mut String, v: &ConfigCommands)
    ensures
        final(out)@ == old(out)@ + config_commands_text(*v),
{
    let ghost start = out@;
    match v {
        ConfigCommands::List => {
            out.append("List");
        },
        ConfigCommands::Get { key } => {
            out.append("Get { key: ");
            let ghost mut acc: Seq<char> = "Get { key: "@;
            push_quoted(out, key.as_str());
            proof { lemma_concat_associative(start, acc, quoted(key@)); acc = acc + quoted(key@); }
            out.append(" }");
            proof { lemma_concat_associative(start, acc, " }"@); acc = acc + " }"@; }
        },
        ConfigCommands::SetValue { key, value } => {
            out.append("Set { key: ");
            let ghost mut acc: Seq<char> = "Set { key: "@;
            push_quoted(out, key.as_str());
            proof { lemma_concat_associative(start, acc, quoted(key@)); acc = acc + quoted(key@); }
            out.append(", value: ");
            proof { lemma_concat_associative(start, acc, ", value: "@); acc = acc + ", value: "@; }
            push_quoted(out, value.as_str());
            proof { lemma_concat_associative(start, acc, quoted(value@)); acc = acc + quoted(value@); }
            out.append(" }");
            proof { lemma_concat_associative(start, acc, " }"@); acc = acc + " }"@; }
        },
        ConfigCommands::Reset => {
            out.append("Reset");
        },
    }
}

fn push_query_args(out: &mut String, v: &QueryArgs)
    ensures
        final(out)@ == old(out)@ + query_args_text(*v),
{
    let ghost start = out@;
    out.append("QueryArgs { data_type: ");
    let ghost mut acc: Seq<char> = "QueryArgs { data_type: "@;
    push_quoted(out, v.data_type.as_str());
    proof { lemma_concat_associative(start, acc, quoted(v.data_type@)); acc = acc + quoted(v.data_type@); }
    out.append(", program: ");
    proof { lemma_concat_associative(start, acc, ", program: "@); acc = acc + ", program: "@; }
    push_opt_quoted(out, &v.program);
    proof { lemma_concat_associative(start, acc, opt_quoted(v.program)); acc = acc + opt_quoted(v.program); }
    out.append(", project: ");
    proof { lemma_concat_associative(start, acc, ", project: "@); acc = acc + ", project: "@; }
    push_opt_quoted(out, &v.project);
    proof { lemma_concat_associative(start, acc, opt_quoted(v.project)); acc = acc + opt_quoted(v.project); }
    out.append(", filter: ");
    proof { lemma_concat_associative(start, acc, ", filter: "@); acc = acc + ", filter: "@; }
    push_opt_quoted(out, &v.filter);
    proof { lemma_concat_associative(start, acc, opt_quoted(v.filter)); acc = acc + opt_quoted(v.filter); }
    out.append(", fields: ");
    proof { lemma_concat_associative(start, acc, ", fields: "@); acc = acc + ", fields: "@; }
    push_opt_quoted(out, &v.fields);
    proof { lemma_concat_associative(start, acc, opt_quoted(v.fields)); acc = acc + opt_quoted(v.fields); }
    out.append(", format: ");
    proof { lemma_concat_associative(start, acc, ", format: "@); acc = acc + ", format: "@; }
    push_opt_quoted(out, &v.format);
    proof { lemma_concat_associative(start, acc, opt_quoted(v.format)); acc = acc + opt_quoted(v.format); }
    out.append(", limit: ");
    proof { lemma_concat_associative(start, acc, ", limit: "@); acc = acc + ", limit: "@; }
    push_opt_number(out, v.limit);
    proof { lemma_concat_associative(start, acc, opt_number(v.limit)); acc = acc + opt_number(v.limit); }
    out.append(", offset: ");
    proof { lemma_concat_associative(start, acc, ", offset: "@); acc = acc + ", offset: "@; }
    push_opt_number(out, v.offset);
    proof { lemma_concat_associative(start, acc, opt_number(v.offset)); acc = acc + opt_number(v.offset); }
    out.append(", sort: ");
    proof { lemma_concat_associative(start, acc, ", sort: "@); acc = acc + ", sort: "@; }
    push_opt_quoted(out, &v.sort);
    proof { lemma_concat_associative(start, acc, opt_quoted(v.sort)); acc = acc + opt_quoted(v.sort); }
    out.append(", count: ");
    proof { lemma_concat_associative(start, acc, ", count: "@); acc = acc + ", count: "@; }
    push_flag(out, v.count);
    proof { lemma_concat_associative(start, acc, flag_text(v.count)); acc = acc + flag_text(v.count); }
    out.append(", json: ");
    proof { lemma_concat_associative(start, acc, ", json: "@); acc = acc + ", json: "@; }
    push_flag(out, v.json);
    proof { lemma_concat_associative(start, acc, flag_text(v.json)); acc = acc + flag_text(v.json); }
    out.append(" }");
    proof { lemma_concat_associative(start, acc, " }"@); acc = acc + " }"@; }
}

fn push_project_args(out: &mut String, v: &ProjectArgs)
    ensures
        final(out)@ == old(out)@ + project_args_text(*v),
{
    let ghost start = out@;
    out.append("ProjectArgs { command: ");
    let ghost mut acc: Seq<char> = "ProjectArgs { command: "@;
    push_project_commands(out, &v.command);
    proof { lemma_concat_associative(start, acc, project_commands_text(v.command)); acc = acc + project_commands_text(v.command); }
    out.append(" }");
    proof { lemma_concat_associative(start, acc, " }"@); acc = acc + " }"@; }
}

fn push_program_target_args(out: &mut String, v: &ProgramTargetArgs)
    ensures
        final(out)@ == old(out)@ + program_target_args_text(*v),
{
    let ghost start = out@;
    out.append("ProgramTargetArgs { program: ");
    let ghost mut acc: Seq<char> = "ProgramTargetArgs { program: "@;
    push_opt_quoted(out, &v.program);
    proof { lemma_concat_associative(start, acc, opt_quoted(v.program)); acc = acc + opt_quoted(v.program); }
    out.append(", project: ");
    proof { lemma_concat_associative(start, acc, ", project: "@); acc = acc + ", project: "@; }
    push_opt_quoted(out, &v.project);
    proof { lemma_concat_associative(start, acc, opt_quoted(v.project)); acc = acc + opt_quoted(v.project); }
    out.append(" }");
    proof { lemma_concat_associative(start, acc, " }"@); acc = acc + " }"@; }
}

fn push_export_args(out: &mut String, v: &ExportArgs)
    ensures
        final(out)@ == old(out)@ + export_args_text(*v),
{
    let ghost start = out@;
    out.append("ExportArgs { format: ");
    let ghost mut acc: Seq<char> = "ExportArgs { format: "@;
    push_quoted(out, v.format.as_str());
    proof { lemma_concat_associative(start, acc, quoted(v.format@)); acc = acc + quoted(v.format@); }
    out.append(", program: ");
    proof { lemma_concat_associative(start, acc, ", program: "@); acc = acc + ", program: "@; }
    push_opt_quoted(out, &v.program);
    proof { lemma_concat_associative(start, acc, opt_quoted(v.program)); acc = acc + opt_quoted(v.program); }
    out.append(", project: ");
    proof { lemma_concat_associative(start, acc, ", project: "@); acc = acc + ", project: "@; }
    push_opt_quoted(out, &v.project);
    proof { lemma_concat_associative(start, acc, opt_quoted(v.project)); acc = acc + opt_quoted(v.project); }
    out.append(", output: ");
    proof { lemma_concat_associative(start, acc, ", output: "@); acc = acc + ", output: "@; }
    push_opt_quoted(out, &v.output);
    proof { lemma_concat_associative(start, acc, opt_quoted(v.output)); acc = acc + opt_quoted(v.output); }
    out.append(" }");
    proof { lemma_concat_associative(start, acc, " }"@); acc = acc + " }"@; }
}

fn push_function_get_args(out: &mut String, v: &FunctionGetArgs)
    ensures
        final(out)@ == old(out)@ + function_get_args_text(*v),
{
    let ghost start = out@;
    out.append("FunctionGetArgs { positional_target: ");
    let ghost mut acc: Seq<char> = "FunctionGetArgs { positional_target: "@;
    push_opt_quoted(out, &v.positional_target);
    proof { lemma_concat_associative(start, acc, opt_quoted(v.positional_target)); acc = acc + opt_quoted(v.positional_target); }
    out.append(", target: ");
    proof { lemma_concat_associative(start, acc, ", target: "@); acc = acc + ", target: "@; }
    push_opt_quoted(out, &v.target);
    proof { lemma_concat_associative(start, acc, opt_quoted(v.target)); acc = acc + opt_quoted(v.target); }
    out.append(", options: ");
    proof { lemma_concat_associative(start, acc, ", options: "@); acc = acc + ", options: "@; }
    push_query_options(out, &v.options);
    proof { lemma_concat_associative(start, acc, query_options_text(v.options)); acc = acc + query_options_text(v.options); }
    out.append(" }");
    proof { lemma_concat_associative(start, acc, " }"@); acc = acc + " }"@; }
}

fn push_rename_args(out: &mut String, v: &RenameArgs)
    ensures
        final(out)@ == old(out)@ + rename_args_text(*v),
{
    let ghost start = out@;
    out.append("RenameArgs { old_name: ");
    let ghost mut acc: Seq<char> = "RenameArgs { old_name: "@;
    push_quoted(out, v.old_name.as_str());
    proof { lemma_concat_associative(start, acc, quoted(v.old_name@)); acc = acc + quoted(v.old_name@); }
    out.append(", new_name: ");
    proof { lemma_concat_associative(start, acc, ", new_name: "@); acc = acc + ", new_name: "@; }
    push_quoted(out, v.new_name.as_str());
    proof { lemma_concat_associative(start, acc, quoted(v.new_name@)); acc = acc + quoted(v.new_name@); }
    out.append(", program: ");
    proof { lemma_concat_associative(start, acc, ", program: "@); acc = acc + ", program: "@; }
    push_opt_quoted(out, &v.program);
    proof { lemma_concat_associative(start, acc, opt_quoted(v.program)); acc = acc + opt_quoted(v.program); }
    out.append(", project: ");
    proof { lemma_concat_associative(start, acc, ", project: "@); acc = acc + ", project: "@; }
    push_opt_quoted(out, &v.project);
    proof { lemma_concat_associative(start, acc, opt_quoted(v.project)); acc = acc + opt_quoted(v.project); }
    out.append(" }");
    proof { lemma_concat_associative(start, acc, " }"@); acc = acc + " }"@; }
}

fn push_create_function_args(out: &mut String, v: &CreateFunctionArgs)
    ensures
        final(out)@ == old(out)@ + create_function_args_text(*v),
{
    let ghost start = out@;
    out.append("CreateFunctionArgs { address: ");
    let ghost mut acc: Seq<char> = "CreateFunctionArgs { address: "@;
    push_quoted(out, v.address.as_str());
    proof { lemma_concat_associative(start, acc, quoted(v.address@)); acc = acc + quoted(v.address@); }
    out.append(", name: ");
    proof { lemma_concat_associative(start, acc, ", name: "@); acc = acc + ", name: "@; }
    push_opt_quoted(out, &v.name);
    proof { lemma_concat_associative(start, acc, opt_quoted(v.name)); acc = acc + opt_quoted(v.name); }
    out.append(", program: ");
    proof { lemma_concat_associative(start, acc, ", program: "@); acc = acc + ", program: "@; }
    push_opt_quoted(out, &v.program);
    proof { lemma_concat_associative(start, acc, opt_quoted(v.program)); acc = acc + opt_quoted(v.program); }
    out.append(", project: ");
    proof { lemma_concat_associative(start, acc, ", project: "@); acc = acc + ", project: "@; }
    push_opt_quoted(out, &v.project);
    proof { lemma_concat_associative(start, acc, opt_quoted(v.project)); acc = acc + opt_quoted(v.project); }
    out.append(" }");
    proof { lemma_concat_associative(start, acc, " }"@); acc = acc + " }"@; }
}

fn push_set_function_signature_args(out: &mut String, v: &SetFunctionSignatureArgs)
    ensures
        final(out)@ == old(out)@ + set_function_signature_args_text(*v),
{
    let ghost start = out@;
    out.append("SetFunctionSignatureArgs { function: ");
    let ghost mut acc: Seq<char> = "SetFunctionSignatureArgs { function: "@;
    push_quoted(out, v.function.as_str());
    proof { lemma_concat_associative(start, acc, quoted(v.function@)); acc = acc + quoted(v.function@); }
    out.append(", signature: ");
    proof { lemma_concat_associative(start, acc, ", signature: "@); acc = acc + ", signature: "@; }
    push_quoted(out, v.signature.as_str());
    proof { lemma_concat_associative(start, acc, quoted(v.signature@)); acc = acc + quoted(v.signature@); }
    out.append(", program: ");
    proof { lemma_concat_associative(start, acc, ", program: "@); acc = acc + ", program: "@; }
    push_opt_quoted(out, &v.program);
    proof { lemma_concat_associative(start, acc, opt_quoted(v.program)); acc = acc + opt_quoted(v.program); }
    out.append(", project: ");
    proof { lemma_concat_associative(start, acc, ", project: "@); acc = acc + ", project: "@; }
    push_opt_quoted(out, &v.project);
    proof { lemma_concat_associative(start, acc, opt_quoted(v.project)); acc = acc + opt_quoted(v.project); }
    out.append(" }");
    proof { lemma_concat_associative(start, acc, " }"@); acc = acc + " }"@; }
}

fn push_set_return_type_args(out: &mut String, v: &SetReturnTypeArgs)
    ensures
        final(out)@ == old(out)@ + set_return_type_args_text(*v),
{
    let ghost start = out@;
    out.append("SetReturnTypeArgs { function: ");
    let ghost mut acc: Seq<char> = "SetReturnTypeArgs { function: "@;
    push_quoted(out, v.function.as_str());
    proof { lemma_concat_associative(start, acc, quoted(v.function@)); acc = acc + quoted(v.function@); }
    out.append(", return_type: ");
    proof { lemma_concat_associative(start, acc, ", return_type: "@); acc = acc + ", return_type: "@; }
    push_quoted(out, v.return_type.as_str());
    proof { lemma_concat_associative(start, acc, quoted(v.return_type@)); acc = acc + quoted(v.return_type@); }
    out.append(", program: ");
    proof { lemma_concat_associative(start, acc, ", program: "@); acc = acc + ", program: "@; }
    push_opt_quoted(out, &v.program);
    proof { lemma_concat_associative(start, acc, opt_quoted(v.program)); acc = acc + opt_quoted(v.program); }
    out.append(", project: ");
    proof { lemma_concat_associative(start, acc, ", project: "@); acc = acc + ", project: "@; }
    push_opt_quoted(out, &v.project);
    proof { lemma_concat_associative(start, acc, opt_quoted(v.project)); acc = acc + opt_quoted(v.project); }
    out.append(" }");
    proof { lemma_concat_associative(start, acc, " }"@); acc = acc + " }"@; }
}

fn push_string_refs_args(out: &mut String, v: &StringRefsArgs)
    ensures
        final(out)@ == old(out)@ + string_refs_args_text(*v),
{
    let ghost start = out@;
    out.append("StringRefsArgs { string: ");
    let ghost mut acc: Seq<char> = "StringRefsArgs { string: "@;
    push_quoted(out, v.string.as_str());
    proof { lemma_concat_associative(start, acc, quoted(v.string@)); acc = acc + quoted(v.string@); }
    out.append(", options: ");
    proof { lemma_concat_associative(start, acc, ", options: "@); acc = acc + ", options: "@; }
    push_query_options(out, &v.options);
    proof { lemma_concat_associative(start, acc, query_options_text(v.options)); acc = acc + query_options_text(v.options); }
    out.append(" }");
    proof { lemma_concat_associative(start, acc, " }"@); acc = acc + " }"@; }
}

fn push_symbol_get_args(out: &mut String, v: &SymbolGetArgs)
    ensures
        final(out)@ == old(out)@ + symbol_get_args_text(*v),
{
    let ghost start = out@;
    out.append("SymbolGetArgs { name: ");
    let ghost mut acc: Seq<char> = "SymbolGetArgs { name: "@;
    push_quoted(out, v.name.as_str());
    proof { lemma_concat_associative(start, acc, quoted(v.name@)); acc = acc + quoted(v.name@); }
    out.append(", options: ");
    proof { lemma_concat_associative(start, acc, ", options: "@); acc = acc + ", options: "@; }
    push_query_options(out, &v.options);
    proof { lemma_concat_associative(start, acc, query_options_text(v.options)); acc = acc + query_options_text(v.options); }
    out.append(" }");
    proof { lemma_concat_associative(start, acc, " }"@); acc = acc + " }"@; }
}

fn push_create_symbol_args(out: &mut String, v: &CreateSymbolArgs)
    ensures
        final(out)@ == old(out)@ + create_symbol_args_text(*v),
{
    let ghost start = out@;
    out.append("CreateSymbolArgs { address: ");
    let ghost mut acc: Seq<char> = "CreateSymbolArgs { address: "@;
    push_quoted(out, v.address.as_str());
    proof { lemma_concat_associative(start, acc, quoted(v.address@)); acc = acc + quoted(v.address@); }
    out.append(", name: ");
    proof { lemma_concat_associative(start, acc, ", name: "@); acc = acc + ", name: "@; }
    push_quoted(out, v.name.as_str());
    proof { lemma_concat_associative(start, acc, quoted(v.name@)); acc = acc + quoted(v.name@); }
    out.append(", program: ");
    proof { lemma_concat_associative(start, acc, ", program: "@); acc = acc + ", program: "@; }
    push_opt_quoted(out, &v.program);
    proof { lemma_concat_associative(start, acc, opt_quoted(v.program)); acc = acc + opt_quoted(v.program); }
    out.append(", project: ");
    proof { lemma_concat_associative(start, acc, ", project: "@); acc = acc + ", project: "@; }
    push_opt_quoted(out, &v.project);
    proof { lemma_concat_associative(start, acc, opt_quoted(v.project)); acc = acc + opt_quoted(v.project); }
    out.append(" }");
    proof { lemma_concat_associative(start, acc, " }"@); acc = acc + " }"@; }
}

fn push_mem_read_args(out: &mut String, v: &MemReadArgs)
    ensures
        final(out)@ == old(out)@ + mem_read_args_text(*v),
{
    let ghost start = out@;
    out.append("MemReadArgs { address: ");
    let ghost mut acc: Seq<char> = "MemReadArgs { address: "@;
    push_quoted(out, v.address.as_str());
    proof { lemma_concat_associative(start, acc, quoted(v.address@)); acc = acc + quoted(v.address@); }
    out.append(", size: ");
    proof { lemma_concat_associative(start, acc, ", size: "@); acc = acc + ", size: "@; }
    push_number(out, v.size as u64);
    proof { lemma_concat_associative(start, acc, decimal(v.size as nat)); acc = acc + decimal(v.size as nat); }
    out.append(", options: ");
    proof { lemma_concat_associative(start, acc, ", options: "@); acc = acc + ", options: "@; }
    push_query_options(out, &v.options);
    proof { lemma_concat_associative(start, acc, query_options_text(v.options)); acc = acc + query_options_text(v.options); }
    out.append(" }");
    proof { lemma_concat_associative(start, acc, " }"@); acc = acc + " }"@; }
}

fn push_mem_write_args(out: &mut String, v: &MemWriteArgs)
    ensures
        final(out)@ == old(out)@ + mem_write_args_text(*v),
{
    let ghost start = out@;
    out.append("MemWriteArgs { address: ");
    let ghost mut acc: Seq<char> = "MemWriteArgs { address: "@;
    push_quoted(out, v.address.as_str());
    proof { lemma_concat_associative(start, acc, quoted(v.address@)); acc = acc + quoted(v.address@); }
    out.append(", bytes: ");
    proof { lemma_concat_associative(start, acc, ", bytes: "@); acc = acc + ", bytes: "@; }
    push_quoted(out, v.bytes.as_str());
    proof { lemma_concat_associative(start, acc, quoted(v.bytes@)); acc = acc + quoted(v.bytes@); }
    out.append(", program: ");
    proof { lemma_concat_associative(start, acc, ", program: "@); acc = acc + ", program: "@; }
    push_opt_quoted(out, &v.program);
    proof { lemma_concat_associative(start, acc, opt_quoted(v.program)); acc = acc + opt_quoted(v.program); }
    out.append(", project: ");
    proof { lemma_concat_associative(start, acc, ", project: "@); acc = acc + ", project: "@; }
    push_opt_quoted(out, &v.project);
    proof { lemma_concat_associative(start, acc, opt_quoted(v.project)); acc = acc + opt_quoted(v.project); }
    out.append(" }");
    proof { lemma_concat_associative(start, acc, " }"@); acc = acc + " }"@; }
}

fn push_mem_search_args(out: &mut String, v: &MemSearchArgs)
    ensures
        final(out)@ == old(out)@ + mem_search_args_text(*v),
{
    let ghost start = out@;
    out.append("MemSearchArgs { pattern: ");
    let ghost mut acc: Seq<char> = "MemSearchArgs { pattern: "@;
    push_quoted(out, v.pattern.as_str());
    proof { lemma_concat_associative(start, acc, quoted(v.pattern@)); acc = acc + quoted(v.pattern@); }
    out.append(", options: ");
    proof { lemma_concat_associative(start, acc, ", options: "@); acc = acc + ", options: "@; }
    push_query_options(out, &v.options);
    proof { lemma_concat_associative(start, acc, query_options_text(v.options)); acc = acc + query_options_text(v.options); }
    out.append(" }");
    proof { lemma_concat_associative(start, acc, " }"@); acc = acc + " }"@; }
}

fn push_x_ref_args(out: &mut String, v: &XRefArgs)
    ensures
        final(out)@ == old(out)@ + x_ref_args_text(*v),
{
    let ghost start = out@;
    out.append("XRefArgs { positional_target: ");
    let ghost mut acc: Seq<char> = "XRefArgs { positional_target: "@;
    push_opt_quoted(out, &v.positional_target);
    proof { lemma_concat_associative(start, acc, opt_quoted(v.positional_target)); acc = acc + opt_quoted(v.positional_target); }
    out.append(", target: ");
    proof { lemma_concat_associative(start, acc, ", target: "@); acc = acc + ", target: "@; }
    push_opt_quoted(out, &v.target);
    proof { lemma_concat_associative(start, acc, opt_quoted(v.target)); acc = acc + opt_quoted(v.target); }
    out.append(", options: ");
    proof { lemma_concat_associative(start, acc, ", options: "@); acc = acc + ", options: "@; }
    push_query_options(out, &v.options);
    proof { lemma_concat_associative(start, acc, query_options_text(v.options)); acc = acc + query_options_text(v.options); }
    out.append(" }");
    proof { lemma_concat_associative(start, acc, " }"@); acc = acc + " }"@; }
}

fn push_type_get_args(out: &mut String, v: &TypeGetArgs)
    ensures
        final(out)@ == old(out)@ + type_get_args_text(*v),
{
    let ghost start = out@;
    out.append("TypeGetArgs { name: ");
    let ghost mut acc: Seq<char> = "TypeGetArgs { name: "@;
    push_quoted(out, v.name.as_str());
    proof { lemma_concat_associative(start, acc, quoted(v.name@)); acc = acc + quoted(v.name@); }
    out.append(", options: ");
    proof { lemma_concat_associative(start, acc, ", options: "@); acc = acc + ", options: "@; }
    push_query_options(out, &v.options);
    proof { lemma_concat_associative(start, acc, query_options_text(v.options)); acc = acc + query_options_text(v.options); }
    out.append(" }");
    proof { lemma_concat_associative(start, acc, " }"@); acc = acc + " }"@; }
}

fn push_create_type_args(out: &mut String, v: &CreateTypeArgs)
    ensures
        final(out)@ == old(out)@ + create_type_args_text(*v),
{
    let ghost start = out@;
    out.append("CreateTypeArgs { definition: ");
    let ghost mut acc: Seq<char> = "CreateTypeArgs { definition: "@;
    push_quoted(out, v.definition.as_str());
    proof { lemma_concat_associative(start, acc, quoted(v.definition@)); acc = acc + quoted(v.definition@); }
    out.append(", program: ");
    proof { lemma_concat_associative(start, acc, ", program: "@); acc = acc + ", program: "@; }
    push_opt_quoted(out, &v.program);
    proof { lemma_concat_associative(start, acc, opt_quoted(v.program)); acc = acc + opt_quoted(v.program); }
    out.append(", project: ");
    proof { lemma_concat_associative(start, acc, ", project: "@); acc = acc + ", project: "@; }
    push_opt_quoted(out, &v.project);
    proof { lemma_concat_associative(start, acc, opt_quoted(v.project)); acc = acc + opt_quoted(v.project); }
    out.append(" }");
    proof { lemma_concat_associative(start, acc, " }"@); acc = acc + " }"@; }
}

fn push_apply_type_args(out: &mut String, v: &ApplyTypeArgs)
    ensures
        final(out)@ == old(out)@ + apply_type_args_text(*v),
{
    let ghost start = out@;
    out.append("ApplyTypeArgs { address: ");
    let ghost mut acc: Seq<char> = "ApplyTypeArgs { address: "@;
    push_quoted(out, v.address.as_str());
    proof { lemma_concat_associative(start, acc, quoted(v.address@)); acc = acc + quoted(v.address@); }
    out.append(", type_name: ");
    proof { lemma_concat_associative(start, acc, ", type_name: "@); acc = acc + ", type_name: "@; }
    push_quoted(out, v.data_type.as_str());
    proof { lemma_concat_associative(start, acc, quoted(v.data_type@)); acc = acc + quoted(v.data_type@); }
    out.append(", program: ");
    proof { lemma_concat_associative(start, acc, ", program: "@); acc = acc + ", program: "@; }
    push_opt_quoted(out, &v.program);
    proof { lemma_concat_associative(start, acc, opt_quoted(v.program)); acc = acc + opt_quoted(v.program); }
    out.append(", project: ");
    proof { lemma_concat_associative(start, acc, ", project: "@); acc = acc + ", project: "@; }
    push_opt_quoted(out, &v.project);
    proof { lemma_concat_associative(start, acc, opt_quoted(v.project)); acc = acc + opt_quoted(v.project); }
    out.append(" }");
    proof { lemma_concat_associative(start, acc, " }"@); acc = acc + " }"@; }
}

fn push_struct_get_args(out: &mut String, v: &StructGetArgs)
    ensures
        final(out)@ == old(out)@ + struct_get_args_text(*v),
{
    let ghost start = out@;
    out.append("StructGetArgs { name: ");
    let ghost mut acc: Seq<char> = "StructGetArgs { name: "@;
    push_quoted(out, v.name.as_str());
    proof { lemma_concat_associative(start, acc, quoted(v.name@)); acc = acc + quoted(v.name@); }
    out.append(", options: ");
    proof { lemma_concat_associative(start, acc, ", options: "@); acc = acc + ", options: "@; }
    push_query_options(out, &v.options);
    proof { lemma_concat_associative(start, acc, query_options_text(v.options)); acc = acc + query_options_text(v.options); }
    out.append(" }");
    proof { lemma_concat_associative(start, acc, " }"@); acc = acc + " }"@; }
}

fn push_struct_create_args(out: &mut String, v: &StructCreateArgs)
    ensures
        final(out)@ == old(out)@ + struct_create_args_text(*v),
{
    let ghost start = out@;
    out.append("StructCreateArgs { name: ");
    let ghost mut acc: Seq<char> = "StructCreateArgs { name: "@;
    push_quoted(out, v.name.as_str());
    proof { lemma_concat_associative(start, acc, quoted(v.name@)); acc = acc + quoted(v.name@); }
    out.append(", size: ");
    proof { lemma_concat_associative(start, acc, ", size: "@); acc = acc + ", size: "@; }
    push_opt_number(out, v.size);
    proof { lemma_concat_associative(start, acc, opt_number(v.size)); acc = acc + opt_number(v.size); }
    out.append(", category: ");
    proof { lemma_concat_associative(start, acc, ", category: "@); acc = acc + ", category: "@; }
    push_opt_quoted(out, &v.category);
    proof { lemma_concat_associative(start, acc, opt_quoted(v.category)); acc = acc + opt_quoted(v.category); }
    out.append(", program: ");
    proof { lemma_concat_associative(start, acc, ", program: "@); acc = acc + ", program: "@; }
    push_opt_quoted(out, &v.program);
    proof { lemma_concat_associative(start, acc, opt_quoted(v.program)); acc = acc + opt_quoted(v.program); }
    out.append(", project: ");
    proof { lemma_concat_associative(start, acc, ", project: "@); acc = acc + ", project: "@; }
    push_opt_quoted(out, &v.project);
    proof { lemma_concat_associative(start, acc, opt_quoted(v.project)); acc = acc + opt_quoted(v.project); }
    out.append(" }");
    proof { lemma_concat_associative(start, acc, " }"@); acc = acc + " }"@; }
}

fn push_struct_add_field_args(out: &mut String, v: &StructAddFieldArgs)
    ensures
        final(out)@ == old(out)@ + struct_add_field_args_text(*v),
{
    let ghost start = out@;
    out.append("StructAddFieldArgs { struct_name: ");
    let ghost mut acc: Seq<char> = "StructAddFieldArgs { struct_name: "@;
    push_quoted(out, v.struct_name.as_str());
    proof { lemma_concat_associative(start, acc, quoted(v.struct_name@)); acc = acc + quoted(v.struct_name@); }
    out.append(", field_name: ");
    proof { lemma_concat_associative(start, acc, ", field_name: "@); acc = acc + ", field_name: "@; }
    push_quoted(out, v.field_name.as_str());
    proof { lemma_concat_associative(start, acc, quoted(v.field_name@)); acc = acc + quoted(v.field_name@); }
    out.append(", field_type: ");
    proof { lemma_concat_associative(start, acc, ", field_type: "@); acc = acc + ", field_type: "@; }
    push_quoted(out, v.field_type.as_str());
    proof { lemma_concat_associative(start, acc, quoted(v.field_type@)); acc = acc + quoted(v.field_type@); }
    out.append(", size: ");
    proof { lemma_concat_associative(start, acc, ", size: "@); acc = acc + ", size: "@; }
    push_opt_number(out, v.size);
    proof { lemma_concat_associative(start, acc, opt_number(v.size)); acc = acc + opt_number(v.size); }
    out.append(", program: ");
    proof { lemma_concat_associative(start, acc, ", program: "@); acc = acc + ", program: "@; }
    push_opt_quoted(out, &v.program);
    proof { lemma_concat_associative(start, acc, opt_quoted(v.program)); acc = acc + opt_quoted(v.program); }
    out.append(", project: ");
    proof { lemma_concat_associative(start, acc, ", project: "@); acc = acc + ", project: "@; }
    push_opt_quoted(out, &v.project);
    proof { lemma_concat_associative(start, acc, opt_quoted(v.project)); acc = acc + opt_quoted(v.project); }
    out.append(" }");
    proof { lemma_concat_associative(start, acc, " }"@); acc = acc + " }"@; }
}

fn push_struct_rename_field_args(out: &mut String, v: &StructRenameFieldArgs)
    ensures
        final(out)@ == old(out)@ + struct_rename_field_args_text(*v),
{
    let ghost start = out@;
    out.append("StructRenameFieldArgs { struct_name: ");
    let ghost mut acc: Seq<char> = "StructRenameFieldArgs { struct_name: "@;
    push_quoted(out, v.struct_name.as_str());
    proof { lemma_concat_associative(start, acc, quoted(v.struct_name@)); acc = acc + quoted(v.struct_name@); }
    out.append(", old_name: ");
    proof { lemma_concat_associative(start, acc, ", old_name: "@); acc = acc + ", old_name: "@; }
    push_quoted(out, v.old_name.as_str());
    proof { lemma_concat_associative(start, acc, quoted(v.old_name@)); acc = acc + quoted(v.old_name@); }
    out.append(", new_name: ");
    proof { lemma_concat_associative(start, acc, ", new_name: "@); acc = acc + ", new_name: "@; }
    push_quoted(out, v.new_name.as_str());
    proof { lemma_concat_associative(start, acc, quoted(v.new_name@)); acc = acc + quoted(v.new_name@); }
    out.append(", program: ");
    proof { lemma_concat_associative(start, acc, ", program: "@); acc = acc + ", program: "@; }
    push_opt_quoted(out, &v.program);
    proof { lemma_concat_associative(start, acc, opt_quoted(v.program)); acc = acc + opt_quoted(v.program); }
    out.append(", project: ");
    proof { lemma_concat_associative(start, acc, ", project: "@); acc = acc + ", project: "@; }
    push_opt_quoted(out, &v.project);
    proof { lemma_concat_associative(start, acc, opt_quoted(v.project)); acc = acc + opt_quoted(v.project); }
    out.append(" }");
    proof { lemma_concat_associative(start, acc, " }"@); acc = acc + " }"@; }
}

fn push_struct_delete_args(out: &mut String, v: &StructDeleteArgs)
    ensures
        final(out)@ == old(out)@ + struct_delete_args_text(*v),
{
    let ghost start = out@;
    out.append("StructDeleteArgs { name: ");
    let ghost mut acc: Seq<char> = "StructDeleteArgs { name: "@;
    push_quoted(out, v.name.as_str());
    proof { lemma_concat_associative(start, acc, quoted(v.name@)); acc = acc + quoted(v.name@); }
    out.append(", program: ");
    proof { lemma_concat_associative(start, acc, ", program: "@); acc = acc + ", program: "@; }
    push_opt_quoted(out, &v.program);
    proof { lemma_concat_associative(start, acc, opt_quoted(v.program)); acc = acc + opt_quoted(v.program); }
    out.append(", project: ");
    proof { lemma_concat_associative(start, acc, ", project: "@); acc = acc + ", project: "@; }
    push_opt_quoted(out, &v.project);
    proof { lemma_concat_associative(start, acc, opt_quoted(v.project)); acc = acc + opt_quoted(v.project); }
    out.append(" }");
    proof { lemma_concat_associative(start, acc, " }"@); acc = acc + " }"@; }
}

fn push_variable_list_args(out: &mut String, v: &VariableListArgs)
    ensures
        final(out)@ == old(out)@ + variable_list_args_text(*v),
{
    let ghost start = out@;
    out.append("VariableListArgs { function: ");
    let ghost mut acc: Seq<char> = "VariableListArgs { function: "@;
    push_quoted(out, v.function.as_str());
    proof { lemma_concat_associative(start, acc, quoted(v.function@)); acc = acc + quoted(v.function@); }
    out.append(", limit: ");
    proof { lemma_concat_associative(start, acc, ", limit: "@); acc = acc + ", limit: "@; }
    push_opt_number(out, v.limit);
    proof { lemma_concat_associative(start, acc, opt_number(v.limit)); acc = acc + opt_number(v.limit); }
    out.append(", program: ");
    proof { lemma_concat_associative(start, acc, ", program: "@); acc = acc + ", program: "@; }
    push_opt_quoted(out, &v.program);
    proof { lemma_concat_associative(start, acc, opt_quoted(v.program)); acc = acc + opt_quoted(v.program); }
    out.append(", project: ");
    proof { lemma_concat_associative(start, acc, ", project: "@); acc = acc + ", project: "@; }
    push_opt_quoted(out, &v.project);
    proof { lemma_concat_associative(start, acc, opt_quoted(v.project)); acc = acc + opt_quoted(v.project); }
    out.append(", options: ");
    proof { lemma_concat_associative(start, acc, ", options: "@); acc = acc + ", options: "@; }
    push_query_options(out, &v.options);
    proof { lemma_concat_associative(start, acc, query_options_text(v.options)); acc = acc + query_options_text(v.options); }
    out.append(" }");
    proof { lemma_concat_associative(start, acc, " }"@); acc = acc + " }"@; }
}

fn push_variable_rename_args(out: &mut String, v: &VariableRenameArgs)
    ensures
        final(out)@ == old(out)@ + variable_rename_args_text(*v),
{
    let ghost start = out@;
    out.append("VariableRenameArgs { function: ");
    let ghost mut acc: Seq<char> = "VariableRenameArgs { function: "@;
    push_quoted(out, v.function.as_str());
    proof { lemma_concat_associative(start, acc, quoted(v.function@)); acc = acc + quoted(v.function@); }
    out.append(", old_name: ");
    proof { lemma_concat_associative(start, acc, ", old_name: "@); acc = acc + ", old_name: "@; }
    push_quoted(out, v.old_name.as_str());
    proof { lemma_concat_associative(start, acc, quoted(v.old_name@)); acc = acc + quoted(v.old_name@); }
    out.append(", new_name: ");
    proof { lemma_concat_associative(start, acc, ", new_name: "@); acc = acc + ", new_name: "@; }
    push_quoted(out, v.new_name.as_str());
    proof { lemma_concat_associative(start, acc, quoted(v.new_name@)); acc = acc + quoted(v.new_name@); }
    out.append(", program: ");
    proof { lemma_concat_associative(start, acc, ", program: "@); acc = acc + ", program: "@; }
    push_opt_quoted(out, &v.program);
    proof { lemma_concat_associative(start, acc, opt_quoted(v.program)); acc = acc + opt_quoted(v.program); }
    out.append(", project: ");
    proof { lemma_concat_associative(start, acc, ", project: "@); acc = acc + ", project: "@; }
    push_opt_quoted(out, &v.project);
    proof { lemma_concat_associative(start, acc, opt_quoted(v.project)); acc = acc + opt_quoted(v.project); }
    out.append(" }");
    proof { lemma_concat_associative(start, acc, " }"@); acc = acc + " }"@; }
}

fn push_variable_retype_args(out: &mut String, v: &VariableRetypeArgs)
    ensures
        final(out)@ == old(out)@ + variable_retype_args_text(*v),
{
    let ghost start = out@;
    out.append("VariableRetypeArgs { function: ");
    let ghost mut acc: Seq<char> = "VariableRetypeArgs { function: "@;
    push_quoted(out, v.function.as_str());
    proof { lemma_concat_associative(start, acc, quoted(v.function@)); acc = acc + quoted(v.function@); }
    out.append(", variable: ");
    proof { lemma_concat_associative(start, acc, ", variable: "@); acc = acc + ", variable: "@; }
    push_quoted(out, v.variable.as_str());
    proof { lemma_concat_associative(start, acc, quoted(v.variable@)); acc = acc + quoted(v.variable@); }
    out.append(", new_type: ");
    proof { lemma_concat_associative(start, acc, ", new_type: "@); acc = acc + ", new_type: "@; }
    push_quoted(out, v.new_type.as_str());
    proof { lemma_concat_associative(start, acc, quoted(v.new_type@)); acc = acc + quoted(v.new_type@); }
    out.append(", program: ");
    proof { lemma_concat_associative(start, acc, ", program: "@); acc = acc + ", program: "@; }
    push_opt_quoted(out, &v.program);
    proof { lemma_concat_associative(start, acc, opt_quoted(v.program)); acc = acc + opt_quoted(v.program); }
    out.append(", project: ");
    proof { lemma_concat_associative(start, acc, ", project: "@); acc = acc + ", project: "@; }
    push_opt_quoted(out, &v.project);
    proof { lemma_concat_associative(start, acc, opt_quoted(v.project)); acc = acc + opt_quoted(v.project); }
    out.append(" }");
    proof { lemma_concat_associative(start, acc, " }"@); acc = acc + " }"@; }
}

fn push_enum_create_args(out: &mut String, v: &EnumCreateArgs)
    ensures
        final(out)@ == old(out)@ + enum_create_args_text(*v),
{
    let ghost start = out@;
    out.append("EnumCreateArgs { name: ");
    let ghost mut acc: Seq<char> = "EnumCreateArgs { name: "@;
    push_quoted(out, v.name.as_str());
    proof { lemma_concat_associative(start, acc, quoted(v.name@)); acc = acc + quoted(v.name@); }
    out.append(", size: ");
    proof { lemma_concat_associative(start, acc, ", size: "@); acc = acc + ", size: "@; }
    push_number(out, v.size as u64);
    proof { lemma_concat_associative(start, acc, decimal(v.size as nat)); acc = acc + decimal(v.size as nat); }
    out.append(", category: ");
    proof { lemma_concat_associative(start, acc, ", category: "@); acc = acc + ", category: "@; }
    push_opt_quoted(out, &v.category);
    proof { lemma_concat_associative(start, acc, opt_quoted(v.category)); acc = acc + opt_quoted(v.category); }
    out.append(", members: ");
    proof { lemma_concat_associative(start, acc, ", members: "@); acc = acc + ", members: "@; }
    push_opt_quoted(out, &v.members);
    proof { lemma_concat_associative(start, acc, opt_quoted(v.members)); acc = acc + opt_quoted(v.members); }
    out.append(", program: ");
    proof { lemma_concat_associative(start, acc, ", program: "@); acc = acc + ", program: "@; }
    push_opt_quoted(out, &v.program);
    proof { lemma_concat_associative(start, acc, opt_quoted(v.program)); acc = acc + opt_quoted(v.program); }
    out.append(", project: ");
    proof { lemma_concat_associative(start, acc, ", project: "@); acc = acc + ", project: "@; }
    push_opt_quoted(out, &v.project);
    proof { lemma_concat_associative(start, acc, opt_quoted(v.project)); acc = acc + opt_quoted(v.project); }
    out.append(" }");
    proof { lemma_concat_associative(start, acc, " }"@); acc = acc + " }"@; }
}

fn push_typedef_create_args(out: &mut String, v: &TypedefCreateArgs)
    ensures
        final(out)@ == old(out)@ + typedef_create_args_text(*v),
{
    let ghost start = out@;
    out.append("TypedefCreateArgs { name: ");
    let ghost mut acc: Seq<char> = "TypedefCreateArgs { name: "@;
    push_quoted(out, v.name.as_str());
    proof { lemma_concat_associative(start, acc, quoted(v.name@)); acc = acc + quoted(v.name@); }
    out.append(", base_type: ");
    proof { lemma_concat_associative(start, acc, ", base_type: "@); acc = acc + ", base_type: "@; }
    push_quoted(out, v.base_type.as_str());
    proof { lemma_concat_associative(start, acc, quoted(v.base_type@)); acc = acc + quoted(v.base_type@); }
    out.append(", category: ");
    proof { lemma_concat_associative(start, acc, ", category: "@); acc = acc + ", category: "@; }
    push_opt_quoted(out, &v.category);
    proof { lemma_concat_associative(start, acc, opt_quoted(v.category)); acc = acc + opt_quoted(v.category); }
    out.append(", program: ");
    proof { lemma_concat_associative(start, acc, ", program: "@); acc = acc + ", program: "@; }
    push_opt_quoted(out, &v.program);
    proof { lemma_concat_associative(start, acc, opt_quoted(v.program)); acc = acc + opt_quoted(v.program); }
    out.append(", project: ");
    proof { lemma_concat_associative(start, acc, ", project: "@); acc = acc + ", project: "@; }
    push_opt_quoted(out, &v.project);
    proof { lemma_concat_associative(start, acc, opt_quoted(v.project)); acc = acc + opt_quoted(v.project); }
    out.append(" }");
    proof { lemma_concat_associative(start, acc, " }"@); acc = acc + " }"@; }
}

fn push_parse_c_type_args(out: &mut String, v: &ParseCTypeArgs)
    ensures
        final(out)@ == old(out)@ + parse_c_type_args_text(*v),
{
    let ghost start = out@;
    out.append("ParseCTypeArgs { code: ");
    let ghost mut acc: Seq<char> = "ParseCTypeArgs { code: "@;
    push_quoted(out, v.code.as_str());
    proof { lemma_concat_associative(start, acc, quoted(v.code@)); acc = acc + quoted(v.code@); }
    out.append(", program: ");
    proof { lemma_concat_associative(start, acc, ", program: "@); acc = acc + ", program: "@; }
    push_opt_quoted(out, &v.program);
    proof { lemma_concat_associative(start, acc, opt_quoted(v.program)); acc = acc + opt_quoted(v.program); }
    out.append(", project: ");
    proof { lemma_concat_associative(start, acc, ", project: "@); acc = acc + ", project: "@; }
    push_opt_quoted(out, &v.project);
    proof { lemma_concat_associative(start, acc, opt_quoted(v.project)); acc = acc + opt_quoted(v.project); }
    out.append(" }");
    proof { lemma_concat_associative(start, acc, " }"@); acc = acc + " }"@; }
}

fn push_bookmark_list_args(out: &mut String, v: &BookmarkListArgs)
    ensures
        final(out)@ == old(out)@ + bookmark_list_args_text(*v),
{
    let ghost start = out@;
    out.append("BookmarkListArgs { bookmark_type: ");
    let ghost mut acc: Seq<char> = "BookmarkListArgs { bookmark_type: "@;
    push_opt_quoted(out, &v.bookmark_type);
    proof { lemma_concat_associative(start, acc, opt_quoted(v.bookmark_type)); acc = acc + opt_quoted(v.bookmark_type); }
    out.append(", limit: ");
    proof { lemma_concat_associative(start, acc, ", limit: "@); acc = acc + ", limit: "@; }
    push_opt_number(out, v.limit);
    proof { lemma_concat_associative(start, acc, opt_number(v.limit)); acc = acc + opt_number(v.limit); }
    out.append(", program: ");
    proof { lemma_concat_associative(start, acc, ", program: "@); acc = acc + ", program: "@; }
    push_opt_quoted(out, &v.program);
    proof { lemma_concat_associative(start, acc, opt_quoted(v.program)); acc = acc + opt_quoted(v.program); }
    out.append(", project: ");
    proof { lemma_concat_associative(start, acc, ", project: "@); acc = acc + ", project: "@; }
    push_opt_quoted(out, &v.project);
    proof { lemma_concat_associative(start, acc, opt_quoted(v.project)); acc = acc + opt_quoted(v.project); }
    out.append(" }");
    proof { lemma_concat_associative(start, acc, " }"@); acc = acc + " }"@; }
}

fn push_bookmark_add_args(out: &mut String, v: &BookmarkAddArgs)
    ensures
        final(out)@ == old(out)@ + bookmark_add_args_text(*v),
{
    let ghost start = out@;
    out.append("BookmarkAddArgs { address: ");
    let ghost mut acc: Seq<char> = "BookmarkAddArgs { address: "@;
    push_quoted(out, v.address.as_str());
    proof { lemma_concat_associative(start, acc, quoted(v.address@)); acc = acc + quoted(v.address@); }
    out.append(", bookmark_type: ");
    proof { lemma_concat_associative(start, acc, ", bookmark_type: "@); acc = acc + ", bookmark_type: "@; }
    push_quoted(out, v.bookmark_type.as_str());
    proof { lemma_concat_associative(start, acc, quoted(v.bookmark_type@)); acc = acc + quoted(v.bookmark_type@); }
    out.append(", category: ");
    proof { lemma_concat_associative(start, acc, ", category: "@); acc = acc + ", category: "@; }
    push_opt_quoted(out, &v.category);
    proof { lemma_concat_associative(start, acc, opt_quoted(v.category)); acc = acc + opt_quoted(v.category); }
    out.append(", comment: ");
    proof { lemma_concat_associative(start, acc, ", comment: "@); acc = acc + ", comment: "@; }
    push_opt_quoted(out, &v.comment);
    proof { lemma_concat_associative(start, acc, opt_quoted(v.comment)); acc = acc + opt_quoted(v.comment); }
    out.append(", program: ");
    proof { lemma_concat_associative(start, acc, ", program: "@); acc = acc + ", program: "@; }
    push_opt_quoted(out, &v.program);
    proof { lemma_concat_associative(start, acc, opt_quoted(v.program)); acc = acc + opt_quoted(v.program); }
    out.append(", project: ");
    proof { lemma_concat_associative(start, acc, ", project: "@); acc = acc + ", project: "@; }
    push_opt_quoted(out, &v.project);
    proof { lemma_concat_associative(start, acc, opt_quoted(v.project)); acc = acc + opt_quoted(v.project); }
    out.append(" }");
    proof { lemma_concat_associative(start, acc, " }"@); acc = acc + " }"@; }
}

fn push_bookmark_delete_args(out: &mut String, v: &BookmarkDeleteArgs)
    ensures
        final(out)@ == old(out)@ + bookmark_delete_args_text(*v),
{
    let ghost start = out@;
    out.append("BookmarkDeleteArgs { address: ");
    let ghost mut acc: Seq<char> = "BookmarkDeleteArgs { address: "@;
    push_quoted(out, v.address.as_str());
    proof { lemma_concat_associative(start, acc, quoted(v.address@)); acc = acc + quoted(v.address@); }
    out.append(", bookmark_type: ");
    proof { lemma_concat_associative(start, acc, ", bookmark_type: "@); acc = acc + ", bookmark_type: "@; }
    push_opt_quoted(out, &v.bookmark_type);
    proof { lemma_concat_associative(start, acc, opt_quoted(v.bookmark_type)); acc = acc + opt_quoted(v.bookmark_type); }
    out.append(", program: ");
    proof { lemma_concat_associative(start, acc, ", program: "@); acc = acc + ", program: "@; }
    push_opt_quoted(out, &v.program);
    proof { lemma_concat_associative(start, acc, opt_quoted(v.program)); acc = acc + opt_quoted(v.program); }
    out.append(", project: ");
    proof { lemma_concat_associative(start, acc, ", project: "@); acc = acc + ", project: "@; }
    push_opt_quoted(out, &v.project);
    proof { lemma_concat_associative(start, acc, opt_quoted(v.project)); acc = acc + opt_quoted(v.project); }
    out.append(" }");
    proof { lemma_concat_associative(start, acc, " }"@); acc = acc + " }"@; }
}

fn push_comment_get_args(out: &mut String, v: &CommentGetArgs)
    ensures
        final(out)@ == old(out)@ + comment_get_args_text(*v),
{
    let ghost start = out@;
    out.append("CommentGetArgs { address: ");
    let ghost mut acc: Seq<char> = "CommentGetArgs { address: "@;
    push_quoted(out, v.address.as_str());
    proof { lemma_concat_associative(start, acc, quoted(v.address@)); acc = acc + quoted(v.address@); }
    out.append(", options: ");
    proof { lemma_concat_associative(start, acc, ", options: "@); acc = acc + ", options: "@; }
    push_query_options(out, &v.options);
    proof { lemma_concat_associative(start, acc, query_options_text(v.options)); acc = acc + query_options_text(v.options); }
    out.append(" }");
    proof { lemma_concat_associative(start, acc, " }"@); acc = acc + " }"@; }
}

fn push_comment_set_args(out: &mut String, v: &CommentSetArgs)
    ensures
        final(out)@ == old(out)@ + comment_set_args_text(*v),
{
    let ghost start = out@;
    out.append("CommentSetArgs { address: ");
    let ghost mut acc: Seq<char> = "CommentSetArgs { address: "@;
    push_quoted(out, v.address.as_str());
    proof { lemma_concat_associative(start, acc, quoted(v.address@)); acc = acc + quoted(v.address@); }
    out.append(", text: ");
    proof { lemma_concat_associative(start, acc, ", text: "@); acc = acc + ", text: "@; }
    push_quoted(out, v.text.as_str());
    proof { lemma_concat_associative(start, acc, quoted(v.text@)); acc = acc + quoted(v.text@); }
    out.append(", comment_type: ");
    proof { lemma_concat_associative(start, acc, ", comment_type: "@); acc = acc + ", comment_type: "@; }
    push_opt_quoted(out, &v.comment_type);
    proof { lemma_concat_associative(start, acc, opt_quoted(v.comment_type)); acc = acc + opt_quoted(v.comment_type); }
    out.append(", program: ");
    proof { lemma_concat_associative(start, acc, ", program: "@); acc = acc + ", program: "@; }
    push_opt_quoted(out, &v.program);
    proof { lemma_concat_associative(start, acc, opt_quoted(v.program)); acc = acc + opt_quoted(v.program); }
    out.append(", project: ");
    proof { lemma_concat_associative(start, acc, ", project: "@); acc = acc + ", project: "@; }
    push_opt_quoted(out, &v.project);
    proof { lemma_concat_associative(start, acc, opt_quoted(v.project)); acc = acc + opt_quoted(v.project); }
    out.append(" }");
    proof { lemma_concat_associative(start, acc, " }"@); acc = acc + " }"@; }
}

fn push_find_string_args(out: &mut String, v: &FindStringArgs)
    ensures
        final(out)@ == old(out)@ + find_string_args_text(*v),
{
    let ghost start = out@;
    out.append("FindStringArgs { pattern: ");
    let ghost mut acc: Seq<char> = "FindStringArgs { pattern: "@;
    push_quoted(out, v.pattern.as_str());
    proof { lemma_concat_associative(start, acc, quoted(v.pattern@)); acc = acc + quoted(v.pattern@); }
    out.append(", options: ");
    proof { lemma_concat_associative(start, acc, ", options: "@); acc = acc + ", options: "@; }
    push_query_options(out, &v.options);
    proof { lemma_concat_associative(start, acc, query_options_text(v.options)); acc = acc + query_options_text(v.options); }
    out.append(" }");
    proof { lemma_concat_associative(start, acc, " }"@); acc = acc + " }"@; }
}

fn push_find_bytes_args(out: &mut String, v: &FindBytesArgs)
    ensures
        final(out)@ == old(out)@ + find_bytes_args_text(*v),
{
    let ghost start = out@;
    out.append("FindBytesArgs { hex: ");
    let ghost mut acc: Seq<char> = "FindBytesArgs { hex: "@;
    push_quoted(out, v.hex.as_str());
    proof { lemma_concat_associative(start, acc, quoted(v.hex@)); acc = acc + quoted(v.hex@); }
    out.append(", options: ");
    proof { lemma_concat_associative(start, acc, ", options: "@); acc = acc + ", options: "@; }
    push_query_options(out, &v.options);
    proof { lemma_concat_associative(start, acc, query_options_text(v.options)); acc = acc + query_options_text(v.options); }
    out.append(" }");
    proof { lemma_concat_associative(start, acc, " }"@); acc = acc + " }"@; }
}

fn push_find_function_args(out: &mut String, v: &FindFunctionArgs)
    ensures
        final(out)@ == old(out)@ + find_function_args_text(*v),
{
    let ghost start = out@;
    out.append("FindFunctionArgs { pattern: ");
    let ghost mut acc: Seq<char> = "FindFunctionArgs { pattern: "@;
    push_quoted(out, v.pattern.as_str());
    proof { lemma_concat_associative(start, acc, quoted(v.pattern@)); acc = acc + quoted(v.pattern@); }
    out.append(", options: ");
    proof { lemma_concat_associative(start, acc, ", options: "@); acc = acc + ", options: "@; }
    push_query_options(out, &v.options);
    proof { lemma_concat_associative(start, acc, query_options_text(v.options)); acc = acc + query_options_text(v.options); }
    out.append(" }");
    proof { lemma_concat_associative(start, acc, " }"@); acc = acc + " }"@; }
}

fn push_find_calls_args(out: &mut String, v: &FindCallsArgs)
    ensures
        final(out)@ == old(out)@ + find_calls_args_text(*v),
{
    let ghost start = out@;
    out.append("FindCallsArgs { positional_target: ");
    let ghost mut acc: Seq<char> = "FindCallsArgs { positional_target: "@;
    push_opt_quoted(out, &v.positional_target);
    proof { lemma_concat_associative(start, acc, opt_quoted(v.positional_target)); acc = acc + opt_quoted(v.positional_target); }
    out.append(", target: ");
    proof { lemma_concat_associative(start, acc, ", target: "@); acc = acc + ", target: "@; }
    push_opt_quoted(out, &v.target);
    proof { lemma_concat_associative(start, acc, opt_quoted(v.target)); acc = acc + opt_quoted(v.target); }
    out.append(", options: ");
    proof { lemma_concat_associative(start, acc, ", options: "@); acc = acc + ", options: "@; }
    push_query_options(out, &v.options);
    proof { lemma_concat_associative(start, acc, query_options_text(v.options)); acc = acc + query_options_text(v.options); }
    out.append(" }");
    proof { lemma_concat_associative(start, acc, " }"@); acc = acc + " }"@; }
}

fn push_graph_function_args(out: &mut String, v: &GraphFunctionArgs)
    ensures
        final(out)@ == old(out)@ + graph_function_args_text(*v),
{
    let ghost start = out@;
    out.append("GraphFunctionArgs { positional_target: ");
    let ghost mut acc: Seq<char> = "GraphFunctionArgs { positional_target: "@;
    push_opt_quoted(out, &v.positional_target);
    proof { lemma_concat_associative(start, acc, opt_quoted(v.positional_target)); acc = acc + opt_quoted(v.positional_target); }
    out.append(", target: ");
    proof { lemma_concat_associative(start, acc, ", target: "@); acc = acc + ", target: "@; }
    push_opt_quoted(out, &v.target);
    proof { lemma_concat_associative(start, acc, opt_quoted(v.target)); acc = acc + opt_quoted(v.target); }
    out.append(", depth: ");
    proof { lemma_concat_associative(start, acc, ", depth: "@); acc = acc + ", depth: "@; }
    push_opt_number(out, v.depth);
    proof { lemma_concat_associative(start, acc, opt_number(v.depth)); acc = acc + opt_number(v.depth); }
    out.append(", options: ");
    proof { lemma_concat_associative(start, acc, ", options: "@); acc = acc + ", options: "@; }
    push_query_options(out, &v.options);
    proof { lemma_concat_associative(start, acc, query_options_text(v.options)); acc = acc + query_options_text(v.options); }
    out.append(" }");
    proof { lemma_concat_associative(start, acc, " }"@); acc = acc + " }"@; }
}

fn push_graph_export_args(out: &mut String, v: &GraphExportArgs)
    ensures
        final(out)@ == old(out)@ + graph_export_args_text(*v),
{
    let ghost start = out@;
    out.append("GraphExportArgs { format: ");
    let ghost mut acc: Seq<char> = "GraphExportArgs { format: "@;
    push_quoted(out, v.format.as_str());
    proof { lemma_concat_associative(start, acc, quoted(v.format@)); acc = acc + quoted(v.format@); }
    out.append(", options: ");
    proof { lemma_concat_associative(start, acc, ", options: "@); acc = acc + ", options: "@; }
    push_query_options(out, &v.options);
    proof { lemma_concat_associative(start, acc, query_options_text(v.options)); acc = acc + query_options_text(v.options); }
    out.append(" }");
    proof { lemma_concat_associative(start, acc, " }"@); acc = acc + " }"@; }
}

fn push_decompile_args(out: &mut String, v: &DecompileArgs)
    ensures
        final(out)@ == old(out)@ + decompile_args_text(*v),
{
    let ghost start = out@;
    out.append("DecompileArgs { positional_target: ");
    let ghost mut acc: Seq<char> = "DecompileArgs { positional_target: "@;
    push_opt_quoted(out, &v.positional_target);
    proof { lemma_concat_associative(start, acc, opt_quoted(v.positional_target)); acc = acc + opt_quoted(v.positional_target); }
    out.append(", target: ");
    proof { lemma_concat_associative(start, acc, ", target: "@); acc = acc + ", target: "@; }
    push_opt_quoted(out, &v.target);
    proof { lemma_concat_associative(start, acc, opt_quoted(v.target)); acc = acc + opt_quoted(v.target); }
    out.append(", options: ");
    proof { lemma_concat_associative(start, acc, ", options: "@); acc = acc + ", options: "@; }
    push_query_options(out, &v.options);
    proof { lemma_concat_associative(start, acc, query_options_text(v.options)); acc = acc + query_options_text(v.options); }
    out.append(" }");
    proof { lemma_concat_associative(start, acc, " }"@); acc = acc + " }"@; }
}

fn push_disasm_args(out: &mut String, v: &DisasmArgs)
    ensures
        final(out)@ == old(out)@ + disasm_args_text(*v),
{
    let ghost start = out@;
    out.append("DisasmArgs { positional_target: ");
    let ghost mut acc: Seq<char> = "DisasmArgs { positional_target: "@;
    push_opt_quoted(out, &v.positional_target);
    proof { lemma_concat_associative(start, acc, opt_quoted(v.positional_target)); acc = acc + opt_quoted(v.positional_target); }
    out.append(", target: ");
    proof { lemma_concat_associative(start, acc, ", target: "@); acc = acc + ", target: "@; }
    push_opt_quoted(out, &v.target);
    proof { lemma_concat_associative(start, acc, opt_quoted(v.target)); acc = acc + opt_quoted(v.target); }
    out.append(", num_instructions: ");
    proof { lemma_concat_associative(start, acc, ", num_instructions: "@); acc = acc + ", num_instructions: "@; }
    push_opt_number(out, v.num_instructions);
    proof { lemma_concat_associative(start, acc, opt_number(v.num_instructions)); acc = acc + opt_number(v.num_instructions); }
    out.append(", options: ");
    proof { lemma_concat_associative(start, acc, ", options: "@); acc = acc + ", options: "@; }
    push_query_options(out, &v.options);
    proof { lemma_concat_associative(start, acc, query_options_text(v.options)); acc = acc + query_options_text(v.options); }
    out.append(" }");
    proof { lemma_concat_associative(start, acc, " }"@); acc = acc + " }"@; }
}

fn push_diff_programs_args(out: &mut String, v: &DiffProgramsArgs)
    ensures
        final(out)@ == old(out)@ + diff_programs_args_text(*v),
{
    let ghost start = out@;
    out.append("DiffProgramsArgs { program1: ");
    let ghost mut acc: Seq<char> = "DiffProgramsArgs { program1: "@;
    push_quoted(out, v.program1.as_str());
    proof { lemma_concat_associative(start, acc, quoted(v.program1@)); acc = acc + quoted(v.program1@); }
    out.append(", program2: ");
    proof { lemma_concat_associative(start, acc, ", program2: "@); acc = acc + ", program2: "@; }
    push_quoted(out, v.program2.as_str());
    proof { lemma_concat_associative(start, acc, quoted(v.program2@)); acc = acc + quoted(v.program2@); }
    out.append(", format: ");
    proof { lemma_concat_associative(start, acc, ", format: "@); acc = acc + ", format: "@; }
    push_opt_quoted(out, &v.format);
    proof { lemma_concat_associative(start, acc, opt_quoted(v.format)); acc = acc + opt_quoted(v.format); }
    out.append(", project: ");
    proof { lemma_concat_associative(start, acc, ", project: "@); acc = acc + ", project: "@; }
    push_opt_quoted(out, &v.project);
    proof { lemma_concat_associative(start, acc, opt_quoted(v.project)); acc = acc + opt_quoted(v.project); }
    out.append(" }");
    proof { lemma_concat_associative(start, acc, " }"@); acc = acc + " }"@; }
}

fn push_diff_functions_args(out: &mut String, v: &DiffFunctionsArgs)
    ensures
        final(out)@ == old(out)@ + diff_functions_args_text(*v),
{
    let ghost start = out@;
    out.append("DiffFunctionsArgs { func1: ");
    let ghost mut acc: Seq<char> = "DiffFunctionsArgs { func1: "@;
    push_quoted(out, v.func1.as_str());
    proof { lemma_concat_associative(start, acc, quoted(v.func1@)); acc = acc + quoted(v.func1@); }
    out.append(", func2: ");
    proof { lemma_concat_associative(start, acc, ", func2: "@); acc = acc + ", func2: "@; }
    push_quoted(out, v.func2.as_str());
    proof { lemma_concat_associative(start, acc, quoted(v.func2@)); acc = acc + quoted(v.func2@); }
    out.append(", format: ");
    proof { lemma_concat_associative(start, acc, ", format: "@); acc = acc + ", format: "@; }
    push_opt_quoted(out, &v.format);
    proof { lemma_concat_associative(start, acc, opt_quoted(v.format)); acc = acc + opt_quoted(v.format); }
    out.append(", project: ");
    proof { lemma_concat_associative(start, acc, ", project: "@); acc = acc + ", project: "@; }
    push_opt_quoted(out, &v.project);
    proof { lemma_concat_associative(start, acc, opt_quoted(v.project)); acc = acc + opt_quoted(v.project); }
    out.append(" }");
    proof { lemma_concat_associative(start, acc, " }"@); acc = acc + " }"@; }
}

fn push_patch_bytes_args(out: &mut String, v: &PatchBytesArgs)
    ensures
        final(out)@ == old(out)@ + patch_bytes_args_text(*v),
{
    let ghost start = out@;
    out.append("PatchBytesArgs { address: ");
    let ghost mut acc: Seq<char> = "PatchBytesArgs { address: "@;
    push_quoted(out, v.address.as_str());
    proof { lemma_concat_associative(start, acc, quoted(v.address@)); acc = acc + quoted(v.address@); }
    out.append(", hex: ");
    proof { lemma_concat_associative(start, acc, ", hex: "@); acc = acc + ", hex: "@; }
    push_quoted(out, v.hex.as_str());
    proof { lemma_concat_associative(start, acc, quoted(v.hex@)); acc = acc + quoted(v.hex@); }
    out.append(", program: ");
    proof { lemma_concat_associative(start, acc, ", program: "@); acc = acc + ", program: "@; }
    push_opt_quoted(out, &v.program);
    proof { lemma_concat_associative(start, acc, opt_quoted(v.program)); acc = acc + opt_quoted(v.program); }
    out.append(", project: ");
    proof { lemma_concat_associative(start, acc, ", project: "@); acc = acc + ", project: "@; }
    push_opt_quoted(out, &v.project);
    proof { lemma_concat_associative(start, acc, opt_quoted(v.project)); acc = acc + opt_quoted(v.project); }
    out.append(" }");
    proof { lemma_concat_associative(start, acc, " }"@); acc = acc + " }"@; }
}

fn push_patch_nop_args(out: &mut String, v: &PatchNopArgs)
    ensures
        final(out)@ == old(out)@ + patch_nop_args_text(*v),
{
    let ghost start = out@;
    out.append("PatchNopArgs { address: ");
    let ghost mut acc: Seq<char> = "PatchNopArgs { address: "@;
    push_quoted(out, v.address.as_str());
    proof { lemma_concat_associative(start, acc, quoted(v.address@)); acc = acc + quoted(v.address@); }
    out.append(", count: ");
    proof { lemma_concat_associative(start, acc, ", count: "@); acc = acc + ", count: "@; }
    push_opt_number(out, v.count);
    proof { lemma_concat_associative(start, acc, opt_number(v.count)); acc = acc + opt_number(v.count); }
    out.append(", program: ");
    proof { lemma_concat_associative(start, acc, ", program: "@); acc = acc + ", program: "@; }
    push_opt_quoted(out, &v.program);
    proof { lemma_concat_associative(start, acc, opt_quoted(v.program)); acc = acc + opt_quoted(v.program); }
    out.append(", project: ");
    proof { lemma_concat_associative(start, acc, ", project: "@); acc = acc + ", project: "@; }
    push_opt_quoted(out, &v.project);
    proof { lemma_concat_associative(start, acc, opt_quoted(v.project)); acc = acc + opt_quoted(v.project); }
    out.append(" }");
    proof { lemma_concat_associative(start, acc, " }"@); acc = acc + " }"@; }
}

fn push_patch_export_args(out: &mut String, v: &PatchExportArgs)
    ensures
        final(out)@ == old(out)@ + patch_export_args_text(*v),
{
    let ghost start = out@;
    out.append("PatchExportArgs { output: ");
    let ghost mut acc: Seq<char> = "PatchExportArgs { output: "@;
    push_quoted(out, v.output.as_str());
    proof { lemma_concat_associative(start, acc, quoted(v.output@)); acc = acc + quoted(v.output@); }
    out.append(", program: ");
    proof { lemma_concat_associative(start, acc, ", program: "@); acc = acc + ", program: "@; }
    push_opt_quoted(out, &v.program);
    proof { lemma_concat_associative(start, acc, opt_quoted(v.program)); acc = acc + opt_quoted(v.program); }
    out.append(", project: ");
    proof { lemma_concat_associative(start, acc, ", project: "@); acc = acc + ", project: "@; }
    push_opt_quoted(out, &v.project);
    proof { lemma_concat_associative(start, acc, opt_quoted(v.project)); acc = acc + opt_quoted(v.project); }
    out.append(" }");
    proof { lemma_concat_associative(start, acc, " }"@); acc = acc + " }"@; }
}

fn push_script_run_args(out: &mut String, v: &ScriptRunArgs)
    ensures
        final(out)@ == old(out)@ + script_run_args_text(*v),
{
    let ghost start = out@;
    out.append("ScriptRunArgs { script_path: ");
    let ghost mut acc: Seq<char> = "ScriptRunArgs { script_path: "@;
    push_quoted(out, v.script_path.as_str());
    proof { lemma_concat_associative(start, acc, quoted(v.script_path@)); acc = acc + quoted(v.script_path@); }
    out.append(", program: ");
    proof { lemma_concat_associative(start, acc, ", program: "@); acc = acc + ", program: "@; }
    push_opt_quoted(out, &v.program);
    proof { lemma_concat_associative(start, acc, opt_quoted(v.program)); acc = acc + opt_quoted(v.program); }
    out.append(", project: ");
    proof { lemma_concat_associative(start, acc, ", project: "@); acc = acc + ", project: "@; }
    push_opt_quoted(out, &v.project);
    proof { lemma_concat_associative(start, acc, opt_quoted(v.project)); acc = acc + opt_quoted(v.project); }
    out.append(", args: ");
    proof { lemma_concat_associative(start, acc, ", args: "@); acc = acc + ", args: "@; }
    push_list_quoted(out, &v.args);
    proof { lemma_concat_associative(start, acc, list_quoted(v.args@)); acc = acc + list_quoted(v.args@); }
    out.append(" }");
    proof { lemma_concat_associative(start, acc, " }"@); acc = acc + " }"@; }
}

fn push_script_inline_args(out: &mut String, v: &ScriptInlineArgs)
    ensures
        final(out)@ == old(out)@ + script_inline_args_text(*v),
{
    let ghost start = out@;
    out.append("ScriptInlineArgs { code: ");
    let ghost mut acc: Seq<char> = "ScriptInlineArgs { code: "@;
    push_quoted(out, v.code.as_str());
    proof { lemma_concat_associative(start, acc, quoted(v.code@)); acc = acc + quoted(v.code@); }
    out.append(", program: ");
    proof { lemma_concat_associative(start, acc, ", program: "@); acc = acc + ", program: "@; }
    push_opt_quoted(out, &v.program);
    proof { lemma_concat_associative(start, acc, opt_quoted(v.program)); acc = acc + opt_quoted(v.program); }
    out.append(", project: ");
    proof { lemma_concat_associative(start, acc, ", project: "@); acc = acc + ", project: "@; }
    push_opt_quoted(out, &v.project);
    proof { lemma_concat_associative(start, acc, opt_quoted(v.project)); acc = acc + opt_quoted(v.project); }
    out.append(" }");
    proof { lemma_concat_associative(start, acc, " }"@); acc = acc + " }"@; }
}

fn push_batch_args(out: &mut String, v: &BatchArgs)
    ensures
        final(out)@ == old(out)@ + batch_args_text(*v),
{
    let ghost start = out@;
    out.append("BatchArgs { script_file: ");
    let ghost mut acc: Seq<char> = "BatchArgs { script_file: "@;
    push_quoted(out, v.script_file.as_str());
    proof { lemma_concat_associative(start, acc, quoted(v.script_file@)); acc = acc + quoted(v.script_file@); }
    out.append(", project: ");
    proof { lemma_concat_associative(start, acc, ", project: "@); acc = acc + ", project: "@; }
    push_opt_quoted(out, &v.project);
    proof { lemma_concat_associative(start, acc, opt_quoted(v.project)); acc = acc + opt_quoted(v.project); }
    out.append(", program: ");
    proof { lemma_concat_associative(start, acc, ", program: "@); acc = acc + ", program: "@; }
    push_opt_quoted(out, &v.program);
    proof { lemma_concat_associative(start, acc, opt_quoted(v.program)); acc = acc + opt_quoted(v.program); }
    out.append(" }");
    proof { lemma_concat_associative(start, acc, " }"@); acc = acc + " }"@; }
}

fn push_set_default_args(out: &mut String, v: &SetDefaultArgs)
    ensures
        final(out)@ == old(out)@ + set_default_args_text(*v),
{
    let ghost start = out@;
    out.append("SetDefaultArgs { kind: ");
    let ghost mut acc: Seq<char> = "SetDefaultArgs { kind: "@;
    push_quoted(out, v.kind.as_str());
    proof { lemma_concat_associative(start, acc, quoted(v.kind@)); acc = acc + quoted(v.kind@); }
    out.append(", value: ");
    proof { lemma_concat_associative(start, acc, ", value: "@); acc = acc + ", value: "@; }
    push_quoted(out, v.value.as_str());
    proof { lemma_concat_associative(start, acc, quoted(v.value@)); acc = acc + quoted(v.value@); }
    out.append(" }");
    proof { lemma_concat_associative(start, acc, " }"@); acc = acc + " }"@; }
}

fn push_summary_args(out: &mut String, v: &SummaryArgs)
    ensures
        final(out)@ == old(out)@ + summary_args_text(*v),
{
    let ghost start = out@;
    out.append("SummaryArgs { options: ");
    let ghost mut acc: Seq<char> = "SummaryArgs { options: "@;
    push_query_options(out, &v.options);
    proof { lemma_concat_associative(start, acc, query_options_text(v.options)); acc = acc + query_options_text(v.options); }
    out.append(" }");
    proof { lemma_concat_associative(start, acc, " }"@); acc = acc + " }"@; }
}

fn push_stats_args(out: &mut String, v: &StatsArgs)
    ensures
        final(out)@ == old(out)@ + stats_args_text(*v),
{
    let ghost start = out@;
    out.append("StatsArgs { options: ");
    let ghost mut acc: Seq<char> = "StatsArgs { options: "@;
    push_query_options(out, &v.options);
    proof { lemma_concat_associative(start, acc, query_options_text(v.options)); acc = acc + query_options_text(v.options); }
    out.append(" }");
    proof { lemma_concat_associative(start, acc, " }"@); acc = acc + " }"@; }
}

fn push_import_args(out: &mut String, v: &ImportArgs)
    ensures
        final(out)@ == old(out)@ + import_args_text(*v),
{
    let ghost start = out@;
    out.append("ImportArgs { binary: ");
    let ghost mut acc: Seq<char> = "ImportArgs { binary: "@;
    push_quoted(out, v.binary.as_str());
    proof { lemma_concat_associative(start, acc, quoted(v.binary@)); acc = acc + quoted(v.binary@); }
    out.append(", program: ");
    proof { lemma_concat_associative(start, acc, ", program: "@); acc = acc + ", program: "@; }
    push_opt_quoted(out, &v.program);
    proof { lemma_concat_associative(start, acc, opt_quoted(v.program)); acc = acc + opt_quoted(v.program); }
    out.append(", project: ");
    proof { lemma_concat_associative(start, acc, ", project: "@); acc = acc + ", project: "@; }
    push_opt_quoted(out, &v.project);
    proof { lemma_concat_associative(start, acc, opt_quoted(v.project)); acc = acc + opt_quoted(v.project); }
    out.append(", detach: ");
    proof { lemma_concat_associative(start, acc, ", detach: "@); acc = acc + ", detach: "@; }
    push_flag(out, v.detach);
    proof { lemma_concat_associative(start, acc, flag_text(v.detach)); acc = acc + flag_text(v.detach); }
    out.append(" }");
    proof { lemma_concat_associative(start, acc, " }"@); acc = acc + " }"@; }
}

fn push_analyze_args(out: &mut String, v: &AnalyzeArgs)
    ensures
        final(out)@ == old(out)@ + analyze_args_text(*v),
{
    let ghost start = out@;
    out.append("AnalyzeArgs { program: ");
    let ghost mut acc: Seq<char> = "AnalyzeArgs { program: "@;
    push_opt_quoted(out, &v.program);
    proof { lemma_concat_associative(start, acc, opt_quoted(v.program)); acc = acc + opt_quoted(v.program); }
    out.append(", project: ");
    proof { lemma_concat_associative(start, acc, ", project: "@); acc = acc + ", project: "@; }
    push_opt_quoted(out, &v.project);
    proof { lemma_concat_associative(start, acc, opt_quoted(v.project)); acc = acc + opt_quoted(v.project); }
    out.append(", detach: ");
    proof { lemma_concat_associative(start, acc, ", detach: "@); acc = acc + ", detach: "@; }
    push_flag(out, v.detach);
    proof { lemma_concat_associative(start, acc, flag_text(v.detach)); acc = acc + flag_text(v.detach); }
    out.append(" }");
    proof { lemma_concat_associative(start, acc, " }"@); acc = acc + " }"@; }
}

fn push_query_options(out: &mut String, v: &QueryOptions)
    ensures
        final(out)@ == old(out)@ + query_options_text(*v),
{
    let ghost start = out@;
    out.append("QueryOptions { program: ");
    let ghost mut acc: Seq<char> = "QueryOptions { program: "@;
    push_opt_quoted(out, &v.program);
    proof { lemma_concat_associative(start, acc, opt_quoted(v.program)); acc = acc + opt_quoted(v.program); }
    out.append(", project: ");
    proof { lemma_concat_associative(start, acc, ", project: "@); acc = acc + ", project: "@; }
    push_opt_quoted(out, &v.project);
    proof { lemma_concat_associative(start, acc, opt_quoted(v.project)); acc = acc + opt_quoted(v.project); }
    out.append(", filter: ");
    proof { lemma_concat_associative(start, acc, ", filter: "@); acc = acc + ", filter: "@; }
    push_opt_quoted(out, &v.filter);
    proof { lemma_concat_associative(start, acc, opt_quoted(v.filter)); acc = acc + opt_quoted(v.filter); }
    out.append(", fields: ");
    proof { lemma_concat_associative(start, acc, ", fields: "@); acc = acc + ", fields: "@; }
    push_opt_quoted(out, &v.fields);
    proof { lemma_concat_associative(start, acc, opt_quoted(v.fields)); acc = acc + opt_quoted(v.fields); }
    out.append(", format: ");
    proof { lemma_concat_associative(start, acc, ", format: "@); acc = acc + ", format: "@; }
    push_opt_quoted(out, &v.format);
    proof { lemma_concat_associative(start, acc, opt_quoted(v.format)); acc = acc + opt_quoted(v.format); }
    out.append(", limit: ");
    proof { lemma_concat_associative(start, acc, ", limit: "@); acc = acc + ", limit: "@; }
    push_opt_number(out, v.limit);
    proof { lemma_concat_associative(start, acc, opt_number(v.limit)); acc = acc + opt_number(v.limit); }
    out.append(", offset: ");
    proof { lemma_concat_associative(start, acc, ", offset: "@); acc = acc + ", offset: "@; }
    push_opt_number(out, v.offset);
    proof { lemma_concat_associative(start, acc, opt_number(v.offset)); acc = acc + opt_number(v.offset); }
    out.append(", sort: ");
    proof { lemma_concat_associative(start, acc, ", sort: "@); acc = acc + ", sort: "@; }
    push_opt_quoted(out, &v.sort);
    proof { lemma_concat_associative(start, acc, opt_quoted(v.sort)); acc = acc + opt_quoted(v.sort); }
    out.append(", count: ");
    proof { lemma_concat_associative(start, acc, ", count: "@); acc = acc + ", count: "@; }
    push_flag(out, v.count);
    proof { lemma_concat_associative(start, acc, flag_text(v.count)); acc = acc + flag_text(v.count); }
    out.append(", json: ");
    proof { lemma_concat_associative(start, acc, ", json: "@); acc = acc + ", json: "@; }
    push_flag(out, v.json);
    proof { lemma_concat_associative(start, acc, flag_text(v.json)); acc = acc + flag_text(v.json); }
    out.append(" }");
    proof { lemma_concat_associative(start, acc, " }"@); acc = acc + " }"@; }
}

fn push_setup_args(out: &mut String, v: &SetupArgs)
    ensures
        final(out)@ == old(out)@ + setup_args_text(*v),
{
    let ghost start = out@;
    out.append("SetupArgs { version: ");
    let ghost mut acc: Seq<char> = "SetupArgs { version: "@;
    push_opt_quoted(out, &v.version);
    proof { lemma_concat_associative(start, acc, opt_quoted(v.version)); acc = acc + opt_quoted(v.version); }
    out.append(", dir: ");
    proof { lemma_concat_associative(start, acc, ", dir: "@); acc = acc + ", dir: "@; }
    push_opt_quoted(out, &v.dir);
    proof { lemma_concat_associative(start, acc, opt_quoted(v.dir)); acc = acc + opt_quoted(v.dir); }
    out.append(", force: ");
    proof { lemma_concat_associative(start, acc, ", force: "@); acc = acc + ", force: "@; }
    push_flag(out, v.force);
    proof { lemma_concat_associative(start, acc, flag_text(v.force)); acc = acc + flag_text(v.force); }
    out.append(" }");
    proof { lemma_concat_associative(start, acc, " }"@); acc = acc + " }"@; }
}

/// The text of a command.
pub fn command_text(c: &Commands) -> (r: String)
    ensures
        r@ == commands_text(*c),
{
    let mut s = String::new();
    push_commands(&mut s, c);
    assert(s@ =~= commands_text(*c));
    s
}

} // verus!
