//! Which bridge command each CLI command becomes when the daemon
//! executes it, and how the bridge's reply is turned into output.
//!
//! The daemon sends a named command with a JSON object of arguments to
//! the Ghidra bridge. Commands handled by a dedicated handler need a
//! running bridge before anything else is looked at; the few that map
//! straight onto a bridge query are checked for support first. A reply
//! whose status is `success` yields its data (or a fixed acknowledgement);
//! any other reply yields its message, or a default one.

use vstd::prelude::*;
use crate::cli::{
    chosen_target, Commands, CommentCommands, DiffCommands, FindCommands, GraphCommands,
    MemoryCommands, PatchCommands, ProgramCommands, ScriptCommands, SymbolCommands, TypeCommands,
    XRefCommands,
};
use vstd::string::StrSliceExecFns;
use crate::command_text::{command_text, commands_text};
use crate::text::{lines_of, str_eq, text_lines, texts, trim, trimmed_of};

verus! {

/// The value of one argument of a bridge command.
pub enum ArgValue {
    /// A JSON string.
    Text(String),
    /// A JSON string, or `null`.
    MaybeText(Option<String>),
    /// A JSON number.
    Count(usize),
    /// A JSON number, or `null`.
    MaybeCount(Option<usize>),
    /// A JSON array of strings.
    TextList(Vec<String>),
}

/// What a successful reply is turned into.
pub enum SuccessReply {
    /// The reply's data (an empty object when it has none), pretty-printed.
    PrettyData,
    /// The reply's data, on one line.
    CompactData,
    /// A fixed acknowledgement: a JSON object of these string fields.
    Fixed(Vec<(String, String)>),
}

/// A command for the bridge and the handling of its reply.
pub struct BridgeCall {
    /// The bridge command's name.
    pub command: String,
    /// Its arguments as a JSON object, or none at all.
    pub args: Option<Vec<(String, ArgValue)>>,
    /// What a successful reply becomes.
    pub reply: SuccessReply,
    /// The context added to a transport error.
    pub context: String,
    /// The message used when a failed reply carries none.
    pub failure: String,
}

/// What the daemon does for a CLI command.
pub enum Route {
    /// Send a command to the bridge.
    Call(BridgeCall),
    /// Read and report the batch file at this path.
    Batch(String),
}

/// The state of the bridge when the command arrives.
#[derive(Clone, Copy, Debug, PartialEq, Eq, Structural)]
pub enum BridgeState {
    /// No bridge has been started.
    Absent,
    /// A bridge was started and has exited.
    Stopped,
    /// The bridge is running.
    Running,
}

/// An argument value taken by its text.
pub enum ArgView {
    Text(Seq<char>),
    MaybeText(Option<Seq<char>>),
    Count(usize),
    MaybeCount(Option<usize>),
    TextList(Seq<Seq<char>>),
}

/// A success reply taken by its text.
pub enum ReplyView {
    PrettyData,
    CompactData,
    Fixed(Seq<(Seq<char>, Seq<char>)>),
}

/// A bridge call taken by its text.
pub struct CallView {
    pub command: Seq<char>,
    pub args: Option<Seq<(Seq<char>, ArgView)>>,
    pub reply: ReplyView,
    pub context: Seq<char>,
    pub failure: Seq<char>,
}

/// A route taken by its text.
pub enum RouteView {
    Call(CallView),
    Batch(Seq<char>),
}

/// The text of an optional string.
pub open spec fn opt_text(o: Option<String>) -> Option<Seq<char>> {
    match o {
        Some(s) => Some(s@),
        None => None,
    }
}

/// The view of an argument value.
pub open spec fn arg_view(a: ArgValue) -> ArgView {
    match a {
        ArgValue::Text(s) => ArgView::Text(s@),
        ArgValue::MaybeText(o) => ArgView::MaybeText(opt_text(o)),
        ArgValue::Count(n) => ArgView::Count(n),
        ArgValue::MaybeCount(o) => ArgView::MaybeCount(o),
        ArgValue::TextList(v) => ArgView::TextList(texts(v@)),
    }
}

/// The view of an argument list.
pub open spec fn args_view(v: Seq<(String, ArgValue)>) -> Seq<(Seq<char>, ArgView)> {
    v.map_values(|p: (String, ArgValue)| (p.0@, arg_view(p.1)))
}

/// The view of a success reply.
pub open spec fn reply_view(r: SuccessReply) -> ReplyView {
    match r {
        SuccessReply::PrettyData => ReplyView::PrettyData,
        SuccessReply::CompactData => ReplyView::CompactData,
        SuccessReply::Fixed(v) => ReplyView::Fixed(v@.map_values(|p: (String, String)| (p.0@, p.1@))),
    }
}

/// The view of a route.
pub open spec fn route_view(r: Route) -> RouteView {
    match r {
        Route::Call(c) => RouteView::Call(
            CallView {
                command: c.command@,
                args: match c.args {
                    Some(v) => Some(args_view(v@)),
                    None => None,
                },
                reply: reply_view(c.reply),
                context: c.context@,
                failure: c.failure@,
            },
        ),
        Route::Batch(p) => RouteView::Batch(p@),
    }
}

/// The view of a routing outcome.
pub open spec fn outcome_view(r: Result<Route, String>) -> Result<RouteView, Seq<char>> {
    match r {
        Ok(route) => Ok(route_view(route)),
        Err(e) => Err(e@),
    }
}

/// Why a command cannot reach the bridge in its current state.
pub open spec fn bridge_refusal(b: BridgeState) -> Option<Seq<char>> {
    match b {
        BridgeState::Absent => Some("Bridge not initialized"@),
        BridgeState::Stopped => Some("Bridge is not running"@),
        BridgeState::Running => None,
    }
}

/// `planned`, once the bridge is known to run.
pub open spec fn when_running(b: BridgeState, planned: Result<RouteView, Seq<char>>) -> Result<RouteView, Seq<char>> {
    match bridge_refusal(b) {
        Some(e) => Err(e),
        None => planned,
    }
}

/// A call made by a dedicated handler: its context and default failure
/// message are the same text.
pub open spec fn handler_call(
    command: Seq<char>,
    args: Option<Seq<(Seq<char>, ArgView)>>,
    reply: ReplyView,
    failure: Seq<char>,
) -> Result<RouteView, Seq<char>> {
    Ok(RouteView::Call(CallView { command, args, reply, context: failure, failure }))
}

/// A query sent straight to the bridge: pretty-printed data, and generic
/// messages.
pub open spec fn direct_call(command: Seq<char>, args: Option<Seq<(Seq<char>, ArgView)>>) -> Result<RouteView, Seq<char>> {
    Ok(
        RouteView::Call(
            CallView {
                command,
                args,
                reply: ReplyView::PrettyData,
                context: "Bridge command failed"@,
                failure: "Unknown error"@,
            },
        ),
    )
}

/// The target of a command that names it positionally or by flag; no
/// value when neither was given.
pub open spec fn target_arg(target: Option<String>, positional: Option<String>) -> ArgView {
    if target is Some || positional is Some {
        ArgView::MaybeText(Some(chosen_target(target, positional)))
    } else {
        ArgView::MaybeText(None)
    }
}

/// One argument.
pub open spec fn one(k: Seq<char>, v: ArgView) -> Seq<(Seq<char>, ArgView)> {
    seq![(k, v)]
}

/// A list with an optional argument appended.
pub open spec fn with_opt_text(base: Seq<(Seq<char>, ArgView)>, k: Seq<char>, v: Option<String>) -> Seq<(Seq<char>, ArgView)> {
    match v {
        Some(s) => base.push((k, ArgView::Text(s@))),
        None => base,
    }
}

/// A list with an optional count appended.
pub open spec fn with_opt_count(base: Seq<(Seq<char>, ArgView)>, k: Seq<char>, v: Option<usize>) -> Seq<(Seq<char>, ArgView)> {
    match v {
        Some(n) => base.push((k, ArgView::Count(n))),
        None => base,
    }
}

/// The route of a program-management command (bridge known to run).
pub open spec fn program_plan(c: ProgramCommands) -> Result<RouteView, Seq<char>> {
    match c {
        ProgramCommands::Close(_) => handler_call(
            "program_close"@,
            None,
            ReplyView::Fixed(seq![("status"@, "closed"@)]),
            "Failed to close program"@,
        ),
        ProgramCommands::Delete(a) => match a.program {
            None => Err("Program name required"@),
            Some(p) => handler_call(
                "program_delete"@,
                Some(one("program"@, ArgView::Text(p@))),
                ReplyView::Fixed(seq![("status"@, "deleted"@), ("program"@, p@)]),
                "Failed to delete program"@,
            ),
        },
        ProgramCommands::Info(_) => handler_call(
            "program_info"@,
            None,
            ReplyView::PrettyData,
            "Failed to get program info"@,
        ),
        ProgramCommands::Export(a) => handler_call(
            "program_export"@,
            Some(with_opt_text(one("format"@, ArgView::Text(a.format@)), "output"@, a.output)),
            ReplyView::PrettyData,
            "Failed to export program"@,
        ),
        _ => Err("Command not yet supported in daemon: "@ + commands_text(Commands::Program(c))),
    }
}

/// The route of a symbol command.
pub open spec fn symbol_plan(c: SymbolCommands) -> Result<RouteView, Seq<char>> {
    match c {
        SymbolCommands::List(o) => handler_call(
            "symbol_list"@,
            match o.filter {
                Some(f) => Some(one("filter"@, ArgView::Text(f@))),
                None => None,
            },
            ReplyView::PrettyData,
            "Failed to list symbols"@,
        ),
        SymbolCommands::Get(a) => handler_call(
            "symbol_get"@,
            Some(one("address"@, ArgView::Text(a.name@))),
            ReplyView::PrettyData,
            "Failed to get symbol"@,
        ),
        SymbolCommands::Create(a) => handler_call(
            "symbol_create"@,
            Some(one("address"@, ArgView::Text(a.address@)).push(("name"@, ArgView::Text(a.name@)))),
            ReplyView::Fixed(seq![("status"@, "created"@), ("address"@, a.address@), ("name"@, a.name@)]),
            "Failed to create symbol"@,
        ),
        SymbolCommands::Delete(a) => handler_call(
            "symbol_delete"@,
            Some(one("name"@, ArgView::Text(a.name@))),
            ReplyView::Fixed(seq![("status"@, "deleted"@), ("name"@, a.name@)]),
            "Failed to delete symbol"@,
        ),
        SymbolCommands::Rename(a) => handler_call(
            "symbol_rename"@,
            Some(
                one("old_name"@, ArgView::Text(a.old_name@)).push(
                    ("new_name"@, ArgView::Text(a.new_name@)),
                ),
            ),
            ReplyView::Fixed(
                seq![("status"@, "renamed"@), ("old_name"@, a.old_name@), ("new_name"@, a.new_name@)],
            ),
            "Failed to rename symbol"@,
        ),
    }
}

/// The route of a type command.
pub open spec fn type_plan(c: TypeCommands) -> Result<RouteView, Seq<char>> {
    match c {
        TypeCommands::List(_) => handler_call(
            "type_list"@,
            None,
            ReplyView::CompactData,
            "Failed to list types"@,
        ),
        TypeCommands::Get(a) => handler_call(
            "type_get"@,
            Some(one("name"@, ArgView::Text(a.name@))),
            ReplyView::CompactData,
            "Failed to get type"@,
        ),
        TypeCommands::Create(a) => handler_call(
            "type_create"@,
            Some(one("name"@, ArgView::Text(a.definition@))),
            ReplyView::Fixed(seq![("status"@, "created"@), ("name"@, a.definition@)]),
            "Failed to create type"@,
        ),
        TypeCommands::Apply(a) => handler_call(
            "type_apply"@,
            Some(
                one("address"@, ArgView::Text(a.address@)).push(
                    ("type_name"@, ArgView::Text(a.data_type@)),
                ),
            ),
            ReplyView::Fixed(
                seq![("status"@, "applied"@), ("address"@, a.address@), ("type"@, a.data_type@)],
            ),
            "Failed to apply type"@,
        ),
    }
}

/// The route of a comment command.
pub open spec fn comment_plan(c: CommentCommands) -> Result<RouteView, Seq<char>> {
    match c {
        CommentCommands::List(_) => handler_call(
            "comment_list"@,
            None,
            ReplyView::CompactData,
            "Failed to list comments"@,
        ),
        CommentCommands::Get(a) => handler_call(
            "comment_get"@,
            Some(one("address"@, ArgView::Text(a.address@))),
            ReplyView::CompactData,
            "Failed to get comment"@,
        ),
        CommentCommands::SetText(a) => handler_call(
            "comment_set"@,
            Some(
                with_opt_text(
                    one("address"@, ArgView::Text(a.address@)).push(("text"@, ArgView::Text(a.text@))),
                    "comment_type"@,
                    a.comment_type,
                ),
            ),
            ReplyView::Fixed(seq![("status"@, "set"@), ("address"@, a.address@)]),
            "Failed to set comment"@,
        ),
        CommentCommands::Delete(a) => handler_call(
            "comment_delete"@,
            Some(one("address"@, ArgView::Text(a.address@))),
            ReplyView::Fixed(seq![("status"@, "deleted"@), ("address"@, a.address@)]),
            "Failed to delete comment"@,
        ),
    }
}

/// The route of a call-graph command.
pub open spec fn graph_plan(c: GraphCommands) -> Result<RouteView, Seq<char>> {
    match c {
        GraphCommands::Calls(o) => handler_call(
            "graph_calls"@,
            match o.limit {
                Some(l) => Some(one("limit"@, ArgView::Count(l))),
                None => None,
            },
            ReplyView::PrettyData,
            "Failed to get call graph"@,
        ),
        GraphCommands::Callers(a) => handler_call(
            "graph_callers"@,
            Some(
                with_opt_count(
                    one("function"@, target_arg(a.target, a.positional_target)),
                    "depth"@,
                    a.depth,
                ),
            ),
            ReplyView::PrettyData,
            "Failed to get callers"@,
        ),
        GraphCommands::Callees(a) => handler_call(
            "graph_callees"@,
            Some(
                with_opt_count(
                    one("function"@, target_arg(a.target, a.positional_target)),
                    "depth"@,
                    a.depth,
                ),
            ),
            ReplyView::PrettyData,
            "Failed to get callees"@,
        ),
        GraphCommands::Export(a) => handler_call(
            "graph_export"@,
            Some(one("format"@, ArgView::Text(a.format@))),
            ReplyView::PrettyData,
            "Failed to export graph"@,
        ),
    }
}

/// The route of a search command.
pub open spec fn find_plan(c: FindCommands) -> Result<RouteView, Seq<char>> {
    match c {
        FindCommands::String(a) => handler_call(
            "find_string"@,
            Some(one("pattern"@, ArgView::Text(a.pattern@))),
            ReplyView::CompactData,
            "Failed to find string"@,
        ),
        FindCommands::Bytes(a) => handler_call(
            "find_bytes"@,
            Some(one("hex"@, ArgView::Text(a.hex@))),
            ReplyView::CompactData,
            "Failed to find bytes"@,
        ),
        FindCommands::Function(a) => handler_call(
            "find_function"@,
            Some(one("pattern"@, ArgView::Text(a.pattern@))),
            ReplyView::CompactData,
            "Failed to find function"@,
        ),
        FindCommands::Calls(a) => handler_call(
            "find_calls"@,
            Some(one("function"@, target_arg(a.target, a.positional_target))),
            ReplyView::CompactData,
            "Failed to find calls"@,
        ),
        FindCommands::Crypto(_) => handler_call(
            "find_crypto"@,
            None,
            ReplyView::CompactData,
            "Failed to find crypto constants"@,
        ),
        FindCommands::Interesting(_) => handler_call(
            "find_interesting"@,
            None,
            ReplyView::CompactData,
            "Failed to find interesting functions"@,
        ),
    }
}

/// The route of a diff command.
pub open spec fn diff_plan(c: DiffCommands) -> Result<RouteView, Seq<char>> {
    match c {
        DiffCommands::Programs(a) => handler_call(
            "diff_programs"@,
            Some(one("prog1"@, ArgView::Text(a.program1@)).push(("prog2"@, ArgView::Text(a.program2@)))),
            ReplyView::PrettyData,
            "Failed to diff programs"@,
        ),
        DiffCommands::Functions(a) => handler_call(
            "diff_functions"@,
            Some(one("func1"@, ArgView::Text(a.func1@)).push(("func2"@, ArgView::Text(a.func2@)))),
            ReplyView::PrettyData,
            "Failed to diff functions"@,
        ),
    }
}

/// The route of a patch command.
pub open spec fn patch_plan(c: PatchCommands) -> Result<RouteView, Seq<char>> {
    match c {
        PatchCommands::Bytes(a) => handler_call(
            "patch_bytes"@,
            Some(one("address"@, ArgView::Text(a.address@)).push(("hex"@, ArgView::Text(a.hex@)))),
            ReplyView::CompactData,
            "Failed to patch bytes"@,
        ),
        PatchCommands::Nop(a) => handler_call(
            "patch_nop"@,
            Some(one("address"@, ArgView::Text(a.address@))),
            ReplyView::CompactData,
            "Failed to patch NOP"@,
        ),
        PatchCommands::Export(a) => handler_call(
            "patch_export"@,
            Some(one("output"@, ArgView::Text(a.output@))),
            ReplyView::CompactData,
            "Failed to export patched binary"@,
        ),
    }
}

/// The route of a script command.
pub open spec fn script_plan(c: ScriptCommands) -> Result<RouteView, Seq<char>> {
    match c {
        ScriptCommands::Run(a) => handler_call(
            "script_run"@,
            Some(one("path"@, ArgView::Text(a.script_path@)).push(("args"@, ArgView::TextList(texts(a.args@))))),
            ReplyView::PrettyData,
            "Failed to run script"@,
        ),
        ScriptCommands::Python(a) => handler_call(
            "script_python"@,
            Some(one("code"@, ArgView::Text(a.code@))),
            ReplyView::PrettyData,
            "Failed to execute Python code"@,
        ),
        ScriptCommands::Java(a) => handler_call(
            "script_java"@,
            Some(one("code"@, ArgView::Text(a.code@))),
            ReplyView::PrettyData,
            "Failed to execute Java code"@,
        ),
        ScriptCommands::List => handler_call(
            "script_list"@,
            None,
            ReplyView::PrettyData,
            "Failed to list scripts"@,
        ),
    }
}

/// What the daemon does for `command` when the bridge is in state `b`.
pub open spec fn planned_route(command: Commands, b: BridgeState) -> Result<RouteView, Seq<char>> {
    match command {
        Commands::Query(q) => if q.data_type@ == "functions"@ {
            when_running(
                b,
                direct_call(
                    "list_functions"@,
                    Some(
                        one("limit"@, ArgView::MaybeCount(q.limit)).push(
                            ("filter"@, ArgView::MaybeText(opt_text(q.filter))),
                        ),
                    ),
                ),
            )
        } else if q.data_type@ == "strings"@ {
            when_running(b, direct_call("list_strings"@, Some(one("limit"@, ArgView::MaybeCount(q.limit)))))
        } else if q.data_type@ == "imports"@ {
            when_running(b, direct_call("list_imports"@, None))
        } else if q.data_type@ == "exports"@ {
            when_running(b, direct_call("list_exports"@, None))
        } else {
            Err("Unknown query type: "@ + q.data_type@)
        },
        Commands::Decompile(a) => when_running(
            b,
            direct_call("decompile"@, Some(one("address"@, target_arg(a.target, a.positional_target)))),
        ),
        Commands::Memory(m) => match m {
            MemoryCommands::MemoryMap(_) => when_running(b, direct_call("memory_map"@, None)),
            _ => Err("Memory command not yet supported in daemon"@),
        },
        Commands::XRef(x) => match x {
            XRefCommands::To(a) => when_running(
                b,
                direct_call("xrefs_to"@, Some(one("address"@, target_arg(a.target, a.positional_target)))),
            ),
            XRefCommands::From(a) => when_running(
                b,
                direct_call("xrefs_from"@, Some(one("address"@, target_arg(a.target, a.positional_target)))),
            ),
            XRefCommands::List(_) => Err("XRef List not yet supported"@),
        },
        Commands::Program(c) => when_running(b, program_plan(c)),
        Commands::Symbol(c) => when_running(b, symbol_plan(c)),
        Commands::Type(c) => when_running(b, type_plan(c)),
        Commands::Comment(c) => when_running(b, comment_plan(c)),
        Commands::Graph(c) => when_running(b, graph_plan(c)),
        Commands::Find(c) => when_running(b, find_plan(c)),
        Commands::Diff(c) => when_running(b, diff_plan(c)),
        Commands::Patch(c) => when_running(b, patch_plan(c)),
        Commands::Script(c) => when_running(b, script_plan(c)),
        Commands::Disasm(a) => when_running(
            b,
            handler_call(
                "disasm"@,
                Some(
                    with_opt_count(
                        one("address"@, target_arg(a.target, a.positional_target)),
                        "count"@,
                        a.num_instructions,
                    ),
                ),
                ReplyView::PrettyData,
                "Failed to disassemble"@,
            ),
        ),
        Commands::Batch(a) => Ok(RouteView::Batch(a.script_file@)),
        Commands::Stats(_) => when_running(
            b,
            handler_call("stats"@, None, ReplyView::CompactData, "Failed to get program statistics"@),
        ),
        Commands::Summary(_) => when_running(b, direct_call("program_info"@, None)),
        _ => Err("Command not yet supported in daemon: "@ + commands_text(command)),
    }
}

/// A copy of a string.
fn copy_text(s: &String) -> (r: String)
    ensures
        r@ == s@,
{
    s.clone()
}

/// A copy of an optional string.
fn copy_opt_text(o: &Option<String>) -> (r: Option<String>)
    ensures
        opt_text(r) == opt_text(*o),
{
    match o {
        Some(s) => Some(s.clone()),
        None => None,
    }
}

/// A copy of a list of strings.
fn copy_texts(v: &Vec<String>) -> (r: Vec<String>)
    ensures
        texts(r@) == texts(v@),
{
    let mut out: Vec<String> = Vec::new();
    let mut i: usize = 0;
    while i < v.len()
        invariant
            i <= v.len(),
            texts(out@) =~= texts(v@.take(i as int)),
        decreases v.len() - i,
    {
        let c = copy_text(&v[i]);
        let ghost prev = out@;
        out.push(c);
        assert(texts(out@) =~= texts(prev).push(v@[i as int]@));
        assert(texts(v@.take(i + 1)) =~= texts(v@.take(i as int)).push(v@[i as int]@));
        i += 1;
    }
    assert(v@.take(v.len() as int) =~= v@);
    out
}

/// One argument list entry.
fn arg(key: &str, value: ArgValue) -> (r: (String, ArgValue))
    ensures
        r.0@ == key@,
        r.1 == value,
{
    (key.to_owned(), value)
}

/// A list of one argument.
fn one_arg(key: &str, value: ArgValue) -> (r: Vec<(String, ArgValue)>)
    ensures
        args_view(r@) == one(key@, arg_view(value)),
{
    let mut v: Vec<(String, ArgValue)> = Vec::new();
    let ghost view = arg_view(value);
    v.push(arg(key, value));
    assert(args_view(v@) =~= one(key@, view));
    v
}

/// Appends an argument.
fn push_arg(v: &mut Vec<(String, ArgValue)>, key: &str, value: ArgValue)
    ensures
        args_view(final(v)@) == args_view(old(v)@).push((key@, arg_view(value))),
{
    let ghost view = arg_view(value);
    v.push(arg(key, value));
    assert(args_view(v@) =~= args_view(old(v)@).push((key@, view)));
}

/// Appends a string argument when present.
fn push_opt_text(v: &mut Vec<(String, ArgValue)>, key: &str, value: &Option<String>)
    ensures
        args_view(final(v)@) == with_opt_text(args_view(old(v)@), key@, *value),
{
    if let Some(s) = value {
        push_arg(v, key, ArgValue::Text(s.clone()));
    }
}

/// Appends a count argument when present.
fn push_opt_count(v: &mut Vec<(String, ArgValue)>, key: &str, value: Option<usize>)
    ensures
        args_view(final(v)@) == with_opt_count(args_view(old(v)@), key@, value),
{
    if let Some(n) = value {
        push_arg(v, key, ArgValue::Count(n));
    }
}

/// The argument naming a command's target.
fn target_value(target: &Option<String>, positional: &Option<String>) -> (r: ArgValue)
    ensures
        arg_view(r) == target_arg(*target, *positional),
{
    match target {
        Some(t) => ArgValue::MaybeText(Some(t.clone())),
        None => match positional {
            Some(p) => ArgValue::MaybeText(Some(p.clone())),
            None => ArgValue::MaybeText(None),
        },
    }
}

/// A fixed acknowledgement of string fields.
fn fixed(fields: Vec<(String, String)>) -> (r: SuccessReply)
    ensures
        r == SuccessReply::Fixed(fields),
{
    SuccessReply::Fixed(fields)
}

/// One acknowledgement field.
fn field(key: &str, value: &str) -> (r: (String, String))
    ensures
        r.0@ == key@,
        r.1@ == value@,
{
    (key.to_owned(), value.to_owned())
}

/// A call made by a dedicated handler.
fn handler(command: &str, args: Option<Vec<(String, ArgValue)>>, reply: SuccessReply, failure: &str) -> (r: Result<Route, String>)
    ensures
        outcome_view(r) == handler_call(
            command@,
            match args {
                Some(v) => Some(args_view(v@)),
                None => None,
            },
            reply_view(reply),
            failure@,
        ),
{
    Ok(
        Route::Call(
            BridgeCall {
                command: command.to_owned(),
                args,
                reply,
                context: failure.to_owned(),
                failure: failure.to_owned(),
            },
        ),
    )
}

/// A query sent straight to the bridge.
fn direct(command: &str, args: Option<Vec<(String, ArgValue)>>) -> (r: Result<Route, String>)
    ensures
        outcome_view(r) == direct_call(
            command@,
            match args {
                Some(v) => Some(args_view(v@)),
                None => None,
            },
        ),
{
    Ok(
        Route::Call(
            BridgeCall {
                command: command.to_owned(),
                args,
                reply: SuccessReply::PrettyData,
                context: "Bridge command failed".to_owned(),
                failure: "Unknown error".to_owned(),
            },
        ),
    )
}

/// Why the bridge cannot take a command now.
fn refusal(b: BridgeState) -> (r: Option<String>)
    ensures
        opt_text(r) == bridge_refusal(b),
{
    match b {
        BridgeState::Absent => Some("Bridge not initialized".to_owned()),
        BridgeState::Stopped => Some("Bridge is not running".to_owned()),
        BridgeState::Running => None,
    }
}

/// The route of a program-management command.
fn program_route(c: &ProgramCommands, command: &Commands) -> (r: Result<Route, String>)
    requires
        *command == Commands::Program(*c),
    ensures
        outcome_view(r) == program_plan(*c),
{
    match c {
        ProgramCommands::Close(_) => {
            let mut f: Vec<(String, String)> = Vec::new();
            f.push(field("status", "closed"));
            let ghost fv = f@;
            let r = handler("program_close", None, fixed(f), "Failed to close program");
            assert(fv.map_values(|p: (String, String)| (p.0@, p.1@)) =~= seq![("status"@, "closed"@)]);
            r
        },
        ProgramCommands::Delete(a) => match &a.program {
            None => Err("Program name required".to_owned()),
            Some(p) => {
                let mut f: Vec<(String, String)> = Vec::new();
                f.push(field("status", "deleted"));
                f.push(field("program", p.as_str()));
                let ghost fv = f@;
                let r = handler(
                    "program_delete",
                    Some(one_arg("program", ArgValue::Text(p.clone()))),
                    fixed(f),
                    "Failed to delete program",
                );
                assert(fv.map_values(|q: (String, String)| (q.0@, q.1@)) =~= seq![
                    ("status"@, "deleted"@),
                    ("program"@, p@),
                ]);
                r
            },
        },
        ProgramCommands::Info(_) => handler("program_info", None, SuccessReply::PrettyData, "Failed to get program info"),
        ProgramCommands::Export(a) => {
            let mut args = one_arg("format", ArgValue::Text(a.format.clone()));
            push_opt_text(&mut args, "output", &a.output);
            handler("program_export", Some(args), SuccessReply::PrettyData, "Failed to export program")
        },
        _ => {
            let mut m = "Command not yet supported in daemon: ".to_owned();
            let d = command_text(command);
            m.append(d.as_str());
            Err(m)
        },
    }
}

/// An acknowledgement with one field.
fn ack1(k1: &str, v1: &str) -> (r: SuccessReply)
    ensures
        reply_view(r) == ReplyView::Fixed(seq![(k1@, v1@)]),
{
    let mut f: Vec<(String, String)> = Vec::new();
    f.push(field(k1, v1));
    let ghost fv = f@;
    let r = SuccessReply::Fixed(f);
    assert(fv.map_values(|p: (String, String)| (p.0@, p.1@)) =~= seq![(k1@, v1@)]);
    r
}

/// An acknowledgement with two fields.
fn ack2(k1: &str, v1: &str, k2: &str, v2: &str) -> (r: SuccessReply)
    ensures
        reply_view(r) == ReplyView::Fixed(seq![(k1@, v1@), (k2@, v2@)]),
{
    let mut f: Vec<(String, String)> = Vec::new();
    f.push(field(k1, v1));
    f.push(field(k2, v2));
    let ghost fv = f@;
    let r = SuccessReply::Fixed(f);
    assert(fv.map_values(|p: (String, String)| (p.0@, p.1@)) =~= seq![(k1@, v1@), (k2@, v2@)]);
    r
}

/// An acknowledgement with three fields.
fn ack3(k1: &str, v1: &str, k2: &str, v2: &str, k3: &str, v3: &str) -> (r: SuccessReply)
    ensures
        reply_view(r) == ReplyView::Fixed(seq![(k1@, v1@), (k2@, v2@), (k3@, v3@)]),
{
    let mut f: Vec<(String, String)> = Vec::new();
    f.push(field(k1, v1));
    f.push(field(k2, v2));
    f.push(field(k3, v3));
    let ghost fv = f@;
    let r = SuccessReply::Fixed(f);
    assert(fv.map_values(|p: (String, String)| (p.0@, p.1@)) =~= seq![
        (k1@, v1@),
        (k2@, v2@),
        (k3@, v3@),
    ]);
    r
}

/// Two text arguments.
fn two_args(k1: &str, v1: &String, k2: &str, v2: &String) -> (r: Vec<(String, ArgValue)>)
    ensures
        args_view(r@) == one(k1@, ArgView::Text(v1@)).push((k2@, ArgView::Text(v2@))),
{
    let mut a = one_arg(k1, ArgValue::Text(copy_text(v1)));
    push_arg(&mut a, k2, ArgValue::Text(copy_text(v2)));
    a
}

/// The route of a symbol command.
fn symbol_route(c: &SymbolCommands) -> (r: Result<Route, String>)
    ensures
        outcome_view(r) == symbol_plan(*c),
{
    match c {
        SymbolCommands::List(o) => {
            let args = match &o.filter {
                Some(f) => Some(one_arg("filter", ArgValue::Text(copy_text(f)))),
                None => None,
            };
            handler("symbol_list", args, SuccessReply::PrettyData, "Failed to list symbols")
        },
        SymbolCommands::Get(a) => handler(
            "symbol_get",
            Some(one_arg("address", ArgValue::Text(copy_text(&a.name)))),
            SuccessReply::PrettyData,
            "Failed to get symbol",
        ),
        SymbolCommands::Create(a) => handler(
            "symbol_create",
            Some(two_args("address", &a.address, "name", &a.name)),
            ack3("status", "created", "address", a.address.as_str(), "name", a.name.as_str()),
            "Failed to create symbol",
        ),
        SymbolCommands::Delete(a) => handler(
            "symbol_delete",
            Some(one_arg("name", ArgValue::Text(copy_text(&a.name)))),
            ack2("status", "deleted", "name", a.name.as_str()),
            "Failed to delete symbol",
        ),
        SymbolCommands::Rename(a) => handler(
            "symbol_rename",
            Some(two_args("old_name", &a.old_name, "new_name", &a.new_name)),
            ack3("status", "renamed", "old_name", a.old_name.as_str(), "new_name", a.new_name.as_str()),
            "Failed to rename symbol",
        ),
    }
}

/// The route of a type command.
fn type_route(c: &TypeCommands) -> (r: Result<Route, String>)
    ensures
        outcome_view(r) == type_plan(*c),
{
    match c {
        TypeCommands::List(_) => handler("type_list", None, SuccessReply::CompactData, "Failed to list types"),
        TypeCommands::Get(a) => handler(
            "type_get",
            Some(one_arg("name", ArgValue::Text(copy_text(&a.name)))),
            SuccessReply::CompactData,
            "Failed to get type",
        ),
        TypeCommands::Create(a) => handler(
            "type_create",
            Some(one_arg("name", ArgValue::Text(copy_text(&a.definition)))),
            ack2("status", "created", "name", a.definition.as_str()),
            "Failed to create type",
        ),
        TypeCommands::Apply(a) => handler(
            "type_apply",
            Some(two_args("address", &a.address, "type_name", &a.data_type)),
            ack3("status", "applied", "address", a.address.as_str(), "type", a.data_type.as_str()),
            "Failed to apply type",
        ),
    }
}

/// The route of a comment command.
fn comment_route(c: &CommentCommands) -> (r: Result<Route, String>)
    ensures
        outcome_view(r) == comment_plan(*c),
{
    match c {
        CommentCommands::List(_) => handler("comment_list", None, SuccessReply::CompactData, "Failed to list comments"),
        CommentCommands::Get(a) => handler(
            "comment_get",
            Some(one_arg("address", ArgValue::Text(copy_text(&a.address)))),
            SuccessReply::CompactData,
            "Failed to get comment",
        ),
        CommentCommands::SetText(a) => {
            let mut args = two_args("address", &a.address, "text", &a.text);
            push_opt_text(&mut args, "comment_type", &a.comment_type);
            handler("comment_set", Some(args), ack2("status", "set", "address", a.address.as_str()), "Failed to set comment")
        },
        CommentCommands::Delete(a) => handler(
            "comment_delete",
            Some(one_arg("address", ArgValue::Text(copy_text(&a.address)))),
            ack2("status", "deleted", "address", a.address.as_str()),
            "Failed to delete comment",
        ),
    }
}

/// The route of a call-graph command.
fn graph_route(c: &GraphCommands) -> (r: Result<Route, String>)
    ensures
        outcome_view(r) == graph_plan(*c),
{
    match c {
        GraphCommands::Calls(o) => {
            let args = match o.limit {
                Some(l) => Some(one_arg("limit", ArgValue::Count(l))),
                None => None,
            };
            handler("graph_calls", args, SuccessReply::PrettyData, "Failed to get call graph")
        },
        GraphCommands::Callers(a) => {
            let mut args = one_arg("function", target_value(&a.target, &a.positional_target));
            push_opt_count(&mut args, "depth", a.depth);
            handler("graph_callers", Some(args), SuccessReply::PrettyData, "Failed to get callers")
        },
        GraphCommands::Callees(a) => {
            let mut args = one_arg("function", target_value(&a.target, &a.positional_target));
            push_opt_count(&mut args, "depth", a.depth);
            handler("graph_callees", Some(args), SuccessReply::PrettyData, "Failed to get callees")
        },
        GraphCommands::Export(a) => handler(
            "graph_export",
            Some(one_arg("format", ArgValue::Text(copy_text(&a.format)))),
            SuccessReply::PrettyData,
            "Failed to export graph",
        ),
    }
}

/// The route of a search command.
fn find_route(c: &FindCommands) -> (r: Result<Route, String>)
    ensures
        outcome_view(r) == find_plan(*c),
{
    match c {
        FindCommands::String(a) => handler(
            "find_string",
            Some(one_arg("pattern", ArgValue::Text(copy_text(&a.pattern)))),
            SuccessReply::CompactData,
            "Failed to find string",
        ),
        FindCommands::Bytes(a) => handler(
            "find_bytes",
            Some(one_arg("hex", ArgValue::Text(copy_text(&a.hex)))),
            SuccessReply::CompactData,
            "Failed to find bytes",
        ),
        FindCommands::Function(a) => handler(
            "find_function",
            Some(one_arg("pattern", ArgValue::Text(copy_text(&a.pattern)))),
            SuccessReply::CompactData,
            "Failed to find function",
        ),
        FindCommands::Calls(a) => handler(
            "find_calls",
            Some(one_arg("function", target_value(&a.target, &a.positional_target))),
            SuccessReply::CompactData,
            "Failed to find calls",
        ),
        FindCommands::Crypto(_) => handler("find_crypto", None, SuccessReply::CompactData, "Failed to find crypto constants"),
        FindCommands::Interesting(_) => handler(
            "find_interesting",
            None,
            SuccessReply::CompactData,
            "Failed to find interesting functions",
        ),
    }
}

/// The route of a diff command.
fn diff_route(c: &DiffCommands) -> (r: Result<Route, String>)
    ensures
        outcome_view(r) == diff_plan(*c),
{
    match c {
        DiffCommands::Programs(a) => handler(
            "diff_programs",
            Some(two_args("prog1", &a.program1, "prog2", &a.program2)),
            SuccessReply::PrettyData,
            "Failed to diff programs",
        ),
        DiffCommands::Functions(a) => handler(
            "diff_functions",
            Some(two_args("func1", &a.func1, "func2", &a.func2)),
            SuccessReply::PrettyData,
            "Failed to diff functions",
        ),
    }
}

/// The route of a patch command.
fn patch_route(c: &PatchCommands) -> (r: Result<Route, String>)
    ensures
        outcome_view(r) == patch_plan(*c),
{
    match c {
        PatchCommands::Bytes(a) => handler(
            "patch_bytes",
            Some(two_args("address", &a.address, "hex", &a.hex)),
            SuccessReply::CompactData,
            "Failed to patch bytes",
        ),
        PatchCommands::Nop(a) => handler(
            "patch_nop",
            Some(one_arg("address", ArgValue::Text(copy_text(&a.address)))),
            SuccessReply::CompactData,
            "Failed to patch NOP",
        ),
        PatchCommands::Export(a) => handler(
            "patch_export",
            Some(one_arg("output", ArgValue::Text(copy_text(&a.output)))),
            SuccessReply::CompactData,
            "Failed to export patched binary",
        ),
    }
}

/// The route of a script command.
fn script_route(c: &ScriptCommands) -> (r: Result<Route, String>)
    ensures
        outcome_view(r) == script_plan(*c),
{
    match c {
        ScriptCommands::Run(a) => {
            let mut args = one_arg("path", ArgValue::Text(copy_text(&a.script_path)));
            push_arg(&mut args, "args", ArgValue::TextList(copy_texts(&a.args)));
            handler("script_run", Some(args), SuccessReply::PrettyData, "Failed to run script")
        },
        ScriptCommands::Python(a) => handler(
            "script_python",
            Some(one_arg("code", ArgValue::Text(copy_text(&a.code)))),
            SuccessReply::PrettyData,
            "Failed to execute Python code",
        ),
        ScriptCommands::Java(a) => handler(
            "script_java",
            Some(one_arg("code", ArgValue::Text(copy_text(&a.code)))),
            SuccessReply::PrettyData,
            "Failed to execute Java code",
        ),
        ScriptCommands::List => handler("script_list", None, SuccessReply::PrettyData, "Failed to list scripts"),
    }
}

/// `planned`, unless the bridge cannot take commands.
fn guarded(b: BridgeState, planned: Result<Route, String>) -> (r: Result<Route, String>)
    ensures
        outcome_view(r) == when_running(b, outcome_view(planned)),
{
    match refusal(b) {
        Some(e) => Err(e),
        None => planned,
    }
}

/// What the daemon does for `command` when the bridge is in state
/// `bridge`.
pub fn route_command(command: &Commands, bridge: BridgeState) -> (r: Result<Route, String>)
    ensures
        outcome_view(r) == planned_route(*command, bridge),
{
    match command {
        Commands::Query(q) => {
            let t = q.data_type.as_str();
            if str_eq(t, "functions") {
                let mut args = one_arg("limit", ArgValue::MaybeCount(q.limit));
                push_arg(&mut args, "filter", ArgValue::MaybeText(copy_opt_text(&q.filter)));
                guarded(bridge, direct("list_functions", Some(args)))
            } else if str_eq(t, "strings") {
                guarded(bridge, direct("list_strings", Some(one_arg("limit", ArgValue::MaybeCount(q.limit)))))
            } else if str_eq(t, "imports") {
                guarded(bridge, direct("list_imports", None))
            } else if str_eq(t, "exports") {
                guarded(bridge, direct("list_exports", None))
            } else {
                let mut m = "Unknown query type: ".to_owned();
                m.append(t);
                Err(m)
            }
        },
        Commands::Decompile(a) => guarded(
            bridge,
            direct("decompile", Some(one_arg("address", target_value(&a.target, &a.positional_target)))),
        ),
        Commands::Memory(m) => match m {
            MemoryCommands::MemoryMap(_) => guarded(bridge, direct("memory_map", None)),
            _ => Err("Memory command not yet supported in daemon".to_owned()),
        },
        Commands::XRef(x) => match x {
            XRefCommands::To(a) => guarded(
                bridge,
                direct("xrefs_to", Some(one_arg("address", target_value(&a.target, &a.positional_target)))),
            ),
            XRefCommands::From(a) => guarded(
                bridge,
                direct("xrefs_from", Some(one_arg("address", target_value(&a.target, &a.positional_target)))),
            ),
            XRefCommands::List(_) => Err("XRef List not yet supported".to_owned()),
        },
        Commands::Program(c) => guarded(bridge, program_route(c, command)),
        Commands::Symbol(c) => guarded(bridge, symbol_route(c)),
        Commands::Type(c) => guarded(bridge, type_route(c)),
        Commands::Comment(c) => guarded(bridge, comment_route(c)),
        Commands::Graph(c) => guarded(bridge, graph_route(c)),
        Commands::Find(c) => guarded(bridge, find_route(c)),
        Commands::Diff(c) => guarded(bridge, diff_route(c)),
        Commands::Patch(c) => guarded(bridge, patch_route(c)),
        Commands::Script(c) => guarded(bridge, script_route(c)),
        Commands::Disasm(a) => {
            let mut args = one_arg("address", target_value(&a.target, &a.positional_target));
            push_opt_count(&mut args, "count", a.num_instructions);
            guarded(bridge, handler("disasm", Some(args), SuccessReply::PrettyData, "Failed to disassemble"))
        },
        Commands::Batch(a) => Ok(Route::Batch(copy_text(&a.script_file))),
        Commands::Stats(_) => guarded(
            bridge,
            handler("stats", None, SuccessReply::CompactData, "Failed to get program statistics"),
        ),
        Commands::Summary(_) => guarded(bridge, direct("program_info", None)),
        _ => {
            let mut m = "Command not yet supported in daemon: ".to_owned();
            let d = command_text(command);
            m.append(d.as_str());
            Err(m)
        },
    }
}

/// The outcome of a bridge reply with status `status` and message
/// `message`: success exactly for the status `success`; otherwise the
/// reply's message, or the call's default failure message.
pub fn reply_outcome(call: &BridgeCall, status: &str, message: Option<String>) -> (r: Result<(), String>)
    ensures
        status@ == "success"@ ==> r is Ok,
        status@ != "success"@ ==> (r matches Err(m) && m@ == match message {
            Some(s) => s@,
            None => call.failure@,
        }),
{
    if str_eq(status, "success") {
        Ok(())
    } else {
        match message {
            Some(m) => Err(m),
            None => Err(copy_text(&call.failure)),
        }
    }
}

/// One command line of a batch file.
pub struct BatchEntry {
    /// 1-based line number in the file.
    pub line: usize,
    /// The line, trimmed.
    pub command: String,
}

/// The commands of a batch file given its lines: each trimmed line that
/// is neither empty nor a `#` comment, with its line number.
pub open spec fn batch_commands(lines: Seq<Seq<char>>) -> Seq<(nat, Seq<char>)>
    decreases lines.len(),
{
    if lines.len() == 0 {
        Seq::empty()
    } else {
        let rest = batch_commands(lines.drop_last());
        let t = trimmed_of(lines.last());
        if t.len() == 0 || t[0] == '#' {
            rest
        } else {
            rest.push((lines.len(), t))
        }
    }
}

/// The view of batch entries.
pub open spec fn entries_view(v: Seq<BatchEntry>) -> Seq<(nat, Seq<char>)> {
    v.map_values(|e: BatchEntry| (e.line as nat, e.command@))
}

/// The commands of a batch file, from its lines.
pub fn batch_entries(lines: &Vec<String>) -> (r: Vec<BatchEntry>)
    ensures
        entries_view(r@) == batch_commands(texts(lines@)),
{
    let mut out: Vec<BatchEntry> = Vec::new();
    let mut i: usize = 0;
    assert(texts(lines@.take(0)) =~= Seq::<Seq<char>>::empty());
    while i < lines.len()
        invariant
            i <= lines.len(),
            entries_view(out@) == batch_commands(texts(lines@.take(i as int))),
        decreases lines.len() - i,
    {
        let t = trim(lines[i].as_str());
        assert(texts(lines@.take(i + 1)).drop_last() =~= texts(lines@.take(i as int)));
        assert(texts(lines@.take(i + 1)).last() == lines@[i as int]@);
        let skip = t.as_str().is_empty() || first_char_is_hash(t.as_str());
        if !skip {
            let ghost prev = out@;
            out.push(BatchEntry { line: i + 1, command: t });
            assert(entries_view(out@) =~= entries_view(prev).push(((i + 1) as nat, trimmed_of(lines@[i as int]@))));
        }
        i += 1;
    }
    assert(lines@.take(lines.len() as int) =~= lines@);
    out
}

/// The commands of a batch file, from its text.
pub fn parse_batch(content: &str) -> (r: Vec<BatchEntry>)
    ensures
        entries_view(r@) == batch_commands(lines_of(content@)),
{
    let lines = text_lines(content);
    batch_entries(&lines)
}

/// Whether a non-empty string starts with `#`.
fn first_char_is_hash(s: &str) -> (r: bool)
    requires
        s@.len() > 0,
    ensures
        r == (s@[0] == '#'),
{
    s.get_char(0) == '#'
}

/// The address argument for a symbol operation. Hexadecimal addresses
/// and symbol names are both passed through unchanged: the bridge
/// resolves names itself.
pub fn resolve_address(input: &str) -> (r: Result<String, String>)
    ensures
        r matches Ok(s) && s@ == input@,
{
    Ok(input.to_owned())
}

/// The `address` argument a cross-reference query carries: the
/// `--target` text when given, else the positional target, else none.
pub open spec fn xref_address(a: crate::cli::XRefArgs) -> ArgView {
    match a.target {
        Some(t) => ArgView::MaybeText(Some(t@)),
        None => match a.positional_target {
            Some(p) => ArgView::MaybeText(Some(p@)),
            None => ArgView::MaybeText(None),
        },
    }
}

/// Cross-reference commands ask the bridge for their own direction: with
/// the bridge running, `xref from T` becomes the query `xrefs_from` and
/// `xref to T` the query `xrefs_to`, each with `T` as its one `address`
/// argument, and the two directions never become the same query.
pub proof fn lemma_xref_directions(a: crate::cli::XRefArgs)
    ensures
        planned_route(Commands::XRef(XRefCommands::From(a)), BridgeState::Running) matches Ok(
            RouteView::Call(c),
        ) && c.command == "xrefs_from"@ && c.args == Some(seq![("address"@, xref_address(a))]),
        planned_route(Commands::XRef(XRefCommands::To(a)), BridgeState::Running) matches Ok(
            RouteView::Call(c),
        ) && c.command == "xrefs_to"@ && c.args == Some(seq![("address"@, xref_address(a))]),
        "xrefs_from"@ != "xrefs_to"@,
{
    reveal_strlit("xrefs_from");
    reveal_strlit("xrefs_to");
    assert("xrefs_from"@.len() != "xrefs_to"@.len());
}

} // verus!
