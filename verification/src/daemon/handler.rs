//! What the daemon does with each request of its IPC protocol.
//!
//! A few requests are answered at once. Import and analysis reuse a
//! running bridge, or start one in the matching mode. Every other query
//! needs a running bridge and is passed on to it as a named command; the
//! answer is the reply's data, or its message when it failed. A failed
//! call whose error tells that the bridge process died shuts the daemon
//! down. On a client connection a shutdown request is acknowledged and
//! ends the daemon, a message that is no request is answered with an
//! error under id 0, and the connection closes when the client leaves or
//! stays idle for five minutes.

use vstd::prelude::*;
use crate::daemon::route::{ArgValue, ArgView, BridgeState, arg_view, args_view, opt_text};
use crate::ilspy::commands::{has_substring, substring_of};
use crate::text::str_eq;

verus! {

/// A request sent to the daemon.
pub enum Command {
    Ping,
    Status,
    ClearCache,
    Shutdown,
    /// Import a binary into the project.
    Import { binary_path: String, project: String, program: Option<String> },
    /// Analyze an imported program.
    Analyze { project: String, program: String },
    ListPrograms,
    OpenProgram { program: String },
    ListFunctions { limit: Option<usize>, filter: Option<String> },
    Decompile { address: String },
    ListStrings { limit: Option<usize> },
    ListImports,
    ListExports,
    MemoryMap,
    ProgramInfo,
    XRefsTo { address: String },
    XRefsFrom { address: String },
    /// A CLI command, serialized as JSON, run through the command router.
    ExecuteCli { command_json: String },
}

/// One field of a JSON object the daemon answers with.
pub enum ReplyField {
    Text(String),
    Flag(bool),
}

/// A reply field taken by its text.
pub enum FieldView {
    Text(Seq<char>),
    Flag(bool),
}

/// How the daemon handles a request.
pub enum Handling {
    /// Answer at once with this JSON object.
    Reply(Vec<(String, ReplyField)>),
    /// Fail with this message.
    Refuse(String),
    /// Send this command, with these arguments, to the running bridge;
    /// the reply's data (an empty object when it has none) is the answer.
    Query(String, Option<Vec<(String, ArgValue)>>),
    /// Import with the running bridge (command `import` with the binary
    /// path and the requested program name), then switch it to the
    /// imported program (command `open_program`); answer with the
    /// program's name.
    ImportHere { binary_path: String, program: Option<String> },
    /// Start a bridge that imports the binary into the project, then ask
    /// it for `program_info`; answer with the program's name.
    StartImport { binary_path: String, project: String, program: Option<String> },
    /// Analyze with the running bridge (command `analyze`).
    AnalyzeHere { project: String, program: String },
    /// Start a bridge on the imported program and answer
    /// [`started_reply`].
    StartProcess { project: String, program: String },
    /// Decode this CLI command, check [`bridge_requirement`], and run it
    /// through the command router.
    RunCli(String),
}

/// A handling taken by its text.
pub enum HandlingView {
    Reply(Seq<(Seq<char>, FieldView)>),
    Refuse(Seq<char>),
    Query(Seq<char>, Option<Seq<(Seq<char>, ArgView)>>),
    ImportHere { binary_path: Seq<char>, program: Option<Seq<char>> },
    StartImport { binary_path: Seq<char>, project: Seq<char>, program: Option<Seq<char>> },
    AnalyzeHere { project: Seq<char>, program: Seq<char> },
    StartProcess { project: Seq<char>, program: Seq<char> },
    RunCli(Seq<char>),
}

/// The view of a reply field.
pub open spec fn field_view(f: ReplyField) -> FieldView {
    match f {
        ReplyField::Text(s) => FieldView::Text(s@),
        ReplyField::Flag(b) => FieldView::Flag(b),
    }
}

/// The view of a reply object.
pub open spec fn fields_view(v: Seq<(String, ReplyField)>) -> Seq<(Seq<char>, FieldView)> {
    v.map_values(|p: (String, ReplyField)| (p.0@, field_view(p.1)))
}

/// The view of a handling.
pub open spec fn handling_view(h: Handling) -> HandlingView {
    match h {
        Handling::Reply(v) => HandlingView::Reply(fields_view(v@)),
        Handling::Refuse(m) => HandlingView::Refuse(m@),
        Handling::Query(c, a) => HandlingView::Query(
            c@,
            match a {
                Some(v) => Some(args_view(v@)),
                None => None,
            },
        ),
        Handling::ImportHere { binary_path, program } => HandlingView::ImportHere {
            binary_path: binary_path@,
            program: opt_text(program),
        },
        Handling::StartImport { binary_path, project, program } => HandlingView::StartImport {
            binary_path: binary_path@,
            project: project@,
            program: opt_text(program),
        },
        Handling::AnalyzeHere { project, program } => HandlingView::AnalyzeHere {
            project: project@,
            program: program@,
        },
        Handling::StartProcess { project, program } => HandlingView::StartProcess {
            project: project@,
            program: program@,
        },
        Handling::RunCli(j) => HandlingView::RunCli(j@),
    }
}

/// Why a query cannot be passed to the bridge in its current state.
pub open spec fn requirement_refusal(b: BridgeState) -> Option<Seq<char>> {
    match b {
        BridgeState::Absent => Some("No program loaded. Run 'ghidra import <binary>' first."@),
        BridgeState::Stopped => Some("Bridge is not running. Try restarting the daemon."@),
        BridgeState::Running => None,
    }
}

/// Succeeds exactly when the bridge runs; otherwise says why a query
/// cannot be passed on.
pub fn bridge_requirement(b: BridgeState) -> (r: Result<(), String>)
    ensures
        match requirement_refusal(b) {
            None => r is Ok,
            Some(m) => r matches Err(e) && e@ == m,
        },
{
    match b {
        BridgeState::Absent => Err("No program loaded. Run 'ghidra import <binary>' first.".to_owned()),
        BridgeState::Stopped => Err("Bridge is not running. Try restarting the daemon.".to_owned()),
        BridgeState::Running => Ok(()),
    }
}

/// A query for the running bridge, or the reason there is none.
pub open spec fn query_plan(
    b: BridgeState,
    command: Seq<char>,
    args: Option<Seq<(Seq<char>, ArgView)>>,
) -> HandlingView {
    match requirement_refusal(b) {
        Some(m) => HandlingView::Refuse(m),
        None => HandlingView::Query(command, args),
    }
}

/// An optional string as a JSON string or `null`.
pub open spec fn maybe_text(o: Option<String>) -> ArgView {
    ArgView::MaybeText(opt_text(o))
}

/// How the daemon handles `command` with the bridge in state `b`.
pub open spec fn planned_handling(command: Command, b: BridgeState) -> HandlingView {
    match command {
        Command::Ping => HandlingView::Reply(seq![("status"@, FieldView::Text("ok"@))]),
        Command::Status => HandlingView::Reply(
            seq![("bridge_running"@, FieldView::Flag(b == BridgeState::Running))],
        ),
        Command::ClearCache => HandlingView::Reply(seq![("cleared"@, FieldView::Flag(true))]),
        Command::Shutdown => HandlingView::Reply(seq![("status"@, FieldView::Text("shutting_down"@))]),
        Command::Import { binary_path, project, program } => if b == BridgeState::Running {
            HandlingView::ImportHere { binary_path: binary_path@, program: opt_text(program) }
        } else {
            HandlingView::StartImport { binary_path: binary_path@, project: project@, program: opt_text(program) }
        },
        Command::Analyze { project, program } => if b == BridgeState::Running {
            HandlingView::AnalyzeHere { project: project@, program: program@ }
        } else {
            HandlingView::StartProcess { project: project@, program: program@ }
        },
        Command::ListPrograms => query_plan(b, "list_programs"@, None),
        Command::OpenProgram { program } => query_plan(
            b,
            "open_program"@,
            Some(seq![("program"@, ArgView::Text(program@))]),
        ),
        Command::ListFunctions { limit, filter } => query_plan(
            b,
            "list_functions"@,
            Some(seq![("limit"@, ArgView::MaybeCount(limit)), ("filter"@, maybe_text(filter))]),
        ),
        Command::Decompile { address } => query_plan(
            b,
            "decompile"@,
            Some(seq![("address"@, ArgView::Text(address@))]),
        ),
        Command::ListStrings { limit } => query_plan(
            b,
            "list_strings"@,
            Some(seq![("limit"@, ArgView::MaybeCount(limit))]),
        ),
        Command::ListImports => query_plan(b, "list_imports"@, None),
        Command::ListExports => query_plan(b, "list_exports"@, None),
        Command::MemoryMap => query_plan(b, "memory_map"@, None),
        Command::ProgramInfo => query_plan(b, "program_info"@, None),
        Command::XRefsTo { address } => query_plan(
            b,
            "xrefs_to"@,
            Some(seq![("address"@, ArgView::Text(address@))]),
        ),
        Command::XRefsFrom { address } => query_plan(
            b,
            "xrefs_from"@,
            Some(seq![("address"@, ArgView::Text(address@))]),
        ),
        Command::ExecuteCli { command_json } => HandlingView::RunCli(command_json@),
    }
}

/// A query for the running bridge, or the reason there is none.
fn query(b: BridgeState, command: &str, args: Option<Vec<(String, ArgValue)>>) -> (r: Handling)
    ensures
        handling_view(r) == query_plan(
            b,
            command@,
            match args {
                Some(v) => Some(args_view(v@)),
                None => None,
            },
        ),
{
    match bridge_requirement(b) {
        Err(m) => Handling::Refuse(m),
        Ok(()) => Handling::Query(command.to_owned(), args),
    }
}

/// One argument.
fn single(key: &str, value: ArgValue) -> (r: Option<Vec<(String, ArgValue)>>)
    ensures
        r matches Some(v) && args_view(v@) == seq![(key@, arg_view(value))],
{
    let mut v: Vec<(String, ArgValue)> = Vec::new();
    v.push((key.to_owned(), value));
    proof {
        assert(args_view(v@) =~= seq![(key@, arg_view(value))]);
    }
    Some(v)
}

/// A one-field reply.
fn reply_with(key: &str, value: ReplyField) -> (r: Handling)
    ensures
        handling_view(r) == HandlingView::Reply(seq![(key@, field_view(value))]),
{
    let mut v: Vec<(String, ReplyField)> = Vec::new();
    v.push((key.to_owned(), value));
    proof {
        assert(fields_view(v@) =~= seq![(key@, field_view(value))]);
    }
    Handling::Reply(v)
}

/// How the daemon handles `command` with the bridge in state `b`.
pub fn plan_command(command: Command, b: BridgeState) -> (r: Handling)
    ensures
        handling_view(r) == planned_handling(command, b),
{
    let running = match b {
        BridgeState::Running => true,
        _ => false,
    };
    match command {
        Command::Ping => reply_with("status", ReplyField::Text("ok".to_owned())),
        Command::Status => reply_with("bridge_running", ReplyField::Flag(running)),
        Command::ClearCache => reply_with("cleared", ReplyField::Flag(true)),
        Command::Shutdown => reply_with("status", ReplyField::Text("shutting_down".to_owned())),
        Command::Import { binary_path, project, program } => if running {
            Handling::ImportHere { binary_path, program }
        } else {
            Handling::StartImport { binary_path, project, program }
        },
        Command::Analyze { project, program } => if running {
            Handling::AnalyzeHere { project, program }
        } else {
            Handling::StartProcess { project, program }
        },
        Command::ListPrograms => query(b, "list_programs", None),
        Command::OpenProgram { program } => query(b, "open_program", single("program", ArgValue::Text(program))),
        Command::ListFunctions { limit, filter } => {
            let mut v: Vec<(String, ArgValue)> = Vec::new();
            v.push(("limit".to_owned(), ArgValue::MaybeCount(limit)));
            v.push(("filter".to_owned(), ArgValue::MaybeText(filter)));
            let ghost fv = v@;
            proof {
                assert(args_view(fv) =~= seq![
                    ("limit"@, ArgView::MaybeCount(limit)),
                    ("filter"@, maybe_text(filter)),
                ]);
            }
            query(b, "list_functions", Some(v))
        },
        Command::Decompile { address } => query(b, "decompile", single("address", ArgValue::Text(address))),
        Command::ListStrings { limit } => query(b, "list_strings", single("limit", ArgValue::MaybeCount(limit))),
        Command::ListImports => query(b, "list_imports", None),
        Command::ListExports => query(b, "list_exports", None),
        Command::MemoryMap => query(b, "memory_map", None),
        Command::ProgramInfo => query(b, "program_info", None),
        Command::XRefsTo { address } => query(b, "xrefs_to", single("address", ArgValue::Text(address))),
        Command::XRefsFrom { address } => query(b, "xrefs_from", single("address", ArgValue::Text(address))),
        Command::ExecuteCli { command_json } => Handling::RunCli(command_json),
    }
}

/// The outcome of a bridge reply with status `status` and message
/// `message`: success exactly for the status `success`; otherwise the
/// reply's message, or `failure` when it carries none.
pub fn reply_status(status: &str, message: Option<String>, failure: &str) -> (r: Result<(), String>)
    ensures
        status@ == "success"@ ==> r is Ok,
        status@ != "success"@ ==> (r matches Err(m) && m@ == match message {
            Some(s) => s@,
            None => failure@,
        }),
{
    if str_eq(status, "success") {
        Ok(())
    } else {
        match message {
            Some(m) => Err(m),
            None => Err(failure.to_owned()),
        }
    }
}

/// The name of an imported program: the one requested, else the one the
/// bridge reported, else `unknown`.
pub open spec fn imported_name(requested: Option<Seq<char>>, reported: Option<Seq<char>>) -> Seq<char> {
    match requested {
        Some(n) => n,
        None => match reported {
            Some(n) => n,
            None => "unknown"@,
        },
    }
}

/// The name of an imported program.
pub fn imported_program_name(requested: Option<String>, reported: Option<&str>) -> (r: String)
    ensures
        r@ == imported_name(opt_text(requested), match reported {
            Some(s) => Some(s@),
            None => None,
        }),
{
    match requested {
        Some(n) => n,
        None => match reported {
            Some(s) => s.to_owned(),
            None => "unknown".to_owned(),
        },
    }
}

/// The answer to an import: `{"program": name}`.
pub fn program_reply(name: String) -> (r: Vec<(String, ReplyField)>)
    ensures
        fields_view(r@) == seq![("program"@, FieldView::Text(name@))],
{
    let mut v: Vec<(String, ReplyField)> = Vec::new();
    v.push(("program".to_owned(), ReplyField::Text(name)));
    proof {
        assert(fields_view(v@) =~= seq![("program"@, FieldView::Text(name@))]);
    }
    v
}

/// The answer to a successful analysis whose reply carries no data.
pub fn analysis_done_reply() -> (r: Vec<(String, ReplyField)>)
    ensures
        fields_view(r@) == seq![("status"@, FieldView::Text("analysis_complete"@))],
{
    let mut v: Vec<(String, ReplyField)> = Vec::new();
    v.push(("status".to_owned(), ReplyField::Text("analysis_complete".to_owned())));
    proof {
        assert(fields_view(v@) =~= seq![("status"@, FieldView::Text("analysis_complete"@))]);
    }
    v
}

/// The answer to an analysis request that had to start the bridge.
pub fn started_reply(program: String) -> (r: Vec<(String, ReplyField)>)
    ensures
        fields_view(r@) == seq![
            ("status"@, FieldView::Text("bridge_started"@)),
            ("program"@, FieldView::Text(program@)),
        ],
{
    let mut v: Vec<(String, ReplyField)> = Vec::new();
    v.push(("status".to_owned(), ReplyField::Text("bridge_started".to_owned())));
    v.push(("program".to_owned(), ReplyField::Text(program)));
    proof {
        assert(fields_view(v@) =~= seq![
            ("status"@, FieldView::Text("bridge_started"@)),
            ("program"@, FieldView::Text(program@)),
        ]);
    }
    v
}

/// Whether a failed bridge call means the bridge process is gone, which
/// shuts the daemon down: the error says the process died, or the bridge
/// no longer runs.
pub fn bridge_died(error_text: &str, still_running: bool) -> (r: bool)
    ensures
        r == (has_substring(error_text@, "process died"@) || !still_running),
{
    substring_of(error_text, "process died") || !still_running
}

/// What happened on a client connection.
pub enum ClientEvent {
    /// A request with this id and command arrived.
    Request { id: u64, command: Command },
    /// A message arrived that is no request; the decoder's error text.
    Invalid(String),
    /// The client disconnected, the read failed, or nothing arrived for
    /// [`CLIENT_IDLE_SECS`] seconds.
    Closed,
}

/// How long a connection may stay idle before the server closes it.
pub const CLIENT_IDLE_SECS: u64 = 300;

/// What the server does next on a client connection.
pub enum ClientAction {
    /// Answer the request `id` with success, close the connection and
    /// shut the daemon down.
    Shutdown(u64),
    /// Handle the command (see [`plan_command`]), answer request `id`
    /// with its outcome, and wait for the next request.
    Handle(u64, Command),
    /// Answer with this error under id 0, and wait for the next request.
    Reject(String),
    /// Close the connection.
    Close,
}

/// The server's step on a client connection.
pub fn client_step(event: ClientEvent) -> (r: ClientAction)
    ensures
        match event {
            ClientEvent::Request { id, command } => match command {
                Command::Shutdown => r == ClientAction::Shutdown(id),
                _ => r == ClientAction::Handle(id, command),
            },
            ClientEvent::Invalid(e) => r matches ClientAction::Reject(m) && m@ == "Invalid request: "@ + e@,
            ClientEvent::Closed => r is Close,
        },
{
    match event {
        ClientEvent::Request { id, command } => match command {
            Command::Shutdown => ClientAction::Shutdown(id),
            _ => ClientAction::Handle(id, command),
        },
        ClientEvent::Invalid(e) => {
            let mut m = "Invalid request: ".to_owned();
            m.append(e.as_str());
            ClientAction::Reject(m)
        },
        ClientEvent::Closed => ClientAction::Close,
    }
}

/// The daemon's own cross-reference requests ask the bridge for their
/// direction: with the bridge running, `XRefsFrom` becomes the query
/// `xrefs_from` and `XRefsTo` the query `xrefs_to`, each passing the
/// requested address, and the two never become the same query.
pub proof fn lemma_xref_requests(address: String)
    ensures
        planned_handling(Command::XRefsFrom { address }, BridgeState::Running) == HandlingView::Query(
            "xrefs_from"@,
            Some(seq![("address"@, ArgView::Text(address@))]),
        ),
        planned_handling(Command::XRefsTo { address }, BridgeState::Running) == HandlingView::Query(
            "xrefs_to"@,
            Some(seq![("address"@, ArgView::Text(address@))]),
        ),
        "xrefs_from"@ != "xrefs_to"@,
{
    reveal_strlit("xrefs_from");
    reveal_strlit("xrefs_to");
    assert("xrefs_from"@.len() != "xrefs_to"@.len());
}

} // verus!
