//! Argument model of the `ilspy` command line and the choice of output
//! format.

use vstd::prelude::*;
use std::path::PathBuf;
use crate::text::str_eq;

verus! {

/// Top-level command line.
pub struct Cli {
    pub command: Commands,
    /// Output as JSON.
    pub json: bool,
    /// Output as pretty-printed JSON.
    pub pretty: bool,
    /// Compact output (one line per item).
    pub compact: bool,
    /// Verbose output.
    pub verbose: bool,
}

/// The subcommands.
pub enum Commands {
    /// List types or methods in an assembly.
    List { what: ListCommands },
    /// Decompile an assembly, type, or method.
    Decompile(DecompileArgs),
    /// Search decompiled source with a regular expression.
    Search(SearchArgs),
    /// Show assembly metadata.
    Info(InfoArgs),
    /// Detect .NET vs native binaries.
    Detect(DetectArgs),
    /// Check .NET runtime and bridge health.
    Doctor,
}

/// What `list` lists.
pub enum ListCommands {
    /// Types (classes, interfaces, structs, enums).
    Types(ListTypesArgs),
    /// Methods with signatures.
    Methods(ListMethodsArgs),
}

pub struct ListTypesArgs {
    /// Path to the .NET assembly (.dll or .exe).
    pub assembly: PathBuf,
    /// Keep types whose name contains this (case-insensitively).
    pub filter: Option<String>,
    /// Keep types of this kind.
    pub kind: Option<TypeKind>,
}

pub struct ListMethodsArgs {
    /// Path to the .NET assembly (.dll or .exe).
    pub assembly: PathBuf,
    /// Only methods of this type (full name).
    pub type_filter: Option<String>,
    /// Keep methods whose name contains this (case-insensitively).
    pub filter: Option<String>,
}

pub struct DecompileArgs {
    /// Path to the .NET assembly (.dll or .exe).
    pub assembly: PathBuf,
    /// Decompile this type (full name).
    pub type_filter: Option<String>,
    /// Decompile this method of that type.
    pub method: Option<String>,
}

pub struct SearchArgs {
    /// Path to the .NET assembly (.dll or .exe).
    pub assembly: PathBuf,
    /// Regular expression to search for.
    pub pattern: String,
}

pub struct InfoArgs {
    /// Path to the .NET assembly (.dll or .exe).
    pub assembly: PathBuf,
}

pub struct DetectArgs {
    /// A file or a directory.
    pub path: PathBuf,
    /// Scan directories recursively.
    pub recursive: bool,
    /// Only show .NET assemblies.
    pub dotnet_only: bool,
    /// Only show native binaries.
    pub native_only: bool,
}

/// The kinds of type definition the bridge reports.
#[derive(Clone, Copy, Debug, PartialEq, Eq, Structural)]
pub enum TypeKind {
    Class,
    Interface,
    Struct,
    Enum,
    Delegate,
}

/// The bridge's name for each kind.
pub open spec fn kind_name(k: TypeKind) -> Seq<char> {
    match k {
        TypeKind::Class => "Class"@,
        TypeKind::Interface => "Interface"@,
        TypeKind::Struct => "Struct"@,
        TypeKind::Enum => "Enum"@,
        TypeKind::Delegate => "Delegate"@,
    }
}

impl TypeKind {
    /// Whether the bridge's kind string names this kind (exactly, case
    /// included).
    pub fn matches(&self, kind_str: &str) -> (r: bool)
        ensures
            r == (kind_str@ == kind_name(*self)),
    {
        match self {
            TypeKind::Class => str_eq(kind_str, "Class"),
            TypeKind::Interface => str_eq(kind_str, "Interface"),
            TypeKind::Struct => str_eq(kind_str, "Struct"),
            TypeKind::Enum => str_eq(kind_str, "Enum"),
            TypeKind::Delegate => str_eq(kind_str, "Delegate"),
        }
    }
}

/// How results are printed.
#[derive(Clone, Copy, Debug, PartialEq, Eq, Structural)]
pub enum OutputFormat {
    /// Human-readable table.
    Table,
    /// One line per item.
    Compact,
    /// Minified JSON.
    Json,
    /// Pretty-printed JSON.
    JsonPretty,
    /// Raw source code.
    Source,
}

/// The format the flags ask for; without any, a table on a terminal and
/// compact lines elsewhere.
pub open spec fn chosen_format(pretty: bool, json: bool, compact: bool, stdout_tty: bool) -> OutputFormat {
    if pretty {
        OutputFormat::JsonPretty
    } else if json {
        OutputFormat::Json
    } else if compact {
        OutputFormat::Compact
    } else if stdout_tty {
        OutputFormat::Table
    } else {
        OutputFormat::Compact
    }
}

/// Whether standard output is a terminal.
///
/// Wraps `atty::is(Stream::Stdout)`, which asks the operating system
/// about the file descriptor; the answer depends on how the process was
/// started, so nothing is stated of it.
#[verifier::external_body]
fn stdout_is_tty() -> (r: bool) {
    atty::is(atty::Stream::Stdout)
}

impl OutputFormat {
    /// The format chosen by the flags, given whether standard output is
    /// a terminal.
    pub fn from_flags(pretty: bool, json: bool, compact: bool, stdout_tty: bool) -> (r: Self)
        ensures
            r == chosen_format(pretty, json, compact, stdout_tty),
    {
        if pretty {
            OutputFormat::JsonPretty
        } else if json {
            OutputFormat::Json
        } else if compact {
            OutputFormat::Compact
        } else if stdout_tty {
            OutputFormat::Table
        } else {
            OutputFormat::Compact
        }
    }

    /// The format the command line asks for. Without a format flag the
    /// terminal is asked, and the answer is a table or compact lines.
    pub fn from_cli(cli: &Cli) -> (r: Self)
        ensures
            exists|tty: bool| r == chosen_format(cli.pretty, cli.json, cli.compact, tty),
            cli.pretty ==> r == OutputFormat::JsonPretty,
            !cli.pretty && cli.json ==> r == OutputFormat::Json,
            !cli.pretty && !cli.json ==> (r == OutputFormat::Compact || r == OutputFormat::Table),
    {
        let tty = if cli.pretty || cli.json || cli.compact {
            false
        } else {
            stdout_is_tty()
        };
        let r = Self::from_flags(cli.pretty, cli.json, cli.compact, tty);
        assert(r == chosen_format(cli.pretty, cli.json, cli.compact, tty));
        r
    }
}

} // verus!
