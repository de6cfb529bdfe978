//! The `doctor` health report: whether the .NET runtime answers, whether
//! the bridge assembly is where it is looked for, and whether it loads.
//!
//! Probing is done by the caller (running `dotnet --info`, looking at the
//! filesystem, loading the bridge); this module turns the outcomes into
//! the report.

use vstd::prelude::*;
use vstd::string::StringSliceAdditionalSpecFns;
use vstd::utf8::encode_utf8;
use crate::text::{join, joined, texts, trim, trimmed_of, text_lines, lines_of};
use crate::ilspy::detect::{contains, contains_bytes};

verus! {

/// What running `dotnet --info` gave.
pub enum RuntimeCheck {
    /// The command could not be started.
    NotFound,
    /// It ran and exited unsuccessfully.
    CommandFailed,
    /// It ran and succeeded, printing `stdout`.
    Ran { stdout: String },
}

/// Where the bridge assembly was found, and whether it loaded.
pub enum BridgeCheck {
    /// Not beside the executable nor in `ILSPY_BRIDGE_DIR`.
    Missing,
    /// Found at `dll` (as displayed); `load` is the outcome of loading it,
    /// with the error's message.
    Found { dll: String, load: Result<(), String> },
}

/// A line that names the runtime host or version.
pub open spec fn is_version_line(line: Seq<char>) -> bool {
    contains(encode_utf8(line), "Host".spec_bytes()) || contains(
        encode_utf8(line),
        "Version".spec_bytes(),
    )
}

/// The runtime description: the first line naming the host or version,
/// trimmed, or `installed` when none does.
pub open spec fn version_from(lines: Seq<Seq<char>>) -> Seq<char>
    decreases lines.len(),
{
    if lines.len() == 0 {
        "installed"@
    } else if is_version_line(lines[0]) {
        trimmed_of(lines[0])
    } else {
        version_from(lines.drop_first())
    }
}

/// The report lines of the runtime check.
pub open spec fn runtime_lines(rc: RuntimeCheck) -> Seq<Seq<char>> {
    match rc {
        RuntimeCheck::NotFound => seq![
            "[FAIL] .NET runtime: 'dotnet' not found in PATH"@,
            "       Install .NET 8 SDK from https://dot.net/download"@,
        ],
        RuntimeCheck::CommandFailed => seq!["[FAIL] .NET runtime: dotnet command failed"@],
        RuntimeCheck::Ran { stdout } => seq!["[OK] .NET runtime: "@ + version_from(lines_of(stdout@))],
    }
}

/// The runtime check passed.
pub open spec fn runtime_ok(rc: RuntimeCheck) -> bool {
    rc is Ran
}

/// The report lines of the bridge assembly lookup.
pub open spec fn dll_lines(bc: BridgeCheck) -> Seq<Seq<char>> {
    match bc {
        BridgeCheck::Missing => seq![
            "[FAIL] Bridge DLL: IlSpyBridge.dll not found"@,
            "       Build with 'cargo build' or set ILSPY_BRIDGE_DIR"@,
        ],
        BridgeCheck::Found { dll, .. } => seq!["[OK] Bridge DLL: "@ + dll@],
    }
}

/// The report line of loading the bridge.
pub open spec fn load_line(load: Result<(), String>) -> Seq<char> {
    match load {
        Ok(()) => "[OK] Bridge loads successfully"@,
        Err(e) => "[FAIL] Bridge load: "@ + e@,
    }
}

/// The report lines of the bridge checks.
pub open spec fn bridge_lines(bc: BridgeCheck) -> Seq<Seq<char>> {
    match bc {
        BridgeCheck::Missing => dll_lines(bc),
        BridgeCheck::Found { load, .. } => dll_lines(bc).push(load_line(load)),
    }
}

/// The bridge was found and loaded.
pub open spec fn bridge_ok(bc: BridgeCheck) -> bool {
    match bc {
        BridgeCheck::Missing => false,
        BridgeCheck::Found { load, .. } => load is Ok,
    }
}

/// The closing verdict line.
pub open spec fn verdict_line(all_ok: bool) -> Seq<char> {
    if all_ok {
        "All checks passed."@
    } else {
        "Some checks failed. See above for details."@
    }
}

/// The whole report: the check lines, a blank line and the verdict,
/// joined by newlines.
pub open spec fn doctor_text(rc: RuntimeCheck, bc: BridgeCheck) -> Seq<char> {
    joined(
        (runtime_lines(rc) + bridge_lines(bc)).push(Seq::empty()).push(
            verdict_line(runtime_ok(rc) && bridge_ok(bc)),
        ),
        "\n"@,
    )
}

/// Whether a line names the runtime host or version.
fn version_line(line: &String) -> (r: bool)
    ensures
        r == is_version_line(line@),
{
    let bytes = line.as_str().as_bytes();
    contains_bytes(bytes, "Host".as_bytes()) || contains_bytes(bytes, "Version".as_bytes())
}

/// The runtime description found in `dotnet --info` output.
pub fn runtime_version(stdout: &str) -> (r: String)
    ensures
        r@ == version_from(lines_of(stdout@)),
{
    let output_lines = text_lines(stdout);
    let mut i: usize = 0;
    assert(output_lines@.skip(0) =~= output_lines@);
    while i < output_lines.len()
        invariant
            i <= output_lines.len(),
            texts(output_lines@) == lines_of(stdout@),
            version_from(texts(output_lines@)) == version_from(texts(output_lines@.skip(i as int))),
        decreases output_lines.len() - i,
    {
        if version_line(&output_lines[i]) {
            assert(texts(output_lines@.skip(i as int))[0] == output_lines@[i as int]@);
            return trim(output_lines[i].as_str());
        }
        assert(texts(output_lines@.skip(i as int)).drop_first() =~= texts(output_lines@.skip(i + 1)));
        i += 1;
    }
    assert(texts(output_lines@.skip(i as int)) =~= Seq::<Seq<char>>::empty());
    "installed".to_owned()
}

/// Appends the runtime check's lines; true when it passed.
pub fn check_dotnet_runtime(lines: &mut Vec<String>, probe: &RuntimeCheck) -> (r: bool)
    ensures
        texts(final(lines)@) == texts(old(lines)@) + runtime_lines(*probe),
        r == runtime_ok(*probe),
{
    match probe {
        RuntimeCheck::Ran { stdout } => {
            let mut line = "[OK] .NET runtime: ".to_owned();
            let version = runtime_version(stdout.as_str());
            line.append(version.as_str());
            lines.push(line);
            assert(texts(lines@) =~= texts(old(lines)@) + runtime_lines(*probe));
            true
        },
        RuntimeCheck::CommandFailed => {
            lines.push("[FAIL] .NET runtime: dotnet command failed".to_owned());
            assert(texts(lines@) =~= texts(old(lines)@) + runtime_lines(*probe));
            false
        },
        RuntimeCheck::NotFound => {
            lines.push("[FAIL] .NET runtime: 'dotnet' not found in PATH".to_owned());
            lines.push("       Install .NET 8 SDK from https://dot.net/download".to_owned());
            assert(texts(lines@) =~= texts(old(lines)@) + runtime_lines(*probe));
            false
        },
    }
}

/// Appends the bridge lookup's lines; true when the assembly was found.
pub fn check_bridge_dll(lines: &mut Vec<String>, bridge: &BridgeCheck) -> (r: bool)
    ensures
        texts(final(lines)@) == texts(old(lines)@) + dll_lines(*bridge),
        r == (bridge is Found),
{
    match bridge {
        BridgeCheck::Found { dll, .. } => {
            let mut line = "[OK] Bridge DLL: ".to_owned();
            line.append(dll.as_str());
            lines.push(line);
            assert(texts(lines@) =~= texts(old(lines)@) + dll_lines(*bridge));
            true
        },
        BridgeCheck::Missing => {
            lines.push("[FAIL] Bridge DLL: IlSpyBridge.dll not found".to_owned());
            lines.push("       Build with 'cargo build' or set ILSPY_BRIDGE_DIR".to_owned());
            assert(texts(lines@) =~= texts(old(lines)@) + dll_lines(*bridge));
            false
        },
    }
}

/// Appends the line for loading the bridge, clearing `all_ok` when it
/// failed.
pub fn check_bridge_load(lines: &mut Vec<String>, all_ok: &mut bool, load: &Result<(), String>)
    ensures
        texts(final(lines)@) == texts(old(lines)@).push(load_line(*load)),
        *final(all_ok) == (*old(all_ok) && load is Ok),
{
    match load {
        Ok(()) => {
            lines.push("[OK] Bridge loads successfully".to_owned());
        },
        Err(e) => {
            let mut line = "[FAIL] Bridge load: ".to_owned();
            line.append(e.as_str());
            lines.push(line);
            *all_ok = false;
        },
    }
    assert(texts(lines@) =~= texts(old(lines)@).push(load_line(*load)));
}

/// The health report for the given probe outcomes.
pub fn doctor(runtime: &RuntimeCheck, bridge: &BridgeCheck) -> (r: String)
    ensures
        r@ == doctor_text(*runtime, *bridge),
{
    let mut lines: Vec<String> = Vec::new();
    let mut all_ok = true;
    let dotnet_ok = check_dotnet_runtime(&mut lines, runtime);
    if !dotnet_ok {
        all_ok = false;
    }
    let dll_ok = check_bridge_dll(&mut lines, bridge);
    if !dll_ok {
        all_ok = false;
    }
    if let BridgeCheck::Found { load, .. } = bridge {
        check_bridge_load(&mut lines, &mut all_ok, load);
    }
    assert(texts(lines@) =~= runtime_lines(*runtime) + bridge_lines(*bridge));
    lines.push(String::new());
    if all_ok {
        lines.push("All checks passed.".to_owned());
    } else {
        lines.push("Some checks failed. See above for details.".to_owned());
    }
    assert(texts(lines@) =~= (runtime_lines(*runtime) + bridge_lines(*bridge)).push(Seq::empty()).push(
        verdict_line(runtime_ok(*runtime) && bridge_ok(*bridge)),
    ));
    join(&lines, "\n")
}

} // verus!
