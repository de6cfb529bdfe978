use ghidra_cli::ilspy::cli::{OutputFormat, TypeKind};
use ghidra_cli::ilspy::detect::{contains_bytes, detect_framework, detect_native_framework, detect_pe, find_bytes, is_pe_extension};
use ghidra_cli::ilspy::doctor::{check_bridge_load, doctor, runtime_version, BridgeCheck, RuntimeCheck};
use ghidra_cli::ilspy::format::{build_modifiers, modifiers_from_lowercase};
use ghidra_cli::ilspy::types::MethodInfo;

/// A PE32 image whose CLI header entry holds `rva` and `size`, followed
/// by `extra` bytes.
fn pe_image(rva: u32, size: u32, extra: &[u8]) -> Vec<u8> {
    let mut d = vec![0u8; 0x178];
    d[0] = b'M';
    d[1] = b'Z';
    d[0x3c..0x40].copy_from_slice(&0x80u32.to_le_bytes());
    d[0x80..0x84].copy_from_slice(b"PE\0\0");
    d[0x94..0x96].copy_from_slice(&0xe0u16.to_le_bytes());
    d[0x98..0x9a].copy_from_slice(&0x10bu16.to_le_bytes());
    d[0x168..0x16c].copy_from_slice(&rva.to_le_bytes());
    d[0x16c..0x170].copy_from_slice(&size.to_le_bytes());
    d.extend_from_slice(extra);
    d
}

#[test]
fn dotnet_assembly_is_detected_with_its_framework() {
    let image = pe_image(0x2008, 0x48, b"....\x00.NETCoreApp,Version=v8.0\x00ReadyToRun");
    let r = detect_pe("App.dll", Some(&image));
    assert_eq!(r.path, "App.dll");
    assert!(r.is_dotnet);
    assert_eq!(r.framework, ".NET 8.0 (ReadyToRun)");
    assert_eq!(r.recommended_tool, "ilspy");
}

#[test]
fn native_image_is_detected_with_its_toolkit() {
    let image = pe_image(0, 0, b"QApplication");
    let r = detect_pe("app.exe", Some(&image));
    assert!(!r.is_dotnet);
    assert_eq!(r.framework, "Native (Qt/C++)");
    assert_eq!(r.recommended_tool, "ghidra");
    let plain = pe_image(0x2000, 0, b"");
    assert_eq!(detect_pe("x.exe", Some(&plain)).framework, "Native");
}

#[test]
fn header_problems_are_reported() {
    let r = detect_pe("notes.txt", Some(b"hello world"));
    assert_eq!(r.framework, "Not a PE file");
    assert_eq!(r.recommended_tool, "unknown");
    let r = detect_pe("tiny", Some(b"M"));
    assert_eq!(r.framework, "Unknown (not a PE file)");
    assert_eq!(r.recommended_tool, "ghidra");
    let r = detect_pe("gone", None);
    assert_eq!(r.framework, "Unknown (not a PE file)");
    let mut bad_sig = pe_image(1, 1, b"");
    bad_sig[0x81] = b'X';
    assert_eq!(detect_pe("b", Some(&bad_sig)).framework, "Invalid PE signature");
    let mut no_opt = pe_image(1, 1, b"");
    no_opt[0x94] = 0;
    assert_eq!(detect_pe("n", Some(&no_opt)).framework, "No optional header");
    let mut short_opt = pe_image(1, 1, b"");
    short_opt[0x94] = 0x60;
    assert_eq!(detect_pe("s", Some(&short_opt)).framework, "Native PE");
    let truncated = pe_image(1, 1, b"")[..0x100].to_vec();
    assert_eq!(detect_pe("t", Some(&truncated)).framework, "Unknown (not a PE file)");
}

#[test]
fn pe32_plus_reads_the_later_directory() {
    let mut d = pe_image(0, 0, b"");
    d[0x98..0x9a].copy_from_slice(&0x20bu16.to_le_bytes());
    d.resize(0x190, 0);
    d[0x94..0x96].copy_from_slice(&0xf0u16.to_le_bytes());
    d[0x178..0x17c].copy_from_slice(&0x3000u32.to_le_bytes());
    d[0x17c..0x180].copy_from_slice(&0x10u32.to_le_bytes());
    let r = detect_pe("x64.dll", Some(&d));
    assert!(r.is_dotnet);
    assert_eq!(r.framework, ".NET (unknown version)");
}

#[test]
fn framework_strings() {
    assert_eq!(detect_framework(b"xx.NETFramework,Version=v4.7.2\x00"), ".NET Framework 4.7.2");
    assert_eq!(detect_framework(b".NETStandard,Version=v2.0"), ".NET Standard");
    assert_eq!(detect_framework(b".NETCoreApp,Version=v"), ".NET ");
    assert_eq!(detect_native_framework(b"Borland C++"), "Native (Delphi)");
    assert_eq!(detect_native_framework(b"CWinApp"), "Native (MFC/C++)");
    assert_eq!(detect_native_framework(b""), "Native");
}

#[test]
fn byte_search() {
    assert_eq!(find_bytes(b"abcabc", b"ca"), Some(2));
    assert_eq!(find_bytes(b"abcabc", b"abc"), Some(0));
    assert_eq!(find_bytes(b"aab", b"ab"), Some(1));
    assert_eq!(find_bytes(b"abc", b""), None);
    assert_eq!(find_bytes(b"ab", b"abc"), None);
    assert!(contains_bytes(b"hello", b"ll"));
    assert!(!contains_bytes(b"hello", b"lo!"));
}

#[test]
fn pe_extensions() {
    assert!(is_pe_extension(Some("dll")));
    assert!(is_pe_extension(Some("EXE")));
    assert!(!is_pe_extension(Some("so")));
    assert!(!is_pe_extension(None));
}

#[test]
fn type_kinds_and_formats() {
    assert!(TypeKind::Class.matches("Class"));
    assert!(!TypeKind::Class.matches("class"));
    assert!(TypeKind::Delegate.matches("Delegate"));
    assert_eq!(OutputFormat::from_flags(true, true, true, true), OutputFormat::JsonPretty);
    assert_eq!(OutputFormat::from_flags(false, true, true, true), OutputFormat::Json);
    assert_eq!(OutputFormat::from_flags(false, false, true, true), OutputFormat::Compact);
    assert_eq!(OutputFormat::from_flags(false, false, false, true), OutputFormat::Table);
    assert_eq!(OutputFormat::from_flags(false, false, false, false), OutputFormat::Compact);
}

#[test]
fn method_modifiers() {
    let m = MethodInfo {
        declaring_type: "App.Program".to_string(),
        name: "Main".to_string(),
        return_type: "void".to_string(),
        parameters: vec![],
        accessibility: "Public".to_string(),
        is_static: true,
        is_virtual: false,
        is_abstract: true,
    };
    assert_eq!(build_modifiers(&m), "public static abstract");
    assert_eq!(modifiers_from_lowercase("private", false, true, false), "private virtual");
}

#[test]
fn doctor_report() {
    let ran = RuntimeCheck::Ran { stdout: ".NET SDK:\r\n  Version:   8.0.100  \r\nHost:\n".to_string() };
    assert_eq!(runtime_version("nothing\nat all"), "installed");
    assert_eq!(runtime_version(""), "installed");
    let ok = doctor(&ran, &BridgeCheck::Found { dll: "/opt/b/IlSpyBridge.dll".to_string(), load: Ok(()) });
    assert_eq!(
        ok,
        "[OK] .NET runtime: Version:   8.0.100\n[OK] Bridge DLL: /opt/b/IlSpyBridge.dll\n[OK] Bridge loads successfully\n\nAll checks passed."
    );
    let bad = doctor(&RuntimeCheck::NotFound, &BridgeCheck::Missing);
    assert_eq!(
        bad,
        "[FAIL] .NET runtime: 'dotnet' not found in PATH\n       Install .NET 8 SDK from https://dot.net/download\n[FAIL] Bridge DLL: IlSpyBridge.dll not found\n       Build with 'cargo build' or set ILSPY_BRIDGE_DIR\n\nSome checks failed. See above for details."
    );
    let load_failed = doctor(
        &RuntimeCheck::CommandFailed,
        &BridgeCheck::Found { dll: "b.dll".to_string(), load: Err("no hostfxr".to_string()) },
    );
    assert!(load_failed.ends_with("[FAIL] Bridge load: no hostfxr\n\nSome checks failed. See above for details."));
    let mut lines = Vec::new();
    let mut all_ok = true;
    check_bridge_load(&mut lines, &mut all_ok, &Ok(()));
    assert!(all_ok);
    check_bridge_load(&mut lines, &mut all_ok, &Err("x".to_string()));
    assert!(!all_ok);
    assert_eq!(lines, vec!["[OK] Bridge loads successfully".to_string(), "[FAIL] Bridge load: x".to_string()]);
}
