//! Tells .NET assemblies from native binaries by their PE headers, and
//! guesses the framework from strings embedded in the image.
//!
//! No .NET runtime is needed: a PE image is a .NET assembly exactly when
//! the CLI header entry (data directory 14) of its optional header has a
//! non-zero RVA and a non-zero size.

use vstd::prelude::*;
use vstd::string::StringSliceAdditionalSpecFns;
use crate::text::{ascii_to_string, bytes_as_chars, lowercase, str_eq, lowercase_of};
use crate::ilspy::format::{DetectResult, DetectView};

verus! {

/// `needle` occurs in `hay` starting at `i`.
pub open spec fn occurs_at(hay: Seq<u8>, needle: Seq<u8>, i: int) -> bool {
    &&& 0 <= i
    &&& i + needle.len() <= hay.len()
    &&& hay.subrange(i, i + needle.len()) == needle
}

/// `i` is where `needle` first occurs in `hay`.
pub open spec fn first_occurrence(hay: Seq<u8>, needle: Seq<u8>, i: int) -> bool {
    &&& occurs_at(hay, needle, i)
    &&& forall|j: int| 0 <= j < i ==> !occurs_at(hay, needle, j)
}

/// A non-empty `needle` occurs somewhere in `hay`.
pub open spec fn contains(hay: Seq<u8>, needle: Seq<u8>) -> bool {
    needle.len() > 0 && exists|i: int| occurs_at(hay, needle, i)
}

/// `needle` equals `hay` from `at` on.
fn matches_at(hay: &[u8], needle: &[u8], at: usize) -> (r: bool)
    requires
        at + needle.len() <= hay.len(),
    ensures
        r == occurs_at(hay@, needle@, at as int),
{
    let mut k: usize = 0;
    while k < needle.len()
        invariant
            at + needle.len() <= hay.len(),
            k <= needle.len(),
            forall|m: int| 0 <= m < k ==> hay@[at + m] == needle@[m],
        decreases needle.len() - k,
    {
        if hay[at + k] != needle[k] {
            assert(hay@.subrange(at as int, at + needle.len())[k as int] != needle@[k as int]);
            return false;
        }
        k += 1;
    }
    assert(hay@.subrange(at as int, at + needle.len()) =~= needle@);
    true
}

/// The position of the first occurrence of a non-empty `needle` in
/// `haystack`; `None` for an empty needle or when it does not occur.
pub fn find_bytes(haystack: &[u8], needle: &[u8]) -> (r: Option<usize>)
    ensures
        match r {
            Some(p) => needle.len() > 0 && first_occurrence(haystack@, needle@, p as int),
            None => needle.len() == 0 || forall|j: int| !occurs_at(haystack@, needle@, j),
        },
{
    if needle.len() == 0 || needle.len() > haystack.len() {
        return None;
    }
    let first = needle[0];
    let last_start = haystack.len() - needle.len();
    let mut i: usize = 0;
    while i <= last_start
        invariant
            needle.len() > 0,
            needle@[0] == first,
            last_start + needle.len() == haystack.len(),
            i <= last_start + 1,
            forall|j: int| 0 <= j < i ==> !occurs_at(haystack@, needle@, j),
        decreases last_start + 1 - i,
    {
        if haystack[i] == first {
            if matches_at(haystack, needle, i) {
                return Some(i);
            }
        } else {
            assert(haystack@.subrange(i as int, i + needle.len())[0] != needle@[0]);
        }
        i += 1;
    }
    None
}

/// Whether a non-empty `needle` occurs in `haystack`.
pub fn contains_bytes(haystack: &[u8], needle: &[u8]) -> (r: bool)
    ensures
        r == contains(haystack@, needle@),
{
    match find_bytes(haystack, needle) {
        Some(p) => {
            assert(occurs_at(haystack@, needle@, p as int));
            true
        },
        None => false,
    }
}

/// A byte that may appear in a version number.
pub open spec fn is_version_byte(b: u8) -> bool {
    (0x30 <= b <= 0x39) || b == 0x2e
}

/// The end of the run of version bytes that starts at `i`.
pub open spec fn version_end(d: Seq<u8>, i: int) -> int
    decreases d.len() - i,
{
    if 0 <= i < d.len() && is_version_byte(d[i]) {
        version_end(d, i + 1)
    } else {
        i
    }
}

proof fn lemma_version_end_bounds(d: Seq<u8>, i: int)
    requires
        0 <= i <= d.len(),
    ensures
        i <= version_end(d, i) <= d.len(),
        forall|k: int| i <= k < version_end(d, i) ==> is_version_byte(#[trigger] d[k]),
    decreases d.len() - i,
{
    if i < d.len() && is_version_byte(d[i]) {
        lemma_version_end_bounds(d, i + 1);
    }
}

/// The version number written in `d` from `start` on: the digits and
/// dots up to the first other byte.
pub open spec fn version_at(d: Seq<u8>, start: int) -> Seq<char> {
    bytes_as_chars(d.subrange(start, version_end(d, start)))
}

/// Reads the version number at `start`.
fn read_version(d: &[u8], start: usize) -> (r: String)
    requires
        start <= d.len(),
    ensures
        r@ == version_at(d@, start as int),
{
    let mut end = start;
    while end < d.len() && (d[end] == 0x2e || (0x30 <= d[end] && d[end] <= 0x39))
        invariant
            start <= end <= d.len(),
            version_end(d@, start as int) == version_end(d@, end as int),
            forall|k: int| start <= k < end ==> is_version_byte(#[trigger] d@[k]),
        decreases d.len() - end,
    {
        end += 1;
    }
    proof {
        lemma_version_end_bounds(d@, start as int);
    }
    let digits = slice_range(d, start, end);
    ascii_to_string(digits)
}

/// `d[start..end]`.
fn slice_range(d: &[u8], start: usize, end: usize) -> (r: &[u8])
    requires
        start <= end <= d.len(),
    ensures
        r@ == d@.subrange(start as int, end as int),
{
    let (_, tail) = d.split_at(start);
    let (mid, _) = tail.split_at(end - start);
    assert(mid@ =~= d@.subrange(start as int, end as int));
    mid
}

/// The marker of a .NET Core target framework attribute.
pub open spec fn core_app_marker() -> Seq<u8> {
    ".NETCoreApp,Version=v".spec_bytes()
}

/// The marker of a .NET Framework target framework attribute.
pub open spec fn framework_marker() -> Seq<u8> {
    ".NETFramework,Version=v".spec_bytes()
}

/// Whether the image carries ReadyToRun precompiled code.
pub open spec fn is_ready_to_run(d: Seq<u8>) -> bool {
    contains(d, "ReadyToRun".spec_bytes()) || contains(d, "R2R".spec_bytes())
}

/// The framework named by the first occurrence of `marker` in `d`.
pub open spec fn after_first(d: Seq<u8>, marker: Seq<u8>) -> Seq<char> {
    let p = choose|p: int| first_occurrence(d, marker, p);
    version_at(d, p + marker.len())
}

/// The framework description of a .NET assembly image.
pub open spec fn dotnet_framework_text(d: Seq<u8>) -> Seq<char> {
    if contains(d, core_app_marker()) {
        ".NET "@ + after_first(d, core_app_marker()) + (if is_ready_to_run(d) {
            " (ReadyToRun)"@
        } else {
            Seq::empty()
        })
    } else if contains(d, framework_marker()) {
        ".NET Framework "@ + after_first(d, framework_marker())
    } else if contains(d, ".NETStandard".spec_bytes()) {
        ".NET Standard"@
    } else {
        ".NET (unknown version)"@
    }
}

/// The framework description of a native image.
pub open spec fn native_framework_text(d: Seq<u8>) -> Seq<char> {
    if contains(d, "Embarcadero".spec_bytes()) || contains(d, "Borland".spec_bytes()) || contains(
        d,
        "DELPHICLASS".spec_bytes(),
    ) || contains(d, "Delphi".spec_bytes()) {
        "Native (Delphi)"@
    } else if contains(d, "Qt_".spec_bytes()) || contains(d, "QApplication".spec_bytes()) {
        "Native (Qt/C++)"@
    } else if contains(d, "_MFCXX".spec_bytes()) || contains(d, "CWinApp".spec_bytes()) {
        "Native (MFC/C++)"@
    } else {
        "Native"@
    }
}

/// The version text after the first occurrence of `marker`, when it
/// occurs.
fn version_after(d: &[u8], marker: &[u8]) -> (r: Option<String>)
    ensures
        r is Some <==> contains(d@, marker@),
        r matches Some(v) ==> v@ == after_first(d@, marker@),
{
    match find_bytes(d, marker) {
        Some(p) => {
            let total = d.len();
            assert(occurs_at(d@, marker@, p as int));
            assert(p + marker@.len() <= total);
            let start = p + marker.len();
            let ghost q = choose|q: int| first_occurrence(d@, marker@, q);
            proof {
                if q < p {
                    assert(!occurs_at(d@, marker@, q));
                } else if p < q {
                    assert(!occurs_at(d@, marker@, p as int));
                }
            }
            Some(read_version(d, start))
        },
        None => None,
    }
}

/// Identifies the .NET flavour of an assembly image from its target
/// framework attribute.
pub fn detect_framework(data: &[u8]) -> (r: String)
    ensures
        r@ == dotnet_framework_text(data@),
{
    if let Some(version) = version_after(data, ".NETCoreApp,Version=v".as_bytes()) {
        let mut text = ".NET ".to_owned();
        text.append(version.as_str());
        if contains_bytes(data, "ReadyToRun".as_bytes()) || contains_bytes(data, "R2R".as_bytes()) {
            text.append(" (ReadyToRun)");
        }
        return text;
    }
    if let Some(version) = version_after(data, ".NETFramework,Version=v".as_bytes()) {
        let mut text = ".NET Framework ".to_owned();
        text.append(version.as_str());
        return text;
    }
    if contains_bytes(data, ".NETStandard".as_bytes()) {
        return ".NET Standard".to_owned();
    }
    ".NET (unknown version)".to_owned()
}

/// Names the GUI framework of a native image from the strings it
/// embeds.
pub fn detect_native_framework(data: &[u8]) -> (r: String)
    ensures
        r@ == native_framework_text(data@),
{
    if contains_bytes(data, "Embarcadero".as_bytes()) || contains_bytes(data, "Borland".as_bytes())
        || contains_bytes(data, "DELPHICLASS".as_bytes()) || contains_bytes(
        data,
        "Delphi".as_bytes(),
    ) {
        return "Native (Delphi)".to_owned();
    }
    if contains_bytes(data, "Qt_".as_bytes()) || contains_bytes(data, "QApplication".as_bytes()) {
        return "Native (Qt/C++)".to_owned();
    }
    if contains_bytes(data, "_MFCXX".as_bytes()) || contains_bytes(data, "CWinApp".as_bytes()) {
        return "Native (MFC/C++)".to_owned();
    }
    "Native".to_owned()
}

/// What the headers of an image say.
pub enum PeScan {
    /// A header the walk needs lies past the end of the file.
    Truncated,
    /// No `MZ` signature.
    NotMz,
    /// No `PE\0\0` signature where `e_lfanew` points.
    BadSignature,
    /// The COFF header declares no optional header.
    NoOptionalHeader,
    /// The optional header is too short to hold the CLI header entry.
    NoCliDirectory,
    /// The CLI header entry was read.
    Headers { is_dotnet: bool },
}

/// `n` bytes from offset `o` lie within the image.
pub open spec fn fits(d: Seq<u8>, o: int, n: int) -> bool {
    o + n <= d.len()
}

/// Little-endian 16-bit value at `o`.
pub open spec fn le16(d: Seq<u8>, o: int) -> int {
    d[o] + 256 * d[o + 1]
}

/// Little-endian 32-bit value at `o`.
pub open spec fn le32(d: Seq<u8>, o: int) -> int {
    d[o] + 256 * d[o + 1] + 65536 * d[o + 2] + 16777216 * d[o + 3]
}

/// Offset of the optional header of a PE image whose signature is at `pe`.
pub open spec fn optional_header_at(pe: int) -> int {
    pe + 24
}

/// Offset of the CLI header entry: data directory 14, after a standard
/// part of 96 bytes (PE32) or 112 bytes (PE32+, magic `0x20b`).
pub open spec fn cli_entry_at(pe: int, pe32_plus: bool) -> int {
    optional_header_at(pe) + (if pe32_plus { 112int } else { 96int }) + 14 * 8
}

/// Walks the headers of image `d` in the order the reader does, each
/// read failing when it runs past the end of the file.
pub open spec fn pe_scan(d: Seq<u8>) -> PeScan {
    if !fits(d, 0, 2) {
        PeScan::Truncated
    } else if d[0] != 0x4d || d[1] != 0x5a {
        PeScan::NotMz
    } else if !fits(d, 0x3c, 4) {
        PeScan::Truncated
    } else {
        let pe = le32(d, 0x3c);
        if !fits(d, pe, 4) {
            PeScan::Truncated
        } else if d[pe] != 0x50 || d[pe + 1] != 0x45 || d[pe + 2] != 0 || d[pe + 3] != 0 {
            PeScan::BadSignature
        } else if !fits(d, pe + 4, 20) {
            PeScan::Truncated
        } else {
            let optional_size = le16(d, pe + 4 + 16);
            if optional_size == 0 {
                PeScan::NoOptionalHeader
            } else if !fits(d, optional_header_at(pe), 2) {
                PeScan::Truncated
            } else {
                let cli = cli_entry_at(pe, le16(d, optional_header_at(pe)) == 0x20b);
                if cli + 8 > optional_header_at(pe) + optional_size {
                    PeScan::NoCliDirectory
                } else if !fits(d, cli, 8) {
                    PeScan::Truncated
                } else {
                    PeScan::Headers { is_dotnet: le32(d, cli) != 0 && le32(d, cli + 4) != 0 }
                }
            }
        }
    }
}

/// The verdict on a file named `name` whose contents are `data`, or
/// that could not be read (`None`).
pub open spec fn detect_view(name: Seq<char>, data: Option<Seq<u8>>) -> DetectView {
    let unknown = DetectView {
        path: name,
        is_dotnet: false,
        framework: "Unknown (not a PE file)"@,
        recommended_tool: "ghidra"@,
    };
    match data {
        None => unknown,
        Some(d) => match pe_scan(d) {
            PeScan::Truncated => unknown,
            PeScan::NotMz => DetectView {
                path: name,
                is_dotnet: false,
                framework: "Not a PE file"@,
                recommended_tool: "unknown"@,
            },
            PeScan::BadSignature => DetectView {
                path: name,
                is_dotnet: false,
                framework: "Invalid PE signature"@,
                recommended_tool: "unknown"@,
            },
            PeScan::NoOptionalHeader => DetectView {
                path: name,
                is_dotnet: false,
                framework: "No optional header"@,
                recommended_tool: "ghidra"@,
            },
            PeScan::NoCliDirectory => DetectView {
                path: name,
                is_dotnet: false,
                framework: "Native PE"@,
                recommended_tool: "ghidra"@,
            },
            PeScan::Headers { is_dotnet } => DetectView {
                path: name,
                is_dotnet,
                framework: if is_dotnet {
                    dotnet_framework_text(d)
                } else {
                    native_framework_text(d)
                },
                recommended_tool: if is_dotnet {
                    "ilspy"@
                } else {
                    "ghidra"@
                },
            },
        },
    }
}

/// Whether `n` bytes from offset `o` lie within `d`.
fn in_image(d: &[u8], o: u64, n: u64) -> (r: bool)
    ensures
        r == fits(d@, o as int, n as int),
{
    let len = d.len() as u64;
    o <= len && n <= len - o
}

/// The little-endian 16-bit value at `o`.
fn read_le16(d: &[u8], o: u64) -> (r: u64)
    requires
        fits(d@, o as int, 2),
    ensures
        r == le16(d@, o as int),
{
    let i = o as usize;
    d[i] as u64 + 256 * d[i + 1] as u64
}

/// The little-endian 32-bit value at `o`.
fn read_le32(d: &[u8], o: u64) -> (r: u64)
    requires
        fits(d@, o as int, 4),
    ensures
        r == le32(d@, o as int),
{
    let i = o as usize;
    d[i] as u64 + 256 * d[i + 1] as u64 + 65536 * d[i + 2] as u64 + 16777216 * d[i + 3] as u64
}

/// Walks the headers of `d`.
fn scan_headers(d: &[u8]) -> (r: PeScan)
    ensures
        r == pe_scan(d@),
{
    if !in_image(d, 0, 2) {
        return PeScan::Truncated;
    }
    if d[0] != 0x4d || d[1] != 0x5a {
        return PeScan::NotMz;
    }
    if !in_image(d, 0x3c, 4) {
        return PeScan::Truncated;
    }
    let pe = read_le32(d, 0x3c);
    if !in_image(d, pe, 4) {
        return PeScan::Truncated;
    }
    let p = pe as usize;
    if d[p] != 0x50 || d[p + 1] != 0x45 || d[p + 2] != 0 || d[p + 3] != 0 {
        return PeScan::BadSignature;
    }
    if !in_image(d, pe + 4, 20) {
        return PeScan::Truncated;
    }
    let optional_size = read_le16(d, pe + 4 + 16);
    if optional_size == 0 {
        return PeScan::NoOptionalHeader;
    }
    let optional_at = pe + 24;
    if !in_image(d, optional_at, 2) {
        return PeScan::Truncated;
    }
    let pe32_plus = read_le16(d, optional_at) == 0x20b;
    let base = if pe32_plus {
        optional_at + 112
    } else {
        optional_at + 96
    };
    let cli = base + 14 * 8;
    if cli + 8 > optional_at + optional_size {
        return PeScan::NoCliDirectory;
    }
    if !in_image(d, cli, 8) {
        return PeScan::Truncated;
    }
    let rva = read_le32(d, cli);
    let size = read_le32(d, cli + 4);
    PeScan::Headers { is_dotnet: rva != 0 && size != 0 }
}

/// Classifies the file named `file_name` from its contents; `None`
/// stands for a file that could not be read, which is reported as not a
/// PE file.
pub fn detect_pe(file_name: &str, contents: Option<&[u8]>) -> (r: DetectResult)
    ensures
        r@ == detect_view(
            file_name@,
            match contents {
                Some(c) => Some(c@),
                None => None,
            },
        ),
{
    let name = file_name.to_owned();
    let d = match contents {
        None => {
            return DetectResult {
                path: name,
                is_dotnet: false,
                framework: "Unknown (not a PE file)".to_owned(),
                recommended_tool: "ghidra".to_owned(),
            };
        },
        Some(d) => d,
    };
    match scan_headers(d) {
        PeScan::Truncated => DetectResult {
            path: name,
            is_dotnet: false,
            framework: "Unknown (not a PE file)".to_owned(),
            recommended_tool: "ghidra".to_owned(),
        },
        PeScan::NotMz => DetectResult {
            path: name,
            is_dotnet: false,
            framework: "Not a PE file".to_owned(),
            recommended_tool: "unknown".to_owned(),
        },
        PeScan::BadSignature => DetectResult {
            path: name,
            is_dotnet: false,
            framework: "Invalid PE signature".to_owned(),
            recommended_tool: "unknown".to_owned(),
        },
        PeScan::NoOptionalHeader => DetectResult {
            path: name,
            is_dotnet: false,
            framework: "No optional header".to_owned(),
            recommended_tool: "ghidra".to_owned(),
        },
        PeScan::NoCliDirectory => DetectResult {
            path: name,
            is_dotnet: false,
            framework: "Native PE".to_owned(),
            recommended_tool: "ghidra".to_owned(),
        },
        PeScan::Headers { is_dotnet } => {
            let framework = if is_dotnet {
                detect_framework(d)
            } else {
                detect_native_framework(d)
            };
            let tool = if is_dotnet {
                "ilspy".to_owned()
            } else {
                "ghidra".to_owned()
            };
            DetectResult { path: name, is_dotnet, framework, recommended_tool: tool }
        },
    }
}

/// Whether a lowercased file extension is one of a PE image (`dll`,
/// `exe`).
pub fn is_pe_lowercase_extension(lowered: &str) -> (r: bool)
    ensures
        r == (lowered@ == "dll"@ || lowered@ == "exe"@),
{
    str_eq(lowered, "dll") || str_eq(lowered, "exe")
}

/// Whether a path's extension marks a PE image, in any letter case;
/// `None` stands for a path without a (UTF-8) extension.
pub fn is_pe_extension(extension: Option<&str>) -> (r: bool)
    ensures
        r == match extension {
            Some(e) => lowercase_of(e@) == "dll"@ || lowercase_of(e@) == "exe"@,
            None => false,
        },
{
    match extension {
        Some(e) => {
            let lowered = lowercase(e);
            is_pe_lowercase_extension(lowered.as_str())
        },
        None => false,
    }
}

/// The Delphi marks.
pub open spec fn delphi_mark(m: Seq<u8>) -> bool {
    ||| m == "Embarcadero".spec_bytes()
    ||| m == "Borland".spec_bytes()
    ||| m == "DELPHICLASS".spec_bytes()
    ||| m == "Delphi".spec_bytes()
}

/// The Qt marks.
pub open spec fn qt_mark(m: Seq<u8>) -> bool {
    m == "Qt_".spec_bytes() || m == "QApplication".spec_bytes()
}

/// The MFC marks.
pub open spec fn mfc_mark(m: Seq<u8>) -> bool {
    m == "_MFCXX".spec_bytes() || m == "CWinApp".spec_bytes()
}

proof fn lemma_marks_nonempty()
    ensures
        "Embarcadero".spec_bytes().len() > 0,
        "Borland".spec_bytes().len() > 0,
        "DELPHICLASS".spec_bytes().len() > 0,
        "Delphi".spec_bytes().len() > 0,
        "Qt_".spec_bytes().len() > 0,
        "QApplication".spec_bytes().len() > 0,
        "_MFCXX".spec_bytes().len() > 0,
        "CWinApp".spec_bytes().len() > 0,
{
    reveal_strlit("Embarcadero");
    reveal_strlit("Borland");
    reveal_strlit("DELPHICLASS");
    reveal_strlit("Delphi");
    reveal_strlit("Qt_");
    reveal_strlit("QApplication");
    reveal_strlit("_MFCXX");
    reveal_strlit("CWinApp");
}

/// A native image that holds any Delphi mark (`Embarcadero`, `Borland`,
/// `DELPHICLASS` or `Delphi`) anywhere is reported as Delphi; failing
/// that, one holding a Qt mark (`Qt_`, `QApplication`) as Qt/C++;
/// failing that, one holding an MFC mark (`_MFCXX`, `CWinApp`) as
/// MFC/C++; and one holding none of them as plain native.
pub proof fn lemma_native_framework_marks(d: Seq<u8>, m: Seq<u8>, at: int)
    ensures
        delphi_mark(m) && occurs_at(d, m, at) ==> native_framework_text(d) == "Native (Delphi)"@,
        qt_mark(m) && occurs_at(d, m, at) && (forall|x: Seq<u8>, k: int| delphi_mark(x) ==> !#[trigger] occurs_at(d, x, k))
            ==> native_framework_text(d) == "Native (Qt/C++)"@,
        mfc_mark(m) && occurs_at(d, m, at) && (forall|x: Seq<u8>, k: int|
            (delphi_mark(x) || qt_mark(x)) ==> !#[trigger] occurs_at(d, x, k))
            ==> native_framework_text(d) == "Native (MFC/C++)"@,
        (forall|x: Seq<u8>, k: int| (delphi_mark(x) || qt_mark(x) || mfc_mark(x)) ==> !#[trigger] occurs_at(d, x, k))
            ==> native_framework_text(d) == "Native"@,
{
    lemma_marks_nonempty();
}

} // verus!
