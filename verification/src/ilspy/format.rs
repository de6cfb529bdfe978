//! Text renderings of the bridge's records and of detection results.

use vstd::prelude::*;
use crate::text::{lowercase, lowercase_of, join, joined, texts, u64_decimal, decimal, text_lines, lines_of};
use crate::ilspy::cli::OutputFormat;
use crate::ilspy::types::{
    AssemblyInfo, AssemblyReference, DecompileResult, MethodInfo, ParameterInfo, SearchMatch, SearchResult,
    TypeInfo,
};

verus! {

/// The verdict on one file.
#[derive(Clone, Debug)]
pub struct DetectResult {
    /// The file's name.
    pub path: String,
    pub is_dotnet: bool,
    /// The framework description.
    pub framework: String,
    /// `ilspy`, `ghidra` or `unknown`.
    pub recommended_tool: String,
}

/// A [`DetectResult`] taken by its text.
pub struct DetectView {
    pub path: Seq<char>,
    pub is_dotnet: bool,
    pub framework: Seq<char>,
    pub recommended_tool: Seq<char>,
}

impl View for DetectResult {
    type V = DetectView;

    open spec fn view(&self) -> DetectView {
        DetectView {
            path: self.path@,
            is_dotnet: self.is_dotnet,
            framework: self.framework@,
            recommended_tool: self.recommended_tool@,
        }
    }
}

/// The modifier list of a method: its lowercased accessibility, then
/// `static`, `virtual` and `abstract` where they apply, separated by
/// single spaces.
pub open spec fn modifiers_text(access: Seq<char>, is_static: bool, is_virtual: bool, is_abstract: bool) -> Seq<char> {
    access + (if is_static { " static"@ } else { Seq::empty() }) + (if is_virtual {
        " virtual"@
    } else {
        Seq::empty()
    }) + (if is_abstract { " abstract"@ } else { Seq::empty() })
}

/// Joins an already lowercased accessibility with the method's flags.
pub fn modifiers_from_lowercase(access: &str, is_static: bool, is_virtual: bool, is_abstract: bool) -> (r: String)
    ensures
        r@ == modifiers_text(access@, is_static, is_virtual, is_abstract),
{
    let mut mods = access.to_owned();
    if is_static {
        mods.append(" static");
    }
    if is_virtual {
        mods.append(" virtual");
    }
    if is_abstract {
        mods.append(" abstract");
    }
    mods
}

/// The modifier list shown for a method.
pub fn build_modifiers(m: &MethodInfo) -> (r: String)
    ensures
        r@ == modifiers_text(lowercase_of(m.accessibility@), m.is_static, m.is_virtual, m.is_abstract),
{
    let access = lowercase(m.accessibility.as_str());
    modifiers_from_lowercase(access.as_str(), m.is_static, m.is_virtual, m.is_abstract)
}

/// How a listing is to be printed.
pub enum Rendered {
    /// This text.
    Text(String),
    /// The records as minified JSON.
    Json,
    /// The records as pretty-printed JSON.
    JsonPretty,
    /// A table with these headers and rows.
    Table { header: Vec<String>, rows: Vec<Vec<String>> },
    /// This text followed by a table.
    TextThenTable { text: String, header: Vec<String>, rows: Vec<Vec<String>> },
}

/// A rendering taken by its text.
pub enum RenderedView {
    Text(Seq<char>),
    Json,
    JsonPretty,
    Table { header: Seq<Seq<char>>, rows: Seq<Seq<Seq<char>>> },
    TextThenTable { text: Seq<char>, header: Seq<Seq<char>>, rows: Seq<Seq<Seq<char>>> },
}

/// The texts of table rows.
pub open spec fn cells_text(rows: Seq<Vec<String>>) -> Seq<Seq<Seq<char>>> {
    rows.map_values(|r: Vec<String>| texts(r@))
}

/// The view of a rendering.
pub open spec fn rendered_view(r: Rendered) -> RenderedView {
    match r {
        Rendered::Text(t) => RenderedView::Text(t@),
        Rendered::Json => RenderedView::Json,
        Rendered::JsonPretty => RenderedView::JsonPretty,
        Rendered::Table { header, rows } => RenderedView::Table { header: texts(header@), rows: cells_text(rows@) },
        Rendered::TextThenTable { text, header, rows } => RenderedView::TextThenTable {
            text: text@,
            header: texts(header@),
            rows: cells_text(rows@),
        },
    }
}

/// `yes` or `no`.
pub open spec fn yes_no(b: bool) -> Seq<char> {
    if b {
        "yes"@
    } else {
        "no"@
    }
}

/// The compact line of a type.
pub open spec fn type_line(t: TypeInfo) -> Seq<char> {
    t.full_name@ + " ("@ + t.kind@ + ") ["@ + decimal(t.method_count as nat) + " methods, "@ + decimal(
        t.property_count as nat,
    ) + " props, "@ + decimal(t.field_count as nat) + " fields]"@
}

/// The table row of a type.
pub open spec fn type_row(t: TypeInfo) -> Seq<Seq<char>> {
    seq![
        t.full_name@,
        t.kind@,
        decimal(t.method_count as nat),
        decimal(t.property_count as nat),
        decimal(t.field_count as nat),
        yes_no(t.is_public),
    ]
}

/// How a list of types is printed.
pub open spec fn types_rendering(ts: Seq<TypeInfo>, f: OutputFormat) -> RenderedView {
    match f {
        OutputFormat::Json => RenderedView::Json,
        OutputFormat::JsonPretty => RenderedView::JsonPretty,
        OutputFormat::Table => RenderedView::Table {
            header: seq!["Type"@, "Kind"@, "Methods"@, "Props"@, "Fields"@, "Public"@],
            rows: ts.map_values(|t: TypeInfo| type_row(t)),
        },
        _ => RenderedView::Text(joined(ts.map_values(|t: TypeInfo| type_line(t)), "\n"@)),
    }
}

/// A list of string literals as owned strings.
fn header_of(names: &[&str]) -> (r: Vec<String>)
    ensures
        r@.len() == names@.len(),
        forall|i: int| 0 <= i < names@.len() ==> (#[trigger] r@[i])@ == names@[i]@,
{
    let mut out: Vec<String> = Vec::new();
    let mut i: usize = 0;
    while i < names.len()
        invariant
            i <= names@.len(),
            out@.len() == i,
            forall|j: int| 0 <= j < i ==> (#[trigger] out@[j])@ == names@[j]@,
        decreases names@.len() - i,
    {
        out.push(names[i].to_owned());
        i += 1;
    }
    out
}

/// The count text of `n`.
fn count_text(n: usize) -> (r: String)
    ensures
        r@ == decimal(n as nat),
{
    u64_decimal(n as u64)
}

/// The compact line of a type.
fn format_type_line(t: &TypeInfo) -> (r: String)
    ensures
        r@ == type_line(*t),
{
    let mut s = t.full_name.clone();
    s.append(" (");
    s.append(t.kind.as_str());
    s.append(") [");
    s.append(count_text(t.method_count).as_str());
    s.append(" methods, ");
    s.append(count_text(t.property_count).as_str());
    s.append(" props, ");
    s.append(count_text(t.field_count).as_str());
    s.append(" fields]");
    s
}

/// The table row of a type.
fn format_type_row(t: &TypeInfo) -> (r: Vec<String>)
    ensures
        texts(r@) == type_row(*t),
{
    let mut row: Vec<String> = Vec::new();
    row.push(t.full_name.clone());
    row.push(t.kind.clone());
    row.push(count_text(t.method_count));
    row.push(count_text(t.property_count));
    row.push(count_text(t.field_count));
    row.push(if t.is_public { "yes".to_owned() } else { "no".to_owned() });
    assert(texts(row@) =~= type_row(*t));
    row
}

/// Renders a list of types.
pub fn format_types(types: &[TypeInfo], format: OutputFormat) -> (r: Rendered)
    ensures
        rendered_view(r) == types_rendering(types@, format),
{
    match format {
        OutputFormat::Json => Rendered::Json,
        OutputFormat::JsonPretty => Rendered::JsonPretty,
        OutputFormat::Table => {
            let header = header_of(&["Type", "Kind", "Methods", "Props", "Fields", "Public"]);
            let mut rows: Vec<Vec<String>> = Vec::new();
            let mut i: usize = 0;
            while i < types.len()
                invariant
                    i <= types@.len(),
                    cells_text(rows@) =~= types@.take(i as int).map_values(|t: TypeInfo| type_row(t)),
                decreases types@.len() - i,
            {
                let row = format_type_row(&types[i]);
                let ghost prev = rows@;
                rows.push(row);
                assert(cells_text(rows@) =~= cells_text(prev).push(type_row(types@[i as int])));
                assert(types@.take(i + 1).map_values(|t: TypeInfo| type_row(t)) =~= types@.take(i as int).map_values(
                    |t: TypeInfo| type_row(t),
                ).push(type_row(types@[i as int])));
                i += 1;
            }
            assert(types@.take(types@.len() as int) =~= types@);
            assert(texts(header@) =~= seq!["Type"@, "Kind"@, "Methods"@, "Props"@, "Fields"@, "Public"@]);
            Rendered::Table { header, rows }
        },
        _ => {
            let mut lines: Vec<String> = Vec::new();
            let mut i: usize = 0;
            while i < types.len()
                invariant
                    i <= types@.len(),
                    texts(lines@) =~= types@.take(i as int).map_values(|t: TypeInfo| type_line(t)),
                decreases types@.len() - i,
            {
                let line = format_type_line(&types[i]);
                let ghost prev = lines@;
                lines.push(line);
                assert(texts(lines@) =~= texts(prev).push(type_line(types@[i as int])));
                assert(types@.take(i + 1).map_values(|t: TypeInfo| type_line(t)) =~= types@.take(i as int).map_values(
                    |t: TypeInfo| type_line(t),
                ).push(type_line(types@[i as int])));
                i += 1;
            }
            assert(types@.take(types@.len() as int) =~= types@);
            Rendered::Text(join(&lines, "\n"))
        },
    }
}

/// The parameter list of a method: `type name` pairs separated by
/// commas.
pub open spec fn params_text(ps: Seq<ParameterInfo>) -> Seq<char> {
    joined(ps.map_values(|p: ParameterInfo| p.param_type@ + " "@ + p.name@), ", "@)
}

/// The modifiers shown for a method.
pub open spec fn method_modifiers(m: MethodInfo) -> Seq<char> {
    modifiers_text(lowercase_of(m.accessibility@), m.is_static, m.is_virtual, m.is_abstract)
}

/// The compact line of a method.
pub open spec fn method_line(m: MethodInfo) -> Seq<char> {
    m.declaring_type@ + "::"@ + m.name@ + " → "@ + m.return_type@ + " "@ + method_modifiers(m) + "("@
        + params_text(m.parameters@) + ")"@
}

/// The table row of a method.
pub open spec fn method_row(m: MethodInfo) -> Seq<Seq<char>> {
    seq![m.declaring_type@, m.name@, m.return_type@, params_text(m.parameters@), method_modifiers(m)]
}

/// How a list of methods is printed.
pub open spec fn methods_rendering(ms: Seq<MethodInfo>, f: OutputFormat) -> RenderedView {
    match f {
        OutputFormat::Json => RenderedView::Json,
        OutputFormat::JsonPretty => RenderedView::JsonPretty,
        OutputFormat::Table => RenderedView::Table {
            header: seq!["Type"@, "Method"@, "Return"@, "Parameters"@, "Modifiers"@],
            rows: ms.map_values(|m: MethodInfo| method_row(m)),
        },
        _ => RenderedView::Text(joined(ms.map_values(|m: MethodInfo| method_line(m)), "\n"@)),
    }
}

/// The parameter list of a method.
fn format_params(ps: &Vec<ParameterInfo>) -> (r: String)
    ensures
        r@ == params_text(ps@),
{
    let mut parts: Vec<String> = Vec::new();
    let mut i: usize = 0;
    while i < ps.len()
        invariant
            i <= ps@.len(),
            texts(parts@) =~= ps@.take(i as int).map_values(|p: ParameterInfo| p.param_type@ + " "@ + p.name@),
        decreases ps@.len() - i,
    {
        let mut part = ps[i].param_type.clone();
        part.append(" ");
        part.append(ps[i].name.as_str());
        let ghost prev = parts@;
        parts.push(part);
        assert(texts(parts@) =~= texts(prev).push(ps@[i as int].param_type@ + " "@ + ps@[i as int].name@));
        assert(ps@.take(i + 1).map_values(|p: ParameterInfo| p.param_type@ + " "@ + p.name@) =~= ps@.take(
            i as int,
        ).map_values(|p: ParameterInfo| p.param_type@ + " "@ + p.name@).push(
            ps@[i as int].param_type@ + " "@ + ps@[i as int].name@,
        ));
        i += 1;
    }
    assert(ps@.take(ps@.len() as int) =~= ps@);
    join(&parts, ", ")
}

/// The compact line of a method.
fn format_method_line(m: &MethodInfo) -> (r: String)
    ensures
        r@ == method_line(*m),
{
    let mut s = m.declaring_type.clone();
    s.append("::");
    s.append(m.name.as_str());
    s.append(" → ");
    s.append(m.return_type.as_str());
    s.append(" ");
    s.append(build_modifiers(m).as_str());
    s.append("(");
    s.append(format_params(&m.parameters).as_str());
    s.append(")");
    s
}

/// The table row of a method.
fn format_method_row(m: &MethodInfo) -> (r: Vec<String>)
    ensures
        texts(r@) == method_row(*m),
{
    let mut row: Vec<String> = Vec::new();
    row.push(m.declaring_type.clone());
    row.push(m.name.clone());
    row.push(m.return_type.clone());
    row.push(format_params(&m.parameters));
    row.push(build_modifiers(m));
    assert(texts(row@) =~= method_row(*m));
    row
}

/// Renders a list of methods.
pub fn format_methods(methods: &[MethodInfo], format: OutputFormat) -> (r: Rendered)
    ensures
        rendered_view(r) == methods_rendering(methods@, format),
{
    match format {
        OutputFormat::Json => Rendered::Json,
        OutputFormat::JsonPretty => Rendered::JsonPretty,
        OutputFormat::Table => {
            let header = header_of(&["Type", "Method", "Return", "Parameters", "Modifiers"]);
            let mut rows: Vec<Vec<String>> = Vec::new();
            let mut i: usize = 0;
            while i < methods.len()
                invariant
                    i <= methods@.len(),
                    cells_text(rows@) =~= methods@.take(i as int).map_values(|m: MethodInfo| method_row(m)),
                decreases methods@.len() - i,
            {
                let row = format_method_row(&methods[i]);
                let ghost prev = rows@;
                rows.push(row);
                assert(cells_text(rows@) =~= cells_text(prev).push(method_row(methods@[i as int])));
                assert(methods@.take(i + 1).map_values(|m: MethodInfo| method_row(m)) =~= methods@.take(
                    i as int,
                ).map_values(|m: MethodInfo| method_row(m)).push(method_row(methods@[i as int])));
                i += 1;
            }
            assert(methods@.take(methods@.len() as int) =~= methods@);
            assert(texts(header@) =~= seq!["Type"@, "Method"@, "Return"@, "Parameters"@, "Modifiers"@]);
            Rendered::Table { header, rows }
        },
        _ => {
            let mut lines: Vec<String> = Vec::new();
            let mut i: usize = 0;
            while i < methods.len()
                invariant
                    i <= methods@.len(),
                    texts(lines@) =~= methods@.take(i as int).map_values(|m: MethodInfo| method_line(m)),
                decreases methods@.len() - i,
            {
                let line = format_method_line(&methods[i]);
                let ghost prev = lines@;
                lines.push(line);
                assert(texts(lines@) =~= texts(prev).push(method_line(methods@[i as int])));
                assert(methods@.take(i + 1).map_values(|m: MethodInfo| method_line(m)) =~= methods@.take(
                    i as int,
                ).map_values(|m: MethodInfo| method_line(m)).push(method_line(methods@[i as int])));
                i += 1;
            }
            assert(methods@.take(methods@.len() as int) =~= methods@);
            Rendered::Text(join(&lines, "\n"))
        },
    }
}

/// Renders decompiled source: JSON when asked for, else the source.
pub fn format_decompile(result: &DecompileResult, format: OutputFormat) -> (r: Rendered)
    ensures
        rendered_view(r) == match format {
            OutputFormat::Json => RenderedView::Json,
            OutputFormat::JsonPretty => RenderedView::JsonPretty,
            _ => RenderedView::Text(result.source@),
        },
{
    match format {
        OutputFormat::Json => Rendered::Json,
        OutputFormat::JsonPretty => Rendered::JsonPretty,
        _ => Rendered::Text(result.source.clone()),
    }
}

/// The line of one reference.
pub open spec fn reference_line(r: AssemblyReference) -> Seq<char> {
    "  "@ + r.name@ + " v"@ + r.version@
}

/// The compact lines of assembly metadata.
pub open spec fn assembly_lines(info: AssemblyInfo) -> Seq<Seq<char>> {
    seq![
        "Assembly: "@ + info.name@,
        "Framework: "@ + info.target_framework@,
        "Types: "@ + decimal(info.type_count as nat),
        "References: "@ + decimal(info.references@.len()),
    ] + info.references@.map_values(|r: AssemblyReference| reference_line(r))
}

/// How assembly metadata is printed.
pub open spec fn assembly_rendering(info: AssemblyInfo, f: OutputFormat) -> RenderedView {
    match f {
        OutputFormat::Json => RenderedView::Json,
        OutputFormat::JsonPretty => RenderedView::JsonPretty,
        OutputFormat::Table => RenderedView::TextThenTable {
            text: "Assembly: "@ + info.name@ + "\nFramework: "@ + info.target_framework@ + "\nTypes: "@
                + decimal(info.type_count as nat) + "\n\nReferences:\n"@,
            header: seq!["Reference"@, "Version"@],
            rows: info.references@.map_values(|r: AssemblyReference| seq![r.name@, r.version@]),
        },
        _ => RenderedView::Text(joined(assembly_lines(info), "\n"@)),
    }
}

/// `prefix` followed by `rest`.
fn labelled(prefix: &str, rest: &str) -> (r: String)
    ensures
        r@ == prefix@ + rest@,
{
    let mut s = prefix.to_owned();
    s.append(rest);
    s
}

/// Renders assembly metadata.
pub fn format_assembly_info(info: &AssemblyInfo, format: OutputFormat) -> (r: Rendered)
    ensures
        rendered_view(r) == assembly_rendering(*info, format),
{
    match format {
        OutputFormat::Json => Rendered::Json,
        OutputFormat::JsonPretty => Rendered::JsonPretty,
        OutputFormat::Table => {
            let mut text = labelled("Assembly: ", info.name.as_str());
            text.append("\nFramework: ");
            text.append(info.target_framework.as_str());
            text.append("\nTypes: ");
            text.append(count_text(info.type_count).as_str());
            text.append("\n\nReferences:\n");
            let header = header_of(&["Reference", "Version"]);
            let mut rows: Vec<Vec<String>> = Vec::new();
            let mut i: usize = 0;
            while i < info.references.len()
                invariant
                    i <= info.references@.len(),
                    cells_text(rows@) =~= info.references@.take(i as int).map_values(
                        |r: AssemblyReference| seq![r.name@, r.version@],
                    ),
                decreases info.references@.len() - i,
            {
                let mut row: Vec<String> = Vec::new();
                row.push(info.references[i].name.clone());
                row.push(info.references[i].version.clone());
                assert(texts(row@) =~= seq![info.references@[i as int].name@, info.references@[i as int].version@]);
                let ghost prev = rows@;
                rows.push(row);
                let ghost refr = info.references@[i as int];
                assert(cells_text(rows@) =~= cells_text(prev).push(seq![refr.name@, refr.version@]));
                assert(info.references@.take(i + 1).map_values(|r: AssemblyReference| seq![r.name@, r.version@])
                    =~= info.references@.take(i as int).map_values(|r: AssemblyReference| seq![r.name@, r.version@]).push(
                    seq![refr.name@, refr.version@],
                ));
                i += 1;
            }
            assert(info.references@.take(info.references@.len() as int) =~= info.references@);
            assert(texts(header@) =~= seq!["Reference"@, "Version"@]);
            Rendered::TextThenTable { text, header, rows }
        },
        _ => {
            let mut lines: Vec<String> = Vec::new();
            lines.push(labelled("Assembly: ", info.name.as_str()));
            lines.push(labelled("Framework: ", info.target_framework.as_str()));
            lines.push(labelled("Types: ", count_text(info.type_count).as_str()));
            lines.push(labelled("References: ", count_text(info.references.len()).as_str()));
            let ghost head = texts(lines@);
            let mut i: usize = 0;
            while i < info.references.len()
                invariant
                    i <= info.references@.len(),
                    texts(lines@) =~= head + info.references@.take(i as int).map_values(
                        |r: AssemblyReference| reference_line(r),
                    ),
                decreases info.references@.len() - i,
            {
                let mut line = labelled("  ", info.references[i].name.as_str());
                line.append(" v");
                line.append(info.references[i].version.as_str());
                let ghost prev = lines@;
                lines.push(line);
                assert(texts(lines@) =~= texts(prev).push(reference_line(info.references@[i as int])));
                assert(info.references@.take(i + 1).map_values(|r: AssemblyReference| reference_line(r))
                    =~= info.references@.take(i as int).map_values(|r: AssemblyReference| reference_line(r)).push(
                    reference_line(info.references@[i as int]),
                ));
                i += 1;
            }
            assert(info.references@.take(info.references@.len() as int) =~= info.references@);
            assert(texts(lines@) =~= assembly_lines(*info));
            Rendered::Text(join(&lines, "\n"))
        },
    }
}

/// The lines printed for one match: where it is, then its context
/// indented.
pub open spec fn match_lines(m: SearchMatch) -> Seq<Seq<char>> {
    seq!["  Line "@ + decimal(m.line as nat) + ": "@ + m.matched@] + lines_of(m.context@).map_values(
        |l: Seq<char>| "    "@ + l,
    )
}

/// The lines printed for a list of matches.
pub open spec fn matches_lines(ms: Seq<SearchMatch>) -> Seq<Seq<char>>
    decreases ms.len(),
{
    if ms.len() == 0 {
        Seq::empty()
    } else {
        matches_lines(ms.drop_last()) + match_lines(ms.last())
    }
}

/// The lines printed for search results: a heading per type, then its
/// matches.
pub open spec fn search_lines(rs: Seq<SearchResult>) -> Seq<Seq<char>>
    decreases rs.len(),
{
    if rs.len() == 0 {
        Seq::empty()
    } else {
        let r = rs.last();
        search_lines(rs.drop_last()) + seq![
            "── "@ + r.type_full_name@ + " ("@ + decimal(r.match_count as nat) + " matches) ──"@,
        ] + matches_lines(r.matches@)
    }
}

/// How search results are printed.
pub open spec fn search_rendering(rs: Seq<SearchResult>, f: OutputFormat) -> RenderedView {
    match f {
        OutputFormat::Json => RenderedView::Json,
        OutputFormat::JsonPretty => RenderedView::JsonPretty,
        _ => RenderedView::Text(
            if search_lines(rs).len() == 0 {
                "No matches found."@
            } else {
                joined(search_lines(rs), "\n"@)
            },
        ),
    }
}

/// Appends the lines of one match.
fn push_match_lines(lines: &mut Vec<String>, m: &SearchMatch)
    ensures
        texts(final(lines)@) == texts(old(lines)@) + match_lines(*m),
{
    let mut first = labelled("  Line ", count_text(m.line).as_str());
    first.append(": ");
    first.append(m.matched.as_str());
    lines.push(first);
    let ghost base = texts(lines@);
    let ctx = text_lines(m.context.as_str());
    let mut j: usize = 0;
    while j < ctx.len()
        invariant
            j <= ctx@.len(),
            texts(ctx@) == lines_of(m.context@),
            texts(lines@) =~= base + texts(ctx@).take(j as int).map_values(|l: Seq<char>| "    "@ + l),
        decreases ctx@.len() - j,
    {
        let l = labelled("    ", ctx[j].as_str());
        let ghost prev = lines@;
        lines.push(l);
        assert(texts(lines@) =~= texts(prev).push("    "@ + ctx@[j as int]@));
        assert(texts(ctx@)[j as int] == ctx@[j as int]@);
        assert(texts(ctx@).take(j + 1).map_values(|l: Seq<char>| "    "@ + l) =~= texts(ctx@).take(j as int).map_values(
            |l: Seq<char>| "    "@ + l,
        ).push("    "@ + ctx@[j as int]@));
        j += 1;
    }
    assert(texts(ctx@).take(ctx@.len() as int) =~= texts(ctx@));
}

/// Renders search results.
pub fn format_search(results: &[SearchResult], format: OutputFormat) -> (r: Rendered)
    ensures
        rendered_view(r) == search_rendering(results@, format),
{
    match format {
        OutputFormat::Json => Rendered::Json,
        OutputFormat::JsonPretty => Rendered::JsonPretty,
        _ => {
            let mut lines: Vec<String> = Vec::new();
            let mut i: usize = 0;
            assert(results@.take(0) =~= Seq::<SearchResult>::empty());
            while i < results.len()
                invariant
                    i <= results@.len(),
                    texts(lines@) =~= search_lines(results@.take(i as int)),
                decreases results@.len() - i,
            {
                let r = &results[i];
                let mut heading = labelled("── ", r.type_full_name.as_str());
                heading.append(" (");
                heading.append(count_text(r.match_count).as_str());
                heading.append(" matches) ──");
                lines.push(heading);
                let ghost after_heading = texts(lines@);
                let mut j: usize = 0;
                assert(r.matches@.take(0) =~= Seq::<SearchMatch>::empty());
                while j < r.matches.len()
                    invariant
                        j <= r.matches@.len(),
                        texts(lines@) =~= after_heading + matches_lines(r.matches@.take(j as int)),
                    decreases r.matches@.len() - j,
                {
                    push_match_lines(&mut lines, &r.matches[j]);
                    assert(r.matches@.take(j + 1).drop_last() =~= r.matches@.take(j as int));
                    j += 1;
                }
                assert(r.matches@.take(r.matches@.len() as int) =~= r.matches@);
                assert(results@.take(i + 1).drop_last() =~= results@.take(i as int));
                i += 1;
            }
            assert(results@.take(results@.len() as int) =~= results@);
            if lines.len() == 0 {
                Rendered::Text("No matches found.".to_owned())
            } else {
                Rendered::Text(join(&lines, "\n"))
            }
        },
    }
}

/// The compact line of a detection result.
pub open spec fn detect_line(r: DetectView) -> Seq<char> {
    r.path + ": "@ + r.framework + " ["@ + r.recommended_tool + "]"@
}

/// The table row of a detection result.
pub open spec fn detect_row(r: DetectView) -> Seq<Seq<char>> {
    seq![r.path, if r.is_dotnet { ".NET"@ } else { "Native"@ }, r.framework, r.recommended_tool]
}

/// How detection results are printed.
pub open spec fn detect_rendering(rs: Seq<DetectResult>, f: OutputFormat) -> RenderedView {
    match f {
        OutputFormat::Json => RenderedView::Json,
        OutputFormat::JsonPretty => RenderedView::JsonPretty,
        OutputFormat::Table => RenderedView::Table {
            header: seq!["File"@, "Type"@, "Framework"@, "Tool"@],
            rows: rs.map_values(|r: DetectResult| detect_row(r@)),
        },
        _ => RenderedView::Text(joined(rs.map_values(|r: DetectResult| detect_line(r@)), "\n"@)),
    }
}

/// Renders detection results.
pub fn format_detect(results: &[DetectResult], format: OutputFormat) -> (r: Rendered)
    ensures
        rendered_view(r) == detect_rendering(results@, format),
{
    match format {
        OutputFormat::Json => Rendered::Json,
        OutputFormat::JsonPretty => Rendered::JsonPretty,
        OutputFormat::Table => {
            let header = header_of(&["File", "Type", "Framework", "Tool"]);
            let mut rows: Vec<Vec<String>> = Vec::new();
            let mut i: usize = 0;
            while i < results.len()
                invariant
                    i <= results@.len(),
                    cells_text(rows@) =~= results@.take(i as int).map_values(|r: DetectResult| detect_row(r@)),
                decreases results@.len() - i,
            {
                let r = &results[i];
                let mut row: Vec<String> = Vec::new();
                row.push(r.path.clone());
                row.push(if r.is_dotnet { ".NET".to_owned() } else { "Native".to_owned() });
                row.push(r.framework.clone());
                row.push(r.recommended_tool.clone());
                assert(texts(row@) =~= detect_row(r@));
                let ghost prev = rows@;
                rows.push(row);
                assert(cells_text(rows@) =~= cells_text(prev).push(detect_row(results@[i as int]@)));
                assert(results@.take(i + 1).map_values(|r: DetectResult| detect_row(r@)) =~= results@.take(
                    i as int,
                ).map_values(|r: DetectResult| detect_row(r@)).push(detect_row(results@[i as int]@)));
                i += 1;
            }
            assert(results@.take(results@.len() as int) =~= results@);
            assert(texts(header@) =~= seq!["File"@, "Type"@, "Framework"@, "Tool"@]);
            Rendered::Table { header, rows }
        },
        _ => {
            let mut lines: Vec<String> = Vec::new();
            let mut i: usize = 0;
            while i < results.len()
                invariant
                    i <= results@.len(),
                    texts(lines@) =~= results@.take(i as int).map_values(|r: DetectResult| detect_line(r@)),
                decreases results@.len() - i,
            {
                let r = &results[i];
                let mut line = r.path.clone();
                line.append(": ");
                line.append(r.framework.as_str());
                line.append(" [");
                line.append(r.recommended_tool.as_str());
                line.append("]");
                let ghost prev = lines@;
                lines.push(line);
                assert(texts(lines@) =~= texts(prev).push(detect_line(results@[i as int]@)));
                assert(results@.take(i + 1).map_values(|r: DetectResult| detect_line(r@)) =~= results@.take(
                    i as int,
                ).map_values(|r: DetectResult| detect_line(r@)).push(detect_line(results@[i as int]@)));
                i += 1;
            }
            assert(results@.take(results@.len() as int) =~= results@);
            Rendered::Text(join(&lines, "\n"))
        },
    }
}

/// The type table lines each cell up with its header: for every type
/// and every column, the cell under `Type` is the full name, under
/// `Kind` the kind, under `Methods`, `Props` and `Fields` the method,
/// property and field counts in decimal, and under `Public` `yes` or
/// `no` as the type is public or not; there is one row per type, in
/// order, and the six headers are distinct.
pub proof fn lemma_type_table_columns(ts: Seq<TypeInfo>, i: int, j: int)
    requires
        0 <= i < ts.len(),
        0 <= j < 6,
    ensures
        types_rendering(ts, OutputFormat::Table) matches RenderedView::Table { header, rows } && {
            let t = ts[i];
            let cell = rows[i][j];
            &&& header.len() == 6
            &&& rows.len() == ts.len()
            &&& rows[i].len() == 6
            &&& header[j] == "Type"@ ==> cell == t.full_name@
            &&& header[j] == "Kind"@ ==> cell == t.kind@
            &&& header[j] == "Methods"@ ==> cell == decimal(t.method_count as nat)
            &&& header[j] == "Props"@ ==> cell == decimal(t.property_count as nat)
            &&& header[j] == "Fields"@ ==> cell == decimal(t.field_count as nat)
            &&& header[j] == "Public"@ ==> (cell == "yes"@ <==> t.is_public)
            &&& forall|k: int| 0 <= k < 6 && k != j ==> header[k] != header[j]
        },
{
    reveal_strlit("Type");
    reveal_strlit("Kind");
    reveal_strlit("Methods");
    reveal_strlit("Props");
    reveal_strlit("Fields");
    reveal_strlit("Public");
    reveal_strlit("yes");
    reveal_strlit("no");
    let header = seq!["Type"@, "Kind"@, "Methods"@, "Props"@, "Fields"@, "Public"@];
    assert("Type"@.len() == 4 && "Kind"@.len() == 4 && "Methods"@.len() == 7 && "Props"@.len() == 5
        && "Fields"@.len() == 6 && "Public"@.len() == 6);
    assert("Type"@[0] != "Kind"@[0]);
    assert("Fields"@[0] != "Public"@[0]);
    assert("yes"@.len() != "no"@.len());
}

/// The compact line of a type reads `name (kind) [M methods, P props,
/// F fields]`: the method, property and field counts each stand in
/// decimal right before their own label.
pub proof fn lemma_type_line_labels(t: TypeInfo)
    ensures
        type_line(t) == t.full_name@ + " ("@ + t.kind@ + ") ["@ + (decimal(t.method_count as nat)
            + " methods, "@) + (decimal(t.property_count as nat) + " props, "@) + (decimal(
            t.field_count as nat,
        ) + " fields]"@),
{
    let m = decimal(t.method_count as nat);
    let p = decimal(t.property_count as nat);
    let f = decimal(t.field_count as nat);
    let pre = t.full_name@ + " ("@ + t.kind@ + ") ["@;
    assert(pre + m + " methods, "@ + p + " props, "@ + f + " fields]"@ =~= pre + (m + " methods, "@) + (p
        + " props, "@) + (f + " fields]"@));
}

} // verus!
