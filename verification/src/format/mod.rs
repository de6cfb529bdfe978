//! Output formats of the Ghidra front end and their selection.

use vstd::prelude::*;
use crate::error::GhidraError;
use crate::text::{lowercase, lowercase_of, str_eq, join, joined, texts, u64_decimal, decimal};

verus! {

/// How query results are printed.
#[derive(Clone, Copy, Debug, PartialEq, Eq, Structural)]
pub enum OutputFormat {
    Full,
    Compact,
    Minimal,
    Json,
    JsonCompact,
    JsonStream,
    Csv,
    Tsv,
    Table,
    Ids,
    Count,
    Tree,
    Hex,
    Asm,
    C,
}

/// The format a lowercase name stands for.
pub open spec fn format_named(name: Seq<char>) -> Option<OutputFormat> {
    if name == "full"@ {
        Some(OutputFormat::Full)
    } else if name == "compact"@ {
        Some(OutputFormat::Compact)
    } else if name == "minimal"@ {
        Some(OutputFormat::Minimal)
    } else if name == "json"@ {
        Some(OutputFormat::Json)
    } else if name == "json-compact"@ {
        Some(OutputFormat::JsonCompact)
    } else if name == "json-stream"@ || name == "ndjson"@ {
        Some(OutputFormat::JsonStream)
    } else if name == "csv"@ {
        Some(OutputFormat::Csv)
    } else if name == "tsv"@ {
        Some(OutputFormat::Tsv)
    } else if name == "table"@ {
        Some(OutputFormat::Table)
    } else if name == "ids"@ {
        Some(OutputFormat::Ids)
    } else if name == "count"@ {
        Some(OutputFormat::Count)
    } else if name == "tree"@ {
        Some(OutputFormat::Tree)
    } else if name == "hex"@ {
        Some(OutputFormat::Hex)
    } else if name == "asm"@ {
        Some(OutputFormat::Asm)
    } else if name == "c"@ {
        Some(OutputFormat::C)
    } else {
        None
    }
}

impl OutputFormat {
    /// The format named by an already lowercased name.
    pub fn from_lowercase_name(name: &str) -> (r: Option<Self>)
        ensures
            r == format_named(name@),
    {
        if str_eq(name, "full") {
            Some(OutputFormat::Full)
        } else if str_eq(name, "compact") {
            Some(OutputFormat::Compact)
        } else if str_eq(name, "minimal") {
            Some(OutputFormat::Minimal)
        } else if str_eq(name, "json") {
            Some(OutputFormat::Json)
        } else if str_eq(name, "json-compact") {
            Some(OutputFormat::JsonCompact)
        } else if str_eq(name, "json-stream") || str_eq(name, "ndjson") {
            Some(OutputFormat::JsonStream)
        } else if str_eq(name, "csv") {
            Some(OutputFormat::Csv)
        } else if str_eq(name, "tsv") {
            Some(OutputFormat::Tsv)
        } else if str_eq(name, "table") {
            Some(OutputFormat::Table)
        } else if str_eq(name, "ids") {
            Some(OutputFormat::Ids)
        } else if str_eq(name, "count") {
            Some(OutputFormat::Count)
        } else if str_eq(name, "tree") {
            Some(OutputFormat::Tree)
        } else if str_eq(name, "hex") {
            Some(OutputFormat::Hex)
        } else if str_eq(name, "asm") {
            Some(OutputFormat::Asm)
        } else if str_eq(name, "c") {
            Some(OutputFormat::C)
        } else {
            None
        }
    }

    /// Parses a format name in any letter case; an unknown name is an
    /// `InvalidFormat` error whose detail is `Unknown format: <name>`.
    pub fn from_str(s: &str) -> (r: Result<Self, GhidraError>)
        ensures
            match r {
                Ok(f) => format_named(lowercase_of(s@)) == Some(f),
                Err(e) => {
                    &&& format_named(lowercase_of(s@)) is None
                    &&& e matches GhidraError::InvalidFormat(m) && m@ == "Unknown format: "@ + s@
                },
            },
    {
        let lowered = lowercase(s);
        match Self::from_lowercase_name(lowered.as_str()) {
            Some(f) => Ok(f),
            None => {
                let mut m = "Unknown format: ".to_owned();
                m.append(s);
                Err(GhidraError::InvalidFormat(m))
            },
        }
    }

    /// Formats meant for a person reading a terminal.
    pub fn is_human_friendly(&self) -> (r: bool)
        ensures
            r == (*self == OutputFormat::Full || *self == OutputFormat::Compact || *self
                == OutputFormat::Table || *self == OutputFormat::Tree),
    {
        matches!(self, OutputFormat::Full | OutputFormat::Compact | OutputFormat::Table | OutputFormat::Tree)
    }

    /// Formats meant for another program to read.
    pub fn is_machine_friendly(&self) -> (r: bool)
        ensures
            r == (*self == OutputFormat::Json || *self == OutputFormat::JsonCompact || *self
                == OutputFormat::JsonStream || *self == OutputFormat::Csv || *self == OutputFormat::Tsv),
    {
        matches!(
            self,
            OutputFormat::Json | OutputFormat::JsonCompact | OutputFormat::JsonStream | OutputFormat::Csv
                | OutputFormat::Tsv
        )
    }
}

/// The default format: the compact human-readable format on a terminal,
/// compact JSON otherwise.
pub fn auto_detect_format(is_tty: bool) -> (r: OutputFormat)
    ensures
        r == if is_tty {
            OutputFormat::Compact
        } else {
            OutputFormat::JsonCompact
        },
{
    if is_tty {
        OutputFormat::Compact
    } else {
        OutputFormat::JsonCompact
    }
}

/// A JSON value, as the fields the formatter reads.
#[derive(Debug)]
pub enum JsonValue {
    Null,
    Bool(bool),
    /// A number, by its JSON text.
    Number(String),
    Str(String),
    Array(Vec<JsonValue>),
    Object(JsonObject),
}

/// A JSON object: its members in iteration order (sorted by key), and
/// its compact JSON text.
#[derive(Debug)]
pub struct JsonObject {
    pub members: Vec<(String, JsonValue)>,
    pub json: String,
}

/// The cell text of a value: strings unquoted, numbers and literals as
/// written, arrays as `[a, b]` of their items' cell texts, objects as
/// compact JSON.
pub open spec fn value_text(v: JsonValue) -> Seq<char>
    decreases v,
{
    match v {
        JsonValue::Null => "null"@,
        JsonValue::Bool(b) => if b {
            "true"@
        } else {
            "false"@
        },
        JsonValue::Number(t) => t@,
        JsonValue::Str(s) => s@,
        JsonValue::Array(items) => "["@ + joined(items_text(items@), ", "@) + "]"@,
        JsonValue::Object(o) => o.json@,
    }
}

/// The cell texts of a list of values.
pub open spec fn items_text(vs: Seq<JsonValue>) -> Seq<Seq<char>>
    decreases vs,
{
    if vs.len() == 0 {
        Seq::empty()
    } else {
        items_text(vs.subrange(0, vs.len() - 1)).push(value_text(vs[vs.len() - 1]))
    }
}

/// The cell text of a value.
pub fn format_json_value(v: &JsonValue) -> (r: String)
    ensures
        r@ == value_text(*v),
    decreases v,
{
    match v {
        JsonValue::Null => "null".to_owned(),
        JsonValue::Bool(b) => if *b {
            "true".to_owned()
        } else {
            "false".to_owned()
        },
        JsonValue::Number(t) => t.clone(),
        JsonValue::Str(s) => s.clone(),
        JsonValue::Array(items) => {
            let mut parts: Vec<String> = Vec::new();
            let mut i: usize = 0;
            assert(items@.take(0) =~= Seq::<JsonValue>::empty());
            while i < items.len()
                invariant
                    i <= items@.len(),
                    *v == JsonValue::Array(*items),
                    texts(parts@) == items_text(items@.take(i as int)),
                decreases items@.len() - i,
            {
                assert(decreases_to!(*v => (*v)->Array_0));
                assert((*v)->Array_0 == *items);
                assert(decreases_to!(*items => items@));
                assert(decreases_to!(items@ => items@[i as int]));
                let t = format_json_value(&items[i]);
                let ghost prev = parts@;
                parts.push(t);
                let ghost tk = items@.take(i + 1);
                assert(tk.subrange(0, tk.len() - 1) =~= items@.take(i as int));
                assert(texts(parts@) =~= texts(prev).push(value_text(items@[i as int])));
                i += 1;
            }
            assert(items@.take(items@.len() as int) =~= items@);
            let mut out = "[".to_owned();
            let inner = join(&parts, ", ");
            out.append(inner.as_str());
            out.append("]");
            out
        },
        JsonValue::Object(o) => o.json.clone(),
    }
}

/// The value of the first member named `k`.
pub open spec fn member(ms: Seq<(String, JsonValue)>, k: Seq<char>) -> Option<JsonValue>
    decreases ms.len(),
{
    if ms.len() == 0 {
        None
    } else {
        match member(ms.drop_last(), k) {
            Some(v) => Some(v),
            None => if ms.last().0@ == k {
                Some(ms.last().1)
            } else {
                None
            },
        }
    }
}

/// Where the first member named `k` is.
fn find_member(ms: &Vec<(String, JsonValue)>, k: &str) -> (r: Option<usize>)
    ensures
        match r {
            Some(i) => i < ms@.len() && member(ms@, k@) == Some(ms@[i as int].1),
            None => member(ms@, k@) is None,
        },
{
    let mut i: usize = 0;
    assert(ms@.take(0) =~= Seq::<(String, JsonValue)>::empty());
    while i < ms.len()
        invariant
            i <= ms@.len(),
            member(ms@.take(i as int), k@) is None,
        decreases ms@.len() - i,
    {
        assert(ms@.take(i + 1).drop_last() =~= ms@.take(i as int));
        if str_eq(ms[i].0.as_str(), k) {
            proof {
                lemma_member_prefix(ms@, i + 1, k@);
            }
            return Some(i);
        }
        i += 1;
    }
    assert(ms@.take(ms@.len() as int) =~= ms@);
    None
}

proof fn lemma_member_prefix(ms: Seq<(String, JsonValue)>, n: int, k: Seq<char>)
    requires
        0 <= n <= ms.len(),
        member(ms.take(n), k) is Some,
    ensures
        member(ms, k) == member(ms.take(n), k),
    decreases ms.len() - n,
{
    if n < ms.len() {
        assert(ms.take(n + 1).drop_last() =~= ms.take(n));
        lemma_member_prefix(ms, n + 1, k);
    } else {
        assert(ms.take(n) =~= ms);
    }
}

/// The keys of an object's members.
pub open spec fn member_keys(ms: Seq<(String, JsonValue)>) -> Seq<Seq<char>> {
    ms.map_values(|p: (String, JsonValue)| p.0@)
}

/// The cell of column `k` in a row: the member's text, or nothing.
pub open spec fn cell(ms: Seq<(String, JsonValue)>, k: Seq<char>) -> Seq<char> {
    match member(ms, k) {
        Some(v) => value_text(v),
        None => Seq::empty(),
    }
}

/// The cells of a row under the given columns.
pub open spec fn row_cells(ms: Seq<(String, JsonValue)>, keys: Seq<Seq<char>>) -> Seq<Seq<char>> {
    Seq::new(keys.len(), |i: int| cell(ms, keys[i]))
}

/// The rows of the objects among `data` (other values are skipped).
pub open spec fn object_rows(data: Seq<JsonValue>, keys: Seq<Seq<char>>) -> Seq<Seq<Seq<char>>>
    decreases data.len(),
{
    if data.len() == 0 {
        Seq::empty()
    } else {
        let rest = object_rows(data.drop_last(), keys);
        match data.last() {
            JsonValue::Object(o) => rest.push(row_cells(o.members@, keys)),
            _ => rest,
        }
    }
}

/// The keys of a list of members.
fn keys_of(ms: &Vec<(String, JsonValue)>) -> (r: Vec<String>)
    ensures
        texts(r@) == member_keys(ms@),
{
    let mut out: Vec<String> = Vec::new();
    let mut i: usize = 0;
    while i < ms.len()
        invariant
            i <= ms@.len(),
            texts(out@) =~= member_keys(ms@.take(i as int)),
        decreases ms@.len() - i,
    {
        let ghost prev = out@;
        out.push(ms[i].0.clone());
        assert(texts(out@) =~= texts(prev).push(ms@[i as int].0@));
        assert(member_keys(ms@.take(i + 1)) =~= member_keys(ms@.take(i as int)).push(ms@[i as int].0@));
        i += 1;
    }
    assert(ms@.take(ms@.len() as int) =~= ms@);
    out
}

/// The cells of one object under the given columns.
fn cells_of(ms: &Vec<(String, JsonValue)>, keys: &Vec<String>) -> (r: Vec<String>)
    ensures
        texts(r@) == row_cells(ms@, texts(keys@)),
{
    let mut out: Vec<String> = Vec::new();
    let mut i: usize = 0;
    while i < keys.len()
        invariant
            i <= keys@.len(),
            texts(out@) =~= row_cells(ms@, texts(keys@)).take(i as int),
        decreases keys@.len() - i,
    {
        let c = match find_member(ms, keys[i].as_str()) {
            Some(j) => format_json_value(&ms[j].1),
            None => String::new(),
        };
        let ghost prev = out@;
        out.push(c);
        assert(texts(out@) =~= texts(prev).push(cell(ms@, keys@[i as int]@)));
        assert(row_cells(ms@, texts(keys@)).take(i + 1) =~= row_cells(ms@, texts(keys@)).take(i as int).push(
            cell(ms@, keys@[i as int]@),
        ));
        i += 1;
    }
    assert(row_cells(ms@, texts(keys@)).take(keys@.len() as int) =~= row_cells(ms@, texts(keys@)));
    out
}

/// The texts of a list of rows.
pub open spec fn rows_text(rows: Seq<Vec<String>>) -> Seq<Seq<Seq<char>>> {
    rows.map_values(|r: Vec<String>| texts(r@))
}

/// The rows of the objects among `data` under the given columns.
fn rows_of(data: &[JsonValue], keys: &Vec<String>) -> (r: Vec<Vec<String>>)
    ensures
        rows_text(r@) == object_rows(data@, texts(keys@)),
{
    let mut out: Vec<Vec<String>> = Vec::new();
    let mut i: usize = 0;
    assert(data@.take(0) =~= Seq::<JsonValue>::empty());
    while i < data.len()
        invariant
            i <= data@.len(),
            rows_text(out@) =~= object_rows(data@.take(i as int), texts(keys@)),
        decreases data@.len() - i,
    {
        assert(data@.take(i + 1).drop_last() =~= data@.take(i as int));
        if let JsonValue::Object(o) = &data[i] {
            let row = cells_of(&o.members, keys);
            let ghost prev = out@;
            out.push(row);
            assert(rows_text(out@) =~= rows_text(prev).push(row_cells(o.members@, texts(keys@))));
        }
        i += 1;
    }
    assert(data@.take(data@.len() as int) =~= data@);
    out
}

/// Each row's cells joined by `sep`, each followed by a newline.
pub open spec fn csv_lines(rows: Seq<Seq<Seq<char>>>, sep: Seq<char>) -> Seq<char>
    decreases rows.len(),
{
    if rows.len() == 0 {
        Seq::empty()
    } else {
        csv_lines(rows.drop_last(), sep) + joined(rows.last(), sep) + "\n"@
    }
}

/// Delimited text: empty for no data or when the first value is not an
/// object; otherwise a header of the first object's keys and a line per
/// object, cells joined by `sep`.
pub open spec fn csv_text(data: Seq<JsonValue>, sep: Seq<char>) -> Seq<char> {
    if data.len() == 0 {
        Seq::empty()
    } else {
        match data[0] {
            JsonValue::Object(o) => {
                let keys = member_keys(o.members@);
                joined(keys, sep) + "\n"@ + csv_lines(object_rows(data, keys), sep)
            },
            _ => Seq::empty(),
        }
    }
}

/// Renders `data` as delimited text.
pub fn format_csv(data: &[JsonValue], sep: &str) -> (r: String)
    ensures
        r@ == csv_text(data@, sep@),
{
    if data.len() == 0 {
        return String::new();
    }
    let keys = match &data[0] {
        JsonValue::Object(o) => keys_of(&o.members),
        _ => {
            return String::new();
        },
    };
    let rows = rows_of(data, &keys);
    let mut out = join(&keys, sep);
    out.append("\n");
    let mut i: usize = 0;
    let ghost head = out@;
    assert(rows@.take(0) =~= Seq::<Vec<String>>::empty());
    while i < rows.len()
        invariant
            i <= rows@.len(),
            out@ == head + csv_lines(rows_text(rows@.take(i as int)), sep@),
        decreases rows@.len() - i,
    {
        let line = join(&rows[i], sep);
        out.append(line.as_str());
        out.append("\n");
        assert(rows_text(rows@.take(i + 1)).drop_last() =~= rows_text(rows@.take(i as int)));
        i += 1;
    }
    assert(rows@.take(rows@.len() as int) =~= rows@);
    out
}

/// The value shown for an object in the minimal format: its `address`,
/// else its `name`, else its `id`, else its first member.
pub open spec fn headline(ms: Seq<(String, JsonValue)>) -> Option<JsonValue> {
    match member(ms, "address"@) {
        Some(v) => Some(v),
        None => match member(ms, "name"@) {
            Some(v) => Some(v),
            None => match member(ms, "id"@) {
                Some(v) => Some(v),
                None => if ms.len() > 0 {
                    Some(ms[0].1)
                } else {
                    None
                },
            },
        },
    }
}

/// One line per value: the headline of an object (nothing when it has no
/// members), or the value's own text.
pub open spec fn minimal_text(data: Seq<JsonValue>) -> Seq<char>
    decreases data.len(),
{
    if data.len() == 0 {
        Seq::empty()
    } else {
        minimal_text(data.drop_last()) + match data.last() {
            JsonValue::Object(o) => match headline(o.members@) {
                Some(v) => value_text(v),
                None => Seq::empty(),
            },
            other => value_text(other),
        } + "\n"@
    }
}

/// The headline text of an object.
fn headline_text(ms: &Vec<(String, JsonValue)>) -> (r: String)
    ensures
        r@ == match headline(ms@) {
            Some(v) => value_text(v),
            None => Seq::<char>::empty(),
        },
{
    if let Some(i) = find_member(ms, "address") {
        return format_json_value(&ms[i].1);
    }
    if let Some(i) = find_member(ms, "name") {
        return format_json_value(&ms[i].1);
    }
    if let Some(i) = find_member(ms, "id") {
        return format_json_value(&ms[i].1);
    }
    if ms.len() > 0 {
        format_json_value(&ms[0].1)
    } else {
        String::new()
    }
}

/// Renders `data` one value per line.
pub fn format_minimal(data: &[JsonValue]) -> (r: String)
    ensures
        r@ == minimal_text(data@),
{
    let mut out = String::new();
    let mut i: usize = 0;
    assert(data@.take(0) =~= Seq::<JsonValue>::empty());
    while i < data.len()
        invariant
            i <= data@.len(),
            out@ == minimal_text(data@.take(i as int)),
        decreases data@.len() - i,
    {
        assert(data@.take(i + 1).drop_last() =~= data@.take(i as int));
        let line = match &data[i] {
            JsonValue::Object(o) => headline_text(&o.members),
            other => format_json_value(other),
        };
        out.append(line.as_str());
        out.append("\n");
        i += 1;
    }
    assert(data@.take(data@.len() as int) =~= data@);
    out
}

/// How results are to be rendered.
pub enum Rendering {
    /// This text.
    Text(String),
    /// The data as pretty-printed JSON.
    PrettyJson,
    /// The data as JSON on one line.
    CompactJson,
    /// Each value as JSON on its own line.
    JsonLines,
    /// A table with these column headers and rows of cells.
    Table { header: Vec<String>, rows: Vec<Vec<String>> },
}

/// A rendering taken by its text.
pub enum RenderingView {
    Text(Seq<char>),
    PrettyJson,
    CompactJson,
    JsonLines,
    Table { header: Seq<Seq<char>>, rows: Seq<Seq<Seq<char>>> },
}

/// The view of a rendering.
pub open spec fn rendering_view(r: Rendering) -> RenderingView {
    match r {
        Rendering::Text(t) => RenderingView::Text(t@),
        Rendering::PrettyJson => RenderingView::PrettyJson,
        Rendering::CompactJson => RenderingView::CompactJson,
        Rendering::JsonLines => RenderingView::JsonLines,
        Rendering::Table { header, rows } => RenderingView::Table { header: texts(header@), rows: rows_text(rows@) },
    }
}

/// A table of the objects among `data`: `No results` for no data, a
/// count when the first value is not an object, else the first object's
/// keys as columns.
pub open spec fn table_view(data: Seq<JsonValue>) -> RenderingView {
    if data.len() == 0 {
        RenderingView::Text("No results"@)
    } else {
        match data[0] {
            JsonValue::Object(o) => {
                let keys = member_keys(o.members@);
                RenderingView::Table { header: keys, rows: object_rows(data, keys) }
            },
            _ => RenderingView::Text(decimal(data.len()) + " results"@),
        }
    }
}

/// Lays `data` out as a table.
pub fn format_table(data: &[JsonValue]) -> (r: Rendering)
    ensures
        rendering_view(r) == table_view(data@),
{
    if data.len() == 0 {
        return Rendering::Text("No results".to_owned());
    }
    match &data[0] {
        JsonValue::Object(o) => {
            let keys = keys_of(&o.members);
            let rows = rows_of(data, &keys);
            Rendering::Table { header: keys, rows }
        },
        _ => {
            let mut t = u64_decimal(data.len() as u64);
            t.append(" results");
            Rendering::Text(t)
        },
    }
}

/// How `data` is rendered in `format`.
pub open spec fn rendered(data: Seq<JsonValue>, format: OutputFormat) -> RenderingView {
    match format {
        OutputFormat::Json => RenderingView::PrettyJson,
        OutputFormat::JsonCompact => RenderingView::CompactJson,
        OutputFormat::JsonStream => RenderingView::JsonLines,
        OutputFormat::Count => RenderingView::Text(decimal(data.len())),
        OutputFormat::Table => table_view(data),
        OutputFormat::Csv => RenderingView::Text(csv_text(data, ","@)),
        OutputFormat::Tsv => RenderingView::Text(csv_text(data, "\t"@)),
        OutputFormat::Minimal | OutputFormat::Ids => RenderingView::Text(minimal_text(data)),
        _ => RenderingView::PrettyJson,
    }
}

/// The formatter that renders query results in every format.
pub struct DefaultFormatter;

impl DefaultFormatter {
    /// How to render `data` in `format`. JSON renderings and the drawing
    /// of tables are left to the caller.
    pub fn format(&self, data: &[JsonValue], format: OutputFormat) -> (r: Rendering)
        ensures
            rendering_view(r) == rendered(data@, format),
    {
        match format {
            OutputFormat::Json => Rendering::PrettyJson,
            OutputFormat::JsonCompact => Rendering::CompactJson,
            OutputFormat::JsonStream => Rendering::JsonLines,
            OutputFormat::Count => Rendering::Text(u64_decimal(data.len() as u64)),
            OutputFormat::Table => format_table(data),
            OutputFormat::Csv => Rendering::Text(format_csv(data, ",")),
            OutputFormat::Tsv => Rendering::Text(format_csv(data, "\t")),
            OutputFormat::Minimal | OutputFormat::Ids => Rendering::Text(format_minimal(data)),
            _ => Rendering::PrettyJson,
        }
    }
}

/// The cell text of a literal: `true` exactly for a true boolean and
/// `false` for a false one (so the two differ), `null` for null, and a
/// string or number by its own text.
pub proof fn lemma_literal_cells(b: bool, s: String)
    ensures
        value_text(JsonValue::Bool(b)) == "true"@ <==> b,
        value_text(JsonValue::Bool(b)) == "false"@ <==> !b,
        value_text(JsonValue::Bool(true)) != value_text(JsonValue::Bool(false)),
        value_text(JsonValue::Null) == "null"@,
        value_text(JsonValue::Str(s)) == s@,
        value_text(JsonValue::Number(s)) == s@,
{
    reveal_strlit("true");
    reveal_strlit("false");
    assert("true"@.len() != "false"@.len());
}

} // verus!
