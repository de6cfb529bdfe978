//! What the subcommands do with the bridge's answers: filtering listings,
//! choosing what to decompile, checking search patterns, and ordering
//! detection results.

use vstd::prelude::*;
use vstd::string::StringSliceAdditionalSpecFns;
use vstd::utf8::encode_utf8;
use crate::ilspy::cli::{DecompileArgs, OutputFormat, TypeKind, kind_name};
use crate::ilspy::detect::{contains, contains_bytes};
use crate::ilspy::format::DetectResult;
use crate::ilspy::types::{MethodInfo, TypeInfo};
use crate::text::{lowercase, lowercase_of};
use crate::filter::{regex_compile_error, regex_match};

verus! {

/// `needle` occurs in `hay` (an empty needle occurs everywhere).
pub open spec fn has_substring(hay: Seq<char>, needle: Seq<char>) -> bool {
    needle.len() == 0 || contains(encode_utf8(hay), encode_utf8(needle))
}

/// Whether `needle` occurs in `hay`.
pub(crate) fn substring_of(hay: &str, needle: &str) -> (r: bool)
    ensures
        r == has_substring(hay@, needle@),
{
    if needle.is_empty() {
        return true;
    }
    contains_bytes(hay.as_bytes(), needle.as_bytes())
}

/// A name passes a case-insensitive substring filter.
pub open spec fn passes_filter(name: Seq<char>, filter: Option<Seq<char>>) -> bool {
    match filter {
        Some(f) => has_substring(lowercase_of(name), lowercase_of(f)),
        None => true,
    }
}

/// The text of an optional string slice.
pub open spec fn opt_str(o: Option<&str>) -> Option<Seq<char>> {
    match o {
        Some(s) => Some(s@),
        None => None,
    }
}

/// A type is listed under the filter and kind asked for.
pub open spec fn type_selected(t: TypeInfo, filter: Option<Seq<char>>, kind: Option<TypeKind>) -> bool {
    &&& passes_filter(t.full_name@, filter)
    &&& match kind {
        Some(k) => t.kind@ == kind_name(k),
        None => true,
    }
}

/// The items of `s` whose flag in `keep` is set, in order.
pub open spec fn kept<T>(s: Seq<T>, keep: Seq<bool>) -> Seq<T>
    decreases s.len(),
{
    if s.len() == 0 {
        Seq::empty()
    } else {
        let rest = kept(s.drop_last(), keep.take(s.len() - 1));
        if keep[s.len() - 1] {
            rest.push(s.last())
        } else {
            rest
        }
    }
}

/// Moves out the items whose flag is set, keeping their order.
fn keep_flagged<T>(items: Vec<T>, keep: &Vec<bool>) -> (r: Vec<T>)
    requires
        keep@.len() == items@.len(),
    ensures
        r@ == kept(items@, keep@),
{
    let ghost all = items@;
    let n = items.len();
    let mut rest = items;
    let mut out: Vec<T> = Vec::new();
    let mut i: usize = 0;
    assert(all.take(0) =~= Seq::<T>::empty());
    assert(rest@ =~= all.skip(0));
    while i < n
        invariant
            n == all.len(),
            keep@.len() == n,
            i <= n,
            rest@ == all.skip(i as int),
            out@ == kept(all.take(i as int), keep@.take(i as int)),
        decreases n - i,
    {
        let item = rest.remove(0);
        assert(item == all[i as int]);
        assert(rest@ =~= all.skip(i + 1));
        assert(all.take(i + 1).drop_last() =~= all.take(i as int));
        assert(keep@.take(i + 1).take(i as int) =~= keep@.take(i as int));
        if keep[i] {
            out.push(item);
        }
        i += 1;
    }
    assert(all.take(n as int) =~= all);
    assert(keep@.take(n as int) =~= keep@);
    out
}

/// Keeps the types whose full name contains `filter` (in any letter
/// case) and whose kind is `kind`, in the bridge's order.
pub fn select_types(types: Vec<TypeInfo>, filter: Option<&str>, kind: Option<TypeKind>) -> (r: Vec<TypeInfo>)
    ensures
        r@ == kept(types@, types@.map_values(|t: TypeInfo| type_selected(t, opt_str(filter), kind))),
{
    let lowered_filter = match filter {
        Some(f) => Some(lowercase(f)),
        None => None,
    };
    let mut flags: Vec<bool> = Vec::new();
    let mut i: usize = 0;
    while i < types.len()
        invariant
            i <= types@.len(),
            flags@ =~= types@.take(i as int).map_values(|t: TypeInfo| type_selected(t, opt_str(filter), kind)),
            match filter {
                Some(f) => lowered_filter matches Some(l) && l@ == lowercase_of(f@),
                None => lowered_filter is None,
            },
        decreases types@.len() - i,
    {
        let t = &types[i];
        let name_ok = match &lowered_filter {
            Some(l) => {
                let lowered_name = lowercase(t.full_name.as_str());
                substring_of(lowered_name.as_str(), l.as_str())
            },
            None => true,
        };
        let kind_ok = match kind {
            Some(k) => k.matches(t.kind.as_str()),
            None => true,
        };
        let ghost prev = flags@;
        flags.push(name_ok && kind_ok);
        assert(flags@ =~= prev.push(type_selected(types@[i as int], opt_str(filter), kind)));
        assert(types@.take(i + 1).map_values(|t: TypeInfo| type_selected(t, opt_str(filter), kind))
            =~= types@.take(i as int).map_values(|t: TypeInfo| type_selected(t, opt_str(filter), kind)).push(
            type_selected(types@[i as int], opt_str(filter), kind),
        ));
        i += 1;
    }
    assert(types@.take(types@.len() as int) =~= types@);
    keep_flagged(types, &flags)
}

/// Keeps the methods whose name contains `filter` (in any letter case),
/// in the bridge's order.
pub fn select_methods(methods: Vec<MethodInfo>, filter: Option<&str>) -> (r: Vec<MethodInfo>)
    ensures
        r@ == kept(methods@, methods@.map_values(|m: MethodInfo| passes_filter(m.name@, opt_str(filter)))),
{
    let lowered_filter = match filter {
        Some(f) => Some(lowercase(f)),
        None => None,
    };
    let mut flags: Vec<bool> = Vec::new();
    let mut i: usize = 0;
    while i < methods.len()
        invariant
            i <= methods@.len(),
            flags@ =~= methods@.take(i as int).map_values(|m: MethodInfo| passes_filter(m.name@, opt_str(filter))),
            match filter {
                Some(f) => lowered_filter matches Some(l) && l@ == lowercase_of(f@),
                None => lowered_filter is None,
            },
        decreases methods@.len() - i,
    {
        let name_ok = match &lowered_filter {
            Some(l) => {
                let lowered_name = lowercase(methods[i].name.as_str());
                substring_of(lowered_name.as_str(), l.as_str())
            },
            None => true,
        };
        let ghost prev = flags@;
        flags.push(name_ok);
        assert(flags@ =~= prev.push(passes_filter(methods@[i as int].name@, opt_str(filter))));
        assert(methods@.take(i + 1).map_values(|m: MethodInfo| passes_filter(m.name@, opt_str(filter)))
            =~= methods@.take(i as int).map_values(|m: MethodInfo| passes_filter(m.name@, opt_str(filter))).push(
            passes_filter(methods@[i as int].name@, opt_str(filter)),
        ));
        i += 1;
    }
    assert(methods@.take(methods@.len() as int) =~= methods@);
    keep_flagged(methods, &flags)
}

/// What to decompile.
pub enum DecompileTarget {
    /// One method of one type.
    Method { type_full_name: String, method: String },
    /// One type.
    Type(String),
    /// The whole assembly.
    Full,
}

/// The target named by the decompile arguments: a method needs its type;
/// without a type the whole assembly is decompiled.
pub fn decompile_target(args: &DecompileArgs) -> (r: DecompileTarget)
    ensures
        match (args.type_filter, args.method) {
            (Some(t), Some(m)) => r matches DecompileTarget::Method { type_full_name, method } && type_full_name@
                == t@ && method@ == m@,
            (Some(t), None) => r matches DecompileTarget::Type(n) && n@ == t@,
            (None, _) => r is Full,
        },
{
    match (&args.type_filter, &args.method) {
        (Some(t), Some(m)) => DecompileTarget::Method { type_full_name: t.clone(), method: m.clone() },
        (Some(t), None) => DecompileTarget::Type(t.clone()),
        (None, _) => DecompileTarget::Full,
    }
}

/// Decompiled code prints as source unless JSON was asked for.
pub fn decompile_format(format: OutputFormat) -> (r: OutputFormat)
    ensures
        r == match format {
            OutputFormat::Table | OutputFormat::Compact => OutputFormat::Source,
            other => other,
        },
{
    match format {
        OutputFormat::Table | OutputFormat::Compact => OutputFormat::Source,
        other => other,
    }
}

/// Checks a search pattern before it is sent to the bridge.
pub fn check_search_pattern(pattern: &str) -> (r: Result<(), String>)
    ensures
        match regex_compile_error(pattern@) {
            None => r is Ok,
            Some(e) => r matches Err(m) && m@ == "Invalid regex pattern: "@ + e,
        },
{
    match regex_match(pattern, "") {
        Ok(_) => Ok(()),
        Err(e) => {
            let mut m = "Invalid regex pattern: ".to_owned();
            m.append(e.as_str());
            Err(m)
        },
    }
}

/// `a` sorts before `b` byte by byte (a proper prefix sorts first).
pub open spec fn lex_less(a: Seq<u8>, b: Seq<u8>) -> bool
    decreases a.len(),
{
    if b.len() == 0 {
        false
    } else if a.len() == 0 {
        true
    } else if a[0] != b[0] {
        a[0] < b[0]
    } else {
        lex_less(a.drop_first(), b.drop_first())
    }
}

/// Detection results are listed .NET first, then by file name.
pub open spec fn detect_less(a: DetectResult, b: DetectResult) -> bool {
    (a.is_dotnet && !b.is_dotnet) || (a.is_dotnet == b.is_dotnet && lex_less(
        encode_utf8(a.path@),
        encode_utf8(b.path@),
    ))
}

/// Where `x` goes in `s`: before the first entry that sorts after it.
pub open spec fn insert_position(s: Seq<DetectResult>, x: DetectResult) -> int
    decreases s.len(),
{
    if s.len() == 0 {
        0
    } else if detect_less(x, s[0]) {
        0
    } else {
        1 + insert_position(s.drop_first(), x)
    }
}

/// `s` sorted .NET first and then by file name, entries that compare
/// equal keeping their order.
pub open spec fn detect_order(s: Seq<DetectResult>) -> Seq<DetectResult>
    decreases s.len(),
{
    if s.len() == 0 {
        Seq::empty()
    } else {
        let sorted = detect_order(s.drop_last());
        sorted.insert(insert_position(sorted, s.last()), s.last())
    }
}

/// No entry of `s` sorts before an entry listed ahead of it.
pub open spec fn detect_sorted(s: Seq<DetectResult>) -> bool {
    forall|i: int, j: int| 0 <= i < j < s.len() ==> !detect_less(#[trigger] s[j], #[trigger] s[i])
}

proof fn lemma_lex_less_irreflexive(a: Seq<u8>)
    ensures
        !lex_less(a, a),
    decreases a.len(),
{
    if a.len() > 0 {
        lemma_lex_less_irreflexive(a.drop_first());
    }
}

proof fn lemma_lex_less_transitive(a: Seq<u8>, b: Seq<u8>, c: Seq<u8>)
    requires
        lex_less(a, b),
        lex_less(b, c),
    ensures
        lex_less(a, c),
    decreases a.len(),
{
    if a.len() > 0 && a[0] == b[0] && b[0] == c[0] {
        lemma_lex_less_transitive(a.drop_first(), b.drop_first(), c.drop_first());
    }
}

proof fn lemma_detect_less_transitive(a: DetectResult, b: DetectResult, c: DetectResult)
    requires
        detect_less(a, b),
        detect_less(b, c),
    ensures
        detect_less(a, c),
{
    if a.is_dotnet == b.is_dotnet && b.is_dotnet == c.is_dotnet {
        lemma_lex_less_transitive(encode_utf8(a.path@), encode_utf8(b.path@), encode_utf8(c.path@));
    }
}

proof fn lemma_detect_less_asymmetric(a: DetectResult, b: DetectResult)
    requires
        detect_less(a, b),
    ensures
        !detect_less(b, a),
{
    if detect_less(b, a) {
        lemma_detect_less_transitive(a, b, a);
        lemma_lex_less_irreflexive(encode_utf8(a.path@));
    }
}

proof fn lemma_insert_position_splits(s: Seq<DetectResult>, x: DetectResult)
    ensures
        0 <= insert_position(s, x) <= s.len(),
        forall|k: int| 0 <= k < insert_position(s, x) ==> !detect_less(x, #[trigger] s[k]),
        insert_position(s, x) < s.len() ==> detect_less(x, s[insert_position(s, x)]),
    decreases s.len(),
{
    if s.len() > 0 && !detect_less(x, s[0]) {
        let t = s.drop_first();
        lemma_insert_position_splits(t, x);
        assert forall|k: int| 0 <= k < insert_position(s, x) implies !detect_less(x, #[trigger] s[k]) by {
            if k > 0 {
                assert(s[k] == t[k - 1]);
            }
        }
    }
}

proof fn lemma_insert_keeps_sorted(t: Seq<DetectResult>, x: DetectResult)
    requires
        detect_sorted(t),
    ensures
        detect_sorted(t.insert(insert_position(t, x), x)),
{
    lemma_insert_position_splits(t, x);
    let p = insert_position(t, x);
    let u = t.insert(p, x);
    assert forall|i: int, j: int| 0 <= i < j < u.len() implies !detect_less(#[trigger] u[j], #[trigger] u[i]) by {
        if j < p {
            assert(u[i] == t[i] && u[j] == t[j]);
        } else if j == p {
            assert(u[i] == t[i]);
        } else if i < p {
            assert(u[i] == t[i] && u[j] == t[j - 1]);
        } else if i == p {
            assert(u[j] == t[j - 1]);
            if j - 1 == p {
                lemma_detect_less_asymmetric(x, t[p]);
            } else if detect_less(t[j - 1], x) {
                lemma_detect_less_transitive(t[j - 1], x, t[p]);
            }
        } else {
            assert(u[i] == t[i - 1] && u[j] == t[j - 1]);
        }
    }
}

/// Detection results come out in display order: no entry sorts before
/// one listed ahead of it, so every .NET assembly comes before every
/// native binary, and each group is ordered by file name.
pub proof fn lemma_detect_order_sorted(s: Seq<DetectResult>)
    ensures
        detect_sorted(detect_order(s)),
        forall|i: int, j: int|
            0 <= i < j < detect_order(s).len() && (#[trigger] detect_order(s)[j]).is_dotnet
                ==> (#[trigger] detect_order(s)[i]).is_dotnet,
    decreases s.len(),
{
    if s.len() > 0 {
        lemma_detect_order_sorted(s.drop_last());
        lemma_insert_keeps_sorted(detect_order(s.drop_last()), s.last());
    }
    let o = detect_order(s);
    assert forall|i: int, j: int| 0 <= i < j < o.len() && (#[trigger] o[j]).is_dotnet implies (#[trigger] o[i]).is_dotnet by {
        assert(!detect_less(o[j], o[i]));
    }
}

/// Whether `a` sorts before `b` byte by byte.
fn bytes_less(a: &[u8], b: &[u8]) -> (r: bool)
    ensures
        r == lex_less(a@, b@),
{
    let mut i: usize = 0;
    assert(a@.skip(0) =~= a@);
    assert(b@.skip(0) =~= b@);
    while i < a.len() && i < b.len()
        invariant
            i <= a@.len(),
            i <= b@.len(),
            a@.subrange(0, i as int) == b@.subrange(0, i as int),
            lex_less(a@, b@) == lex_less(a@.skip(i as int), b@.skip(i as int)),
        decreases a@.len() - i,
    {
        assert(a@.skip(i as int)[0] == a@[i as int]);
        assert(b@.skip(i as int)[0] == b@[i as int]);
        if a[i] != b[i] {
            return a[i] < b[i];
        }
        assert(a@.skip(i as int).drop_first() =~= a@.skip(i + 1));
        assert(b@.skip(i as int).drop_first() =~= b@.skip(i + 1));
        assert(a@.subrange(0, i + 1) =~= a@.subrange(0, i as int).push(a@[i as int]));
        assert(b@.subrange(0, i + 1) =~= b@.subrange(0, i as int).push(b@[i as int]));
        i += 1;
    }
    i < b.len()
}

proof fn lemma_insert_position_bound(s: Seq<DetectResult>, x: DetectResult)
    ensures
        0 <= insert_position(s, x) <= s.len(),
    decreases s.len(),
{
    if s.len() > 0 && !detect_less(x, s[0]) {
        lemma_insert_position_bound(s.drop_first(), x);
    }
}

/// Where `x` goes in the sorted list `s`.
fn find_insert_position(s: &Vec<DetectResult>, x: &DetectResult) -> (r: usize)
    ensures
        r as int == insert_position(s@, *x),
{
    let xb = x.path.as_str().as_bytes();
    let mut j: usize = 0;
    assert(s@.skip(0) =~= s@);
    while j < s.len()
        invariant
            j <= s@.len(),
            xb@ == encode_utf8(x.path@),
            insert_position(s@, *x) == j + insert_position(s@.skip(j as int), *x),
        decreases s@.len() - j,
    {
        let y = &s[j];
        let less = (x.is_dotnet && !y.is_dotnet) || (x.is_dotnet == y.is_dotnet && bytes_less(
            xb,
            y.path.as_str().as_bytes(),
        ));
        assert(s@.skip(j as int)[0] == s@[j as int]);
        if less {
            return j;
        }
        assert(s@.skip(j as int).drop_first() =~= s@.skip(j + 1));
        j += 1;
    }
    assert(s@.skip(j as int) =~= Seq::<DetectResult>::empty());
    j
}

/// Orders detection results .NET first and then by file name, keeping
/// the order of entries that compare equal.
pub fn sort_detect_results(results: Vec<DetectResult>) -> (r: Vec<DetectResult>)
    ensures
        r@ == detect_order(results@),
        r@.to_multiset() == results@.to_multiset(),
{
    let ghost all = results@;
    let n = results.len();
    let mut rest = results;
    let mut out: Vec<DetectResult> = Vec::new();
    let mut i: usize = 0;
    assert(all.take(0) =~= Seq::<DetectResult>::empty());
    assert(rest@ =~= all.skip(0));
    while i < n
        invariant
            n == all.len(),
            i <= n,
            rest@ == all.skip(i as int),
            out@ == detect_order(all.take(i as int)),
            out@.to_multiset() == all.take(i as int).to_multiset(),
        decreases n - i,
    {
        let item = rest.remove(0);
        assert(item == all[i as int]);
        assert(rest@ =~= all.skip(i + 1));
        assert(all.take(i + 1).drop_last() =~= all.take(i as int));
        let pos = find_insert_position(&out, &item);
        proof {
            lemma_insert_position_bound(out@, item);
            vstd::seq_lib::to_multiset_insert(out@, pos as int, item);
            vstd::seq_lib::to_multiset_build(all.take(i as int), item);
            assert(all.take(i + 1) =~= all.take(i as int).push(item));
        }
        out.insert(pos, item);
        i += 1;
    }
    assert(all.take(n as int) =~= all);
    out
}

/// The detection results shown: only .NET assemblies or only native
/// binaries when asked, in display order.
pub fn arrange_detect_results(results: Vec<DetectResult>, dotnet_only: bool, native_only: bool) -> (r: Vec<DetectResult>)
    ensures
        r@ == detect_order(
            kept(
                results@,
                results@.map_values(|d: DetectResult| (!dotnet_only || d.is_dotnet) && (!native_only || !d.is_dotnet)),
            ),
        ),
{
    let mut flags: Vec<bool> = Vec::new();
    let mut i: usize = 0;
    while i < results.len()
        invariant
            i <= results@.len(),
            flags@ =~= results@.take(i as int).map_values(
                |d: DetectResult| (!dotnet_only || d.is_dotnet) && (!native_only || !d.is_dotnet),
            ),
        decreases results@.len() - i,
    {
        let d = results[i].is_dotnet;
        let ghost prev = flags@;
        flags.push((!dotnet_only || d) && (!native_only || !d));
        assert(results@.take(i + 1).map_values(
            |d: DetectResult| (!dotnet_only || d.is_dotnet) && (!native_only || !d.is_dotnet),
        ) =~= results@.take(i as int).map_values(
            |d: DetectResult| (!dotnet_only || d.is_dotnet) && (!native_only || !d.is_dotnet),
        ).push((!dotnet_only || d) && (!native_only || !d)));
        i += 1;
    }
    assert(results@.take(results@.len() as int) =~= results@);
    let shown = keep_flagged(results, &flags);
    sort_detect_results(shown)
}

} // verus!
