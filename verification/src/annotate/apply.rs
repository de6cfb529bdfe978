//! Decisions of the annotation export and apply passes.
//!
//! The passes walk every function of the current program, fingerprint
//! it and talk to the annotation store and the bridge; this module holds
//! what they decide: which stored values to carry over to a function,
//! and the closing summary.

use vstd::prelude::*;
use std::path::Path;
use crate::text::{str_eq, u64_decimal, i64_decimal, decimal, signed_decimal};
use crate::format::JsonValue;

verus! {

/// Inputs of the export pass.
pub struct ExportOptions<'a> {
    /// The annotation database to write.
    pub out: &'a Path,
    /// Export at most this many functions.
    pub limit: Option<usize>,
}

/// Inputs of the apply pass.
pub struct ApplyOptions<'a> {
    /// The annotation database to read.
    pub input: &'a Path,
    /// Print the changes without making them.
    pub dry_run: bool,
    /// Consider at most this many functions.
    pub limit: Option<usize>,
}

/// One stored annotation, keyed by a function's fingerprint.
#[derive(Debug)]
pub struct Annotation {
    /// The fingerprint of the function's PCode.
    pub function_hash: String,
    pub project: String,
    pub program: String,
    pub name: Option<String>,
    pub signature: Option<String>,
    pub return_type: Option<String>,
    /// Parameter annotations, as JSON.
    pub params: Option<JsonValue>,
    /// Comment annotations, as JSON.
    pub comments: Option<JsonValue>,
    /// Variable renames, as JSON.
    pub renames: Option<JsonValue>,
    /// When the row was written, in Unix seconds; the store fills it in
    /// when it is absent.
    pub updated_at: Option<i64>,
}

/// The name a function is reported under: its own, or `<unnamed>`.
pub open spec fn function_label_text(name: Option<Seq<char>>) -> Seq<char> {
    match name {
        Some(n) => n,
        None => "<unnamed>"@,
    }
}

/// The name a function is reported under.
pub fn function_label(name: Option<&str>) -> (r: String)
    ensures
        r@ == function_label_text(opt_view(name)),
{
    match name {
        Some(n) => n.to_owned(),
        None => "<unnamed>".to_owned(),
    }
}

/// The annotation the export pass writes for a function with the given
/// fingerprint, listed name and signature: the name (or `<unnamed>`) and
/// the signature; the return type and the JSON fields stay empty.
pub fn export_annotation(
    fingerprint: String,
    project: &str,
    program: &str,
    name: Option<&str>,
    signature: Option<&str>,
) -> (r: Annotation)
    ensures
        r.function_hash@ == fingerprint@,
        r.project@ == project@,
        r.program@ == program@,
        opt_string_view(r.name) == Some(function_label_text(opt_view(name))),
        opt_string_view(r.signature) == opt_view(signature),
        r.return_type is None,
        r.params is None,
        r.comments is None,
        r.renames is None,
        r.updated_at is None,
{
    Annotation {
        function_hash: fingerprint,
        project: project.to_owned(),
        program: program.to_owned(),
        name: Some(function_label(name)),
        signature: match signature {
            Some(sig) => Some(sig.to_owned()),
            None => None,
        },
        return_type: None,
        params: None,
        comments: None,
        renames: None,
        updated_at: None,
    }
}

/// Counts of an export pass.
pub struct ExportCounts {
    pub written: u64,
    pub skipped: u64,
}

/// The closing line of an export pass; `rows` is the store's row count,
/// `-1` when it could not be read.
pub open spec fn export_summary_text(c: ExportCounts, rows: i64) -> Seq<char> {
    "Exported "@ + decimal(c.written as nat) + " annotation(s); "@ + decimal(c.skipped as nat)
        + " skipped; DB now has "@ + signed_decimal(rows as int) + " total row(s)."@
}

/// The closing line of an export pass.
pub fn export_summary(c: &ExportCounts, rows: i64) -> (r: String)
    ensures
        r@ == export_summary_text(*c, rows),
{
    let mut s = "Exported ".to_owned();
    append_count(&mut s, c.written);
    s.append(" annotation(s); ");
    append_count(&mut s, c.skipped);
    s.append(" skipped; DB now has ");
    let t = i64_decimal(rows);
    s.append(t.as_str());
    s.append(" total row(s).");
    s
}

/// What the apply pass changes on one function.
pub struct ProposedChanges {
    /// The new name.
    pub rename: Option<String>,
    /// The new signature.
    pub signature: Option<String>,
    /// The new return type.
    pub return_type: Option<String>,
}

/// A stored value worth applying: present, non-empty and different from
/// the current one (`current` being `None` when the function has none).
pub open spec fn worth_applying(stored: Option<Seq<char>>, current: Option<Seq<char>>) -> bool {
    match stored {
        Some(s) => s.len() > 0 && current != Some(s),
        None => false,
    }
}

/// The value a function holds after the apply pass: the stored one when
/// it was worth applying, the current one otherwise.
pub open spec fn after_apply(stored: Option<Seq<char>>, current: Option<Seq<char>>) -> Option<Seq<char>> {
    if worth_applying(stored, current) {
        stored
    } else {
        current
    }
}

/// Applying a stored value twice changes nothing the second time: once a
/// function holds what the pass proposed, the same annotation proposes
/// no further change to it.
pub proof fn lemma_apply_is_idempotent(stored: Option<Seq<char>>, current: Option<Seq<char>>)
    ensures
        !worth_applying(stored, after_apply(stored, current)),
        after_apply(stored, after_apply(stored, current)) == after_apply(stored, current),
{
}

/// The text of an optional string slice.
pub open spec fn opt_view(o: Option<&str>) -> Option<Seq<char>> {
    match o {
        Some(s) => Some(s@),
        None => None,
    }
}

/// The text of an optional string.
pub open spec fn opt_string_view(o: Option<String>) -> Option<Seq<char>> {
    match o {
        Some(s) => Some(s@),
        None => None,
    }
}

/// `stored` when it is worth applying over `current`.
fn keep_if_new(stored: Option<&str>, current: Option<&str>) -> (r: Option<String>)
    ensures
        opt_string_view(r) == if worth_applying(opt_view(stored), opt_view(current)) {
            opt_view(stored)
        } else {
            None
        },
{
    match stored {
        Some(s) => {
            if s.is_empty() {
                return None;
            }
            let same = match current {
                Some(c) => str_eq(s, c),
                None => false,
            };
            if same {
                None
            } else {
                Some(s.to_owned())
            }
        },
        None => None,
    }
}

/// What to change on a function named `current_name` whose signature and
/// return type are `current_signature` and `current_return_type`, given
/// the annotation stored for its fingerprint: each stored value that is
/// non-empty and differs from the current one. Re-applying the same
/// annotation therefore proposes nothing.
pub fn propose_changes(
    current_name: &str,
    current_signature: Option<&str>,
    current_return_type: Option<&str>,
    stored_name: Option<&str>,
    stored_signature: Option<&str>,
    stored_return_type: Option<&str>,
) -> (r: ProposedChanges)
    ensures
        opt_string_view(r.rename) == if worth_applying(opt_view(stored_name), Some(current_name@)) {
            opt_view(stored_name)
        } else {
            None
        },
        opt_string_view(r.signature) == if worth_applying(opt_view(stored_signature), opt_view(current_signature)) {
            opt_view(stored_signature)
        } else {
            None
        },
        opt_string_view(r.return_type) == if worth_applying(
            opt_view(stored_return_type),
            opt_view(current_return_type),
        ) {
            opt_view(stored_return_type)
        } else {
            None
        },
{
    ProposedChanges {
        rename: keep_if_new(stored_name, Some(current_name)),
        signature: keep_if_new(stored_signature, current_signature),
        return_type: keep_if_new(stored_return_type, current_return_type),
    }
}

/// Counts of an apply pass.
pub struct ApplyCounts {
    pub total: u64,
    pub matched: u64,
    pub renamed: u64,
    pub signatures_set: u64,
    pub return_types_set: u64,
    pub skipped: u64,
}

impl ApplyCounts {
    /// The counts before any of `total` functions was looked at.
    pub fn new(total: u64) -> (r: ApplyCounts)
        ensures
            r == (ApplyCounts { total, matched: 0, renamed: 0, signatures_set: 0, return_types_set: 0, skipped: 0 }),
    {
        ApplyCounts { total, matched: 0, renamed: 0, signatures_set: 0, return_types_set: 0, skipped: 0 }
    }

    /// Counts a function skipped for want of an address, PCode or a
    /// fingerprint.
    pub fn record_skip(&mut self)
        requires
            old(self).skipped < u64::MAX,
        ensures
            *final(self) == (ApplyCounts { skipped: (old(self).skipped + 1) as u64, ..*old(self) }),
    {
        self.skipped = self.skipped + 1;
    }

    /// Counts a function whose fingerprint was found in the store, and
    /// the changes made to it (none in a dry run).
    pub fn record_match(&mut self, changes: &ProposedChanges, dry_run: bool)
        requires
            old(self).matched < u64::MAX,
            old(self).renamed < u64::MAX,
            old(self).signatures_set < u64::MAX,
            old(self).return_types_set < u64::MAX,
        ensures
            final(self).total == old(self).total,
            final(self).skipped == old(self).skipped,
            final(self).matched == old(self).matched + 1,
            final(self).renamed == old(self).renamed + if !dry_run && changes.rename is Some { 1int } else { 0 },
            final(self).signatures_set == old(self).signatures_set + if !dry_run && changes.signature is Some {
                1int
            } else {
                0
            },
            final(self).return_types_set == old(self).return_types_set + if !dry_run && changes.return_type is Some {
                1int
            } else {
                0
            },
    {
        self.matched = self.matched + 1;
        if !dry_run {
            if changes.rename.is_some() {
                self.renamed = self.renamed + 1;
            }
            if changes.signature.is_some() {
                self.signatures_set = self.signatures_set + 1;
            }
            if changes.return_type.is_some() {
                self.return_types_set = self.return_types_set + 1;
            }
        }
    }
}

/// The lines the apply pass prints for the changes on the function at
/// `address` now named `current_name`.
pub open spec fn change_lines_text(address: Seq<char>, current_name: Seq<char>, c: ProposedChanges) -> Seq<Seq<char>> {
    (match c.rename {
        Some(n) => seq!["  rename   @ "@ + address + ": "@ + current_name + " -> "@ + n@],
        None => Seq::empty(),
    }) + (match c.signature {
        Some(sig) => seq!["  signature@ "@ + address + ": "@ + sig@],
        None => Seq::empty(),
    }) + (match c.return_type {
        Some(t) => seq!["  rettype  @ "@ + address + ": "@ + t@],
        None => Seq::empty(),
    })
}

/// The lines the apply pass prints for the proposed changes.
pub fn change_lines(address: &str, current_name: &str, c: &ProposedChanges) -> (r: Vec<String>)
    ensures
        r@.map_values(|l: String| l@) == change_lines_text(address@, current_name@, *c),
{
    let mut lines: Vec<String> = Vec::new();
    if let Some(n) = &c.rename {
        let mut l = "  rename   @ ".to_owned();
        l.append(address);
        l.append(": ");
        l.append(current_name);
        l.append(" -> ");
        l.append(n.as_str());
        lines.push(l);
    }
    if let Some(sig) = &c.signature {
        let mut l = "  signature@ ".to_owned();
        l.append(address);
        l.append(": ");
        l.append(sig.as_str());
        lines.push(l);
    }
    if let Some(t) = &c.return_type {
        let mut l = "  rettype  @ ".to_owned();
        l.append(address);
        l.append(": ");
        l.append(t.as_str());
        lines.push(l);
    }
    assert(lines@.map_values(|l: String| l@) =~= change_lines_text(address@, current_name@, *c));
    lines
}

/// The closing line of an apply pass. A dry run reports every matched
/// function under each kind of change.
pub open spec fn apply_summary_text(c: ApplyCounts, dry_run: bool) -> Seq<char> {
    "Summary: "@ + decimal(c.matched as nat) + "/"@ + decimal(c.total as nat)
        + " function(s) matched a fingerprint in the DB. "@ + decimal(
        if dry_run { c.matched as nat } else { c.renamed as nat },
    ) + " rename(s), "@ + decimal(if dry_run { c.matched as nat } else { c.signatures_set as nat })
        + " signature change(s), "@ + decimal(
        if dry_run { c.matched as nat } else { c.return_types_set as nat },
    ) + " return-type change(s). "@ + decimal(c.skipped as nat) + " skipped due to errors."@
}

/// Appends the numeral of `n` to `s`.
fn append_count(s: &mut String, n: u64)
    ensures
        final(s)@ == old(s)@ + decimal(n as nat),
{
    let t = u64_decimal(n);
    s.append(t.as_str());
}

/// The closing line of an apply pass.
pub fn apply_summary(c: &ApplyCounts, dry_run: bool) -> (r: String)
    ensures
        r@ == apply_summary_text(*c, dry_run),
{
    let mut s = "Summary: ".to_owned();
    append_count(&mut s, c.matched);
    s.append("/");
    append_count(&mut s, c.total);
    s.append(" function(s) matched a fingerprint in the DB. ");
    append_count(&mut s, if dry_run { c.matched } else { c.renamed });
    s.append(" rename(s), ");
    append_count(&mut s, if dry_run { c.matched } else { c.signatures_set });
    s.append(" signature change(s), ");
    append_count(&mut s, if dry_run { c.matched } else { c.return_types_set });
    s.append(" return-type change(s). ");
    append_count(&mut s, c.skipped);
    s.append(" skipped due to errors.");
    s
}

} // verus!
