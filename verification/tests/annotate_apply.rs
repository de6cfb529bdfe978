use ghidra_cli::annotate::apply::{
    change_lines, export_annotation, export_summary, function_label, propose_changes, ApplyCounts,
    ExportCounts,
};

#[test]
fn reapplying_an_annotation_changes_nothing_more() {
    let first = propose_changes("FUN_401000", Some("void FUN_401000(void)"), Some("void"), Some("parse"), Some("int parse(char *)"), Some("int"));
    assert_eq!(first.return_type.as_deref(), Some("int"));
    let name = first.rename.clone().unwrap_or_else(|| "FUN_401000".to_string());
    let sig = first.signature.clone().or(Some("void FUN_401000(void)".to_string()));
    let rt = first.return_type.clone().or(Some("void".to_string()));
    let second = propose_changes(&name, sig.as_deref(), rt.as_deref(), Some("parse"), Some("int parse(char *)"), Some("int"));
    assert!(second.rename.is_none());
    assert!(second.signature.is_none());
    assert!(second.return_type.is_none());
}

#[test]
fn return_type_is_proposed_only_when_it_differs() {
    let p = propose_changes("f", None, None, None, None, Some("long"));
    assert_eq!(p.return_type.as_deref(), Some("long"));
    let q = propose_changes("f", None, Some("long"), None, None, Some("long"));
    assert!(q.return_type.is_none());
    let r = propose_changes("f", None, Some("int"), None, None, Some(""));
    assert!(r.return_type.is_none());
}

#[test]
fn unnamed_functions_get_a_label() {
    assert_eq!(function_label(None), "<unnamed>");
    assert_eq!(function_label(Some("main")), "main");
}

#[test]
fn export_row_carries_name_and_signature() {
    let a = export_annotation("00ff".to_string(), "proj", "prog", Some("main"), Some("int main(void)"));
    assert_eq!(a.function_hash, "00ff");
    assert_eq!(a.project, "proj");
    assert_eq!(a.program, "prog");
    assert_eq!(a.name.as_deref(), Some("main"));
    assert_eq!(a.signature.as_deref(), Some("int main(void)"));
    assert!(a.return_type.is_none() && a.params.is_none() && a.comments.is_none());
    assert!(a.renames.is_none() && a.updated_at.is_none());
    let b = export_annotation("01".to_string(), "p", "q", None, None);
    assert_eq!(b.name.as_deref(), Some("<unnamed>"));
    assert!(b.signature.is_none());
}

#[test]
fn export_summary_line() {
    let c = ExportCounts { written: 12, skipped: 3 };
    assert_eq!(export_summary(&c, 40), "Exported 12 annotation(s); 3 skipped; DB now has 40 total row(s).");
    assert_eq!(export_summary(&c, -1), "Exported 12 annotation(s); 3 skipped; DB now has -1 total row(s).");
}

#[test]
fn apply_counts_follow_the_pass() {
    let mut c = ApplyCounts::new(5);
    c.record_skip();
    let p = propose_changes("FUN_1", None, None, Some("main"), None, Some("int"));
    c.record_match(&p, false);
    let q = propose_changes("main", None, None, Some("main"), Some("int main(void)"), None);
    c.record_match(&q, false);
    assert_eq!((c.total, c.matched, c.renamed, c.signatures_set, c.return_types_set, c.skipped), (5, 2, 1, 1, 1, 1));
    let mut d = ApplyCounts::new(2);
    d.record_match(&p, true);
    assert_eq!((d.matched, d.renamed, d.signatures_set, d.return_types_set), (1, 0, 0, 0));
}

#[test]
fn change_lines_name_each_change() {
    let p = propose_changes("FUN_1", Some("void FUN_1(void)"), None, Some("main"), Some("int main(void)"), Some("int"));
    assert_eq!(
        change_lines("0x401000", "FUN_1", &p),
        vec![
            "  rename   @ 0x401000: FUN_1 -> main".to_string(),
            "  signature@ 0x401000: int main(void)".to_string(),
            "  rettype  @ 0x401000: int".to_string(),
        ]
    );
    let none = propose_changes("main", None, None, Some("main"), None, None);
    assert!(change_lines("0x1", "main", &none).is_empty());
}
