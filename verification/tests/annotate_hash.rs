use ghidra_cli::annotate::apply::{apply_summary, propose_changes, ApplyCounts};
use ghidra_cli::annotate::hash::{
    canonicalize, fingerprint, fingerprint_hex, HashError, PcodeFunction, PcodeOp, Varnode,
};

fn op(opcode: i64, output: Option<Varnode>, inputs: Vec<Varnode>) -> PcodeOp {
    PcodeOp { opcode: Some(opcode), output, inputs: Some(inputs) }
}

fn varnode(kind: &str, space: &str, offset: String, size: u64, register: Option<&str>) -> Varnode {
    Varnode {
        kind: Some(kind.to_string()),
        size: Some(size),
        register: register.map(|r| r.to_string()),
        space: Some(space.to_string()),
        offset: Some(offset),
    }
}

fn reg(name: &str, size: u64) -> Varnode {
    varnode("register", "register", "0x0".to_string(), size, Some(name))
}

fn const_v(value: u64, size: u64) -> Varnode {
    varnode("constant", "const", format!("0x{:x}", value), size, None)
}

fn ram(addr: u64, size: u64) -> Varnode {
    varnode("ram", "ram", format!("0x{:x}", addr), size, None)
}

fn unique(offset: u64, size: u64) -> Varnode {
    varnode("unique", "unique", format!("0x{:x}", offset), size, None)
}

fn listing(ops: Vec<PcodeOp>) -> PcodeFunction {
    PcodeFunction { pcode: Some(ops) }
}

#[test]
fn fingerprint_is_deterministic() {
    let pcode = listing(vec![
        op(1, Some(reg("RAX", 8)), vec![const_v(0, 8)]),
        op(2, Some(reg("RAX", 8)), vec![reg("RAX", 8), const_v(1, 8)]),
    ]);
    let a = fingerprint(&pcode).unwrap();
    let b = fingerprint(&pcode).unwrap();
    assert_eq!(a, b);
}

#[test]
fn fingerprint_hex_is_32_chars() {
    let pcode = listing(vec![op(0, None, vec![])]);
    let h = fingerprint_hex(&pcode).unwrap();
    assert_eq!(h.len(), 32);
    assert!(h.chars().all(|c| c.is_ascii_hexdigit() && !c.is_uppercase()));
}

#[test]
fn ram_addresses_dont_affect_fingerprint() {
    let at_400000 = listing(vec![op(7, Some(reg("RAX", 8)), vec![ram(0x400000, 8)])]);
    let at_500000 = listing(vec![op(7, Some(reg("RAX", 8)), vec![ram(0x500000, 8)])]);
    assert_eq!(fingerprint(&at_400000).unwrap(), fingerprint(&at_500000).unwrap());
}

#[test]
fn large_constants_bucket_to_same_fingerprint() {
    let a = listing(vec![op(1, Some(reg("RAX", 8)), vec![const_v(0x401000, 8)])]);
    let b = listing(vec![op(1, Some(reg("RAX", 8)), vec![const_v(0x402000, 8)])]);
    assert_eq!(fingerprint(&a).unwrap(), fingerprint(&b).unwrap());
}

#[test]
fn small_constants_do_affect_fingerprint() {
    let shift_2 = listing(vec![op(8, Some(reg("RAX", 8)), vec![reg("RBX", 8), const_v(2, 1)])]);
    let shift_3 = listing(vec![op(8, Some(reg("RAX", 8)), vec![reg("RBX", 8), const_v(3, 1)])]);
    assert_ne!(fingerprint(&shift_2).unwrap(), fingerprint(&shift_3).unwrap());
}

#[test]
fn unique_varnode_aliasing_is_preserved() {
    let pcode = listing(vec![
        op(1, Some(unique(0x100, 8)), vec![reg("RAX", 8)]),
        op(2, Some(reg("RBX", 8)), vec![unique(0x100, 8), unique(0x100, 8)]),
    ]);
    let canon = canonicalize(&pcode).unwrap();
    let count = canon.matches("U:0:8").count();
    assert_eq!(count, 3, "expected 3 references to U:0:8, got: {}", canon);
}

#[test]
fn different_unique_slots_get_different_ids() {
    let pcode = listing(vec![
        op(1, Some(unique(0x100, 8)), vec![]),
        op(1, Some(unique(0x200, 8)), vec![]),
    ]);
    let canon = canonicalize(&pcode).unwrap();
    assert!(canon.contains("U:0:8"));
    assert!(canon.contains("U:1:8"));
}

#[test]
fn missing_pcode_array_errors() {
    let bad = PcodeFunction { pcode: None };
    assert!(fingerprint(&bad).is_err());
}

#[test]
fn empty_pcode_still_hashes() {
    let empty = listing(vec![]);
    let h = fingerprint(&empty).unwrap();
    assert_eq!(format!("{:032x}", h), "d41d8cd98f00b204e9800998ecf8427e");
}

#[test]
fn null_output_is_handled() {
    let pcode = listing(vec![op(10, None, vec![reg("RIP", 8)])]);
    fingerprint(&pcode).unwrap();
}

#[test]
fn unknown_varnode_type_does_not_panic() {
    let weird = listing(vec![op(
        1,
        Some(Varnode {
            kind: Some("weird_new_kind".to_string()),
            size: Some(4),
            register: None,
            space: Some("weirdspace".to_string()),
            offset: Some("0x0".to_string()),
        }),
        vec![],
    )]);
    fingerprint(&weird).unwrap();
}

#[test]
fn canonical_text_of_each_varnode_kind() {
    let pcode = listing(vec![
        op(1, Some(reg("RAX", 8)), vec![const_v(0x10, 8), const_v(0x2000, 4)]),
        op(-3, None, vec![ram(0x401000, 2), unique(0x80, 1), varnode("stack", "stack", "0x-8".to_string(), 4, None)]),
        op(5, Some(varnode("custom", "x", "0x0".to_string(), 2, None)), vec![unique(0x90, 1), unique(0x80, 1)]),
    ]);
    assert_eq!(
        canonicalize(&pcode).unwrap(),
        "O1;R:RAX:8;C:16:8,C:LARGE:4,|O-3;.;M:2,U:0:1,S:4,|O5;?custom:2;U:1:1,U:0:1,|"
    );
}

#[test]
fn constant_offsets_parse_like_from_str_radix() {
    let mk = |offset: &str| listing(vec![op(1, None, vec![varnode("constant", "const", offset.to_string(), 1, None)])]);
    assert_eq!(canonicalize(&mk("0xFF")).unwrap(), "O1;.;C:255:1,|");
    assert_eq!(canonicalize(&mk("+a")).unwrap(), "O1;.;C:10:1,|");
    assert_eq!(canonicalize(&mk("0x+1000")).unwrap(), "O1;.;C:4096:1,|");
    assert_eq!(canonicalize(&mk("0x1001")).unwrap(), "O1;.;C:LARGE:1,|");
    assert_eq!(canonicalize(&mk("zz")).unwrap(), "O1;.;C:0:1,|");
    assert_eq!(canonicalize(&mk("0x")).unwrap(), "O1;.;C:0:1,|");
    assert_eq!(canonicalize(&mk("0x1ffffffffffffffff")).unwrap(), "O1;.;C:0:1,|");
}

#[test]
fn malformed_listings_name_the_problem() {
    let no_opcode = PcodeFunction { pcode: Some(vec![PcodeOp { opcode: None, output: None, inputs: Some(vec![]) }]) };
    assert_eq!(canonicalize(&no_opcode).unwrap_err(), HashError::MissingOpcode);
    let no_inputs = PcodeFunction { pcode: Some(vec![PcodeOp { opcode: Some(1), output: None, inputs: None }]) };
    assert_eq!(canonicalize(&no_inputs).unwrap_err(), HashError::MissingInputs);
    let untyped = Varnode { kind: None, size: None, register: None, space: None, offset: None };
    let bad_varnode = listing(vec![op(1, Some(untyped), vec![])]);
    assert_eq!(canonicalize(&bad_varnode).unwrap_err(), HashError::MissingVarnodeType);
    assert_eq!(HashError::MissingPcodeArray.message(), "pcode_response is missing the `pcode` array");
}

#[test]
fn fingerprint_hex_matches_fingerprint() {
    let pcode = listing(vec![op(3, Some(reg("RCX", 4)), vec![const_v(7, 4)])]);
    let n = fingerprint(&pcode).unwrap();
    assert_eq!(fingerprint_hex(&pcode).unwrap(), format!("{:032x}", n));
}

#[test]
fn apply_proposes_only_new_values() {
    let p = propose_changes("FUN_1000", Some("void FUN_1000(void)"), None, Some("main"), Some("int main(void)"), Some("int"));
    assert_eq!(p.rename.as_deref(), Some("main"));
    assert_eq!(p.signature.as_deref(), Some("int main(void)"));
    assert_eq!(p.return_type.as_deref(), Some("int"));
    let again = propose_changes("main", Some("int main(void)"), Some("int"), Some("main"), Some("int main(void)"), Some("int"));
    assert!(again.rename.is_none());
    assert!(again.signature.is_none());
    assert!(again.return_type.is_none());
    let empty = propose_changes("f", None, None, Some(""), None, None);
    assert!(empty.rename.is_none() && empty.signature.is_none());
}

#[test]
fn apply_summary_reports_counts() {
    let counts = ApplyCounts { total: 10, matched: 4, renamed: 3, signatures_set: 2, return_types_set: 1, skipped: 0 };
    assert_eq!(
        apply_summary(&counts, false),
        "Summary: 4/10 function(s) matched a fingerprint in the DB. 3 rename(s), 2 signature change(s), 1 return-type change(s). 0 skipped due to errors."
    );
    assert_eq!(
        apply_summary(&counts, true),
        "Summary: 4/10 function(s) matched a fingerprint in the DB. 4 rename(s), 4 signature change(s), 4 return-type change(s). 0 skipped due to errors."
    );
}
