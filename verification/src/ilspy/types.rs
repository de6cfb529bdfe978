//! Records exchanged with the ILSpy bridge.

use vstd::prelude::*;

verus! {

/// A type definition in a .NET assembly.
#[derive(Clone, Debug)]
pub struct TypeInfo {
    pub full_name: String,
    pub ns: String,
    pub name: String,
    pub kind: String,
    pub method_count: usize,
    pub property_count: usize,
    pub field_count: usize,
    pub is_public: bool,
}

/// A method definition.
#[derive(Clone, Debug)]
pub struct MethodInfo {
    /// Full name of the declaring type.
    pub declaring_type: String,
    pub name: String,
    pub return_type: String,
    pub parameters: Vec<ParameterInfo>,
    pub accessibility: String,
    pub is_static: bool,
    pub is_virtual: bool,
    pub is_abstract: bool,
}

/// A method parameter.
#[derive(Clone, Debug)]
pub struct ParameterInfo {
    pub name: String,
    pub param_type: String,
}

/// Decompiled source and what it was decompiled from.
#[derive(Clone, Debug)]
pub struct DecompileResult {
    pub source: String,
    /// Full name of the decompiled type, if one was asked for.
    pub type_full_name: Option<String>,
    pub method_name: Option<String>,
    pub return_type: Option<String>,
}

/// Assembly metadata.
#[derive(Clone, Debug)]
pub struct AssemblyInfo {
    pub name: String,
    pub type_count: usize,
    pub target_framework: String,
    pub references: Vec<AssemblyReference>,
}

/// An assembly reference.
#[derive(Clone, Debug)]
pub struct AssemblyReference {
    pub name: String,
    pub version: String,
}

/// The matches of a source search within one type.
#[derive(Clone, Debug)]
pub struct SearchResult {
    /// Full name of the type whose source matched.
    pub type_full_name: String,
    pub match_count: usize,
    pub matches: Vec<SearchMatch>,
}

/// One match of a source search.
#[derive(Clone, Debug)]
pub struct SearchMatch {
    pub line: usize,
    pub matched: String,
    pub context: String,
}

/// Error reply from the bridge.
#[derive(Clone, Debug)]
pub struct BridgeError {
    pub error: String,
}

} // verus!
