//! The API surface of one package: items and paths keyed by item id.

use crate::text::same_text;
use serde_json::Value;
use std::collections::HashMap;
use vstd::prelude::*;

verus! {

/// `serde_json::Value`: a JSON value that this library carries without
/// reading. Nothing is claimed of it.
#[verifier::external_type_specification]
#[verifier::external_body]
pub struct ExValue(Value);

/// Everything that one package declares.
#[derive(Debug)]
pub struct ApiDocs {
    /// One entry per declared item.
    pub index: HashMap<i32, ApiItem>,
    /// The kind of each item that has a path, over the same ids.
    pub paths: HashMap<i32, ApiPath>,
}

/// One declared item.
#[derive(Debug)]
pub struct ApiItem {
    /// Absent for anonymous items such as impls.
    pub name: Option<String>,
    /// Absent for items that the compiler made up.
    pub span: Option<ApiItemSpan>,
    pub visibility: String,
    pub inner: ApiItemInner,
}

/// What the path table holds for an id.
#[derive(Debug)]
pub struct ApiPath {
    pub kind: ItemKind,
}

/// The kind of a declared item.
#[derive(Debug, Clone, Copy, PartialEq, Eq, Structural)]
pub enum ItemKind {
    Function,
    Struct,
    Enum,
    Trait,
    Module,
    Union,
    TypeAlias,
    Variant,
    Constant,
    Primitive,
    Macro,
    ProcDerive,
    Static,
    TraitAlias,
    ProcAttribute,
    AssocType,
    /// Any kind that this library does not know by name.
    Unknown,
}

impl ItemKind {
    /// The kinds for which "declared but mentioned nowhere else" is a
    /// meaningful signal.
    pub open spec fn supported(self) -> bool {
        self is Function || self is Struct || self is Enum || self is Trait || self is Constant
            || self is Static
    }

    /// The kind that a tag of the path table stands for.
    pub open spec fn of_tag(tag: Seq<char>) -> ItemKind {
        if tag == "function"@ {
            ItemKind::Function
        } else if tag == "struct"@ {
            ItemKind::Struct
        } else if tag == "enum"@ {
            ItemKind::Enum
        } else if tag == "trait"@ {
            ItemKind::Trait
        } else if tag == "module"@ {
            ItemKind::Module
        } else if tag == "union"@ {
            ItemKind::Union
        } else if tag == "type_alias"@ {
            ItemKind::TypeAlias
        } else if tag == "variant"@ {
            ItemKind::Variant
        } else if tag == "constant"@ {
            ItemKind::Constant
        } else if tag == "primitive"@ {
            ItemKind::Primitive
        } else if tag == "macro"@ {
            ItemKind::Macro
        } else if tag == "proc_derive"@ {
            ItemKind::ProcDerive
        } else if tag == "static"@ {
            ItemKind::Static
        } else if tag == "trait_alias"@ {
            ItemKind::TraitAlias
        } else if tag == "proc_attribute"@ {
            ItemKind::ProcAttribute
        } else if tag == "assoc_type"@ {
            ItemKind::AssocType
        } else {
            ItemKind::Unknown
        }
    }

    /// The kind's name as it appears in a finding.
    pub open spec fn spec_name(self) -> Seq<char> {
        match self {
            ItemKind::Function => "Function"@,
            ItemKind::Struct => "Struct"@,
            ItemKind::Enum => "Enum"@,
            ItemKind::Trait => "Trait"@,
            ItemKind::Module => "Module"@,
            ItemKind::Union => "Union"@,
            ItemKind::TypeAlias => "TypeAlias"@,
            ItemKind::Variant => "Variant"@,
            ItemKind::Constant => "Constant"@,
            ItemKind::Primitive => "Primitive"@,
            ItemKind::Macro => "Macro"@,
            ItemKind::ProcDerive => "ProcDerive"@,
            ItemKind::Static => "Static"@,
            ItemKind::TraitAlias => "TraitAlias"@,
            ItemKind::ProcAttribute => "ProcAttribute"@,
            ItemKind::AssocType => "AssocType"@,
            ItemKind::Unknown => "Unknown"@,
        }
    }

    /// Whether usage analysis applies to items of this kind.
    pub fn is_supported(&self) -> (r: bool)
        ensures
            r == self.supported(),
    {
        match self {
            ItemKind::Function
            | ItemKind::Enum
            | ItemKind::Trait
            | ItemKind::Struct
            | ItemKind::Constant
            | ItemKind::Static => true,
            ItemKind::Module
            | ItemKind::Union
            | ItemKind::TypeAlias
            | ItemKind::Variant
            | ItemKind::Primitive
            | ItemKind::Macro
            | ItemKind::ProcDerive
            | ItemKind::TraitAlias
            | ItemKind::ProcAttribute
            | ItemKind::AssocType
            | ItemKind::Unknown => false,
        }
    }

    /// Decodes a tag of the path table. A tag that names no known kind gives
    /// `Unknown`, so that later versions of the table still decode.
    pub fn from_tag(tag: &str) -> (kind: ItemKind)
        ensures
            kind == ItemKind::of_tag(tag@),
    {
        if same_text(tag, "function") {
            ItemKind::Function
        } else if same_text(tag, "struct") {
            ItemKind::Struct
        } else if same_text(tag, "enum") {
            ItemKind::Enum
        } else if same_text(tag, "trait") {
            ItemKind::Trait
        } else if same_text(tag, "module") {
            ItemKind::Module
        } else if same_text(tag, "union") {
            ItemKind::Union
        } else if same_text(tag, "type_alias") {
            ItemKind::TypeAlias
        } else if same_text(tag, "variant") {
            ItemKind::Variant
        } else if same_text(tag, "constant") {
            ItemKind::Constant
        } else if same_text(tag, "primitive") {
            ItemKind::Primitive
        } else if same_text(tag, "macro") {
            ItemKind::Macro
        } else if same_text(tag, "proc_derive") {
            ItemKind::ProcDerive
        } else if same_text(tag, "static") {
            ItemKind::Static
        } else if same_text(tag, "trait_alias") {
            ItemKind::TraitAlias
        } else if same_text(tag, "proc_attribute") {
            ItemKind::ProcAttribute
        } else if same_text(tag, "assoc_type") {
            ItemKind::AssocType
        } else {
            ItemKind::Unknown
        }
    }

    /// The kind's name as it appears in a finding.
    pub fn name(&self) -> (r: &'static str)
        ensures
            r@ == self.spec_name(),
    {
        match self {
            ItemKind::Function => "Function",
            ItemKind::Struct => "Struct",
            ItemKind::Enum => "Enum",
            ItemKind::Trait => "Trait",
            ItemKind::Module => "Module",
            ItemKind::Union => "Union",
            ItemKind::TypeAlias => "TypeAlias",
            ItemKind::Variant => "Variant",
            ItemKind::Constant => "Constant",
            ItemKind::Primitive => "Primitive",
            ItemKind::Macro => "Macro",
            ItemKind::ProcDerive => "ProcDerive",
            ItemKind::Static => "Static",
            ItemKind::TraitAlias => "TraitAlias",
            ItemKind::ProcAttribute => "ProcAttribute",
            ItemKind::AssocType => "AssocType",
            ItemKind::Unknown => "Unknown",
        }
    }
}

impl Default for ApiPath {
    /// An id that the path table lacks is of unknown kind.
    fn default() -> (r: Self)
        ensures
            r.kind == ItemKind::Unknown,
    {
        Self { kind: ItemKind::Unknown }
    }
}

/// Where an item is declared.
#[derive(Debug, Clone)]
pub struct ApiItemSpan {
    /// The declaring file, relative to the workspace.
    pub filename: String,
}

/// What an item is, as far as this library reads it.
#[derive(Debug)]
pub enum ApiItemInner {
    Function(Function),
    Struct(Struct),
    /// Every other shape, kept undecoded.
    Other(Value),
}

/// How the payload under a tag of `inner` is decoded.
#[derive(Debug, Clone, Copy, PartialEq, Eq, Structural)]
pub enum InnerShape {
    Function,
    Struct,
    /// Every other tag, known or not: the payload stays undecoded.
    Other,
}

impl InnerShape {
    /// The shape that a tag of `inner` stands for.
    pub open spec fn of_tag(tag: Seq<char>) -> InnerShape {
        if tag == "function"@ {
            InnerShape::Function
        } else if tag == "struct"@ {
            InnerShape::Struct
        } else {
            InnerShape::Other
        }
    }

    /// Decodes a tag of `inner`. A tag that is not read in detail, or not
    /// known at all, gives `Other`.
    pub fn from_tag(tag: &str) -> (shape: InnerShape)
        ensures
            shape == InnerShape::of_tag(tag@),
    {
        if same_text(tag, "function") {
            InnerShape::Function
        } else if same_text(tag, "struct") {
            InnerShape::Struct
        } else {
            InnerShape::Other
        }
    }
}

impl ApiItemInner {
    /// The shape of this value.
    pub fn shape(&self) -> (shape: InnerShape)
        ensures
            shape == match self {
                ApiItemInner::Function(_) => InnerShape::Function,
                ApiItemInner::Struct(_) => InnerShape::Struct,
                ApiItemInner::Other(_) => InnerShape::Other,
            },
    {
        match self {
            ApiItemInner::Function(_) => InnerShape::Function,
            ApiItemInner::Struct(_) => InnerShape::Struct,
            ApiItemInner::Other(_) => InnerShape::Other,
        }
    }
}

/// The body of a function item.
#[derive(Debug)]
pub struct Function {
    pub sig: FunctionSig,
    pub generics: Value,
    pub header: Value,
    pub has_body: bool,
}

/// The body of a struct item.
#[derive(Debug)]
pub struct Struct {
    pub generics: Value,
    pub kind: Value,
    pub impls: Value,
}

/// A function's inputs and output.
#[derive(Debug)]
pub struct FunctionSig {
    pub inputs: Vec<Value>,
    pub output: Value,
}

} // verus!
