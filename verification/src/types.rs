//! The data model: one record per diagnosed type, made of named fields,
//! closure variables and padding gaps, grouped either directly (struct),
//! per variant (enum) or as overlapping fields (union).
//!
//! Each executable type has a mathematical view (`...View`) over `Seq<char>`
//! and plain integers; every contract in the crate speaks of these views.

use vstd::prelude::*;

verus! {

/// One named member of a struct, enum variant or union.
#[derive(Debug, PartialEq)]
pub struct Field {
    pub name: String,
    pub size: u64,
    pub alignment: Option<u64>,
    pub offset: Option<u64>,
}

/// A variable captured by a closure ("upvar") or tracked as part of a
/// closure's frame ("local"); the two are told apart by the entry tag.
#[derive(Debug, PartialEq)]
pub struct ClosureVar {
    pub name: String,
    pub size: u64,
    pub offset: Option<u64>,
    pub alignment: Option<u64>,
    pub type_info: Option<String>,
}

/// One entry of a layout, in input order.
#[derive(Debug, PartialEq)]
pub enum StructEntry {
    Field(Field),
    Upvar(ClosureVar),
    Local(ClosureVar),
    Padding { size: u64 },
}

/// One arm of an enumeration, with its declared size.
#[derive(Debug, PartialEq)]
pub struct Variant {
    pub name: String,
    pub size: u64,
    pub entries: Vec<StructEntry>,
}

/// How a layout composes its entries.
#[derive(Debug, PartialEq)]
pub enum TypeKind {
    Struct { entries: Vec<StructEntry> },
    Enum { discriminant_size: u64, variants: Vec<Variant> },
    Union { fields: Vec<Field> },
}

/// One complete diagnosed type: its name, declared total size and alignment,
/// its entries, the marker-bearing lines that matched no known shape, and a
/// verbatim echo of every marker-bearing line that belonged to it (lines
/// without the marker token are skipped entirely, not even recorded).
#[derive(Debug, PartialEq)]
pub struct TypeLayout {
    pub name: String,
    pub size: u64,
    pub alignment: u64,
    pub kind: TypeKind,
    pub unhandled_lines: Vec<String>,
    pub raw_lines: Vec<String>,
}

/// The one defect a layout can be found to have, with the numbers involved.
#[derive(Debug, PartialEq)]
pub enum VerificationError {
    StructSizeMismatch { expected: u64, actual: u64 },
    VariantSizeMismatch { variant_name: String, expected: u64, actual: u64 },
    UnionSizeMismatch { expected: u64, actual_max: u64 },
    EnumTotalSizeMismatch { expected: u64, calculated_min: u64 },
}

// ---------------------------------------------------------------------------
// Mathematical views
// ---------------------------------------------------------------------------

#[verifier::ext_equal]
pub struct FieldView {
    pub name: Seq<char>,
    pub size: u64,
    pub alignment: Option<u64>,
    pub offset: Option<u64>,
}

#[verifier::ext_equal]
pub struct ClosureVarView {
    pub name: Seq<char>,
    pub size: u64,
    pub offset: Option<u64>,
    pub alignment: Option<u64>,
    pub type_info: Option<Seq<char>>,
}

#[verifier::ext_equal]
pub enum EntryView {
    Field(FieldView),
    Upvar(ClosureVarView),
    Local(ClosureVarView),
    Padding { size: u64 },
}

#[verifier::ext_equal]
pub struct VariantView {
    pub name: Seq<char>,
    pub size: u64,
    pub entries: Seq<EntryView>,
}

#[verifier::ext_equal]
pub enum KindView {
    Struct { entries: Seq<EntryView> },
    Enum { discriminant_size: u64, variants: Seq<VariantView> },
    Union { fields: Seq<FieldView> },
}

#[verifier::ext_equal]
pub struct LayoutView {
    pub name: Seq<char>,
    pub size: u64,
    pub alignment: u64,
    pub kind: KindView,
    pub unhandled_lines: Seq<Seq<char>>,
    pub raw_lines: Seq<Seq<char>>,
}

#[verifier::ext_equal]
pub enum ErrorView {
    StructSizeMismatch { expected: u64, actual: u64 },
    VariantSizeMismatch { variant_name: Seq<char>, expected: u64, actual: u64 },
    UnionSizeMismatch { expected: u64, actual_max: u64 },
    EnumTotalSizeMismatch { expected: u64, calculated_min: u64 },
}

impl View for Field {
    type V = FieldView;

    open spec fn view(&self) -> FieldView {
        FieldView {
            name: self.name@,
            size: self.size,
            alignment: self.alignment,
            offset: self.offset,
        }
    }
}

impl View for ClosureVar {
    type V = ClosureVarView;

    open spec fn view(&self) -> ClosureVarView {
        ClosureVarView {
            name: self.name@,
            size: self.size,
            offset: self.offset,
            alignment: self.alignment,
            type_info: match self.type_info {
                Some(ref t) => Some(t@),
                None => None,
            },
        }
    }
}

impl View for StructEntry {
    type V = EntryView;

    open spec fn view(&self) -> EntryView {
        match self {
            StructEntry::Field(f) => EntryView::Field(f@),
            StructEntry::Upvar(c) => EntryView::Upvar(c@),
            StructEntry::Local(c) => EntryView::Local(c@),
            StructEntry::Padding { size } => EntryView::Padding { size: *size },
        }
    }
}

impl View for Variant {
    type V = VariantView;

    open spec fn view(&self) -> VariantView {
        VariantView {
            name: self.name@,
            size: self.size,
            entries: self.entries@.map_values(|e: StructEntry| e@),
        }
    }
}

impl View for TypeKind {
    type V = KindView;

    open spec fn view(&self) -> KindView {
        match self {
            TypeKind::Struct { entries } => KindView::Struct {
                entries: entries@.map_values(|e: StructEntry| e@),
            },
            TypeKind::Enum { discriminant_size, variants } => KindView::Enum {
                discriminant_size: *discriminant_size,
                variants: variants@.map_values(|v: Variant| v@),
            },
            TypeKind::Union { fields } => KindView::Union {
                fields: fields@.map_values(|f: Field| f@),
            },
        }
    }
}

impl View for TypeLayout {
    type V = LayoutView;

    open spec fn view(&self) -> LayoutView {
        LayoutView {
            name: self.name@,
            size: self.size,
            alignment: self.alignment,
            kind: self.kind@,
            unhandled_lines: self.unhandled_lines@.map_values(|s: String| s@),
            raw_lines: self.raw_lines@.map_values(|s: String| s@),
        }
    }
}

impl View for VerificationError {
    type V = ErrorView;

    open spec fn view(&self) -> ErrorView {
        match self {
            VerificationError::StructSizeMismatch { expected, actual } =>
                ErrorView::StructSizeMismatch { expected: *expected, actual: *actual },
            VerificationError::VariantSizeMismatch { variant_name, expected, actual } =>
                ErrorView::VariantSizeMismatch {
                    variant_name: variant_name@,
                    expected: *expected,
                    actual: *actual,
                },
            VerificationError::UnionSizeMismatch { expected, actual_max } =>
                ErrorView::UnionSizeMismatch { expected: *expected, actual_max: *actual_max },
            VerificationError::EnumTotalSizeMismatch { expected, calculated_min } =>
                ErrorView::EnumTotalSizeMismatch {
                    expected: *expected,
                    calculated_min: *calculated_min,
                },
        }
    }
}

/// The size in bytes that one entry contributes to its container.
pub open spec fn entry_size(e: EntryView) -> u64 {
    match e {
        EntryView::Field(f) => f.size,
        EntryView::Upvar(c) => c.size,
        EntryView::Local(c) => c.size,
        EntryView::Padding { size } => size,
    }
}

impl StructEntry {
    /// The size in bytes of this entry, whatever its tag.
    pub fn size(&self) -> (s: u64)
        ensures
            s == entry_size(self@),
    {
        match self {
            StructEntry::Field(f) => f.size,
            StructEntry::Upvar(c) => c.size,
            StructEntry::Local(c) => c.size,
            StructEntry::Padding { size } => *size,
        }
    }
}

} // verus!
