//! Reads the textual type-size diagnostics that a compiler emits, rebuilds a
//! structured model of each type's layout (structs, enums, unions, closures),
//! and checks that every declared total size is arithmetically consistent with
//! the sizes of its parts.

pub mod grammar;
pub mod laws;
pub mod parse_layouts;
pub mod report;
pub mod types;
pub mod verify;

pub use parse_layouts::parse_layouts;
pub use report::format_verification_error;
pub use types::ClosureVar;
pub use types::Field;
pub use types::StructEntry;
pub use types::TypeKind;
pub use types::TypeLayout;
pub use types::Variant;
pub use types::VerificationError;
