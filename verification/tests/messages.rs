use type_size_check::VerificationError;
use type_size_check::format_verification_error;
use type_size_check::grammar::LineClass;
use type_size_check::grammar::classify_line;

#[test]
fn struct_mismatch_message() {
    let e = VerificationError::StructSizeMismatch { expected: 16, actual: 12 };
    assert_eq!(format_verification_error(e), "mismatch struct size (expected: 16, actual: 12)");
}

#[test]
fn variant_mismatch_message() {
    let e = VerificationError::VariantSizeMismatch {
        variant_name: String::from("V"),
        expected: 12,
        actual: 11,
    };
    assert_eq!(
        format_verification_error(e),
        "mismatch variant size (name: V, expected: 12, actual: 11)"
    );
}

#[test]
fn union_mismatch_message() {
    let e = VerificationError::UnionSizeMismatch { expected: 8, actual_max: 4 };
    assert_eq!(format_verification_error(e), "mismatch union size (expected: 8, actual: 4)");
}

#[test]
fn enum_total_mismatch_message() {
    let e = VerificationError::EnumTotalSizeMismatch { expected: 15, calculated_min: 20 };
    assert_eq!(
        format_verification_error(e),
        "mismatch enum size (expected: 15, calculated_min: 20)"
    );
}

#[test]
fn large_numbers_render_in_full() {
    let e = VerificationError::StructSizeMismatch { expected: 18446744073709551615, actual: 0 };
    assert_eq!(
        format_verification_error(e),
        "mismatch struct size (expected: 18446744073709551615, actual: 0)"
    );
}

#[test]
fn classify_type_header_line() {
    let c = classify_line("print-type-size type: `std::option::Option<u32>`: 8 bytes, alignment: 4 bytes");
    match c {
        LineClass::TypeHeader { name, size, alignment } => {
            assert_eq!(name, "std::option::Option<u32>");
            assert_eq!(size, 8);
            assert_eq!(alignment, 4);
        }
        other => panic!("expected a type header, got {:?}", other),
    }
}

#[test]
fn classify_field_extracts_offset_and_alignment_from_tail() {
    let c = classify_line("print-type-size     field `.x`: 8 bytes, offset: 16 bytes, alignment: 8 bytes");
    match c {
        LineClass::FieldEntry { field } => {
            assert_eq!(field.name, ".x");
            assert_eq!(field.size, 8);
            assert_eq!(field.offset, Some(16));
            assert_eq!(field.alignment, Some(8));
        }
        other => panic!("expected a field, got {:?}", other),
    }
}

#[test]
fn classify_marker_line_of_unknown_shape() {
    let c = classify_line("print-type-size something new entirely");
    assert_eq!(c, LineClass::Marked);
}

#[test]
fn classify_line_without_marker() {
    assert_eq!(classify_line("warning: unused variable"), LineClass::Plain);
}

#[test]
fn classify_blank_line() {
    assert_eq!(classify_line("  \t "), LineClass::Blank);
}

#[test]
fn classify_marker_not_at_line_start() {
    assert_eq!(classify_line("xx print-type-size padding: 3 bytes"), LineClass::Marked);
}

#[test]
fn classify_field_name_may_contain_backticks_and_colons() {
    let c = classify_line("print-type-size field `.a`b: c`: 4 bytes");
    match c {
        LineClass::FieldEntry { field } => {
            assert_eq!(field.name, ".a`b: c");
            assert_eq!(field.size, 4);
        }
        other => panic!("expected a field, got {:?}", other),
    }
}

#[test]
fn classify_marker_with_nothing_after_it() {
    assert_eq!(classify_line("print-type-size"), LineClass::Marked);
    assert_eq!(classify_line("  print-type-size   "), LineClass::Marked);
}

#[test]
fn upvar_partial_offset_tail_is_left_out() {
    let c = classify_line("print-type-size upvar `x`: 8 bytes, offset: 1 bytes");
    match c {
        LineClass::UpvarEntry { var } => {
            assert_eq!(var.size, 8);
            assert_eq!(var.offset, None);
            assert_eq!(var.alignment, None);
        }
        other => panic!("expected an upvar, got {:?}", other),
    }
}

#[test]
fn field_alignment_attr_alone_is_extracted() {
    let c = classify_line("print-type-size field `.x`: 8 bytes, alignment: 4 bytes");
    match c {
        LineClass::FieldEntry { field } => {
            assert_eq!(field.offset, None);
            assert_eq!(field.alignment, Some(4));
        }
        other => panic!("expected a field, got {:?}", other),
    }
}

#[test]
fn variant_header_sizes_parse() {
    let c = classify_line("print-type-size     variant `Some`: 4 bytes");
    match c {
        LineClass::VariantHeader { name, size } => {
            assert_eq!(name, "Some");
            assert_eq!(size, 4);
        }
        other => panic!("expected a variant header, got {:?}", other),
    }
}
