use type_size_check::ClosureVar;
use type_size_check::Field;
use type_size_check::StructEntry;
use type_size_check::TypeKind;
use type_size_check::TypeLayout;
use type_size_check::Variant;
use type_size_check::VerificationError;
use type_size_check::parse_layouts;

fn s(x: &str) -> String {
    String::from(x)
}

fn parse(lines: &[&str]) -> Vec<TypeLayout> {
    let owned: Vec<String> = lines.iter().map(|l| String::from(*l)).collect();
    parse_layouts(&owned)
}

fn field(name: &str, size: u64) -> Field {
    Field { name: s(name), size, alignment: None, offset: None }
}

#[test]
fn single_header_yields_empty_struct() {
    let layouts = parse(&["print-type-size type: `Z`: 0 bytes, alignment: 1 bytes"]);
    assert_eq!(layouts.len(), 1);
    let l = &layouts[0];
    assert_eq!(l.name, "Z");
    assert_eq!(l.size, 0);
    assert_eq!(l.alignment, 1);
    assert_eq!(l.kind, TypeKind::Struct { entries: vec![] });
    assert!(l.unhandled_lines.is_empty());
    assert_eq!(l.raw_lines, vec![s("print-type-size type: `Z`: 0 bytes, alignment: 1 bytes")]);
    assert!(l.verify().is_ok());
}

#[test]
fn single_header_nonzero_size_fails_verification() {
    let layouts = parse(&["print-type-size type: `Z`: 8 bytes, alignment: 1 bytes"]);
    assert_eq!(layouts.len(), 1);
    assert_eq!(
        layouts[0].verify(),
        Err(VerificationError::StructSizeMismatch { expected: 8, actual: 0 })
    );
}

#[test]
fn struct_with_fields_and_padding() {
    let layouts = parse(&[
        "print-type-size type: `S`: 16 bytes, alignment: 8 bytes",
        "print-type-size     field `.a`: 8 bytes, offset: 0 bytes, alignment: 8 bytes",
        "print-type-size     field `.b`: 4 bytes",
        "print-type-size     padding: 2 bytes",
        "print-type-size     end padding: 2 bytes",
    ]);
    assert_eq!(layouts.len(), 1);
    let l = &layouts[0];
    assert_eq!(
        l.kind,
        TypeKind::Struct {
            entries: vec![
                StructEntry::Field(Field {
                    name: s(".a"),
                    size: 8,
                    alignment: Some(8),
                    offset: Some(0),
                }),
                StructEntry::Field(field(".b", 4)),
                StructEntry::Padding { size: 2 },
                StructEntry::Padding { size: 2 },
            ]
        }
    );
    assert!(l.verify().is_ok());
}

#[test]
fn struct_sum_mismatch_reports_actual_sum() {
    let layouts = parse(&[
        "print-type-size type: `S`: 16 bytes, alignment: 8 bytes",
        "print-type-size     field `.a`: 8 bytes",
        "print-type-size     field `.b`: 4 bytes",
    ]);
    assert_eq!(
        layouts[0].verify(),
        Err(VerificationError::StructSizeMismatch { expected: 16, actual: 12 })
    );
}

#[test]
fn unticked_field_name_is_recognized() {
    let layouts = parse(&[
        "print-type-size type: `S`: 2 bytes, alignment: 1 bytes",
        "print-type-size     field .pad: 2 bytes",
    ]);
    assert_eq!(
        layouts[0].kind,
        TypeKind::Struct { entries: vec![StructEntry::Field(field(".pad", 2))] }
    );
}

#[test]
fn unhandled_marker_line_between_recognized_lines() {
    let mystery = "print-type-size     mystery: 3";
    let layouts = parse(&[
        "print-type-size type: `S`: 8 bytes, alignment: 4 bytes",
        "print-type-size     field `.x`: 4 bytes",
        mystery,
        "print-type-size     field `.y`: 4 bytes",
    ]);
    assert_eq!(layouts.len(), 1);
    let l = &layouts[0];
    assert_eq!(
        l.kind,
        TypeKind::Struct {
            entries: vec![StructEntry::Field(field(".x", 4)), StructEntry::Field(field(".y", 4))]
        }
    );
    assert_eq!(l.unhandled_lines, vec![s(mystery)]);
    assert_eq!(l.raw_lines.len(), 4);
    assert!(l.verify().is_ok());
}

#[test]
fn lines_without_marker_are_skipped_entirely() {
    let with_note = parse(&[
        "print-type-size type: `S`: 4 bytes, alignment: 4 bytes",
        "some compiler note without the token",
        "print-type-size     field `.x`: 4 bytes",
    ]);
    let without_note = parse(&[
        "print-type-size type: `S`: 4 bytes, alignment: 4 bytes",
        "print-type-size     field `.x`: 4 bytes",
    ]);
    assert_eq!(with_note, without_note);
    let l = &with_note[0];
    assert!(l.unhandled_lines.is_empty());
    assert_eq!(l.raw_lines.len(), 2);
    assert!(l.verify().is_ok());
}

#[test]
fn blank_lines_and_preamble_are_skipped() {
    let layouts = parse(&[
        "",
        "   \t  ",
        "print-type-size     field `.lost`: 4 bytes",
        "print-type-size type: `S`: 0 bytes, alignment: 1 bytes",
        "",
    ]);
    assert_eq!(layouts.len(), 1);
    assert_eq!(layouts[0].kind, TypeKind::Struct { entries: vec![] });
    assert_eq!(layouts[0].raw_lines.len(), 1);
}

#[test]
fn two_headers_close_the_first_layout() {
    let layouts = parse(&[
        "print-type-size type: `A`: 4 bytes, alignment: 4 bytes",
        "print-type-size     field `.x`: 4 bytes",
        "print-type-size type: `B`: 0 bytes, alignment: 1 bytes",
    ]);
    assert_eq!(layouts.len(), 2);
    assert_eq!(layouts[0].name, "A");
    assert!(layouts[0].verify().is_ok());
    assert_eq!(layouts[1].name, "B");
}

#[test]
fn enum_with_variants_and_discriminant() {
    let layouts = parse(&[
        "print-type-size type: `E`: 20 bytes, alignment: 4 bytes",
        "print-type-size     discriminant: 4 bytes",
        "print-type-size     variant `A`: 8 bytes",
        "print-type-size         field `.0`: 8 bytes",
        "print-type-size     variant `B`: 16 bytes",
        "print-type-size         field `.0`: 16 bytes",
    ]);
    assert_eq!(layouts.len(), 1);
    let l = &layouts[0];
    assert_eq!(
        l.kind,
        TypeKind::Enum {
            discriminant_size: 4,
            variants: vec![
                Variant { name: s("A"), size: 8, entries: vec![StructEntry::Field(field(".0", 8))] },
                Variant {
                    name: s("B"),
                    size: 16,
                    entries: vec![StructEntry::Field(field(".0", 16))],
                },
            ]
        }
    );
    assert!(l.verify().is_ok());
}

#[test]
fn enum_total_additive_and_niche_bounds() {
    let mk = |total: &str| {
        let header = format!("print-type-size type: `E`: {} bytes, alignment: 4 bytes", total);
        let lines = vec![
            header,
            s("print-type-size     discriminant: 4 bytes"),
            s("print-type-size     variant `A`: 8 bytes"),
            s("print-type-size         field `.0`: 8 bytes"),
            s("print-type-size     variant `B`: 16 bytes"),
            s("print-type-size         field `.0`: 16 bytes"),
        ];
        parse_layouts(&lines)
    };
    assert!(mk("20")[0].verify().is_ok());
    assert!(mk("16")[0].verify().is_ok());
    assert_eq!(
        mk("15")[0].verify(),
        Err(VerificationError::EnumTotalSizeMismatch { expected: 15, calculated_min: 20 })
    );
}

#[test]
fn variant_sum_with_discriminant_included_passes() {
    let layouts = parse(&[
        "print-type-size type: `E`: 16 bytes, alignment: 4 bytes",
        "print-type-size     discriminant: 4 bytes",
        "print-type-size     variant `V`: 12 bytes",
        "print-type-size         field `.0`: 16 bytes",
    ]);
    assert!(layouts[0].verify().is_ok());
}

#[test]
fn variant_sum_below_both_conventions_fails() {
    let layouts = parse(&[
        "print-type-size type: `E`: 16 bytes, alignment: 4 bytes",
        "print-type-size     discriminant: 4 bytes",
        "print-type-size     variant `V`: 12 bytes",
        "print-type-size         field `.0`: 11 bytes",
    ]);
    assert_eq!(
        layouts[0].verify(),
        Err(VerificationError::VariantSizeMismatch {
            variant_name: s("V"),
            expected: 12,
            actual: 11,
        })
    );
}

#[test]
fn variant_sum_above_both_conventions_fails() {
    let layouts = parse(&[
        "print-type-size type: `E`: 16 bytes, alignment: 4 bytes",
        "print-type-size     discriminant: 4 bytes",
        "print-type-size     variant `V`: 12 bytes",
        "print-type-size         field `.0`: 17 bytes",
    ]);
    assert_eq!(
        layouts[0].verify(),
        Err(VerificationError::VariantSizeMismatch {
            variant_name: s("V"),
            expected: 12,
            actual: 17,
        })
    );
}

#[test]
fn single_variant_exact_sum_passes_whatever_discriminant() {
    let layouts = parse(&[
        "print-type-size type: `E`: 12 bytes, alignment: 4 bytes",
        "print-type-size     discriminant: 8 bytes",
        "print-type-size     variant `V`: 12 bytes",
        "print-type-size         field `.0`: 12 bytes",
    ]);
    // The per-variant check passes on the exact sum; the total passes the
    // niche-packed bound max(8, 12) == 12.
    assert!(layouts[0].verify().is_ok());
}

#[test]
fn one_variant_enum_named_after_layout_becomes_union() {
    let layouts = parse(&[
        "print-type-size type: `U`: 8 bytes, alignment: 8 bytes",
        "print-type-size     variant `U`: 8 bytes",
        "print-type-size         field `.a`: 8 bytes",
        "print-type-size         field `.b`: 4 bytes",
        "print-type-size         padding: 4 bytes",
    ]);
    assert_eq!(layouts.len(), 1);
    let l = &layouts[0];
    assert_eq!(l.kind, TypeKind::Union { fields: vec![field(".a", 8), field(".b", 4)] });
    assert!(l.verify().is_ok());
}

#[test]
fn union_size_must_equal_largest_field() {
    let layouts = parse(&[
        "print-type-size type: `U`: 12 bytes, alignment: 4 bytes",
        "print-type-size     variant `U`: 12 bytes",
        "print-type-size         field `.a`: 8 bytes",
        "print-type-size         field `.b`: 4 bytes",
    ]);
    assert_eq!(
        layouts[0].verify(),
        Err(VerificationError::UnionSizeMismatch { expected: 12, actual_max: 8 })
    );
}

#[test]
fn one_variant_enum_with_other_name_stays_enum() {
    let layouts = parse(&[
        "print-type-size type: `E`: 8 bytes, alignment: 8 bytes",
        "print-type-size     variant `V`: 8 bytes",
        "print-type-size         field `.a`: 8 bytes",
    ]);
    assert_eq!(
        layouts[0].kind,
        TypeKind::Enum {
            discriminant_size: 0,
            variants: vec![Variant {
                name: s("V"),
                size: 8,
                entries: vec![StructEntry::Field(field(".a", 8))],
            }],
        }
    );
}

#[test]
fn closure_upvars_and_locals_attach_to_open_variant() {
    let layouts = parse(&[
        "print-type-size type: `C`: 16 bytes, alignment: 8 bytes",
        "print-type-size     upvar `dropped`: 8 bytes",
        "print-type-size     variant `C`: 16 bytes",
        "print-type-size         upvar `x`: 8 bytes, offset: 0 bytes, alignment: 8 bytes",
        "print-type-size         local `y`: 8 bytes, type: i64",
    ]);
    let l = &layouts[0];
    // The variant is named after the layout, so it is reclassified to a
    // union; closure entries are not fields, so none survive.
    assert_eq!(l.kind, TypeKind::Union { fields: vec![] });
    assert_eq!(
        l.verify(),
        Err(VerificationError::UnionSizeMismatch { expected: 16, actual_max: 0 })
    );
}

#[test]
fn closure_entries_carry_offset_alignment_and_type() {
    let layouts = parse(&[
        "print-type-size type: `C`: 16 bytes, alignment: 8 bytes",
        "print-type-size     variant `Body`: 16 bytes",
        "print-type-size         upvar `x`: 8 bytes, offset: 0 bytes, alignment: 8 bytes",
        "print-type-size         upvar `z`: 8 bytes",
        "print-type-size         local `y`: 8 bytes, type: i64",
        "print-type-size         local `w`: 8 bytes",
    ]);
    match &layouts[0].kind {
        TypeKind::Enum { discriminant_size, variants } => {
            assert_eq!(*discriminant_size, 0);
            assert_eq!(variants.len(), 1);
            let entries = &variants[0].entries;
            assert_eq!(entries.len(), 4);
            match &entries[0] {
                StructEntry::Upvar(c) => {
                    assert_eq!(c.name, "x");
                    assert_eq!(c.size, 8);
                    assert_eq!(c.offset, Some(0));
                    assert_eq!(c.alignment, Some(8));
                    assert_eq!(c.type_info, None);
                }
                other => panic!("expected an upvar, got {:?}", other),
            }
            match &entries[1] {
                StructEntry::Upvar(c) => {
                    assert_eq!(c.offset, None);
                    assert_eq!(c.alignment, None);
                }
                other => panic!("expected an upvar, got {:?}", other),
            }
            match &entries[2] {
                StructEntry::Local(c) => {
                    assert_eq!(c.name, "y");
                    assert_eq!(c.type_info, Some(s("i64")));
                }
                other => panic!("expected a local, got {:?}", other),
            }
            match &entries[3] {
                StructEntry::Local(c) => assert_eq!(c.type_info, None),
                other => panic!("expected a local, got {:?}", other),
            }
        }
        other => panic!("expected an enum, got {:?}", other),
    }
}

#[test]
fn end_padding_attaches_to_struct_not_variant() {
    let layouts = parse(&[
        "print-type-size type: `E`: 12 bytes, alignment: 4 bytes",
        "print-type-size     variant `A`: 8 bytes",
        "print-type-size         field `.0`: 8 bytes",
        "print-type-size     end padding: 4 bytes",
    ]);
    match &layouts[0].kind {
        TypeKind::Enum { variants, .. } => {
            // The end padding did not land in the variant.
            assert_eq!(variants[0].entries.len(), 1);
        }
        other => panic!("expected an enum, got {:?}", other),
    }
}

#[test]
fn variant_name_backticks_are_trimmed() {
    let layouts = parse(&[
        "print-type-size type: `E`: 4 bytes, alignment: 4 bytes",
        "print-type-size     variant ``X``: 4 bytes",
        "print-type-size         field `.0`: 4 bytes",
    ]);
    match &layouts[0].kind {
        TypeKind::Enum { variants, .. } => assert_eq!(variants[0].name, "X"),
        other => panic!("expected an enum, got {:?}", other),
    }
}

#[test]
fn discriminant_after_struct_entries_promotes_and_drops_them() {
    let layouts = parse(&[
        "print-type-size type: `E`: 4 bytes, alignment: 4 bytes",
        "print-type-size     field `.x`: 4 bytes",
        "print-type-size     discriminant: 4 bytes",
    ]);
    assert_eq!(layouts[0].kind, TypeKind::Enum { discriminant_size: 4, variants: vec![] });
    assert!(layouts[0].verify().is_ok());
}

#[test]
fn oversized_number_makes_the_line_unhandled() {
    let big = "print-type-size     padding: 99999999999999999999999999 bytes";
    let layouts = parse(&[
        "print-type-size type: `S`: 0 bytes, alignment: 1 bytes",
        big,
    ]);
    let l = &layouts[0];
    assert_eq!(l.kind, TypeKind::Struct { entries: vec![] });
    assert_eq!(l.unhandled_lines, vec![s(big)]);
}

#[test]
fn entry_size_covers_every_tag() {
    let f = StructEntry::Field(field(".x", 3));
    let u = StructEntry::Upvar(ClosureVar {
        name: s("u"),
        size: 5,
        offset: None,
        alignment: None,
        type_info: None,
    });
    let l = StructEntry::Local(ClosureVar {
        name: s("l"),
        size: 7,
        offset: None,
        alignment: None,
        type_info: None,
    });
    let p = StructEntry::Padding { size: 11 };
    assert_eq!(f.size(), 3);
    assert_eq!(u.size(), 5);
    assert_eq!(l.size(), 7);
    assert_eq!(p.size(), 11);
}
