//! The properties the library guarantees, stated over the same spec
//! functions its contracts use and proved once and for all.

use vstd::prelude::*;

use crate::parse_layouts::BuilderView;
use crate::parse_layouts::builder_run;
use crate::parse_layouts::builder_step;
use crate::parse_layouts::close_variant_kind;
use crate::parse_layouts::finalize_layout;
use crate::parse_layouts::init_builder;
use crate::parse_layouts::spec_parse_layouts;
use crate::parse_layouts::union_fields;
use crate::grammar::LineClassView;
use crate::grammar::spec_classify;
use crate::types::EntryView;
use crate::types::ErrorView;
use crate::types::KindView;
use crate::types::LayoutView;
use crate::types::VariantView;
use crate::verify::first_bad_variant;
use crate::verify::lemma_first_bad_prefix;
use crate::verify::max_field_size;
use crate::verify::max_variant_size;
use crate::verify::sat_u64;
use crate::verify::spec_verify;
use crate::verify::sum_entry_sizes;
use crate::verify::variant_ok;

verus! {

/// A struct layout verifies successfully exactly when its entry sizes sum to
/// its declared size, and any failure reports that sum (clamped to `u64`).
pub proof fn lemma_struct_verification(l: LayoutView, entries: Seq<EntryView>)
    requires
        l.kind == (KindView::Struct { entries }),
    ensures
        spec_verify(l) is Ok <==> l.size == sum_entry_sizes(entries),
        spec_verify(l) is Err ==> spec_verify(l) == Err::<(), ErrorView>(
            ErrorView::StructSizeMismatch {
                expected: l.size,
                actual: sat_u64(sum_entry_sizes(entries)),
            },
        ),
{
}

/// A variant whose entries sum to its declared size passes the per-variant
/// check, whatever the discriminant size; alone in an enum, it leaves no
/// variant defect to report.
pub proof fn lemma_single_variant_exact_sum(v: VariantView, discriminant_size: u64)
    requires
        sum_entry_sizes(v.entries) == v.size,
    ensures
        variant_ok(v, discriminant_size),
        (first_bad_variant(seq![v], discriminant_size) is None),
{
    assert(variant_ok(v, discriminant_size));
    assert(seq![v].first() == v);
    assert(seq![v].drop_first() =~= Seq::<VariantView>::empty());
    assert(first_bad_variant(Seq::<VariantView>::empty(), discriminant_size) is None);
}

/// With a positive discriminant, a variant whose entries sum to its declared
/// size plus the discriminant also passes: the diagnostic sometimes reports
/// variant sizes inclusive of the discriminant.
pub proof fn lemma_variant_inclusive_discriminant(v: VariantView, discriminant_size: u64)
    requires
        discriminant_size > 0,
        sum_entry_sizes(v.entries) == v.size + discriminant_size,
    ensures
        variant_ok(v, discriminant_size),
{
}

/// The first variant failing both per-variant checks is the one reported,
/// with the declared size it should have had and the sum actually found.
pub proof fn lemma_variant_mismatch_reported(
    l: LayoutView,
    discriminant_size: u64,
    vs: Seq<VariantView>,
    i: int,
)
    requires
        l.kind == (KindView::Enum { discriminant_size, variants: vs }),
        0 <= i < vs.len(),
        forall|j: int| 0 <= j < i ==> variant_ok(vs[j], discriminant_size),
        !variant_ok(vs[i], discriminant_size),
    ensures
        spec_verify(l) == Err::<(), ErrorView>(
            ErrorView::VariantSizeMismatch {
                variant_name: vs[i].name,
                expected: vs[i].size,
                actual: sat_u64(sum_entry_sizes(vs[i].entries)),
            },
        ),
{
    lemma_first_bad_prefix(vs, discriminant_size, i);
}

/// An enum whose variants all pass is accepted exactly when its declared
/// total reaches the additive minimum (discriminant plus largest variant) or
/// equals the niche-packed minimum (the larger of the two); any failure
/// reports the additive minimum.
pub proof fn lemma_enum_total_rule(l: LayoutView, discriminant_size: u64, vs: Seq<VariantView>)
    requires
        l.kind == (KindView::Enum { discriminant_size, variants: vs }),
        (first_bad_variant(vs, discriminant_size) is None),
    ensures
        spec_verify(l) is Ok <==> (l.size >= discriminant_size + max_variant_size(vs) || l.size
            == if discriminant_size > max_variant_size(vs) {
            discriminant_size as int
        } else {
            max_variant_size(vs) as int
        }),
        spec_verify(l) is Err ==> spec_verify(l) == Err::<(), ErrorView>(
            ErrorView::EnumTotalSizeMismatch {
                expected: l.size,
                calculated_min: sat_u64(discriminant_size + max_variant_size(vs)),
            },
        ),
{
}

/// A finalized enum with exactly one variant named after its own layout is
/// reclassified to a union whose fields are that variant's Field entries;
/// verifying the result compares the declared size with the largest field.
pub proof fn lemma_union_reclassification(
    l: LayoutView,
    var: Option<VariantView>,
    discriminant_size: u64,
    vs: Seq<VariantView>,
)
    requires
        close_variant_kind(l.kind, var) == (KindView::Enum { discriminant_size, variants: vs }),
        vs.len() == 1,
        vs[0].name == l.name,
    ensures
        finalize_layout(l, var) == (LayoutView {
            kind: KindView::Union { fields: union_fields(vs[0].entries) },
            ..l
        }),
        spec_verify(finalize_layout(l, var)) is Ok <==> l.size == max_field_size(
            union_fields(vs[0].entries),
        ),
{
}

/// The reclassified union's fields are exactly the variant's Field entries,
/// in order; padding and closure entries are dropped.
pub proof fn lemma_union_fields_exact(entries: Seq<EntryView>)
    ensures
        (union_fields(entries) == entries.filter(|e: EntryView| e is Field).map_values(
            |e: EntryView| e->Field_0,
        )),
    decreases entries.len(),
{
    reveal(Seq::filter);
    let p = |e: EntryView| e is Field;
    let f = |e: EntryView| e->Field_0;
    if entries.len() == 0 {
        assert(union_fields(entries) =~= entries.filter(p).map_values(f));
    } else {
        lemma_union_fields_exact(entries.drop_last());
        assert(union_fields(entries) =~= entries.filter(p).map_values(f));
    }
}

/// Round trip for the smallest input: one well-formed type header with no
/// body lines yields exactly one layout — the header's name, size and
/// alignment, an empty struct kind, nothing unhandled, the line echoed — and
/// verifying it succeeds exactly when the declared size is zero.
pub proof fn lemma_single_header_round_trip(
    line: Seq<char>,
    name: Seq<char>,
    size: u64,
    alignment: u64,
)
    requires
        spec_classify(line) == (LineClassView::TypeHeader { name, size, alignment }),
    ensures
        (spec_parse_layouts(seq![line]) == seq![
            LayoutView {
                name,
                size,
                alignment,
                kind: KindView::Struct { entries: Seq::empty() },
                unhandled_lines: Seq::empty(),
                raw_lines: seq![line],
            },
        ]),
        spec_verify(spec_parse_layouts(seq![line])[0]) is Ok <==> size == 0,
{
    let lines = seq![line];
    assert(lines.drop_last() =~= Seq::<Seq<char>>::empty());
    assert(lines.last() == line);
    assert(builder_run(init_builder(), Seq::<Seq<char>>::empty()) == init_builder());
    assert(builder_run(init_builder(), lines) == builder_step(init_builder(), line));
    let l = LayoutView {
        name,
        size,
        alignment,
        kind: KindView::Struct { entries: Seq::empty() },
        unhandled_lines: Seq::empty(),
        raw_lines: seq![line],
    };
    assert(finalize_layout(l, None) =~~= l);
    assert(spec_parse_layouts(lines) =~~= seq![l]);
}

/// A blank line, or a line without the marker token, is skipped entirely: it
/// changes nothing in the builder's state, so no field of any resulting
/// layout.
pub proof fn lemma_irrelevant_line_skipped(st: BuilderView, line: Seq<char>)
    requires
        spec_classify(line) == LineClassView::Blank || spec_classify(line)
            == LineClassView::Plain,
    ensures
        builder_step(st, line) == st,
{
}

/// A marker-bearing line of unrecognized shape only records itself: the open
/// layout gains it in `unhandled_lines` and `raw_lines`, and nothing else in
/// the builder's state — the open variant included — changes. The lines
/// around it therefore parse as they would without it.
pub proof fn lemma_unhandled_line_preserves_state(st: BuilderView, line: Seq<char>, l: LayoutView)
    requires
        spec_classify(line) == LineClassView::Marked,
        st.cur == Some(l),
    ensures
        builder_step(st, line) == (BuilderView {
            done: st.done,
            cur: Some(
                LayoutView {
                    unhandled_lines: l.unhandled_lines.push(line),
                    raw_lines: l.raw_lines.push(line),
                    ..l
                },
            ),
            var: st.var,
        }),
{
    assert(builder_step(st, line) =~~= BuilderView {
        done: st.done,
        cur: Some(
            LayoutView {
                unhandled_lines: l.unhandled_lines.push(line),
                raw_lines: l.raw_lines.push(line),
                ..l
            },
        ),
        var: st.var,
    });
}

} // verus!
