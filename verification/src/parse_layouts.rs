//! The layout builder: a fold over the input lines that keeps at most one
//! open layout and, inside it, at most one open variant, and emits each
//! layout when the next type header (or the end of the input) closes it.
//!
//! `spec_parse_layouts` is the full mathematical description of the fold;
//! `parse_layouts` computes exactly it.

use vstd::prelude::*;

use crate::grammar::LineClass;
use crate::grammar::LineClassView;
use crate::grammar::classify_line;
use crate::grammar::spec_classify;
use crate::types::EntryView;
use crate::types::Field;
use crate::types::FieldView;
use crate::types::KindView;
use crate::types::LayoutView;
use crate::types::StructEntry;
use crate::types::TypeKind;
use crate::types::TypeLayout;
use crate::types::Variant;
use crate::types::VariantView;

verus! {

/// The builder's state between lines.
#[verifier::ext_equal]
pub struct BuilderView {
    /// Layouts already closed, in input order.
    pub done: Seq<LayoutView>,
    /// The open layout, if a type header has been seen.
    pub cur: Option<LayoutView>,
    /// The open variant of the open layout, if any.
    pub var: Option<VariantView>,
}

pub open spec fn init_builder() -> BuilderView {
    BuilderView { done: Seq::empty(), cur: None, var: None }
}

pub open spec fn opt_variant_view(o: Option<Variant>) -> Option<VariantView> {
    match o {
        Some(v) => Some(v@),
        None => None,
    }
}

pub open spec fn opt_layout_view(o: Option<TypeLayout>) -> Option<LayoutView> {
    match o {
        Some(l) => Some(l@),
        None => None,
    }
}

/// Closing a variant moves it into the layout's variant list — but only an
/// enum has such a list; any other kind drops it.
pub open spec fn close_variant_kind(k: KindView, var: Option<VariantView>) -> KindView {
    match var {
        None => k,
        Some(v) => match k {
            KindView::Enum { discriminant_size, variants } => KindView::Enum {
                discriminant_size,
                variants: variants.push(v),
            },
            _ => k,
        },
    }
}

/// The Field entries of a reclassified union, in order; padding and closure
/// entries are dropped.
pub open spec fn union_fields(entries: Seq<EntryView>) -> Seq<FieldView>
    decreases entries.len(),
{
    if entries.len() == 0 {
        Seq::empty()
    } else {
        let rest = union_fields(entries.drop_last());
        match entries.last() {
            EntryView::Field(f) => rest.push(f),
            _ => rest,
        }
    }
}

/// Finalization: close any open variant, then undo the diagnostic format's
/// representation of a plain union — an enum with exactly one variant named
/// after the layout itself becomes a union of that variant's fields.
pub open spec fn finalize_layout(l: LayoutView, var: Option<VariantView>) -> LayoutView {
    let k = close_variant_kind(l.kind, var);
    match k {
        KindView::Enum { discriminant_size: _, variants } => {
            if variants.len() == 1 && variants[0].name == l.name {
                LayoutView { kind: KindView::Union { fields: union_fields(variants[0].entries) }, ..l }
            } else {
                LayoutView { kind: k, ..l }
            }
        },
        _ => LayoutView { kind: k, ..l },
    }
}

/// A field or padding entry goes to the open variant when one is open, else
/// to the layout's own struct entries; an enum without an open variant drops
/// it.
pub open spec fn route_entry(k: KindView, var: Option<VariantView>, e: EntryView) -> (
    KindView,
    Option<VariantView>,
) {
    match var {
        Some(v) => (k, Some(VariantView { name: v.name, size: v.size, entries: v.entries.push(e) })),
        None => match k {
            KindView::Struct { entries } => (KindView::Struct { entries: entries.push(e) }, None),
            _ => (k, None),
        },
    }
}

/// How one line changes the builder's state. Blank lines and lines without
/// the marker token are skipped entirely: they are not even recorded.
pub open spec fn builder_step(st: BuilderView, line: Seq<char>) -> BuilderView {
    match spec_classify(line) {
        LineClassView::Blank => st,
        LineClassView::Plain => st,
        LineClassView::TypeHeader { name, size, alignment } => {
            let done = match st.cur {
                Some(l) => st.done.push(finalize_layout(l, st.var)),
                None => st.done,
            };
            BuilderView {
                done,
                cur: Some(
                    LayoutView {
                        name,
                        size,
                        alignment,
                        kind: KindView::Struct { entries: Seq::empty() },
                        unhandled_lines: Seq::empty(),
                        raw_lines: seq![line],
                    },
                ),
                var: None,
            }
        },
        c => match st.cur {
            None => st,
            Some(l0) => {
                let l = LayoutView { raw_lines: l0.raw_lines.push(line), ..l0 };
                match c {
                    LineClassView::VariantHeader { name, size } => {
                        let k1 = close_variant_kind(l.kind, st.var);
                        let k2 = match k1 {
                            KindView::Struct { .. } => KindView::Enum {
                                discriminant_size: 0,
                                variants: Seq::empty(),
                            },
                            _ => k1,
                        };
                        BuilderView {
                            done: st.done,
                            cur: Some(LayoutView { kind: k2, ..l }),
                            var: Some(VariantView { name, size, entries: Seq::empty() }),
                        }
                    },
                    LineClassView::Discriminant { size } => {
                        let k2 = match l.kind {
                            KindView::Enum { discriminant_size: _, variants } => KindView::Enum {
                                discriminant_size: size,
                                variants,
                            },
                            _ => KindView::Enum { discriminant_size: size, variants: Seq::empty() },
                        };
                        BuilderView { done: st.done, cur: Some(LayoutView { kind: k2, ..l }), var: st.var }
                    },
                    LineClassView::UpvarEntry { var: cv } => match st.var {
                        Some(v) => BuilderView {
                            done: st.done,
                            cur: Some(l),
                            var: Some(
                                VariantView {
                                    name: v.name,
                                    size: v.size,
                                    entries: v.entries.push(EntryView::Upvar(cv)),
                                },
                            ),
                        },
                        None => BuilderView { done: st.done, cur: Some(l), var: None },
                    },
                    LineClassView::LocalEntry { var: cv } => match st.var {
                        Some(v) => BuilderView {
                            done: st.done,
                            cur: Some(l),
                            var: Some(
                                VariantView {
                                    name: v.name,
                                    size: v.size,
                                    entries: v.entries.push(EntryView::Local(cv)),
                                },
                            ),
                        },
                        None => BuilderView { done: st.done, cur: Some(l), var: None },
                    },
                    LineClassView::FieldEntry { field } => {
                        let r = route_entry(l.kind, st.var, EntryView::Field(field));
                        BuilderView { done: st.done, cur: Some(LayoutView { kind: r.0, ..l }), var: r.1 }
                    },
                    LineClassView::PaddingEntry { size } => {
                        let r = route_entry(l.kind, st.var, EntryView::Padding { size });
                        BuilderView { done: st.done, cur: Some(LayoutView { kind: r.0, ..l }), var: r.1 }
                    },
                    LineClassView::EndPaddingEntry { size } => {
                        let k2 = match l.kind {
                            KindView::Struct { entries } => KindView::Struct {
                                entries: entries.push(EntryView::Padding { size }),
                            },
                            _ => l.kind,
                        };
                        BuilderView { done: st.done, cur: Some(LayoutView { kind: k2, ..l }), var: st.var }
                    },
                    LineClassView::Marked => BuilderView {
                        done: st.done,
                        cur: Some(LayoutView { unhandled_lines: l.unhandled_lines.push(line), ..l }),
                        var: st.var,
                    },
                    _ => st,
                }
            },
        },
    }
}

/// The fold of `builder_step` over all lines, in order.
pub open spec fn builder_run(st: BuilderView, lines: Seq<Seq<char>>) -> BuilderView
    decreases lines.len(),
{
    if lines.len() == 0 {
        st
    } else {
        builder_step(builder_run(st, lines.drop_last()), lines.last())
    }
}

/// The end of the input closes the layout still open, if any.
pub open spec fn finish_builder(st: BuilderView) -> Seq<LayoutView> {
    match st.cur {
        Some(l) => st.done.push(finalize_layout(l, st.var)),
        None => st.done,
    }
}

/// What parsing a whole input yields: the completed layouts, in input order.
pub open spec fn spec_parse_layouts(lines: Seq<Seq<char>>) -> Seq<LayoutView> {
    finish_builder(builder_run(init_builder(), lines))
}

} // verus!

verus! {

// ---------------------------------------------------------------------------
// The executable builder
// ---------------------------------------------------------------------------

struct Builder {
    done: Vec<TypeLayout>,
    cur: Option<TypeLayout>,
    var: Option<Variant>,
}

spec fn builder_view(b: Builder) -> BuilderView {
    BuilderView {
        done: b.done@.map_values(|l: TypeLayout| l@),
        cur: opt_layout_view(b.cur),
        var: opt_variant_view(b.var),
    }
}

fn clone_field(f: &Field) -> (r: Field)
    ensures
        r@ == f@,
{
    Field { name: f.name.clone(), size: f.size, alignment: f.alignment, offset: f.offset }
}

fn close_variant_exec(k: TypeKind, var: Option<Variant>) -> (r: TypeKind)
    ensures
        r@ == close_variant_kind(k@, opt_variant_view(var)),
{
    let ghost kv = k@;
    let ghost vv = opt_variant_view(var);
    match var {
        None => k,
        Some(v) => match k {
            TypeKind::Enum { discriminant_size, mut variants } => {
                variants.push(v);
                let r = TypeKind::Enum { discriminant_size, variants };
                proof {
                    assert(r@ =~~= close_variant_kind(kv, vv));
                }
                r
            },
            other => other,
        },
    }
}

#[verifier::loop_isolation(false)]
fn finalize_exec(l: TypeLayout, var: Option<Variant>) -> (r: TypeLayout)
    ensures
        r@ == finalize_layout(l@, opt_variant_view(var)),
{
    let ghost lv = l@;
    let TypeLayout { name, size, alignment, kind, unhandled_lines, raw_lines } = l;
    let kind = close_variant_exec(kind, var);
    let kind = match kind {
        TypeKind::Enum { discriminant_size, variants } => {
            if variants.len() == 1 && variants[0].name == name {
                let ghost ev = variants@[0]@.entries;
                let v0 = &variants[0];
                let mut fields: Vec<Field> = Vec::new();
                let mut i: usize = 0;
                while i < v0.entries.len()
                    invariant
                        0 <= i <= v0.entries.len(),
                        ev == v0.entries@.map_values(|e: StructEntry| e@),
                        fields@.map_values(|f: Field| f@) == union_fields(ev.take(i as int)),
                    decreases v0.entries.len() - i,
                {
                    proof {
                        assert(ev.take(i + 1).drop_last() =~= ev.take(i as int));
                        assert(ev.take(i + 1).last() == ev[i as int]);
                    }
                    match &v0.entries[i] {
                        StructEntry::Field(f) => {
                            fields.push(clone_field(f));
                        },
                        _ => {},
                    }
                    proof {
                        assert(fields@.map_values(|f: Field| f@) =~= union_fields(
                            ev.take(i + 1),
                        ));
                    }
                    i = i + 1;
                }
                proof {
                    assert(ev.take(v0.entries@.len() as int) =~= ev);
                }
                TypeKind::Union { fields }
            } else {
                TypeKind::Enum { discriminant_size, variants }
            }
        },
        other => other,
    };
    let r = TypeLayout { name, size, alignment, kind, unhandled_lines, raw_lines };
    proof {
        assert(r@ =~~= finalize_layout(lv, opt_variant_view(var)));
    }
    r
}

fn route_entry_exec(k: TypeKind, var: Option<Variant>, e: StructEntry) -> (r: (
    TypeKind,
    Option<Variant>,
))
    ensures
        (r.0@, opt_variant_view(r.1)) == route_entry(k@, opt_variant_view(var), e@),
{
    let ghost spec_r = route_entry(k@, opt_variant_view(var), e@);
    match var {
        Some(mut v) => {
            v.entries.push(e);
            proof {
                assert(v@ =~~= spec_r.1->Some_0);
            }
            (k, Some(v))
        },
        None => match k {
            TypeKind::Struct { mut entries } => {
                entries.push(e);
                proof {
                    assert(TypeKind::Struct { entries }@ =~~= spec_r.0);
                }
                (TypeKind::Struct { entries }, None)
            },
            other => (other, None),
        },
    }
}

fn apply_line(b: Builder, line: &String) -> (r: Builder)
    ensures
        builder_view(r) == builder_step(builder_view(b), line@),
{
    let ghost b0 = builder_view(b);
    let cls = classify_line(line.as_str());
    let r = match cls {
        LineClass::Blank => b,
        LineClass::Plain => b,
        LineClass::TypeHeader { name, size, alignment } => {
            let Builder { mut done, cur, var } = b;
            match cur {
                Some(l) => {
                    let f = finalize_exec(l, var);
                    done.push(f);
                },
                None => {},
            }
            let mut raw_lines: Vec<String> = Vec::new();
            raw_lines.push(line.clone());
            Builder {
                done,
                cur: Some(
                    TypeLayout {
                        name,
                        size,
                        alignment,
                        kind: TypeKind::Struct { entries: Vec::new() },
                        unhandled_lines: Vec::new(),
                        raw_lines,
                    },
                ),
                var: None,
            }
        },
        other => {
            let Builder { done, cur, var } = b;
            match cur {
                None => Builder { done, cur: None, var },
                Some(l) => {
                    let TypeLayout {
                        name: lname,
                        size: lsize,
                        alignment: lalign,
                        kind: lkind,
                        unhandled_lines: mut lunh,
                        raw_lines: mut lraw,
                    } = l;
                    lraw.push(line.clone());
                    match other {
                        LineClass::VariantHeader { name, size } => {
                            let k1 = close_variant_exec(lkind, var);
                            let k2 = match k1 {
                                TypeKind::Struct { entries: _ } => TypeKind::Enum {
                                    discriminant_size: 0,
                                    variants: Vec::new(),
                                },
                                other_kind => other_kind,
                            };
                            Builder {
                                done,
                                cur: Some(
                                    TypeLayout {
                                        name: lname,
                                        size: lsize,
                                        alignment: lalign,
                                        kind: k2,
                                        unhandled_lines: lunh,
                                        raw_lines: lraw,
                                    },
                                ),
                                var: Some(Variant { name, size, entries: Vec::new() }),
                            }
                        },
                        LineClass::Discriminant { size } => {
                            let k2 = match lkind {
                                TypeKind::Enum { discriminant_size: _, variants } => TypeKind::Enum {
                                    discriminant_size: size,
                                    variants,
                                },
                                _ => TypeKind::Enum {
                                    discriminant_size: size,
                                    variants: Vec::new(),
                                },
                            };
                            Builder {
                                done,
                                cur: Some(
                                    TypeLayout {
                                        name: lname,
                                        size: lsize,
                                        alignment: lalign,
                                        kind: k2,
                                        unhandled_lines: lunh,
                                        raw_lines: lraw,
                                    },
                                ),
                                var,
                            }
                        },
                        LineClass::UpvarEntry { var: cvar } => {
                            let var2 = match var {
                                Some(mut v) => {
                                    v.entries.push(StructEntry::Upvar(cvar));
                                    Some(v)
                                },
                                None => None,
                            };
                            Builder {
                                done,
                                cur: Some(
                                    TypeLayout {
                                        name: lname,
                                        size: lsize,
                                        alignment: lalign,
                                        kind: lkind,
                                        unhandled_lines: lunh,
                                        raw_lines: lraw,
                                    },
                                ),
                                var: var2,
                            }
                        },
                        LineClass::LocalEntry { var: cvar } => {
                            let var2 = match var {
                                Some(mut v) => {
                                    v.entries.push(StructEntry::Local(cvar));
                                    Some(v)
                                },
                                None => None,
                            };
                            Builder {
                                done,
                                cur: Some(
                                    TypeLayout {
                                        name: lname,
                                        size: lsize,
                                        alignment: lalign,
                                        kind: lkind,
                                        unhandled_lines: lunh,
                                        raw_lines: lraw,
                                    },
                                ),
                                var: var2,
                            }
                        },
                        LineClass::FieldEntry { field } => {
                            let rt = route_entry_exec(lkind, var, StructEntry::Field(field));
                            Builder {
                                done,
                                cur: Some(
                                    TypeLayout {
                                        name: lname,
                                        size: lsize,
                                        alignment: lalign,
                                        kind: rt.0,
                                        unhandled_lines: lunh,
                                        raw_lines: lraw,
                                    },
                                ),
                                var: rt.1,
                            }
                        },
                        LineClass::PaddingEntry { size } => {
                            let rt = route_entry_exec(lkind, var, StructEntry::Padding { size });
                            Builder {
                                done,
                                cur: Some(
                                    TypeLayout {
                                        name: lname,
                                        size: lsize,
                                        alignment: lalign,
                                        kind: rt.0,
                                        unhandled_lines: lunh,
                                        raw_lines: lraw,
                                    },
                                ),
                                var: rt.1,
                            }
                        },
                        LineClass::EndPaddingEntry { size } => {
                            let k2 = match lkind {
                                TypeKind::Struct { mut entries } => {
                                    entries.push(StructEntry::Padding { size });
                                    TypeKind::Struct { entries }
                                },
                                other_kind => other_kind,
                            };
                            Builder {
                                done,
                                cur: Some(
                                    TypeLayout {
                                        name: lname,
                                        size: lsize,
                                        alignment: lalign,
                                        kind: k2,
                                        unhandled_lines: lunh,
                                        raw_lines: lraw,
                                    },
                                ),
                                var,
                            }
                        },
                        LineClass::Marked => {
                            lunh.push(line.clone());
                            Builder {
                                done,
                                cur: Some(
                                    TypeLayout {
                                        name: lname,
                                        size: lsize,
                                        alignment: lalign,
                                        kind: lkind,
                                        unhandled_lines: lunh,
                                        raw_lines: lraw,
                                    },
                                ),
                                var,
                            }
                        },
                        _ => unreached(),
                    }
                },
            }
        },
    };
    proof {
        assert(builder_view(r) =~~= builder_step(b0, line@));
    }
    r
}

/// Parses the input lines, in order, into the completed layouts: exactly
/// what `spec_parse_layouts` says of the lines' characters.
pub fn parse_layouts(lines: &Vec<String>) -> (r: Vec<TypeLayout>)
    ensures
        r@.map_values(|l: TypeLayout| l@) == spec_parse_layouts(
            lines@.map_values(|s: String| s@),
        ),
{
    let ghost lv = lines@.map_values(|s: String| s@);
    let mut b = Builder { done: Vec::new(), cur: None, var: None };
    proof {
        assert(builder_view(b) =~~= builder_run(init_builder(), lv.take(0)));
    }
    let mut i: usize = 0;
    while i < lines.len()
        invariant
            0 <= i <= lines.len(),
            lv == lines@.map_values(|s: String| s@),
            builder_view(b) == builder_run(init_builder(), lv.take(i as int)),
        decreases lines.len() - i,
    {
        let line = &lines[i];
        b = apply_line(b, line);
        proof {
            assert(lv.take(i + 1).drop_last() =~= lv.take(i as int));
            assert(lv.take(i + 1).last() == lv[i as int]);
        }
        i = i + 1;
    }
    proof {
        assert(lv.take(lines@.len() as int) =~= lv);
    }
    let Builder { mut done, cur, var } = b;
    match cur {
        Some(l) => {
            let f = finalize_exec(l, var);
            done.push(f);
        },
        None => {},
    }
    proof {
        assert(done@.map_values(|l: TypeLayout| l@) =~= spec_parse_layouts(lv));
    }
    done
}

} // verus!
