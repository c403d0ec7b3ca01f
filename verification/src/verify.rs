//! The verification engine: a pure check that one finalized layout's declared
//! total size is consistent with the sizes of its parts, under the composition
//! rule of its kind.
//!
//! `spec_verify` is the full mathematical statement; `TypeLayout::verify`
//! returns exactly what it prescribes. All sums are taken over the unbounded
//! integers; a sum or minimum that is reported inside an error value is
//! clamped to `u64::MAX` (`sat_u64`), since the error type carries `u64`s.

use vstd::prelude::*;

use crate::types::EntryView;
use crate::types::ErrorView;
use crate::types::FieldView;
use crate::types::KindView;
use crate::types::LayoutView;
use crate::types::StructEntry;
use crate::types::TypeKind;
use crate::types::TypeLayout;
use crate::types::Variant;
use crate::types::VariantView;
use crate::types::VerificationError;
use crate::types::entry_size;

verus! {

/// The integer `x`, clamped into the range of `u64`.
pub open spec fn sat_u64(x: int) -> u64 {
    if x > u64::MAX { u64::MAX } else if x < 0 { 0 } else { x as u64 }
}

/// The sum, over the unbounded integers, of the sizes of all entries.
pub open spec fn sum_entry_sizes(s: Seq<EntryView>) -> int
    decreases s.len(),
{
    if s.len() == 0 {
        0
    } else {
        sum_entry_sizes(s.drop_last()) + entry_size(s.last())
    }
}

/// A variant passes when its entries sum to its declared size exactly, or —
/// with a positive discriminant — to its declared size plus the discriminant
/// (the diagnostic sometimes reports variant sizes inclusive of the
/// discriminant and sometimes exclusive; both are accepted).
pub open spec fn variant_ok(v: VariantView, discriminant_size: u64) -> bool {
    sum_entry_sizes(v.entries) == v.size || (discriminant_size > 0 && sum_entry_sizes(v.entries)
        == v.size + discriminant_size)
}

/// The first variant, in declaration order, that fails its per-variant check.
pub open spec fn first_bad_variant(vs: Seq<VariantView>, discriminant_size: u64) -> Option<
    VariantView,
>
    decreases vs.len(),
{
    if vs.len() == 0 {
        None
    } else if !variant_ok(vs.first(), discriminant_size) {
        Some(vs.first())
    } else {
        first_bad_variant(vs.drop_first(), discriminant_size)
    }
}

/// The largest declared variant size, or 0 where there is no variant.
pub open spec fn max_variant_size(vs: Seq<VariantView>) -> u64
    decreases vs.len(),
{
    if vs.len() == 0 {
        0
    } else {
        let m = max_variant_size(vs.drop_last());
        if vs.last().size > m {
            vs.last().size
        } else {
            m
        }
    }
}

/// The largest field size of a union, or 0 where there is no field.
pub open spec fn max_field_size(fs: Seq<FieldView>) -> u64
    decreases fs.len(),
{
    if fs.len() == 0 {
        0
    } else {
        let m = max_field_size(fs.drop_last());
        if fs.last().size > m {
            fs.last().size
        } else {
            m
        }
    }
}

/// What verifying one finalized layout returns.
///
/// - Struct: the entry sizes must sum to the declared size exactly.
/// - Enum: every variant must pass `variant_ok`; the first failure is
///   reported and ends the check. Then the declared total must be at least
///   the additive minimum `discriminant + max variant size`, or exactly the
///   niche-packed minimum `max(discriminant, max variant size)`.
/// - Union: the declared size must equal the largest field size.
pub open spec fn spec_verify(l: LayoutView) -> Result<(), ErrorView> {
    match l.kind {
        KindView::Struct { entries } => {
            let total = sum_entry_sizes(entries);
            if l.size == total {
                Ok(())
            } else {
                Err(ErrorView::StructSizeMismatch { expected: l.size, actual: sat_u64(total) })
            }
        },
        KindView::Enum { discriminant_size, variants } => {
            match first_bad_variant(variants, discriminant_size) {
                Some(v) => Err(
                    ErrorView::VariantSizeMismatch {
                        variant_name: v.name,
                        expected: v.size,
                        actual: sat_u64(sum_entry_sizes(v.entries)),
                    },
                ),
                None => {
                    let m = max_variant_size(variants);
                    let additive = discriminant_size + m;
                    let niche = if discriminant_size > m {
                        discriminant_size as int
                    } else {
                        m as int
                    };
                    if l.size >= additive || l.size == niche {
                        Ok(())
                    } else {
                        Err(
                            ErrorView::EnumTotalSizeMismatch {
                                expected: l.size,
                                calculated_min: sat_u64(additive),
                            },
                        )
                    }
                },
            }
        },
        KindView::Union { fields } => {
            let m = max_field_size(fields);
            if l.size == m {
                Ok(())
            } else {
                Err(ErrorView::UnionSizeMismatch { expected: l.size, actual_max: m })
            }
        },
    }
}

proof fn lemma_sum_take_step(s: Seq<EntryView>, i: int)
    requires
        0 <= i < s.len(),
    ensures
        sum_entry_sizes(s.take(i + 1)) == sum_entry_sizes(s.take(i)) + entry_size(s[i]),
{
    assert(s.take(i + 1).drop_last() =~= s.take(i));
    assert(s.take(i + 1).last() == s[i]);
}

proof fn lemma_sum_bounds(s: Seq<EntryView>)
    ensures
        0 <= sum_entry_sizes(s) <= s.len() * u64::MAX,
    decreases s.len(),
{
    if s.len() == 0 {
    } else {
        lemma_sum_bounds(s.drop_last());
        assert(s.drop_last().len() * u64::MAX + u64::MAX == s.len() * u64::MAX) by (nonlinear_arith)
            requires
                s.len() >= 1 && s.drop_last().len() == s.len() - 1,
        ;
    }
}

/// Sums the entry sizes without loss: the result is the exact mathematical
/// sum, which always fits in a `u128`.
#[verifier::loop_isolation(false)]
fn sum_entries(entries: &Vec<StructEntry>) -> (total: u128)
    ensures
        total as int == sum_entry_sizes(entries@.map_values(|e: StructEntry| e@)),
{
    let ghost sv = entries@.map_values(|e: StructEntry| e@);
    let mut total: u128 = 0;
    for i in 0..entries.len()
        invariant
            sv == entries@.map_values(|e: StructEntry| e@),
            total as int == sum_entry_sizes(sv.take(i as int)),
            total as int <= i * u64::MAX,
    {
        proof {
            lemma_sum_take_step(sv, i as int);
            assert(i * u64::MAX + u64::MAX <= entries@.len() * u64::MAX) by (nonlinear_arith)
                requires
                    0 <= i < entries@.len(),
            ;
            assert(entries@.len() <= u64::MAX);
            assert(entries@.len() * u64::MAX < u128::MAX) by (nonlinear_arith)
                requires
                    entries@.len() <= u64::MAX,
            ;
        }
        total = total + entries[i].size() as u128;
    }
    proof {
        assert(sv.take(entries@.len() as int) =~= sv);
    }
    total
}

proof fn lemma_max_variant_take_step(vs: Seq<VariantView>, i: int)
    requires
        0 <= i < vs.len(),
    ensures
        max_variant_size(vs.take(i + 1)) == if vs[i].size > max_variant_size(vs.take(i)) {
            vs[i].size
        } else {
            max_variant_size(vs.take(i))
        },
{
    assert(vs.take(i + 1).drop_last() =~= vs.take(i));
    assert(vs.take(i + 1).last() == vs[i]);
}

proof fn lemma_max_field_take_step(fs: Seq<FieldView>, i: int)
    requires
        0 <= i < fs.len(),
    ensures
        max_field_size(fs.take(i + 1)) == if fs[i].size > max_field_size(fs.take(i)) {
            fs[i].size
        } else {
            max_field_size(fs.take(i))
        },
{
    assert(fs.take(i + 1).drop_last() =~= fs.take(i));
    assert(fs.take(i + 1).last() == fs[i]);
}

pub(crate) proof fn lemma_first_bad_prefix(vs: Seq<VariantView>, discriminant_size: u64, i: int)
    requires
        0 <= i <= vs.len(),
        forall|j: int| 0 <= j < i ==> variant_ok(vs[j], discriminant_size),
    ensures
        i < vs.len() && !variant_ok(vs[i], discriminant_size) ==> first_bad_variant(
            vs,
            discriminant_size,
        ) == Some(vs[i]),
        i == vs.len() ==> first_bad_variant(vs, discriminant_size) is None,
    decreases vs.len(),
{
    if vs.len() == 0 {
    } else if i == 0 {
        if !variant_ok(vs.first(), discriminant_size) {
        }
    } else {
        assert(variant_ok(vs.first(), discriminant_size));
        lemma_first_bad_prefix(vs.drop_first(), discriminant_size, i - 1);
        assert(forall|j: int|
            0 <= j < i - 1 ==> vs.drop_first()[j] == vs[j + 1] && variant_ok(
                vs[j + 1],
                discriminant_size,
            ));
        if i < vs.len() {
            assert(vs.drop_first()[i - 1] == vs[i]);
        }
    }
}

impl TypeLayout {
    /// Checks this layout's declared size against the sizes of its parts,
    /// returning exactly what `spec_verify` prescribes for its view.
    #[verifier::loop_isolation(false)]
    pub fn verify(&self) -> (r: Result<(), VerificationError>)
        ensures
            match r {
                Ok(()) => spec_verify(self@) is Ok,
                Err(e) => spec_verify(self@) == Err::<(), ErrorView>(e@),
            },
    {
        match &self.kind {
            TypeKind::Struct { entries } => {
                let total = sum_entries(entries);
                if self.size as u128 == total {
                    Ok(())
                } else {
                    let actual: u64 = if total > u64::MAX as u128 {
                        u64::MAX
                    } else {
                        total as u64
                    };
                    Err(VerificationError::StructSizeMismatch { expected: self.size, actual })
                }
            },
            TypeKind::Enum { discriminant_size, variants } => {
                let d = *discriminant_size;
                let ghost vsv = variants@.map_values(|v: Variant| v@);
                let mut i: usize = 0;
                while i < variants.len()
                    invariant
                        vsv == variants@.map_values(|v: Variant| v@),
                        d == discriminant_size,
                        0 <= i <= variants.len(),
                        forall|j: int| 0 <= j < i ==> variant_ok(vsv[j], d),
                    decreases variants.len() - i,
                {
                    let v = &variants[i];
                    let total = sum_entries(&v.entries);
                    let ok = total == v.size as u128 || (d > 0 && total == v.size as u128
                        + d as u128);
                    proof {
                        assert(vsv[i as int].entries == v@.entries);
                        assert(ok == variant_ok(vsv[i as int], d));
                    }
                    if !ok {
                        proof {
                            lemma_first_bad_prefix(vsv, d, i as int);
                            assert(self@.kind =~~= KindView::Enum {
                                discriminant_size: d,
                                variants: vsv,
                            });
                            assert(first_bad_variant(vsv, d) == Some(vsv[i as int]));
                            assert(vsv[i as int].name == v.name@);
                            assert(vsv[i as int].size == v.size);
                        }
                        let actual: u64 = if total > u64::MAX as u128 {
                            u64::MAX
                        } else {
                            total as u64
                        };
                        return Err(
                            VerificationError::VariantSizeMismatch {
                                variant_name: v.name.clone(),
                                expected: v.size,
                                actual,
                            },
                        );
                    }
                    i = i + 1;
                }
                proof {
                    lemma_first_bad_prefix(vsv, d, variants@.len() as int);
                }
                let mut m: u64 = 0;
                let mut k: usize = 0;
                while k < variants.len()
                    invariant
                        vsv == variants@.map_values(|v: Variant| v@),
                        0 <= k <= variants.len(),
                        m == max_variant_size(vsv.take(k as int)),
                    decreases variants.len() - k,
                {
                    proof {
                        lemma_max_variant_take_step(vsv, k as int);
                    }
                    if variants[k].size > m {
                        m = variants[k].size;
                    }
                    k = k + 1;
                }
                proof {
                    assert(vsv.take(vsv.len() as int) =~= vsv);
                }
                let additive: u128 = d as u128 + m as u128;
                let niche: u64 = if d > m {
                    d
                } else {
                    m
                };
                if self.size as u128 >= additive || self.size == niche {
                    Ok(())
                } else {
                    let calculated_min: u64 = if additive > u64::MAX as u128 {
                        u64::MAX
                    } else {
                        additive as u64
                    };
                    Err(
                        VerificationError::EnumTotalSizeMismatch {
                            expected: self.size,
                            calculated_min,
                        },
                    )
                }
            },
            TypeKind::Union { fields } => {
                let ghost fsv = fields@.map_values(|f: crate::types::Field| f@);
                let mut m: u64 = 0;
                let mut k: usize = 0;
                while k < fields.len()
                    invariant
                        fsv == fields@.map_values(|f: crate::types::Field| f@),
                        0 <= k <= fields.len(),
                        m == max_field_size(fsv.take(k as int)),
                    decreases fields.len() - k,
                {
                    proof {
                        lemma_max_field_take_step(fsv, k as int);
                    }
                    if fields[k].size > m {
                        m = fields[k].size;
                    }
                    k = k + 1;
                }
                proof {
                    assert(fsv.take(fsv.len() as int) =~= fsv);
                }
                if self.size == m {
                    Ok(())
                } else {
                    Err(VerificationError::UnionSizeMismatch { expected: self.size, actual_max: m })
                }
            },
        }
    }
}

} // verus!
