//! The line grammar: the fixed set of line shapes the diagnostic format uses,
//! each mapped to one classification.
//!
//! A line is relevant only when it carries the marker token that scopes the
//! diagnostic output; the recognized shapes all start (after optional leading
//! whitespace) with that token, one or more whitespace characters, and a
//! shape-specific keyword. `spec_classify` is the grammar's full mathematical
//! definition over a line's characters; `classify_line` computes exactly it.
//!
//! One deliberate restriction: a numeric capture whose decimal value does not
//! fit in `u64` makes the whole line unrecognized (`Marked`), and only ASCII
//! digits are read. Lines are otherwise classified exactly as the shapes
//! describe.

use vstd::prelude::*;

use crate::types::ClosureVar;
use crate::types::ClosureVarView;
use crate::types::Field;
use crate::types::FieldView;

verus! {

// ---------------------------------------------------------------------------
// Character classes and scanners
// ---------------------------------------------------------------------------

/// Whitespace, as the Unicode `White_Space` property defines it.
pub open spec fn is_space_char(c: char) -> bool {
    let u = c as u32;
    u == 0x20 || (0x9 <= u && u <= 0xd) || u == 0x85 || u == 0xa0 || u == 0x1680 || (0x2000 <= u
        && u <= 0x200a) || u == 0x2028 || u == 0x2029 || u == 0x202f || u == 0x205f || u == 0x3000
}

/// An ASCII decimal digit.
pub open spec fn is_digit_char(c: char) -> bool {
    0x30 <= c as u32 && c as u32 <= 0x39
}

/// The value of one ASCII digit.
pub open spec fn digit_val(c: char) -> int {
    c as u32 - 0x30
}

/// The index just past the run of whitespace that starts at `i`.
pub open spec fn space_end(s: Seq<char>, i: int) -> int
    decreases s.len() - i,
{
    if 0 <= i < s.len() && is_space_char(s[i]) {
        space_end(s, i + 1)
    } else {
        i
    }
}

/// The index just past the run of digits that starts at `i`.
pub open spec fn digit_end(s: Seq<char>, i: int) -> int
    decreases s.len() - i,
{
    if 0 <= i < s.len() && is_digit_char(s[i]) {
        digit_end(s, i + 1)
    } else {
        i
    }
}

/// The decimal value of the digits `s[a..b]`.
pub open spec fn digits_val(s: Seq<char>, a: int, b: int) -> int
    decreases b - a,
{
    if a < b {
        digits_val(s, a, b - 1) * 10 + digit_val(s[b - 1])
    } else {
        0
    }
}

/// The literal `p` occurs in `s` starting at index `i`.
pub open spec fn lit_at(s: Seq<char>, i: int, p: Seq<char>) -> bool {
    0 <= i && i + p.len() <= s.len() && s.subrange(i, i + p.len()) == p
}

/// Every character of the line is whitespace (so the line is skipped outright).
pub open spec fn is_blank(s: Seq<char>) -> bool {
    forall|j: int| 0 <= j < s.len() ==> is_space_char(s[j])
}

/// The marker token that scopes all recognized diagnostic output.
pub open spec fn lit_marker() -> Seq<char> {
    "print-type-size"@
}

/// The line carries the marker token somewhere.
pub open spec fn has_marker(s: Seq<char>) -> bool {
    exists|j: int| lit_at(s, j, lit_marker())
}

/// Where the shape-specific part of a marker line begins: after leading
/// whitespace, the marker token, and at least one whitespace character.
pub open spec fn body_start(s: Seq<char>) -> Option<int> {
    let m = space_end(s, 0);
    if lit_at(s, m, lit_marker()) {
        let e = m + lit_marker().len();
        let b = space_end(s, e);
        if b > e {
            Some(b)
        } else {
            None
        }
    } else {
        None
    }
}

proof fn lemma_digit_end(s: Seq<char>, i: int)
    requires
        0 <= i <= s.len(),
    ensures
        i <= digit_end(s, i) <= s.len(),
        forall|k: int| i <= k < digit_end(s, i) ==> is_digit_char(s[k]),
    decreases s.len() - i,
{
    if i < s.len() && is_digit_char(s[i]) {
        lemma_digit_end(s, i + 1);
    }
}

proof fn lemma_digits_val_bounds(s: Seq<char>, a: int, b: int)
    requires
        forall|k: int| a <= k < b ==> is_digit_char(s[k]),
    ensures
        digits_val(s, a, b) >= 0,
    decreases b - a,
{
    if a < b {
        lemma_digits_val_bounds(s, a, b - 1);
    }
}

proof fn lemma_digits_val_mono(s: Seq<char>, a: int, b: int, b2: int)
    requires
        a <= b <= b2,
        forall|k: int| a <= k < b2 ==> is_digit_char(s[k]),
    ensures
        digits_val(s, a, b) <= digits_val(s, a, b2),
    decreases b2 - b,
{
    if b < b2 {
        lemma_digits_val_mono(s, a, b, b2 - 1);
        lemma_digits_val_bounds(s, a, b2 - 1);
    }
}

// ---------------------------------------------------------------------------
// Executable scanners
// ---------------------------------------------------------------------------

/// The characters of `s`, in order.
pub fn chars_of(s: &str) -> (v: Vec<char>)
    ensures
        v@ == s@,
{
    let n = s.unicode_len();
    let mut v: Vec<char> = Vec::new();
    let mut i: usize = 0;
    while i < n
        invariant
            i <= n,
            n == s@.len(),
            v@ == s@.subrange(0, i as int),
        decreases n - i,
    {
        let c = s.get_char(i);
        v.push(c);
        i = i + 1;
        proof {
            assert(v@ =~= s@.subrange(0, i as int));
        }
    }
    proof {
        assert(s@.subrange(0, n as int) =~= s@);
    }
    v
}

fn is_space(c: char) -> (r: bool)
    ensures
        r == is_space_char(c),
{
    let u = c as u32;
    u == 0x20 || (0x9 <= u && u <= 0xd) || u == 0x85 || u == 0xa0 || u == 0x1680 || (0x2000 <= u
        && u <= 0x200a) || u == 0x2028 || u == 0x2029 || u == 0x202f || u == 0x205f || u == 0x3000
}

fn is_digit(c: char) -> (r: bool)
    ensures
        r == is_digit_char(c),
{
    let u = c as u32;
    0x30 <= u && u <= 0x39
}

fn space_end_x(v: &Vec<char>, i: usize) -> (r: usize)
    requires
        i <= v.len(),
    ensures
        r as int == space_end(v@, i as int),
        i <= r <= v.len(),
{
    let mut j = i;
    while j < v.len() && is_space(v[j])
        invariant
            i <= j <= v.len(),
            space_end(v@, i as int) == space_end(v@, j as int),
        decreases v.len() - j,
    {
        proof {
            assert(space_end(v@, j as int) == space_end(v@, j + 1));
        }
        j = j + 1;
    }
    proof {
        assert(space_end(v@, j as int) == j as int);
    }
    j
}

fn digit_end_x(v: &Vec<char>, i: usize) -> (r: usize)
    requires
        i <= v.len(),
    ensures
        r as int == digit_end(v@, i as int),
        i <= r <= v.len(),
        forall|k: int| i <= k < r ==> is_digit_char(v@[k]),
{
    proof {
        lemma_digit_end(v@, i as int);
    }
    let mut j = i;
    while j < v.len() && is_digit(v[j])
        invariant
            i <= j <= v.len(),
            digit_end(v@, i as int) == digit_end(v@, j as int),
        decreases v.len() - j,
    {
        proof {
            assert(digit_end(v@, j as int) == digit_end(v@, j + 1));
        }
        j = j + 1;
    }
    proof {
        assert(digit_end(v@, j as int) == j as int);
    }
    j
}

fn lit_at_x(v: &Vec<char>, i: usize, p: &str) -> (r: bool)
    requires
        i <= v.len(),
    ensures
        r == lit_at(v@, i as int, p@),
{
    let n = p.unicode_len();
    if n > v.len() - i {
        return false;
    }
    let mut j: usize = 0;
    while j < n
        invariant
            j <= n,
            i + n <= v.len(),
            n == p@.len(),
            forall|k: int| 0 <= k < j ==> v@[i + k] == p@[k],
        decreases n - j,
    {
        let c = p.get_char(j);
        if v[i + j] != c {
            proof {
                assert(v@.subrange(i as int, i + n as int)[j as int] == v@[i + j]);
                assert(v@.subrange(i as int, i + n as int) != p@);
            }
            return false;
        }
        j = j + 1;
    }
    proof {
        assert(v@.subrange(i as int, i + n as int) =~= p@);
    }
    true
}

fn is_blank_x(v: &Vec<char>) -> (r: bool)
    ensures
        r == is_blank(v@),
{
    let mut j: usize = 0;
    while j < v.len()
        invariant
            j <= v.len(),
            forall|k: int| 0 <= k < j ==> is_space_char(v@[k]),
        decreases v.len() - j,
    {
        if !is_space(v[j]) {
            return false;
        }
        j = j + 1;
    }
    true
}

fn has_marker_x(v: &Vec<char>) -> (r: bool)
    ensures
        r == has_marker(v@),
{
    proof {
        reveal_strlit("print-type-size");
    }
    let mut j: usize = 0;
    while j < v.len()
        invariant
            j <= v.len(),
            forall|k: int| 0 <= k < j ==> !lit_at(v@, k, lit_marker()),
        decreases v.len() - j,
    {
        if lit_at_x(v, j, "print-type-size") {
            proof {
                assert(lit_at(v@, j as int, lit_marker()));
            }
            return true;
        }
        j = j + 1;
    }
    proof {
        assert forall|k: int| !lit_at(v@, k, lit_marker()) by {
            if 0 <= k < v@.len() {
            } else {
                assert(!(0 <= k && k + lit_marker().len() <= v@.len()));
            }
        }
    }
    false
}

/// Reads the digit run `v[a..d]` as a `u64`; `None` when its value does not
/// fit.
fn digits_to_u64(v: &Vec<char>, a: usize, d: usize) -> (r: Option<u64>)
    requires
        a <= d <= v.len(),
        forall|k: int| a <= k < d ==> is_digit_char(v@[k]),
    ensures
        match r {
            Some(x) => x as int == digits_val(v@, a as int, d as int) && digits_val(
                v@,
                a as int,
                d as int,
            ) <= u64::MAX,
            None => digits_val(v@, a as int, d as int) > u64::MAX,
        },
{
    let mut acc: u128 = 0;
    let mut j = a;
    while j < d
        invariant
            a <= j <= d <= v.len(),
            forall|k: int| a <= k < d ==> is_digit_char(v@[k]),
            acc as int == digits_val(v@, a as int, j as int),
            acc <= u64::MAX as u128,
        decreases d - j,
    {
        let dv = (v[j] as u32 - 0x30) as u128;
        proof {
            assert(is_digit_char(v@[j as int]));
            assert(dv as int == digit_val(v@[j as int]));
            assert(digits_val(v@, a as int, j + 1) == digits_val(v@, a as int, j as int) * 10
                + digit_val(v@[j as int]));
        }
        let next = acc * 10 + dv;
        if next > u64::MAX as u128 {
            proof {
                lemma_digits_val_mono(v@, a as int, j + 1, d as int);
            }
            return None;
        }
        acc = next;
        j = j + 1;
    }
    Some(acc as u64)
}

} // verus!

verus! {

// ---------------------------------------------------------------------------
// The recognized shapes
// ---------------------------------------------------------------------------

pub open spec fn lit_bytes() -> Seq<char> {
    " bytes"@
}

pub open spec fn lit_tick_colon() -> Seq<char> {
    "`: "@
}

pub open spec fn lit_colon_sp() -> Seq<char> {
    ": "@
}

pub open spec fn lit_type_prefix() -> Seq<char> {
    "type: `"@
}

pub open spec fn lit_variant_prefix() -> Seq<char> {
    "variant `"@
}

pub open spec fn lit_discriminant_prefix() -> Seq<char> {
    "discriminant: "@
}

pub open spec fn lit_upvar_prefix() -> Seq<char> {
    "upvar `"@
}

pub open spec fn lit_local_prefix() -> Seq<char> {
    "local `"@
}

pub open spec fn lit_field_prefix() -> Seq<char> {
    "field "@
}

pub open spec fn lit_padding_prefix() -> Seq<char> {
    "padding: "@
}

pub open spec fn lit_end_padding_prefix() -> Seq<char> {
    "end padding: "@
}

pub open spec fn lit_alignment_mid() -> Seq<char> {
    ", alignment: "@
}

pub open spec fn lit_offset_opt() -> Seq<char> {
    ", offset: "@
}

pub open spec fn lit_bytes_alignment() -> Seq<char> {
    " bytes, alignment: "@
}

pub open spec fn lit_type_opt() -> Seq<char> {
    ", type: "@
}

pub open spec fn lit_offset_word() -> Seq<char> {
    "offset: "@
}

pub open spec fn lit_alignment_word() -> Seq<char> {
    "alignment: "@
}

/// A digit run followed by the word " bytes", starting at `a`: the index just
/// past " bytes" and the run's value.
pub open spec fn size_bytes_at(s: Seq<char>, a: int) -> Option<(int, u64)> {
    let d = digit_end(s, a);
    if d > a && digits_val(s, a, d) <= u64::MAX && lit_at(s, d, lit_bytes()) {
        Some((d + lit_bytes().len(), digits_val(s, a, d) as u64))
    } else {
        None
    }
}

/// A closing backtick, a colon, and a size: "`: <n> bytes" at `e`.
pub open spec fn tick_size_at(s: Seq<char>, e: int) -> Option<(int, u64)> {
    if lit_at(s, e, lit_tick_colon()) {
        size_bytes_at(s, e + lit_tick_colon().len())
    } else {
        None
    }
}

/// The full suffix of a type header after its name: "`: <size> bytes,
/// alignment: <align> bytes".
pub open spec fn type_tail_at(s: Seq<char>, e: int) -> Option<(u64, u64)> {
    match tick_size_at(s, e) {
        Some((p, size)) => {
            if lit_at(s, p, lit_alignment_mid()) {
                match size_bytes_at(s, p + lit_alignment_mid().len()) {
                    Some((_q, alignment)) => Some((size, alignment)),
                    None => None,
                }
            } else {
                None
            }
        },
        None => None,
    }
}

/// A colon and a size: ": <n> bytes" at `q` (closes a field's name).
pub open spec fn field_size_at(s: Seq<char>, q: int) -> Option<(int, u64)> {
    if lit_at(s, q, lit_colon_sp()) {
        size_bytes_at(s, q + lit_colon_sp().len())
    } else {
        None
    }
}

/// The earliest end for a non-greedy name followed by "`: <n> bytes".
pub open spec fn name_end_simple(s: Seq<char>, i: int) -> Option<int>
    decreases s.len() - i,
{
    if tick_size_at(s, i) is Some {
        Some(i)
    } else if i < s.len() {
        name_end_simple(s, i + 1)
    } else {
        None
    }
}

/// The earliest end for a non-greedy name followed by a full type-header tail.
pub open spec fn name_end_type(s: Seq<char>, i: int) -> Option<int>
    decreases s.len() - i,
{
    if type_tail_at(s, i) is Some {
        Some(i)
    } else if i < s.len() {
        name_end_type(s, i + 1)
    } else {
        None
    }
}

/// The earliest closing backtick of a backticked field name, followed by
/// ": <n> bytes".
pub open spec fn field_name_end_ticked(s: Seq<char>, i: int) -> Option<int>
    decreases s.len() - i,
{
    if 0 <= i < s.len() && s[i] == '`' && field_size_at(s, i + 1) is Some {
        Some(i)
    } else if i < s.len() {
        field_name_end_ticked(s, i + 1)
    } else {
        None
    }
}

/// The earliest end of a bare (unticked) field name, followed by ": <n> bytes".
pub open spec fn field_name_end_plain(s: Seq<char>, i: int) -> Option<int>
    decreases s.len() - i,
{
    if field_size_at(s, i) is Some {
        Some(i)
    } else if i < s.len() {
        field_name_end_plain(s, i + 1)
    } else {
        None
    }
}

/// The leftmost position at or after `j` where `w` occurs followed by a digit.
pub open spec fn attr_pos(s: Seq<char>, w: Seq<char>, j: int) -> Option<int>
    decreases s.len() - j,
{
    if j + w.len() < s.len() && lit_at(s, j, w) && is_digit_char(s[j + w.len()]) {
        Some(j)
    } else if j < s.len() {
        attr_pos(s, w, j + 1)
    } else {
        None
    }
}

/// The value of the leftmost "<w><digits>" occurrence at or after `start`.
pub open spec fn attr_value(s: Seq<char>, w: Seq<char>, start: int) -> Option<int> {
    match attr_pos(s, w, start) {
        Some(j) => Some(digits_val(s, j + w.len(), digit_end(s, j + w.len()))),
        None => None,
    }
}

/// The name with every leading and trailing backtick removed.
pub open spec fn trim_ticks(s: Seq<char>) -> Seq<char>
    decreases s.len(),
{
    if s.len() > 0 && s[0] == '`' {
        trim_ticks(s.subrange(1, s.len() as int))
    } else if s.len() > 0 && s[s.len() - 1] == '`' {
        trim_ticks(s.subrange(0, s.len() - 1))
    } else {
        s
    }
}

/// An upvar's optional ", offset: <o> bytes, alignment: <a> bytes" tail:
/// `None` when the tail is present but a value does not fit in `u64`,
/// `Some(None)` when it is absent, `Some(Some(..))` when present and read.
pub open spec fn upvar_opt_at(s: Seq<char>, p: int) -> Option<Option<(u64, u64)>> {
    let a3 = p + lit_offset_opt().len();
    let d3 = digit_end(s, a3);
    let a4 = d3 + lit_bytes_alignment().len();
    let d4 = digit_end(s, a4);
    if lit_at(s, p, lit_offset_opt()) && d3 > a3 && lit_at(s, d3, lit_bytes_alignment()) && d4 > a4
        && lit_at(s, d4, lit_bytes()) {
        if digits_val(s, a3, d3) <= u64::MAX && digits_val(s, a4, d4) <= u64::MAX {
            Some(Some((digits_val(s, a3, d3) as u64, digits_val(s, a4, d4) as u64)))
        } else {
            None
        }
    } else {
        Some(None)
    }
}

/// A local's optional ", type: <text>" tail: the free text, when present and
/// non-empty.
pub open spec fn local_type_info(s: Seq<char>, p: int) -> Option<Seq<char>> {
    if lit_at(s, p, lit_type_opt()) && p + lit_type_opt().len() < s.len() {
        Some(s.subrange(p + lit_type_opt().len(), s.len() as int))
    } else {
        None
    }
}

} // verus!

verus! {

// ---------------------------------------------------------------------------
// Classification
// ---------------------------------------------------------------------------

/// The classification of one line, over its mathematical view.
#[verifier::ext_equal]
pub enum LineClassView {
    /// Nothing but whitespace; skipped before anything else is tested.
    Blank,
    /// "type: `<name>`: <size> bytes, alignment: <align> bytes"
    TypeHeader { name: Seq<char>, size: u64, alignment: u64 },
    /// "field `<.name>`: <size> bytes<tail>" or "field <.name>: <size> bytes<tail>"
    FieldEntry { field: FieldView },
    /// "padding: <size> bytes"
    PaddingEntry { size: u64 },
    /// "end padding: <size> bytes"
    EndPaddingEntry { size: u64 },
    /// "variant `<name>`: <size> bytes"
    VariantHeader { name: Seq<char>, size: u64 },
    /// "discriminant: <size> bytes"
    Discriminant { size: u64 },
    /// "upvar `<name>`: <size> bytes" with an optional offset/alignment tail
    UpvarEntry { var: ClosureVarView },
    /// "local `<name>`: <size> bytes" with an optional ", type: <text>" tail
    LocalEntry { var: ClosureVarView },
    /// Carries the marker token but matches no recognized shape.
    Marked,
    /// Does not carry the marker token.
    Plain,
}

/// A recognized field line: its attribute tail may carry an offset and an
/// alignment, found by leftmost search.
pub open spec fn field_class(s: Seq<char>, name: Seq<char>, size: u64, tail: int) -> LineClassView {
    let off = attr_value(s, lit_offset_word(), tail);
    let al = attr_value(s, lit_alignment_word(), tail);
    let off_ok = match off {
        Some(x) => x <= u64::MAX,
        None => true,
    };
    let al_ok = match al {
        Some(x) => x <= u64::MAX,
        None => true,
    };
    if off_ok && al_ok {
        LineClassView::FieldEntry {
            field: FieldView {
                name,
                size,
                alignment: match al {
                    Some(x) => Some(x as u64),
                    None => None,
                },
                offset: match off {
                    Some(x) => Some(x as u64),
                    None => None,
                },
            },
        }
    } else {
        LineClassView::Marked
    }
}

pub open spec fn classify_type(s: Seq<char>, nb: int) -> LineClassView {
    match name_end_type(s, nb + 1) {
        Some(e) => match type_tail_at(s, e) {
            Some((size, alignment)) => LineClassView::TypeHeader {
                name: s.subrange(nb, e),
                size,
                alignment,
            },
            None => LineClassView::Marked,
        },
        None => LineClassView::Marked,
    }
}

pub open spec fn classify_variant(s: Seq<char>, nb: int) -> LineClassView {
    match name_end_simple(s, nb + 1) {
        Some(e) => match tick_size_at(s, e) {
            Some((_p, size)) => LineClassView::VariantHeader {
                name: trim_ticks(s.subrange(nb, e)),
                size,
            },
            None => LineClassView::Marked,
        },
        None => LineClassView::Marked,
    }
}

pub open spec fn classify_upvar(s: Seq<char>, nb: int) -> LineClassView {
    match name_end_simple(s, nb + 1) {
        Some(e) => match tick_size_at(s, e) {
            Some((p, size)) => match upvar_opt_at(s, p) {
                Some(opt) => LineClassView::UpvarEntry {
                    var: ClosureVarView {
                        name: s.subrange(nb, e),
                        size,
                        offset: match opt {
                            Some(oa) => Some(oa.0),
                            None => None,
                        },
                        alignment: match opt {
                            Some(oa) => Some(oa.1),
                            None => None,
                        },
                        type_info: None,
                    },
                },
                None => LineClassView::Marked,
            },
            None => LineClassView::Marked,
        },
        None => LineClassView::Marked,
    }
}

pub open spec fn classify_local(s: Seq<char>, nb: int) -> LineClassView {
    match name_end_simple(s, nb + 1) {
        Some(e) => match tick_size_at(s, e) {
            Some((p, size)) => LineClassView::LocalEntry {
                var: ClosureVarView {
                    name: s.subrange(nb, e),
                    size,
                    offset: None,
                    alignment: None,
                    type_info: local_type_info(s, p),
                },
            },
            None => LineClassView::Marked,
        },
        None => LineClassView::Marked,
    }
}

pub open spec fn classify_field(s: Seq<char>, nb: int) -> LineClassView {
    if nb + 1 < s.len() && s[nb] == '`' && s[nb + 1] == '.' {
        match field_name_end_ticked(s, nb + 3) {
            Some(e) => match field_size_at(s, e + 1) {
                Some((tail, size)) => field_class(s, s.subrange(nb + 1, e), size, tail),
                None => LineClassView::Marked,
            },
            None => LineClassView::Marked,
        }
    } else if nb < s.len() && s[nb] == '.' {
        match field_name_end_plain(s, nb + 2) {
            Some(e) => match field_size_at(s, e) {
                Some((tail, size)) => field_class(s, s.subrange(nb, e), size, tail),
                None => LineClassView::Marked,
            },
            None => LineClassView::Marked,
        }
    } else {
        LineClassView::Marked
    }
}

/// Classifies the shape-specific part of a marker line, starting at `b`. The
/// shapes' keywords are mutually exclusive, so at most one can apply.
pub open spec fn classify_body(s: Seq<char>, b: int) -> LineClassView {
    if lit_at(s, b, lit_type_prefix()) {
        classify_type(s, b + lit_type_prefix().len())
    } else if lit_at(s, b, lit_variant_prefix()) {
        classify_variant(s, b + lit_variant_prefix().len())
    } else if lit_at(s, b, lit_discriminant_prefix()) {
        match size_bytes_at(s, b + lit_discriminant_prefix().len()) {
            Some((_e, size)) => LineClassView::Discriminant { size },
            None => LineClassView::Marked,
        }
    } else if lit_at(s, b, lit_upvar_prefix()) {
        classify_upvar(s, b + lit_upvar_prefix().len())
    } else if lit_at(s, b, lit_local_prefix()) {
        classify_local(s, b + lit_local_prefix().len())
    } else if lit_at(s, b, lit_field_prefix()) {
        classify_field(s, b + lit_field_prefix().len())
    } else if lit_at(s, b, lit_padding_prefix()) {
        match size_bytes_at(s, b + lit_padding_prefix().len()) {
            Some((_e, size)) => LineClassView::PaddingEntry { size },
            None => LineClassView::Marked,
        }
    } else if lit_at(s, b, lit_end_padding_prefix()) {
        match size_bytes_at(s, b + lit_end_padding_prefix().len()) {
            Some((_e, size)) => LineClassView::EndPaddingEntry { size },
            None => LineClassView::Marked,
        }
    } else {
        LineClassView::Marked
    }
}

/// The grammar in one function: how any single line is classified.
pub open spec fn spec_classify(s: Seq<char>) -> LineClassView {
    if is_blank(s) {
        LineClassView::Blank
    } else {
        match body_start(s) {
            Some(b) => classify_body(s, b),
            None => if has_marker(s) {
                LineClassView::Marked
            } else {
                LineClassView::Plain
            },
        }
    }
}

/// The classification of one line, carrying the extracted values.
#[derive(Debug, PartialEq)]
pub enum LineClass {
    Blank,
    TypeHeader { name: String, size: u64, alignment: u64 },
    FieldEntry { field: Field },
    PaddingEntry { size: u64 },
    EndPaddingEntry { size: u64 },
    VariantHeader { name: String, size: u64 },
    Discriminant { size: u64 },
    UpvarEntry { var: ClosureVar },
    LocalEntry { var: ClosureVar },
    Marked,
    Plain,
}

impl View for LineClass {
    type V = LineClassView;

    open spec fn view(&self) -> LineClassView {
        match self {
            LineClass::Blank => LineClassView::Blank,
            LineClass::TypeHeader { name, size, alignment } => LineClassView::TypeHeader {
                name: name@,
                size: *size,
                alignment: *alignment,
            },
            LineClass::FieldEntry { field } => LineClassView::FieldEntry { field: field@ },
            LineClass::PaddingEntry { size } => LineClassView::PaddingEntry { size: *size },
            LineClass::EndPaddingEntry { size } => LineClassView::EndPaddingEntry { size: *size },
            LineClass::VariantHeader { name, size } => LineClassView::VariantHeader {
                name: name@,
                size: *size,
            },
            LineClass::Discriminant { size } => LineClassView::Discriminant { size: *size },
            LineClass::UpvarEntry { var } => LineClassView::UpvarEntry { var: var@ },
            LineClass::LocalEntry { var } => LineClassView::LocalEntry { var: var@ },
            LineClass::Marked => LineClassView::Marked,
            LineClass::Plain => LineClassView::Plain,
        }
    }
}

} // verus!

verus! {

// ---------------------------------------------------------------------------
// Executable shape parsers
// ---------------------------------------------------------------------------

/// A freshly owned copy of `line[from..to]` (in characters).
fn substring_string(line: &str, from: usize, to: usize) -> (r: String)
    requires
        from <= to <= line@.len(),
    ensures
        r@ == line@.subrange(from as int, to as int),
{
    let sub = line.substring_char(from, to);
    sub.to_owned()
}

fn size_bytes_x(v: &Vec<char>, a: usize) -> (r: Option<(usize, u64)>)
    requires
        a <= v.len(),
    ensures
        match r {
            Some(p) => size_bytes_at(v@, a as int) == Some((p.0 as int, p.1)) && a <= p.0
                <= v.len(),
            None => size_bytes_at(v@, a as int) is None,
        },
{
    proof {
        reveal_strlit(" bytes");
    }
    let d = digit_end_x(v, a);
    if d == a {
        return None;
    }
    match digits_to_u64(v, a, d) {
        None => None,
        Some(x) => {
            if lit_at_x(v, d, " bytes") {
                Some((d + 6, x))
            } else {
                None
            }
        },
    }
}

fn tick_size_x(v: &Vec<char>, e: usize) -> (r: Option<(usize, u64)>)
    requires
        e <= v.len(),
    ensures
        match r {
            Some(p) => tick_size_at(v@, e as int) == Some((p.0 as int, p.1)) && e <= p.0 <= v.len(),
            None => tick_size_at(v@, e as int) is None,
        },
{
    proof {
        reveal_strlit("`: ");
    }
    if lit_at_x(v, e, "`: ") {
        size_bytes_x(v, e + 3)
    } else {
        None
    }
}

fn type_tail_x(v: &Vec<char>, e: usize) -> (r: Option<(u64, u64)>)
    requires
        e <= v.len(),
    ensures
        r == type_tail_at(v@, e as int),
{
    proof {
        reveal_strlit(", alignment: ");
    }
    match tick_size_x(v, e) {
        Some((p, size)) => {
            if lit_at_x(v, p, ", alignment: ") {
                match size_bytes_x(v, p + 13) {
                    Some((_q, alignment)) => Some((size, alignment)),
                    None => None,
                }
            } else {
                None
            }
        },
        None => None,
    }
}

fn field_size_x(v: &Vec<char>, q: usize) -> (r: Option<(usize, u64)>)
    requires
        q <= v.len(),
    ensures
        match r {
            Some(p) => field_size_at(v@, q as int) == Some((p.0 as int, p.1)) && q <= p.0
                <= v.len(),
            None => field_size_at(v@, q as int) is None,
        },
{
    proof {
        reveal_strlit(": ");
    }
    if lit_at_x(v, q, ": ") {
        size_bytes_x(v, q + 2)
    } else {
        None
    }
}

fn name_end_simple_x(v: &Vec<char>, i: usize) -> (r: Option<usize>)
    ensures
        match r {
            Some(e) => name_end_simple(v@, i as int) == Some(e as int) && i <= e && e < v.len(),
            None => name_end_simple(v@, i as int) is None,
        },
{
    if i >= v.len() {
        return None;
    }
    let mut j = i;
    while j < v.len()
        invariant
            i <= j <= v.len(),
            name_end_simple(v@, i as int) == name_end_simple(v@, j as int),
        decreases v.len() - j,
    {
        match tick_size_x(v, j) {
            Some(_) => {
                return Some(j);
            },
            None => {},
        }
        proof {
            assert(name_end_simple(v@, j as int) == name_end_simple(v@, j + 1));
        }
        j = j + 1;
    }
    None
}

fn name_end_type_x(v: &Vec<char>, i: usize) -> (r: Option<usize>)
    ensures
        match r {
            Some(e) => name_end_type(v@, i as int) == Some(e as int) && i <= e && e < v.len(),
            None => name_end_type(v@, i as int) is None,
        },
{
    if i >= v.len() {
        return None;
    }
    let mut j = i;
    while j < v.len()
        invariant
            i <= j <= v.len(),
            name_end_type(v@, i as int) == name_end_type(v@, j as int),
        decreases v.len() - j,
    {
        match type_tail_x(v, j) {
            Some(_) => {
                return Some(j);
            },
            None => {},
        }
        proof {
            assert(name_end_type(v@, j as int) == name_end_type(v@, j + 1));
        }
        j = j + 1;
    }
    None
}

fn field_name_end_ticked_x(v: &Vec<char>, i: usize) -> (r: Option<usize>)
    ensures
        match r {
            Some(e) => field_name_end_ticked(v@, i as int) == Some(e as int) && i <= e && e
                < v.len(),
            None => field_name_end_ticked(v@, i as int) is None,
        },
{
    if i >= v.len() {
        return None;
    }
    let mut j = i;
    while j < v.len()
        invariant
            i <= j <= v.len(),
            field_name_end_ticked(v@, i as int) == field_name_end_ticked(v@, j as int),
        decreases v.len() - j,
    {
        if v[j] == '`' {
            match field_size_x(v, j + 1) {
                Some(_) => {
                    return Some(j);
                },
                None => {},
            }
        }
        proof {
            assert(field_name_end_ticked(v@, j as int) == field_name_end_ticked(v@, j + 1));
        }
        j = j + 1;
    }
    None
}

fn field_name_end_plain_x(v: &Vec<char>, i: usize) -> (r: Option<usize>)
    ensures
        match r {
            Some(e) => field_name_end_plain(v@, i as int) == Some(e as int) && i <= e && e
                <= v.len(),
            None => field_name_end_plain(v@, i as int) is None,
        },
{
    if i > v.len() {
        return None;
    }
    let mut j = i;
    while j < v.len()
        invariant
            i <= j <= v.len(),
            field_name_end_plain(v@, i as int) == field_name_end_plain(v@, j as int),
        decreases v.len() - j,
    {
        match field_size_x(v, j) {
            Some(_) => {
                return Some(j);
            },
            None => {},
        }
        proof {
            assert(field_name_end_plain(v@, j as int) == field_name_end_plain(v@, j + 1));
        }
        j = j + 1;
    }
    match field_size_x(v, j) {
        Some(_) => Some(j),
        None => None,
    }
}

fn attr_pos_x(v: &Vec<char>, w: &str, start: usize) -> (r: Option<usize>)
    requires
        start <= v.len(),
    ensures
        match r {
            Some(j) => attr_pos(v@, w@, start as int) == Some(j as int) && start <= j && j as int
                + w@.len() < v.len(),
            None => attr_pos(v@, w@, start as int) is None,
        },
{
    let wl = w.unicode_len();
    let mut j = start;
    while j < v.len()
        invariant
            start <= j <= v.len(),
            wl == w@.len(),
            attr_pos(v@, w@, start as int) == attr_pos(v@, w@, j as int),
        decreases v.len() - j,
    {
        if wl < v.len() - j {
            if lit_at_x(v, j, w) {
                if is_digit(v[j + wl]) {
                    return Some(j);
                }
            }
        }
        proof {
            assert(attr_pos(v@, w@, j as int) == attr_pos(v@, w@, j + 1));
        }
        j = j + 1;
    }
    None
}

/// Reads the leftmost "<w><digits>" attribute at or after `start`:
/// `Err` when present but too large for `u64`.
fn attr_value_x(v: &Vec<char>, w: &str, start: usize) -> (r: Result<Option<u64>, ()>)
    requires
        start <= v.len(),
    ensures
        match r {
            Ok(Some(x)) => attr_value(v@, w@, start as int) == Some(x as int),
            Ok(None) => attr_value(v@, w@, start as int) is None,
            Err(()) => match attr_value(v@, w@, start as int) {
                Some(x) => x > u64::MAX,
                None => false,
            },
        },
{
    let wl = w.unicode_len();
    match attr_pos_x(v, w, start) {
        None => Ok(None),
        Some(j) => {
            let a = j + wl;
            let d = digit_end_x(v, a);
            match digits_to_u64(v, a, d) {
                Some(x) => Ok(Some(x)),
                None => Err(()),
            }
        },
    }
}

fn upvar_opt_x(v: &Vec<char>, p: usize) -> (r: Result<Option<(u64, u64)>, ()>)
    requires
        p <= v.len(),
    ensures
        match r {
            Ok(opt) => upvar_opt_at(v@, p as int) == Some(opt),
            Err(()) => upvar_opt_at(v@, p as int) is None,
        },
{
    proof {
        reveal_strlit(", offset: ");
        reveal_strlit(" bytes, alignment: ");
        reveal_strlit(" bytes");
    }
    if !lit_at_x(v, p, ", offset: ") {
        return Ok(None);
    }
    let a3 = p + 10;
    let d3 = digit_end_x(v, a3);
    if d3 == a3 || !lit_at_x(v, d3, " bytes, alignment: ") {
        return Ok(None);
    }
    let a4 = d3 + 19;
    let d4 = digit_end_x(v, a4);
    if d4 == a4 || !lit_at_x(v, d4, " bytes") {
        return Ok(None);
    }
    let off = digits_to_u64(v, a3, d3);
    let al = digits_to_u64(v, a4, d4);
    match (off, al) {
        (Some(o), Some(a)) => Ok(Some((o, a))),
        _ => Err(()),
    }
}

/// The bounds of `v[lo..hi]` with every leading and trailing backtick removed.
fn trim_tick_bounds(v: &Vec<char>, lo: usize, hi: usize) -> (r: (usize, usize))
    requires
        lo <= hi <= v.len(),
    ensures
        lo <= r.0 <= r.1 <= hi,
        v@.subrange(r.0 as int, r.1 as int) == trim_ticks(v@.subrange(lo as int, hi as int)),
{
    let mut a = lo;
    let mut b = hi;
    while a < b && v[a] == '`'
        invariant
            lo <= a <= b <= hi <= v.len(),
            trim_ticks(v@.subrange(lo as int, hi as int)) == trim_ticks(
                v@.subrange(a as int, b as int),
            ),
        decreases b - a,
    {
        proof {
            let s = v@.subrange(a as int, b as int);
            assert(s[0] == '`');
            assert(s.subrange(1, s.len() as int) =~= v@.subrange(a + 1, b as int));
        }
        a = a + 1;
    }
    while b > a && v[b - 1] == '`'
        invariant
            lo <= a <= b <= hi <= v.len(),
            a < b ==> v@[a as int] != '`',
            trim_ticks(v@.subrange(lo as int, hi as int)) == trim_ticks(
                v@.subrange(a as int, b as int),
            ),
        decreases b - a,
    {
        proof {
            let s = v@.subrange(a as int, b as int);
            assert(s[s.len() - 1] == '`');
            assert(s.subrange(0, s.len() - 1) =~= v@.subrange(a as int, b - 1));
        }
        b = b - 1;
    }
    proof {
        let s = v@.subrange(a as int, b as int);
        if s.len() > 0 {
            assert(s[0] == v@[a as int]);
            assert(s[s.len() - 1] == v@[b - 1]);
        }
        assert(trim_ticks(s) == s);
    }
    (a, b)
}

} // verus!

verus! {

// ---------------------------------------------------------------------------
// The executable classifier
// ---------------------------------------------------------------------------

fn classify_type_x(line: &str, v: &Vec<char>, nb: usize) -> (c: LineClass)
    requires
        v@ == line@,
        nb <= v.len(),
    ensures
        c@ == classify_type(v@, nb as int),
{
    if nb >= v.len() {
        proof {
            assert(name_end_type(v@, nb + 1) is None);
        }
        return LineClass::Marked;
    }
    match name_end_type_x(v, nb + 1) {
        Some(e) => match type_tail_x(v, e) {
            Some((size, alignment)) => {
                let name = substring_string(line, nb, e);
                LineClass::TypeHeader { name, size, alignment }
            },
            None => LineClass::Marked,
        },
        None => LineClass::Marked,
    }
}

fn classify_variant_x(line: &str, v: &Vec<char>, nb: usize) -> (c: LineClass)
    requires
        v@ == line@,
        nb <= v.len(),
    ensures
        c@ == classify_variant(v@, nb as int),
{
    if nb >= v.len() {
        proof {
            assert(name_end_simple(v@, nb + 1) is None);
        }
        return LineClass::Marked;
    }
    match name_end_simple_x(v, nb + 1) {
        Some(e) => match tick_size_x(v, e) {
            Some((_p, size)) => {
                let (a2, b2) = trim_tick_bounds(v, nb, e);
                let name = substring_string(line, a2, b2);
                LineClass::VariantHeader { name, size }
            },
            None => LineClass::Marked,
        },
        None => LineClass::Marked,
    }
}

fn classify_upvar_x(line: &str, v: &Vec<char>, nb: usize) -> (c: LineClass)
    requires
        v@ == line@,
        nb <= v.len(),
    ensures
        c@ == classify_upvar(v@, nb as int),
{
    if nb >= v.len() {
        proof {
            assert(name_end_simple(v@, nb + 1) is None);
        }
        return LineClass::Marked;
    }
    match name_end_simple_x(v, nb + 1) {
        Some(e) => match tick_size_x(v, e) {
            Some((p, size)) => match upvar_opt_x(v, p) {
                Ok(opt) => {
                    let name = substring_string(line, nb, e);
                    let var = ClosureVar {
                        name,
                        size,
                        offset: match opt {
                            Some(oa) => Some(oa.0),
                            None => None,
                        },
                        alignment: match opt {
                            Some(oa) => Some(oa.1),
                            None => None,
                        },
                        type_info: None,
                    };
                    LineClass::UpvarEntry { var }
                },
                Err(()) => LineClass::Marked,
            },
            None => LineClass::Marked,
        },
        None => LineClass::Marked,
    }
}

fn classify_local_x(line: &str, v: &Vec<char>, nb: usize) -> (c: LineClass)
    requires
        v@ == line@,
        nb <= v.len(),
    ensures
        c@ == classify_local(v@, nb as int),
{
    proof {
        reveal_strlit(", type: ");
    }
    if nb >= v.len() {
        proof {
            assert(name_end_simple(v@, nb + 1) is None);
        }
        return LineClass::Marked;
    }
    match name_end_simple_x(v, nb + 1) {
        Some(e) => match tick_size_x(v, e) {
            Some((p, size)) => {
                let name = substring_string(line, nb, e);
                let type_info: Option<String> = if lit_at_x(v, p, ", type: ") && p + 8 < v.len() {
                    Some(substring_string(line, p + 8, v.len()))
                } else {
                    None
                };
                let var = ClosureVar { name, size, offset: None, alignment: None, type_info };
                LineClass::LocalEntry { var }
            },
            None => LineClass::Marked,
        },
        None => LineClass::Marked,
    }
}

fn field_class_x(line: &str, v: &Vec<char>, name_lo: usize, name_hi: usize, size: u64, tail: usize)
    -> (c: LineClass)
    requires
        v@ == line@,
        name_lo <= name_hi <= v.len(),
        tail <= v.len(),
    ensures
        c@ == field_class(v@, v@.subrange(name_lo as int, name_hi as int), size, tail as int),
{
    proof {
        reveal_strlit("offset: ");
        reveal_strlit("alignment: ");
    }
    let off = attr_value_x(v, "offset: ", tail);
    let al = attr_value_x(v, "alignment: ", tail);
    match (off, al) {
        (Ok(offset), Ok(alignment)) => {
            let name = substring_string(line, name_lo, name_hi);
            LineClass::FieldEntry { field: Field { name, size, alignment, offset } }
        },
        _ => LineClass::Marked,
    }
}

fn classify_field_x(line: &str, v: &Vec<char>, nb: usize) -> (c: LineClass)
    requires
        v@ == line@,
        nb <= v.len(),
    ensures
        c@ == classify_field(v@, nb as int),
{
    if v.len() - nb > 1 && v[nb] == '`' && v[nb + 1] == '.' {
        if v.len() - nb > 3 {
            match field_name_end_ticked_x(v, nb + 3) {
                Some(e) => match field_size_x(v, e + 1) {
                    Some((tail, size)) => field_class_x(line, v, nb + 1, e, size, tail),
                    None => LineClass::Marked,
                },
                None => LineClass::Marked,
            }
        } else {
            proof {
                assert(field_name_end_ticked(v@, nb + 3) is None);
            }
            LineClass::Marked
        }
    } else if nb < v.len() && v[nb] == '.' {
        if v.len() - nb >= 2 {
            match field_name_end_plain_x(v, nb + 2) {
                Some(e) => match field_size_x(v, e) {
                    Some((tail, size)) => field_class_x(line, v, nb, e, size, tail),
                    None => LineClass::Marked,
                },
                None => LineClass::Marked,
            }
        } else {
            proof {
                assert(field_name_end_plain(v@, nb + 2) is None);
            }
            LineClass::Marked
        }
    } else {
        LineClass::Marked
    }
}

fn classify_body_x(line: &str, v: &Vec<char>, b: usize) -> (c: LineClass)
    requires
        v@ == line@,
        b <= v.len(),
    ensures
        c@ == classify_body(v@, b as int),
{
    if lit_at_x(v, b, "type: `") {
        proof {
            reveal_strlit("type: `");
        }
        classify_type_x(line, v, b + 7)
    } else if lit_at_x(v, b, "variant `") {
        proof {
            reveal_strlit("variant `");
        }
        classify_variant_x(line, v, b + 9)
    } else if lit_at_x(v, b, "discriminant: ") {
        proof {
            reveal_strlit("discriminant: ");
        }
        match size_bytes_x(v, b + 14) {
            Some((_e, size)) => LineClass::Discriminant { size },
            None => LineClass::Marked,
        }
    } else if lit_at_x(v, b, "upvar `") {
        proof {
            reveal_strlit("upvar `");
        }
        classify_upvar_x(line, v, b + 7)
    } else if lit_at_x(v, b, "local `") {
        proof {
            reveal_strlit("local `");
        }
        classify_local_x(line, v, b + 7)
    } else if lit_at_x(v, b, "field ") {
        proof {
            reveal_strlit("field ");
        }
        classify_field_x(line, v, b + 6)
    } else if lit_at_x(v, b, "padding: ") {
        proof {
            reveal_strlit("padding: ");
        }
        match size_bytes_x(v, b + 9) {
            Some((_e, size)) => LineClass::PaddingEntry { size },
            None => LineClass::Marked,
        }
    } else if lit_at_x(v, b, "end padding: ") {
        proof {
            reveal_strlit("end padding: ");
        }
        match size_bytes_x(v, b + 13) {
            Some((_e, size)) => LineClass::EndPaddingEntry { size },
            None => LineClass::Marked,
        }
    } else {
        LineClass::Marked
    }
}

/// Classifies one input line: exactly what `spec_classify` says of its
/// characters.
pub fn classify_line(line: &str) -> (c: LineClass)
    ensures
        c@ == spec_classify(line@),
{
    let v = chars_of(line);
    if is_blank_x(&v) {
        return LineClass::Blank;
    }
    let m = space_end_x(&v, 0);
    proof {
        reveal_strlit("print-type-size");
    }
    if !lit_at_x(&v, m, "print-type-size") {
        if has_marker_x(&v) {
            return LineClass::Marked;
        } else {
            return LineClass::Plain;
        }
    }
    let e0 = m + 15;
    let b = space_end_x(&v, e0);
    if b == e0 {
        proof {
            assert(lit_at(v@, m as int, lit_marker()));
        }
        return LineClass::Marked;
    }
    classify_body_x(line, &v, b)
}

} // verus!
