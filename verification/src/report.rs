//! Rendering a verification defect as one human-readable message.
//!
//! `error_message` states the exact character sequence of each message;
//! `format_verification_error` builds it.

use vstd::prelude::*;

use crate::types::ErrorView;
use crate::types::VerificationError;

verus! {

/// The character for one decimal digit value.
pub open spec fn dec_digit(d: int) -> char {
    if d == 0 {
        '0'
    } else if d == 1 {
        '1'
    } else if d == 2 {
        '2'
    } else if d == 3 {
        '3'
    } else if d == 4 {
        '4'
    } else if d == 5 {
        '5'
    } else if d == 6 {
        '6'
    } else if d == 7 {
        '7'
    } else if d == 8 {
        '8'
    } else {
        '9'
    }
}

/// The decimal rendering of a non-negative integer, without leading zeros
/// (a single zero for 0).
pub open spec fn dec_seq(n: int) -> Seq<char>
    decreases n,
{
    if n < 10 {
        seq![dec_digit(n)]
    } else {
        dec_seq(n / 10).push(dec_digit(n % 10))
    }
}

/// The exact message for each defect.
pub open spec fn error_message(e: ErrorView) -> Seq<char> {
    match e {
        ErrorView::StructSizeMismatch { expected, actual } => "mismatch struct size (expected: "@
            + dec_seq(expected as int) + ", actual: "@ + dec_seq(actual as int) + ")"@,
        ErrorView::VariantSizeMismatch { variant_name, expected, actual } =>
            "mismatch variant size (name: "@ + variant_name + ", expected: "@ + dec_seq(
                expected as int,
            ) + ", actual: "@ + dec_seq(actual as int) + ")"@,
        ErrorView::UnionSizeMismatch { expected, actual_max } => "mismatch union size (expected: "@
            + dec_seq(expected as int) + ", actual: "@ + dec_seq(actual_max as int) + ")"@,
        ErrorView::EnumTotalSizeMismatch { expected, calculated_min } =>
            "mismatch enum size (expected: "@ + dec_seq(expected as int) + ", calculated_min: "@
                + dec_seq(calculated_min as int) + ")"@,
    }
}

fn digit_string(d: u64) -> (s: String)
    requires
        d < 10,
    ensures
        s@ == seq![dec_digit(d as int)],
{
    let s: &str = if d == 0 {
        "0"
    } else if d == 1 {
        "1"
    } else if d == 2 {
        "2"
    } else if d == 3 {
        "3"
    } else if d == 4 {
        "4"
    } else if d == 5 {
        "5"
    } else if d == 6 {
        "6"
    } else if d == 7 {
        "7"
    } else if d == 8 {
        "8"
    } else {
        "9"
    };
    proof {
        reveal_strlit("0");
        reveal_strlit("1");
        reveal_strlit("2");
        reveal_strlit("3");
        reveal_strlit("4");
        reveal_strlit("5");
        reveal_strlit("6");
        reveal_strlit("7");
        reveal_strlit("8");
        reveal_strlit("9");
        assert(s@ =~= seq![dec_digit(d as int)]);
    }
    s.to_owned()
}

/// The decimal rendering of `n`.
fn u64_to_string(n: u64) -> (s: String)
    ensures
        s@ == dec_seq(n as int),
    decreases n,
{
    if n < 10 {
        digit_string(n)
    } else {
        let mut s = u64_to_string(n / 10);
        let d = digit_string(n % 10);
        s.append(d.as_str());
        proof {
            assert(s@ =~= dec_seq(n as int));
        }
        s
    }
}

/// Renders one defect as the message `error_message` prescribes.
pub fn format_verification_error(e: VerificationError) -> (r: String)
    ensures
        r@ == error_message(e@),
{
    match e {
        VerificationError::StructSizeMismatch { expected, actual } => {
            let mut s = String::from_str("mismatch struct size (expected: ");
            let t1 = u64_to_string(expected);
            s.append(t1.as_str());
            s.append(", actual: ");
            let t2 = u64_to_string(actual);
            s.append(t2.as_str());
            s.append(")");
            proof {
                assert(s@ =~= error_message(e@));
            }
            s
        },
        VerificationError::VariantSizeMismatch { variant_name, expected, actual } => {
            let mut s = String::from_str("mismatch variant size (name: ");
            s.append(variant_name.as_str());
            s.append(", expected: ");
            let t1 = u64_to_string(expected);
            s.append(t1.as_str());
            s.append(", actual: ");
            let t2 = u64_to_string(actual);
            s.append(t2.as_str());
            s.append(")");
            proof {
                assert(s@ =~= error_message(e@));
            }
            s
        },
        VerificationError::UnionSizeMismatch { expected, actual_max } => {
            let mut s = String::from_str("mismatch union size (expected: ");
            let t1 = u64_to_string(expected);
            s.append(t1.as_str());
            s.append(", actual: ");
            let t2 = u64_to_string(actual_max);
            s.append(t2.as_str());
            s.append(")");
            proof {
                assert(s@ =~= error_message(e@));
            }
            s
        },
        VerificationError::EnumTotalSizeMismatch { expected, calculated_min } => {
            let mut s = String::from_str("mismatch enum size (expected: ");
            let t1 = u64_to_string(expected);
            s.append(t1.as_str());
            s.append(", calculated_min: ");
            let t2 = u64_to_string(calculated_min);
            s.append(t2.as_str());
            s.append(")");
            proof {
                assert(s@ =~= error_message(e@));
            }
            s
        },
    }
}

} // verus!
