//! Names of the Rust constants.

use crate::carray::lex::{
    alnum, class_of, is_alnum, is_lower, is_upper, to_upper, trim, trimmed, upper_of, Class,
};
use vstd::prelude::*;

verus! {

/// The element type of an array.
#[derive(Debug, Clone, Copy, PartialEq, Eq, Structural)]
pub enum BaseTy {
    U8,
    U32,
}

/// The underscore.
pub const UNDERSCORE: u8 = 0x5f;

/// The name so far and whether its last byte came from a lower-case
/// letter, after the byte `b` of a C name.
///
/// An upper-case letter that follows a lower-case one starts a new word
/// and gets an underscore in front. Lower-case letters are put into upper
/// case. A run of other bytes becomes one underscore.
pub open spec fn snake_step(out: Seq<u8>, prev_is_lower: bool, b: u8) -> (Seq<u8>, bool) {
    if is_alnum(b) {
        if is_upper(b) {
            (
                if prev_is_lower {
                    out.push(UNDERSCORE).push(b)
                } else {
                    out.push(b)
                },
                false,
            )
        } else {
            (out.push(upper_of(b)), is_lower(b))
        }
    } else {
        (
            if out.len() > 0 && out.last() == UNDERSCORE {
                out
            } else {
                out.push(UNDERSCORE)
            },
            false,
        )
    }
}

/// The name and the flag after all bytes of `name`.
pub open spec fn snake_fold(name: Seq<u8>) -> (Seq<u8>, bool)
    decreases name.len(),
{
    if name.len() == 0 {
        (Seq::<u8>::empty(), false)
    } else {
        let before = snake_fold(name.drop_last());
        snake_step(before.0, before.1, name.last())
    }
}

/// The suffix that names the element type.
pub open spec fn type_suffix(ty: Option<BaseTy>) -> Seq<u8> {
    match ty {
        Some(BaseTy::U8) => seq![0x5fu8, 0x55u8, 0x38u8],
        Some(BaseTy::U32) => seq![0x5fu8, 0x55u8, 0x33u8, 0x32u8],
        None => Seq::<u8>::empty(),
    }
}

/// The constant's name for the C name `name`: in upper case with
/// underscores between the words, none at either end, and the suffix of
/// the element type.
pub open spec fn screaming_snake(name: Seq<u8>, ty: Option<BaseTy>) -> Seq<u8> {
    trimmed(snake_fold(name).0, class_of(Class::Underscore)) + type_suffix(ty)
}

/// The folded name holds upper-case letters, digits and underscores only,
/// and no two underscores in a row.
pub proof fn lemma_snake_bytes(name: Seq<u8>)
    ensures
        forall|i: int|
            0 <= i < snake_fold(name).0.len() ==> {
                let b = #[trigger] snake_fold(name).0[i];
                is_upper(b) || crate::carray::lex::is_digit(b) || b == UNDERSCORE
            },
        forall|i: int|
            0 < i < snake_fold(name).0.len() ==> !(snake_fold(name).0[i - 1] == UNDERSCORE
                && #[trigger] snake_fold(name).0[i] == UNDERSCORE),
        snake_fold(name).1 ==> snake_fold(name).0.len() > 0 && snake_fold(name).0.last()
            != UNDERSCORE,
    decreases name.len(),
{
    if name.len() > 0 {
        lemma_snake_bytes(name.drop_last());
    }
}

/// The name of the Rust constant for a C name.
pub fn to_screaming_snake(name: &[u8], ty: Option<BaseTy>) -> (r: Vec<u8>)
    ensures
        r@ == screaming_snake(name@, ty),
{
    let mut out: Vec<u8> = Vec::new();
    let mut prev_is_lower = false;
    let mut i: usize = 0;
    while i < name.len()
        invariant
            i <= name.len(),
            (out@, prev_is_lower) == snake_fold(name@.take(i as int)),
        decreases name.len() - i,
    {
        let b: u8 = name[i];
        proof {
            assert(name@.take(i + 1).drop_last() =~= name@.take(i as int));
        }
        if alnum(b) {
            if 0x41 <= b && b <= 0x5a {
                if prev_is_lower {
                    out.push(UNDERSCORE);
                }
                out.push(b);
                prev_is_lower = false;
            } else {
                out.push(to_upper(b));
                prev_is_lower = 0x61 <= b && b <= 0x7a;
            }
        } else {
            let n = out.len();
            if !(n > 0 && out[n - 1] == UNDERSCORE) {
                out.push(UNDERSCORE);
            }
            prev_is_lower = false;
        }
        i = i + 1;
    }
    proof {
        assert(name@.take(name.len() as int) =~= name@);
    }
    let mut r = trim(out.as_slice(), Class::Underscore);
    match ty {
        Some(BaseTy::U8) => {
            r.push(0x5f);
            r.push(0x55);
            r.push(0x38);
        },
        Some(BaseTy::U32) => {
            r.push(0x5f);
            r.push(0x55);
            r.push(0x33);
            r.push(0x32);
        },
        None => {},
    }
    assert(r@ =~= screaming_snake(name@, ty));
    r
}

} // verus!
