//! Rust source for the arrays.

use crate::carray::array::{views, CArray, CArrayView};
use crate::carray::name::BaseTy;
use vstd::prelude::*;
use vstd::string::StringSliceAdditionalSpecFns;

verus! {

/// The bytes of a text.
pub open spec fn text(s: &str) -> Seq<u8> {
    s.spec_bytes()
}

/// The character of a digit below 16, letters in upper case.
pub open spec fn digit_char(d: int) -> u8 {
    if d < 10 {
        (0x30 + d) as u8
    } else {
        (0x41 + d - 10) as u8
    }
}

/// The number `v` in hexadecimal, upper case, with zeros in front up to
/// `width` digits.
pub open spec fn hex_upper(v: nat, width: nat) -> Seq<u8>
    decreases v, width,
{
    if v < 16 && width <= 1 {
        seq![digit_char(v as int)]
    } else {
        hex_upper(v / 16, if width > 0 { (width - 1) as nat } else { 0 }).push(
            digit_char((v % 16) as int),
        )
    }
}

/// The number `v` in decimal.
pub open spec fn decimal(v: nat) -> Seq<u8>
    decreases v,
{
    if v < 10 {
        seq![digit_char(v as int)]
    } else {
        decimal(v / 10).push(digit_char((v % 10) as int))
    }
}

/// The digits that an element of the type is shown with at least.
pub open spec fn hex_width(ty: BaseTy) -> nat {
    match ty {
        BaseTy::U8 => 2,
        BaseTy::U32 => 8,
    }
}

/// The Rust name of the element type.
pub open spec fn element_name(ty: BaseTy) -> Seq<u8> {
    match ty {
        BaseTy::U8 => text("u8"),
        BaseTy::U32 => text("u32"),
    }
}

/// An element as Rust source.
pub open spec fn value_text(ty: BaseTy, v: u64) -> Seq<u8> {
    text("0x") + hex_upper(v as nat, hex_width(ty))
}

/// A full or last row of elements as Rust source.
pub open spec fn row_text(row: Seq<u8>) -> Seq<u8> {
    text("    ") + row + text(",\n")
}

/// The finished rows and the row under way after the elements `values`:
/// eight elements make a row, with a comma and a space between them.
pub open spec fn rows_fold(ty: BaseTy, values: Seq<u64>) -> (Seq<u8>, Seq<u8>)
    decreases values.len(),
{
    if values.len() == 0 {
        (Seq::<u8>::empty(), Seq::<u8>::empty())
    } else {
        let before = rows_fold(ty, values.drop_last());
        let row = (if before.1.len() > 0 {
            before.1 + text(", ")
        } else {
            before.1
        }) + value_text(ty, values.last());
        if values.len() % 8 == 0 {
            (before.0 + row_text(row), Seq::<u8>::empty())
        } else {
            (before.0, row)
        }
    }
}

/// All rows of the elements `values`.
pub open spec fn rows(ty: BaseTy, values: Seq<u64>) -> Seq<u8> {
    let end = rows_fold(ty, values);
    if end.1.len() > 0 {
        end.0 + row_text(end.1)
    } else {
        end.0
    }
}

/// One array as a Rust constant.
pub open spec fn array_text(a: CArrayView) -> Seq<u8> {
    text("#[rustfmt::skip]\n") + text("pub const ") + a.rust_name + text(": [") + element_name(a.ty)
        + text("; ") + decimal(a.values.len()) + text("] = [\n") + rows(a.ty, a.values) + text(
        "];\n\n",
    )
}

/// The constants of the arrays, one after the other.
pub open spec fn arrays_text(arrays: Seq<CArrayView>) -> Seq<u8>
    decreases arrays.len(),
{
    if arrays.len() == 0 {
        Seq::<u8>::empty()
    } else {
        arrays_text(arrays.drop_last()) + array_text(arrays.last())
    }
}

/// The Rust source for the arrays: a line that allows unused constants,
/// then the constants.
pub open spec fn rendered(arrays: Seq<CArrayView>) -> Seq<u8> {
    text("#![allow(dead_code)]\n\n") + arrays_text(arrays)
}

fn push_text(out: &mut Vec<u8>, s: &str)
    ensures
        final(out)@ == old(out)@ + text(s),
{
    out.extend_from_slice(s.as_bytes());
}

fn digit(d: u64) -> (r: u8)
    requires
        d < 16,
    ensures
        r == digit_char(d as int),
{
    if d < 10 {
        0x30 + d as u8
    } else {
        0x41 + (d - 10) as u8
    }
}

/// Appends `v` in hexadecimal, upper case, with zeros in front up to
/// `width` digits.
pub fn push_hex(out: &mut Vec<u8>, v: u64, width: usize)
    ensures
        final(out)@ == old(out)@ + hex_upper(v as nat, width as nat),
    decreases v, width,
{
    if v < 16 && width <= 1 {
        out.push(digit(v));
        assert(out@ =~= old(out)@ + hex_upper(v as nat, width as nat));
    } else {
        let narrower: usize = if width > 0 {
            width - 1
        } else {
            0
        };
        push_hex(out, v / 16, narrower);
        out.push(digit(v % 16));
        assert(out@ =~= old(out)@ + hex_upper(v as nat, width as nat));
    }
}

/// Appends `v` in decimal.
pub fn push_decimal(out: &mut Vec<u8>, v: usize)
    ensures
        final(out)@ == old(out)@ + decimal(v as nat),
    decreases v,
{
    if v < 10 {
        out.push(digit(v as u64));
        assert(out@ =~= old(out)@ + decimal(v as nat));
    } else {
        push_decimal(out, v / 10);
        out.push(digit((v % 10) as u64));
        assert(out@ =~= old(out)@ + decimal(v as nat));
    }
}

fn push_rows(out: &mut Vec<u8>, ty: BaseTy, values: &Vec<u64>)
    ensures
        final(out)@ == old(out)@ + rows(ty, values@),
{
    let ghost start = out@;
    let width: usize = match ty {
        BaseTy::U8 => 2,
        BaseTy::U32 => 8,
    };
    let mut line: Vec<u8> = Vec::new();
    let mut i: usize = 0;
    while i < values.len()
        invariant
            i <= values.len(),
            width == hex_width(ty),
            out@ == start + rows_fold(ty, values@.take(i as int)).0,
            line@ == rows_fold(ty, values@.take(i as int)).1,
        decreases values.len() - i,
    {
        proof {
            assert(values@.take(i + 1).drop_last() =~= values@.take(i as int));
        }
        let ghost before_line = line@;
        let ghost before_out = out@;
        if line.len() > 0 {
            push_text(&mut line, ", ");
        }
        push_text(&mut line, "0x");
        push_hex(&mut line, values[i], width);
        proof {
            let joined = if before_line.len() > 0 {
                before_line + text(", ")
            } else {
                before_line
            };
            assert(line@ =~= joined + value_text(ty, values@[i as int]));
        }
        if (i + 1) % 8 == 0 {
            push_text(out, "    ");
            out.extend_from_slice(line.as_slice());
            push_text(out, ",\n");
            proof {
                assert(out@ =~= before_out + row_text(line@));
                assert(start + (rows_fold(ty, values@.take(i as int)).0 + row_text(line@)) =~= (start
                    + rows_fold(ty, values@.take(i as int)).0) + row_text(line@));
            }
            line = Vec::new();
        }
        i = i + 1;
    }
    proof {
        assert(values@.take(values.len() as int) =~= values@);
    }
    if line.len() > 0 {
        let ghost before_out = out@;
        push_text(out, "    ");
        out.extend_from_slice(line.as_slice());
        push_text(out, ",\n");
        proof {
            assert(out@ =~= before_out + row_text(line@));
            assert(start + (rows_fold(ty, values@).0 + row_text(line@)) =~= (start + rows_fold(
                ty,
                values@,
            ).0) + row_text(line@));
        }
    }
}

fn push_array(out: &mut Vec<u8>, a: &CArray)
    ensures
        final(out)@ == old(out)@ + array_text(a@),
{
    let ghost start = out@;
    push_text(out, "#[rustfmt::skip]\n");
    push_text(out, "pub const ");
    out.extend_from_slice(a.rust_name.as_slice());
    push_text(out, ": [");
    match a.ty {
        BaseTy::U8 => push_text(out, "u8"),
        BaseTy::U32 => push_text(out, "u32"),
    }
    push_text(out, "; ");
    push_decimal(out, a.values.len());
    push_text(out, "] = [\n");
    push_rows(out, a.ty, &a.values);
    push_text(out, "];\n\n");
    assert(out@ =~= start + array_text(a@));
}

/// The Rust source that defines the arrays as constants.
pub fn render(arrays: &Vec<CArray>) -> (r: Vec<u8>)
    ensures
        r@ == rendered(views(arrays@)),
{
    let mut out: Vec<u8> = Vec::new();
    push_text(&mut out, "#![allow(dead_code)]\n\n");
    let mut i: usize = 0;
    while i < arrays.len()
        invariant
            i <= arrays.len(),
            out@ == text("#![allow(dead_code)]\n\n") + arrays_text(views(arrays@).take(i as int)),
        decreases arrays.len() - i,
    {
        proof {
            assert(views(arrays@).take(i + 1).drop_last() =~= views(arrays@).take(i as int));
            assert(views(arrays@).take(i + 1).last() == arrays@[i as int]@);
        }
        let ghost before = out@;
        push_array(&mut out, &arrays[i]);
        proof {
            assert(out@ =~= text("#![allow(dead_code)]\n\n") + arrays_text(
                views(arrays@).take(i + 1),
            ));
        }
        i = i + 1;
    }
    proof {
        assert(views(arrays@).take(arrays.len() as int) =~= views(arrays@));
    }
    out
}

} // verus!
