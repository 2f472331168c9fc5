//! Numbers in C sources.

use crate::carray::lex::{
    class_of, first_of, is_digit, last_of, trim, trim_end, trim_end_at, trimmed, Class,
};
use crate::carray::lex::{find_byte, rfind_byte, copy_range};
use vstd::prelude::*;

verus! {

/// The value of a digit in the given radix, if it is one. Letters count
/// in either case.
pub open spec fn digit_value(b: u8, radix: int) -> Option<int> {
    let v: int = if is_digit(b) {
        b - 0x30
    } else if 0x61 <= b <= 0x7a {
        b - 0x61 + 10
    } else if 0x41 <= b <= 0x5a {
        b - 0x41 + 10
    } else {
        36
    };
    if v < radix {
        Some(v)
    } else {
        None
    }
}

/// Every byte of `s` is a digit of the radix.
pub open spec fn all_digits(s: Seq<u8>, radix: int) -> bool {
    forall|i: int| 0 <= i < s.len() ==> (#[trigger] digit_value(s[i], radix)) is Some
}

/// The number that the digits of `s` spell in the radix, most significant
/// first. A byte that is no digit counts as zero.
pub open spec fn number_value(s: Seq<u8>, radix: int) -> int
    decreases s.len(),
{
    if s.len() == 0 {
        0
    } else {
        number_value(s.drop_last(), radix) * radix + (match digit_value(s.last(), radix) {
            Some(v) => v,
            None => 0,
        })
    }
}

/// The digits of a number with an optional plus sign in front taken off.
pub open spec fn unsigned_digits(s: Seq<u8>) -> Seq<u8> {
    if s.len() > 0 && s[0] == 0x2b {
        s.skip(1)
    } else {
        s
    }
}

/// The number that `s` spells in the radix: at least one digit, with an
/// optional plus sign in front, and a value that fits 64 bits. Anything
/// else is no number.
pub open spec fn parsed(s: Seq<u8>, radix: int) -> Option<u64> {
    let digits = unsigned_digits(s);
    if digits.len() == 0 || !all_digits(digits, radix) || number_value(digits, radix) > u64::MAX {
        None
    } else {
        Some(number_value(digits, radix) as u64)
    }
}

/// Longer digit strings spell larger numbers.
pub proof fn lemma_number_grows(s: Seq<u8>, k: int, radix: int)
    requires
        0 <= k <= s.len(),
        radix >= 1,
    ensures
        0 <= number_value(s.take(k), radix) <= number_value(s, radix),
    decreases s.len() - k,
{
    lemma_number_nonnegative(s.take(k), radix);
    if k == s.len() {
        assert(s.take(k) =~= s);
    } else {
        lemma_number_grows(s, k + 1, radix);
        assert(s.take(k + 1).drop_last() =~= s.take(k));
        let v = number_value(s.take(k), radix);
        assert(v * radix >= v) by (nonlinear_arith)
            requires
                v >= 0,
                radix >= 1,
        ;
    }
}

/// Digit strings spell numbers that are not negative.
pub proof fn lemma_number_nonnegative(s: Seq<u8>, radix: int)
    requires
        radix >= 1,
    ensures
        number_value(s, radix) >= 0,
    decreases s.len(),
{
    if s.len() > 0 {
        lemma_number_nonnegative(s.drop_last(), radix);
        let v = number_value(s.drop_last(), radix);
        assert(v * radix >= 0) by (nonlinear_arith)
            requires
                v >= 0,
                radix >= 1,
        ;
    }
}

fn digit_of(b: u8, radix: u32) -> (r: Option<u32>)
    requires
        2 <= radix <= 36,
    ensures
        r matches Some(v) ==> digit_value(b, radix as int) == Some(v as int),
        r is None ==> digit_value(b, radix as int) is None,
{
    let v: u32 = if 0x30 <= b && b <= 0x39 {
        (b - 0x30) as u32
    } else if 0x61 <= b && b <= 0x7a {
        (b - 0x61) as u32 + 10
    } else if 0x41 <= b && b <= 0x5a {
        (b - 0x41) as u32 + 10
    } else {
        36
    };
    if v < radix {
        Some(v)
    } else {
        None
    }
}

/// Parses a number in the given radix.
pub fn parse_number(s: &[u8], radix: u32) -> (r: Option<u64>)
    requires
        2 <= radix <= 36,
    ensures
        r == parsed(s@, radix as int),
{
    let start: usize = if s.len() > 0 && s[0] == 0x2b {
        1
    } else {
        0
    };
    let ghost digits = unsigned_digits(s@);
    proof {
        assert(digits =~= s@.subrange(start as int, s@.len() as int));
    }
    if start == s.len() {
        return None;
    }
    let mut value: u64 = 0;
    let mut i: usize = start;
    while i < s.len()
        invariant
            start <= i <= s.len(),
            2 <= radix <= 36,
            digits == s@.subrange(start as int, s@.len() as int),
            digits == unsigned_digits(s@),
            value == number_value(digits.take(i - start), radix as int),
            all_digits(digits.take(i - start), radix as int),
        decreases s.len() - i,
    {
        let ghost k = i - start;
        proof {
            assert(digits.take(k + 1).drop_last() =~= digits.take(k));
            assert(digits.take(k + 1).last() == s@[i as int]);
            lemma_number_grows(digits, k + 1, radix as int);
        }
        let d: u32 = match digit_of(s[i], radix) {
            Some(d) => d,
            None => {
                proof {
                    assert(digit_value(digits[k], radix as int) is None);
                }
                return None;
            },
        };
        proof {
            assert(digit_value(digits.take(k + 1).last(), radix as int) == Some(d as int));
            assert(number_value(digits.take(k + 1), radix as int) == value * radix + d);
        }
        let shifted: u64 = match value.checked_mul(radix as u64) {
            Some(v) => v,
            None => {
                proof {
                    assert(number_value(digits, radix as int) > u64::MAX);
                }
                return None;
            },
        };
        let next: u64 = match shifted.checked_add(d as u64) {
            Some(v) => v,
            None => {
                proof {
                    assert(number_value(digits, radix as int) > u64::MAX);
                }
                return None;
            },
        };
        proof {
            assert forall|j: int| 0 <= j < k + 1 implies (#[trigger] digit_value(
                digits.take(k + 1)[j],
                radix as int,
            )) is Some by {
                if j < k {
                    assert(digits.take(k)[j] == digits.take(k + 1)[j]);
                }
            }
        }
        value = next;
        i = i + 1;
    }
    proof {
        assert(digits.take(s.len() - start) =~= digits);
    }
    Some(value)
}

/// The text of a number without a cast in front: what follows the last
/// closing parenthesis, when an opening one stands before it.
pub open spec fn uncast(s: Seq<u8>) -> Seq<u8> {
    match (last_of(s, 0x29), first_of(s, 0x28)) {
        (Some(close), Some(open)) => if open < close {
            s.subrange(close + 1, s.len() as int)
        } else {
            s
        },
        _ => s,
    }
}

/// What one piece between two commas holds.
#[derive(Debug, Clone, Copy, PartialEq, Eq, Structural)]
pub enum Item {
    /// Nothing but white space and braces: the piece is passed over.
    Skip,
    /// A number.
    Value(u64),
    /// Something that is no number.
    Bad,
}

/// What the piece `raw` holds.
///
/// White space and braces at its ends do not count, nor an integer suffix
/// at its end, nor a cast in front. A number that starts with `0x` or `0X`
/// is hexadecimal, any other decimal.
pub open spec fn item_of(raw: Seq<u8>) -> Item {
    let t = trimmed(raw, class_of(Class::SpaceOrBrace));
    if t.len() == 0 {
        Item::Skip
    } else {
        let unsuffixed = t.subrange(
            0,
            trim_end_at(t, 0, t.len() as int, class_of(Class::IntSuffix)),
        );
        let text = uncast(unsuffixed);
        let number = if text.len() >= 2 && text[0] == 0x30 && (text[1] == 0x78 || text[1] == 0x58) {
            parsed(trimmed(text.skip(2), class_of(Class::Space)), 16)
        } else {
            parsed(trimmed(text, class_of(Class::Space)), 10)
        };
        match number {
            Some(v) => Item::Value(v),
            None => Item::Bad,
        }
    }
}

/// Reads one piece between two commas.
pub fn parse_item(raw: &[u8]) -> (r: Item)
    ensures
        r == item_of(raw@),
{
    let t = trim(raw, Class::SpaceOrBrace);
    if t.len() == 0 {
        return Item::Skip;
    }
    let unsuffixed = trim_end(t.as_slice(), Class::IntSuffix);
    let close = rfind_byte(unsuffixed.as_slice(), 0x29);
    let open = find_byte(unsuffixed.as_slice(), 0x28);
    let text: Vec<u8> = match (close, open) {
        (Some(c), Some(o)) => {
            if o < c {
                copy_range(unsuffixed.as_slice(), c + 1, unsuffixed.len())
            } else {
                unsuffixed
            }
        },
        _ => unsuffixed,
    };
    let number = if text.len() >= 2 && text[0] == 0x30 && (text[1] == 0x78 || text[1] == 0x58) {
        let hex = copy_range(text.as_slice(), 2, text.len());
        let digits = trim(hex.as_slice(), Class::Space);
        proof {
            assert(hex@ =~= text@.skip(2));
        }
        parse_number(digits.as_slice(), 16)
    } else {
        let digits = trim(text.as_slice(), Class::Space);
        parse_number(digits.as_slice(), 10)
    };
    match number {
        Some(v) => Item::Value(v),
        None => Item::Bad,
    }
}

/// The comma that separates the pieces.
pub const COMMA: u8 = 0x2c;

/// The numbers read so far, if no piece was bad, after one more piece.
pub open spec fn with_item(values: Option<Seq<u64>>, piece: Seq<u8>) -> Option<Seq<u64>> {
    match values {
        None => None,
        Some(vs) => match item_of(piece) {
            Item::Skip => Some(vs),
            Item::Value(v) => Some(vs.push(v)),
            Item::Bad => None,
        },
    }
}

/// The numbers of the complete pieces of `s`, and the place where the
/// piece under way starts.
pub open spec fn values_fold(s: Seq<u8>) -> (Option<Seq<u64>>, int)
    decreases s.len(),
{
    if s.len() == 0 {
        (Some(Seq::<u64>::empty()), 0)
    } else {
        let before = values_fold(s.drop_last());
        if s.last() == COMMA {
            (with_item(before.0, s.subrange(before.1, s.len() - 1)), s.len() as int)
        } else {
            before
        }
    }
}

/// The numbers of the list `body`, in order: none if any piece between
/// two commas is no number. Pieces of white space and braces are passed
/// over.
pub open spec fn values_of(body: Seq<u8>) -> Option<Seq<u64>> {
    let end = values_fold(body);
    with_item(end.0, body.subrange(end.1, body.len() as int))
}

/// The start of the piece under way lies within the text.
pub proof fn lemma_values_fold_start(s: Seq<u8>)
    ensures
        0 <= values_fold(s).1 <= s.len(),
    decreases s.len(),
{
    if s.len() > 0 {
        lemma_values_fold_start(s.drop_last());
    }
}

/// Reads the numbers of a list that commas separate.
pub fn parse_values(body: &[u8]) -> (r: Option<Vec<u64>>)
    ensures
        r is Some == values_of(body@) is Some,
        r matches Some(vals) ==> vals@ == values_of(body@).unwrap(),
{
    let mut vals: Vec<u64> = Vec::new();
    let mut start: usize = 0;
    let mut i: usize = 0;
    while i < body.len()
        invariant
            start <= i <= body.len(),
            values_fold(body@.take(i as int)) == (Some(vals@), start as int),
        decreases body.len() - i,
    {
        proof {
            assert(body@.take(i + 1).drop_last() =~= body@.take(i as int));
        }
        if body[i] == COMMA {
            let piece = copy_range(body, start, i);
            proof {
                assert(piece@ =~= body@.take(i + 1).subrange(start as int, i as int));
            }
            match parse_item(piece.as_slice()) {
                Item::Skip => {},
                Item::Value(v) => {
                    vals.push(v);
                },
                Item::Bad => {
                    proof {
                        lemma_bad_stays_bad(body@, i + 1);
                    }
                    return None;
                },
            }
            start = i + 1;
        }
        i = i + 1;
    }
    proof {
        assert(body@.take(body.len() as int) =~= body@);
    }
    let piece = copy_range(body, start, body.len());
    match parse_item(piece.as_slice()) {
        Item::Skip => Some(vals),
        Item::Value(v) => {
            vals.push(v);
            Some(vals)
        },
        Item::Bad => None,
    }
}

/// Once a piece was bad, the list has no numbers, whatever follows.
pub proof fn lemma_bad_stays_bad(s: Seq<u8>, k: int)
    requires
        0 <= k <= s.len(),
        values_fold(s.take(k)).0 is None,
    ensures
        values_fold(s).0 is None,
        values_of(s) is None,
    decreases s.len() - k,
{
    if k == s.len() {
        assert(s.take(k) =~= s);
    } else {
        assert(s.take(k + 1).drop_last() =~= s.take(k));
        lemma_bad_stays_bad(s, k + 1);
    }
}

} // verus!
