//! Array definitions in a C source.

use crate::carray::lex::{
    class_of, collapse_ws, copy_range, last_of, lowered, rfind_byte, skip_class, skip_while,
    to_lowercase, trim, trim_end_at, trim_end_class, trimmed, without_space, Class,
};
use crate::carray::name::{screaming_snake, to_screaming_snake, BaseTy};
use crate::carray::number::{parse_values, values_of};
use vstd::prelude::*;
use vstd::slice::slice_subrange;
use vstd::string::StringSliceAdditionalSpecFns;

verus! {

/// An array that a C source defines.
#[derive(Debug, PartialEq, Eq)]
pub struct CArray {
    /// The array's name in the C source.
    pub c_name: Vec<u8>,
    /// The name of the Rust constant.
    pub rust_name: Vec<u8>,
    /// The element type.
    pub ty: BaseTy,
    /// The elements.
    pub values: Vec<u64>,
}

/// An array definition, as values.
pub struct CArrayView {
    pub c_name: Seq<u8>,
    pub rust_name: Seq<u8>,
    pub ty: BaseTy,
    pub values: Seq<u64>,
}

impl View for CArray {
    type V = CArrayView;

    open spec fn view(&self) -> CArrayView {
        CArrayView {
            c_name: self.c_name@,
            rust_name: self.rust_name@,
            ty: self.ty,
            values: self.values@,
        }
    }
}

/// The views of a list of arrays.
pub open spec fn views(arrays: Seq<CArray>) -> Seq<CArrayView> {
    Seq::new(arrays.len(), |i: int| arrays[i]@)
}

/// The opening brace.
pub const OPEN_BRACE: u8 = 0x7b;

/// The closing brace.
pub const CLOSE_BRACE: u8 = 0x7d;

/// The place after the brace that closes the block, for a reader that
/// stands at place `i` of `s` inside `depth` open braces; none if the
/// block is not closed.
pub open spec fn brace_close(s: Seq<u8>, i: int, depth: int) -> Option<int>
    decreases s.len() - i,
{
    if i < 0 || i >= s.len() {
        None
    } else {
        let inside = depth + (if s[i] == OPEN_BRACE {
            1int
        } else if s[i] == CLOSE_BRACE {
            -1int
        } else {
            0int
        });
        if s[i] == CLOSE_BRACE && inside == 0 {
            Some(i + 1)
        } else {
            brace_close(s, i + 1, inside)
        }
    }
}

/// A block that is closed ends after a closing brace, behind the place
/// where the reader stands.
pub proof fn lemma_brace_close(s: Seq<u8>, i: int, depth: int)
    ensures
        brace_close(s, i, depth) matches Some(end) ==> i < end <= s.len() && s[end - 1]
            == CLOSE_BRACE,
    decreases s.len() - i,
{
    if 0 <= i < s.len() {
        let inside = depth + (if s[i] == OPEN_BRACE {
            1int
        } else if s[i] == CLOSE_BRACE {
            -1int
        } else {
            0int
        });
        if !(s[i] == CLOSE_BRACE && inside == 0) {
            lemma_brace_close(s, i + 1, inside);
        }
    }
}

/// Finds the end of the brace block that `s` starts with. Returns the
/// place after the closing brace and what stands between the braces; none
/// if the block is not closed.
pub fn extract_brace_block(s: &[u8]) -> (r: Option<(usize, Vec<u8>)>)
    requires
        s@.len() > 0,
        s@[0] == OPEN_BRACE,
    ensures
        r is Some == brace_close(s@, 0, 0) is Some,
        r matches Some((end, inner)) ==> brace_close(s@, 0, 0) == Some(end as int) && 2 <= end
            <= s@.len() && inner@ == s@.subrange(1, end - 1),
{
    let mut depth: usize = 0;
    let mut i: usize = 0;
    while i < s.len()
        invariant
            i <= s.len(),
            s@[0] == OPEN_BRACE,
            depth <= i,
            i > 0 ==> depth >= 1,
            brace_close(s@, 0, 0) == brace_close(s@, i as int, depth as int),
        decreases s.len() - i,
    {
        let b: u8 = s[i];
        if b == OPEN_BRACE {
            depth = depth + 1;
        } else if b == CLOSE_BRACE {
            depth = depth - 1;
            if depth == 0 {
                let inner = copy_range(s, 1, i);
                return Some((i + 1, inner));
            }
        }
        i = i + 1;
    }
    None
}

/// The text `needle` stands in `hay` at place `i`.
pub open spec fn occurs_at(hay: Seq<u8>, needle: Seq<u8>, i: int) -> bool {
    0 <= i && i + needle.len() <= hay.len() && hay.subrange(i, i + needle.len()) == needle
}

/// The text `needle` stands somewhere in `hay`.
pub open spec fn contains(hay: Seq<u8>, needle: Seq<u8>) -> bool {
    exists|i: int| occurs_at(hay, needle, i)
}

fn matches_at(hay: &[u8], needle: &[u8], i: usize) -> (r: bool)
    requires
        i + needle@.len() <= hay@.len(),
    ensures
        r == occurs_at(hay@, needle@, i as int),
{
    let mut j: usize = 0;
    while j < needle.len()
        invariant
            j <= needle.len(),
            i + needle.len() <= hay.len(),
            forall|k: int| 0 <= k < j ==> hay@[i + k] == needle@[k],
        decreases needle.len() - j,
    {
        if hay[i + j] != needle[j] {
            proof {
                assert(hay@.subrange(i as int, i + needle@.len())[j as int] != needle@[j as int]);
            }
            return false;
        }
        j = j + 1;
    }
    proof {
        assert(hay@.subrange(i as int, i + needle@.len()) =~= needle@);
    }
    true
}

/// Whether the text `needle` stands somewhere in `hay`.
pub fn find_text(hay: &[u8], needle: &[u8]) -> (r: bool)
    ensures
        r == contains(hay@, needle@),
{
    if needle.len() > hay.len() {
        proof {
            assert forall|i: int| !occurs_at(hay@, needle@, i) by {}
        }
        return false;
    }
    let last: usize = hay.len() - needle.len();
    let mut i: usize = 0;
    loop
        invariant
            i <= last,
            last == hay@.len() - needle@.len(),
            forall|k: int| 0 <= k < i ==> !occurs_at(hay@, needle@, k),
        ensures
            forall|k: int| 0 <= k <= last ==> !occurs_at(hay@, needle@, k),
        decreases last - i,
    {
        if matches_at(hay, needle, i) {
            return true;
        }
        if i == last {
            break ;
        }
        i = i + 1;
    }
    proof {
        assert forall|k: int| !occurs_at(hay@, needle@, k) by {}
    }
    false
}

/// The element type that the words in front of an array's name give:
/// bytes where they name an 8-bit type, else 32-bit words. White space
/// and the case of letters do not count.
pub open spec fn base_type(prefix: Seq<u8>) -> BaseTy {
    let words = lowered(without_space(prefix));
    if contains(words, "uint8_t".spec_bytes()) || contains(words, "unsignedchar".spec_bytes()) {
        BaseTy::U8
    } else {
        BaseTy::U32
    }
}

/// The opening bracket.
pub const OPEN_BRACKET: u8 = 0x5b;

/// The array that the declaration `decl` and the list `body` define.
///
/// The name is what stands right before the last opening bracket, back to
/// a space, a tab or a star. There is no array without a bracket, without
/// a name, or with a piece of the list that is no number.
pub open spec fn declared(decl: Seq<u8>, body: Seq<u8>) -> Option<CArrayView> {
    match last_of(decl, OPEN_BRACKET) {
        None => None,
        Some(lb) => {
            let before = decl.subrange(0, trim_end_at(decl, 0, lb as int, class_of(Class::Space)));
            let id_start = trim_end_at(before, 0, before.len() as int, class_of(Class::Name));
            let name = before.subrange(id_start, before.len() as int);
            if name.len() == 0 {
                None
            } else {
                let ty = base_type(before.subrange(0, id_start));
                match values_of(body) {
                    None => None,
                    Some(values) => Some(
                        CArrayView {
                            c_name: name,
                            rust_name: screaming_snake(name, Some(ty)),
                            ty,
                            values,
                        },
                    ),
                }
            }
        },
    }
}

/// Reads one array definition from its declaration and its list.
pub fn parse_decl_and_values(decl: &[u8], body: &[u8], _alias_patch: bool) -> (r: Option<CArray>)
    ensures
        r is Some == declared(decl@, body@) is Some,
        r matches Some(a) ==> a@ == declared(decl@, body@).unwrap(),
{
    let lb: usize = match rfind_byte(decl, OPEN_BRACKET) {
        Some(lb) => lb,
        None => {
            return None;
        },
    };
    let before_end = trim_end_class(decl, 0, lb, Class::Space);
    let before = slice_subrange(decl, 0, before_end);
    let id_start = trim_end_class(before, 0, before.len(), Class::Name);
    let name = copy_range(before, id_start, before.len());
    if name.len() == 0 {
        return None;
    }
    let prefix = slice_subrange(before, 0, id_start);
    let p = collapse_ws(prefix);
    let p_lower = to_lowercase(p.as_slice());
    let ty = if find_text(p_lower.as_slice(), "uint8_t".as_bytes()) || find_text(
        p_lower.as_slice(),
        "unsignedchar".as_bytes(),
    ) {
        BaseTy::U8
    } else {
        BaseTy::U32
    };
    let values = match parse_values(body) {
        Some(values) => values,
        None => {
            return None;
        },
    };
    let rust_name = to_screaming_snake(name.as_slice(), Some(ty));
    Some(CArray { c_name: name, rust_name, ty, values })
}

/// The equals sign.
pub const EQUALS: u8 = 0x3d;

/// The semicolon.
pub const SEMICOLON: u8 = 0x3b;

/// The declaration that ends at the equals sign at place `i`: what
/// stands between the last semicolon before it and the sign, without the
/// white space at its ends.
pub open spec fn declaration_before(s: Seq<u8>, i: int) -> Seq<u8> {
    let start: int = match last_of(s.take(i), SEMICOLON) {
        Some(p) => p + 1,
        None => 0,
    };
    trimmed(s.subrange(start, i), class_of(Class::Space))
}

/// The arrays that `s` defines from place `i` on.
///
/// An array definition is an equals sign followed, after white space, by
/// a brace block that is closed. Its declaration is what stands before
/// the sign. The search goes on behind the block; where an equals sign
/// starts no such block, it goes on behind the sign. A definition that
/// cannot be read is passed over.
pub open spec fn arrays_from(s: Seq<u8>, i: int) -> Seq<CArrayView>
    decreases s.len() - i,
{
    if i < 0 || i >= s.len() {
        Seq::<CArrayView>::empty()
    } else if s[i] != EQUALS {
        arrays_from(s, i + 1)
    } else {
        let j = skip_while(s, i + 1, class_of(Class::Blank));
        if j < 0 || j >= s.len() || s[j] != OPEN_BRACE {
            arrays_from(s, i + 1)
        } else {
            match brace_close(s.skip(j), 0, 0) {
                None => arrays_from(s, i + 1),
                Some(end) => {
                    let found = match declared(
                        declaration_before(s, i),
                        s.subrange(j + 1, j + end - 1),
                    ) {
                        Some(a) => seq![a],
                        None => Seq::<CArrayView>::empty(),
                    };
                    if i < j + end <= s.len() {
                        found + arrays_from(s, j + end)
                    } else {
                        found
                    }
                },
            }
        }
    }
}

/// The arrays that a C source without comments defines, in order.
pub open spec fn arrays_of(s: Seq<u8>) -> Seq<CArrayView> {
    arrays_from(s, 0)
}

/// Finds and reads the array definitions of a C source without comments.
pub fn parse_c_arrays(s: &[u8], alias_patch: bool) -> (r: Vec<CArray>)
    ensures
        views(r@) == arrays_of(s@),
{
    let mut out: Vec<CArray> = Vec::new();
    let mut i: usize = 0;
    while i < s.len()
        invariant
            i <= s.len(),
            views(out@) + arrays_from(s@, i as int) == arrays_of(s@),
        decreases s.len() - i,
    {
        if s[i] == EQUALS {
            let head = slice_subrange(s, 0, i);
            let decl_start: usize = match rfind_byte(head, SEMICOLON) {
                Some(p) => p + 1,
                None => 0,
            };
            let decl_raw = slice_subrange(s, decl_start, i);
            let decl = trim(decl_raw, Class::Space);
            proof {
                assert(head@ =~= s@.take(i as int));
                assert(decl@ == declaration_before(s@, i as int));
            }
            let j = skip_class(s, i + 1, Class::Blank);
            if j >= s.len() || s[j] != OPEN_BRACE {
                i = i + 1;
                continue ;
            }
            let tail = slice_subrange(s, j, s.len());
            proof {
                assert(tail@ =~= s@.skip(j as int));
            }
            let (end_brace, inner) = match extract_brace_block(tail) {
                Some(v) => v,
                None => {
                    i = i + 1;
                    continue ;
                },
            };
            proof {
                assert(inner@ =~= s@.subrange(j + 1, j + end_brace - 1));
            }
            let ghost before = out@;
            match parse_decl_and_values(decl.as_slice(), inner.as_slice(), alias_patch) {
                Some(arr) => {
                    out.push(arr);
                    proof {
                        assert(views(out@) =~= views(before) + seq![arr@]);
                    }
                },
                None => {},
            }
            proof {
                let found = match declared(
                    declaration_before(s@, i as int),
                    s@.subrange(j + 1, j + end_brace - 1),
                ) {
                    Some(a) => seq![a],
                    None => Seq::<CArrayView>::empty(),
                };
                assert(views(out@) =~= views(before) + found);
                assert(views(before) + (found + arrays_from(s@, j + end_brace)) =~= (views(before)
                    + found) + arrays_from(s@, j + end_brace));
            }
            i = j + end_brace;
            continue ;
        }
        i = i + 1;
    }
    proof {
        assert(views(out@) + Seq::<CArrayView>::empty() =~= views(out@));
    }
    out
}

} // verus!
