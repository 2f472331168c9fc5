//! Bytes, comments and white space.

use vstd::prelude::*;

verus! {

/// White space: tab, line feed, vertical tab, form feed, carriage return
/// and space.
pub open spec fn is_space(b: u8) -> bool {
    (0x09 <= b <= 0x0d) || b == 0x20
}

/// White space as C sources separate tokens with: as above, without the
/// vertical tab.
pub open spec fn is_blank(b: u8) -> bool {
    b == 0x09 || b == 0x0a || b == 0x0c || b == 0x0d || b == 0x20
}

/// An upper-case letter.
pub open spec fn is_upper(b: u8) -> bool {
    0x41 <= b <= 0x5a
}

/// A lower-case letter.
pub open spec fn is_lower(b: u8) -> bool {
    0x61 <= b <= 0x7a
}

/// A decimal digit.
pub open spec fn is_digit(b: u8) -> bool {
    0x30 <= b <= 0x39
}

/// A letter or a decimal digit.
pub open spec fn is_alnum(b: u8) -> bool {
    is_upper(b) || is_lower(b) || is_digit(b)
}

/// The upper-case form of a letter; any other byte as it is.
pub open spec fn upper_of(b: u8) -> u8 {
    if is_lower(b) {
        (b - 0x20) as u8
    } else {
        b
    }
}

/// The lower-case form of a letter; any other byte as it is.
pub open spec fn lower_of(b: u8) -> u8 {
    if is_upper(b) {
        (b + 0x20) as u8
    } else {
        b
    }
}

/// Whether a byte is white space.
pub fn space(b: u8) -> (r: bool)
    ensures
        r == is_space(b),
{
    (0x09 <= b && b <= 0x0d) || b == 0x20
}

/// Whether a byte is white space between C tokens.
pub fn blank(b: u8) -> (r: bool)
    ensures
        r == is_blank(b),
{
    b == 0x09 || b == 0x0a || b == 0x0c || b == 0x0d || b == 0x20
}

/// Whether a byte is a letter or a decimal digit.
pub fn alnum(b: u8) -> (r: bool)
    ensures
        r == is_alnum(b),
{
    (0x41 <= b && b <= 0x5a) || (0x61 <= b && b <= 0x7a) || (0x30 <= b && b <= 0x39)
}

/// The upper-case form of a byte.
pub fn to_upper(b: u8) -> (r: u8)
    ensures
        r == upper_of(b),
{
    if 0x61 <= b && b <= 0x7a {
        b - 0x20
    } else {
        b
    }
}

/// The lower-case form of a byte.
pub fn to_lower(b: u8) -> (r: u8)
    ensures
        r == lower_of(b),
{
    if 0x41 <= b && b <= 0x5a {
        b + 0x20
    } else {
        b
    }
}

/// The slash that opens and closes comments.
pub const SLASH: u8 = 0x2f;

/// The star of block comments.
pub const STAR: u8 = 0x2a;

/// The line feed that ends a line comment.
pub const LINE_FEED: u8 = 0x0a;

/// Where the reader of a C source stands with respect to comments.
#[derive(Debug, Clone, Copy, PartialEq, Eq, Structural)]
pub enum Lex {
    /// In code.
    Code,
    /// In code, right after a slash that may open a comment.
    Slash,
    /// In a line comment.
    Line,
    /// In a block comment.
    Block,
    /// In a block comment, right after a star that may close it.
    BlockStar,
}

/// The state after the byte `b`, and the bytes that go to the output.
///
/// A slash is held back until the next byte shows whether it opens a
/// comment. A line comment ends with its line feed, which is kept. A block
/// comment ends with a star and a slash; the star that opens it does not
/// count.
pub open spec fn lex_step(mode: Lex, b: u8) -> (Lex, Seq<u8>) {
    match mode {
        Lex::Code => if b == SLASH {
            (Lex::Slash, Seq::<u8>::empty())
        } else {
            (Lex::Code, seq![b])
        },
        Lex::Slash => if b == SLASH {
            (Lex::Line, Seq::<u8>::empty())
        } else if b == STAR {
            (Lex::Block, Seq::<u8>::empty())
        } else {
            (Lex::Code, seq![SLASH, b])
        },
        Lex::Line => if b == LINE_FEED {
            (Lex::Code, seq![LINE_FEED])
        } else {
            (Lex::Line, Seq::<u8>::empty())
        },
        Lex::Block => if b == STAR {
            (Lex::BlockStar, Seq::<u8>::empty())
        } else {
            (Lex::Block, Seq::<u8>::empty())
        },
        Lex::BlockStar => if b == SLASH {
            (Lex::Code, Seq::<u8>::empty())
        } else if b == STAR {
            (Lex::BlockStar, Seq::<u8>::empty())
        } else {
            (Lex::Block, Seq::<u8>::empty())
        },
    }
}

/// The state and the output after all bytes of `s`.
pub open spec fn lex(s: Seq<u8>) -> (Lex, Seq<u8>)
    decreases s.len(),
{
    if s.len() == 0 {
        (Lex::Code, Seq::<u8>::empty())
    } else {
        let before = lex(s.drop_last());
        let step = lex_step(before.0, s.last());
        (step.0, before.1 + step.1)
    }
}

/// The source `s` without its comments. A slash at the very end is code.
pub open spec fn stripped(s: Seq<u8>) -> Seq<u8> {
    let end = lex(s);
    if end.0 == Lex::Slash {
        end.1.push(SLASH)
    } else {
        end.1
    }
}

/// A source without a slash has no comment and stays as it is.
pub proof fn lemma_no_slash_no_change(s: Seq<u8>)
    requires
        forall|i: int| 0 <= i < s.len() ==> s[i] != SLASH,
    ensures
        lex(s) == (Lex::Code, s),
        stripped(s) == s,
    decreases s.len(),
{
    if s.len() > 0 {
        lemma_no_slash_no_change(s.drop_last());
        assert(s.drop_last() + seq![s.last()] =~= s);
    }
}

/// Stripping never makes a source longer.
pub proof fn lemma_stripped_is_shorter(s: Seq<u8>)
    ensures
        lex(s).1.len() + (if lex(s).0 == Lex::Slash { 1nat } else { 0nat }) <= s.len(),
        stripped(s).len() <= s.len(),
    decreases s.len(),
{
    if s.len() > 0 {
        lemma_stripped_is_shorter(s.drop_last());
    }
}

/// Removes the comments of a C source: line comments up to their line
/// feed, which is kept, and block comments with their delimiters.
pub fn strip_comments(s: &[u8]) -> (r: Vec<u8>)
    ensures
        r@ == stripped(s@),
{
    let mut out: Vec<u8> = Vec::new();
    let mut mode = Lex::Code;
    let mut i: usize = 0;
    while i < s.len()
        invariant
            i <= s.len(),
            (mode, out@) == lex(s@.take(i as int)),
        decreases s.len() - i,
    {
        let b: u8 = s[i];
        proof {
            assert(s@.take(i + 1).drop_last() =~= s@.take(i as int));
            assert(s@.take(i + 1).last() == b);
        }
        let ghost before = out@;
        match mode {
            Lex::Code => {
                if b == SLASH {
                    mode = Lex::Slash;
                } else {
                    out.push(b);
                }
            },
            Lex::Slash => {
                if b == SLASH {
                    mode = Lex::Line;
                } else if b == STAR {
                    mode = Lex::Block;
                } else {
                    out.push(SLASH);
                    out.push(b);
                    mode = Lex::Code;
                }
            },
            Lex::Line => {
                if b == LINE_FEED {
                    out.push(LINE_FEED);
                    mode = Lex::Code;
                }
            },
            Lex::Block => {
                if b == STAR {
                    mode = Lex::BlockStar;
                }
            },
            Lex::BlockStar => {
                if b == SLASH {
                    mode = Lex::Code;
                } else if b != STAR {
                    mode = Lex::Block;
                }
            },
        }
        proof {
            let step = lex_step(lex(s@.take(i as int)).0, b);
            assert(out@ =~= before + step.1);
        }
        i = i + 1;
    }
    proof {
        assert(s@.take(s.len() as int) =~= s@);
    }
    if mode == Lex::Slash {
        out.push(SLASH);
    }
    out
}

/// The bytes of `s` that are not white space, in order.
pub open spec fn without_space(s: Seq<u8>) -> Seq<u8>
    decreases s.len(),
{
    if s.len() == 0 {
        Seq::<u8>::empty()
    } else if is_space(s.last()) {
        without_space(s.drop_last())
    } else {
        without_space(s.drop_last()).push(s.last())
    }
}

/// What is left holds no white space.
pub proof fn lemma_without_space_has_none(s: Seq<u8>)
    ensures
        forall|i: int| 0 <= i < without_space(s).len() ==> !is_space(#[trigger] without_space(s)[i]),
        without_space(s).len() <= s.len(),
    decreases s.len(),
{
    if s.len() > 0 {
        lemma_without_space_has_none(s.drop_last());
    }
}

/// Removes all white space.
pub fn collapse_ws(s: &[u8]) -> (r: Vec<u8>)
    ensures
        r@ == without_space(s@),
{
    let mut out: Vec<u8> = Vec::new();
    let mut i: usize = 0;
    while i < s.len()
        invariant
            i <= s.len(),
            out@ == without_space(s@.take(i as int)),
        decreases s.len() - i,
    {
        proof {
            assert(s@.take(i + 1).drop_last() =~= s@.take(i as int));
        }
        if !space(s[i]) {
            out.push(s[i]);
        }
        i = i + 1;
    }
    proof {
        assert(s@.take(s.len() as int) =~= s@);
    }
    out
}

/// The lower-case form of every byte of `s`.
pub open spec fn lowered(s: Seq<u8>) -> Seq<u8> {
    Seq::new(s.len(), |i: int| lower_of(s[i]))
}

/// Puts every letter into lower case.
pub fn to_lowercase(s: &[u8]) -> (r: Vec<u8>)
    ensures
        r@ == lowered(s@),
{
    let mut out: Vec<u8> = Vec::new();
    let mut i: usize = 0;
    while i < s.len()
        invariant
            i <= s.len(),
            out@.len() == i,
            forall|k: int| 0 <= k < i ==> out@[k] == lower_of(s@[k]),
        decreases s.len() - i,
    {
        out.push(to_lower(s[i]));
        i = i + 1;
    }
    assert(out@ =~= lowered(s@));
    out
}

/// The first place from `from` on where `s` holds a byte for which `keep`
/// is false; the length of `s` if there is none.
pub open spec fn skip_while(s: Seq<u8>, from: int, keep: spec_fn(u8) -> bool) -> int
    decreases s.len() - from,
{
    if from >= s.len() || !keep(s[from]) {
        from
    } else {
        skip_while(s, from + 1, keep)
    }
}

/// The end of `s` without its trailing bytes for which `drop` is true:
/// the place after the last byte, at or after `from`, for which `drop` is
/// false, or `from` if there is none.
pub open spec fn trim_end_at(s: Seq<u8>, from: int, to: int, discard: spec_fn(u8) -> bool) -> int
    decreases to - from,
{
    if to <= from || !discard(s[to - 1]) {
        to
    } else {
        trim_end_at(s, from, to - 1, discard)
    }
}

/// The range of `s` that is left when the bytes for which `discard` is
/// true are taken off both ends.
pub open spec fn trim_range(s: Seq<u8>, discard: spec_fn(u8) -> bool) -> (int, int) {
    let start = skip_while(s, 0, discard);
    (start, trim_end_at(s, start, s.len() as int, discard))
}

/// `s` with the bytes for which `discard` is true taken off both ends.
pub open spec fn trimmed(s: Seq<u8>, discard: spec_fn(u8) -> bool) -> Seq<u8> {
    let range = trim_range(s, discard);
    s.subrange(range.0, range.1)
}

/// The trimmed range lies within the sequence, its ends are kept bytes,
/// and everything outside it is discarded bytes.
pub proof fn lemma_trim_range(s: Seq<u8>, discard: spec_fn(u8) -> bool)
    ensures
        0 <= trim_range(s, discard).0 <= trim_range(s, discard).1 <= s.len(),
        forall|k: int| 0 <= k < trim_range(s, discard).0 ==> discard(#[trigger] s[k]),
        forall|k: int| trim_range(s, discard).1 <= k < s.len() ==> discard(#[trigger] s[k]),
        trim_range(s, discard).0 < trim_range(s, discard).1 ==> !discard(
            s[trim_range(s, discard).0],
        ) && !discard(s[trim_range(s, discard).1 - 1]),
{
    lemma_skip_while(s, 0, discard);
    let start = skip_while(s, 0, discard);
    lemma_trim_end_at(s, start, s.len() as int, discard);
}

/// What `skip_while` passes over are bytes for which `keep` is true, and
/// it stops on one for which it is false.
pub proof fn lemma_skip_while(s: Seq<u8>, from: int, keep: spec_fn(u8) -> bool)
    requires
        0 <= from <= s.len(),
    ensures
        from <= skip_while(s, from, keep) <= s.len(),
        forall|k: int| from <= k < skip_while(s, from, keep) ==> keep(#[trigger] s[k]),
        skip_while(s, from, keep) < s.len() ==> !keep(s[skip_while(s, from, keep)]),
    decreases s.len() - from,
{
    if from < s.len() && keep(s[from]) {
        lemma_skip_while(s, from + 1, keep);
    }
}

/// What `trim_end_at` takes off are bytes for which `discard` is true,
/// and it stops after one for which it is false.
pub proof fn lemma_trim_end_at(s: Seq<u8>, from: int, to: int, discard: spec_fn(u8) -> bool)
    requires
        0 <= from <= to <= s.len(),
    ensures
        from <= trim_end_at(s, from, to, discard) <= to,
        forall|k: int| trim_end_at(s, from, to, discard) <= k < to ==> discard(#[trigger] s[k]),
        from < trim_end_at(s, from, to, discard) ==> !discard(
            s[trim_end_at(s, from, to, discard) - 1],
        ),
    decreases to - from,
{
    if to > from && discard(s[to - 1]) {
        lemma_trim_end_at(s, from, to - 1, discard);
    }
}

/// A set of bytes that trimming and skipping work with.
#[derive(Debug, Clone, Copy, PartialEq, Eq, Structural)]
pub enum Class {
    /// White space.
    Space,
    /// White space between C tokens.
    Blank,
    /// White space and braces.
    SpaceOrBrace,
    /// The underscore.
    Underscore,
    /// The letters of an integer suffix: `u`, `U`, `l` and `L`.
    IntSuffix,
    /// What ends an identifier to the left: space, tab and star.
    Separator,
    /// What a name is made of: every byte but space, tab and star.
    Name,
    /// Every byte but the given one.
    Not(u8),
}

/// Whether the byte `b` is in the class.
pub open spec fn in_class(class: Class, b: u8) -> bool {
    match class {
        Class::Space => is_space(b),
        Class::Blank => is_blank(b),
        Class::SpaceOrBrace => is_space(b) || b == 0x7b || b == 0x7d,
        Class::Underscore => b == 0x5f,
        Class::IntSuffix => b == 0x75 || b == 0x55 || b == 0x6c || b == 0x4c,
        Class::Separator => b == 0x20 || b == 0x09 || b == 0x2a,
        Class::Name => !(b == 0x20 || b == 0x09 || b == 0x2a),
        Class::Not(x) => b != x,
    }
}

/// The class as a predicate.
pub open spec fn class_of(class: Class) -> spec_fn(u8) -> bool {
    |b: u8| in_class(class, b)
}

/// Whether the byte `b` is in the class.
pub fn member(class: Class, b: u8) -> (r: bool)
    ensures
        r == in_class(class, b),
{
    match class {
        Class::Space => space(b),
        Class::Blank => blank(b),
        Class::SpaceOrBrace => space(b) || b == 0x7b || b == 0x7d,
        Class::Underscore => b == 0x5f,
        Class::IntSuffix => b == 0x75 || b == 0x55 || b == 0x6c || b == 0x4c,
        Class::Separator => b == 0x20 || b == 0x09 || b == 0x2a,
        Class::Name => !(b == 0x20 || b == 0x09 || b == 0x2a),
        Class::Not(x) => b != x,
    }
}

/// The first place from `from` on that holds a byte outside the class;
/// the length of `s` if there is none.
pub fn skip_class(s: &[u8], from: usize, class: Class) -> (r: usize)
    requires
        from <= s@.len(),
    ensures
        r == skip_while(s@, from as int, class_of(class)),
        from <= r <= s@.len(),
        forall|k: int| from <= k < r ==> in_class(class, #[trigger] s@[k]),
        r < s@.len() ==> !in_class(class, s@[r as int]),
{
    let mut i: usize = from;
    while i < s.len() && member(class, s[i])
        invariant
            from <= i <= s.len(),
            skip_while(s@, from as int, class_of(class)) == skip_while(s@, i as int, class_of(class)),
            forall|k: int| from <= k < i ==> in_class(class, #[trigger] s@[k]),
        decreases s.len() - i,
    {
        i = i + 1;
    }
    i
}

/// The end of the range from `from` to `to` without its trailing bytes of
/// the class.
pub fn trim_end_class(s: &[u8], from: usize, to: usize, class: Class) -> (r: usize)
    requires
        from <= to <= s@.len(),
    ensures
        r == trim_end_at(s@, from as int, to as int, class_of(class)),
        from <= r <= to,
{
    let mut j: usize = to;
    while j > from && member(class, s[j - 1])
        invariant
            from <= j <= to <= s.len(),
            trim_end_at(s@, from as int, to as int, class_of(class)) == trim_end_at(
                s@,
                from as int,
                j as int,
                class_of(class),
            ),
        decreases j - from,
    {
        j = j - 1;
    }
    j
}

/// `s` without the bytes of the class at both ends.
pub fn trim(s: &[u8], class: Class) -> (r: Vec<u8>)
    ensures
        r@ == trimmed(s@, class_of(class)),
{
    let start = skip_class(s, 0, class);
    let end = trim_end_class(s, start, s.len(), class);
    copy_range(s, start, end)
}

/// `s` without the bytes of the class at its end.
pub fn trim_end(s: &[u8], class: Class) -> (r: Vec<u8>)
    ensures
        r@ == s@.subrange(0, trim_end_at(s@, 0, s@.len() as int, class_of(class))),
{
    let end = trim_end_class(s, 0, s.len(), class);
    copy_range(s, 0, end)
}

/// The first place of `s` that holds the byte `b`, if any.
pub fn find_byte(s: &[u8], b: u8) -> (r: Option<usize>)
    ensures
        r matches Some(i) ==> i < s@.len() && s@[i as int] == b && forall|k: int|
            0 <= k < i ==> #[trigger] s@[k] != b,
        r is None ==> forall|k: int| 0 <= k < s@.len() ==> #[trigger] s@[k] != b,
        r == first_of(s@, b),
{
    let i = skip_class(s, 0, Class::Not(b));
    if i < s.len() {
        Some(i)
    } else {
        None
    }
}

/// The first place of `s` that holds the byte `b`, if any.
pub open spec fn first_of(s: Seq<u8>, b: u8) -> Option<usize> {
    let i = skip_while(s, 0, class_of(Class::Not(b)));
    if i < s.len() {
        Some(i as usize)
    } else {
        None
    }
}

/// The last place of `s` that holds the byte `b`, if any.
pub open spec fn last_of(s: Seq<u8>, b: u8) -> Option<usize> {
    let j = trim_end_at(s, 0, s.len() as int, class_of(Class::Not(b)));
    if j > 0 {
        Some((j - 1) as usize)
    } else {
        None
    }
}

/// The last place of `s` that holds the byte `b`, if any.
pub fn rfind_byte(s: &[u8], b: u8) -> (r: Option<usize>)
    ensures
        r matches Some(i) ==> i < s@.len() && s@[i as int] == b && forall|k: int|
            i < k < s@.len() ==> #[trigger] s@[k] != b,
        r is None ==> forall|k: int| 0 <= k < s@.len() ==> #[trigger] s@[k] != b,
        r == last_of(s@, b),
{
    let j = trim_end_class(s, 0, s.len(), Class::Not(b));
    proof {
        lemma_trim_end_at(s@, 0, s@.len() as int, class_of(Class::Not(b)));
    }
    if j > 0 {
        Some(j - 1)
    } else {
        None
    }
}

/// A copy of the bytes of `s` from `from` to `to`.
pub fn copy_range(s: &[u8], from: usize, to: usize) -> (r: Vec<u8>)
    requires
        from <= to <= s@.len(),
    ensures
        r@ == s@.subrange(from as int, to as int),
{
    let mut out: Vec<u8> = Vec::new();
    let mut i: usize = from;
    while i < to
        invariant
            from <= i <= to <= s.len(),
            out@ == s@.subrange(from as int, i as int),
        decreases to - i,
    {
        out.push(s[i]);
        proof {
            assert(s@.subrange(from as int, i as int).push(s@[i as int]) =~= s@.subrange(
                from as int,
                i + 1,
            ));
        }
        i = i + 1;
    }
    out
}

} // verus!
