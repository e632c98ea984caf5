//! Strings as sequences of characters.
//!
//! Every contract of the crate speaks of a string through its view, a
//! `Seq<char>`. This module has the executable operations on strings that the
//! rest of the crate is written with, and the sequence functions that say what
//! they compute.
use vstd::prelude::*;
use vstd::string::*;
use vstd::utf8::encode_utf8;

verus! {

broadcast use vstd::seq_lib::group_seq_properties;

/// `String::push`: the character goes to the end, the rest stays.
pub assume_specification[ String::push ](s: &mut String, ch: char)
    ensures
        final(s)@ == old(s)@.push(ch),
;

/// `==` on string slices: true exactly where the two hold the same characters.
pub assume_specification[ <str as PartialEq>::eq ](a: &str, b: &str) -> (r: bool)
    ensures
        r == (a@ == b@),
;

/// A value that stands for a text.
pub trait Named: Sized {
    /// The text.
    spec fn text(&self) -> Seq<char>;

    /// Another value of the same text.
    fn duplicate(&self) -> (r: Self)
        ensures
            r.text() == self.text(),
    ;

    /// The text.
    fn as_text(&self) -> (r: &str)
        ensures
            r@ == self.text(),
    ;
}

impl Named for String {
    open spec fn text(&self) -> Seq<char> {
        self@
    }

    fn duplicate(&self) -> (r: Self) {
        self.clone()
    }

    fn as_text(&self) -> (r: &str) {
        self.as_str()
    }
}

/// The texts of a sequence of values.
pub open spec fn texts<T: Named>(v: Seq<T>) -> Seq<Seq<char>> {
    Seq::new(v.len(), |i: int| v[i].text())
}

/// The number of bytes that `s` takes in UTF-8.
pub open spec fn utf8_len(s: Seq<char>) -> nat {
    encode_utf8(s).len()
}

/// The pieces of `s` between the occurrences of `sep`: cutting at a separator
/// starts a new, empty piece, and any other character extends the last piece.
pub open spec fn split_at_char(s: Seq<char>, sep: char) -> Seq<Seq<char>>
    decreases s.len(),
{
    if s.len() == 0 {
        seq![Seq::<char>::empty()]
    } else {
        let before = split_at_char(s.drop_last(), sep);
        if s.last() == sep {
            before.push(Seq::<char>::empty())
        } else {
            before.drop_last().push(before.last().push(s.last()))
        }
    }
}

/// The parts one after the other, with `sep` between neighbours.
pub open spec fn join_with(parts: Seq<Seq<char>>, sep: char) -> Seq<char>
    decreases parts.len(),
{
    if parts.len() == 0 {
        Seq::<char>::empty()
    } else if parts.len() == 1 {
        parts[0]
    } else {
        join_with(parts.drop_last(), sep).push(sep) + parts.last()
    }
}

/// The digits of `n` in base ten, without leading zeros.
pub open spec fn decimal(n: nat) -> Seq<char>
    decreases n,
{
    let digit = ('0' as u32 + (n % 10)) as char;
    if n < 10 {
        seq![digit]
    } else {
        decimal(n / 10).push(digit)
    }
}

/// The character of one digit in base sixteen, in upper case.
pub open spec fn hex_digit(d: nat) -> char {
    if d < 10 {
        ('0' as u32 + d) as char
    } else {
        ('A' as u32 + (d - 10)) as char
    }
}

/// The digits of `n` in base sixteen, in upper case, with zeros in front up to
/// `width` digits.
pub open spec fn hex(n: nat, width: nat) -> Seq<char>
    decreases n, width,
{
    if n < 16 && width <= 1 {
        seq![hex_digit(n)]
    } else {
        hex(n / 16, if width > 0 { (width - 1) as nat } else { 0 }).push(hex_digit(n % 16))
    }
}

/// `a` comes before `b` in the order of character codes, first difference first.
pub open spec fn before(a: Seq<char>, b: Seq<char>) -> bool
    decreases a.len(),
{
    if b.len() == 0 {
        false
    } else if a.len() == 0 {
        true
    } else if a[0] == b[0] {
        before(a.skip(1), b.skip(1))
    } else {
        (a[0] as int) < (b[0] as int)
    }
}

/// Strictly ascending: sorted, and nothing twice.
pub open spec fn ascending(s: Seq<Seq<char>>) -> bool {
    forall|i: int, j: int| 0 <= i < j < s.len() ==> before(#[trigger] s[i], #[trigger] s[j])
}

/// Ascending, where equal texts may stand side by side.
pub open spec fn sorted(s: Seq<Seq<char>>) -> bool {
    forall|i: int, j: int| 0 <= i < j < s.len() ==> !before(#[trigger] s[j], #[trigger] s[i])
}

/// The position of the first `c` in `s`, or the end of `s`.
pub open spec fn first_at(s: Seq<char>, c: char) -> nat
    decreases s.len(),
{
    if s.len() == 0 || s[0] == c {
        0
    } else {
        1 + first_at(s.skip(1), c)
    }
}

/// What stands in `s` before the first `c`.
pub open spec fn before_first(s: Seq<char>, c: char) -> Seq<char> {
    s.take(first_at(s, c) as int)
}

/// What follows the first `c` in `s`, where it has one.
pub open spec fn after_first(s: Seq<char>, c: char) -> Option<Seq<char>> {
    if first_at(s, c) < s.len() {
        Some(s.skip(first_at(s, c) as int + 1))
    } else {
        None
    }
}

/// What stands in `s` before the first slash.
pub open spec fn before_slash(s: Seq<char>) -> Seq<char> {
    before_first(s, '/')
}

/// What follows the first slash of `s`, where it has one.
pub open spec fn after_slash(s: Seq<char>) -> Option<Seq<char>> {
    after_first(s, '/')
}

/// What stands in `s` before the last slash, where it has one.
pub open spec fn before_last_slash(s: Seq<char>) -> Option<Seq<char>>
    decreases s.len(),
{
    if s.len() == 0 {
        None
    } else if s.last() == '/' {
        Some(s.drop_last())
    } else {
        before_last_slash(s.drop_last())
    }
}

/// The text of an optional string.
pub open spec fn opt_text(s: Option<String>) -> Option<Seq<char>> {
    match s {
        Some(t) => Some(t@),
        None => None,
    }
}

/// The characters of `s`.
pub fn chars_of(s: &str) -> (r: Vec<char>)
    ensures
        r@ == s@,
{
    let mut out: Vec<char> = Vec::new();
    for c in it: s.chars()
        invariant
            out@ == it.seq().take(it.index()),
            it.seq() == s@,
    {
        out.push(c);
    }
    out
}

/// The string of the characters `v[from..to]`.
pub fn string_of(v: &Vec<char>, from: usize, to: usize) -> (r: String)
    requires
        from <= to <= v@.len(),
    ensures
        r@ == v@.subrange(from as int, to as int),
{
    let mut out = String::new();
    let mut i: usize = from;
    while i < to
        invariant
            from <= i <= to <= v@.len(),
            out@ == v@.subrange(from as int, i as int),
        decreases to - i,
    {
        out.push(v[i]);
        i = i + 1;
    }
    out
}

/// A copy of `s`.
pub fn copy(s: &str) -> (r: String)
    ensures
        r@ == s@,
{
    s.to_owned()
}

/// `a` followed by `b`.
pub fn concat(a: &str, b: &str) -> (r: String)
    ensures
        r@ == a@ + b@,
{
    let mut out = a.to_owned();
    out.append(b);
    out
}

/// `a`, `b` and `c`, one after the other.
pub fn concat3(a: &str, b: &str, c: &str) -> (r: String)
    ensures
        r@ == a@ + b@ + c@,
{
    let mut out = a.to_owned();
    out.append(b);
    out.append(c);
    out
}

/// The text that `{:?}` prints for the string `s`: in double quotes, with
/// escapes.
pub uninterp spec fn quoted(s: Seq<char>) -> Seq<char>;

/// `<str as Debug>::fmt` through `format!`. Which characters are escaped, and how,
/// rests on Unicode tables; of the result only that it depends on the text alone
/// is claimed.
#[verifier::external_body]
pub(crate) fn debug_text(s: &str) -> (r: String)
    ensures
        r@ == quoted(s@),
{
    format!("{:?}", s)
}

/// The number of bytes of `s`.
pub fn byte_len(s: &str) -> (n: usize)
    ensures
        n == utf8_len(s@),
{
    s.as_bytes().len()
}

/// Whether the characters of `p` stand in `s` from position `at` on.
fn stands_at(s: &Vec<char>, p: &Vec<char>, at: usize) -> (r: bool)
    requires
        at + p@.len() <= s@.len(),
    ensures
        r == (s@.subrange(at as int, at + p@.len()) == p@),
{
    let n: usize = s.len();
    let mut i: usize = 0;
    while i < p.len()
        invariant
            i <= p@.len(),
            n == s@.len(),
            at + p@.len() <= n,
            forall|j: int| 0 <= j < i ==> s@[at + j] == p@[j],
        decreases p@.len() - i,
    {
        if s[at + i] != p[i] {
            proof {
                let sub = s@.subrange(at as int, at + p@.len());
                assert(sub[i as int] != p@[i as int]);
            }
            return false;
        }
        i = i + 1;
    }
    assert(s@.subrange(at as int, at + p@.len()) =~= p@);
    true
}

/// Whether `s` begins with `p`.
pub fn starts_with(s: &str, p: &str) -> (r: bool)
    ensures
        r == p@.is_prefix_of(s@),
{
    let sc = chars_of(s);
    let pc = chars_of(p);
    pc.len() <= sc.len() && stands_at(&sc, &pc, 0)
}

/// Whether `s` ends with `p`.
pub fn ends_with(s: &str, p: &str) -> (r: bool)
    ensures
        r == p@.is_suffix_of(s@),
{
    let sc = chars_of(s);
    let pc = chars_of(p);
    if pc.len() <= sc.len() {
        stands_at(&sc, &pc, sc.len() - pc.len())
    } else {
        false
    }
}

/// Whether `c` occurs in `s`.
pub fn has_char(s: &str, c: char) -> (r: bool)
    ensures
        r == s@.contains(c),
{
    let sc = chars_of(s);
    let mut i: usize = 0;
    while i < sc.len()
        invariant
            i <= sc@.len(),
            sc@ == s@,
            forall|j: int| 0 <= j < i ==> s@[j] != c,
        decreases sc@.len() - i,
    {
        if sc[i] == c {
            assert(s@[i as int] == c);
            return true;
        }
        i = i + 1;
    }
    false
}

/// `s` without its first `n` characters.
pub fn skip(s: &str, n: usize) -> (r: &str)
    requires
        n <= s@.len(),
    ensures
        r@ == s@.skip(n as int),
{
    s.substring_char(n, s.unicode_len())
}

/// The first `n` characters of `s`.
pub fn take(s: &str, n: usize) -> (r: &str)
    requires
        n <= s@.len(),
    ensures
        r@ == s@.take(n as int),
{
    s.substring_char(0, n)
}

/// A copy of the list.
pub fn copy_all<T: Named>(v: &Vec<T>) -> (r: Vec<T>)
    ensures
        texts(r@) == texts(v@),
{
    let mut out: Vec<T> = Vec::new();
    let mut i: usize = 0;
    while i < v.len()
        invariant
            i <= v@.len(),
            texts(out@) == texts(v@).take(i as int),
        decreases v@.len() - i,
    {
        let ghost was = texts(out@);
        out.push(v[i].duplicate());
        assert(texts(out@) =~= was.push(v@[i as int].text()));
        i = i + 1;
    }
    assert(texts(v@).take(i as int) =~= texts(v@));
    out
}

/// Whether the list holds the text `x`.
pub fn holds<T: Named>(v: &Vec<T>, x: &str) -> (r: bool)
    ensures
        r == texts(v@).contains(x@),
{
    let mut i: usize = 0;
    while i < v.len()
        invariant
            i <= v@.len(),
            forall|j: int| 0 <= j < i ==> texts(v@)[j] != x@,
        decreases v@.len() - i,
    {
        if *v[i].as_text() == *x {
            assert(texts(v@)[i as int] == x@);
            return true;
        }
        i = i + 1;
    }
    false
}

/// What follows the prefix `p` in `s`, where `s` begins with it.
pub fn strip_prefix<'a>(s: &'a str, p: &str) -> (r: Option<&'a str>)
    ensures
        match r {
            Some(t) => p@.is_prefix_of(s@) && t@ == s@.skip(p@.len() as int),
            None => !p@.is_prefix_of(s@),
        },
{
    if starts_with(s, p) {
        Some(skip(s, p.unicode_len()))
    } else {
        None
    }
}

/// What comes before the suffix `p` in `s`, where `s` ends with it.
pub fn strip_suffix<'a>(s: &'a str, p: &str) -> (r: Option<&'a str>)
    ensures
        match r {
            Some(t) => p@.is_suffix_of(s@) && t@ == s@.take(s@.len() - p@.len()),
            None => !p@.is_suffix_of(s@),
        },
{
    if ends_with(s, p) {
        Some(take(s, s.unicode_len() - p.unicode_len()))
    } else {
        None
    }
}

/// The pieces of `s` between the occurrences of `sep`.
pub fn split(s: &str, sep: char) -> (r: Vec<String>)
    ensures
        texts(r@) == split_at_char(s@, sep),
        r@.len() >= 1,
{
    let sc = chars_of(s);
    let mut out: Vec<String> = Vec::new();
    let mut piece = String::new();
    let mut i: usize = 0;
    assert(texts(out@).push(piece@) =~= split_at_char(s@.take(0), sep));
    while i < sc.len()
        invariant
            i <= sc@.len(),
            sc@ == s@,
            texts(out@).push(piece@) == split_at_char(s@.take(i as int), sep),
        decreases sc@.len() - i,
    {
        let c = sc[i];
        let ghost was = texts(out@).push(piece@);
        proof {
            assert(s@.take(i + 1).drop_last() =~= s@.take(i as int));
            assert(was.drop_last() =~= texts(out@));
        }
        if c == sep {
            out.push(piece);
            piece = String::new();
            assert(texts(out@) =~= was);
        } else {
            piece.push(c);
        }
        i = i + 1;
    }
    assert(s@.take(i as int) =~= s@);
    let ghost whole = texts(out@).push(piece@);
    out.push(piece);
    assert(texts(out@) =~= whole);
    out
}

/// What stands before the first `c`, and what follows it.
pub fn split_first(s: &str, c: char) -> (r: (String, Option<String>))
    ensures
        r.0@ == before_first(s@, c),
        opt_text(r.1) == after_first(s@, c),
{
    let sc = chars_of(s);
    let mut i: usize = 0;
    assert(s@.skip(0) =~= s@);
    while i < sc.len() && sc[i] != c
        invariant
            i <= sc@.len(),
            sc@ == s@,
            first_at(s@, c) == i + first_at(s@.skip(i as int), c),
        decreases sc@.len() - i,
    {
        assert(s@.skip(i as int).skip(1) =~= s@.skip(i + 1));
        i = i + 1;
    }
    let head = string_of(&sc, 0, i);
    if i < sc.len() {
        let tail = string_of(&sc, i + 1, sc.len());
        assert(tail@ =~= s@.skip(i + 1));
        (head, Some(tail))
    } else {
        (head, None)
    }
}

/// What stands before the first slash, and what follows it.
pub fn split_once(s: &str) -> (r: (String, Option<String>))
    ensures
        r.0@ == before_slash(s@),
        opt_text(r.1) == after_slash(s@),
{
    split_first(s, '/')
}

/// What stands before the last slash.
pub fn parent(s: &str) -> (r: Option<String>)
    ensures
        opt_text(r) == before_last_slash(s@),
{
    let sc = chars_of(s);
    let mut i: usize = sc.len();
    assert(s@.take(i as int) =~= s@);
    while i > 0
        invariant
            i <= sc@.len(),
            sc@ == s@,
            before_last_slash(s@) == before_last_slash(s@.take(i as int)),
        decreases i,
    {
        assert(s@.take(i as int).drop_last() =~= s@.take(i - 1));
        i = i - 1;
        if sc[i] == '/' {
            return Some(string_of(&sc, 0, i));
        }
    }
    None
}

/// A character with the Unicode property `White_Space`.
pub open spec fn is_space(c: char) -> bool {
    ('\u{9}' <= c <= '\u{d}') || c == ' ' || c == '\u{85}' || c == '\u{a0}' || c == '\u{1680}' || ('\u{2000}' <= c
        <= '\u{200a}') || c == '\u{2028}' || c == '\u{2029}' || c == '\u{202f}' || c == '\u{205f}' || c == '\u{3000}'
}

/// Nothing but white space.
pub open spec fn is_blank(s: Seq<char>) -> bool {
    forall|i: int| 0 <= i < s.len() ==> is_space(#[trigger] s[i])
}

/// Whether `s` is nothing but white space.
pub fn blank(s: &str) -> (r: bool)
    ensures
        r == is_blank(s@),
{
    let sc = chars_of(s);
    let mut i: usize = 0;
    while i < sc.len()
        invariant
            i <= sc@.len(),
            sc@ == s@,
            forall|k: int| 0 <= k < i ==> is_space(#[trigger] s@[k]),
        decreases sc@.len() - i,
    {
        let c = sc[i];
        let space = ('\u{9}' <= c && c <= '\u{d}') || c == ' ' || c == '\u{85}' || c == '\u{a0}' || c == '\u{1680}' || (
        '\u{2000}' <= c && c <= '\u{200a}') || c == '\u{2028}' || c == '\u{2029}' || c == '\u{202f}' || c
            == '\u{205f}' || c == '\u{3000}';
        if !space {
            assert(!is_space(s@[i as int]));
            return false;
        }
        i = i + 1;
    }
    true
}

/// The texts in ascending order.
pub fn sort(v: Vec<String>) -> (r: Vec<String>)
    ensures
        sorted(texts(r@)),
        texts(r@).to_multiset() == texts(v@).to_multiset(),
{
    let mut out: Vec<String> = Vec::new();
    let mut i: usize = 0;
    assert(texts(out@) =~= texts(v@).take(0));
    while i < v.len()
        invariant
            i <= v@.len(),
            sorted(texts(out@)),
            texts(out@).to_multiset() == texts(v@).take(i as int).to_multiset(),
        decreases v@.len() - i,
    {
        let mut n: usize = out.len();
        while n > 0 && is_before(v[i].as_str(), out[n - 1].as_str())
            invariant
                i < v@.len(),
                n <= out@.len(),
                forall|j: int| n <= j < out@.len() ==> before(v@[i as int]@, #[trigger] texts(out@)[j]),
            decreases n,
        {
            n = n - 1;
        }
        let ghost was = texts(out@);
        let ghost x = v@[i as int]@;
        out.insert(n, v[i].clone());
        proof {
            assert(texts(out@) =~= was.insert(n as int, x));
            lemma_insert_sorted(was, n as int, x);
            lemma_insert_multiset(was, n as int, x);
            assert(texts(v@).take(i + 1) =~= texts(v@).take(i as int).push(x));
            texts(v@).take(i as int).to_multiset_ensures();
        }
        i = i + 1;
    }
    assert(texts(v@).take(i as int) =~= texts(v@));
    out
}

/// The parts one after the other, with `sep` between neighbours.
pub fn join<T: Named>(parts: &Vec<T>, sep: char) -> (r: String)
    ensures
        r@ == join_with(texts(parts@), sep),
{
    let mut out = String::new();
    let mut i: usize = 0;
    assert(texts(parts@).take(0) =~= Seq::<Seq<char>>::empty());
    while i < parts.len()
        invariant
            i <= parts@.len(),
            out@ == join_with(texts(parts@).take(i as int), sep),
        decreases parts@.len() - i,
    {
        proof {
            assert(texts(parts@).take(i + 1).drop_last() =~= texts(parts@).take(i as int));
        }
        if i > 0 {
            out.push(sep);
        }
        out.append(parts[i].as_text());
        i = i + 1;
    }
    assert(texts(parts@).take(i as int) =~= texts(parts@));
    out
}

/// `n` in base ten.
pub fn wide_number(n: u128) -> (r: String)
    ensures
        r@ == decimal(n as nat),
    decreases n,
{
    let digit = (48u8 + (n % 10) as u8) as char;
    let mut out = if n < 10 {
        String::new()
    } else {
        wide_number(n / 10)
    };
    out.push(digit);
    out
}

/// `n` in base ten.
pub fn number(n: u64) -> (r: String)
    ensures
        r@ == decimal(n as nat),
{
    wide_number(n as u128)
}

/// `n` in base sixteen, in upper case, with zeros in front up to `width` digits.
pub fn hex_number(n: u32, width: u8) -> (r: String)
    ensures
        r@ == hex(n as nat, width as nat),
    decreases n, width,
{
    let d: u8 = (n % 16) as u8;
    let digit = if d < 10 {
        (48u8 + d) as char
    } else {
        (65u8 + (d - 10)) as char
    };
    let mut out = if n < 16 && width <= 1 {
        String::new()
    } else {
        hex_number(n / 16, if width > 0 { width - 1 } else { 0 })
    };
    out.push(digit);
    out
}

/// Whether `a` comes before `b` in the order of character codes.
pub fn is_before(a: &str, b: &str) -> (r: bool)
    ensures
        r == before(a@, b@),
{
    let ac = chars_of(a);
    let bc = chars_of(b);
    let mut i: usize = 0;
    assert(ac@.skip(0) =~= ac@ && bc@.skip(0) =~= bc@);
    while i < ac.len() && i < bc.len()
        invariant
            i <= ac@.len(),
            i <= bc@.len(),
            ac@ == a@,
            bc@ == b@,
            before(a@, b@) == before(ac@.skip(i as int), bc@.skip(i as int)),
        decreases ac@.len() - i,
    {
        let x = ac[i];
        let y = bc[i];
        proof {
            assert(ac@.skip(i as int).skip(1) =~= ac@.skip(i + 1));
            assert(bc@.skip(i as int).skip(1) =~= bc@.skip(i + 1));
        }
        if x != y {
            return x < y;
        }
        i = i + 1;
    }
    i < bc.len()
}

/// Cutting gives at least one piece, and no piece holds the separator.
pub proof fn lemma_split_pieces(s: Seq<char>, sep: char)
    ensures
        split_at_char(s, sep).len() >= 1,
        forall|i: int| 0 <= i < split_at_char(s, sep).len() ==> !(#[trigger] split_at_char(s, sep)[i]).contains(sep),
    decreases s.len(),
{
    if s.len() > 0 {
        lemma_split_pieces(s.drop_last(), sep);
        let b = split_at_char(s.drop_last(), sep);
        if s.last() != sep {
            assert(!b.last().contains(sep));
            let l = b.last().push(s.last());
            assert forall|k: int| 0 <= k < l.len() implies l[k] != sep by {
                if k < b.last().len() {
                    assert(l[k] == b.last()[k]);
                }
            }
        }
    }
}

/// Joining the pieces with the separator gives the string back.
pub proof fn lemma_join_split(s: Seq<char>, sep: char)
    ensures
        join_with(split_at_char(s, sep), sep) == s,
    decreases s.len(),
{
    if s.len() > 0 {
        let t = s.drop_last();
        let b = split_at_char(t, sep);
        lemma_join_split(t, sep);
        lemma_split_pieces(t, sep);
        let p = split_at_char(s, sep);
        assert(t.push(s.last()) =~= s);
        if s.last() == sep {
            assert(p.drop_last() =~= b);
            assert(t.push(sep) + Seq::<char>::empty() =~= s);
        } else {
            assert(p.drop_last() =~= b.drop_last());
            if b.len() > 1 {
                assert(join_with(b.drop_last(), sep).push(sep) + b.last().push(s.last())
                    =~= (join_with(b.drop_last(), sep).push(sep) + b.last()).push(s.last()));
            }
        }
    }
}

/// A text without the separator extends the last piece.
pub proof fn lemma_split_append(a: Seq<char>, b: Seq<char>, sep: char)
    requires
        !b.contains(sep),
    ensures
        split_at_char(a + b, sep) == split_at_char(a, sep).drop_last().push(
            split_at_char(a, sep).last() + b,
        ),
    decreases b.len(),
{
    let p = split_at_char(a, sep);
    lemma_split_pieces(a, sep);
    if b.len() == 0 {
        assert(a + b =~= a);
        assert(p.last() + b =~= p.last());
        assert(p.drop_last().push(p.last()) =~= p);
    } else {
        let b0 = b.drop_last();
        assert(b.last() != sep);
        assert forall|i: int| 0 <= i < b0.len() implies b0[i] != sep by {
            assert(b[i] == b0[i]);
        }
        lemma_split_append(a, b0, sep);
        assert((a + b).drop_last() =~= a + b0);
        assert((a + b).last() == b.last());
        let q = p.drop_last().push(p.last() + b0);
        assert(q.drop_last() =~= p.drop_last());
        assert((p.last() + b0).push(b.last()) =~= p.last() + b);
    }
}

/// Cutting a text that was joined from parts without the separator gives the
/// parts back.
pub proof fn lemma_split_join(parts: Seq<Seq<char>>, sep: char)
    requires
        parts.len() >= 1,
        forall|i: int| 0 <= i < parts.len() ==> !(#[trigger] parts[i]).contains(sep),
    ensures
        split_at_char(join_with(parts, sep), sep) == parts,
    decreases parts.len(),
{
    let e = Seq::<char>::empty();
    if parts.len() == 1 {
        lemma_split_append(e, parts[0], sep);
        assert(e + parts[0] =~= parts[0]);
        assert(split_at_char(e, sep).drop_last().push(e + parts[0]) =~= parts);
    } else {
        let init = parts.drop_last();
        assert forall|i: int| 0 <= i < init.len() implies !(#[trigger] init[i]).contains(sep) by {
            assert(init[i] == parts[i]);
        }
        lemma_split_join(init, sep);
        let a = join_with(init, sep).push(sep);
        assert(a.drop_last() =~= join_with(init, sep));
        lemma_split_append(a, parts.last(), sep);
        assert(split_at_char(a, sep) == init.push(e));
        assert(init.push(e).drop_last() =~= init);
        assert(e + parts.last() =~= parts.last());
        assert(init.push(parts.last()) =~= parts);
    }
}

/// Inserting a text adds it once.
proof fn lemma_insert_multiset(s: Seq<Seq<char>>, n: int, x: Seq<char>)
    requires
        0 <= n <= s.len(),
    ensures
        s.insert(n, x).to_multiset() == s.to_multiset().insert(x),
{
    broadcast use vstd::multiset::group_multiset_axioms;

    let t = s.insert(n, x);
    assert(t.remove(n) =~= s);
    vstd::seq_lib::to_multiset_remove(t, n);
    t.to_multiset_ensures();
    assert(t[n] == x);
    assert(t.contains(x));
    assert(t.to_multiset() =~= s.to_multiset().insert(x));
}

/// Putting a text where what comes after it is larger, and what comes before it is
/// not, keeps the order.
proof fn lemma_insert_sorted(s: Seq<Seq<char>>, n: int, x: Seq<char>)
    requires
        sorted(s),
        0 <= n <= s.len(),
        forall|j: int| n <= j < s.len() ==> before(x, #[trigger] s[j]),
        n > 0 ==> !before(x, s[n - 1]),
    ensures
        sorted(s.insert(n, x)),
{
    let t = s.insert(n, x);
    assert forall|j: int| 0 <= j < n implies !before(x, #[trigger] s[j]) by {
        if j < n - 1 && before(x, s[j]) {
            lemma_before_total(s[n - 1], s[j]);
            if s[n - 1] != s[j] {
                lemma_before_transitive(x, s[j], s[n - 1]);
            }
        }
    }
    assert forall|i: int, j: int| 0 <= i < j < t.len() implies !before(#[trigger] t[j], #[trigger] t[i]) by {
        if i == n {
            lemma_before_total(x, s[j - 1]);
        } else if j == n {
            assert(t[i] == s[i]);
        } else {
            let si = if i < n { i } else { i - 1 };
            let sj = if j < n { j } else { j - 1 };
            assert(t[i] == s[si] && t[j] == s[sj]);
        }
    }
}

/// The byte length of a concatenation is the sum of the byte lengths.
pub proof fn lemma_utf8_len_concat(a: Seq<char>, b: Seq<char>)
    ensures
        utf8_len(a + b) == utf8_len(a) + utf8_len(b),
    decreases a.len(),
{
    if a.len() == 0 {
        assert(a + b =~= b);
    } else {
        assert((a + b).drop_first() =~= a.drop_first() + b);
        lemma_utf8_len_concat(a.drop_first(), b);
    }
}

/// Of two different strings exactly one comes before the other, and none
/// before itself.
pub proof fn lemma_before_total(a: Seq<char>, b: Seq<char>)
    ensures
        a == b ==> !before(a, b),
        a != b ==> before(a, b) != before(b, a),
    decreases a.len(),
{
    if a.len() > 0 && b.len() > 0 {
        lemma_before_total(a.skip(1), b.skip(1));
        if a[0] == b[0] && a.skip(1) == b.skip(1) {
            assert(a =~= seq![a[0]] + a.skip(1));
            assert(b =~= seq![b[0]] + b.skip(1));
        }
    } else if a.len() == 0 && b.len() == 0 {
        assert(a =~= b);
    }
}

/// The order is transitive.
pub proof fn lemma_before_transitive(a: Seq<char>, b: Seq<char>, c: Seq<char>)
    requires
        before(a, b),
        before(b, c),
    ensures
        before(a, c),
    decreases a.len(),
{
    if a.len() > 0 {
        if a[0] == b[0] && b[0] == c[0] {
            lemma_before_transitive(a.skip(1), b.skip(1), c.skip(1));
        }
    }
}

/// The first character that differs decides.
pub proof fn lemma_before_at(a: Seq<char>, b: Seq<char>, k: int)
    requires
        0 <= k < a.len(),
        k < b.len(),
        forall|i: int| 0 <= i < k ==> #[trigger] a[i] == b[i],
        (a[k] as int) < (b[k] as int),
    ensures
        before(a, b),
    decreases k,
{
    if k > 0 {
        assert(a[0] == b[0]);
        assert forall|i: int| 0 <= i < k - 1 implies #[trigger] a.skip(1)[i] == b.skip(1)[i] by {
            assert(a[i + 1] == b[i + 1]);
        }
        lemma_before_at(a.skip(1), b.skip(1), k - 1);
    }
}

/// Each text stands before the next one.
pub open spec fn step_by_step(s: Seq<Seq<char>>) -> bool {
    forall|i: int| 0 <= i < s.len() - 1 ==> before(#[trigger] s[i], s[i + 1])
}

/// Texts of which each stands before the next one ascend.
pub proof fn lemma_ascending(s: Seq<Seq<char>>)
    requires
        step_by_step(s),
    ensures
        ascending(s),
{
    assert forall|i: int, j: int| 0 <= i < j < s.len() implies before(#[trigger] s[i], #[trigger] s[j]) by {
        lemma_ascending_to(s, i, j);
    }
}

proof fn lemma_ascending_to(s: Seq<Seq<char>>, i: int, j: int)
    requires
        step_by_step(s),
        0 <= i < j < s.len(),
    ensures
        before(s[i], s[j]),
    decreases j - i,
{
    if i + 1 < j {
        lemma_ascending_to(s, i, j - 1);
        assert(before(s[j - 1], s[j - 1 + 1]));
        lemma_before_transitive(s[i], s[j - 1], s[j]);
    }
}

} // verus!
