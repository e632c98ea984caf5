//! Laws of the operations on texts.
use crate::path::{trim_leading, trim_slashes};
use crate::text::{after_first, before, before_first, before_last_slash, decimal, first_at, hex, hex_digit, join_with, lemma_before_at, lemma_split_join, split_at_char};
use vstd::prelude::*;

verus! {

broadcast use vstd::seq_lib::group_seq_properties;

/// Cutting `head`, a separator and `tail` gives the pieces of the one and then those of the
/// other; a text without the separator is one piece.
pub proof fn cutting_goes_by_the_separator(head: Seq<char>, sep: char, tail: Seq<char>)
    ensures
        split_at_char(head + seq![sep] + tail, sep) == split_at_char(head, sep) + split_at_char(tail, sep),
        !head.contains(sep) ==> split_at_char(head, sep) == seq![head],
    decreases tail.len(),
{
    let whole = head + seq![sep] + tail;
    if tail.len() == 0 {
        assert(whole.drop_last() =~= head);
        assert(split_at_char(tail, sep) =~= seq![Seq::<char>::empty()]);
        assert(split_at_char(head, sep).push(Seq::empty()) =~= split_at_char(head, sep) + seq![Seq::<char>::empty()]);
    } else {
        let t = tail.drop_last();
        cutting_goes_by_the_separator(head, sep, t);
        crate::text::lemma_split_pieces(t, sep);
        assert(whole.drop_last() =~= head + seq![sep] + t);
        let a = split_at_char(head, sep);
        let b = split_at_char(t, sep);
        assert((a + b).last() == b.last());
        if tail.last() == sep {
            assert((a + b).push(Seq::empty()) =~= a + b.push(Seq::empty()));
        } else {
            assert((a + b).drop_last().push(b.last().push(tail.last())) =~= a + b.drop_last().push(
                b.last().push(tail.last()),
            ));
        }
    }
    if !head.contains(sep) {
        lemma_split_join(seq![head], sep);
    }
}

/// Joining puts the separator between neighbours and nowhere else.
pub proof fn joining_puts_separators_between(parts: Seq<Seq<char>>, last: Seq<char>, sep: char)
    ensures
        join_with(Seq::empty(), sep).len() == 0,
        join_with(seq![last], sep) == last,
        parts.len() > 0 ==> join_with(parts.push(last), sep) == join_with(parts, sep) + seq![sep] + last,
{
    assert(parts.push(last).drop_last() =~= parts);
    assert(join_with(parts, sep).push(sep) + last =~= join_with(parts, sep) + seq![sep] + last);
}

/// One text comes before another where it is a beginning of it, or has the smaller character at
/// the first place where they differ.
pub proof fn order_goes_by_the_first_difference(a: Seq<char>, b: Seq<char>)
    ensures
        before(a, b) <==> (a.len() < b.len() && a == b.take(a.len() as int)) || exists|k: int|
            0 <= k < a.len() && k < b.len() && a.take(k) == b.take(k) && (#[trigger] a[k] as int) < (b[k] as int),
    decreases a.len(),
{
    if a.len() > 0 && b.len() > 0 {
        let x = a.skip(1);
        let y = b.skip(1);
        order_goes_by_the_first_difference(x, y);
        if before(a, b) {
            if a[0] == b[0] {
                if x.len() < y.len() && x == y.take(x.len() as int) {
                    assert(a =~= b.take(a.len() as int)) by {
                        assert forall|i: int| 0 <= i < a.len() implies a[i] == b[i] by {
                            if i > 0 {
                                assert(x[i - 1] == y.take(x.len() as int)[i - 1]);
                            }
                        }
                    }
                } else {
                    let k = choose|k: int|
                        0 <= k < x.len() && k < y.len() && x.take(k) == y.take(k) && (#[trigger] x[k] as int) < (y[k] as int);
                    assert(a.take(k + 1) =~= b.take(k + 1)) by {
                        assert forall|i: int| 0 <= i < k + 1 implies a[i] == b[i] by {
                            if i > 0 {
                                assert(x.take(k)[i - 1] == y.take(k)[i - 1]);
                            }
                        }
                    }
                    assert((a[k + 1] as int) < (b[k + 1] as int));
                }
            } else {
                assert(a.take(0) =~= b.take(0));
                assert((a[0] as int) < (b[0] as int));
            }
        }
    }
    if a.len() < b.len() && a == b.take(a.len() as int) {
        lemma_beginning(a, b);
    }
    assert forall|k: int|
        0 <= k < a.len() && k < b.len() && a.take(k) == b.take(k) && (#[trigger] a[k] as int) < (b[k] as int) implies before(a, b) by {
        assert forall|i: int| 0 <= i < k implies #[trigger] a[i] == b[i] by {
            assert(a.take(k)[i] == b.take(k)[i]);
        }
        lemma_before_at(a, b, k);
    }
}

proof fn lemma_beginning(a: Seq<char>, b: Seq<char>)
    requires
        a.len() < b.len(),
        a == b.take(a.len() as int),
    ensures
        before(a, b),
    decreases a.len(),
{
    if a.len() > 0 {
        assert(a[0] == b[0]);
        assert(a.skip(1) =~= b.skip(1).take(a.len() - 1));
        lemma_beginning(a.skip(1), b.skip(1));
    }
}

/// A text is cut at the first occurrence of a character.
pub proof fn texts_are_cut_at_the_first(head: Seq<char>, c: char, tail: Seq<char>)
    requires
        !head.contains(c),
    ensures
        before_first(head + seq![c] + tail, c) == head,
        after_first(head + seq![c] + tail, c) == Some(tail),
        before_first(head, c) == head,
        after_first(head, c) is None,
{
    lemma_first_at(head, seq![c] + tail, c);
    lemma_first_at(head, Seq::empty(), c);
    assert(head + seq![c] + tail =~= head + (seq![c] + tail));
    assert(head + Seq::<char>::empty() =~= head);
    assert((head + seq![c] + tail).take(head.len() as int) =~= head);
    assert((head + seq![c] + tail).skip(head.len() as int + 1) =~= tail);
    assert(head.take(head.len() as int) =~= head);
}

proof fn lemma_first_at(head: Seq<char>, rest: Seq<char>, c: char)
    requires
        !head.contains(c),
        rest.len() > 0 ==> rest[0] == c,
    ensures
        first_at(head + rest, c) == head.len(),
    decreases head.len(),
{
    if head.len() > 0 {
        assert(head.contains(head[0]));
        assert((head + rest).skip(1) =~= head.skip(1) + rest);
        assert forall|k: int| 0 <= k < head.len() - 1 implies head.skip(1)[k] != c by {
            assert(head.contains(head[k + 1]));
        }
        lemma_first_at(head.skip(1), rest, c);
    } else {
        assert(head + rest =~= rest);
    }
}

/// The position of the first occurrence has the character, and none before it does.
pub proof fn lemma_first_position(s: Seq<char>, c: char)
    ensures
        first_at(s, c) <= s.len(),
        forall|i: int| 0 <= i < first_at(s, c) ==> #[trigger] s[i] != c,
        first_at(s, c) < s.len() ==> s[first_at(s, c) as int] == c,
    decreases s.len(),
{
    if s.len() > 0 && s[0] != c {
        let t = s.skip(1);
        lemma_first_position(t, c);
        assert forall|i: int| 0 <= i < first_at(s, c) implies #[trigger] s[i] != c by {
            if i > 0 {
                assert(t[i - 1] != c);
            }
        }
    }
}

/// The directory of a path is what stands before its last slash.
pub proof fn directories_end_at_the_last_slash(dir: Seq<char>, name: Seq<char>)
    requires
        !name.contains('/'),
    ensures
        before_last_slash(dir + seq!['/'] + name) == Some(dir),
        before_last_slash(name) is None,
    decreases name.len(),
{
    let path = dir + seq!['/'] + name;
    if name.len() == 0 {
        assert(path.drop_last() =~= dir);
    } else {
        assert(name.contains(name.last()));
        assert(path.drop_last() =~= dir + seq!['/'] + name.drop_last());
        assert forall|k: int| 0 <= k < name.len() - 1 implies name.drop_last()[k] != '/' by {
            assert(name.contains(name[k]));
        }
        directories_end_at_the_last_slash(dir, name.drop_last());
    }
}

/// Trimming takes away the slashes at its end of the text and nothing else.
pub proof fn trimming_takes_slashes_only(s: Seq<char>)
    ensures
        trim_slashes(s).is_prefix_of(s),
        trim_slashes(s).len() > 0 ==> trim_slashes(s).last() != '/',
        forall|i: int| trim_slashes(s).len() <= i < s.len() ==> #[trigger] s[i] == '/',
        trim_leading(s).is_suffix_of(s),
        trim_leading(s).len() > 0 ==> trim_leading(s)[0] != '/',
        forall|i: int| 0 <= i < s.len() - trim_leading(s).len() ==> #[trigger] s[i] == '/',
{
    lemma_trimmed_end(s);
    lemma_trimmed_start(s);
}

proof fn lemma_trimmed_end(s: Seq<char>)
    ensures
        trim_slashes(s).is_prefix_of(s),
        trim_slashes(s).len() > 0 ==> trim_slashes(s).last() != '/',
        forall|i: int| trim_slashes(s).len() <= i < s.len() ==> #[trigger] s[i] == '/',
    decreases s.len(),
{
    if s.len() > 0 && s.last() == '/' {
        let t = s.drop_last();
        lemma_trimmed_end(t);
        let n = trim_slashes(t).len() as int;
        assert(s.subrange(0, n) =~= t.subrange(0, n));
        assert forall|i: int| n <= i < s.len() implies #[trigger] s[i] == '/' by {
            if i < t.len() {
                assert(t[i] == '/');
            }
        }
    } else {
        assert(s.subrange(0, s.len() as int) =~= s);
    }
}

proof fn lemma_trimmed_start(s: Seq<char>)
    ensures
        trim_leading(s).is_suffix_of(s),
        trim_leading(s).len() > 0 ==> trim_leading(s)[0] != '/',
        forall|i: int| 0 <= i < s.len() - trim_leading(s).len() ==> #[trigger] s[i] == '/',
    decreases s.len(),
{
    if s.len() > 0 && s[0] == '/' {
        let t = s.skip(1);
        lemma_trimmed_start(t);
        let n = trim_leading(t).len() as int;
        assert(s.subrange(s.len() - n, s.len() as int) =~= t.subrange(t.len() - n, t.len() as int));
        assert forall|i: int| 0 <= i < s.len() - n implies #[trigger] s[i] == '/' by {
            if i > 0 {
                assert(t[i - 1] == '/');
            }
        }
    } else {
        assert(s.subrange(0, s.len() as int) =~= s);
    }
}

// ---- Numbers -----------------------------------------------------------------

/// The number that digits of the base stand for, the last one being worth its own value.
pub open spec fn worth(digits: Seq<char>, base: nat) -> nat
    decreases digits.len(),
{
    if digits.len() == 0 {
        0
    } else {
        worth(digits.drop_last(), base) * base + digit_worth(digits.last())
    }
}

/// The value of one digit.
pub open spec fn digit_worth(c: char) -> nat {
    if '0' <= c <= '9' {
        (c as nat - '0' as nat) as nat
    } else {
        (c as nat - 'A' as nat + 10) as nat
    }
}

/// The decimal digits of a number are digits, are worth the number, and have no zero in front.
pub proof fn decimals_are_worth_their_number(n: nat)
    ensures
        worth(decimal(n), 10) == n,
        decimal(n).len() > 0,
        forall|i: int| 0 <= i < decimal(n).len() ==> '0' <= #[trigger] decimal(n)[i] <= '9',
        decimal(n).len() > 1 ==> decimal(n)[0] != '0',
        n > 0 ==> decimal(n)[0] != '0',
    decreases n,
{
    let d = (n % 10) as nat;
    if n < 10 {
        assert(decimal(n).drop_last() =~= Seq::<char>::empty());
        reveal_with_fuel(worth, 2);
    } else {
        decimals_are_worth_their_number(n / 10);
        assert(decimal(n).drop_last() =~= decimal(n / 10));
        assert(decimal(n)[0] == decimal(n / 10)[0]);
    }
}

/// The hexadecimal digits of a number are digits in upper case, are worth the number, and are at
/// least as many as asked for, with no more zeros in front than that takes.
pub proof fn hexadecimals_are_worth_their_number(n: nat, width: nat)
    ensures
        worth(hex(n, width), 16) == n,
        hex(n, width).len() > 0,
        hex(n, width).len() >= width,
        hex(n, width).len() == 1 ==> n < 16 && hex(n, width)[0] == hex_digit(n),
        hex(n, width).len() > width && hex(n, width).len() > 1 ==> hex(n, width)[0] != '0',
        forall|i: int|
            0 <= i < hex(n, width).len() ==> ('0' <= #[trigger] hex(n, width)[i] <= '9') || ('A' <= hex(n, width)[i] <= 'F'),
    decreases n, width,
{
    let h = hex(n, width);
    if n < 16 && width <= 1 {
        assert(h.drop_last() =~= Seq::<char>::empty());
        reveal_with_fuel(worth, 2);
    } else {
        let w: nat = if width > 0 { (width - 1) as nat } else { 0 };
        hexadecimals_are_worth_their_number(n / 16, w);
        let rest = hex(n / 16, w);
        assert(h.drop_last() =~= rest);
        assert(h[0] == rest[0]);
        if h.len() > width && h.len() > 1 {
            if rest.len() == 1 && n / 16 == 0 {
                assert(n < 16);
                assert(width >= 2);
            }
        }
    }
}

} // verus!
