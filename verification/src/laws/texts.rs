//! Laws of the functions on texts.
use vstd::prelude::*;
use vstd::string::*;

use crate::text::{self, CharClass};

verus! {

/// The characters that count as white space, one by one.
pub open spec fn white(c: char) -> bool {
    ||| c == ' ' || c == '\t' || c == '\n' || c == '\r'
    ||| c == '\u{b}' || c == '\u{c}' || c == '\u{85}' || c == '\u{a0}' || c == '\u{1680}'
    ||| c == '\u{2000}' || c == '\u{2001}' || c == '\u{2002}' || c == '\u{2003}' || c == '\u{2004}'
    ||| c == '\u{2005}' || c == '\u{2006}' || c == '\u{2007}' || c == '\u{2008}' || c == '\u{2009}'
    ||| c == '\u{200a}' || c == '\u{2028}' || c == '\u{2029}' || c == '\u{202f}' || c == '\u{205f}'
    ||| c == '\u{3000}'
}

/// Nothing but white space.
pub open spec fn all_white(s: Seq<char>) -> bool {
    forall|i: int| 0 <= i < s.len() ==> white(#[trigger] s[i])
}

/// `core` is `s` from `from` up to `to`, with white space before and behind it, and none at its own
/// ends.
pub open spec fn core_at(s: Seq<char>, core: Seq<char>, from: int, to: int) -> bool {
    &&& 0 <= from <= to <= s.len()
    &&& core == s.subrange(from, to)
    &&& all_white(s.take(from))
    &&& all_white(s.skip(to))
    &&& core.len() > 0 ==> !white(core[0]) && !white(core.last())
}

/// `core` is what is left of `s` without the white space at its ends.
pub open spec fn is_core(s: Seq<char>, core: Seq<char>) -> bool {
    exists|from: int, to: int| core_at(s, core, from, to)
}

/// `part` occurs somewhere in `s`.
pub open spec fn holds_at(s: Seq<char>, part: Seq<char>, i: int) -> bool {
    0 <= i && i + part.len() <= s.len() && forall|j: int|
        0 <= j < part.len() ==> #[trigger] part[j] == s[i + j]
}

/// `part` occurs somewhere in `s`.
pub open spec fn holds(s: Seq<char>, part: Seq<char>) -> bool {
    exists|i: int| holds_at(s, part, i)
}

/// A character with a capital letter A to Z made small.
pub open spec fn is_small(c: char, small: char) -> bool {
    if 'A' <= c <= 'Z' {
        small as int == c as int + ('a' as int - 'A' as int)
    } else {
        small == c
    }
}

/// A text with its capital letters A to Z made small.
pub open spec fn is_lower(s: Seq<char>, low: Seq<char>) -> bool {
    low.len() == s.len() && forall|i: int| 0 <= i < s.len() ==> is_small(s[i], #[trigger] low[i])
}

/// Each class of characters holds the characters that it is named after.
pub proof fn classes_hold_their_characters(c: char, r: bool)
    ensures
        call_ensures(CharClass::test, (CharClass::WhiteSpace, c), r) ==> r == white(c),
        call_ensures(CharClass::test, (CharClass::Slash, c), r) ==> r == (c == '/'),
        call_ensures(CharClass::test, (CharClass::Quote, c), r) ==> r == (c == '"'),
        call_ensures(CharClass::test, (CharClass::LineFeed, c), r) ==> r == (c == '\n'),
        call_ensures(CharClass::test, (CharClass::Equals, c), r) ==> r == (c == '='),
        call_ensures(CharClass::test, (CharClass::Colon, c), r) ==> r == (c == ':'),
        call_ensures(CharClass::test, (CharClass::NotInDecimal, c), r) ==> r == !(c == '.' || c
            == '0' || c == '1' || c == '2' || c == '3' || c == '4' || c == '5' || c == '6' || c
            == '7' || c == '8' || c == '9'),
{
}

/// The class of white space is the white space.
pub proof fn lemma_white(c: char)
    ensures
        CharClass::WhiteSpace.has(c) == white(c),
        text::is_white_space(c) == white(c),
{
}

/// What is trimmed off the start is of the class, and the first character that is left is not.
pub proof fn lemma_start(s: Seq<char>, k: CharClass)
    ensures
        ({
            let n = s.len() - text::trim_start_class(s, k).len();
            &&& 0 <= n
            &&& text::trim_start_class(s, k) == s.skip(n)
            &&& forall|i: int| 0 <= i < n ==> k.has(#[trigger] s[i])
            &&& n < s.len() ==> !k.has(s[n])
        }),
    decreases s.len(),
{
    if s.len() > 0 && k.has(s[0]) {
        let t = s.drop_first();
        lemma_start(t, k);
        let n = t.len() - text::trim_start_class(t, k).len();
        assert(t.skip(n) =~= s.skip(n + 1));
        assert forall|i: int| 0 <= i < n + 1 implies k.has(#[trigger] s[i]) by {
            if i > 0 {
                assert(t[i - 1] == s[i]);
            }
        }
        assert(n < t.len() ==> t[n] == s[n + 1]);
    } else {
        assert(s.skip(0) =~= s);
    }
}

/// What is trimmed off the end is of the class, and the last character that is left is not.
pub proof fn lemma_end(s: Seq<char>, k: CharClass)
    ensures
        ({
            let n = text::trim_end_class(s, k).len();
            &&& n <= s.len()
            &&& text::trim_end_class(s, k) == s.take(n as int)
            &&& forall|i: int| n <= i < s.len() ==> k.has(#[trigger] s[i])
            &&& n > 0 ==> !k.has(s[n - 1])
        }),
    decreases s.len(),
{
    if s.len() > 0 && k.has(s.last()) {
        let t = s.drop_last();
        lemma_end(t, k);
        let n = text::trim_end_class(t, k).len() as int;
        assert(t.take(n) =~= s.take(n));
        assert forall|i: int| n <= i < s.len() implies k.has(#[trigger] s[i]) by {
            if i < t.len() {
                assert(t[i] == s[i]);
            }
        }
    } else {
        assert(s.take(s.len() as int) =~= s);
    }
}

/// The trimmed text is the core.
pub proof fn lemma_trimmed(s: Seq<char>)
    ensures
        is_core(s, text::trimmed(s)),
        text::trimmed(s).len() == 0 <==> all_white(s),
{
    let k = CharClass::WhiteSpace;
    let t = text::trim_start_class(s, k);
    let core = text::trimmed(s);
    lemma_start(s, k);
    lemma_end(t, k);
    let from = s.len() - t.len();
    let to = from + core.len();
    assert(core =~= s.subrange(from, to));
    assert forall|i: int| 0 <= i < s.take(from).len() implies white(#[trigger] s.take(from)[i]) by {
        lemma_white(s[i]);
    }
    assert forall|i: int| 0 <= i < s.skip(to).len() implies white(#[trigger] s.skip(to)[i]) by {
        lemma_white(s[to + i]);
        assert(t[core.len() + i] == s[to + i]);
    }
    if core.len() > 0 {
        lemma_white(core[0]);
        lemma_white(core.last());
        assert(core[0] == s[from]);
        assert(core.last() == t[core.len() - 1]);
        assert(s[from] == core[0]);
        assert(!all_white(s));
    } else {
        assert(s.take(from) + s.skip(to) =~= s);
        assert forall|i: int| 0 <= i < s.len() implies white(#[trigger] s[i]) by {
            if i < from {
                assert(s.take(from)[i] == s[i]);
            } else {
                assert(s.skip(to)[i - to] == s[i]);
            }
        }
    }
    assert(core_at(s, core, from, to));
}

/// A text has one core.
pub proof fn core_is_unique(s: Seq<char>, a: Seq<char>, b: Seq<char>)
    requires
        is_core(s, a),
        is_core(s, b),
    ensures
        a == b,
{
    let (f, t) = choose|f: int, t: int| core_at(s, a, f, t);
    let (g, u) = choose|g: int, u: int| core_at(s, b, g, u);
    if f < t {
        assert(a[0] == s[f] && a.last() == s[t - 1]);
        if g > f {
            assert(s.take(g)[f] == s[f]);
        }
        if u <= f {
            assert(s.skip(u)[f - u] == s[f]);
        }
        if u < t {
            assert(s.skip(u)[t - 1 - u] == s[t - 1]);
        }
    }
    if g < u {
        assert(b[0] == s[g] && b.last() == s[u - 1]);
        if f > g {
            assert(s.take(f)[g] == s[g]);
        }
        if t <= g {
            assert(s.skip(t)[g - t] == s[g]);
        }
        if t < u {
            assert(s.skip(t)[u - 1 - t] == s[u - 1]);
        }
    }
    assert(a =~= b);
}

/// Trimming takes white space off both ends and nothing else.
pub proof fn trimming_leaves_the_core(s: &str, r: String)
    requires
        call_ensures(text::trim, (s,), r),
    ensures
        is_core(s@, r@),
{
    lemma_trimmed(s@);
}

/// A text is blank where it holds nothing but white space.
pub proof fn blank_is_all_white(s: &str, r: bool)
    requires
        call_ensures(text::is_blank, (s,), r),
    ensures
        r == all_white(s@),
{
    lemma_trimmed(s@);
}

/// Trimming both ends of characters of a class is trimming one end and then the other.
pub proof fn both_ends_are_trimmed(s: &str, k: CharClass, r: String)
    requires
        call_ensures(text::trim_both, (s, k), r),
    ensures
        exists|from: int, to: int|
            0 <= from <= to <= s@.len() && r@ == #[trigger] s@.subrange(from, to) && (forall|i: int|
                0 <= i < from || to <= i < s@.len() ==> k.has(#[trigger] s@[i])) && (from < to
                ==> !k.has(s@[from]) && !k.has(s@[to - 1])),
{
    let t = text::trim_start_class(s@, k);
    lemma_start(s@, k);
    lemma_end(t, k);
    let from = s@.len() - t.len();
    let to = from + r@.len();
    assert(r@ =~= s@.subrange(from, to));
    assert forall|i: int| 0 <= i < from || to <= i < s@.len() implies k.has(#[trigger] s@[i]) by {
        if i >= to {
            assert(t[i - from] == s@[i]);
        }
    }
    if from < to {
        assert(t[to - from - 1] == s@[to - 1]);
        assert(t[0] == s@[from]);
    }
}

/// Trimming the end keeps the start.
pub proof fn one_end_is_trimmed(s: &str, k: CharClass, head: String, tail: String)
    requires
        call_ensures(text::trim_head, (s, k), head),
        call_ensures(text::trim_tail, (s, k), tail),
    ensures
        tail@.len() <= s@.len() && tail@ == s@.take(tail@.len() as int),
        forall|i: int| tail@.len() <= i < s@.len() ==> k.has(#[trigger] s@[i]),
        tail@.len() > 0 ==> !k.has(tail@.last()),
        head@.len() <= s@.len() && head@ == s@.skip(s@.len() - head@.len()),
        forall|i: int| 0 <= i < s@.len() - head@.len() ==> k.has(#[trigger] s@[i]),
        head@.len() > 0 ==> !k.has(head@[0]),
{
    lemma_start(s@, k);
    lemma_end(s@, k);
}

/// Capital letters A to Z become small, and every other character stays.
pub proof fn letters_are_lowered(s: &str, r: String)
    requires
        call_ensures(text::lowercase, (s,), r),
    ensures
        is_lower(s@, r@),
{
    lemma_lowered(s@);
}

/// The lowered text is the one in lower case.
pub proof fn lemma_lowered(s: Seq<char>)
    ensures
        is_lower(s, text::lowered(s)),
{
    assert forall|i: int| 0 <= i < s.len() implies is_small(
        s[i],
        #[trigger] text::lowered(s)[i],
    ) by {
        let c = s[i];
        if 'A' <= c <= 'Z' {
            let d = (c as u8 + 32) as char;
            assert(d as int == c as int + 32);
        }
    }
}

/// A text has one form in lower case.
pub proof fn lower_is_unique(s: Seq<char>, a: Seq<char>, b: Seq<char>)
    requires
        is_lower(s, a),
        is_lower(s, b),
    ensures
        a == b,
{
    assert forall|i: int| 0 <= i < s.len() implies a[i] == b[i] by {
        assert(is_small(s[i], a[i]) && is_small(s[i], b[i]));
    }
    assert(a =~= b);
}

/// The ways to say that a text occurs in another agree.
pub proof fn lemma_holds(s: Seq<char>, part: Seq<char>)
    ensures
        text::has_text(s, part) == holds(s, part),
        text::begins_with(s, part) == holds_at(s, part, 0),
{
    assert forall|i: int| #[trigger] text::occurs_at(s, part, i) == holds_at(s, part, i) by {
        if 0 <= i && i + part.len() <= s.len() {
            let sub = s.subrange(i, i + part.len());
            if text::occurs_at(s, part, i) {
                assert forall|j: int| 0 <= j < part.len() implies #[trigger] part[j] == s[i + j] by {
                    assert(sub[j] == s[i + j]);
                }
            }
            if holds_at(s, part, i) {
                assert(sub =~= part);
            }
        }
    }
    if text::has_text(s, part) {
        let i = choose|i: int| text::occurs_at(s, part, i);
        assert(holds_at(s, part, i));
    }
    if holds(s, part) {
        let i = choose|i: int| holds_at(s, part, i);
        assert(text::occurs_at(s, part, i));
    }
}

/// A text is found at any place of another, and its start is the first of these places.
pub proof fn texts_are_found(s: &str, part: &str, found: bool, first: bool, rest: Option<String>)
    requires
        call_ensures(text::contains, (s, part), found),
        call_ensures(text::starts_with, (s, part), first),
        call_ensures(text::strip_prefix, (s, part), rest),
    ensures
        found == holds(s@, part@),
        first == holds_at(s@, part@, 0),
        rest is Some == first,
        rest matches Some(t) ==> s@ == part@ + t@,
{
    lemma_holds(s@, part@);
}

/// Two texts are the same where no character differs, and joining puts one behind the other.
pub proof fn texts_are_compared_and_joined(a: &str, b: &str, r: bool, both: String)
    requires
        call_ensures(text::same, (a, b), r),
        call_ensures(text::join, (a, b), both),
    ensures
        r ==> a@.len() == b@.len() && forall|i: int| 0 <= i < a@.len() ==> a@[i] == b@[i],
        !r ==> a@.len() != b@.len() || exists|i: int| 0 <= i < a@.len() && a@[i] != b@[i],
        both@.len() == a@.len() + b@.len(),
        both@.take(a@.len() as int) == a@,
        both@.skip(a@.len() as int) == b@,
{
    if !r && a@.len() == b@.len() {
        if forall|i: int| 0 <= i < a@.len() ==> a@[i] == b@[i] {
            assert(a@ =~= b@);
        }
    }
    assert(both@.take(a@.len() as int) =~= a@);
    assert(both@.skip(a@.len() as int) =~= b@);
}

/// The number of characters before the first of a class.
pub proof fn lemma_until(s: Seq<char>, k: CharClass)
    ensures
        text::until_class(s, k) <= s.len(),
        forall|i: int| 0 <= i < text::until_class(s, k) ==> !k.has(#[trigger] s[i]),
        text::until_class(s, k) < s.len() ==> k.has(s[text::until_class(s, k) as int]),
    decreases s.len(),
{
    if s.len() > 0 && !k.has(s[0]) {
        let t = s.drop_first();
        lemma_until(t, k);
        assert forall|i: int| 0 <= i < text::until_class(s, k) implies !k.has(
            #[trigger] s[i],
        ) by {
            if i > 0 {
                assert(t[i - 1] == s[i]);
            }
        }
    }
}

/// A text is split behind the first character of a class.
pub proof fn splitting_is_after_the_first(s: &str, k: CharClass, r: Option<String>)
    requires
        call_ensures(text::split_after, (s, k), r),
    ensures
        r is None <==> forall|i: int| 0 <= i < s@.len() ==> !k.has(#[trigger] s@[i]),
        r matches Some(t) ==> ({
            let n = s@.len() - t@.len() - 1;
            &&& 0 <= n
            &&& k.has(s@[n])
            &&& t@ == s@.skip(n + 1)
            &&& forall|i: int| 0 <= i < n ==> !k.has(#[trigger] s@[i])
        }),
{
    lemma_until(s@, k);
}

/// A first line that ends with a line feed, a carriage return before it aside, is followed by the
/// lines of the rest. A text without a line feed is its own only line, and an empty one has none.
pub proof fn lines_come_one_by_one(
    s: &str,
    rest: &str,
    first: Seq<char>,
    all: Vec<String>,
    others: Vec<String>,
)
    requires
        call_ensures(text::lines, (s,), all),
        call_ensures(text::lines, (rest,), others),
    ensures
        s@ == first + seq!['\n'] + rest@ && !first.contains('\n') ==> text::views(all@) == seq![
            if first.len() > 0 && first.last() == '\r' {
                first.drop_last()
            } else {
                first
            },
        ] + text::views(others@),
        !s@.contains('\n') && s@.len() > 0 ==> text::views(all@) == seq![s@],
        s@.len() == 0 ==> all@.len() == 0,
{
    let k = CharClass::LineFeed;
    if s@.len() == 0 {
        assert(all@.len() == text::views(all@).len());
    }
    if s@ == first + seq!['\n'] + rest@ && !first.contains('\n') {
        let n = first.len() as int;
        assert forall|i: int| 0 <= i < n implies !k.has(#[trigger] s@[i]) by {
            assert(s@[i] == first[i]);
        }
        assert(s@[n] == '\n');
        text::lemma_until_class(s@, k, n);
        assert(s@.take(n) =~= first);
        assert(s@.skip(n + 1) =~= rest@);
    }
    if !s@.contains('\n') {
        assert forall|i: int| 0 <= i < s@.len() implies !k.has(#[trigger] s@[i]) by {
            assert(s@.contains(s@[i]));
        }
        text::lemma_until_class(s@, k, s@.len() as int);
    }
}

/// A first word, up to the white space behind it, is followed by the words of the rest, and white
/// space in front belongs to no word.
pub proof fn words_come_one_by_one(
    s: &str,
    rest: &str,
    first: Seq<char>,
    gap: char,
    all: Vec<String>,
    others: Vec<String>,
)
    requires
        call_ensures(text::words, (s,), all),
        call_ensures(text::words, (rest,), others),
        forall|i: int| 0 <= i < first.len() ==> !white(#[trigger] first[i]),
        white(gap),
    ensures
        s@ == first + seq![gap] + rest@ && first.len() > 0 ==> text::views(all@) == seq![first]
            + text::views(others@),
        s@ == seq![gap] + rest@ ==> text::views(all@) == text::views(others@),
        s@ == first && first.len() > 0 ==> text::views(all@) == seq![first],
        s@.len() == 0 ==> all@.len() == 0,
{
    let k = CharClass::WhiteSpace;
    lemma_white(gap);
    if s@.len() == 0 {
        assert(all@.len() == text::views(all@).len());
    }
    assert forall|i: int| 0 <= i < first.len() implies !k.has(#[trigger] first[i]) by {
        lemma_white(first[i]);
    }
    if s@ == first + seq![gap] + rest@ && first.len() > 0 {
        let n = first.len() as int;
        assert forall|i: int| 0 <= i < n implies !k.has(#[trigger] s@[i]) by {
            assert(s@[i] == first[i]);
        }
        assert(s@[n] == gap);
        text::lemma_until_class(s@, k, n);
        assert(!k.has(s@[0]));
        assert(s@.take(n) =~= first);
        let tail = s@.skip(n);
        assert(tail[0] == gap);
        assert(tail.drop_first() =~= rest@);
        assert(text::words_of(tail) == text::words_of(rest@));
    }
    if s@ == seq![gap] + rest@ {
        assert(s@[0] == gap);
        assert(s@.drop_first() =~= rest@);
    }
    if s@ == first && first.len() > 0 {
        text::lemma_until_class(s@, k, s@.len() as int);
        assert(!k.has(s@[0]));
    }
}

/// The number that some digits stand for.
pub open spec fn number_of(s: Seq<char>) -> int
    decreases s.len(),
{
    if s.len() == 0 {
        0
    } else {
        10 * number_of(s.drop_last()) + (s.last() as int - '0' as int)
    }
}

/// A number is written with digits that stand for it, and without needless zeros.
pub proof fn numbers_are_written_in_digits(n: u64, r: String)
    requires
        call_ensures(text::decimal, (n,), r),
    ensures
        number_of(r@) == n,
        forall|i: int| 0 <= i < r@.len() ==> '0' <= #[trigger] r@[i] <= '9',
        r@.len() > 0,
        r@.len() > 1 ==> r@[0] != '0',
{
    lemma_decimal(n as nat);
}

/// A number is written with digits that stand for it.
pub proof fn lemma_decimal(n: nat)
    ensures
        ({
            let r = text::decimal_of(n);
            &&& number_of(r) == n
            &&& r.len() > 0
            &&& forall|i: int| 0 <= i < r.len() ==> '0' <= #[trigger] r[i] <= '9'
            &&& n > 0 ==> r[0] != '0'
            &&& r.len() > 1 ==> r[0] != '0'
        }),
    decreases n,
{
    let r = text::decimal_of(n);
    let c = text::digit(n % 10);
    assert(c as int == 48 + n % 10);
    if n < 10 {
        assert(r.drop_last() =~= Seq::empty());
        assert(number_of(r.drop_last()) == 0);
    } else {
        lemma_decimal(n / 10);
        assert(r.drop_last() =~= text::decimal_of(n / 10));
        assert(r[0] == text::decimal_of(n / 10)[0]);
        assert forall|i: int| 0 <= i < r.len() implies '0' <= #[trigger] r[i] <= '9' by {
            if i < r.len() - 1 {
                assert(r[i] == text::decimal_of(n / 10)[i]);
            }
        }
    }
}

/// A text stands before another where, at the first place at which they differ, it has the smaller
/// character or has ended.
pub proof fn texts_are_ordered(a: &str, b: &str, r: bool, n: int)
    requires
        call_ensures(text::comes_before, (a, b), r),
        0 <= n <= a@.len(),
        n <= b@.len(),
        forall|i: int| 0 <= i < n ==> a@[i] == b@[i],
        n < a@.len() && n < b@.len() ==> a@[n] != b@[n],
    ensures
        r == (n < b@.len() && (n == a@.len() || a@[n] < b@[n])),
{
    lemma_order(a@, b@, n);
}

/// A text stands before another by the first place at which they differ.
pub proof fn lemma_order(a: Seq<char>, b: Seq<char>, n: int)
    requires
        0 <= n <= a.len(),
        n <= b.len(),
        forall|i: int| 0 <= i < n ==> a[i] == b[i],
        n < a.len() && n < b.len() ==> a[n] != b[n],
    ensures
        text::precedes(a, b) == (n < b.len() && (n == a.len() || a[n] < b[n])),
    decreases n,
{
    if n > 0 {
        let (x, y) = (a.drop_first(), b.drop_first());
        assert forall|i: int| 0 <= i < n - 1 implies x[i] == y[i] by {
            assert(a[i + 1] == b[i + 1]);
        }
        lemma_order(x, y, n - 1);
    }
}

} // verus!
