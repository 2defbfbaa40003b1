//! Text handling over the characters of a string.
use vstd::prelude::*;
use vstd::string::*;
use vstd::utf8::*;

verus! {

/// `String::push` appends the given character to the end of the string.
pub assume_specification[ String::push ](s: &mut String, c: char)
    ensures
        final(s)@ == old(s)@.push(c),
;

/// The characters with the Unicode property `White_Space`.
pub open spec fn is_white_space(c: char) -> bool {
    let n = c as int;
    ||| 0x9 <= n <= 0xd
    ||| n == 0x20
    ||| n == 0x85
    ||| n == 0xa0
    ||| n == 0x1680
    ||| 0x2000 <= n <= 0x200a
    ||| n == 0x2028
    ||| n == 0x2029
    ||| n == 0x202f
    ||| n == 0x205f
    ||| n == 0x3000
}

/// A kind of character that can be trimmed off the ends of a text.
#[derive(Clone, Copy, Debug, PartialEq, Eq)]
pub enum CharClass {
    WhiteSpace,
    Slash,
    Quote,
    NotInDecimal,
    LineFeed,
    Equals,
    Colon,
}

impl CharClass {
    pub open spec fn has(self, c: char) -> bool {
        match self {
            CharClass::WhiteSpace => is_white_space(c),
            CharClass::Slash => c == '/',
            CharClass::Quote => c == '"',
            CharClass::NotInDecimal => !('0' <= c <= '9' || c == '.'),
            CharClass::LineFeed => c == '\n',
            CharClass::Equals => c == '=',
            CharClass::Colon => c == ':',
        }
    }

    /// Whether `c` is of this kind.
    pub fn test(self, c: char) -> (r: bool)
        ensures
            r == self.has(c),
    {
        match self {
            CharClass::WhiteSpace => {
                let n: u32 = c as u32;
                (0x9 <= n && n <= 0xd) || n == 0x20 || n == 0x85 || n == 0xa0 || n == 0x1680 || (
                0x2000 <= n && n <= 0x200a) || n == 0x2028 || n == 0x2029 || n == 0x202f || n
                    == 0x205f || n == 0x3000
            },
            CharClass::Slash => c == '/',
            CharClass::Quote => c == '"',
            CharClass::NotInDecimal => !(('0' <= c && c <= '9') || c == '.'),
            CharClass::LineFeed => c == '\n',
            CharClass::Equals => c == '=',
            CharClass::Colon => c == ':',
        }
    }
}

/// `s` without the longest run of characters of class `k` at its start.
pub open spec fn trim_start_class(s: Seq<char>, k: CharClass) -> Seq<char>
    decreases s.len(),
{
    if s.len() > 0 && k.has(s[0]) {
        trim_start_class(s.drop_first(), k)
    } else {
        s
    }
}

/// `s` without the longest run of characters of class `k` at its end.
pub open spec fn trim_end_class(s: Seq<char>, k: CharClass) -> Seq<char>
    decreases s.len(),
{
    if s.len() > 0 && k.has(s.last()) {
        trim_end_class(s.drop_last(), k)
    } else {
        s
    }
}

pub open spec fn trim_class(s: Seq<char>, k: CharClass) -> Seq<char> {
    trim_end_class(trim_start_class(s, k), k)
}

/// `s` without white space at either end.
pub open spec fn trimmed(s: Seq<char>) -> Seq<char> {
    trim_class(s, CharClass::WhiteSpace)
}

pub open spec fn lower_char(c: char) -> char {
    if 'A' <= c <= 'Z' {
        (c as u8 + 32) as char
    } else {
        c
    }
}

/// `s` with the letters A to Z replaced by a to z.
pub open spec fn lowered(s: Seq<char>) -> Seq<char> {
    Seq::new(s.len(), |i: int| lower_char(s[i]))
}

/// `pat` occurs in `s` at position `i`.
pub open spec fn occurs_at(s: Seq<char>, pat: Seq<char>, i: int) -> bool {
    0 <= i && i + pat.len() <= s.len() && s.subrange(i, i + pat.len()) == pat
}

pub open spec fn has_text(s: Seq<char>, pat: Seq<char>) -> bool {
    exists|i: int| occurs_at(s, pat, i)
}

/// `s` begins with `pat`.
pub open spec fn begins_with(s: Seq<char>, pat: Seq<char>) -> bool {
    occurs_at(s, pat, 0)
}

/// The characters of `s`.
pub fn chars_of(s: &str) -> (r: Vec<char>)
    ensures
        r@ == s@,
{
    let mut r: Vec<char> = Vec::new();
    for c in it: s.chars()
        invariant
            it.seq() == s@,
            r@ == s@.take(it.index() as int),
    {
        r.push(c);
        assert(s@.take(it.index() + 1) == s@.take(it.index() as int).push(c));
    }
    assert(s@.take(s@.len() as int) == s@);
    r
}

/// The text made of the characters `from` up to `to` of `v`.
pub fn text_of(v: &Vec<char>, from: usize, to: usize) -> (r: String)
    requires
        from <= to <= v@.len(),
    ensures
        r@ == v@.subrange(from as int, to as int),
{
    let mut r = String::new();
    let mut i: usize = from;
    while i < to
        invariant
            from <= i <= to <= v@.len(),
            r@ == v@.subrange(from as int, i as int),
        decreases to - i,
    {
        r.push(v[i]);
        assert(v@.subrange(from as int, i + 1) == v@.subrange(from as int, i as int).push(
            v@[i as int],
        ));
        i += 1;
    }
    r
}

/// Whether two texts hold the same characters.
pub fn same(a: &str, b: &str) -> (r: bool)
    ensures
        r == (a@ == b@),
{
    let x = chars_of(a);
    let y = chars_of(b);
    if x.len() != y.len() {
        return false;
    }
    let mut i: usize = 0;
    while i < x.len()
        invariant
            i <= x@.len() == y@.len(),
            x@ == a@,
            y@ == b@,
            forall|j: int| 0 <= j < i ==> x@[j] == y@[j],
        decreases x@.len() - i,
    {
        if x[i] != y[i] {
            return false;
        }
        i += 1;
    }
    assert(a@ =~= b@);
    true
}

/// Cutting `n` leading characters of class `k` before one that is not is trimming the start.
proof fn lemma_trim_start(s: Seq<char>, k: CharClass, n: int)
    requires
        0 <= n <= s.len(),
        forall|i: int| 0 <= i < n ==> k.has(#[trigger] s[i]),
        n < s.len() ==> !k.has(s[n]),
    ensures
        trim_start_class(s, k) == s.subrange(n, s.len() as int),
    decreases n,
{
    if n > 0 {
        assert(k.has(s[0]));
        let t = s.drop_first();
        assert forall|i: int| 0 <= i < n - 1 implies k.has(#[trigger] t[i]) by {
            assert(t[i] == s[i + 1]);
        }
        lemma_trim_start(t, k, n - 1);
        assert(t.subrange(n - 1, t.len() as int) == s.subrange(n, s.len() as int));
    } else {
        assert(s.subrange(0, s.len() as int) == s);
    }
}

/// Keeping `n` characters, the rest being of class `k` and the last kept one not, is trimming
/// the end.
proof fn lemma_trim_end(s: Seq<char>, k: CharClass, n: int)
    requires
        0 <= n <= s.len(),
        forall|i: int| n <= i < s.len() ==> k.has(#[trigger] s[i]),
        n > 0 ==> !k.has(s[n - 1]),
    ensures
        trim_end_class(s, k) == s.subrange(0, n),
    decreases s.len() - n,
{
    if n < s.len() {
        assert(k.has(s.last()));
        let t = s.drop_last();
        assert forall|i: int| n <= i < t.len() implies k.has(#[trigger] t[i]) by {
            assert(t[i] == s[i]);
        }
        lemma_trim_end(t, k, n);
        assert(t.subrange(0, n) == s.subrange(0, n));
    } else {
        assert(s.subrange(0, n) == s);
    }
}

proof fn lemma_trim_end_kept(s: Seq<char>, k: CharClass)
    ensures
        ({
            let r = trim_end_class(s, k);
            &&& r.len() <= s.len() && r == s.take(r.len() as int)
            &&& r.len() > 0 ==> !k.has(r.last())
        }),
    decreases s.len(),
{
    if s.len() > 0 && k.has(s.last()) {
        lemma_trim_end_kept(s.drop_last(), k);
        let n = trim_end_class(s, k).len() as int;
        assert(s.drop_last().take(n) =~= s.take(n));
    } else {
        assert(s.take(s.len() as int) =~= s);
    }
}

proof fn lemma_trim_start_kept(s: Seq<char>, k: CharClass)
    ensures
        trim_start_class(s, k).len() > 0 ==> !k.has(trim_start_class(s, k)[0]),
    decreases s.len(),
{
    if s.len() > 0 && k.has(s[0]) {
        lemma_trim_start_kept(s.drop_first(), k);
    }
}

/// What was trimmed is not trimmed further.
pub proof fn trimming_is_done_once(s: Seq<char>, k: CharClass)
    ensures
        trim_class(trim_class(s, k), k) == trim_class(s, k),
{
    lemma_trim_start_kept(s, k);
    lemma_trim_end_kept(trim_start_class(s, k), k);
}

fn trim_end_chars(v: &Vec<char>, k: CharClass, from: usize) -> (to: usize)
    requires
        from <= v@.len(),
    ensures
        from <= to <= v@.len(),
        trim_end_class(v@.subrange(from as int, v@.len() as int), k) == v@.subrange(
            from as int,
            to as int,
        ),
{
    let mut to: usize = v.len();
    while to > from && k.test(v[to - 1])
        invariant
            from <= to <= v@.len(),
            forall|i: int| to <= i < v@.len() ==> k.has(#[trigger] v@[i]),
        decreases to,
    {
        to -= 1;
    }
    proof {
        let s = v@.subrange(from as int, v@.len() as int);
        assert forall|i: int| to - from <= i < s.len() implies k.has(#[trigger] s[i]) by {
            assert(s[i] == v@[i + from]);
        }
        lemma_trim_end(s, k, to - from);
        assert(s.subrange(0, to - from) == v@.subrange(from as int, to as int));
    }
    to
}

/// Trims the characters of class `k` off both ends.
pub fn trim_both(s: &str, k: CharClass) -> (r: String)
    ensures
        r@ == trim_class(s@, k),
{
    let v = chars_of(s);
    let mut from: usize = 0;
    while from < v.len() && k.test(v[from])
        invariant
            from <= v@.len(),
            forall|i: int| 0 <= i < from ==> k.has(#[trigger] v@[i]),
        decreases v@.len() - from,
    {
        from += 1;
    }
    proof {
        lemma_trim_start(v@, k, from as int);
    }
    let to: usize = trim_end_chars(&v, k, from);
    text_of(&v, from, to)
}

/// Trims the characters of class `k` off the end.
pub fn trim_tail(s: &str, k: CharClass) -> (r: String)
    ensures
        r@ == trim_end_class(s@, k),
{
    let v = chars_of(s);
    let to: usize = trim_end_chars(&v, k, 0);
    assert(v@.subrange(0, v@.len() as int) == v@);
    text_of(&v, 0, to)
}

/// Trims the characters of class `k` off the start.
pub fn trim_head(s: &str, k: CharClass) -> (r: String)
    ensures
        r@ == trim_start_class(s@, k),
{
    let v = chars_of(s);
    let mut from: usize = 0;
    while from < v.len() && k.test(v[from])
        invariant
            from <= v@.len(),
            forall|i: int| 0 <= i < from ==> k.has(#[trigger] v@[i]),
        decreases v@.len() - from,
    {
        from += 1;
    }
    proof {
        lemma_trim_start(v@, k, from as int);
    }
    let to: usize = v.len();
    text_of(&v, from, to)
}

/// Trims white space off both ends.
pub fn trim(s: &str) -> (r: String)
    ensures
        r@ == trimmed(s@),
{
    trim_both(s, CharClass::WhiteSpace)
}

/// Whether nothing is left of `s` after trimming.
pub fn is_blank(s: &str) -> (r: bool)
    ensures
        r == (trimmed(s@).len() == 0),
{
    trim(s).as_str().is_empty()
}

/// Replaces the letters A to Z by a to z.
pub fn lowercase(s: &str) -> (r: String)
    ensures
        r@ == lowered(s@),
{
    let v = chars_of(s);
    let mut r = String::new();
    let mut i: usize = 0;
    while i < v.len()
        invariant
            i <= v@.len(),
            r@ == lowered(v@.subrange(0, i as int)),
        decreases v@.len() - i,
    {
        let c = v[i];
        if 'A' <= c && c <= 'Z' {
            r.push((c as u8 + 32) as char);
        } else {
            r.push(c);
        }
        assert(lowered(v@.subrange(0, i + 1)) == lowered(v@.subrange(0, i as int)).push(
            lower_char(c),
        ));
        i += 1;
    }
    assert(v@.subrange(0, i as int) == v@);
    r
}

fn occurs_here(v: &Vec<char>, pat: &Vec<char>, at: usize) -> (r: bool)
    requires
        at <= v@.len(),
    ensures
        r == occurs_at(v@, pat@, at as int),
{
    let n: usize = v.len();
    if n - at < pat.len() {
        return false;
    }
    let mut i: usize = 0;
    while i < pat.len()
        invariant
            n == v@.len(),
            at + pat@.len() <= v@.len(),
            i <= pat@.len(),
            forall|j: int| 0 <= j < i ==> v@[at + j] == pat@[j],
        decreases pat@.len() - i,
    {
        if v[at + i] != pat[i] {
            assert(v@.subrange(at as int, at + pat@.len())[i as int] != pat@[i as int]);
            return false;
        }
        i += 1;
    }
    assert(v@.subrange(at as int, at + pat@.len()) =~= pat@);
    true
}

/// Whether `pat` occurs in `s`.
pub fn contains(s: &str, pat: &str) -> (r: bool)
    ensures
        r == has_text(s@, pat@),
{
    let v = chars_of(s);
    let p = chars_of(pat);
    let n: usize = v.len();
    let mut i: usize = 0;
    while i < n
        invariant
            v@ == s@,
            p@ == pat@,
            i <= n == v@.len(),
            forall|j: int| 0 <= j < i ==> !occurs_at(v@, p@, j),
        decreases n - i,
    {
        if occurs_here(&v, &p, i) {
            return true;
        }
        i += 1;
    }
    occurs_here(&v, &p, n)
}

/// Whether `s` begins with `pat`.
pub fn starts_with(s: &str, pat: &str) -> (r: bool)
    ensures
        r == begins_with(s@, pat@),
{
    let v = chars_of(s);
    let p = chars_of(pat);
    occurs_here(&v, &p, 0)
}

/// The characters of each text.
pub open spec fn views(v: Seq<String>) -> Seq<Seq<char>> {
    Seq::new(v.len(), |i: int| v[i]@)
}

/// How many characters stand before the first one of class `k`.
pub open spec fn until_class(s: Seq<char>, k: CharClass) -> nat
    decreases s.len(),
{
    if s.len() == 0 || k.has(s[0]) {
        0
    } else {
        1 + until_class(s.drop_first(), k)
    }
}

/// `until_class` is the position of the first character of class `k`, or the length.
pub proof fn lemma_until_class(s: Seq<char>, k: CharClass, n: int)
    requires
        0 <= n <= s.len(),
        forall|i: int| 0 <= i < n ==> !k.has(#[trigger] s[i]),
        n < s.len() ==> k.has(s[n]),
    ensures
        until_class(s, k) == n,
    decreases n,
{
    if n > 0 {
        assert(!k.has(s[0]));
        let t = s.drop_first();
        assert forall|i: int| 0 <= i < n - 1 implies !k.has(#[trigger] t[i]) by {
            assert(t[i] == s[i + 1]);
        }
        lemma_until_class(t, k, n - 1);
    }
}

/// `until_class` never passes the end.
pub proof fn lemma_until_class_bound(s: Seq<char>, k: CharClass)
    ensures
        until_class(s, k) <= s.len(),
    decreases s.len(),
{
    if s.len() > 0 && !k.has(s[0]) {
        lemma_until_class_bound(s.drop_first(), k);
    }
}

/// The position of the first character of class `k` at or after `from`, or the length.
fn find_class(v: &Vec<char>, k: CharClass, from: usize) -> (to: usize)
    requires
        from <= v@.len(),
    ensures
        from <= to <= v@.len(),
        to - from == until_class(v@.skip(from as int), k),
        to < v@.len() ==> k.has(v@[to as int]),
{
    let mut to: usize = from;
    while to < v.len() && !k.test(v[to])
        invariant
            from <= to <= v@.len(),
            forall|i: int| from <= i < to ==> !k.has(#[trigger] v@[i]),
        decreases v@.len() - to,
    {
        to += 1;
    }
    proof {
        let s = v@.skip(from as int);
        assert forall|i: int| 0 <= i < to - from implies !k.has(#[trigger] s[i]) by {
            assert(s[i] == v@[from + i]);
        }
        lemma_until_class(s, k, to - from);
    }
    to
}

/// A line without the carriage return before its line feed.
pub open spec fn without_cr(s: Seq<char>) -> Seq<char> {
    if s.len() > 0 && s.last() == '\r' {
        s.drop_last()
    } else {
        s
    }
}

/// The lines of `s`: each ends with a line feed or a carriage return and a line feed, which are
/// not part of it. The last line may lack the line feed, and then keeps all its characters.
pub open spec fn lines_of(s: Seq<char>) -> Seq<Seq<char>>
    decreases s.len(),
{
    if s.len() == 0 {
        Seq::empty()
    } else {
        let n = until_class(s, CharClass::LineFeed) as int;
        if n >= s.len() {
            seq![s]
        } else {
            seq![without_cr(s.take(n))] + lines_of(s.skip(n + 1))
        }
    }
}

/// The maximal runs of characters other than white space.
pub open spec fn words_of(s: Seq<char>) -> Seq<Seq<char>>
    decreases s.len(),
{
    if s.len() == 0 {
        Seq::empty()
    } else if is_white_space(s[0]) {
        words_of(s.drop_first())
    } else {
        let n = until_class(s, CharClass::WhiteSpace) as int;
        if n >= s.len() {
            seq![s]
        } else {
            seq![s.take(n)] + words_of(s.skip(n))
        }
    }
}

/// Splits a text into lines.
pub fn lines(s: &str) -> (r: Vec<String>)
    ensures
        views(r@) == lines_of(s@),
{
    let v = chars_of(s);
    let n: usize = v.len();
    let mut r: Vec<String> = Vec::new();
    let mut at: usize = 0;
    assert(v@.skip(0) == v@);
    assert(views(r@) + lines_of(v@) == lines_of(v@));
    while at < n
        invariant
            n == v@.len(),
            at <= n,
            v@ == s@,
            views(r@) + lines_of(v@.skip(at as int)) == lines_of(s@),
        decreases n - at,
    {
        let ghost rest = v@.skip(at as int);
        let ghost before = r@;
        let end: usize = find_class(&v, CharClass::LineFeed, at);
        let line: String;
        let next: usize;
        if end == n {
            line = text_of(&v, at, end);
            next = n;
            assert(line@ == rest);
            assert(lines_of(rest) == seq![line@]);
            assert(lines_of(v@.skip(n as int)) == Seq::<Seq<char>>::empty());
        } else {
            let cut: usize = if end > at && v[end - 1] == '\r' {
                end - 1
            } else {
                end
            };
            line = text_of(&v, at, cut);
            next = end + 1;
            assert(rest.take(end - at) == v@.subrange(at as int, end as int));
            assert(line@ == without_cr(rest.take(end - at)));
            assert(rest.skip(end - at + 1) == v@.skip(end + 1));
            assert(lines_of(rest) == seq![line@] + lines_of(v@.skip(next as int)));
        }
        r.push(line);
        at = next;
        assert(views(r@) == views(before) + seq![line@]);
        assert(views(before) + lines_of(rest) == views(r@) + lines_of(v@.skip(at as int)));
    }
    assert(lines_of(v@.skip(n as int)) == Seq::<Seq<char>>::empty());
    assert(views(r@) + Seq::<Seq<char>>::empty() == views(r@));
    r
}

/// Splits a text into its words.
pub fn words(s: &str) -> (r: Vec<String>)
    ensures
        views(r@) == words_of(s@),
{
    let v = chars_of(s);
    let n: usize = v.len();
    let mut r: Vec<String> = Vec::new();
    let mut at: usize = 0;
    assert(v@.skip(0) == v@);
    assert(views(r@) + words_of(v@) == words_of(v@));
    while at < n
        invariant
            n == v@.len(),
            at <= n,
            v@ == s@,
            views(r@) + words_of(v@.skip(at as int)) == words_of(s@),
        decreases n - at,
    {
        let ghost rest = v@.skip(at as int);
        if CharClass::WhiteSpace.test(v[at]) {
            assert(rest.drop_first() == v@.skip(at + 1));
            at += 1;
        } else {
            let ghost before = r@;
            let end: usize = find_class(&v, CharClass::WhiteSpace, at);
            let word = text_of(&v, at, end);
            assert(rest.take(end - at) == word@);
            assert(rest.skip(end - at) == v@.skip(end as int));
            assert(rest.take(rest.len() as int) == rest);
            assert(words_of(v@.skip(n as int)) == Seq::<Seq<char>>::empty());
            assert(words_of(rest) == seq![word@] + words_of(v@.skip(end as int)));
            r.push(word);
            at = end;
            assert(views(r@) == views(before) + seq![word@]);
            assert(views(before) + words_of(rest) == views(r@) + words_of(v@.skip(at as int)));
        }
    }
    assert(words_of(v@.skip(n as int)) == Seq::<Seq<char>>::empty());
    assert(views(r@) + Seq::<Seq<char>>::empty() == views(r@));
    r
}

/// The text after the first character of class `k`, if there is one.
pub open spec fn after_class(s: Seq<char>, k: CharClass) -> Option<Seq<char>> {
    let n = until_class(s, k) as int;
    if n < s.len() {
        Some(s.skip(n + 1))
    } else {
        None
    }
}

/// The text after the first character of class `k`, if there is one.
pub fn split_after(s: &str, k: CharClass) -> (r: Option<String>)
    ensures
        match r {
            Some(t) => after_class(s@, k) == Some(t@),
            None => after_class(s@, k) is None,
        },
{
    let v = chars_of(s);
    let n: usize = v.len();
    let at: usize = find_class(&v, k, 0);
    assert(v@.skip(0) == v@);
    if at < n {
        assert(v@.skip(at + 1) == v@.subrange(at + 1, n as int));
        Some(text_of(&v, at + 1, n))
    } else {
        None
    }
}

/// The text after `pat`, where `s` begins with `pat`.
pub fn strip_prefix(s: &str, pat: &str) -> (r: Option<String>)
    ensures
        match r {
            Some(t) => begins_with(s@, pat@) && s@ == pat@ + t@,
            None => !begins_with(s@, pat@),
        },
{
    let v = chars_of(s);
    let p = chars_of(pat);
    if occurs_here(&v, &p, 0) {
        let n: usize = v.len();
        let t = text_of(&v, p.len(), n);
        assert(s@ == s@.subrange(0, pat@.len() as int) + s@.subrange(pat@.len() as int, n as int));
        Some(t)
    } else {
        None
    }
}

/// `a` followed by `b`.
pub fn join(a: &str, b: &str) -> (r: String)
    ensures
        r@ == a@ + b@,
{
    let mut r = a.to_owned();
    r.append(b);
    r
}

/// The character for a digit.
pub open spec fn digit(n: nat) -> char {
    (48 + n) as char
}

/// `n` in decimal.
pub open spec fn decimal_of(n: nat) -> Seq<char>
    decreases n,
{
    if n < 10 {
        seq![digit(n)]
    } else {
        decimal_of(n / 10).push(digit(n % 10))
    }
}

/// Writes `n` in decimal.
pub fn decimal(n: u64) -> (r: String)
    ensures
        r@ == decimal_of(n as nat),
    decreases n,
{
    let c = (48 + (n % 10) as u8) as char;
    let mut r = if n < 10 {
        String::new()
    } else {
        decimal(n / 10)
    };
    r.push(c);
    assert(Seq::<char>::empty().push(c) =~= seq![c]);
    r
}

/// `String::from_utf8` decodes bytes that are valid UTF-8, and fails on others.
#[verifier::external_body]
pub(crate) fn utf8_text(bytes: Vec<u8>) -> (r: Option<String>)
    ensures
        match r {
            Some(s) => valid_utf8(bytes@) && s@ == decode_utf8(bytes@),
            None => !valid_utf8(bytes@),
        },
{
    String::from_utf8(bytes).ok()
}

/// `a` stands before `b` in the order of texts: by the first character in which they differ, the
/// shorter one first where there is none.
pub open spec fn precedes(a: Seq<char>, b: Seq<char>) -> bool
    decreases a.len(),
{
    if b.len() == 0 {
        false
    } else if a.len() == 0 {
        true
    } else if a[0] == b[0] {
        precedes(a.drop_first(), b.drop_first())
    } else {
        a[0] < b[0]
    }
}

/// Of two texts exactly one stands before the other, unless they are the same.
pub proof fn lemma_precedes_total(a: Seq<char>, b: Seq<char>)
    ensures
        a == b ==> !precedes(a, b) && !precedes(b, a),
        a != b ==> precedes(a, b) == !precedes(b, a),
    decreases a.len(),
{
    if a.len() > 0 && b.len() > 0 && a[0] == b[0] {
        lemma_precedes_total(a.drop_first(), b.drop_first());
        if a.drop_first() == b.drop_first() {
            assert(a =~= seq![a[0]] + a.drop_first());
            assert(b =~= seq![b[0]] + b.drop_first());
        }
    } else if a.len() == 0 && b.len() == 0 {
        assert(a =~= b);
    }
}

/// The order of texts is transitive.
pub proof fn lemma_precedes_transitive(a: Seq<char>, b: Seq<char>, c: Seq<char>)
    requires
        precedes(a, b),
        precedes(b, c),
    ensures
        precedes(a, c),
    decreases a.len(),
{
    if a.len() > 0 && a[0] == b[0] && b[0] == c[0] {
        lemma_precedes_transitive(a.drop_first(), b.drop_first(), c.drop_first());
    }
}

proof fn lemma_precedes_at(a: Seq<char>, b: Seq<char>, k: int)
    requires
        0 <= k <= a.len(),
        k <= b.len(),
        forall|i: int| 0 <= i < k ==> a[i] == b[i],
    ensures
        precedes(a, b) == precedes(a.skip(k), b.skip(k)),
    decreases k,
{
    if k > 0 {
        let x = a.drop_first();
        let y = b.drop_first();
        assert forall|i: int| 0 <= i < k - 1 implies x[i] == y[i] by {
            assert(a[i + 1] == b[i + 1]);
        }
        assert(a[0] == b[0]);
        lemma_precedes_at(x, y, k - 1);
        assert(x.skip(k - 1) =~= a.skip(k));
        assert(y.skip(k - 1) =~= b.skip(k));
    } else {
        assert(a.skip(0) =~= a);
        assert(b.skip(0) =~= b);
    }
}

/// Whether `a` stands before `b` in the order of texts.
pub fn comes_before(a: &str, b: &str) -> (r: bool)
    ensures
        r == precedes(a@, b@),
{
    let x = chars_of(a);
    let y = chars_of(b);
    let mut i: usize = 0;
    while i < x.len() && i < y.len() && x[i] == y[i]
        invariant
            x@ == a@,
            y@ == b@,
            i <= x@.len(),
            i <= y@.len(),
            forall|j: int| 0 <= j < i ==> x@[j] == y@[j],
        decreases x@.len() - i,
    {
        i += 1;
    }
    proof {
        lemma_precedes_at(a@, b@, i as int);
    }
    if i >= y.len() {
        false
    } else if i >= x.len() {
        true
    } else {
        x[i] < y[i]
    }
}

/// Texts in order, none twice.
pub open spec fn is_sorted(v: Seq<String>) -> bool {
    forall|i: int, j: int|
        0 <= i < j < v.len() ==> precedes(#[trigger] v[i]@, #[trigger] v[j]@)
}

/// Puts a text into its place among texts in order, unless it is there already.
pub fn insert_sorted(v: &mut Vec<String>, s: String)
    requires
        is_sorted(old(v)@),
    ensures
        is_sorted(final(v)@),
        forall|t: Seq<char>| #[trigger]
            views(final(v)@).contains(t) <==> views(old(v)@).contains(t) || t == s@,
{
    let ghost before = v@;
    let mut i: usize = 0;
    while i < v.len() && comes_before(v[i].as_str(), s.as_str())
        invariant
            v@ == before,
            i <= v@.len(),
            forall|j: int| 0 <= j < i ==> precedes(#[trigger] v@[j]@, s@),
        decreases v@.len() - i,
    {
        i += 1;
    }
    if i < v.len() && same(v[i].as_str(), s.as_str()) {
        assert(views(before)[i as int] == s@);
        return ;
    }
    proof {
        if i < before.len() {
            lemma_precedes_total(before[i as int]@, s@);
        }
    }
    let ghost added = s@;
    v.insert(i, s);
    proof {
        let after = v@;
        assert forall|a: int, b: int| 0 <= a < b < after.len() implies precedes(
            #[trigger] after[a]@,
            #[trigger] after[b]@,
        ) by {
            let x = if a < i { a } else { a - 1 };
            let y = if b < i { b } else { b - 1 };
            if a != i && b != i {
                assert(precedes(before[x]@, before[y]@));
            } else if b == i {
                assert(precedes(before[a]@, added));
            } else if b == i + 1 {
                assert(precedes(added, before[i as int]@));
            } else {
                assert(precedes(before[i as int]@, before[y]@));
                lemma_precedes_transitive(added, before[i as int]@, before[y]@);
            }
        }
        assert forall|t: Seq<char>| #[trigger] views(after).contains(t) <==> views(before).contains(
            t,
        ) || t == added by {
            if views(before).contains(t) {
                let k = choose|k: int| 0 <= k < before.len() && views(before)[k] == t;
                if k < i {
                    assert(views(after)[k] == t);
                } else {
                    assert(views(after)[k + 1] == t);
                }
            }
            assert(views(after)[i as int] == added);
            if views(after).contains(t) {
                let k = choose|k: int| 0 <= k < after.len() && views(after)[k] == t;
                if k < i {
                    assert(views(before)[k] == t);
                } else if k > i {
                    assert(views(before)[k - 1] == t);
                }
            }
        }
    }
}

} // verus!
