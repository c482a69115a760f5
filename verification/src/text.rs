//! Texts: comparing, replacing, splitting and searching.
use vstd::prelude::*;
use vstd::utf8::*;

verus! {

/// Appends one character; `String::push` does just that.
pub assume_specification[ String::push ](s: &mut String, c: char)
    ensures
        final(s)@ == old(s)@.push(c),
;

/// The characters of a text that may be missing.
pub open spec fn optional(s: Option<String>) -> Option<Seq<char>> {
    match s {
        Some(s) => Some(s@),
        None => None,
    }
}

/// The characters of a borrowed text that may be missing.
pub open spec fn optional_str(s: Option<&str>) -> Option<Seq<char>> {
    match s {
        Some(s) => Some(s@),
        None => None,
    }
}

/// Borrows a text that may be missing.
pub(crate) fn borrowed(s: &Option<String>) -> (r: Option<&str>)
    ensures
        optional_str(r) == optional(*s),
{
    match s {
        Some(s) => Some(s.as_str()),
        None => None,
    }
}

/// Copies a borrowed text that may be missing.
pub(crate) fn owned(s: Option<&str>) -> (r: Option<String>)
    ensures
        optional(r) == optional_str(s),
{
    match s {
        Some(s) => Some(s.to_owned()),
        None => None,
    }
}

/// Whether two texts hold the same characters.
pub fn same_text(a: &str, b: &str) -> (r: bool)
    ensures
        r == (a@ == b@),
{
    let x = a.as_bytes();
    let y = b.as_bytes();
    proof {
        encode_utf8_decode_utf8(a@);
        encode_utf8_decode_utf8(b@);
    }
    if x.len() != y.len() {
        return false;
    }
    let mut i: usize = 0;
    while i < x.len()
        invariant
            i <= x.len(),
            x.len() == y.len(),
            forall|k: int| 0 <= k < i ==> x@[k] == y@[k],
            x@ == encode_utf8(a@),
            y@ == encode_utf8(b@),
        decreases x.len() - i,
    {
        if x[i] != y[i] {
            return false;
        }
        i = i + 1;
    }
    assert(x@ =~= y@);
    true
}

/// The text with every `from` replaced by `to`.
pub open spec fn replaced(s: Seq<char>, from: char, to: Seq<char>) -> Seq<char>
    decreases s.len(),
{
    if s.len() == 0 {
        Seq::empty()
    } else {
        replaced(s.drop_last(), from, to) + (if s.last() == from {
            to
        } else {
            seq![s.last()]
        })
    }
}

/// Replaces every `from` by `to`.
pub fn replace_char(s: &str, from: char, to: &str) -> (r: String)
    ensures
        r@ == replaced(s@, from, to@),
{
    let mut out = String::new();
    for c in it: s.chars()
        invariant
            it.seq() == s@,
            out@ == replaced(s@.take(it.index()), from, to@),
    {
        proof {
            assert(s@.take(it.index() + 1).drop_last() =~= s@.take(it.index()));
        }
        if c == from {
            out.append(to);
        } else {
            out.push(c);
        }
    }
    assert(s@.take(s@.len() as int) =~= s@);
    out
}

/// How many characters stand before the first line feed (all of them where there is none).
pub open spec fn line_end(s: Seq<char>) -> int
    decreases s.len(),
{
    if s.len() == 0 || s[0] == '\n' {
        0
    } else {
        1 + line_end(s.drop_first())
    }
}

/// A line without the carriage return that belongs to its line feed.
pub open spec fn without_return(line: Seq<char>) -> Seq<char> {
    if line.len() > 0 && line.last() == '\r' {
        line.drop_last()
    } else {
        line
    }
}

/// The lines of a text. A line ends with `\n` or `\r\n`, which is no part of it; the end of the
/// last line may be missing.
pub open spec fn lines(s: Seq<char>) -> Seq<Seq<char>>
    decreases s.len(),
{
    let n = line_end(s);
    if s.len() == 0 {
        Seq::empty()
    } else if n < 0 || n >= s.len() {
        seq![s]
    } else {
        seq![without_return(s.take(n))] + lines(s.skip(n + 1))
    }
}

proof fn lemma_line_end(s: Seq<char>, n: int)
    requires
        0 <= n <= s.len(),
        forall|k: int| 0 <= k < n ==> s[k] != '\n',
        n == s.len() || s[n] == '\n',
    ensures
        line_end(s) == n,
    decreases s.len(),
{
    if n > 0 {
        lemma_line_end(s.drop_first(), n - 1);
    }
}

proof fn lemma_line_end_is_first(s: Seq<char>)
    ensures
        0 <= line_end(s) <= s.len(),
        forall|k: int| 0 <= k < line_end(s) ==> s[k] != '\n',
        line_end(s) == s.len() || s[line_end(s)] == '\n',
    decreases s.len(),
{
    if s.len() > 0 && s[0] != '\n' {
        let rest = s.drop_first();
        lemma_line_end_is_first(rest);
        assert forall|k: int| 0 <= k < line_end(s) implies s[k] != '\n' by {
            if k > 0 {
                assert(rest[k - 1] != '\n');
            }
        }
    }
}

/// Whether a text consists of whole lines: it is empty, or its last line is ended.
pub open spec fn whole_lines(s: Seq<char>) -> bool {
    s.len() == 0 || s.last() == '\n'
}

/// What is written behind whole lines leaves them as they are and adds its own lines.
pub proof fn law_lines_append(before: Seq<char>, after: Seq<char>)
    requires
        before.len() == 0 || before.last() == '\n',
    ensures
        lines(before + after) == lines(before) + lines(after),
    decreases before.len(),
{
    let both = before + after;
    if before.len() == 0 {
        assert(both =~= after);
        assert(lines(before) + lines(after) =~= lines(after));
    } else {
        lemma_line_end_is_first(before);
        let n = line_end(before);
        lemma_line_end(both, n);
        let rest = before.skip(n + 1);
        law_lines_append(rest, after);
        assert(both.take(n) =~= before.take(n));
        assert(both.skip(n + 1) =~= rest + after);
        let first = seq![without_return(before.take(n))];
        assert(first + (lines(rest) + lines(after)) =~= (first + lines(rest)) + lines(after));
    }
}

/// The characters of each text.
pub open spec fn texts(v: Seq<String>) -> Seq<Seq<char>> {
    v.map_values(|s: String| s@)
}

/// Splits a text into its lines.
pub fn split_lines(s: &str) -> (r: Vec<String>)
    ensures
        texts(r@) == lines(s@),
{
    let mut out: Vec<String> = Vec::new();
    let mut cur = String::new();
    let mut held_return = false;
    let ghost mut start: int = 0;
    proof {
        assert(s@.skip(0) =~= s@);
        assert(texts(out@) + lines(s@) =~= lines(s@));
    }
    for c in it: s.chars()
        invariant
            it.seq() == s@,
            0 <= start <= it.index() <= s@.len(),
            s@.subrange(start, it.index()) == (if held_return {
                cur@.push('\r')
            } else {
                cur@
            }),
            !held_return ==> without_return(cur@) == cur@,
            forall|k: int| start <= k < it.index() ==> s@[k] != '\n',
            lines(s@) == texts(out@) + lines(s@.skip(start)),
    {
        let ghost i = it.index();
        let ghost before = s@.subrange(start, i);
        proof {
            assert(s@[i] == c);
            assert(s@.subrange(start, i + 1) =~= before.push(c));
        }
        if c == '\n' {
            let ghost rest = s@.skip(start);
            let ghost done = out@;
            let line = cur;
            out.push(line);
            cur = String::new();
            held_return = false;
            proof {
                lemma_line_end(rest, i - start);
                assert(rest.take(i - start) =~= before);
                assert(rest.skip(i - start + 1) =~= s@.skip(i + 1));
                assert(without_return(before) =~= line@);
                assert(texts(out@) =~= texts(done).push(line@));
                assert(texts(done) + (seq![line@] + lines(s@.skip(i + 1))) =~= texts(done).push(line@)
                    + lines(s@.skip(i + 1)));
                start = i + 1;
                assert(s@.subrange(start, i + 1) =~= Seq::<char>::empty());
                assert(cur@ =~= Seq::<char>::empty());
            }
        } else {
            if held_return {
                cur.push('\r');
            }
            held_return = c == '\r';
            if !held_return {
                cur.push(c);
            }
        }
    }
    let ghost rest = s@.skip(start);
    proof {
        assert(rest =~= s@.subrange(start, s@.len() as int));
    }
    if held_return {
        cur.push('\r');
    }
    if !cur.as_str().is_empty() {
        let ghost done = out@;
        out.push(cur);
        proof {
            lemma_line_end(rest, rest.len() as int);
            assert(texts(out@) =~= texts(done) + seq![rest]);
        }
    } else {
        proof {
            assert(texts(out@) + lines(rest) =~= texts(out@));
        }
    }
    out
}

/// Whether `term` occurs in `text`.
pub open spec fn occurs(term: Seq<char>, text: Seq<char>) -> bool {
    exists|i: int| 0 <= i <= text.len() - term.len() && #[trigger] text.subrange(i, i + term.len()) == term
}

fn chars_of(s: &str) -> (r: Vec<char>)
    ensures
        r@ == s@,
{
    let mut out: Vec<char> = Vec::new();
    for c in it: s.chars()
        invariant
            it.seq() == s@,
            out@ == s@.take(it.index()),
    {
        out.push(c);
    }
    out
}

/// Whether `term` stands in `text` from position `at` on.
fn stands_at(term: &Vec<char>, text: &Vec<char>, at: usize) -> (r: bool)
    requires
        at + term@.len() <= text@.len(),
    ensures
        r == (text@.subrange(at as int, at + term@.len()) == term@),
{
    let size: usize = text.len();
    let mut k: usize = 0;
    while k < term.len()
        invariant
            k <= term@.len(),
            size == text@.len(),
            at + term@.len() <= text@.len(),
            forall|j: int| 0 <= j < k ==> text@[at + j] == term@[j],
        decreases term@.len() - k,
    {
        if text[at + k] != term[k] {
            assert(text@.subrange(at as int, at + term@.len())[k as int] != term@[k as int]);
            return false;
        }
        k = k + 1;
    }
    assert(text@.subrange(at as int, at + term@.len()) =~= term@);
    true
}

/// Searches `text` for `term`.
pub fn contains_term(text: &str, term: &str) -> (r: bool)
    ensures
        r == occurs(term@, text@),
{
    let hay = chars_of(text);
    let needle = chars_of(term);
    if needle.len() > hay.len() {
        return false;
    }
    let last: usize = hay.len() - needle.len();
    let mut i: usize = 0;
    while i <= last
        invariant
            hay@ == text@,
            needle@ == term@,
            needle@.len() <= hay@.len(),
            last == hay@.len() - needle@.len(),
            i <= last + 1,
            forall|j: int| 0 <= j < i ==> #[trigger] hay@.subrange(j, j + needle@.len()) != needle@,
        decreases last + 1 - i,
    {
        if stands_at(&needle, &hay, i) {
            return true;
        }
        if i == last {
            return false;
        }
        i = i + 1;
    }
    false
}

/// A text in lower case, by Unicode's rules.
pub uninterp spec fn lowercase(s: Seq<char>) -> Seq<char>;

/// The letters `A` to `Z` in lower case, any other character as it is.
pub open spec fn ascii_lowercase(c: char) -> char {
    if 'A' <= c <= 'Z' {
        (c as u32 + 32) as char
    } else {
        c
    }
}

/// `str::to_lowercase`. The result is named; of a text that is all ASCII it is also said that
/// the letters `A` to `Z` become `a` to `z` and nothing else changes.
#[verifier::external_body]
pub(crate) fn to_lowercase(s: &str) -> (r: String)
    ensures
        r@ == lowercase(s@),
        is_ascii_chars(s@) ==> r@ == s@.map_values(|c: char| ascii_lowercase(c)),
{
    s.to_lowercase()
}

/// The first half of a pair of UTF-16 code units.
pub open spec fn is_high_surrogate(unit: u16) -> bool {
    0xd800 <= unit <= 0xdbff
}

/// The second half of a pair of UTF-16 code units.
pub open spec fn is_low_surrogate(unit: u16) -> bool {
    0xdc00 <= unit <= 0xdfff
}

/// The text that UTF-16 code units spell. A unit that is no surrogate is one character, and so is
/// a high surrogate with the low one behind it; any other surrogate is U+FFFD.
pub open spec fn utf16_text(units: Seq<u16>) -> Seq<char>
    decreases units.len(),
{
    if units.len() == 0 {
        Seq::empty()
    } else if !is_high_surrogate(units[0]) && !is_low_surrogate(units[0]) {
        seq![units[0] as char] + utf16_text(units.skip(1))
    } else if is_high_surrogate(units[0]) && units.len() > 1 && is_low_surrogate(units[1]) {
        seq![(0x10000 + (units[0] - 0xd800) * 0x400 + (units[1] - 0xdc00)) as char] + utf16_text(
            units.skip(2),
        )
    } else {
        seq!['\u{fffd}'] + utf16_text(units.skip(1))
    }
}

/// Without surrogates each unit is one character.
pub proof fn lemma_utf16_plain(units: Seq<u16>)
    requires
        forall|i: int|
            0 <= i < units.len() ==> !is_high_surrogate(#[trigger] units[i]) && !is_low_surrogate(
                units[i],
            ),
    ensures
        utf16_text(units) == Seq::new(units.len(), |i: int| units[i] as char),
    decreases units.len(),
{
    if units.len() > 0 {
        let rest = units.skip(1);
        assert forall|i: int| 0 <= i < rest.len() implies !is_high_surrogate(#[trigger] rest[i])
            && !is_low_surrogate(rest[i]) by {
            assert(rest[i] == units[i + 1]);
        }
        lemma_utf16_plain(rest);
    }
    assert(utf16_text(units) =~= Seq::new(units.len(), |i: int| units[i] as char));
}

/// `String::from_utf16_lossy`: decodes UTF-16, with U+FFFD in place of what is not valid there.
#[verifier::external_body]
pub(crate) fn from_utf16(units: &[u16]) -> (r: String)
    ensures
        r@ == utf16_text(units@),
{
    String::from_utf16_lossy(units)
}

/// A text that may be missing is told by its characters, and is missing where it was.
pub proof fn law_optional(s: Option<String>, t: Option<&str>)
    ensures
        optional(s) is Some <==> s is Some,
        s is Some ==> optional(s)->0 == s->0@,
        optional_str(t) is Some <==> t is Some,
        t is Some ==> optional_str(t)->0 == t->0@,
{
}

/// Each text of a list is told by its characters, in its place.
pub proof fn law_texts(v: Seq<String>)
    ensures
        texts(v).len() == v.len(),
        forall|i: int| 0 <= i < v.len() ==> #[trigger] texts(v)[i] == v[i]@,
{
}

/// A text is replaced in piece by piece: one character becomes `to` where it is `from` and stays
/// otherwise, and a text becomes what its parts become.
pub proof fn law_replaced(a: Seq<char>, b: Seq<char>, c: char, from: char, to: Seq<char>)
    ensures
        replaced(Seq::empty(), from, to) == Seq::<char>::empty(),
        c == from ==> replaced(seq![c], from, to) == to,
        c != from ==> replaced(seq![c], from, to) == seq![c],
        replaced(a + b, from, to) == replaced(a, from, to) + replaced(b, from, to),
{
    reveal_with_fuel(replaced, 2);
    assert(seq![c].drop_last() =~= Seq::<char>::empty());
    assert(Seq::<char>::empty() + to =~= to);
    assert(Seq::<char>::empty() + seq![c] =~= seq![c]);
    lemma_replaced_append(a, b, from, to);
}

proof fn lemma_replaced_append(a: Seq<char>, b: Seq<char>, from: char, to: Seq<char>)
    ensures
        replaced(a + b, from, to) == replaced(a, from, to) + replaced(b, from, to),
    decreases b.len(),
{
    if b.len() == 0 {
        assert(a + b =~= a);
        assert(replaced(a, from, to) + replaced(b, from, to) =~= replaced(a, from, to));
    } else {
        lemma_replaced_append(a, b.drop_last(), from, to);
        assert((a + b).drop_last() =~= a + b.drop_last());
        assert((a + b).last() == b.last());
        assert(replaced(a + b, from, to) =~= replaced(a, from, to) + replaced(b, from, to));
    }
}

/// Characters without a line feed are one line, ended or not; there is no line where there are no
/// characters. Where the line feed is there, a carriage return before it belongs to it.
pub proof fn law_one_line(s: Seq<char>)
    requires
        forall|k: int| 0 <= k < s.len() ==> s[k] != '\n',
    ensures
        s.len() == 0 ==> lines(s) == Seq::<Seq<char>>::empty(),
        s.len() > 0 ==> lines(s) == seq![s],
        s.len() > 0 && s.last() == '\r' ==> lines(s.push('\n')) == seq![s.drop_last()],
        s.len() == 0 || s.last() != '\r' ==> lines(s.push('\n')) == seq![s],
{
    lemma_line_end(s, s.len() as int);
    let ended = s.push('\n');
    lemma_line_end(ended, s.len() as int);
    assert(ended.take(s.len() as int) =~= s);
    assert(ended.skip(s.len() as int + 1) =~= Seq::<char>::empty());
    assert(lines(Seq::<char>::empty()) =~= Seq::<Seq<char>>::empty());
    assert(seq![without_return(s)] + Seq::<Seq<char>>::empty() =~= seq![without_return(s)]);
}

/// A term occurs in a text where the text is something, then the term, then something, and only
/// there.
pub proof fn law_occurs(term: Seq<char>, text: Seq<char>, a: Seq<char>, b: Seq<char>)
    ensures
        occurs(term, a + term + b),
        occurs(term, text) ==> exists|x: Seq<char>, y: Seq<char>| text == #[trigger] (x + term + y),
{
    let whole = a + term + b;
    assert(whole.subrange(a.len() as int, a.len() as int + term.len()) =~= term);
    if occurs(term, text) {
        let i = choose|i: int|
            0 <= i <= text.len() - term.len() && #[trigger] text.subrange(i, i + term.len()) == term;
        assert(text =~= text.take(i) + term + text.skip(i + term.len()));
    }
}

/// Only the letters `A` to `Z` change, each to the letter so many codes further on.
pub proof fn law_ascii_lowercase(c: char)
    ensures
        65 <= c as u32 <= 90 ==> ascii_lowercase(c) as u32 == c as u32 + 32,
        (c as u32) < 65 || (c as u32) > 90 ==> ascii_lowercase(c) == c,
{
}

/// One unit is one character, and so are two that form a pair; half a pair is U+FFFD.
pub proof fn law_utf16_character(unit: u16, high: u16, low: u16)
    requires
        0xd800 <= high <= 0xdbff,
        0xdc00 <= low <= 0xdfff,
    ensures
        utf16_text(Seq::empty()) == Seq::<char>::empty(),
        unit < 0xd800 || unit > 0xdfff ==> utf16_text(seq![unit]) == seq![unit as char],
        0xd800 <= unit <= 0xdfff ==> utf16_text(seq![unit]) == seq!['\u{fffd}'],
        utf16_text(seq![high, low]) == seq![
            (0x10000 + (high - 0xd800) * 0x400 + (low - 0xdc00)) as char,
        ],
{
    reveal_with_fuel(utf16_text, 2);
    assert(seq![unit].skip(1) =~= Seq::<u16>::empty());
    assert(seq![high, low].skip(2) =~= Seq::<u16>::empty());
    assert(utf16_text(seq![unit]) =~= seq![utf16_text(seq![unit])[0]]);
    assert(utf16_text(seq![high, low]) =~= seq![utf16_text(seq![high, low])[0]]);
}

/// Units are read one after the other, unless a pair is cut apart.
pub proof fn law_utf16_append(a: Seq<u16>, b: Seq<u16>)
    requires
        a.len() == 0 || b.len() == 0 || !(0xd800 <= a.last() <= 0xdbff) || !(0xdc00 <= b[0]
            <= 0xdfff),
    ensures
        utf16_text(a + b) == utf16_text(a) + utf16_text(b),
    decreases a.len(),
{
    let both = a + b;
    if a.len() == 0 {
        assert(both =~= b);
        assert(utf16_text(a) + utf16_text(b) =~= utf16_text(b));
    } else if is_high_surrogate(a[0]) && a.len() > 1 && is_low_surrogate(a[1]) {
        let rest = a.skip(2);
        law_utf16_append(rest, b);
        assert(both.skip(2) =~= rest + b);
        assert(utf16_text(both) =~= utf16_text(a) + utf16_text(b));
    } else {
        let rest = a.skip(1);
        law_utf16_append(rest, b);
        assert(both.skip(1) =~= rest + b);
        assert(utf16_text(both) =~= utf16_text(a) + utf16_text(b));
    }
}

} // verus!
