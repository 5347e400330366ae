//! Text as sequences of characters: trimming, splitting and joining.

use vstd::prelude::*;

verus! {

/// The characters with the Unicode property `White_Space`.
pub open spec fn is_space(c: char) -> bool {
    ||| '\u{9}' <= c <= '\u{d}'
    ||| c == ' '
    ||| c == '\u{85}'
    ||| c == '\u{a0}'
    ||| c == '\u{1680}'
    ||| '\u{2000}' <= c <= '\u{200a}'
    ||| c == '\u{2028}'
    ||| c == '\u{2029}'
    ||| c == '\u{202f}'
    ||| c == '\u{205f}'
    ||| c == '\u{3000}'
}

/// Whether `c` is white space.
pub fn is_whitespace(c: char) -> (yes: bool)
    ensures
        yes == is_space(c),
{
    ('\u{9}' <= c && c <= '\u{d}') || c == ' ' || c == '\u{85}' || c == '\u{a0}' || c
        == '\u{1680}' || ('\u{2000}' <= c && c <= '\u{200a}') || c == '\u{2028}' || c
        == '\u{2029}' || c == '\u{202f}' || c == '\u{205f}' || c == '\u{3000}'
}

/// The characters of `s`, in order.
pub fn chars_of(s: &str) -> (chars: Vec<char>)
    ensures
        chars@ == s@,
{
    let mut chars: Vec<char> = Vec::new();
    for c in it: s.chars()
        invariant
            it.seq() == s@,
            chars@ == s@.take(it.index()),
    {
        chars.push(c);
    }
    chars
}

/// What a trimming operation takes off the ends of a text.
#[derive(Debug, PartialEq, Eq)]
pub enum Strip {
    /// Every white space character.
    Whitespace,
    /// This one character.
    Only(char),
}

impl Strip {
    /// Whether `c` is taken off.
    pub open spec fn accepts(self, c: char) -> bool {
        match self {
            Strip::Whitespace => is_space(c),
            Strip::Only(only) => c == only,
        }
    }

    /// Whether `c` is taken off.
    pub fn takes(&self, c: char) -> (yes: bool)
        ensures
            yes == self.accepts(c),
    {
        match self {
            Strip::Whitespace => is_whitespace(c),
            Strip::Only(only) => c == *only,
        }
    }
}

/// `s` without the longest prefix of characters that `strip` takes off.
pub open spec fn trimmed_start(s: Seq<char>, strip: Strip) -> Seq<char>
    decreases s.len(),
{
    if s.len() > 0 && strip.accepts(s.first()) {
        trimmed_start(s.drop_first(), strip)
    } else {
        s
    }
}

/// `s` without the longest suffix of characters that `strip` takes off.
pub open spec fn trimmed_end(s: Seq<char>, strip: Strip) -> Seq<char>
    decreases s.len(),
{
    if s.len() > 0 && strip.accepts(s.last()) {
        trimmed_end(s.drop_last(), strip)
    } else {
        s
    }
}

/// `s` without what `strip` takes off at both ends.
pub open spec fn trimmed_of(s: Seq<char>, strip: Strip) -> Seq<char> {
    trimmed_end(trimmed_start(s, strip), strip)
}

/// `s` without white space at both ends.
pub open spec fn trimmed(s: Seq<char>) -> Seq<char> {
    trimmed_of(s, Strip::Whitespace)
}

/// Takes off both ends of `s` the characters that `strip` names.
pub fn trim_matches<'a>(s: &'a str, strip: &Strip) -> (inner: &'a str)
    ensures
        inner@ == trimmed_of(s@, *strip),
{
    let chars = chars_of(s);
    let n: usize = chars.len();
    let mut from: usize = 0;
    assert(s@.skip(0) == s@);
    while from < n && strip.takes(chars[from])
        invariant
            from <= n,
            n == chars.len(),
            chars@ == s@,
            trimmed_start(s@.skip(from as int), *strip) == trimmed_start(s@, *strip),
        decreases n - from,
    {
        assert(s@.skip(from as int).drop_first() == s@.skip(from + 1));
        from += 1;
    }
    let mut to: usize = n;
    assert(s@.subrange(from as int, to as int) == s@.skip(from as int));
    while from < to && strip.takes(chars[to - 1])
        invariant
            from <= to <= n,
            n == chars.len(),
            chars@ == s@,
            trimmed_end(s@.subrange(from as int, to as int), *strip) == trimmed_of(s@, *strip),
        decreases to,
    {
        assert(s@.subrange(from as int, to as int).drop_last() == s@.subrange(
            from as int,
            to - 1,
        ));
        to -= 1;
    }
    s.substring_char(from, to)
}

/// Takes the white space off both ends of `s`.
pub fn trim<'a>(s: &'a str) -> (inner: &'a str)
    ensures
        inner@ == trimmed(s@),
{
    trim_matches(s, &Strip::Whitespace)
}

/// Whether `a` and `b` hold the same characters.
pub fn same_text(a: &str, b: &str) -> (same: bool)
    ensures
        same == (a@ == b@),
{
    a.to_owned() == b.to_owned()
}

/// What follows `prefix` in `s`, where `s` starts with it.
pub open spec fn after_prefix(s: Seq<char>, prefix: Seq<char>) -> Option<Seq<char>> {
    if prefix.is_prefix_of(s) {
        Some(s.skip(prefix.len() as int))
    } else {
        None
    }
}

/// What follows `prefix` in `s`, where `s` starts with it.
pub fn strip_prefix<'a>(s: &'a str, prefix: &str) -> (rest: Option<&'a str>)
    ensures
        rest is Some <==> prefix@.is_prefix_of(s@),
        rest matches Some(rest) ==> after_prefix(s@, prefix@) == Some(rest@),
{
    let n: usize = s.unicode_len();
    let k: usize = prefix.unicode_len();
    if k <= n && same_text(s.substring_char(0, k), prefix) {
        let rest = s.substring_char(k, n);
        assert(rest@ == s@.skip(k as int));
        Some(rest)
    } else {
        None
    }
}

/// `s` cut at the first `c`: what stands before it and what stands behind it.
pub open spec fn cut_at(s: Seq<char>, c: char) -> Option<(Seq<char>, Seq<char>)> {
    match s.index_of_first(c) {
        Some(i) => Some((s.take(i), s.skip(i + 1))),
        None => None,
    }
}

/// Cuts `s` at the first `c`.
pub fn split_once<'a>(s: &'a str, c: char) -> (parts: Option<(&'a str, &'a str)>)
    ensures
        parts is Some <==> s@.contains(c),
        parts is Some <==> cut_at(s@, c) is Some,
        parts matches Some((before, after)) ==> cut_at(s@, c) == Some((before@, after@)),
{
    proof {
        s@.index_of_first_ensures(c);
    }
    let chars = chars_of(s);
    let n: usize = chars.len();
    let mut i: usize = 0;
    while i < n
        invariant
            i <= n,
            n == chars.len(),
            chars@ == s@,
            forall|j: int| 0 <= j < i ==> s@[j] != c,
        decreases n - i,
    {
        if chars[i] == c {
            let before = s.substring_char(0, i);
            let after = s.substring_char(i + 1, n);
            proof {
                s@.index_of_first_ensures(c);
                assert(s@.contains(s@[i as int]));
                assert(before@ == s@.take(i as int));
                assert(after@ == s@.skip(i + 1));
            }
            return Some((before, after));
        }
        i += 1;
    }
    None
}

/// The pieces of `s` between its line feeds, in order.
pub open spec fn lines_of(s: Seq<char>) -> Seq<Seq<char>>
    decreases s.len(),
{
    match s.index_of_first('\n') {
        Some(i) => if 0 <= i < s.len() {
            seq![s.take(i)] + lines_of(s.skip(i + 1))
        } else {
            seq![s]
        },
        None => seq![s],
    }
}

/// The characters of each of `texts`.
pub open spec fn views(texts: Seq<String>) -> Seq<Seq<char>> {
    texts.map_values(|t: String| t@)
}

/// The characters of an optional text.
pub open spec fn opt_view(text: Option<String>) -> Option<Seq<char>> {
    match text {
        Some(text) => Some(text@),
        None => None,
    }
}

/// The characters of an optional borrowed text.
pub open spec fn opt_str_view(text: Option<&str>) -> Option<Seq<char>> {
    match text {
        Some(text) => Some(text@),
        None => None,
    }
}

/// The pieces of `s` between its line feeds, in order.
pub fn split_lines(s: &str) -> (lines: Vec<String>)
    ensures
        views(lines@) == lines_of(s@),
{
    let mut lines: Vec<String> = Vec::new();
    let mut rest: String = s.to_owned();
    loop
        invariant_except_break
            views(lines@) + lines_of(rest@) == lines_of(s@),
        ensures
            views(lines@) == lines_of(s@),
        decreases rest@.len(),
    {
        proof {
            rest@.index_of_first_ensures('\n');
        }
        let ghost done = views(lines@);
        match split_once(rest.as_str(), '\n') {
            Some((line, after)) => {
                let line = line.to_owned();
                let after = after.to_owned();
                assert(lines_of(rest@) == seq![line@] + lines_of(after@));
                lines.push(line);
                assert(views(lines@) == done.push(line@));
                assert(views(lines@) + lines_of(after@) == done + lines_of(rest@));
                rest = after;
            },
            None => {
                assert(lines_of(rest@) == seq![rest@]);
                lines.push(rest);
                assert(views(lines@) == done.push(rest@));
                break;
            },
        }
    }
    lines
}

/// `a` followed by `b`.
pub fn join(a: &str, b: &str) -> (joined: String)
    ensures
        joined@ == a@ + b@,
{
    let mut joined = a.to_owned();
    joined.append(b);
    joined
}

/// The first `count` characters of `s`, or all of them where `s` is shorter.
pub open spec fn head_of(s: Seq<char>, count: nat) -> Seq<char> {
    if s.len() <= count {
        s
    } else {
        s.take(count as int)
    }
}

/// The first `count` characters of `s`, or all of them where `s` is shorter.
pub fn head<'a>(s: &'a str, count: usize) -> (start: &'a str)
    ensures
        start@ == head_of(s@, count as nat),
{
    let n: usize = s.unicode_len();
    if n <= count {
        s
    } else {
        s.substring_char(0, count)
    }
}

/// A text whose ends `strip` leaves alone is its own trimming.
pub proof fn lemma_trimmed_is_fixed(s: Seq<char>, strip: Strip)
    requires
        s.len() > 0 ==> !strip.accepts(s.first()) && !strip.accepts(s.last()),
    ensures
        trimmed_of(s, strip) == s,
{
}

/// White space behind a text makes no difference to its trimming.
pub proof fn lemma_trimmed_ignores_space_behind(s: Seq<char>, c: char)
    requires
        is_space(c),
    ensures
        trimmed(s.push(c)) == trimmed(s),
    decreases s.len(),
{
    let strip = Strip::Whitespace;
    if s.len() == 0 {
        assert(s.push(c).drop_first() == s);
        assert(trimmed_start(s.push(c), strip) == trimmed_start(s, strip));
    } else if is_space(s.first()) {
        lemma_trimmed_ignores_space_behind(s.drop_first(), c);
        assert(s.push(c).drop_first() == s.drop_first().push(c));
    } else {
        assert(s.push(c).drop_last() == s);
        assert(s.push(c).first() == s.first());
        assert(trimmed_start(s.push(c), strip) == s.push(c));
        assert(trimmed_end(s.push(c), strip) == trimmed_end(s, strip));
    }
}

/// What is left after trimming has nothing at its ends that is to be taken off, is no longer
/// than the text, and has no character that the text has not.
pub proof fn lemma_trimmed_has_bare_ends(s: Seq<char>, strip: Strip)
    ensures
        trimmed_of(s, strip).len() <= s.len(),
        trimmed_of(s, strip).len() > 0 ==> !strip.accepts(trimmed_of(s, strip).first())
            && !strip.accepts(trimmed_of(s, strip).last()),
        forall|c: char| trimmed_of(s, strip).contains(c) ==> s.contains(c),
{
    lemma_trimmed_start_has_bare_start(s, strip);
    lemma_trimmed_end_has_bare_end(trimmed_start(s, strip), strip);
}

proof fn lemma_trimmed_start_has_bare_start(s: Seq<char>, strip: Strip)
    ensures
        trimmed_start(s, strip).len() <= s.len(),
        trimmed_start(s, strip).len() > 0 ==> !strip.accepts(trimmed_start(s, strip).first()),
        forall|c: char| trimmed_start(s, strip).contains(c) ==> s.contains(c),
    decreases s.len(),
{
    if s.len() > 0 && strip.accepts(s.first()) {
        lemma_trimmed_start_has_bare_start(s.drop_first(), strip);
        assert forall|c: char| trimmed_start(s, strip).contains(c) implies s.contains(c) by {
            assert(s.drop_first().contains(c));
            let i = choose|i: int| 0 <= i < s.drop_first().len() && s.drop_first()[i] == c;
            assert(s[i + 1] == c);
        }
    }
}

proof fn lemma_trimmed_end_has_bare_end(s: Seq<char>, strip: Strip)
    ensures
        trimmed_end(s, strip).len() <= s.len(),
        trimmed_end(s, strip).len() > 0 ==> !strip.accepts(trimmed_end(s, strip).last())
            && trimmed_end(s, strip).first() == s.first(),
        forall|c: char| trimmed_end(s, strip).contains(c) ==> s.contains(c),
    decreases s.len(),
{
    if s.len() > 0 && strip.accepts(s.last()) {
        lemma_trimmed_end_has_bare_end(s.drop_last(), strip);
        assert forall|c: char| trimmed_end(s, strip).contains(c) implies s.contains(c) by {
            assert(s.drop_last().contains(c));
            let i = choose|i: int| 0 <= i < s.drop_last().len() && s.drop_last()[i] == c;
            assert(s[i] == c);
        }
    }
}

/// The first `c` of `before`, `c`, `after` is the one in the middle, where `before` has none.
pub proof fn lemma_cut_between(before: Seq<char>, c: char, after: Seq<char>)
    requires
        !before.contains(c),
    ensures
        cut_at(before.push(c) + after, c) == Some((before, after)),
        (before.push(c) + after).index_of_first(c) == Some(before.len() as int),
{
    let s = before.push(c) + after;
    s.index_of_first_ensures(c);
    assert(s[before.len() as int] == c);
    assert(s.contains(c));
    let i = s.index_of_first(c)->0;
    if i < before.len() {
        assert(before[i] == c);
        assert(false);
    }
    assert(i == before.len());
    assert(s.take(i) == before);
    assert(s.skip(i + 1) == after);
}

/// A line feed between two texts makes the lines of the whole those of the one followed by
/// those of the other.
pub proof fn lemma_lines_of_joined(a: Seq<char>, b: Seq<char>)
    ensures
        lines_of(a.push('\n') + b) == lines_of(a) + lines_of(b),
    decreases a.len(),
{
    let whole = a.push('\n') + b;
    a.index_of_first_ensures('\n');
    if a.contains('\n') {
        let i = a.index_of_first('\n')->0;
        let head = a.take(i);
        let tail = a.skip(i + 1);
        assert(!head.contains('\n'));
        assert(whole == head.push('\n') + (tail.push('\n') + b));
        lemma_cut_between(head, '\n', tail.push('\n') + b);
        lemma_lines_of_joined(tail, b);
        assert(whole.skip(i + 1) == tail.push('\n') + b);
        assert(lines_of(whole) == seq![head] + (lines_of(tail) + lines_of(b)));
        assert(lines_of(a) == seq![head] + lines_of(tail));
        assert(lines_of(whole) == lines_of(a) + lines_of(b));
    } else {
        lemma_cut_between(a, '\n', b);
        assert(whole.take(a.len() as int) == a);
        assert(whole.skip(a.len() as int + 1) == b);
        assert(lines_of(a) == seq![a]);
    }
}

/// A text without line feed is its own only line.
pub proof fn lemma_single_line(s: Seq<char>)
    requires
        !s.contains('\n'),
    ensures
        lines_of(s) == seq![s],
{
    s.index_of_first_ensures('\n');
}

/// White space is what Unicode lists as such, and nothing else.
pub proof fn law_white_space_is_that_of_unicode(c: char)
    ensures
        is_space(c) <==> seq![
            '\u{9}', '\u{a}', '\u{b}', '\u{c}', '\u{d}', '\u{20}', '\u{85}', '\u{a0}', '\u{1680}',
            '\u{2000}', '\u{2001}', '\u{2002}', '\u{2003}', '\u{2004}', '\u{2005}', '\u{2006}',
            '\u{2007}', '\u{2008}', '\u{2009}', '\u{200a}', '\u{2028}', '\u{2029}', '\u{202f}',
            '\u{205f}', '\u{3000}',
        ].contains(c),
{
    let all = seq![
        '\u{9}', '\u{a}', '\u{b}', '\u{c}', '\u{d}', '\u{20}', '\u{85}', '\u{a0}', '\u{1680}',
        '\u{2000}', '\u{2001}', '\u{2002}', '\u{2003}', '\u{2004}', '\u{2005}', '\u{2006}',
        '\u{2007}', '\u{2008}', '\u{2009}', '\u{200a}', '\u{2028}', '\u{2029}', '\u{202f}',
        '\u{205f}', '\u{3000}',
    ];
    assert(all.len() == 25);
    if is_space(c) {
        if c <= '\u{d}' {
            assert(all[c as int - 9] == c);
        } else if '\u{2000}' <= c <= '\u{200a}' {
            assert(all[c as int - 0x2000 + 9] == c);
        } else {
            assert(all[5] == ' ' && all[6] == '\u{85}' && all[7] == '\u{a0}');
            assert(all[8] == '\u{1680}' && all[20] == '\u{2028}' && all[21] == '\u{2029}');
            assert(all[22] == '\u{202f}' && all[23] == '\u{205f}' && all[24] == '\u{3000}');
        }
    }
}

/// What is taken off is white space, or the one character that is named.
pub proof fn law_strip_takes_what_it_names(c: char, only: char)
    ensures
        Strip::Whitespace.accepts(c) <==> is_space(c),
        Strip::Only(only).accepts(c) <==> c == only,
{
}

/// Whether every character of `s` is one that `strip` takes off.
pub open spec fn is_all(s: Seq<char>, strip: Strip) -> bool {
    forall|i: int| 0 <= i < s.len() ==> strip.accepts(#[trigger] s[i])
}

/// Whether `s` has nothing at its ends that `strip` takes off.
pub open spec fn is_bare(s: Seq<char>, strip: Strip) -> bool {
    s.len() > 0 ==> !strip.accepts(s.first()) && !strip.accepts(s.last())
}

proof fn lemma_trimmed_start_skips(a: Seq<char>, s: Seq<char>, strip: Strip)
    requires
        is_all(a, strip),
    ensures
        trimmed_start(a + s, strip) == trimmed_start(s, strip),
    decreases a.len(),
{
    if a.len() == 0 {
        assert(a + s == s);
    } else {
        assert(strip.accepts(a[0]));
        assert((a + s).first() == a[0]);
        assert((a + s).drop_first() == a.drop_first() + s);
        assert forall|i: int| 0 <= i < a.drop_first().len() implies strip.accepts(
            #[trigger] a.drop_first()[i],
        ) by {
            assert(strip.accepts(a[i + 1]));
        }
        lemma_trimmed_start_skips(a.drop_first(), s, strip);
    }
}

proof fn lemma_trimmed_end_skips(s: Seq<char>, b: Seq<char>, strip: Strip)
    requires
        is_all(b, strip),
    ensures
        trimmed_end(s + b, strip) == trimmed_end(s, strip),
    decreases b.len(),
{
    if b.len() == 0 {
        assert(s + b == s);
    } else {
        assert(strip.accepts(b[b.len() - 1]));
        assert((s + b).last() == b.last());
        assert((s + b).drop_last() == s + b.drop_last());
        assert forall|i: int| 0 <= i < b.drop_last().len() implies strip.accepts(
            #[trigger] b.drop_last()[i],
        ) by {
            assert(strip.accepts(b[i]));
        }
        lemma_trimmed_end_skips(s, b.drop_last(), strip);
    }
}

/// Trimming gives back what stands between the characters that are taken off, whatever that is:
/// no less and no more comes off.
pub proof fn law_trimming_leaves_the_core(
    a: Seq<char>,
    core: Seq<char>,
    b: Seq<char>,
    strip: Strip,
)
    requires
        is_all(a, strip),
        is_bare(core, strip),
        is_all(b, strip),
    ensures
        trimmed_of(a + core + b, strip) == core,
{
    assert(a + core + b == a + (core + b));
    lemma_trimmed_start_skips(a, core + b, strip);
    if core.len() == 0 {
        assert(core + b == b + core);
        lemma_trimmed_start_skips(b, core, strip);
    } else {
        assert((core + b).first() == core.first());
        lemma_trimmed_end_skips(core, b, strip);
    }
}

/// What trimming takes off in front and behind, with what it leaves between them.
pub proof fn lemma_parts_of_trimmed(s: Seq<char>, strip: Strip) -> (parts: (
    Seq<char>,
    Seq<char>,
    Seq<char>,
))
    ensures
        s == parts.0 + parts.1 + parts.2,
        parts.1 == trimmed_of(s, strip),
        is_all(parts.0, strip),
        is_bare(parts.1, strip),
        is_all(parts.2, strip),
    decreases s.len(),
{
    let none = Seq::<char>::empty();
    if s.len() > 0 && strip.accepts(s.first()) {
        let (a, core, b) = lemma_parts_of_trimmed(s.drop_first(), strip);
        let front = seq![s.first()] + a;
        assert(s == seq![s.first()] + s.drop_first());
        assert(s == front + core + b);
        law_trimming_leaves_the_core(front, core, b, strip);
        (front, core, b)
    } else if s.len() > 0 && strip.accepts(s.last()) {
        let (a, core, b) = lemma_parts_of_trimmed(s.drop_last(), strip);
        let back = b + seq![s.last()];
        assert(s == s.drop_last() + seq![s.last()]);
        assert(s == a + core + back);
        law_trimming_leaves_the_core(a, core, back, strip);
        (a, core, back)
    } else {
        assert(s == none + s + none);
        law_trimming_leaves_the_core(none, s, none, strip);
        (none, s, none)
    }
}

/// What follows a prefix is all the rest, and there is nothing to follow where the text does not
/// start with it.
pub proof fn law_prefix_comes_off(prefix: Seq<char>, rest: Seq<char>, s: Seq<char>)
    ensures
        after_prefix(prefix + rest, prefix) == Some(rest),
        after_prefix(s, prefix) matches Some(after) ==> s == prefix + after,
{
    assert((prefix + rest).subrange(0, prefix.len() as int) == prefix);
    assert((prefix + rest).skip(prefix.len() as int) == rest);
    if prefix.is_prefix_of(s) {
        assert(s == prefix + s.skip(prefix.len() as int));
    }
}

/// A text is cut where its first `c` stands, and not at all where it has none.
pub proof fn law_text_is_cut_at_the_first(before: Seq<char>, c: char, after: Seq<char>)
    requires
        !before.contains(c),
    ensures
        cut_at(before + seq![c] + after, c) == Some((before, after)),
        cut_at(before, c) is None,
{
    lemma_cut_between(before, c, after);
    assert(before + seq![c] + after == before.push(c) + after);
    before.index_of_first_ensures(c);
}

/// The start of a text has as many characters as are asked for, in their places, or is the whole
/// text where it has fewer.
pub proof fn law_head_is_the_start(s: Seq<char>, count: nat)
    ensures
        s.len() <= count ==> head_of(s, count) == s,
        s.len() > count ==> head_of(s, count).len() == count,
        forall|i: int|
            0 <= i < head_of(s, count).len() ==> #[trigger] head_of(s, count)[i] == s[i],
{
}

/// The texts of a list are those of its items, in their places.
pub proof fn law_views_are_the_texts(texts: Seq<String>, text: String, borrowed: &str)
    ensures
        views(texts).len() == texts.len(),
        forall|i: int| 0 <= i < texts.len() ==> #[trigger] views(texts)[i] == texts[i]@,
        opt_view(Some(text)) == Some(text@),
        opt_view(None) is None,
        opt_str_view(Some(borrowed)) == Some(borrowed@),
        opt_str_view(None) is None,
{
}

} // verus!
