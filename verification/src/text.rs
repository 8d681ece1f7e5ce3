//! Text handling shared by the chat and the session rules: characters of a
//! string, blank-separated words, and clipping to a width.

use vstd::prelude::*;
use vstd::std_specs::iter::IteratorSpec;
use vstd::string::StrSliceExecFns;
use vstd::string::StringExecFns;

verus! {

/// `String::push` appends one character to the end of the string.
pub assume_specification[ String::push ](s: &mut String, ch: char)
    ensures
        final(s)@ == old(s)@.push(ch),
;

/// `String::pop` removes the last character and returns it, or returns
/// `None` and leaves the string alone if it is empty.
pub assume_specification[ String::pop ](s: &mut String) -> (last: Option<char>)
    ensures
        old(s)@.len() == 0 ==> last is None && final(s)@ == old(s)@,
        old(s)@.len() > 0 ==> last == Some(old(s)@.last()) && final(s)@ == old(s)@.drop_last(),
;

/// The character sequences of a sequence of strings.
pub open spec fn views(strings: Seq<String>) -> Seq<Seq<char>> {
    Seq::new(strings.len(), |i: int| strings[i]@)
}

/// Whether a character separates words: the characters that Unicode gives
/// the property `White_Space`.
pub open spec fn is_blank(c: char) -> bool {
    ||| '\u{9}' <= c <= '\u{d}'
    ||| c == ' '
    ||| c == '\u{85}'
    ||| c == '\u{a0}'
    ||| c == '\u{1680}'
    ||| '\u{2000}' <= c <= '\u{200a}'
    ||| c == '\u{2028}'
    ||| c == '\u{2029}'
    ||| c == '\u{202f}'
    ||| c == '\u{205f}'
    ||| c == '\u{3000}'
}

/// Where the blank-free run that starts at `from` ends: the first position
/// at or after `from` that holds a blank, or the length of `s`.
pub open spec fn word_end(s: Seq<char>, from: int) -> int
    decreases s.len() - from,
{
    if from < 0 || from >= s.len() {
        s.len() as int
    } else if is_blank(s[from]) {
        from
    } else {
        word_end(s, from + 1)
    }
}

/// The words of `s` that start at or after `from`, in order. Blanks are
/// skipped; a word runs from a character that is not blank up to the next
/// blank or the end.
pub open spec fn words_from(s: Seq<char>, from: int) -> Seq<Seq<char>>
    decreases s.len() - from,
{
    if from < 0 || from >= s.len() {
        Seq::empty()
    } else if is_blank(s[from]) {
        words_from(s, from + 1)
    } else {
        proof {
            lemma_word_end_bounds(s, from);
        }
        seq![s.subrange(from, word_end(s, from))] + words_from(s, word_end(s, from))
    }
}

/// The maximal blank-free runs of `s`, in order.
pub open spec fn words(s: Seq<char>) -> Seq<Seq<char>> {
    words_from(s, 0)
}

/// `s` cut to at most `width` characters.
pub open spec fn clipped(s: Seq<char>, width: int) -> Seq<char> {
    if s.len() <= width {
        s
    } else {
        s.take(width)
    }
}

/// A word that starts at a character that is not blank has at least that
/// character, ends within `s`, holds no blank, and is followed by a blank or
/// by the end.
pub proof fn lemma_word_end_bounds(s: Seq<char>, from: int)
    requires
        0 <= from < s.len(),
        !is_blank(s[from]),
    ensures
        from < word_end(s, from) <= s.len(),
        forall|i: int| from <= i < word_end(s, from) ==> !is_blank(#[trigger] s[i]),
        word_end(s, from) < s.len() ==> is_blank(s[word_end(s, from)]),
    decreases s.len() - from,
{
    assert(word_end(s, from) == word_end(s, from + 1));
    if from + 1 >= s.len() {
        assert(word_end(s, from + 1) == s.len());
    } else if is_blank(s[from + 1]) {
        assert(word_end(s, from + 1) == from + 1);
    } else {
        lemma_word_end_bounds(s, from + 1);
    }
}

/// What every word is: not empty, and free of blanks.
pub open spec fn is_word(w: Seq<char>) -> bool {
    &&& w.len() > 0
    &&& forall|i: int| 0 <= i < w.len() ==> !is_blank(#[trigger] w[i])
}

/// No word is empty and no word holds a blank.
pub proof fn lemma_words_are_blank_free(s: Seq<char>, from: int)
    requires
        0 <= from <= s.len(),
    ensures
        forall|k: int|
            0 <= k < words_from(s, from).len() ==> is_word(#[trigger] words_from(s, from)[k]),
    decreases s.len() - from,
{
    if from < s.len() {
        if is_blank(s[from]) {
            lemma_words_are_blank_free(s, from + 1);
            assert(words_from(s, from) == words_from(s, from + 1));
        } else {
            lemma_word_end_bounds(s, from);
            let end = word_end(s, from);
            lemma_words_are_blank_free(s, end);
            let head = s.subrange(from, end);
            assert(words_from(s, from) == seq![head] + words_from(s, end));
            assert forall|k: int| 0 <= k < words_from(s, from).len() implies is_word(
                #[trigger] words_from(s, from)[k],
            ) by {
                if k == 0 {
                    assert(words_from(s, from)[0] == head);
                    assert forall|i: int| 0 <= i < head.len() implies !is_blank(
                        #[trigger] head[i],
                    ) by {
                        assert(head[i] == s[from + i]);
                    }
                } else {
                    assert(words_from(s, from)[k] == words_from(s, end)[k - 1]);
                }
            }
        }
    } else {
        assert(words_from(s, from).len() == 0);
    }
}

/// A text that is not empty and holds no blank is one word.
pub proof fn lemma_blank_free_text_is_one_word(s: Seq<char>)
    requires
        s.len() > 0,
        forall|i: int| 0 <= i < s.len() ==> !is_blank(#[trigger] s[i]),
    ensures
        words(s) == seq![s],
{
    lemma_word_end_reaches(s, 0, s.len() as int);
    assert(s.subrange(0, s.len() as int) == s);
    assert(words_from(s, s.len() as int) == Seq::<Seq<char>>::empty());
    assert(seq![s] + Seq::<Seq<char>>::empty() == seq![s]);
}

proof fn lemma_word_end_reaches(s: Seq<char>, from: int, end: int)
    requires
        0 <= from <= end <= s.len(),
        forall|i: int| from <= i < end ==> !is_blank(#[trigger] s[i]),
        end < s.len() ==> is_blank(s[end]),
    ensures
        word_end(s, from) == end,
    decreases end - from,
{
    if from < end {
        lemma_word_end_reaches(s, from + 1, end);
    }
}

/// Whether a character separates words.
pub fn is_space(c: char) -> (b: bool)
    ensures
        b == is_blank(c),
{
    ('\u{9}' <= c && c <= '\u{d}') || c == ' ' || c == '\u{85}' || c == '\u{a0}' || c == '\u{1680}'
        || ('\u{2000}' <= c && c <= '\u{200a}') || c == '\u{2028}' || c == '\u{2029}' || c
        == '\u{202f}' || c == '\u{205f}' || c == '\u{3000}'
}

/// The characters of a string.
pub fn chars_of(s: &str) -> (v: Vec<char>)
    ensures
        v@ == s@,
{
    let mut v: Vec<char> = Vec::new();
    for c in it: s.chars()
        invariant
            v@ == it.seq().take(it.index() as int),
            it.seq() == s@,
    {
        v.push(c);
    }
    v
}

/// The string made of the characters `from..to` of `v`.
pub fn string_of(v: &Vec<char>, from: usize, to: usize) -> (s: String)
    requires
        from <= to <= v.len(),
    ensures
        s@ == v@.subrange(from as int, to as int),
{
    let mut s = String::new();
    let mut i = from;
    while i < to
        invariant
            from <= i <= to <= v.len(),
            s@ == v@.subrange(from as int, i as int),
        decreases to - i,
    {
        s.push(v[i]);
        i += 1;
    }
    s
}

/// Splits a text into its words: the maximal runs of characters that are not
/// blank, in the order in which they stand.
pub fn split_words(s: &str) -> (out: Vec<String>)
    ensures
        views(out@) == words(s@),
{
    let chars = chars_of(s);
    let n = chars.len();
    let mut out: Vec<String> = Vec::new();
    let mut i: usize = 0;
    while i < n
        invariant
            0 <= i <= n,
            n == chars.len(),
            chars@ == s@,
            views(out@) + words_from(s@, i as int) == words(s@),
        decreases n - i,
    {
        if is_space(chars[i]) {
            i += 1;
        } else {
            let start = i;
            while i < n && !is_space(chars[i])
                invariant
                    start <= i <= n,
                    n == chars.len(),
                    chars@ == s@,
                    word_end(s@, start as int) == word_end(s@, i as int),
                decreases n - i,
            {
                i += 1;
            }
            let word = string_of(&chars, start, i);
            proof {
                assert(word_end(s@, start as int) == i);
                assert(views(out@.push(word)) == views(out@) + seq![word@]);
                assert(words_from(s@, start as int) == seq![word@] + words_from(s@, i as int));
            }
            out.push(word);
        }
    }
    proof {
        assert(views(out@) + Seq::<Seq<char>>::empty() == views(out@));
    }
    out
}

/// Cuts a text to at most `width` characters, counted as characters and not
/// as bytes.
pub fn clip(s: &str, width: usize) -> (out: String)
    ensures
        out@ == clipped(s@, width as int),
{
    if s.unicode_len() <= width {
        String::from_str(s)
    } else {
        String::from_str(s.substring_char(0, width))
    }
}

/// Whether a text begins with the character `c`.
pub fn begins_with(s: &str, c: char) -> (b: bool)
    ensures
        b == (s@.len() > 0 && s@[0] == c),
{
    s.unicode_len() > 0 && s.get_char(0) == c
}

} // verus!
