//! Plain text as a sequence of characters: white space, words and lines.

use vstd::prelude::*;

verus! {

/// Appending a character to a `String` puts it after what the string held.
/// This is what the documentation of `String::push` says and nothing more;
/// it is taken on trust.
pub assume_specification[ String::push ](text: &mut String, c: char)
    ensures
        final(text)@ == old(text)@.push(c),
;

/// The characters that separate words: those with Unicode's `White_Space`
/// property.
pub open spec fn white_space(c: char) -> bool {
    ||| '\u{9}' <= c <= '\u{d}'
    ||| c == ' '
    ||| c == '\u{85}'
    ||| c == '\u{a0}'
    ||| c == '\u{1680}'
    ||| '\u{2000}' <= c <= '\u{200a}'
    ||| c == '\u{2028}'
    ||| c == '\u{2029}'
    ||| c == '\u{202f}'
    ||| c == '\u{205f}'
    ||| c == '\u{3000}'
}

/// How many characters at the front of `s` are free of white space.
pub open spec fn word_len(s: Seq<char>) -> nat
    decreases s.len(),
{
    if s.len() == 0 || white_space(s[0]) {
        0
    } else {
        1 + word_len(s.skip(1))
    }
}

/// The words of `s`: its maximal runs of characters that are not white
/// space, from left to right.
pub open spec fn words(s: Seq<char>) -> Seq<Seq<char>>
    decreases s.len(),
    via words_decreases
{
    if s.len() == 0 {
        Seq::empty()
    } else if white_space(s[0]) {
        words(s.skip(1))
    } else {
        let n = word_len(s) as int;
        seq![s.take(n)] + words(s.skip(n))
    }
}

#[via_fn]
proof fn words_decreases(s: Seq<char>) {
    lemma_word_len_bound(s);
}

/// How many characters stand before the first line feed of `s`, or in all
/// of `s` where it holds none.
pub open spec fn line_len(s: Seq<char>) -> nat
    decreases s.len(),
{
    if s.len() == 0 || s[0] == '\n' {
        0
    } else {
        1 + line_len(s.skip(1))
    }
}

/// A word is never longer than the text it starts.
pub proof fn lemma_word_len_bound(s: Seq<char>)
    ensures
        word_len(s) <= s.len(),
    decreases s.len(),
{
    if s.len() > 0 && !white_space(s[0]) {
        lemma_word_len_bound(s.skip(1));
    }
}

/// A line is never longer than the text it starts.
pub proof fn lemma_line_len_bound(s: Seq<char>)
    ensures
        line_len(s) <= s.len(),
    decreases s.len(),
{
    if s.len() > 0 && s[0] != '\n' {
        lemma_line_len_bound(s.skip(1));
    }
}

/// The first line of a text without a line feed is the whole text.
pub proof fn lemma_line_without_feed(s: Seq<char>)
    requires
        !s.contains('\n'),
    ensures
        line_len(s) == s.len(),
    decreases s.len(),
{
    if s.len() > 0 {
        assert(s[0] != '\n');
        assert forall|i: int| 0 <= i < s.skip(1).len() implies s.skip(1)[i] != '\n' by {
            assert(s.skip(1)[i] == s[i + 1]);
        }
        lemma_line_without_feed(s.skip(1));
    }
}

/// Where the first line of `s` ends before the end of `s`, or `more` starts
/// with a line feed, the first line of `s + more` is that of `s`.
pub proof fn lemma_line_len_joined(s: Seq<char>, more: Seq<char>)
    requires
        line_len(s) < s.len() || (more.len() > 0 && more[0] == '\n'),
    ensures
        line_len(s + more) == line_len(s),
    decreases s.len(),
{
    if s.len() == 0 {
        assert(s + more == more);
    } else if s[0] != '\n' {
        assert((s + more).skip(1) == s.skip(1) + more);
        lemma_line_len_joined(s.skip(1), more);
    }
}

/// Every word holds at least one character and no white space.
pub proof fn lemma_words_hold_no_white_space(s: Seq<char>, k: int)
    requires
        0 <= k < words(s).len(),
    ensures
        words(s)[k].len() > 0,
        forall|i: int| 0 <= i < words(s)[k].len() ==> !white_space(#[trigger] words(s)[k][i]),
    decreases s.len(),
{
    if white_space(s[0]) {
        lemma_words_hold_no_white_space(s.skip(1), k);
    } else {
        let n = word_len(s) as int;
        lemma_word_len_bound(s);
        if k == 0 {
            lemma_word_holds_no_white_space(s);
        } else {
            lemma_words_hold_no_white_space(s.skip(n), k - 1);
        }
    }
}

/// The characters that `word_len` counts are free of white space.
pub proof fn lemma_word_holds_no_white_space(s: Seq<char>)
    ensures
        forall|i: int| 0 <= i < word_len(s) ==> !white_space(#[trigger] s[i]),
    decreases s.len(),
{
    if s.len() > 0 && !white_space(s[0]) {
        lemma_word_holds_no_white_space(s.skip(1));
        lemma_word_len_bound(s);
        assert forall|i: int| 0 <= i < word_len(s) implies !white_space(#[trigger] s[i]) by {
            if i > 0 {
                assert(s[i] == s.skip(1)[i - 1]);
            }
        }
    }
}

/// What is left of `s` once its white space is taken out.
pub open spec fn without_white_space(s: Seq<char>) -> Seq<char> {
    s.filter(|c: char| !white_space(c))
}

/// A text free of white space is all that is left of itself.
proof fn lemma_solid_text_is_left(s: Seq<char>)
    requires
        forall|i: int| 0 <= i < s.len() ==> !white_space(#[trigger] s[i]),
    ensures
        without_white_space(s) == s,
    decreases s.len(),
{
    reveal(Seq::filter);
    if s.len() > 0 {
        lemma_solid_text_is_left(s.drop_last());
        assert(s.drop_last().push(s.last()) == s);
    }
}

/// The words of a text, one after the other, are the text without its white
/// space: no character is lost between them and none is added.
pub proof fn lemma_words_hold_all_else(s: Seq<char>)
    ensures
        words(s).flatten() == without_white_space(s),
    decreases s.len(),
{
    let solid = |c: char| !white_space(c);
    if s.len() == 0 {
        reveal(Seq::filter);
    } else if white_space(s[0]) {
        lemma_words_hold_all_else(s.skip(1));
        let head = seq![s[0]];
        assert(s == head + s.skip(1));
        Seq::filter_distributes_over_add(head, s.skip(1), solid);
        assert(head.filter(solid) == Seq::<char>::empty()) by {
            reveal(Seq::filter);
            assert(head.drop_last() == Seq::<char>::empty());
            assert(Seq::<char>::empty().filter(solid) == Seq::<char>::empty());
        }
    } else {
        let n = word_len(s) as int;
        let word = s.take(n);
        lemma_word_len_bound(s);
        lemma_word_holds_no_white_space(s);
        lemma_words_hold_all_else(s.skip(n));
        assert(s == word + s.skip(n));
        Seq::filter_distributes_over_add(word, s.skip(n), solid);
        lemma_solid_text_is_left(word);
        vstd::seq_lib::lemma_flatten_concat(seq![word], words(s.skip(n)));
        seq![word].lemma_flatten_one_element();
    }
}

/// White space after a word does not make the word longer.
pub proof fn lemma_word_len_before_white_space(s: Seq<char>, c: char)
    requires
        white_space(c),
    ensures
        word_len(s.push(c)) == word_len(s),
    decreases s.len(),
{
    if s.len() > 0 && !white_space(s[0]) {
        assert(s.push(c).skip(1) == s.skip(1).push(c));
        lemma_word_len_before_white_space(s.skip(1), c);
    }
}

/// White space at the end of a text adds no word to it.
pub proof fn lemma_words_before_white_space(s: Seq<char>, c: char)
    requires
        white_space(c),
    ensures
        words(s.push(c)) == words(s),
    decreases s.len(),
{
    let longer = s.push(c);
    if s.len() == 0 {
        assert(longer.skip(1) == s);
    } else if white_space(s[0]) {
        assert(longer.skip(1) == s.skip(1).push(c));
        lemma_words_before_white_space(s.skip(1), c);
    } else {
        let n = word_len(s) as int;
        lemma_word_len_bound(s);
        lemma_word_len_before_white_space(s, c);
        assert(longer.take(n) == s.take(n));
        assert(longer.skip(n) == s.skip(n).push(c));
        lemma_words_before_white_space(s.skip(n), c);
    }
}

/// Tells whether `c` separates words.
pub fn is_whitespace(c: char) -> (yes: bool)
    ensures
        yes == white_space(c),
{
    ('\u{9}' <= c && c <= '\u{d}') || c == ' ' || c == '\u{85}' || c == '\u{a0}' || c
        == '\u{1680}' || ('\u{2000}' <= c && c <= '\u{200a}') || c == '\u{2028}' || c
        == '\u{2029}' || c == '\u{202f}' || c == '\u{205f}' || c == '\u{3000}'
}

/// The characters of `text`, one by one.
pub fn chars_of(text: &str) -> (chars: Vec<char>)
    ensures
        chars@ == text@,
{
    let mut chars: Vec<char> = Vec::new();
    for c in it: text.chars()
        invariant
            chars@ == it.seq().take(it.index() as int),
            it.seq() == text@,
    {
        chars.push(c);
    }
    chars
}

/// The string made of `chars`.
pub fn text_of(chars: &[char]) -> (text: String)
    ensures
        text@ == chars@,
{
    let mut text = String::new();
    let mut i: usize = 0;
    while i < chars.len()
        invariant
            i <= chars@.len(),
            text@ == chars@.take(i as int),
        decreases chars@.len() - i,
    {
        text.push(chars[i]);
        i += 1;
    }
    text
}

/// Finds the first word of `line` at or after position `from`: where it
/// starts and where it ends. Where no word is left, both are the end of the
/// line.
pub fn next_word(line: &[char], from: usize) -> (word: (usize, usize))
    requires
        from <= line@.len(),
    ensures
        from <= word.0 <= word.1 <= line@.len(),
        forall|i: int| from <= i < word.0 ==> white_space(#[trigger] line@[i]),
        forall|i: int| word.0 <= i < word.1 ==> !white_space(#[trigger] line@[i]),
        word.1 < line@.len() ==> white_space(line@[word.1 as int]),
        word.0 == word.1 ==> word.0 == line@.len() && words(line@.skip(from as int)).len() == 0,
        word.0 < word.1 ==> words(line@.skip(from as int)) == seq![
            line@.subrange(word.0 as int, word.1 as int),
        ] + words(line@.skip(word.1 as int)),
{
    let mut start: usize = from;
    while start < line.len() && is_whitespace(line[start])
        invariant
            from <= start <= line@.len(),
            forall|i: int| from <= i < start ==> white_space(#[trigger] line@[i]),
            words(line@.skip(from as int)) == words(line@.skip(start as int)),
        decreases line@.len() - start,
    {
        assert(line@.skip(start as int).skip(1) == line@.skip(start + 1));
        start += 1;
    }
    let mut end: usize = start;
    while end < line.len() && !is_whitespace(line[end])
        invariant
            start <= end <= line@.len(),
            forall|i: int| start <= i < end ==> !white_space(#[trigger] line@[i]),
            word_len(line@.skip(start as int)) == (end - start) + word_len(
                line@.skip(end as int),
            ),
        decreases line@.len() - end,
    {
        assert(line@.skip(end as int).skip(1) == line@.skip(end + 1));
        end += 1;
    }
    proof {
        let rest = line@.skip(start as int);
        assert(word_len(line@.skip(end as int)) == 0);
        if start < end {
            assert(rest.take(end - start) == line@.subrange(start as int, end as int));
            assert(rest.skip(end - start) == line@.skip(end as int));
        }
    }
    (start, end)
}

} // verus!
