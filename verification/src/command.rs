//! Command lines: a command is split at whitespace into the arguments that
//! are handed to the process launcher. There is no quoting and no escaping.
//!
//! Splitting works on a marked line: a line of characters, each with a mark
//! that says whether it separates words. For a command line the marks say
//! which characters are whitespace.

use vstd::prelude::*;
use vstd::string::*;
use crate::text::{lemma_texts_push, texts};

verus! {

/// What `char::is_whitespace` of the standard library answers for a
/// character: whether it carries the Unicode property `White_Space`.
pub uninterp spec fn white_space(c: char) -> bool;

/// The whitespace among the ASCII characters: the space, and the controls
/// from the horizontal tab (U+0009) to the carriage return (U+000D).
pub open spec fn ascii_whitespace(c: char) -> bool {
    c == ' ' || 0x09 <= c as u32 <= 0x0d
}

/// Whether a character is whitespace. For an ASCII character the answer is
/// written out; for any other it is the one of the standard library.
pub open spec fn is_whitespace(c: char) -> bool {
    if c as u32 <= 0x7f {
        ascii_whitespace(c)
    } else {
        white_space(c)
    }
}

/// Asks `char::is_whitespace`. The answer is a fixed property of the
/// character, and the contract gives it the name [`white_space`]. Of the
/// ASCII characters it claims what the property `White_Space` holds there:
/// the space and the five controls from U+0009 to U+000D, and nothing else.
/// Of every other character it claims nothing but the name.
#[verifier::external_body]
fn char_is_whitespace(c: char) -> (answer: bool)
    ensures
        answer == white_space(c),
        c as u32 <= 0x7f ==> answer == ascii_whitespace(c),
{
    c.is_whitespace()
}

/// A line with its marks. A character without a mark does not separate.
pub open spec fn marked(line: Seq<char>, marks: Seq<bool>) -> Seq<(char, bool)> {
    Seq::new(line.len(), |i: int| (line[i], i < marks.len() && marks[i]))
}

/// The characters of a part of a marked line.
pub open spec fn letters(part: Seq<(char, bool)>) -> Seq<char> {
    part.map_values(|c: (char, bool)| c.0)
}

/// The marks that say which characters of a line are whitespace.
pub open spec fn whitespace_marks(line: Seq<char>) -> Seq<bool> {
    Seq::new(line.len(), |i: int| is_whitespace(line[i]))
}

/// The length of the longest prefix of a marked line that holds no
/// separator.
pub open spec fn word_len(line: Seq<(char, bool)>) -> nat
    decreases line.len(),
{
    if line.len() == 0 || line[0].1 {
        0
    } else {
        1 + word_len(line.skip(1))
    }
}

/// The longest prefix without a separator lies within the line.
pub proof fn lemma_word_len_bound(line: Seq<(char, bool)>)
    ensures
        word_len(line) <= line.len(),
    decreases line.len(),
{
    if line.len() > 0 && !line[0].1 {
        lemma_word_len_bound(line.skip(1));
    }
}

/// The words of a marked line: its maximal runs of characters that do not
/// separate, from left to right.
pub open spec fn words(line: Seq<(char, bool)>) -> Seq<Seq<char>>
    decreases line.len(),
{
    if line.len() == 0 {
        Seq::empty()
    } else if line[0].1 {
        words(line.skip(1))
    } else {
        proof {
            lemma_word_len_bound(line);
        }
        seq![letters(line.take(word_len(line) as int))] + words(line.skip(word_len(line) as int))
    }
}

/// The arguments of a command line: its maximal runs of characters that are
/// not whitespace, from left to right.
pub open spec fn tokens(line: Seq<char>) -> Seq<Seq<char>> {
    words(marked(line, whitespace_marks(line)))
}

/// A prefix without a separator that ends at a separator, or at the end of
/// the line, is the longest such prefix.
proof fn lemma_word_len(line: Seq<(char, bool)>, n: int)
    requires
        0 <= n <= line.len(),
        forall|k: int| 0 <= k < n ==> !line[k].1,
        n == line.len() || line[n].1,
    ensures
        word_len(line) == n,
    decreases n,
{
    if n > 0 {
        let rest = line.skip(1);
        assert forall|k: int| 0 <= k < n - 1 implies !rest[k].1 by {
            assert(rest[k] == line[k + 1]);
        }
        lemma_word_len(rest, n - 1);
    }
}

/// Separators in front of a line yield no word.
pub proof fn lemma_words_skip_blank(blank: Seq<(char, bool)>, rest: Seq<(char, bool)>)
    requires
        forall|k: int| 0 <= k < blank.len() ==> blank[k].1,
    ensures
        words(blank + rest) == words(rest),
    decreases blank.len(),
{
    if blank.len() == 0 {
        assert(blank + rest =~= rest);
    } else {
        let tail = blank.skip(1);
        assert((blank + rest)[0] == blank[0]);
        assert((blank + rest).skip(1) =~= tail + rest);
        assert forall|k: int| 0 <= k < tail.len() implies tail[k].1 by {
            assert(tail[k] == blank[k + 1]);
        }
        lemma_words_skip_blank(tail, rest);
    }
}

/// A run in front of a line is its first word, whole, if it is not empty,
/// holds no separator, and ends where the line ends or a separator stands.
pub proof fn lemma_words_take_word(run: Seq<(char, bool)>, rest: Seq<(char, bool)>)
    requires
        run.len() > 0,
        forall|k: int| 0 <= k < run.len() ==> !run[k].1,
        rest.len() == 0 || rest[0].1,
    ensures
        words(run + rest) == seq![letters(run)] + words(rest),
{
    let line = run + rest;
    assert(line[0] == run[0]);
    assert forall|k: int| 0 <= k < run.len() implies !line[k].1 by {
        assert(line[k] == run[k]);
    }
    if rest.len() > 0 {
        assert(line[run.len() as int] == rest[0]);
    }
    lemma_word_len(line, run.len() as int);
    assert(line.take(run.len() as int) =~= run);
    assert(line.skip(run.len() as int) =~= rest);
}

/// The longest prefix without a separator holds no separator.
proof fn lemma_word_len_is_a_word(line: Seq<(char, bool)>)
    ensures
        forall|k: int| 0 <= k < word_len(line) ==> !(#[trigger] line[k]).1,
    decreases line.len(),
{
    if line.len() > 0 && !line[0].1 {
        let rest = line.skip(1);
        lemma_word_len_is_a_word(rest);
        lemma_word_len_bound(rest);
        assert forall|k: int| 0 <= k < word_len(line) implies !(#[trigger] line[k]).1 by {
            if k > 0 {
                assert(line[k] == rest[k - 1]);
            }
        }
    }
}

/// In a line whose marks say which characters are whitespace, every word
/// is not empty and holds no whitespace.
proof fn lemma_words_hold_no_whitespace(line: Seq<(char, bool)>, index: int)
    requires
        forall|k: int| 0 <= k < line.len() ==> (#[trigger] line[k]).1 == is_whitespace(line[k].0),
        0 <= index < words(line).len(),
    ensures
        words(line)[index].len() > 0,
        forall|k: int|
            0 <= k < words(line)[index].len() ==> !is_whitespace(#[trigger] words(line)[index][k]),
    decreases line.len(),
{
    if line.len() > 0 {
        if line[0].1 {
            let rest = line.skip(1);
            assert forall|k: int| 0 <= k < rest.len() implies (#[trigger] rest[k]).1
                == is_whitespace(rest[k].0) by {
                assert(rest[k] == line[k + 1]);
            }
            lemma_words_hold_no_whitespace(rest, index);
        } else {
            lemma_word_len_bound(line);
            lemma_word_len_is_a_word(line);
            let n = word_len(line) as int;
            if index == 0 {
                let word = letters(line.take(n));
                assert(words(line)[0] == word);
                assert forall|k: int| 0 <= k < word.len() implies !is_whitespace(
                    #[trigger] word[k],
                ) by {
                    assert(word[k] == line[k].0);
                }
            } else {
                let rest = line.skip(n);
                assert forall|k: int| 0 <= k < rest.len() implies (#[trigger] rest[k]).1
                    == is_whitespace(rest[k].0) by {
                    assert(rest[k] == line[k + n]);
                }
                lemma_words_hold_no_whitespace(rest, index - 1);
                assert(words(line)[index] == words(rest)[index - 1]);
            }
        }
    }
}

/// Every argument of a command line is not empty and holds no whitespace.
pub proof fn lemma_tokens_are_words(line: Seq<char>, index: int)
    requires
        0 <= index < tokens(line).len(),
    ensures
        tokens(line)[index].len() > 0,
        forall|k: int|
            0 <= k < tokens(line)[index].len() ==> !is_whitespace(#[trigger] tokens(line)[index][k]),
{
    lemma_words_hold_no_whitespace(marked(line, whitespace_marks(line)), index);
}

/// Whitespace in front of a command line yields no argument.
pub proof fn lemma_tokens_skip_blank(blank: Seq<char>, rest: Seq<char>)
    requires
        forall|k: int| 0 <= k < blank.len() ==> is_whitespace(blank[k]),
    ensures
        tokens(blank + rest) == tokens(rest),
{
    let front = marked(blank, whitespace_marks(blank));
    let back = marked(rest, whitespace_marks(rest));
    assert(marked(blank + rest, whitespace_marks(blank + rest)) =~= front + back);
    lemma_words_skip_blank(front, back);
}

/// A word in front of a command line is its first argument, whole: a word
/// is not empty, holds no whitespace, and ends where the line ends or
/// whitespace begins.
pub proof fn lemma_tokens_take_word(word: Seq<char>, rest: Seq<char>)
    requires
        word.len() > 0,
        forall|k: int| 0 <= k < word.len() ==> !is_whitespace(word[k]),
        rest.len() == 0 || is_whitespace(rest[0]),
    ensures
        tokens(word + rest) == seq![word] + tokens(rest),
{
    let front = marked(word, whitespace_marks(word));
    let back = marked(rest, whitespace_marks(rest));
    assert(marked(word + rest, whitespace_marks(word + rest)) =~= front + back);
    assert(letters(front) =~= word);
    lemma_words_take_word(front, back);
}

/// Splits a line into its words. `marks` says, position by position, which
/// characters separate words; a character without a mark does not.
pub fn split_words(line: &str, marks: &Vec<bool>) -> (found: Vec<String>)
    ensures
        texts(found@) == words(marked(line@, marks@)),
{
    let ghost all = marked(line@, marks@);
    let n = line.unicode_len();
    let mut found: Vec<String> = Vec::new();
    let mut i: usize = 0;
    assert(all.skip(0) =~= all);
    assert(texts(found@) + words(all) =~= words(all));
    while i < n
        invariant
            all == marked(line@, marks@),
            n == line@.len(),
            i <= n,
            texts(found@) + words(all.skip(i as int)) == words(all),
        decreases n - i,
    {
        let ghost rest = all.skip(i as int);
        if i < marks.len() && marks[i] {
            assert(rest.skip(1) =~= all.skip(i + 1));
            i = i + 1;
        } else {
            let mut j: usize = i + 1;
            while j < n && !(j < marks.len() && marks[j])
                invariant
                    all == marked(line@, marks@),
                    n == line@.len(),
                    i < j <= n,
                    forall|k: int| i <= k < j ==> !all[k].1,
                decreases n - j,
            {
                j = j + 1;
            }
            let word = String::from_str(line.substring_char(i, j));
            proof {
                lemma_word_len(rest, j - i);
                assert(letters(rest.take(j - i)) =~= line@.subrange(i as int, j as int));
                assert(rest.skip(j - i) =~= all.skip(j as int));
                lemma_texts_push(found@, word);
                assert(texts(found@).push(word@) + words(all.skip(j as int)) =~= texts(found@) + (
                seq![word@] + words(all.skip(j as int))));
            }
            found.push(word);
            i = j;
        }
    }
    assert(all.skip(n as int) =~= Seq::<(char, bool)>::empty());
    assert(texts(found@) + Seq::<Seq<char>>::empty() =~= texts(found@));
    found
}

/// Marks the whitespace of a line.
pub fn mark_whitespace(line: &str) -> (marks: Vec<bool>)
    ensures
        marks@ == whitespace_marks(line@),
{
    let n = line.unicode_len();
    let mut marks: Vec<bool> = Vec::new();
    let mut i: usize = 0;
    while i < n
        invariant
            n == line@.len(),
            i <= n,
            marks@.len() == i,
            forall|k: int| 0 <= k < i ==> marks@[k] == is_whitespace(line@[k]),
        decreases n - i,
    {
        marks.push(char_is_whitespace(line.get_char(i)));
        i = i + 1;
    }
    assert(marks@ =~= whitespace_marks(line@));
    marks
}

/// Splits a command line at whitespace. Leading, trailing and repeated
/// whitespace yields no empty argument.
pub fn parse_command(command: &str) -> (args: Vec<String>)
    ensures
        texts(args@) == tokens(command@),
{
    let marks = mark_whitespace(command);
    split_words(command, &marks)
}

} // verus!
