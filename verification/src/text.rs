//! Characters, words and decimal numbers of the control protocol's lines.

use vstd::prelude::*;

verus! {

/// `String::push` appends one character.
pub assume_specification[ String::push ](text: &mut String, ch: char)
    ensures
        final(text)@ == old(text)@.push(ch),
;

/// The characters of `text`, in order.
pub fn chars_of(text: &str) -> (chars: Vec<char>)
    ensures
        chars@ == text@,
{
    let mut chars: Vec<char> = Vec::new();
    for c in iter: text.chars()
        invariant
            iter.seq() == text@,
            chars@ == text@.take(iter.index()),
    {
        chars.push(c);
    }
    chars
}

/// Whether `c` separates words: the characters that Unicode calls white space.
pub open spec fn is_space(c: char) -> bool {
    let u = c as u32;
    ||| 0x09 <= u <= 0x0D
    ||| u == 0x20
    ||| u == 0x85
    ||| u == 0xA0
    ||| u == 0x1680
    ||| 0x2000 <= u <= 0x200A
    ||| u == 0x2028
    ||| u == 0x2029
    ||| u == 0x202F
    ||| u == 0x205F
    ||| u == 0x3000
}

/// Whether `c` separates words.
pub fn space(c: char) -> (b: bool)
    ensures
        b == is_space(c),
{
    let u: u32 = c as u32;
    (0x09 <= u && u <= 0x0D) || u == 0x20 || u == 0x85 || u == 0xA0 || u == 0x1680 || (0x2000 <= u
        && u <= 0x200A) || u == 0x2028 || u == 0x2029 || u == 0x202F || u == 0x205F || u == 0x3000
}

/// The first position at or after `from` that holds no space; the line's length if there is none.
pub open spec fn skip_spaces(line: Seq<char>, from: int) -> int
    decreases line.len() - from,
{
    if 0 <= from < line.len() && is_space(line[from]) {
        skip_spaces(line, from + 1)
    } else {
        from
    }
}

/// The first position at or after `from` that holds a space; the line's length if there is none.
pub open spec fn skip_word(line: Seq<char>, from: int) -> int
    decreases line.len() - from,
{
    if 0 <= from < line.len() && !is_space(line[from]) {
        skip_word(line, from + 1)
    } else {
        from
    }
}

/// Where the first word at or after `from` begins and ends. Both are the line's length where no word is left.
pub open spec fn word_bounds(line: Seq<char>, from: int) -> (int, int) {
    let begin = skip_spaces(line, from);
    (begin, skip_word(line, begin))
}

/// The first word of `line`: its first run of characters that are no spaces. Empty if the line has no word.
pub open spec fn first_word(line: Seq<char>) -> Seq<char> {
    let (begin, end) = word_bounds(line, 0);
    line.subrange(begin, end)
}

/// The second word of `line`. Empty if the line has fewer than two words.
pub open spec fn second_word(line: Seq<char>) -> Seq<char> {
    let (begin, end) = word_bounds(line, word_bounds(line, 0).1);
    line.subrange(begin, end)
}

/// A run of spaces with a character that is no space, or the line's end, behind it is
/// skipped as a whole.
pub proof fn lemma_skip_spaces_run(line: Seq<char>, from: int, to: int)
    requires
        0 <= from <= to <= line.len(),
        forall|i: int| from <= i < to ==> is_space(#[trigger] line[i]),
        to == line.len() || !is_space(line[to]),
    ensures
        skip_spaces(line, from) == to,
    decreases to - from,
{
    if from < to {
        lemma_skip_spaces_run(line, from + 1, to);
    }
}

/// A run of characters that are no spaces with a space, or the line's end, behind it is
/// skipped as one word.
pub proof fn lemma_skip_word_run(line: Seq<char>, from: int, to: int)
    requires
        0 <= from <= to <= line.len(),
        forall|i: int| from <= i < to ==> !is_space(#[trigger] line[i]),
        to == line.len() || is_space(line[to]),
    ensures
        skip_word(line, from) == to,
    decreases to - from,
{
    if from < to {
        lemma_skip_word_run(line, from + 1, to);
    }
}

/// Finds the first word at or after `from`.
pub fn find_word(line: &[char], from: usize) -> (bounds: (usize, usize))
    ensures
        (bounds.0 as int, bounds.1 as int) == word_bounds(line@, from as int),
        from <= bounds.0 <= bounds.1,
        from <= line.len() ==> bounds.1 <= line.len(),
{
    if from > line.len() {
        return (from, from);
    }
    let mut begin: usize = from;
    while begin < line.len() && space(line[begin])
        invariant
            from <= begin <= line.len(),
            skip_spaces(line@, begin as int) == skip_spaces(line@, from as int),
        decreases line.len() - begin,
    {
        begin += 1;
    }
    let mut end: usize = begin;
    while end < line.len() && !space(line[end])
        invariant
            begin <= end <= line.len(),
            skip_word(line@, end as int) == skip_word(line@, begin as int),
        decreases line.len() - end,
    {
        end += 1;
    }
    (begin, end)
}

/// Whether the characters `text` spell `word`.
pub fn spells(text: &[char], word: &str) -> (same: bool)
    ensures
        same == (text@ == word@),
{
    let letters = chars_of(word);
    if letters.len() != text.len() {
        return false;
    }
    let mut at: usize = 0;
    while at < letters.len()
        invariant
            letters@ == word@,
            letters.len() == text.len(),
            at <= letters.len(),
            forall|k: int| 0 <= k < at ==> text@[k] == letters@[k],
        decreases letters.len() - at,
    {
        if text[at] != letters[at] {
            return false;
        }
        at += 1;
    }
    assert(text@ =~= letters@);
    true
}

} // verus!
