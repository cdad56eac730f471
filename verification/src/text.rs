//! Text primitives: building, splitting, comparing and rendering strings,
//! each specified over the sequence of characters that a string holds.

use vstd::prelude::*;

verus! {

/// `String::push` appends the given character to the end of the string.
pub assume_specification[ String::push ](s: &mut String, c: char)
    ensures
        final(s)@ == old(s)@.push(c),
;

/// The views of a list of strings.
pub open spec fn views(texts: Seq<String>) -> Seq<Seq<char>> {
    texts.map_values(|t: String| t@)
}

/// The characters of a text, in order.
pub fn chars_of(text: &str) -> (chars: Vec<char>)
    ensures
        chars@ == text@,
{
    let mut chars: Vec<char> = Vec::new();
    for c in it: text.chars()
        invariant
            it.seq() == text@,
            chars@ == it.seq().take(it.index() as int),
    {
        chars.push(c);
        assert(it.seq().take(it.index() + 1) =~= it.seq().take(it.index() as int).push(c));
    }
    chars
}

/// The text that a stretch of characters spells.
pub fn text_between(chars: &Vec<char>, from: usize, to: usize) -> (text: String)
    requires
        from <= to <= chars@.len(),
    ensures
        text@ == chars@.subrange(from as int, to as int),
{
    let mut text = String::new();
    let mut i: usize = from;
    while i < to
        invariant
            from <= i <= to <= chars@.len(),
            text@ == chars@.subrange(from as int, i as int),
        decreases to - i,
    {
        text.push(chars[i]);
        assert(chars@.subrange(from as int, i + 1) =~= chars@.subrange(from as int, i as int).push(
            chars@[i as int],
        ));
        i = i + 1;
    }
    text
}

/// Whether two texts hold the same characters.
pub fn same_text(a: &str, b: &str) -> (same: bool)
    ensures
        same == (a@ == b@),
{
    a.to_owned() == b.to_owned()
}

/// Whether a text begins with a prefix.
pub fn starts_with(text: &str, prefix: &str) -> (starts: bool)
    ensures
        starts == prefix@.is_prefix_of(text@),
{
    let n: usize = prefix.unicode_len();
    if text.unicode_len() < n {
        return false;
    }
    let head = text.substring_char(0, n);
    assert(prefix@.is_prefix_of(text@) <==> prefix@ =~= text@.subrange(0, n as int));
    same_text(head, prefix)
}

/// The text without a suffix, if it ends in that suffix.
pub fn strip_suffix(text: &str, suffix: &str) -> (stem: Option<String>)
    ensures
        stem is Some <==> suffix@.is_suffix_of(text@),
        stem matches Some(s) ==> s@ + suffix@ == text@,
{
    let n: usize = text.unicode_len();
    let m: usize = suffix.unicode_len();
    if n < m {
        return None;
    }
    let tail = text.substring_char(n - m, n);
    assert(suffix@.is_suffix_of(text@) <==> suffix@ =~= text@.subrange(n - m, n as int));
    if same_text(tail, suffix) {
        let stem = text.substring_char(0, n - m).to_owned();
        assert(stem@ + suffix@ =~= text@);
        Some(stem)
    } else {
        None
    }
}

// ---------------------------------------------------------------------------
// Decimal numbers
// ---------------------------------------------------------------------------

/// The character of one decimal digit.
pub open spec fn digit(d: nat) -> char {
    (48 + d) as char
}

/// A number in decimal, without leading zeros.
pub open spec fn decimal(n: nat) -> Seq<char>
    decreases n,
{
    if n < 10 {
        seq![digit(n)]
    } else {
        decimal(n / 10).push(digit(n % 10))
    }
}

/// A number in decimal, with a leading zero where it has one digit.
pub open spec fn two_digits(n: nat) -> Seq<char> {
    if n < 10 {
        seq!['0'] + decimal(n)
    } else {
        decimal(n)
    }
}

/// Renders a number in decimal.
pub fn decimal_text(n: u64) -> (text: String)
    ensures
        text@ == decimal(n as nat),
    decreases n,
{
    if n < 10 {
        let mut text = String::new();
        text.push((48u8 + n as u8) as char);
        assert(text@ =~= decimal(n as nat));
        text
    } else {
        let mut text = decimal_text(n / 10);
        text.push((48u8 + (n % 10) as u8) as char);
        text
    }
}

/// Renders a number in decimal, zero-padded to two digits.
pub fn two_digit_text(n: u64) -> (text: String)
    ensures
        text@ == two_digits(n as nat),
{
    if n < 10 {
        let mut text = String::new();
        text.push('0');
        text.append(decimal_text(n).as_str());
        assert(text@ =~= two_digits(n as nat));
        text
    } else {
        decimal_text(n)
    }
}

// ---------------------------------------------------------------------------
// Words
// ---------------------------------------------------------------------------

/// Whether a character is white space, as Unicode has it.
pub open spec fn is_white(c: char) -> bool {
    ||| '\u{9}' <= c <= '\u{d}'
    ||| c == ' '
    ||| c == '\u{85}'
    ||| c == '\u{a0}'
    ||| c == '\u{1680}'
    ||| '\u{2000}' <= c <= '\u{200a}'
    ||| c == '\u{2028}'
    ||| c == '\u{2029}'
    ||| c == '\u{202f}'
    ||| c == '\u{205f}'
    ||| c == '\u{3000}'
}

/// Whether a character is white space.
pub fn is_whitespace(c: char) -> (white: bool)
    ensures
        white == is_white(c),
{
    ('\u{9}' <= c && c <= '\u{d}') || c == ' ' || c == '\u{85}' || c == '\u{a0}' || c
        == '\u{1680}' || ('\u{2000}' <= c && c <= '\u{200a}') || c == '\u{2028}' || c
        == '\u{2029}' || c == '\u{202f}' || c == '\u{205f}' || c == '\u{3000}'
}

/// The maximal stretches of a text that hold no white space, in order.
pub open spec fn words(s: Seq<char>) -> Seq<Seq<char>>
    decreases s.len(),
{
    if s.len() == 0 {
        Seq::empty()
    } else {
        let init = s.drop_last();
        let c = s.last();
        let before = words(init);
        if is_white(c) {
            before
        } else if init.len() > 0 && !is_white(init.last()) {
            before.drop_last().push(before.last().push(c))
        } else {
            before.push(seq![c])
        }
    }
}

/// A list of texts, one space between each and the next.
pub open spec fn spaced(parts: Seq<Seq<char>>) -> Seq<char>
    decreases parts.len(),
{
    if parts.len() == 0 {
        Seq::empty()
    } else if parts.len() == 1 {
        parts[0]
    } else {
        spaced(parts.drop_last()).push(' ') + parts.last()
    }
}

proof fn lemma_words_nonempty(s: Seq<char>)
    requires
        s.len() > 0,
        !is_white(s.last()),
    ensures
        words(s).len() > 0,
{
}

proof fn lemma_spaced_extended(parts: Seq<Seq<char>>, c: char)
    requires
        parts.len() > 0,
    ensures
        spaced(parts.drop_last().push(parts.last().push(c))) == spaced(parts).push(c),
{
    let longer = parts.drop_last().push(parts.last().push(c));
    assert(longer.drop_last() =~= parts.drop_last());
    if parts.len() > 1 {
        assert(spaced(longer) =~= spaced(parts).push(c));
    }
}

proof fn lemma_spaced_pushed(parts: Seq<Seq<char>>, c: char)
    ensures
        spaced(parts.push(seq![c])) == if parts.len() == 0 {
            seq![c]
        } else {
            spaced(parts).push(' ').push(c)
        },
{
    let longer = parts.push(seq![c]);
    assert(longer.drop_last() =~= parts);
    if parts.len() > 0 {
        assert(spaced(longer) =~= spaced(parts).push(' ').push(c));
    }
}

/// Whether no text of a list holds white space.
pub open spec fn free_of_white(parts: Seq<Seq<char>>) -> bool {
    forall|k: int, m: int|
        0 <= k < parts.len() && 0 <= m < parts[k].len() ==> !is_white(#[trigger] parts[k][m])
}

/// Words hold no white space.
pub proof fn lemma_words_are_free_of_white(s: Seq<char>)
    ensures
        free_of_white(words(s)),
    decreases s.len(),
{
    if s.len() > 0 {
        let before = words(s.drop_last());
        lemma_words_are_free_of_white(s.drop_last());
        if s.drop_last().len() > 0 && !is_white(s.drop_last().last()) {
            lemma_words_nonempty(s.drop_last());
            assert forall|k: int, m: int|
                0 <= k < words(s).len() && 0 <= m < words(s)[k].len() implies !is_white(
                #[trigger] words(s)[k][m],
            ) by {
                if !is_white(s.last()) && k == before.len() - 1 && m == before.last().len() {
                    assert(words(s)[k][m] == s.last());
                } else {
                    assert(words(s)[k][m] == before[k][m]);
                }
            }
        } else {
            assert forall|k: int, m: int|
                0 <= k < words(s).len() && 0 <= m < words(s)[k].len() implies !is_white(
                #[trigger] words(s)[k][m],
            ) by {
                if k < before.len() {
                    assert(words(s)[k][m] == before[k][m]);
                }
            }
        }
    }
}

/// Between words stand spaces, and no other white space.
pub proof fn lemma_spaced_holds_spaces_only(parts: Seq<Seq<char>>, i: int)
    requires
        free_of_white(parts),
        0 <= i < spaced(parts).len(),
        is_white(spaced(parts)[i]),
    ensures
        spaced(parts)[i] == ' ',
    decreases parts.len(),
{
    if parts.len() == 1 {
        assert(parts[0][i] == spaced(parts)[i]);
    } else if parts.len() > 1 {
        let before = spaced(parts.drop_last());
        if i < before.len() {
            assert forall|k: int, m: int|
                0 <= k < parts.drop_last().len() && 0 <= m < parts.drop_last()[k].len()
                    implies !is_white(#[trigger] parts.drop_last()[k][m]) by {
                assert(parts[k][m] == parts.drop_last()[k][m]);
            }
            lemma_spaced_holds_spaces_only(parts.drop_last(), i);
        } else if i > before.len() {
            let m = i - before.len() - 1;
            assert(parts[parts.len() - 1][m] == spaced(parts)[i]);
        }
    }
}

/// Folds every stretch of white space into one space, and drops it at the
/// ends.
pub fn fold_whitespace(text: &str) -> (folded: String)
    ensures
        folded@ == spaced(words(text@)),
{
    let chars = chars_of(text);
    let mut folded = String::new();
    let mut in_word = false;
    let mut any = false;
    let mut i: usize = 0;
    assert(text@.take(0) =~= Seq::empty());
    while i < chars.len()
        invariant
            chars@ == text@,
            i <= chars@.len(),
            folded@ == spaced(words(text@.take(i as int))),
            any == (words(text@.take(i as int)).len() > 0),
            in_word == (i > 0 && !is_white(text@[i - 1])),
        decreases chars.len() - i,
    {
        let c = chars[i];
        let ghost init = text@.take(i as int);
        assert(text@.take(i + 1).drop_last() =~= init);
        if !is_whitespace(c) {
            if in_word {
                proof {
                    lemma_words_nonempty(init);
                    lemma_spaced_extended(words(init), c);
                }
            } else {
                proof {
                    lemma_spaced_pushed(words(init), c);
                }
                if any {
                    folded.push(' ');
                }
            }
            folded.push(c);
            assert(folded@ =~= spaced(words(text@.take(i + 1))));
            any = true;
            in_word = true;
        } else {
            in_word = false;
        }
        i = i + 1;
    }
    assert(text@.take(text@.len() as int) =~= text@);
    folded
}

/// A character in upper case, where it is an ASCII letter.
pub open spec fn ascii_upper(c: char) -> char {
    if 'a' <= c <= 'z' {
        (c as u32 - 32) as char
    } else {
        c
    }
}

/// A text with its ASCII letters in upper case.
pub fn ascii_uppercase(text: &str) -> (upper: String)
    ensures
        upper@ == text@.map_values(|c: char| ascii_upper(c)),
{
    let chars = chars_of(text);
    let mut upper = String::new();
    let mut i: usize = 0;
    while i < chars.len()
        invariant
            chars@ == text@,
            i <= chars@.len(),
            upper@ == text@.take(i as int).map_values(|c: char| ascii_upper(c)),
        decreases chars.len() - i,
    {
        let c = chars[i];
        if 'a' <= c && c <= 'z' {
            upper.push((c as u8 - 32) as char);
        } else {
            upper.push(c);
        }
        assert(upper@ =~= text@.take(i + 1).map_values(|c: char| ascii_upper(c)));
        i = i + 1;
    }
    assert(text@.take(text@.len() as int) =~= text@);
    upper
}

// ---------------------------------------------------------------------------
// Laws
// ---------------------------------------------------------------------------

/// Whether a text holds a part.
pub open spec fn holds(s: Seq<char>, part: Seq<char>) -> bool {
    exists|k: int|
        0 <= k && k + part.len() <= s.len() && #[trigger] s.subrange(k, k + part.len()) == part
}

/// What stands between two texts is held.
pub proof fn lemma_holds_between(before: Seq<char>, part: Seq<char>, after: Seq<char>)
    ensures
        holds(before + part + after, part),
{
    let s = before + part + after;
    let k = before.len() as int;
    assert(s.subrange(k, k + part.len()) =~= part);
}

/// Of two texts one after the other, the first is a prefix and the second a
/// suffix.
pub proof fn lemma_affixes(head: Seq<char>, tail: Seq<char>)
    ensures
        head.is_prefix_of(head + tail),
        tail.is_suffix_of(head + tail),
{
    let s = head + tail;
    assert(head =~= s.subrange(0, head.len() as int));
    assert(tail =~= s.subrange(s.len() - tail.len(), s.len() as int));
}

/// The number that a row of digits spells.
pub open spec fn value_of(digits: Seq<char>) -> int
    decreases digits.len(),
{
    if digits.len() == 0 {
        0
    } else {
        10 * value_of(digits.drop_last()) + (digits.last() as int - '0' as int)
    }
}

/// A number that is written in decimal is read back from its digits, and starts
/// with no zero unless it is zero.
pub proof fn law_a_written_number_is_read_back(n: nat)
    ensures
        value_of(decimal(n)) == n,
        decimal(n).len() > 0,
        forall|i: int| 0 <= i < decimal(n).len() ==> '0' <= #[trigger] decimal(n)[i] <= '9',
        n > 0 ==> decimal(n)[0] != '0',
    decreases n,
{
    reveal_with_fuel(value_of, 2);
    if n < 10 {
        assert(decimal(n).drop_last() =~= Seq::empty());
    } else {
        law_a_written_number_is_read_back(n / 10);
        assert(decimal(n).drop_last() =~= decimal(n / 10));
        assert(decimal(n)[0] == decimal(n / 10)[0]);
    }
}

/// A number below a hundred that is padded to two digits has two, and is read
/// back from them.
pub proof fn law_a_padded_number_is_read_back(n: nat)
    requires
        n < 100,
    ensures
        two_digits(n).len() == 2,
        value_of(two_digits(n)) == n,
{
    law_a_written_number_is_read_back(n);
    reveal_with_fuel(value_of, 3);
    reveal_with_fuel(decimal, 2);
    let shown = two_digits(n);
    if n < 10 {
        assert(shown.drop_last() =~= seq!['0']);
        assert(seq!['0'].drop_last() =~= Seq::empty());
    } else {
        assert(n / 10 < 10);
    }
}

/// The characters of a text that are no white space, in order.
pub open spec fn letters(s: Seq<char>) -> Seq<char>
    decreases s.len(),
{
    if s.len() == 0 {
        s
    } else if is_white(s.last()) {
        letters(s.drop_last())
    } else {
        letters(s.drop_last()).push(s.last())
    }
}

/// How many stretches without white space a text holds: one for each character
/// that is none and that none stands before.
pub open spec fn stretches(s: Seq<char>) -> nat
    decreases s.len(),
{
    if s.len() == 0 {
        0
    } else {
        let before = stretches(s.drop_last());
        if !is_white(s.last()) && (s.len() == 1 || is_white(s[s.len() - 2])) {
            before + 1
        } else {
            before
        }
    }
}

proof fn lemma_letters_pushed(s: Seq<char>, c: char)
    ensures
        letters(s.push(c)) == if is_white(c) {
            letters(s)
        } else {
            letters(s).push(c)
        },
{
    assert(s.push(c).drop_last() =~= s);
}

/// Folding white space keeps every other character, and their order.
pub proof fn law_folding_keeps_every_letter(s: Seq<char>)
    ensures
        letters(spaced(words(s))) == letters(s),
    decreases s.len(),
{
    if s.len() > 0 {
        let init = s.drop_last();
        let c = s.last();
        law_folding_keeps_every_letter(init);
        if !is_white(c) {
            if init.len() > 0 && !is_white(init.last()) {
                lemma_words_nonempty(init);
                lemma_spaced_extended(words(init), c);
                lemma_letters_pushed(spaced(words(init)), c);
            } else {
                lemma_spaced_pushed(words(init), c);
                if words(init).len() == 0 {
                    lemma_letters_pushed(Seq::empty(), c);
                    assert(Seq::<char>::empty().push(c) =~= seq![c]);
                } else {
                    lemma_letters_pushed(spaced(words(init)), ' ');
                    lemma_letters_pushed(spaced(words(init)).push(' '), c);
                }
            }
        }
    }
}

/// There are as many words as stretches without white space, and folding sets
/// one space between each and the next: nothing more.
pub proof fn law_folding_sets_one_space_between_words(s: Seq<char>)
    ensures
        words(s).len() == stretches(s),
        spaced(words(s)).len() == letters(s).len() + if stretches(s) == 0 {
            0
        } else {
            stretches(s) - 1
        },
    decreases s.len(),
{
    if s.len() > 0 {
        let init = s.drop_last();
        let c = s.last();
        law_folding_sets_one_space_between_words(init);
        if init.len() > 0 {
            assert(init.last() == s[s.len() - 2]);
        }
        if !is_white(c) {
            if init.len() > 0 && !is_white(init.last()) {
                lemma_words_nonempty(init);
                lemma_spaced_extended(words(init), c);
            } else {
                lemma_spaced_pushed(words(init), c);
            }
        }
    }
}

/// Raising a letter leaves none in lower case, moves an ASCII letter by the
/// distance of the cases, and moves nothing else.
pub proof fn law_raising_moves_ascii_letters_only(c: char)
    ensures
        !('a' <= ascii_upper(c) <= 'z'),
        ascii_upper(c) != c ==> 'a' <= c <= 'z' && c as int - ascii_upper(c) as int == 32,
        ascii_upper(ascii_upper(c)) == ascii_upper(c),
{
}

/// White space is twenty-five characters, by their code points.
pub proof fn law_white_space_is_known_by_its_code_point(c: char)
    ensures
        is_white(c) <==> {
            let code = c as int;
            ||| 9 <= code <= 13 || code == 32
            ||| code == 133 || code == 160 || code == 5760
            ||| 8192 <= code <= 8202
            ||| code == 8232 || code == 8233 || code == 8239 || code == 8287 || code == 12288
        },
{
}

/// White space parts words: those of a text are those before a white space and
/// then those after it, and a text without any is one word.
pub proof fn law_white_space_parts_words(before: Seq<char>, white: char, after: Seq<char>)
    requires
        is_white(white),
    ensures
        words(before + seq![white] + after) == words(before) + words(after),
        after.len() == 0 ==> words(after).len() == 0,
        after.len() > 0 && (forall|i: int| 0 <= i < after.len() ==> !is_white(#[trigger] after[i]))
            ==> words(after) == seq![after],
    decreases after.len(),
{
    let s = before + seq![white] + after;
    if after.len() == 0 {
        assert(s.drop_last() =~= before);
        assert(words(before) + words(after) =~= words(before));
    } else {
        let init = after.drop_last();
        let c = after.last();
        law_white_space_parts_words(before, white, init);
        assert(s.drop_last() =~= before + seq![white] + init);
        assert(s.last() == c);
        let joined = words(before) + words(init);
        if is_white(c) {
        } else if init.len() > 0 && !is_white(init.last()) {
            assert(s.drop_last().last() == init.last());
            lemma_words_nonempty(init);
            assert(joined.last() == words(init).last());
            assert(words(s) =~= words(before) + words(after));
        } else {
            if init.len() > 0 {
                assert(s.drop_last().last() == init.last());
            } else {
                assert(s.drop_last().last() == white);
            }
            assert(words(s) =~= words(before) + words(after));
        }
        if forall|i: int| 0 <= i < after.len() ==> !is_white(#[trigger] after[i]) {
            assert forall|i: int| 0 <= i < init.len() implies !is_white(#[trigger] init[i]) by {
                assert(init[i] == after[i]);
            }
            assert(c == after[after.len() - 1]);
            if init.len() > 0 {
                assert(init.last() == init[init.len() - 1]);
                assert(init.push(c) =~= after);
                assert(words(after) =~= seq![after]);
            } else {
                assert(words(init) =~= Seq::empty());
                assert(seq![c] =~= after);
                assert(words(after) =~= seq![after]);
            }
        }
    }
}

/// Texts are set one space apart: those of the first half, a space, and those of
/// the second; one text alone is itself.
pub proof fn law_one_space_stands_between_texts(a: Seq<Seq<char>>, b: Seq<Seq<char>>)
    requires
        a.len() > 0,
        b.len() > 0,
    ensures
        spaced(a + b) == spaced(a) + seq![' '] + spaced(b),
        a.len() == 1 ==> spaced(a) == a[0],
    decreases b.len(),
{
    assert((a + b).drop_last() =~= a + b.drop_last());
    assert((a + b).last() == b.last());
    if b.len() == 1 {
        assert(a + b.drop_last() =~= a);
        assert(spaced(a + b) =~= spaced(a) + seq![' '] + spaced(b));
    } else {
        law_one_space_stands_between_texts(a, b.drop_last());
        assert(spaced(a + b) =~= spaced(a) + seq![' '] + spaced(b));
    }
}

} // verus!
