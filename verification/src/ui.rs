//! What is shown to people: messages scrubbed of endpoints, and durations.

use vstd::prelude::*;

use crate::text;
use crate::text::{chars_of, decimal_text, is_whitespace, text_between, two_digit_text};

verus! {

/// What stands in a message where a URL stood.
pub const REDACTED_URL: &'static str = "<url>";

/// Whether the mark of a URL, `://`, stands at a place.
pub open spec fn url_mark_at(s: Seq<char>, i: int) -> bool {
    &&& 0 <= i
    &&& i + 3 <= s.len()
    &&& s[i] == ':'
    &&& s[i + 1] == '/'
    &&& s[i + 2] == '/'
}

/// Whether a text holds a URL.
pub open spec fn holds_url(s: Seq<char>) -> bool {
    exists|i: int| url_mark_at(s, i)
}

/// The length of the word that a text starts with.
pub open spec fn word_len(s: Seq<char>) -> nat
    decreases s.len(),
{
    if s.len() == 0 || text::is_white(s[0]) {
        0
    } else {
        1 + word_len(s.drop_first())
    }
}

/// A text in which every word that holds a URL is redacted, and the white
/// space between words is kept as it is.
pub open spec fn scrubbed(s: Seq<char>) -> Seq<char>
    decreases s.len(),
{
    if s.len() == 0 {
        s
    } else if word_len(s) == 0 {
        seq![s[0]] + scrubbed(s.drop_first())
    } else if word_len(s) > s.len() {
        s
    } else {
        let word = s.take(word_len(s) as int);
        let shown = if holds_url(word) {
            REDACTED_URL@
        } else {
            word
        };
        shown + scrubbed(s.skip(word_len(s) as int))
    }
}

proof fn lemma_word_len(s: Seq<char>, n: int)
    requires
        0 <= n <= s.len(),
        forall|i: int| 0 <= i < n ==> !text::is_white(#[trigger] s[i]),
        n == s.len() || text::is_white(s[n]),
    ensures
        word_len(s) == n,
    decreases s.len(),
{
    if n > 0 {
        let rest = s.drop_first();
        assert forall|i: int| 0 <= i < n - 1 implies !text::is_white(#[trigger] rest[i]) by {
            assert(rest[i] == s[i + 1]);
        }
        lemma_word_len(rest, n - 1);
    }
}

proof fn lemma_word_len_bounds(s: Seq<char>)
    ensures
        word_len(s) <= s.len(),
        forall|i: int| 0 <= i < word_len(s) ==> !text::is_white(#[trigger] s[i]),
        word_len(s) == s.len() || text::is_white(s[word_len(s) as int]),
    decreases s.len(),
{
    if s.len() > 0 && !text::is_white(s[0]) {
        let rest = s.drop_first();
        lemma_word_len_bounds(rest);
        assert forall|i: int| 0 <= i < word_len(s) implies !text::is_white(#[trigger] s[i]) by {
            if i > 0 {
                assert(rest[i - 1] == s[i]);
            }
        }
        if word_len(rest) < rest.len() {
            assert(rest[word_len(rest) as int] == s[word_len(s) as int]);
        }
    }
}

/// Redacts every word that holds a URL, so that an endpoint that came from a
/// secret never reaches the terminal.
pub fn scrub_urls(message: &str) -> (clean: String)
    ensures
        clean@ == scrubbed(message@),
{
    let chars = chars_of(message);
    let ghost s = message@;
    let mut clean = String::new();
    let mut i: usize = 0;
    assert(s.skip(0) =~= s);
    assert(clean@ + scrubbed(s.skip(0)) =~= scrubbed(s));
    while i < chars.len()
        invariant
            chars@ == s,
            i <= chars@.len(),
            clean@ + scrubbed(s.skip(i as int)) == scrubbed(s),
        decreases chars.len() - i,
    {
        let ghost rest = s.skip(i as int);
        let ghost before = clean@;
        if is_whitespace(chars[i]) {
            clean.push(chars[i]);
            i = i + 1;
            assert(rest.drop_first() =~= s.skip(i as int));
            assert(clean@ + scrubbed(s.skip(i as int)) =~= before + scrubbed(rest));
        } else {
            let start: usize = i;
            let mut marked = false;
            while i < chars.len() && !is_whitespace(chars[i])
                invariant
                    chars@ == s,
                    start <= i <= chars@.len(),
                    forall|j: int| start <= j < i ==> !text::is_white(#[trigger] s[j]),
                    marked == holds_url(s.subrange(start as int, i as int)),
                    i == start ==> !marked,
                decreases chars.len() - i,
            {
                let ghost so_far = s.subrange(start as int, i as int);
                let ghost longer = s.subrange(start as int, i + 1);
                let ends = i - start >= 2 && chars[i - 2] == ':' && chars[i - 1] == '/' && chars[i]
                    == '/';
                proof {
                    if holds_url(so_far) {
                        let k = choose|k: int| url_mark_at(so_far, k);
                        assert(url_mark_at(longer, k));
                    }
                    if ends {
                        assert(url_mark_at(longer, i - start - 2));
                    }
                    if holds_url(longer) && !ends {
                        let k = choose|k: int| url_mark_at(longer, k);
                        if k == i - start - 2 {
                            assert(longer[k] == s[i - 2]);
                            assert(longer[k + 1] == s[i - 1]);
                            assert(longer[k + 2] == s[i as int]);
                        }
                        assert(url_mark_at(so_far, k));
                    }
                }
                if ends {
                    marked = true;
                }
                i = i + 1;
            }
            proof {
                assert forall|j: int| 0 <= j < i - start implies !text::is_white(
                    #[trigger] rest[j],
                ) by {
                    assert(rest[j] == s[start + j]);
                }
                if i < s.len() {
                    assert(rest[i - start] == s[i as int]);
                }
                lemma_word_len(rest, i - start);
                assert(rest.take(i - start) =~= s.subrange(start as int, i as int));
                assert(rest.skip(i - start) =~= s.skip(i as int));
            }
            if marked {
                clean.append(REDACTED_URL);
            } else {
                clean.append(text_between(&chars, start, i).as_str());
            }
            assert(clean@ + scrubbed(s.skip(i as int)) =~= before + scrubbed(rest));
        }
    }
    assert(s.skip(s.len() as int) =~= Seq::empty());
    assert(clean@ + scrubbed(s.skip(s.len() as int)) =~= clean@);
    clean
}

/// No URL survives scrubbing.
pub proof fn law_scrubbing_leaves_no_url(s: Seq<char>)
    ensures
        !holds_url(scrubbed(s)),
    decreases s.len(),
{
    lemma_word_len_bounds(s);
    if s.len() > 0 {
        let n = word_len(s);
        let shown = if n == 0 {
            seq![s[0]]
        } else if holds_url(s.take(n as int)) {
            REDACTED_URL@
        } else {
            s.take(n as int)
        };
        let rest = if n == 0 {
            s.drop_first()
        } else {
            s.skip(n as int)
        };
        assert(scrubbed(s) == shown + scrubbed(rest));
        law_scrubbing_leaves_no_url(rest);
        reveal_strlit("<url>");
        assert(!holds_url(shown)) by {
            if holds_url(shown) {
                let k = choose|k: int| url_mark_at(shown, k);
                assert(url_mark_at(shown, k));
            }
        }
        if holds_url(scrubbed(s)) {
            let k = choose|k: int| url_mark_at(scrubbed(s), k);
            let m = shown.len() as int;
            if k >= m {
                assert(url_mark_at(scrubbed(rest), k - m));
            } else if k + 3 <= m {
                assert(url_mark_at(shown, k));
            } else if n > 0 {
                // The character after a word is white space, which no URL mark holds.
                assert(rest.len() > 0);
                assert(rest[0] == s[n as int]);
                assert(scrubbed(rest)[0] == rest[0]);
                assert(scrubbed(s)[m] == rest[0]);
            } else {
                assert(scrubbed(s)[0] == s[0]);
            }
        }
    }
}

/// A text without a URL is shown as it is.
pub proof fn law_scrubbing_keeps_other_text(s: Seq<char>)
    requires
        !holds_url(s),
    ensures
        scrubbed(s) == s,
    decreases s.len(),
{
    lemma_word_len_bounds(s);
    if s.len() > 0 {
        let n = word_len(s);
        let rest = if n == 0 {
            s.drop_first()
        } else {
            s.skip(n as int)
        };
        let k0 = s.len() - rest.len();
        assert(!holds_url(rest)) by {
            if holds_url(rest) {
                let k = choose|k: int| url_mark_at(rest, k);
                assert(url_mark_at(s, k + k0));
            }
        }
        law_scrubbing_keeps_other_text(rest);
        if n > 0 {
            let word = s.take(n as int);
            assert(!holds_url(word)) by {
                if holds_url(word) {
                    let k = choose|k: int| url_mark_at(word, k);
                    assert(url_mark_at(s, k));
                }
            }
        }
        assert(scrubbed(s) =~= s);
    }
}

/// A duration in minutes and two-digit seconds.
pub open spec fn duration(seconds: nat) -> Seq<char> {
    text::decimal(seconds / 60) + "m "@ + text::two_digits(seconds % 60) + "s"@
}

/// Renders a duration in minutes and two-digit seconds.
pub fn format_duration(seconds: u64) -> (shown: String)
    ensures
        shown@ == duration(seconds as nat),
{
    let mut shown = decimal_text(seconds / 60);
    shown.append("m ");
    shown.append(two_digit_text(seconds % 60).as_str());
    shown.append("s");
    shown
}

/// A text holds a URL exactly where the three characters of the mark stand in
/// it, one after the other.
pub proof fn law_a_url_is_known_by_its_mark(s: Seq<char>)
    ensures
        holds_url(s) <==> text::holds(s, "://"@),
{
    reveal_strlit("://");
    let mark = "://"@;
    assert(mark =~= seq![':', '/', '/']);
    if holds_url(s) {
        let i = choose|i: int| url_mark_at(s, i);
        assert(s.subrange(i, i + 3) =~= mark);
        assert(s =~= s.take(i) + mark + s.skip(i + 3));
        text::lemma_holds_between(s.take(i), mark, s.skip(i + 3));
    }
    if text::holds(s, mark) {
        let i = choose|i: int|
            0 <= i && i + mark.len() <= s.len() && #[trigger] s.subrange(i, i + mark.len()) == mark;
        assert(s.subrange(i, i + 3)[0] == s[i]);
        assert(s.subrange(i, i + 3)[1] == s[i + 1]);
        assert(s.subrange(i, i + 3)[2] == s[i + 2]);
        assert(url_mark_at(s, i));
    }
}

/// Scrubbing goes word by word: what stands before white space is scrubbed by
/// itself, the white space is kept, and so is scrubbed what stands after it.
pub proof fn law_scrubbing_goes_word_by_word(before: Seq<char>, white: char, after: Seq<char>)
    requires
        text::is_white(white),
    ensures
        scrubbed(before + seq![white] + after) == scrubbed(before) + seq![white] + scrubbed(after),
    decreases before.len(),
{
    let s = before + seq![white] + after;
    if before.len() == 0 {
        assert(s[0] == white);
        assert(s.drop_first() =~= after);
        assert(scrubbed(s) =~= scrubbed(before) + seq![white] + scrubbed(after));
    } else {
        lemma_word_len_bounds(before);
        let n = word_len(before) as int;
        assert(s[0] == before[0]);
        if n == 0 {
            assert(s.drop_first() =~= before.drop_first() + seq![white] + after);
            law_scrubbing_goes_word_by_word(before.drop_first(), white, after);
            assert(scrubbed(s) =~= scrubbed(before) + seq![white] + scrubbed(after));
        } else {
            assert forall|i: int| 0 <= i < n implies !text::is_white(#[trigger] s[i]) by {
                assert(s[i] == before[i]);
            }
            if n < before.len() {
                assert(s[n] == before[n]);
            } else {
                assert(s[n] == white);
            }
            lemma_word_len(s, n);
            assert(s.take(n) =~= before.take(n));
            assert(s.skip(n) =~= before.skip(n) + seq![white] + after);
            law_scrubbing_goes_word_by_word(before.skip(n), white, after);
            assert(scrubbed(s) =~= scrubbed(before) + seq![white] + scrubbed(after));
        }
    }
}

/// A word is redacted exactly where it holds the mark of a URL, and is else
/// shown as it is.
pub proof fn law_a_word_is_redacted_for_its_url(word: Seq<char>)
    requires
        forall|i: int| 0 <= i < word.len() ==> !text::is_white(#[trigger] word[i]),
    ensures
        text::holds(word, "://"@) ==> scrubbed(word) == "<url>"@,
        !text::holds(word, "://"@) ==> scrubbed(word) == word,
{
    law_a_url_is_known_by_its_mark(word);
    if holds_url(word) {
        lemma_word_len(word, word.len() as int);
        assert(word.len() > 0);
        assert(word.take(word.len() as int) =~= word);
        assert(word.skip(word.len() as int) =~= Seq::empty());
        assert(scrubbed(word.skip(word.len() as int)) =~= Seq::empty());
        assert(scrubbed(word) =~= "<url>"@);
    } else {
        law_scrubbing_keeps_other_text(word);
    }
}

/// A duration is read back from what is shown of it: minutes, then seconds in
/// two digits, which make no further minute.
pub proof fn law_a_duration_is_read_back(seconds: nat)
    ensures
        ({
            let shown = duration(seconds);
            let k = shown.len() - 5;
            let minutes = shown.take(k);
            let rest = shown.subrange(k + 2, k + 4);
            &&& k > 0
            &&& shown[k] == 'm' && shown[k + 1] == ' ' && shown[k + 4] == 's'
            &&& text::value_of(rest) < 60
            &&& 60 * text::value_of(minutes) + text::value_of(rest) == seconds
        }),
{
    reveal_strlit("m ");
    reveal_strlit("s");
    text::law_a_written_number_is_read_back(seconds / 60);
    text::law_a_padded_number_is_read_back(seconds % 60);
    let shown = duration(seconds);
    let k = shown.len() - 5;
    assert(shown.take(k) =~= text::decimal(seconds / 60));
    assert(shown.subrange(k + 2, k + 4) =~= text::two_digits(seconds % 60));
}

} // verus!
