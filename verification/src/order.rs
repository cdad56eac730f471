//! The order of texts: character by character, a proper prefix before its
//! extensions, which is how strings compare.

use vstd::prelude::*;

use crate::text;
use crate::text::chars_of;

verus! {

/// Whether `a` sorts strictly before `b`.
pub open spec fn precedes(a: Seq<char>, b: Seq<char>) -> bool
    decreases a.len(),
{
    if b.len() == 0 {
        false
    } else if a.len() == 0 {
        true
    } else if a[0] != b[0] {
        a[0] < b[0]
    } else {
        precedes(a.drop_first(), b.drop_first())
    }
}

/// Later entries never sort after earlier ones.
pub open spec fn descending(texts: Seq<Seq<char>>) -> bool {
    forall|i: int, j: int|
        #![trigger texts[i], texts[j]]
        0 <= i < j < texts.len() ==> !precedes(texts[i], texts[j])
}

/// No text sorts before itself.
pub proof fn lemma_precedes_irreflexive(a: Seq<char>)
    ensures
        !precedes(a, a),
    decreases a.len(),
{
    if a.len() > 0 {
        lemma_precedes_irreflexive(a.drop_first());
    }
}

/// Of two different texts, one sorts before the other.
pub proof fn lemma_precedes_total(a: Seq<char>, b: Seq<char>)
    ensures
        a == b || precedes(a, b) || precedes(b, a),
    decreases a.len(),
{
    if a.len() == 0 && b.len() == 0 {
        assert(a =~= b);
    } else if a.len() > 0 && b.len() > 0 && a[0] == b[0] {
        lemma_precedes_total(a.drop_first(), b.drop_first());
        if a.drop_first() == b.drop_first() {
            assert(a =~= seq![a[0]] + a.drop_first());
            assert(b =~= seq![b[0]] + b.drop_first());
        }
    }
}

/// Sorting before is transitive.
pub proof fn lemma_precedes_transitive(a: Seq<char>, b: Seq<char>, c: Seq<char>)
    requires
        precedes(a, b),
        precedes(b, c),
    ensures
        precedes(a, c),
    decreases a.len(),
{
    if a.len() > 0 && a[0] == b[0] && b[0] == c[0] {
        lemma_precedes_transitive(a.drop_first(), b.drop_first(), c.drop_first());
    }
}

/// Two texts never sort before each other.
pub proof fn lemma_precedes_asymmetric(a: Seq<char>, b: Seq<char>)
    requires
        precedes(a, b),
    ensures
        !precedes(b, a),
{
    if precedes(b, a) {
        lemma_precedes_transitive(a, b, a);
        lemma_precedes_irreflexive(a);
    }
}

/// If `b` does not sort before `a`, and `c` not before `b`, then `c` does not
/// sort before `a`.
proof fn lemma_not_precedes_transitive(a: Seq<char>, b: Seq<char>, c: Seq<char>)
    requires
        !precedes(b, a),
        !precedes(c, b),
    ensures
        !precedes(c, a),
{
    lemma_precedes_total(a, b);
    lemma_precedes_total(b, c);
    if precedes(c, a) {
        if a == b {
        } else if b == c {
        } else {
            lemma_precedes_transitive(a, b, c);
            lemma_precedes_asymmetric(a, c);
        }
    }
}

/// A common prefix does not affect how two texts sort.
pub proof fn lemma_precedes_common_prefix(p: Seq<char>, a: Seq<char>, b: Seq<char>)
    ensures
        precedes(p + a, p + b) == precedes(a, b),
    decreases p.len(),
{
    if p.len() == 0 {
        assert(p + a =~= a);
        assert(p + b =~= b);
    } else {
        assert((p + a).drop_first() =~= p.drop_first() + a);
        assert((p + b).drop_first() =~= p.drop_first() + b);
        lemma_precedes_common_prefix(p.drop_first(), a, b);
    }
}

/// Texts of equal length that differ keep their order whatever is appended.
proof fn lemma_precedes_extended(a: Seq<char>, b: Seq<char>, x: char, y: char)
    requires
        a.len() == b.len(),
        precedes(a, b),
    ensures
        precedes(a.push(x), b.push(y)),
    decreases a.len(),
{
    if a[0] == b[0] {
        assert(a.push(x).drop_first() =~= a.drop_first().push(x));
        assert(b.push(y).drop_first() =~= b.drop_first().push(y));
        lemma_precedes_extended(a.drop_first(), b.drop_first(), x, y);
    }
}

/// Numbers written with equally many digits sort as texts in their numeric
/// order.
pub proof fn lemma_decimal_order(m: nat, n: nat)
    requires
        m < n,
        text::decimal(m).len() == text::decimal(n).len(),
    ensures
        precedes(text::decimal(m), text::decimal(n)),
    decreases n,
{
    if n < 10 {
    } else if m < 10 {
        assert(text::decimal(n / 10).len() > 0) by {
            lemma_decimal_nonempty(n / 10);
        }
    } else if m / 10 < n / 10 {
        lemma_decimal_order(m / 10, n / 10);
        lemma_precedes_extended(
            text::decimal(m / 10),
            text::decimal(n / 10),
            text::digit(m % 10),
            text::digit(n % 10),
        );
    } else {
        assert(m / 10 == n / 10);
        let p = text::decimal(m / 10);
        assert(text::decimal(m) =~= p + seq![text::digit(m % 10)]);
        assert(text::decimal(n) =~= p + seq![text::digit(n % 10)]);
        lemma_precedes_common_prefix(p, seq![text::digit(m % 10)], seq![text::digit(n % 10)]);
    }
}

/// Every number has at least one digit.
pub proof fn lemma_decimal_nonempty(n: nat)
    ensures
        text::decimal(n).len() > 0,
    decreases n,
{
}

/// A number is written in digits.
pub proof fn lemma_decimal_digits(n: nat, i: int)
    requires
        0 <= i < text::decimal(n).len(),
    ensures
        '0' <= text::decimal(n)[i] <= '9',
    decreases n,
{
    if n >= 10 && i < text::decimal(n / 10).len() {
        lemma_decimal_digits(n / 10, i);
    }
}

/// Different numbers are written differently.
pub proof fn lemma_decimal_injective(m: nat, n: nat)
    requires
        text::decimal(m) == text::decimal(n),
    ensures
        m == n,
{
    if m < n {
        lemma_decimal_order(m, n);
        lemma_precedes_irreflexive(text::decimal(m));
    } else if n < m {
        lemma_decimal_order(n, m);
        lemma_precedes_irreflexive(text::decimal(m));
    }
}

/// Whether `a` sorts strictly before `b`.
pub fn text_precedes(a: &str, b: &str) -> (before: bool)
    ensures
        before == precedes(a@, b@),
{
    let xs = chars_of(a);
    let ys = chars_of(b);
    let mut i: usize = 0;
    assert(a@.skip(0) =~= a@);
    assert(b@.skip(0) =~= b@);
    while i < xs.len() && i < ys.len() && xs[i] == ys[i]
        invariant
            xs@ == a@,
            ys@ == b@,
            i <= xs@.len(),
            i <= ys@.len(),
            precedes(a@, b@) == precedes(a@.skip(i as int), b@.skip(i as int)),
        decreases xs.len() - i,
    {
        assert(a@.skip(i as int).drop_first() =~= a@.skip(i + 1));
        assert(b@.skip(i as int).drop_first() =~= b@.skip(i + 1));
        i = i + 1;
    }
    if i >= ys.len() {
        false
    } else if i >= xs.len() {
        true
    } else {
        xs[i] < ys[i]
    }
}

/// Inserts a text into a descending list so that it stays descending.
fn insert_descending(sorted: &mut Vec<String>, text: String)
    requires
        descending(text::views(old(sorted)@)),
    ensures
        descending(text::views(final(sorted)@)),
        text::views(final(sorted)@).to_multiset() == text::views(old(sorted)@).to_multiset().insert(text@),
{
    let ghost before = text::views(sorted@);
    let ghost t = text@;
    let mut at: usize = 0;
    while at < sorted.len() && text_precedes(text.as_str(), sorted[at].as_str())
        invariant
            at <= sorted@.len(),
            text::views(sorted@) == before,
            t == text@,
            forall|i: int| 0 <= i < at ==> precedes(t, #[trigger] before[i]),
        decreases sorted.len() - at,
    {
        assert(before[at as int] == sorted@[at as int]@);
        at = at + 1;
    }
    sorted.insert(at, text);
    proof {
        let after = text::views(sorted@);
        assert(after =~= before.insert(at as int, t));
        vstd::seq_lib::to_multiset_insert(before, at as int, t);
        assert forall|i: int, j: int|
            #![trigger after[i], after[j]]
            0 <= i < j < after.len() implies !precedes(after[i], after[j]) by {
            if i < at && j == at {
                lemma_precedes_asymmetric(t, before[i]);
            } else if i == at && j > at {
                if j - 1 > at {
                    assert(!precedes(before[at as int], before[j - 1]));
                    lemma_not_precedes_transitive(before[j - 1], before[at as int], t);
                }
            } else if j < at {
                assert(!precedes(before[i], before[j]));
            } else if i < at {
                assert(!precedes(before[i], before[j - 1]));
            } else {
                assert(!precedes(before[i - 1], before[j - 1]));
            }
        }
    }
}

/// The same texts, the one that sorts last first.
pub fn sort_descending(texts: Vec<String>) -> (sorted: Vec<String>)
    ensures
        descending(text::views(sorted@)),
        text::views(sorted@).to_multiset() == text::views(texts@).to_multiset(),
{
    let mut sorted: Vec<String> = Vec::new();
    let mut i: usize = 0;
    proof {
        assert(text::views(texts@).take(0) =~= text::views(sorted@));
    }
    while i < texts.len()
        invariant
            i <= texts@.len(),
            descending(text::views(sorted@)),
            text::views(sorted@).to_multiset() == text::views(texts@).take(i as int).to_multiset(),
        decreases texts.len() - i,
    {
        insert_descending(&mut sorted, texts[i].clone());
        proof {
            assert(text::views(texts@).take(i + 1) =~= text::views(texts@).take(i as int).push(
                text::views(texts@)[i as int],
            ));
            vstd::seq_lib::to_multiset_build(
                text::views(texts@).take(i as int),
                text::views(texts@)[i as int],
            );
        }
        i = i + 1;
    }
    proof {
        assert(text::views(texts@).take(texts@.len() as int) =~= text::views(texts@));
    }
    sorted
}

/// Texts sort by the first character in which they differ, and a text before
/// those that it begins.
pub proof fn law_texts_sort_by_their_first_difference(a: Seq<char>, b: Seq<char>, k: int)
    requires
        0 <= k <= a.len(),
        k <= b.len(),
        a.take(k) == b.take(k),
        k == a.len() || k == b.len() || a[k] != b[k],
    ensures
        precedes(a, b) <==> k < b.len() && (k == a.len() || a[k] < b[k]),
    decreases k,
{
    if k > 0 {
        assert(a[0] == a.take(k)[0]);
        assert(b[0] == b.take(k)[0]);
        assert(a.drop_first().take(k - 1) =~= a.take(k).drop_first());
        assert(b.drop_first().take(k - 1) =~= b.take(k).drop_first());
        law_texts_sort_by_their_first_difference(a.drop_first(), b.drop_first(), k - 1);
    }
}

} // verus!
