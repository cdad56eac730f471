//! Human-facing messages, amounts and tables of the intent commands.
//!
//! Rates and amounts are floating-point numbers where they are measured; here
//! they arrive as the fixed-point decimal text they were rounded to.

use vstd::prelude::*;

use crate::{table, text, ui};
use crate::table::{
    condensed_preset, load_preset, new_cell, new_table, set_arrangement, set_header,
    with_attribute, with_color, Arrangement, CellAttribute, CellColor,
};
use crate::text::{chars_of, decimal_text, text_between};
use crate::ui::scrub_urls;

verus! {

/// What a bar shows while something is under way.
pub const ACTIVITY_TEMPLATE: &'static str = "  {spinner:.cyan} {elapsed_precise}  {msg}";

/// What a bar shows while intents are being fulfilled.
pub const TRAFFIC_TEMPLATE: &'static str =
    "  {spinner:.cyan} {elapsed_precise} {pos}/{len} fulfilled\n  {msg}";

/// How often a bar is redrawn.
pub const TICK_MILLIS: u64 = 100;

/// The most characters that a detail may show.
pub const DETAIL_WIDTH: usize = 100;

// ---------------------------------------------------------------------------
// Messages
// ---------------------------------------------------------------------------

/// A text with its line breaks turned into spaces.
pub open spec fn on_one_line(s: Seq<char>) -> Seq<char> {
    s.map_values(
        |c: char|
            if c == '\n' || c == '\r' {
                ' '
            } else {
                c
            },
    )
}

/// A text cut to the width of a detail, an ellipsis in place of its end.
pub open spec fn within_width(s: Seq<char>) -> Seq<char> {
    if s.len() <= DETAIL_WIDTH {
        s
    } else {
        s.take(DETAIL_WIDTH - 1).push('…')
    }
}

/// What is shown of a message that is already free of URLs.
pub open spec fn compacted(s: Seq<char>) -> Seq<char> {
    within_width(on_one_line(s))
}

/// Shows a scrubbed message on one line of bounded width.
pub fn compact_line(message: &str) -> (shown: String)
    ensures
        shown@ == compacted(message@),
{
    let chars = chars_of(message);
    let mut line: Vec<char> = Vec::new();
    let mut i: usize = 0;
    while i < chars.len()
        invariant
            chars@ == message@,
            i <= chars@.len(),
            line@ == on_one_line(message@.take(i as int)),
        decreases chars.len() - i,
    {
        let c = chars[i];
        if c == '\n' || c == '\r' {
            line.push(' ');
        } else {
            line.push(c);
        }
        assert(line@ =~= on_one_line(message@.take(i + 1)));
        i = i + 1;
    }
    assert(message@.take(message@.len() as int) =~= message@);
    let n: usize = line.len();
    if n <= DETAIL_WIDTH {
        let shown = text_between(&line, 0, n);
        assert(shown@ =~= line@);
        shown
    } else {
        let mut shown = text_between(&line, 0, DETAIL_WIDTH - 1);
        assert(shown@ =~= line@.take(DETAIL_WIDTH - 1));
        shown.push('…');
        shown
    }
}

/// Shows a message scrubbed of URLs, on one line of bounded width.
pub fn compact_detail(message: &str) -> (shown: String)
    ensures
        shown@ == compacted(ui::scrubbed(message@)),
{
    let clean = scrub_urls(message);
    compact_line(clean.as_str())
}

/// A detail is at most a line wide, holds no line break, and shows no URL.
pub proof fn law_details_are_bounded(message: Seq<char>)
    ensures
        compacted(ui::scrubbed(message)).len() <= DETAIL_WIDTH,
        forall|i: int|
            0 <= i < compacted(ui::scrubbed(message)).len() ==> {
                &&& #[trigger] compacted(ui::scrubbed(message))[i] != '\n'
                &&& compacted(ui::scrubbed(message))[i] != '\r'
            },
        !ui::holds_url(compacted(ui::scrubbed(message))),
{
    let clean = ui::scrubbed(message);
    let shown = compacted(clean);
    ui::law_scrubbing_leaves_no_url(message);
    if ui::holds_url(shown) {
        let k = choose|k: int| ui::url_mark_at(shown, k);
        assert(shown[k + 2] == '/');
        assert(shown[k] == clean[k]);
        assert(shown[k + 1] == clean[k + 1]);
        assert(shown[k + 2] == clean[k + 2]);
        assert(ui::url_mark_at(clean, k));
    }
}

/// The message under a traffic bar.
pub open spec fn traffic_message(
    rate: Seq<char>,
    fulfilled: nat,
    context: Seq<char>,
    detail: Seq<char>,
) -> Seq<char> {
    "RUNNING | FILL "@ + rate + "/s (average)\n  "@ + text::decimal(fulfilled) + " fulfilled | "@
        + context + "\n  "@ + detail
}

/// The message under a traffic bar: the average rate, rounded to two
/// decimals, how many intents were fulfilled, and what happened last.
pub fn set_intent_traffic_message(
    rate: &str,
    fulfilled: u64,
    context: &str,
    status: &str,
) -> (message: String)
    ensures
        message@ == traffic_message(
            rate@,
            fulfilled as nat,
            context@,
            compacted(ui::scrubbed(status@)),
        ),
{
    let mut message = "RUNNING | FILL ".to_owned();
    message.append(rate);
    message.append("/s (average)\n  ");
    message.append(decimal_text(fulfilled).as_str());
    message.append(" fulfilled | ");
    message.append(context);
    message.append("\n  ");
    message.append(compact_detail(status).as_str());
    message
}

// ---------------------------------------------------------------------------
// Tables
// ---------------------------------------------------------------------------

/// Whether a cell is the header cell of a label: the label, bold and cyan.
pub open spec fn is_header_cell(cell: comfy_table::Cell, label: Seq<char>) -> bool {
    &&& table::cell_text(cell) == label
    &&& table::cell_color(cell) == Some(CellColor::Cyan)
    &&& table::cell_attributes(cell) == seq![CellAttribute::Bold]
}

/// A header cell.
pub fn header_cell(label: &str) -> (cell: comfy_table::Cell)
    ensures
        is_header_cell(cell, label@),
{
    let cell = with_attribute(with_color(new_cell(label), CellColor::Cyan), CellAttribute::Bold);
    assert(table::cell_attributes(cell) =~= seq![CellAttribute::Bold]);
    cell
}

/// A table of assets under the given headers, without dividers between rows
/// and wrapped to fit the terminal.
pub fn asset_table(headers: &[&str]) -> (table: comfy_table::Table)
    ensures
        table::table_style(table) == "││──╞═╪╡┆    ┬┴┌┐└┘"@,
        table::table_arrangement(table) == Arrangement::Dynamic,
        table::table_header(table) matches Some(cells) && {
            &&& cells.len() == headers@.len()
            &&& forall|i: int|
                0 <= i < headers@.len() ==> is_header_cell(#[trigger] cells[i], headers@[i]@)
        },
{
    let mut cells: Vec<comfy_table::Cell> = Vec::new();
    let mut i: usize = 0;
    while i < headers.len()
        invariant
            i <= headers@.len(),
            cells@.len() == i,
            forall|j: int| 0 <= j < i ==> is_header_cell(#[trigger] cells@[j], headers@[j]@),
        decreases headers.len() - i,
    {
        cells.push(header_cell(headers[i]));
        i = i + 1;
    }
    let mut table = new_table();
    let preset = condensed_preset();
    proof {
        reveal_strlit("││──╞═╪╡┆    ┬┴┌┐└┘");
    }
    load_preset(&mut table, preset);
    set_arrangement(&mut table, Arrangement::Dynamic);
    set_header(&mut table, cells);
    table
}

// ---------------------------------------------------------------------------
// Amounts
// ---------------------------------------------------------------------------

/// The first `k` characters of a number of `width` bytes, a comma before every
/// group of three that is counted from its end.
pub open spec fn grouped_upto(s: Seq<char>, width: nat, k: nat) -> Seq<char>
    decreases k,
{
    if k == 0 {
        Seq::empty()
    } else {
        let before = grouped_upto(s, width, (k - 1) as nat);
        let opens_group = k > 1 && (width - (k - 1)) % 3 == 0;
        let separated = if opens_group {
            before.push(',')
        } else {
            before
        };
        separated.push(s[k - 1])
    }
}

/// A whole number with its digits in groups of three.
pub open spec fn grouped(s: Seq<char>) -> Seq<char> {
    grouped_upto(s, vstd::utf8::encode_utf8(s).len(), s.len())
}

proof fn lemma_no_more_chars_than_bytes(s: Seq<char>)
    ensures
        s.len() <= vstd::utf8::encode_utf8(s).len(),
    decreases s.len(),
{
    if s.len() > 0 {
        lemma_no_more_chars_than_bytes(s.drop_first());
        vstd::utf8::char_is_scalar(s[0]);
        assert(vstd::utf8::encode_scalar(s[0] as u32).len() >= 1);
    }
}

/// A text without its commas.
pub open spec fn without_commas(s: Seq<char>) -> Seq<char>
    decreases s.len(),
{
    if s.len() == 0 {
        s
    } else if s.last() == ',' {
        without_commas(s.drop_last())
    } else {
        without_commas(s.drop_last()).push(s.last())
    }
}

/// Grouping adds commas and changes nothing else.
pub proof fn law_grouping_only_adds_commas(s: Seq<char>)
    ensures
        without_commas(grouped(s)) == without_commas(s),
{
    lemma_grouping_only_adds_commas(s, vstd::utf8::encode_utf8(s).len(), s.len());
    assert(s.take(s.len() as int) =~= s);
}

proof fn lemma_grouping_only_adds_commas(s: Seq<char>, width: nat, k: nat)
    requires
        k <= s.len(),
    ensures
        without_commas(grouped_upto(s, width, k)) == without_commas(s.take(k as int)),
    decreases k,
{
    if k == 0 {
        assert(s.take(0) =~= grouped_upto(s, width, 0));
    } else {
        reveal_with_fuel(without_commas, 3);
        let before = grouped_upto(s, width, (k - 1) as nat);
        lemma_grouping_only_adds_commas(s, width, (k - 1) as nat);
        assert(s.take(k as int).drop_last() =~= s.take(k - 1));
        assert(before.push(',').drop_last() =~= before);
        assert(before.push(s[k - 1]).drop_last() =~= before);
        assert(before.push(',').push(s[k - 1]).drop_last() =~= before.push(','));
    }
}

/// Whether a text is made of digits.
pub open spec fn all_digits(s: Seq<char>) -> bool {
    forall|i: int| 0 <= i < s.len() ==> '0' <= #[trigger] s[i] <= '9'
}

proof fn lemma_digits_are_bytes(s: Seq<char>)
    requires
        all_digits(s),
    ensures
        vstd::utf8::encode_utf8(s).len() == s.len(),
    decreases s.len(),
{
    if s.len() > 0 {
        let rest = s.drop_first();
        assert forall|i: int| 0 <= i < rest.len() implies '0' <= #[trigger] rest[i] <= '9' by {
            assert(rest[i] == s[i + 1]);
        }
        lemma_digits_are_bytes(rest);
        assert('0' <= s[0] <= '9');
    }
}

proof fn lemma_grouped_digits(s: Seq<char>, k: nat)
    requires
        all_digits(s),
        k <= s.len(),
    ensures
        ({
            let shown = grouped_upto(s, s.len(), k);
            let rest = s.len() - k;
            &&& k > 0 ==> shown.len() + rest + rest / 3 == s.len() + (s.len() - 1) / 3
            &&& k > 0 ==> shown.len() > 0 && shown[0] == s[0]
            &&& forall|i: int|
                0 <= i < shown.len() ==> ((#[trigger] shown[i] == ',') <==> (shown.len() + rest
                    + rest / 3 - i) % 4 == 0)
        }),
    decreases k,
{
    if k > 0 {
        lemma_grouped_digits(s, (k - 1) as nat);
        let before = grouped_upto(s, s.len(), (k - 1) as nat);
        let shown = grouped_upto(s, s.len(), k);
        assert('0' <= s[k - 1] <= '9');
        assert forall|i: int| 0 <= i < shown.len() implies ((#[trigger] shown[i] == ',') <==> (
        shown.len() + (s.len() - k) + (s.len() - k) / 3 - i) % 4 == 0) by {
            if i < before.len() {
                assert(shown[i] == before[i]);
            }
        }
    }
}

/// Of a number written in digits, grouping sets a comma before every third
/// digit counted from the end, and nowhere else: a character is a comma exactly
/// where the number of characters from it to the end is a multiple of four.
pub proof fn law_commas_part_groups_of_three(s: Seq<char>, i: int)
    requires
        all_digits(s),
        0 <= i < grouped(s).len(),
    ensures
        s.len() > 0,
        grouped(s).len() == s.len() + (s.len() - 1) / 3,
        grouped(s)[i] == ',' <==> (grouped(s).len() - i) % 4 == 0,
        grouped(s)[0] == s[0],
        grouped(s)[0] != ',',
{
    lemma_digits_are_bytes(s);
    lemma_grouped_digits(s, s.len());
}

/// Separates the digits of a whole number in groups of three.
pub fn group_digits(value: &str) -> (shown: String)
    ensures
        shown@ == grouped(value@),
{
    let chars = chars_of(value);
    let width: usize = value.as_bytes().len();
    let mut shown = String::new();
    let mut index: usize = 0;
    proof {
        lemma_no_more_chars_than_bytes(value@);
    }
    while index < chars.len()
        invariant
            chars@ == value@,
            width == vstd::utf8::encode_utf8(value@).len(),
            chars@.len() <= width,
            index <= chars@.len(),
            shown@ == grouped_upto(value@, width as nat, index as nat),
        decreases chars.len() - index,
    {
        if index > 0 && (width - index) % 3 == 0 {
            shown.push(',');
        }
        shown.push(chars[index]);
        index = index + 1;
    }
    shown
}

/// Whether a text holds a decimal point at its `k`-th character and nowhere
/// before.
pub open spec fn first_point(s: Seq<char>, k: int) -> bool {
    &&& 0 <= k < s.len()
    &&& s[k] == '.'
    &&& forall|i: int| 0 <= i < k ==> #[trigger] s[i] != '.'
}

/// A fixed-point number with the digits before its point in groups of three.
/// The point goes where no digit follows it.
pub open spec fn grouped_number(s: Seq<char>) -> Seq<char> {
    if exists|k: int| first_point(s, k) {
        let k = choose|k: int| first_point(s, k);
        if k + 1 == s.len() {
            grouped(s.take(k))
        } else {
            grouped(s.take(k)) + "."@ + s.skip(k + 1)
        }
    } else {
        grouped(s)
    }
}

/// Groups the digits before the point of a fixed-point number.
pub fn format_number(fixed: &str) -> (shown: String)
    ensures
        shown@ == grouped_number(fixed@),
{
    let chars = chars_of(fixed);
    let ghost s = fixed@;
    let n: usize = chars.len();
    let mut point: usize = 0;
    while point < n && chars[point] != '.'
        invariant
            chars@ == s,
            n == chars@.len(),
            point <= n,
            forall|i: int| 0 <= i < point ==> #[trigger] s[i] != '.',
        decreases n - point,
    {
        point = point + 1;
    }
    if point < n {
        proof {
            assert(first_point(s, point as int));
            let k = choose|k: int| first_point(s, k);
            assert(k == point) by {
                if k < point {
                    assert(s[k] != '.');
                } else if point < k {
                    assert(s[point as int] != '.');
                }
            }
            assert(s.subrange(0, point as int) =~= s.take(point as int));
            assert(s.subrange(point + 1, n as int) =~= s.skip(point + 1));
        }
        let mut shown = group_digits(text_between(&chars, 0, point).as_str());
        if point + 1 < n {
            shown.append(".");
            shown.append(text_between(&chars, point + 1, n).as_str());
        }
        shown
    } else {
        proof {
            if exists|k: int| first_point(s, k) {
                let k = choose|k: int| first_point(s, k);
                assert(s[k] != '.');
            }
        }
        group_digits(fixed)
    }
}

/// A text without the zeros that it ends in.
pub open spec fn without_trailing_zeros(s: Seq<char>) -> Seq<char>
    decreases s.len(),
{
    if s.len() > 0 && s.last() == '0' {
        without_trailing_zeros(s.drop_last())
    } else {
        s
    }
}

/// A number without the zeros that end its fraction, nor the point of an empty
/// one.
pub open spec fn trimmed(s: Seq<char>) -> Seq<char> {
    if s.contains('.') {
        let t = without_trailing_zeros(s);
        if t.len() > 0 && t.last() == '.' {
            t.drop_last()
        } else {
            t
        }
    } else {
        s
    }
}

/// Drops the zeros that end a fraction, and the point of an empty one.
pub fn trim_fraction(value: String) -> (shown: String)
    ensures
        shown@ == trimmed(value@),
{
    let chars = chars_of(value.as_str());
    let ghost s = value@;
    let n: usize = chars.len();
    let mut has_point = false;
    let mut i: usize = 0;
    while i < n
        invariant
            chars@ == s,
            n == chars@.len(),
            i <= n,
            has_point == (exists|j: int| 0 <= j < i && s[j] == '.'),
        decreases n - i,
    {
        if chars[i] == '.' {
            has_point = true;
        }
        i = i + 1;
    }
    if !has_point {
        return value;
    }
    let mut end: usize = n;
    assert(s.take(n as int) =~= s);
    while end > 0 && chars[end - 1] == '0'
        invariant
            chars@ == s,
            n == chars@.len(),
            end <= n,
            without_trailing_zeros(s) == without_trailing_zeros(s.take(end as int)),
        decreases end,
    {
        assert(s.take(end as int).drop_last() =~= s.take(end - 1));
        end = end - 1;
    }
    assert(without_trailing_zeros(s) == s.take(end as int));
    if end > 0 && chars[end - 1] == '.' {
        assert(s.take(end as int).drop_last() =~= s.take(end - 1));
        end = end - 1;
    }
    let shown = text_between(&chars, 0, end);
    assert(shown@ =~= s.take(end as int));
    shown
}

/// How many decimals a dollar amount shows.
pub const USD_PRECISION: usize = 2;

/// How many decimals a dollar price shows, by whether it is below one dollar.
pub fn usd_price_precision(below_one: bool) -> (precision: usize)
    ensures
        precision == if below_one {
            4usize
        } else {
            USD_PRECISION
        },
        !below_one ==> precision == 2,
{
    if below_one {
        4
    } else {
        USD_PRECISION
    }
}

/// How many decimals a token amount shows, by its size.
pub fn token_precision(at_least_thousand: bool, at_least_one: bool) -> (precision: usize)
    ensures
        precision == if at_least_thousand {
            2usize
        } else if at_least_one {
            4usize
        } else {
            6usize
        },
{
    if at_least_thousand {
        2
    } else if at_least_one {
        4
    } else {
        6
    }
}

/// Shows a dollar amount that was rounded to [`USD_PRECISION`] decimals.
pub fn format_usd(fixed: &str) -> (shown: String)
    ensures
        shown@ == "$"@ + grouped_number(fixed@),
{
    let mut shown = "$".to_owned();
    shown.append(format_number(fixed).as_str());
    shown
}

/// Shows a dollar price that was rounded to the decimals that
/// [`usd_price_precision`] gives.
pub fn format_usd_price(fixed: &str) -> (shown: String)
    ensures
        shown@ == "$"@ + grouped_number(fixed@),
{
    format_usd(fixed)
}

/// Shows a token amount: what it was rounded to with the decimals that
/// [`token_precision`] gives, or the amount as it is written where it is no
/// number.
pub fn format_token_amount(value: &str, fixed: Option<&str>) -> (shown: String)
    ensures
        shown@ == match fixed {
            Some(number) => trimmed(grouped_number(number@)),
            None => value@,
        },
{
    match fixed {
        Some(number) => trim_fraction(format_number(number)),
        None => value.to_owned(),
    }
}

// ---------------------------------------------------------------------------
// What is kept of what is shown
// ---------------------------------------------------------------------------

/// A detail keeps what fits: up to a hundred characters it is shown whole, and
/// beyond that its first ninety-nine, then an ellipsis. Each character stands
/// where it stood, a line break as a space.
pub proof fn law_a_detail_keeps_what_fits(s: Seq<char>)
    ensures
        s.len() <= 100 ==> compacted(s).len() == s.len(),
        s.len() > 100 ==> compacted(s).len() == 100 && compacted(s)[99] == '…',
        forall|i: int|
            0 <= i < s.len() && (s.len() <= 100 || i < 99) ==> #[trigger] compacted(s)[i] == (if s[i]
                == '\n' || s[i] == '\r' {
                ' '
            } else {
                s[i]
            }),
{
}

/// The message under a traffic bar starts with the rate, ends in what happened
/// last, and between them tells how many intents were fulfilled, and of what.
pub proof fn law_a_traffic_message_tells_rate_count_and_detail(
    rate: Seq<char>,
    fulfilled: nat,
    context: Seq<char>,
    detail: Seq<char>,
)
    ensures
        ({
            let told = traffic_message(rate, fulfilled, context, detail);
            &&& ("RUNNING | FILL "@ + rate + "/s (average)"@).is_prefix_of(told)
            &&& text::holds(
                told,
                "\n  "@ + text::decimal(fulfilled) + " fulfilled | "@ + context + "\n"@,
            )
            &&& ("\n  "@ + detail).is_suffix_of(told)
            &&& told.len() == ("RUNNING | FILL "@ + rate + "/s (average)"@).len() + ("\n  "@
                + text::decimal(fulfilled) + " fulfilled | "@ + context).len() + ("\n  "@
                + detail).len()
        }),
{
    reveal_strlit("/s (average)\n  ");
    reveal_strlit("/s (average)");
    reveal_strlit("\n  ");
    reveal_strlit("\n");
    reveal_strlit("  ");
    let told = traffic_message(rate, fulfilled, context, detail);
    let head = "RUNNING | FILL "@ + rate + "/s (average)"@;
    let count = "\n  "@ + text::decimal(fulfilled) + " fulfilled | "@ + context + "\n"@;
    let tail = "\n  "@ + detail;
    assert(told =~= head + count + ("  "@ + detail));
    text::lemma_holds_between(head, count, "  "@ + detail);
    assert(head =~= told.subrange(0, head.len() as int));
    assert(tail =~= told.subrange(told.len() - tail.len(), told.len() as int));
}

/// A header cell shows its label and nothing else, in cyan and in bold.
pub proof fn law_a_header_cell_shows_its_label(cell: comfy_table::Cell, label: Seq<char>)
    requires
        is_header_cell(cell, label),
    ensures
        table::cell_text(cell) == label,
        table::cell_color(cell) matches Some(color) && color is Cyan,
        table::cell_attributes(cell).len() == 1,
        table::cell_attributes(cell)[0] is Bold,
{
}

proof fn lemma_grouped_len(s: Seq<char>, width: nat, n: nat)
    requires
        1 <= n <= width,
    ensures
        grouped_upto(s, width, n).len() == n + (width - 1) / 3 - (width - n) / 3,
    decreases n,
{
    if n == 1 {
        assert(grouped_upto(s, width, 0).len() == 0);
    } else {
        lemma_grouped_len(s, width, (n - 1) as nat);
    }
}

proof fn lemma_grouped_place(s: Seq<char>, width: nat, n: nat, k: int)
    requires
        1 <= n <= width,
        0 <= k < n,
    ensures
        ({
            let shown = grouped_upto(s, width, n);
            let at = k + (width - 1) / 3 - (width - 1 - k) / 3;
            &&& 0 <= at < shown.len()
            &&& shown[at] == s[k]
            &&& k > 0 && (width - k) % 3 == 0 ==> at > 0 && shown[at - 1] == ','
        }),
    decreases n,
{
    let shown = grouped_upto(s, width, n);
    let before = grouped_upto(s, width, (n - 1) as nat);
    let at = k + (width - 1) / 3 - (width - 1 - k) / 3;
    lemma_grouped_len(s, width, n);
    if k < n - 1 {
        lemma_grouped_place(s, width, (n - 1) as nat, k);
        assert(shown[at] == before[at]);
        if at > 0 {
            assert(shown[at - 1] == before[at - 1]);
        }
    } else {
        assert(width - 1 - k == width - n);
        assert(at == shown.len() - 1);
    }
}

/// Grouping sets a comma before every character that as many bytes as a
/// multiple of three follow, itself counted, but for the first; every character
/// is shown, in order, with as many commas before it as were set by then.
pub proof fn law_grouping_places_every_character(s: Seq<char>, k: int)
    requires
        0 <= k < s.len(),
    ensures
        ({
            let width = vstd::utf8::encode_utf8(s).len();
            let at = k + (width - 1) / 3 - (width - 1 - k) / 3;
            &&& grouped(s).len() == s.len() + (width - 1) / 3 - (width - s.len()) / 3
            &&& 0 <= at < grouped(s).len()
            &&& grouped(s)[at] == s[k]
            &&& k > 0 && (width - k) % 3 == 0 ==> at > 0 && grouped(s)[at - 1] == ','
        }),
{
    lemma_no_more_chars_than_bytes(s);
    lemma_grouped_len(s, vstd::utf8::encode_utf8(s).len(), s.len());
    lemma_grouped_place(s, vstd::utf8::encode_utf8(s).len(), s.len(), k);
}

/// Grouping a fixed-point number groups what stands before its first point, and
/// keeps what stands after it as it is. A point that nothing follows goes.
pub proof fn law_grouping_keeps_the_fraction(whole: Seq<char>, fraction: Seq<char>)
    requires
        forall|i: int| 0 <= i < whole.len() ==> #[trigger] whole[i] != '.',
    ensures
        grouped_number(whole) == grouped(whole),
        grouped_number(whole + seq!['.']) == grouped(whole),
        fraction.len() > 0 ==> grouped_number(whole + seq!['.'] + fraction) == grouped(whole)
            + seq!['.'] + fraction,
{
    reveal_strlit(".");
    assert("."@ =~= seq!['.']);
    let at = whole.len() as int;
    assert(!exists|k: int| first_point(whole, k)) by {
        if exists|k: int| first_point(whole, k) {
            let k = choose|k: int| first_point(whole, k);
            assert(whole[k] != '.');
        }
    }
    let bare = whole + seq!['.'];
    lemma_first_point_is_found(bare, at);
    assert(bare.take(at) =~= whole);
    let full = whole + seq!['.'] + fraction;
    lemma_first_point_is_found(full, at);
    assert(full.take(at) =~= whole);
    assert(full.skip(at + 1) =~= fraction);
}

proof fn lemma_first_point_is_found(s: Seq<char>, at: int)
    requires
        0 <= at < s.len(),
        s[at] == '.',
        forall|i: int| 0 <= i < at ==> #[trigger] s[i] != '.',
    ensures
        first_point(s, at),
        (choose|k: int| first_point(s, k)) == at,
{
    assert(first_point(s, at));
    let k = choose|k: int| first_point(s, k);
    if k < at {
        assert(s[k] != '.');
    } else if at < k {
        assert(s[at] != '.');
    }
}

/// As many zeros.
spec fn zeros(n: nat) -> Seq<char> {
    Seq::new(n, |i: int| '0')
}

proof fn lemma_trailing_zeros_go(s: Seq<char>, n: nat)
    requires
        s.len() == 0 || s.last() != '0',
    ensures
        without_trailing_zeros(s + zeros(n)) == s,
    decreases n,
{
    if n == 0 {
        assert(s + zeros(n) =~= s);
    } else {
        let longer = s + zeros(n);
        assert(longer.last() == '0');
        assert(longer.drop_last() =~= s + zeros((n - 1) as nat));
        lemma_trailing_zeros_go(s, (n - 1) as nat);
    }
}

/// A number loses the zeros that end its fraction, however many, and the point
/// of a fraction that is then empty. A number without a point loses nothing.
pub proof fn law_only_a_fraction_loses_its_zeros(
    whole: Seq<char>,
    fraction: Seq<char>,
    tail: Seq<char>,
)
    requires
        fraction.len() > 0 ==> fraction.last() != '0' && fraction.last() != '.',
        forall|i: int| 0 <= i < tail.len() ==> #[trigger] tail[i] == '0',
    ensures
        !whole.contains('.') ==> trimmed(whole) == whole,
        fraction.len() > 0 ==> trimmed(whole + seq!['.'] + fraction + tail) == whole + seq!['.']
            + fraction,
        trimmed(whole + seq!['.'] + tail) == whole,
{
    assert(tail =~= zeros(tail.len()));
    let full = whole + seq!['.'] + fraction;
    lemma_trailing_zeros_go(full, tail.len());
    assert((full + tail)[whole.len() as int] == '.');
    assert((full + tail).contains('.'));
    let bare = whole + seq!['.'];
    lemma_trailing_zeros_go(bare, tail.len());
    assert((bare + tail)[whole.len() as int] == '.');
    assert((bare + tail).contains('.'));
    assert(bare.drop_last() =~= whole);
    if fraction.len() > 0 {
        assert(full.last() == fraction.last());
    }
}

} // verus!
