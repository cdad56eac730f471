use axe::presentation::{
    asset_table, compact_detail, format_number, format_token_amount, format_usd, format_usd_price,
    group_digits, header_cell, set_intent_traffic_message, token_precision, trim_fraction,
    usd_price_precision, USD_PRECISION,
};
use axe::ui::{format_duration, scrub_urls};

fn fixed(value: f64, precision: usize) -> String {
    format!("{value:.precision$}")
}

fn usd(value: f64) -> String {
    format_usd(&fixed(value, USD_PRECISION))
}

fn usd_price(value: f64) -> String {
    format_usd_price(&fixed(value, usd_price_precision(value < 1.0)))
}

fn token_amount(text: &str) -> String {
    match text.parse::<f64>() {
        Ok(value) => {
            let precision = token_precision(value >= 1_000.0, value >= 1.0);
            format_token_amount(text, Some(&fixed(value, precision)))
        }
        Err(_) => format_token_amount(text, None),
    }
}

#[test]
fn formats_human_facing_numbers() {
    assert_eq!(usd(12_345.678), "$12,345.68");
    assert_eq!(usd_price(0.123_456), "$0.1235");
    assert_eq!(token_amount("12345.600000"), "12,345.6");
    assert_eq!(token_amount("0.000001"), "0.000001");
}

#[test]
fn amounts_are_rounded_by_their_size() {
    assert_eq!(usd(0.0), "$0.00");
    assert_eq!(usd_price(1.0), "$1.00");
    assert_eq!(usd_price(1_234_567.891), "$1,234,567.89");
    assert_eq!(token_amount("1000"), "1,000");
    assert_eq!(token_amount("999.99999"), "1,000");
    assert_eq!(token_amount("1.23456"), "1.2346");
    assert_eq!(token_amount("0.5"), "0.5");
    assert_eq!(token_amount("0"), "0");
    assert_eq!(token_amount("n/a"), "n/a");
    assert_eq!(usd_price_precision(true), 4);
    assert_eq!(usd_price_precision(false), 2);
    assert_eq!(token_precision(true, true), 2);
    assert_eq!(token_precision(false, true), 4);
    assert_eq!(token_precision(false, false), 6);
}

#[test]
fn digits_are_grouped_from_the_end() {
    assert_eq!(group_digits(""), "");
    assert_eq!(group_digits("1"), "1");
    assert_eq!(group_digits("123"), "123");
    assert_eq!(group_digits("1234"), "1,234");
    assert_eq!(group_digits("1234567"), "1,234,567");
    assert_eq!(group_digits("-1234"), "-1,234");
    assert_eq!(group_digits("-123"), "-,123");
    assert_eq!(group_digits("1234567").replace(',', ""), "1234567");
}

#[test]
fn numbers_keep_their_fraction() {
    assert_eq!(format_number("1234.5678"), "1,234.5678");
    assert_eq!(format_number("1234"), "1,234");
    assert_eq!(format_number("1234."), "1,234");
    assert_eq!(format_number("0.25"), "0.25");
    assert_eq!(trim_fraction("1,234.5600".to_owned()), "1,234.56");
    assert_eq!(trim_fraction("1,000.00".to_owned()), "1,000");
    assert_eq!(trim_fraction("1,000".to_owned()), "1,000");
}

#[test]
fn details_are_bounded_without_truncating_metrics() {
    let message =
        set_intent_traffic_message("0.00", 12, "2 route failures", &"x".repeat(150));
    assert!(message.contains("12 fulfilled | 2 route failures"));
    assert_eq!(message.lines().count(), 3);
    assert_eq!(message.lines().last().unwrap().trim().chars().count(), 100);
    assert!(message.ends_with('…'));
    assert_eq!(compact_detail("one\ntwo\rthree"), "one two three");
}

#[test]
fn traffic_messages_show_the_rate_and_the_detail() {
    assert_eq!(
        set_intent_traffic_message("1.50", 3, "no failures", "sent via https://rpc.test/key ok"),
        "RUNNING | FILL 1.50/s (average)\n  3 fulfilled | no failures\n  sent via <url> ok"
    );
}

#[test]
fn details_of_the_full_width_are_kept() {
    let line = "y".repeat(100);
    assert_eq!(compact_detail(&line), line);
    let longer = compact_detail(&"y".repeat(101));
    assert_eq!(longer.chars().count(), 100);
    assert_eq!(longer, format!("{}…", "y".repeat(99)));
    assert_eq!(compact_detail(""), "");
}

#[test]
fn urls_are_scrubbed_with_the_word_they_stand_in() {
    assert_eq!(
        scrub_urls("error at wss://node.test:443/ws?key=1, retrying\nhttps://a"),
        "error at <url> retrying\n<url>"
    );
    assert_eq!(scrub_urls("(http://host)"), "<url>");
    let plain = "a: //b  c:/d\te";
    assert_eq!(scrub_urls(plain), plain);
    assert_eq!(scrub_urls(""), "");
    assert!(!scrub_urls("x ://y z").contains("://"));
}

#[test]
fn durations_show_minutes_and_seconds() {
    assert_eq!(format_duration(0), "0m 00s");
    assert_eq!(format_duration(9), "0m 09s");
    assert_eq!(format_duration(60), "1m 00s");
    assert_eq!(format_duration(3_725), "62m 05s");
}

#[test]
fn asset_tables_are_drawn_with_bold_cyan_headers() {
    let mut table = asset_table(&["Asset", "Balance"]);
    assert_eq!(
        table.current_style_as_preset(),
        comfy_table::presets::UTF8_FULL_CONDENSED
    );
    assert!(matches!(
        table.content_arrangement(),
        comfy_table::ContentArrangement::Dynamic
    ));
    let header: Vec<String> = table
        .header()
        .unwrap()
        .cell_iter()
        .map(|cell| cell.content())
        .collect();
    assert_eq!(header, ["Asset", "Balance"]);
    table.add_row(vec!["AXE", "12"]);
    table.force_no_tty();
    assert_eq!(
        table.to_string(),
        "┌───────┬─────────┐\n│ Asset ┆ Balance │\n╞═══════╪═════════╡\n│ AXE   ┆ 12      │\n└───────┴─────────┘"
    );
}

#[test]
fn header_cells_are_bold_and_cyan() {
    let cell = header_cell("Asset");
    assert_eq!(cell.content(), "Asset");
    assert_eq!(
        cell,
        comfy_table::Cell::new("Asset")
            .fg(comfy_table::Color::Cyan)
            .add_attribute(comfy_table::Attribute::Bold)
    );
    assert_ne!(cell, comfy_table::Cell::new("Asset"));
}

#[test]
fn commas_part_groups_of_three() {
    for n in [1u64, 12, 123, 1_234, 12_345, 123_456, 1_234_567, u64::MAX] {
        let digits = n.to_string();
        let shown = group_digits(&digits);
        assert_eq!(shown.len(), digits.len() + (digits.len() - 1) / 3);
        for (i, c) in shown.chars().enumerate() {
            assert_eq!(c == ',', (shown.len() - i) % 4 == 0, "{shown} at {i}");
        }
        assert!(!shown.starts_with(','));
    }
}
