use launch_pager::card::{
    render, render_all, Card, CardField, ACCENT_COLOR, FOOTER, ORIGIN, SITE_LABEL, TIME_LABEL,
};
use launch_pager::scrape::UPSTREAM_URL;
use launch_pager::launch::LaunchRecord;
use launch_pager::text::{i64_to_decimal, starts_with, trim, u64_to_decimal};

fn record(name: &str, scheduled_at: i64, site: &str, details_path: &str) -> LaunchRecord {
    LaunchRecord {
        name: name.to_string(),
        scheduled_at,
        site: site.to_string(),
        details_path: details_path.to_string(),
    }
}

#[test]
fn render_builds_the_whole_card() {
    let card = render(&record("Alpha", 1641040200, "SLC-40, Cape Canaveral", "/launch/1"), 1);
    assert_eq!(
        card,
        Card {
            title: "#1 | Alpha".to_string(),
            url: "https://nextspaceflight.com/launch/1".to_string(),
            color: 0xFFFFFF,
            footer: "Via NextSpaceflight".to_string(),
            fields: vec![
                CardField {
                    name: "Time".to_string(),
                    value: "<t:1641040200:F>".to_string(),
                    inline: false,
                },
                CardField {
                    name: "Launch Site".to_string(),
                    value: "SLC-40, Cape Canaveral".to_string(),
                    inline: false,
                },
            ],
        }
    );
}

#[test]
fn render_trims_the_name_and_nothing_else() {
    let card = render(&record("\n  Starlink Group 6-1 \t", 0, "  Pad 39A ", "/launch/77"), 12);
    assert_eq!(card.title, "#12 | Starlink Group 6-1");
    assert_eq!(card.fields[1].value, "  Pad 39A ");
    assert_eq!(card.fields[0].value, "<t:0:F>");
}

#[test]
fn render_keeps_white_space_inside_the_name() {
    assert_eq!(render(&record(" a  b ", 0, "", "/"), 3).title, "#3 | a  b");
}

#[test]
fn render_of_a_blank_name_leaves_the_title_open() {
    assert_eq!(render(&record(" \n ", 0, "", "/"), 7).title, "#7 | ");
    assert_eq!(render(&record("", 0, "", "/"), 7).title, "#7 | ");
}

#[test]
fn render_appends_the_path_to_the_origin_as_it_is() {
    assert_eq!(render(&record("x", 0, "", "/launch/123?ref=a b"), 1).url, "https://nextspaceflight.com/launch/123?ref=a b");
    assert_eq!(render(&record("x", 0, "", ""), 1).url, "https://nextspaceflight.com");
}

#[test]
fn render_is_pure() {
    let launch = record("Bravo", 1709164800, "LC-1, Mahia", "/launch/2");
    assert_eq!(render(&launch, 2), render(&launch, 2));
}

#[test]
fn the_time_token_carries_the_unix_seconds() {
    assert_eq!(record("x", 1709164800, "", "/").formatted_time(), "<t:1709164800:F>");
    assert_eq!(record("x", -60, "", "/").formatted_time(), "<t:-60:F>");
    assert_eq!(record("x", i64::MAX, "", "/").formatted_time(), "<t:9223372036854775807:F>");
    assert_eq!(record("x", i64::MIN, "", "/").formatted_time(), "<t:-9223372036854775808:F>");
}

#[test]
fn the_time_token_round_trips() {
    for seconds in [0i64, 1, -1, 59, 1641040200, -2208988800, 253402300799] {
        let token = record("x", seconds, "", "/").formatted_time();
        let inner = &token[3..token.len() - 3];
        assert_eq!(inner.parse::<i64>().unwrap(), seconds);
    }
}

#[test]
fn render_all_numbers_the_cards_from_one() {
    let launches = vec![
        record("Alpha", 1, "a", "/1"),
        record("Bravo", 2, "b", "/2"),
        record("Charlie", 3, "c", "/3"),
    ];
    let cards = render_all(&launches);
    let titles: Vec<&str> = cards.iter().map(|card| card.title.as_str()).collect();
    assert_eq!(titles, vec!["#1 | Alpha", "#2 | Bravo", "#3 | Charlie"]);
    for (i, card) in cards.iter().enumerate() {
        assert_eq!(*card, render(&launches[i], i + 1));
    }
    assert_eq!(render_all(&Vec::new()), vec![]);
}

#[test]
fn duplicate_copies_every_field() {
    let card = render(&record("Alpha", 1641040200, "SLC-40", "/launch/1"), 1);
    assert_eq!(card.duplicate(), card);
    assert_eq!(card.fields[0].duplicate(), card.fields[0]);
}

#[test]
fn the_constants_of_the_card() {
    assert_eq!(ACCENT_COLOR, 0xFFFFFF);
    assert_eq!(FOOTER, "Via NextSpaceflight");
    assert_eq!(ORIGIN, "https://nextspaceflight.com");
    assert_eq!(UPSTREAM_URL, "https://nextspaceflight.com/launches/");
    assert_eq!(TIME_LABEL, "Time");
    assert_eq!(SITE_LABEL, "Launch Site");
}

#[test]
fn decimal_of_unsigned_numbers() {
    assert_eq!(u64_to_decimal(0), "0");
    assert_eq!(u64_to_decimal(7), "7");
    assert_eq!(u64_to_decimal(10), "10");
    assert_eq!(u64_to_decimal(1234567890), "1234567890");
    assert_eq!(u64_to_decimal(u64::MAX), "18446744073709551615");
}

#[test]
fn decimal_of_signed_numbers() {
    assert_eq!(i64_to_decimal(0), "0");
    assert_eq!(i64_to_decimal(-1), "-1");
    assert_eq!(i64_to_decimal(-100), "-100");
    assert_eq!(i64_to_decimal(42), "42");
    assert_eq!(i64_to_decimal(i64::MIN), "-9223372036854775808");
    assert_eq!(i64_to_decimal(i64::MAX), "9223372036854775807");
}

#[test]
fn decimal_agrees_with_the_standard_library() {
    for n in [0u64, 9, 10, 99, 100, 101, 65535, 4294967296, 999999999999] {
        assert_eq!(u64_to_decimal(n), n.to_string());
    }
    for n in [-9i64, -10, -4294967296, 1, 1000] {
        assert_eq!(i64_to_decimal(n), n.to_string());
    }
}

#[test]
fn trim_removes_white_space_at_both_ends() {
    assert_eq!(trim("  hello  "), "hello");
    assert_eq!(trim("hello"), "hello");
    assert_eq!(trim("\t\n hello world \r\n"), "hello world");
    assert_eq!(trim(""), "");
    assert_eq!(trim("   "), "");
    assert_eq!(trim("x"), "x");
    assert_eq!(trim(" x"), "x");
    assert_eq!(trim("x "), "x");
}

#[test]
fn trim_knows_unicode_white_space() {
    assert_eq!(trim("\u{00A0}\u{3000}Ariane\u{2003}6\u{2028}"), "Ariane\u{2003}6");
    assert_eq!(trim("\u{200B}zero width\u{200B}"), "\u{200B}zero width\u{200B}");
    assert_eq!(trim(" é "), "é");
}

#[test]
fn trim_agrees_with_the_standard_library() {
    for s in ["", " ", "a", " a b ", "\n\n", "\u{1680}x\u{205F}", "🚀 ", " 发射 "] {
        assert_eq!(trim(s), s.trim());
    }
}

#[test]
fn starts_with_compares_character_by_character() {
    assert!(starts_with("12next", "12"));
    assert!(starts_with("12next", ""));
    assert!(starts_with("12next", "12next"));
    assert!(!starts_with("12next", "13"));
    assert!(!starts_with("12", "12next"));
    assert!(!starts_with("", "1"));
    assert!(starts_with("", ""));
    assert!(starts_with("éa", "é"));
    assert!(!starts_with("éa", "e"));
}
