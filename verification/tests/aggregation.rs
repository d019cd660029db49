use fetch_core::aggregate::total;
use fetch_core::digits::{fmt_decimal, parse_digits};
use fetch_core::payload::Item;

fn item(name: &str, price: &str) -> Item {
    Item {
        name: name.to_string(),
        price: price.to_string(),
    }
}

#[test]
fn parse_digits_reads_exact_value() {
    assert_eq!(parse_digits("0"), Some(0));
    assert_eq!(parse_digits("350"), Some(350));
    assert_eq!(parse_digits("18446744073709551615"), Some(u64::MAX));
}

#[test]
fn parse_digits_rejects_bad_text() {
    assert_eq!(parse_digits(""), None);
    assert_eq!(parse_digits("12x"), None);
    assert_eq!(parse_digits("-5"), None);
    assert_eq!(parse_digits("1 0"), None);
}

#[test]
fn parse_digits_rejects_overflow() {
    assert_eq!(parse_digits("18446744073709551616"), None);
}

#[test]
fn fmt_decimal_is_canonical() {
    assert_eq!(fmt_decimal(0), "0");
    assert_eq!(fmt_decimal(7), "7");
    assert_eq!(fmt_decimal(350), "350");
    assert_eq!(fmt_decimal(1000), "1000");
}

#[test]
fn total_sums_prices() {
    let items = vec![item("A", "100"), item("B", "250")];
    assert_eq!(total(&items), "350");
}

#[test]
fn total_of_empty_list_is_zero() {
    let items: Vec<Item> = vec![];
    assert_eq!(total(&items), "0");
}

#[test]
fn unparseable_price_is_excluded_not_fatal() {
    let items = vec![item("A", "100"), item("B", "oops"), item("C", "1")];
    assert_eq!(total(&items), "101");
}

#[test]
fn oversized_price_is_excluded() {
    let items = vec![item("A", "18446744073709551616"), item("B", "2")];
    assert_eq!(total(&items), "2");
}

#[test]
fn totals_beyond_u64_accumulate() {
    let items = vec![
        item("A", "18446744073709551615"),
        item("B", "18446744073709551615"),
    ];
    assert_eq!(total(&items), "36893488147419103230");
}
