use fetch_core::json::parse_json;
use fetch_core::payload::{Item, Payload};
use fetch_core::render::{render, DisplayView};
use fetch_core::state::FetchState;
use fetch_core::validate::validate;

#[test]
fn idle_renders_loading() {
    assert_eq!(render(&FetchState::Idle), DisplayView::Loading);
}

#[test]
fn loading_renders_loading() {
    assert_eq!(render(&FetchState::Loading(7)), DisplayView::Loading);
}

#[test]
fn error_renders_failed() {
    let s = FetchState::Error("network failure".to_string());
    assert_eq!(render(&s), DisplayView::Failed);
}

#[test]
fn title_renders_title() {
    let s = FetchState::Success(Payload::Title("hello".to_string()));
    assert_eq!(render(&s), DisplayView::Title("hello".to_string()));
}

#[test]
fn render_is_pure() {
    let s = FetchState::Success(Payload::Items {
        items: vec![Item {
            name: "A".to_string(),
            price: "100".to_string(),
        }],
        sum: 100,
    });
    let first = render(&s);
    let second = render(&s);
    assert_eq!(first, second);
}

#[test]
fn empty_data_renders_zero_items_and_zero_total() {
    let doc = parse_json("{\"data\":[],\"sum\":0}").expect("parses");
    let p = validate(&doc).expect("validates");
    match render(&FetchState::Success(p)) {
        DisplayView::ItemList {
            rows,
            computed_total,
            reported_sum,
        } => {
            assert_eq!(rows.len(), 0);
            assert_eq!(computed_total, "0");
            assert_eq!(reported_sum, 0);
        }
        other => panic!("expected an item list view, got {:?}", other),
    }
}

#[test]
fn two_items_render_in_order_with_total() {
    let doc = parse_json(
        "{\"data\":[{\"item_name\":\"A\",\"item_price\":\"100\"},\
         {\"item_name\":\"B\",\"item_price\":\"250\"}],\"sum\":350}",
    )
    .expect("parses");
    let p = validate(&doc).expect("validates");
    match render(&FetchState::Success(p)) {
        DisplayView::ItemList {
            rows,
            computed_total,
            reported_sum,
        } => {
            assert_eq!(rows.len(), 2);
            assert_eq!(rows[0].name, "A");
            assert_eq!(rows[0].price, "100");
            assert_eq!(rows[1].name, "B");
            assert_eq!(rows[1].price, "250");
            assert_eq!(computed_total, "350");
            assert_eq!(reported_sum, 350);
        }
        other => panic!("expected an item list view, got {:?}", other),
    }
}

#[test]
fn round_trip_preserves_item_count_and_order() {
    let doc = parse_json(
        "{\"data\":[{\"item_name\":\"x\",\"item_price\":\"1\"},\
         {\"item_name\":\"y\",\"item_price\":\"2\"},\
         {\"item_name\":\"z\",\"item_price\":\"3\"}],\"sum\":6}",
    )
    .expect("parses");
    let p = validate(&doc).expect("validates");
    match render(&FetchState::Success(p)) {
        DisplayView::ItemList { rows, .. } => {
            let names: Vec<&str> = rows.iter().map(|r| r.name.as_str()).collect();
            assert_eq!(names, vec!["x", "y", "z"]);
        }
        other => panic!("expected an item list view, got {:?}", other),
    }
}

#[test]
fn server_sum_shown_even_when_it_disagrees() {
    // The server-reported sum is authoritative and displayed as sent; the
    // aggregator's total is computed independently and may differ.
    let doc = parse_json(
        "{\"data\":[{\"item_name\":\"A\",\"item_price\":\"100\"}],\"sum\":999}",
    )
    .expect("parses");
    let p = validate(&doc).expect("validates");
    match render(&FetchState::Success(p)) {
        DisplayView::ItemList {
            computed_total,
            reported_sum,
            ..
        } => {
            assert_eq!(computed_total, "100");
            assert_eq!(reported_sum, 999);
        }
        other => panic!("expected an item list view, got {:?}", other),
    }
}
