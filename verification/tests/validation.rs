use fetch_core::json::{parse_json, JsonValue};
use fetch_core::payload::{Item, Payload, ValidationError};
use fetch_core::validate::validate;

fn err(field: &str, reason: &str) -> ValidationError {
    ValidationError {
        field: field.to_string(),
        reason: reason.to_string(),
    }
}

#[test]
fn title_variant_accepted() {
    let doc = parse_json("{\"title\":\"hello\"}").expect("parses");
    assert_eq!(
        validate(&doc),
        Ok(Payload::Title("hello".to_string()))
    );
}

#[test]
fn items_variant_accepted_in_order() {
    let doc = parse_json(
        "{\"data\":[{\"item_name\":\"A\",\"item_price\":\"100\"},\
         {\"item_name\":\"B\",\"item_price\":\"250\"}],\"sum\":350}",
    )
    .expect("parses");
    let p = validate(&doc).expect("validates");
    match p {
        Payload::Items { items, sum } => {
            assert_eq!(items.len(), 2);
            assert_eq!(
                items[0],
                Item {
                    name: "A".to_string(),
                    price: "100".to_string()
                }
            );
            assert_eq!(
                items[1],
                Item {
                    name: "B".to_string(),
                    price: "250".to_string()
                }
            );
            assert_eq!(sum, 350);
        }
        other => panic!("expected the list variant, got {:?}", other),
    }
}

#[test]
fn missing_item_price_rejected_not_partially_accepted() {
    // Well-formed JSON text, but one entry lacks its price: the whole
    // document is refused, not truncated to the good entries.
    let doc = parse_json(
        "{\"data\":[{\"item_name\":\"A\",\"item_price\":\"100\"},\
         {\"item_name\":\"B\"}],\"sum\":100}",
    )
    .expect("parses");
    assert_eq!(validate(&doc), Err(err("item_price", "absent")));
}

#[test]
fn missing_item_name_rejected() {
    let doc = parse_json("{\"data\":[{\"item_price\":\"100\"}],\"sum\":100}").expect("parses");
    assert_eq!(validate(&doc), Err(err("item_name", "absent")));
}

#[test]
fn item_entry_not_an_object_rejected() {
    let doc = parse_json("{\"data\":[7],\"sum\":7}").expect("parses");
    assert_eq!(validate(&doc), Err(err("data", "wrong type")));
}

#[test]
fn item_price_wrong_type_rejected() {
    let doc =
        parse_json("{\"data\":[{\"item_name\":\"A\",\"item_price\":100}],\"sum\":100}")
            .expect("parses");
    assert_eq!(validate(&doc), Err(err("item_price", "wrong type")));
}

#[test]
fn data_not_a_list_rejected() {
    let doc = parse_json("{\"data\":5,\"sum\":5}").expect("parses");
    assert_eq!(validate(&doc), Err(err("data", "not a list")));
}

#[test]
fn missing_data_rejected() {
    let doc = parse_json("{\"sum\":5}").expect("parses");
    assert_eq!(validate(&doc), Err(err("data", "absent")));
}

#[test]
fn missing_sum_rejected() {
    let doc = parse_json("{\"data\":[]}").expect("parses");
    assert_eq!(validate(&doc), Err(err("sum", "absent")));
}

#[test]
fn sum_wrong_type_rejected() {
    let doc = parse_json("{\"data\":[],\"sum\":\"350\"}").expect("parses");
    assert_eq!(validate(&doc), Err(err("sum", "wrong type")));
}

#[test]
fn title_wrong_type_rejected() {
    let doc = parse_json("{\"title\":3}").expect("parses");
    assert_eq!(validate(&doc), Err(err("title", "wrong type")));
}

#[test]
fn root_not_an_object_rejected() {
    let doc = parse_json("[{\"title\":\"x\"}]").expect("parses");
    assert_eq!(validate(&doc), Err(err("$", "not an object")));
}

#[test]
fn title_takes_precedence_over_items() {
    let doc = parse_json("{\"title\":\"t\",\"data\":[],\"sum\":0}").expect("parses");
    assert_eq!(validate(&doc), Ok(Payload::Title("t".to_string())));
}

#[test]
fn first_field_of_a_name_wins() {
    let doc = JsonValue::Obj(vec![
        ("title".to_string(), JsonValue::Str("first".to_string())),
        ("title".to_string(), JsonValue::Str("second".to_string())),
    ]);
    assert_eq!(validate(&doc), Ok(Payload::Title("first".to_string())));
}
