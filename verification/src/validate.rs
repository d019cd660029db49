//! Schema validation: structurally matches an untyped JSON document against
//! one of the two payload variants. Deterministic and side-effect free; the
//! contract of [`validate`] pins the result, error cases included, through
//! [`validate_spec`] over the document's model.
//!
//! A document that is an object with a `title` field must be the title
//! variant. Any other object is matched against the list variant: a `data`
//! array of entries, each an object carrying an `item_name` and an
//! `item_price` string, plus an integer `sum`. The first offending field in
//! that order is reported.

use vstd::prelude::*;
use crate::json::{elems_view, fields_view, JsonModel, JsonValue};
use crate::payload::{items_view, Item, ItemModel, Payload, PayloadModel, ValidationError,
    ValidationErrorModel};

verus! {

pub open spec fn field_root() -> Seq<char> {
    "$"@
}

pub open spec fn field_title() -> Seq<char> {
    "title"@
}

pub open spec fn field_data() -> Seq<char> {
    "data"@
}

pub open spec fn field_sum() -> Seq<char> {
    "sum"@
}

pub open spec fn field_item_name() -> Seq<char> {
    "item_name"@
}

pub open spec fn field_item_price() -> Seq<char> {
    "item_price"@
}

pub open spec fn reason_absent() -> Seq<char> {
    "absent"@
}

pub open spec fn reason_wrong_type() -> Seq<char> {
    "wrong type"@
}

pub open spec fn reason_not_a_list() -> Seq<char> {
    "not a list"@
}

pub open spec fn reason_not_an_object() -> Seq<char> {
    "not an object"@
}

/// The value of the first field named `key`, in textual order. A duplicated
/// name keeps its first occurrence, later ones are ignored.
pub open spec fn lookup_field(fields: Seq<(Seq<char>, JsonModel)>, key: Seq<char>) -> Option<
    JsonModel,
>
    decreases fields.len(),
{
    if fields.len() == 0 {
        Option::None
    } else if fields[0].0 == key {
        Option::Some(fields[0].1)
    } else {
        lookup_field(fields.drop_first(), key)
    }
}

/// The entries of the `data` array, where the document carries one; empty
/// otherwise.
pub open spec fn data_elems(m: JsonModel) -> Seq<JsonModel> {
    match m {
        JsonModel::Obj(fields) => match lookup_field(fields, field_data()) {
            Option::Some(d) => match d {
                JsonModel::Arr(a) => a,
                _ => Seq::<JsonModel>::empty(),
            },
            Option::None => Seq::<JsonModel>::empty(),
        },
        _ => Seq::<JsonModel>::empty(),
    }
}

/// What one entry of the `data` array must look like, and the item it
/// denotes.
pub open spec fn item_of_spec(m: JsonModel) -> Result<ItemModel, ValidationErrorModel> {
    match m {
        JsonModel::Obj(fields) => match lookup_field(fields, field_item_name()) {
            Option::None => Result::Err(
                ValidationErrorModel { field: field_item_name(), reason: reason_absent() },
            ),
            Option::Some(n) => match n {
                JsonModel::Str(name) => match lookup_field(fields, field_item_price()) {
                    Option::None => Result::Err(
                        ValidationErrorModel {
                            field: field_item_price(),
                            reason: reason_absent(),
                        },
                    ),
                    Option::Some(p) => match p {
                        JsonModel::Str(price) => Result::Ok(ItemModel { name, price }),
                        _ => Result::Err(
                            ValidationErrorModel {
                                field: field_item_price(),
                                reason: reason_wrong_type(),
                            },
                        ),
                    },
                },
                _ => Result::Err(
                    ValidationErrorModel {
                        field: field_item_name(),
                        reason: reason_wrong_type(),
                    },
                ),
            },
        },
        _ => Result::Err(
            ValidationErrorModel { field: field_data(), reason: reason_wrong_type() },
        ),
    }
}

/// The items denoted by the `data` array, or the error of its first bad
/// entry.
pub open spec fn items_of_spec(elems: Seq<JsonModel>) -> Result<
    Seq<ItemModel>,
    ValidationErrorModel,
>
    decreases elems.len(),
{
    if elems.len() == 0 {
        Result::Ok(Seq::<ItemModel>::empty())
    } else {
        match item_of_spec(elems[0]) {
            Result::Err(e) => Result::Err(e),
            Result::Ok(it) => match items_of_spec(elems.drop_first()) {
                Result::Err(e) => Result::Err(e),
                Result::Ok(rest) => Result::Ok(seq![it] + rest),
            },
        }
    }
}

/// The list variant, tried when the object has no `title` field.
pub open spec fn validate_items_spec(fields: Seq<(Seq<char>, JsonModel)>) -> Result<
    PayloadModel,
    ValidationErrorModel,
> {
    match lookup_field(fields, field_data()) {
        Option::None => Result::Err(
            ValidationErrorModel { field: field_data(), reason: reason_absent() },
        ),
        Option::Some(d) => match d {
            JsonModel::Arr(elems) => match lookup_field(fields, field_sum()) {
                Option::None => Result::Err(
                    ValidationErrorModel { field: field_sum(), reason: reason_absent() },
                ),
                Option::Some(s) => match s {
                    JsonModel::Int(sum) => match items_of_spec(elems) {
                        Result::Err(e) => Result::Err(e),
                        Result::Ok(items) => Result::Ok(PayloadModel::Items { items, sum }),
                    },
                    _ => Result::Err(
                        ValidationErrorModel { field: field_sum(), reason: reason_wrong_type() },
                    ),
                },
            },
            _ => Result::Err(
                ValidationErrorModel { field: field_data(), reason: reason_not_a_list() },
            ),
        },
    }
}

/// What [`validate`] returns on every document.
pub open spec fn validate_spec(m: JsonModel) -> Result<PayloadModel, ValidationErrorModel> {
    match m {
        JsonModel::Obj(fields) => match lookup_field(fields, field_title()) {
            Option::Some(t) => match t {
                JsonModel::Str(title) => Result::Ok(PayloadModel::Title(title)),
                _ => Result::Err(
                    ValidationErrorModel { field: field_title(), reason: reason_wrong_type() },
                ),
            },
            Option::None => validate_items_spec(fields),
        },
        _ => Result::Err(
            ValidationErrorModel { field: field_root(), reason: reason_not_an_object() },
        ),
    }
}

/// First field of the given name, scanning in textual order.
fn lookup<'a>(fields: &'a Vec<(String, JsonValue)>, key: &String) -> (r: Option<&'a JsonValue>)
    ensures
        r matches Some(v) ==> lookup_field(fields_view(fields@), key@) == Option::Some(v@),
        r is None ==> lookup_field(fields_view(fields@), key@) is None,
{
    let n = fields.len();
    let mut i: usize = 0;
    proof {
        assert(fields_view(fields@).skip(0) =~= fields_view(fields@));
    }
    while i < n
        invariant
            n == fields@.len(),
            i <= n,
            lookup_field(fields_view(fields@), key@) == lookup_field(
                fields_view(fields@).skip(i as int),
                key@,
            ),
        decreases n - i,
    {
        let pair = &fields[i];
        proof {
            assert(fields_view(fields@).skip(i as int)[0] == fields_view(fields@)[i as int]);
            assert(fields_view(fields@).skip(i as int).drop_first() =~= fields_view(
                fields@,
            ).skip(i + 1));
        }
        if pair.0 == *key {
            return Some(&pair.1);
        }
        i = i + 1;
    }
    proof {
        assert(fields_view(fields@).skip(n as int) =~= Seq::<(Seq<char>, JsonModel)>::empty());
    }
    None
}

/// Checks one entry of the `data` array.
fn item_of(v: &JsonValue) -> (r: Result<Item, ValidationError>)
    ensures
        r matches Ok(it) ==> item_of_spec(v@) == Result::<ItemModel, ValidationErrorModel>::Ok(
            it@,
        ),
        r matches Err(e) ==> item_of_spec(v@) == Result::<ItemModel, ValidationErrorModel>::Err(
            e@,
        ),
{
    match v {
        JsonValue::Obj(fields) => {
            let name_key: String = "item_name".to_owned();
            let name = match lookup(fields, &name_key) {
                Some(n) => n,
                None => {
                    return Err(
                        ValidationError {
                            field: "item_name".to_owned(),
                            reason: "absent".to_owned(),
                        },
                    );
                },
            };
            let name = match name {
                JsonValue::Str(s) => s,
                _ => {
                    return Err(
                        ValidationError {
                            field: "item_name".to_owned(),
                            reason: "wrong type".to_owned(),
                        },
                    );
                },
            };
            let price_key: String = "item_price".to_owned();
            let price = match lookup(fields, &price_key) {
                Some(p) => p,
                None => {
                    return Err(
                        ValidationError {
                            field: "item_price".to_owned(),
                            reason: "absent".to_owned(),
                        },
                    );
                },
            };
            let price = match price {
                JsonValue::Str(s) => s,
                _ => {
                    return Err(
                        ValidationError {
                            field: "item_price".to_owned(),
                            reason: "wrong type".to_owned(),
                        },
                    );
                },
            };
            Ok(Item { name: name.clone(), price: price.clone() })
        },
        _ => Err(ValidationError { field: "data".to_owned(), reason: "wrong type".to_owned() }),
    }
}

/// Checks every entry of the `data` array, in order, stopping at the first
/// bad one.
fn items_of(elems: &Vec<JsonValue>) -> (r: Result<Vec<Item>, ValidationError>)
    ensures
        r matches Ok(v) ==> items_of_spec(elems_view(elems@)) == Result::<
            Seq<ItemModel>,
            ValidationErrorModel,
        >::Ok(items_view(v@)),
        r matches Err(e) ==> items_of_spec(elems_view(elems@)) == Result::<
            Seq<ItemModel>,
            ValidationErrorModel,
        >::Err(e@),
{
    let n = elems.len();
    let mut out: Vec<Item> = Vec::new();
    let mut i: usize = 0;
    proof {
        assert(elems_view(elems@).skip(0) =~= elems_view(elems@));
        match items_of_spec(elems_view(elems@)) {
            Result::Ok(rest) => {
                assert(items_view(out@) + rest =~= rest);
            },
            Result::Err(_) => {},
        }
    }
    while i < n
        invariant
            n == elems@.len(),
            i <= n,
            items_view(out@).len() == i,
            items_of_spec(elems_view(elems@)) == match items_of_spec(
                elems_view(elems@).skip(i as int),
            ) {
                Result::Ok(rest) => Result::<Seq<ItemModel>, ValidationErrorModel>::Ok(
                    items_view(out@) + rest,
                ),
                Result::Err(e) => Result::<Seq<ItemModel>, ValidationErrorModel>::Err(e),
            },
        decreases n - i,
    {
        proof {
            assert(elems_view(elems@).skip(i as int)[0] == elems_view(elems@)[i as int]);
            assert(elems_view(elems@).skip(i as int).drop_first() =~= elems_view(elems@).skip(
                i + 1,
            ));
        }
        let it = match item_of(&elems[i]) {
            Ok(it) => it,
            Err(e) => {
                return Err(e);
            },
        };
        proof {
            let ghost itm = it@;
            match items_of_spec(elems_view(elems@).skip(i + 1)) {
                Result::Ok(rest) => {
                    assert(items_view(out@.push(it)) =~= items_view(out@).push(itm));
                    assert((items_view(out@) + (seq![itm] + rest)) =~= (items_view(out@).push(
                        itm,
                    ) + rest));
                },
                Result::Err(_) => {},
            }
        }
        out.push(it);
        i = i + 1;
    }
    proof {
        assert(elems_view(elems@).skip(n as int) =~= Seq::<JsonModel>::empty());
        assert(items_view(out@) + Seq::<ItemModel>::empty() =~= items_view(out@));
    }
    Ok(out)
}

/// Matches an object without a `title` field against the list variant.
fn validate_items(fields: &Vec<(String, JsonValue)>) -> (r: Result<Payload, ValidationError>)
    ensures
        r matches Ok(p) ==> validate_items_spec(fields_view(fields@)) == Result::<
            PayloadModel,
            ValidationErrorModel,
        >::Ok(p@),
        r matches Err(e) ==> validate_items_spec(fields_view(fields@)) == Result::<
            PayloadModel,
            ValidationErrorModel,
        >::Err(e@),
{
    let data_key: String = "data".to_owned();
    let d = match lookup(fields, &data_key) {
        Some(d) => d,
        None => {
            return Err(ValidationError { field: "data".to_owned(), reason: "absent".to_owned() });
        },
    };
    let elems = match d {
        JsonValue::Arr(a) => a,
        _ => {
            return Err(
                ValidationError { field: "data".to_owned(), reason: "not a list".to_owned() },
            );
        },
    };
    let sum_key: String = "sum".to_owned();
    let s = match lookup(fields, &sum_key) {
        Some(s) => s,
        None => {
            return Err(ValidationError { field: "sum".to_owned(), reason: "absent".to_owned() });
        },
    };
    let sum = match s {
        JsonValue::Int(v) => *v,
        _ => {
            return Err(
                ValidationError { field: "sum".to_owned(), reason: "wrong type".to_owned() },
            );
        },
    };
    let items = match items_of(elems) {
        Ok(v) => v,
        Err(e) => {
            return Err(e);
        },
    };
    Ok(Payload::Items { items, sum })
}

/// Structurally matches a document against one of the two payload variants.
/// Returns exactly what [`validate_spec`] says of the document's model,
/// error cases included.
pub fn validate(raw: &JsonValue) -> (r: Result<Payload, ValidationError>)
    ensures
        r matches Ok(p) ==> validate_spec(raw@) == Result::<
            PayloadModel,
            ValidationErrorModel,
        >::Ok(p@),
        r matches Err(e) ==> validate_spec(raw@) == Result::<
            PayloadModel,
            ValidationErrorModel,
        >::Err(e@),
{
    match raw {
        JsonValue::Obj(fields) => {
            let title_key: String = "title".to_owned();
            match lookup(fields, &title_key) {
                Some(t) => match t {
                    JsonValue::Str(s) => Ok(Payload::Title(s.clone())),
                    _ => Err(
                        ValidationError {
                            field: "title".to_owned(),
                            reason: "wrong type".to_owned(),
                        },
                    ),
                },
                None => validate_items(fields),
            }
        },
        _ => Err(ValidationError { field: "$".to_owned(), reason: "not an object".to_owned() }),
    }
}

/// A well-typed `data` array yields exactly one item per entry, in order.
pub proof fn lemma_items_of_spec_ok(elems: Seq<JsonModel>)
    requires
        items_of_spec(elems) is Ok,
    ensures
        items_of_spec(elems) matches Result::Ok(items) ==> items.len() == elems.len() && forall|
            j: int,
        |
            0 <= j < elems.len() ==> (#[trigger] item_of_spec(elems[j]) matches Result::Ok(m)
                && items[j] == m),
    decreases elems.len(),
{
    if elems.len() > 0 {
        let tail = elems.drop_first();
        lemma_items_of_spec_ok(tail);
        match (item_of_spec(elems[0]), items_of_spec(tail)) {
            (Result::Ok(it), Result::Ok(rest)) => {
                let items = seq![it] + rest;
                assert(items_of_spec(elems) == Result::<Seq<ItemModel>,
                    ValidationErrorModel>::Ok(items));
                assert forall|j: int| 0 <= j < elems.len() implies (#[trigger] item_of_spec(
                    elems[j],
                ) matches Result::Ok(m) && items[j] == m) by {
                    if j == 0 {
                        assert(items[0] == it);
                    } else {
                        assert(tail[j - 1] == elems[j]);
                        assert(item_of_spec(tail[j - 1]) matches Result::Ok(m2) && rest[j - 1]
                            == m2);
                        assert(items[j] == rest[j - 1]);
                    }
                }
            },
            _ => {},
        }
    }
}

} // verus!
