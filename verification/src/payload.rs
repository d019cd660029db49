//! The typed shape of a successfully fetched resource, and the error type
//! that schema validation reports.

use vstd::prelude::*;

verus! {

/// One line entry of the list variant. The price is kept as display text,
/// not parsed to a number, because the source representation does not
/// guarantee numeric formatting.
#[derive(Debug, Clone, PartialEq, Eq)]
pub struct Item {
    pub name: String,
    pub price: String,
}

/// Mathematical model of an [`Item`]: both fields as character sequences.
pub struct ItemModel {
    pub name: Seq<char>,
    pub price: Seq<char>,
}

impl View for Item {
    type V = ItemModel;

    open spec fn view(&self) -> ItemModel {
        ItemModel { name: self.name@, price: self.price@ }
    }
}

/// The validated resource: either a single title, or an ordered list of
/// items together with a server-reported sum. The server-reported sum is
/// authoritative and is never checked against a client-side recomputation;
/// the aggregator derives an independent display total.
#[derive(Debug, Clone, PartialEq, Eq)]
pub enum Payload {
    Title(String),
    Items { items: Vec<Item>, sum: i64 },
}

/// Mathematical model of a [`Payload`].
pub enum PayloadModel {
    Title(Seq<char>),
    Items { items: Seq<ItemModel>, sum: int },
}

/// The deep view of a sequence of items.
pub open spec fn items_view(items: Seq<Item>) -> Seq<ItemModel> {
    items.map_values(|it: Item| it@)
}

impl View for Payload {
    type V = PayloadModel;

    open spec fn view(&self) -> PayloadModel {
        match self {
            Payload::Title(t) => PayloadModel::Title(t@),
            Payload::Items { items, sum } => PayloadModel::Items {
                items: items_view(items@),
                sum: *sum as int,
            },
        }
    }
}

/// Reported when a response body does not match either payload variant:
/// the offending field and why it was refused.
#[derive(Debug, Clone, PartialEq, Eq)]
pub struct ValidationError {
    pub field: String,
    pub reason: String,
}

/// Mathematical model of a [`ValidationError`].
pub struct ValidationErrorModel {
    pub field: Seq<char>,
    pub reason: Seq<char>,
}

impl View for ValidationError {
    type V = ValidationErrorModel;

    open spec fn view(&self) -> ValidationErrorModel {
        ValidationErrorModel { field: self.field@, reason: self.reason@ }
    }
}

} // verus!
