//! The renderer: a pure mapping from lifecycle state to an abstract,
//! presentation-ready view. No side effects, no access to the network or
//! clock; [`render_spec`] pins the view for every state.

use vstd::prelude::*;
use crate::aggregate::{sum_of_prices, total};
use crate::digits::dec_str;
use crate::json::JsonModel;
use crate::payload::{items_view, Item, ItemModel, Payload, PayloadModel};
use crate::state::{FetchState, FetchStateModel};
use crate::validate::{data_elems, item_of_spec, lemma_items_of_spec_ok, validate_spec};

verus! {

/// The abstract view: a loading indicator, a single title, the item rows
/// with the aggregator's computed total beside the server-reported sum, or
/// the generic failure view with the retry action.
#[derive(Debug, Clone, PartialEq, Eq)]
pub enum DisplayView {
    Loading,
    Title(String),
    ItemList { rows: Vec<Item>, computed_total: String, reported_sum: i64 },
    Failed,
}

/// Mathematical model of a [`DisplayView`].
pub enum DisplayViewModel {
    Loading,
    Title(Seq<char>),
    ItemList { rows: Seq<ItemModel>, computed_total: Seq<char>, reported_sum: int },
    Failed,
}

impl View for DisplayView {
    type V = DisplayViewModel;

    open spec fn view(&self) -> DisplayViewModel {
        match self {
            DisplayView::Loading => DisplayViewModel::Loading,
            DisplayView::Title(t) => DisplayViewModel::Title(t@),
            DisplayView::ItemList { rows, computed_total, reported_sum } => {
                DisplayViewModel::ItemList {
                    rows: items_view(rows@),
                    computed_total: computed_total@,
                    reported_sum: *reported_sum as int,
                }
            },
            DisplayView::Failed => DisplayViewModel::Failed,
        }
    }
}

/// What [`render`] shows for every state: idle and loading share the
/// loading view, a successful title shows the title, a successful list
/// shows each item in original order followed by the computed total and
/// the server-reported sum, and everything else falls back to the generic
/// failure view.
pub open spec fn render_spec(state: FetchStateModel) -> DisplayViewModel {
    match state {
        FetchStateModel::Idle => DisplayViewModel::Loading,
        FetchStateModel::Loading(_) => DisplayViewModel::Loading,
        FetchStateModel::Success(p) => match p {
            PayloadModel::Title(t) => DisplayViewModel::Title(t),
            PayloadModel::Items { items, sum } => DisplayViewModel::ItemList {
                rows: items,
                computed_total: dec_str(sum_of_prices(items)),
                reported_sum: sum,
            },
        },
        FetchStateModel::Error(_) => DisplayViewModel::Failed,
    }
}

/// Copies the rows so the view owns its data.
fn clone_items(items: &Vec<Item>) -> (r: Vec<Item>)
    ensures
        items_view(r@) == items_view(items@),
{
    let n = items.len();
    let mut out: Vec<Item> = Vec::new();
    let mut i: usize = 0;
    while i < n
        invariant
            n == items@.len(),
            i <= n,
            items_view(out@) == items_view(items@).take(i as int),
        decreases n - i,
    {
        let it = &items[i];
        let copied = Item { name: it.name.clone(), price: it.price.clone() };
        proof {
            assert(copied@ == items@[i as int]@);
            assert(items_view(out@.push(copied)) =~= items_view(out@).push(copied@));
            assert(items_view(items@).take(i + 1) =~= items_view(items@).take(i as int).push(
                items@[i as int]@,
            ));
        }
        out.push(copied);
        i = i + 1;
    }
    proof {
        assert(items_view(items@).take(n as int) =~= items_view(items@));
    }
    out
}

/// Maps the current state to its view. The final arm is the explicit
/// defensive fallback: any state the cases above do not cover — the error
/// state, by the transition table — shows the generic failure view.
pub fn render(state: &FetchState) -> (v: DisplayView)
    ensures
        v@ == render_spec(state@),
{
    match state {
        FetchState::Idle => DisplayView::Loading,
        FetchState::Loading(_) => DisplayView::Loading,
        FetchState::Success(p) => match p {
            Payload::Title(t) => DisplayView::Title(t.clone()),
            Payload::Items { items, sum } => {
                let rows = clone_items(items);
                let computed_total = total(&rows);
                DisplayView::ItemList { rows, computed_total, reported_sum: *sum }
            },
        },
        _ => DisplayView::Failed,
    }
}

/// The renderer is a pure function: equal states yield equal views.
pub proof fn lemma_render_deterministic(s1: FetchState, s2: FetchState)
    requires
        s1@ == s2@,
    ensures
        render_spec(s1@) == render_spec(s2@),
{
}

/// Round trip: a document accepted as the list variant renders one row per
/// entry of its `data` array, in the array's order, with the aggregator's
/// total computed over exactly those rows.
pub proof fn lemma_validate_then_render(doc: JsonModel)
    requires
        validate_spec(doc) matches Result::Ok(p) && p is Items,
    ensures
        validate_spec(doc) matches Result::Ok(p) ==> render_spec(FetchStateModel::Success(p))
            matches DisplayViewModel::ItemList { rows, computed_total, reported_sum }
            && rows.len() == data_elems(doc).len() && (forall|j: int|
            0 <= j < rows.len() ==> (#[trigger] item_of_spec(data_elems(doc)[j]) matches
                Result::Ok(m) && rows[j] == m)) && computed_total == dec_str(sum_of_prices(rows)),
{
    lemma_items_of_spec_ok(data_elems(doc));
}

} // verus!
