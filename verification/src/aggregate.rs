//! The item aggregator: derives a display total from a list of line items.
//! Each price text is read as an unsigned integer amount; items whose price
//! text is not parseable are excluded from the sum rather than aborting the
//! whole computation.

use vstd::prelude::*;
use crate::digits::{dec_str, digits_val, fmt_decimal, is_digit_seq, parse_digits};
use crate::payload::{items_view, Item, ItemModel};

verus! {

/// The amount a price text contributes to the total: its value when it is a
/// digit string whose value fits in a `u64`, and zero otherwise (the item is
/// excluded, not an error).
pub open spec fn price_value(price: Seq<char>) -> nat {
    if is_digit_seq(price) && digits_val(price) <= u64::MAX {
        digits_val(price)
    } else {
        0
    }
}

/// The display total of a list of items: the sum of the contributing
/// price values.
pub open spec fn sum_of_prices(items: Seq<ItemModel>) -> nat
    decreases items.len(),
{
    if items.len() == 0 {
        0
    } else {
        sum_of_prices(items.drop_last()) + price_value(items.last().price)
    }
}

/// Computes the display total of `items` and formats it as decimal text.
pub fn total(items: &Vec<Item>) -> (r: String)
    ensures
        r@ == dec_str(sum_of_prices(items_view(items@))),
{
    let ghost m = items_view(items@);
    let n = items.len();
    let mut acc: u128 = 0;
    let mut i: usize = 0;
    while i < n
        invariant
            n == items@.len(),
            m == items_view(items@),
            i <= n,
            acc == sum_of_prices(m.take(i as int)),
            acc <= (i as nat) * (u64::MAX as nat),
        decreases n - i,
    {
        let parsed = parse_digits(items[i].price.as_str());
        let add: u64 = match parsed {
            Some(v) => v,
            None => 0,
        };
        proof {
            assert(m[i as int] == items@[i as int]@);
            assert(add == price_value(m[i as int].price));
            assert(m.take(i + 1).drop_last() =~= m.take(i as int));
            assert(m.take(i + 1).last() == m[i as int]);
            assert(acc + add <= (i + 1) * (u64::MAX as nat)) by (nonlinear_arith)
                requires
                    acc <= (i as nat) * (u64::MAX as nat),
                    add <= u64::MAX,
            ;
            assert((i + 1) * (u64::MAX as nat) <= (usize::MAX as nat) * (u64::MAX as nat))
                by (nonlinear_arith)
                requires
                    i + 1 <= usize::MAX,
            ;
            assert((usize::MAX as nat) * (u64::MAX as nat) < u128::MAX as nat);
        }
        acc = acc + (add as u128);
        i = i + 1;
    }
    proof {
        assert(m.take(n as int) =~= m);
    }
    fmt_decimal(acc)
}

} // verus!
