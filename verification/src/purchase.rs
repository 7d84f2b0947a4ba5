//! The purchase decision and the detail-visibility rule for furniture
//! items.
//!
//! The storage collaborator locks the item row for update, reads it, and
//! hands the stock here; the decision whether and how to decrement is
//! this module's, and it never drives stock negative.  A sold-out item
//! is indistinguishable from a nonexistent one to the client, by design.

use vstd::prelude::*;

use crate::model::Chair;
use crate::model::ChairModel;

verus! {

/// The purchase decision on the locked row's stock: a positive stock is
/// decremented, anything else refuses the purchase.
pub open spec fn spec_try_purchase(stock: int) -> Option<int> {
    if stock > 0 {
        Some(stock - 1)
    } else {
        None
    }
}

/// Decides one purchase attempt.  Returns the new stock to write, or
/// `None` when the item is out of stock (or was never found), in which
/// case the caller reports "not found".
pub fn try_purchase(stock: i64) -> (r: Option<i64>)
    ensures
        r matches Some(s) ==> spec_try_purchase(stock as int) == Some(s as int),
        r is None <==> spec_try_purchase(stock as int) is None,
{
    if stock > 0 {
        Some(stock - 1)
    } else {
        None
    }
}

/// A granted purchase never leaves negative stock.
pub proof fn lemma_purchase_never_negative(stock: int)
    ensures
        spec_try_purchase(stock) matches Some(s) ==> s >= 0,
{
}

/// Two purchase attempts against one unit of stock, serialized by the
/// storage row lock: the first succeeds and leaves zero stock, the
/// second is refused, so exactly one buyer wins and stock never goes
/// negative.
pub proof fn lemma_purchase_race(stock: int)
    requires
        stock == 1,
    ensures
        spec_try_purchase(stock) == Some(0int),
        spec_try_purchase(0) is None,
{
}

/// Visibility of a furniture item looked up by id: a sold-out item is
/// reported exactly as a missing one.
pub open spec fn spec_visible_chair(c: Option<ChairModel>) -> Option<ChairModel> {
    match c {
        Option::None => None,
        Option::Some(cm) => if cm.stock <= 0 {
            None
        } else {
            Some(cm)
        },
    }
}

/// Applies the visibility rule to the storage collaborator's lookup
/// result.
pub fn visible_chair(c: Option<Chair>) -> (r: Option<Chair>)
    ensures
        r.deep_view() == spec_visible_chair(c.deep_view()),
{
    match c {
        Option::None => None,
        Option::Some(cm) => {
            if cm.stock <= 0 {
                None
            } else {
                Some(cm)
            }
        },
    }
}

} // verus!
