//! What the API answers to a checkout.

use vstd::prelude::*;

verus! {

/// The order that a checkout created, by its server-assigned identifier.
#[derive(Debug, PartialEq, Eq)]
pub struct OrderCreated {
    pub order_id: String,
}

impl View for OrderCreated {
    type V = Seq<char>;

    open spec fn view(&self) -> Seq<char> {
        self.order_id@
    }
}

impl Clone for OrderCreated {
    /// A copy with the same identifier.
    fn clone(&self) -> (r: Self)
        ensures
            r@ == self@,
    {
        OrderCreated { order_id: self.order_id.clone() }
    }
}

/// The success envelope of a checkout response: the order sits under `ok`.
#[derive(Debug, PartialEq, Eq)]
pub struct OkOrderCreated {
    pub ok: OrderCreated,
}

impl View for OkOrderCreated {
    type V = Seq<char>;

    open spec fn view(&self) -> Seq<char> {
        self.ok@
    }
}

impl Clone for OkOrderCreated {
    /// A copy with the same order.
    fn clone(&self) -> (r: Self)
        ensures
            r@ == self@,
    {
        OkOrderCreated { ok: self.ok.clone() }
    }
}

impl OkOrderCreated {
    /// Unwraps the envelope and hands out the order's identifier.
    pub fn into_order_id(self) -> (id: String)
        ensures
            id@ == self@,
    {
        self.ok.order_id
    }
}

} // verus!
