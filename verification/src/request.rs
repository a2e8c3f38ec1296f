//! The calls made against the commerce API: method, metric name, path, body.
//!
//! The metric name is given with every call and never derived from the path,
//! so that calls which differ only in a path parameter are counted together.

use crate::domain::common::{AddItem, Address, AddressView, SetEmail};
use vstd::prelude::*;

verus! {

/// HTTP method of a call.
#[derive(Clone, Copy, Debug, PartialEq, Eq, Structural)]
pub enum Method {
    Get,
    Put,
    Post,
    Delete,
}

/// Body of a call.
#[derive(Debug, PartialEq, Eq)]
pub enum Payload {
    /// The call carries no body.
    Absent,
    /// The call carries the JSON value `null`.
    Null,
    AddItem(AddItem),
    SetEmail(SetEmail),
    Address(Address),
}

/// The content of a [`Payload`].
pub ghost enum PayloadView {
    Absent,
    Null,
    AddItem(AddItem),
    SetEmail(Seq<char>),
    Address(AddressView),
}

impl View for Payload {
    type V = PayloadView;

    open spec fn view(&self) -> PayloadView {
        match self {
            Payload::Absent => PayloadView::Absent,
            Payload::Null => PayloadView::Null,
            Payload::AddItem(item) => PayloadView::AddItem(*item),
            Payload::SetEmail(email) => PayloadView::SetEmail(email@),
            Payload::Address(address) => PayloadView::Address(address@),
        }
    }
}

/// One call: what to send, where, and under which metric name to record it.
#[derive(Debug, PartialEq, Eq)]
pub struct Request {
    pub method: Method,
    /// Logical metric name under which the call is recorded.
    pub name: String,
    /// Path relative to the target host.
    pub path: String,
    pub body: Payload,
}

/// The content of a [`Request`].
pub ghost struct RequestView {
    pub method: Method,
    pub name: Seq<char>,
    pub path: Seq<char>,
    pub body: PayloadView,
}

impl View for Request {
    type V = RequestView;

    open spec fn view(&self) -> RequestView {
        RequestView { method: self.method, name: self.name@, path: self.path@, body: self.body@ }
    }
}

/// `/v1/cart/{user}` followed by `rest`.
pub open spec fn cart_path(user: Seq<char>, rest: Seq<char>) -> Seq<char> {
    "/v1/cart/"@ + user + rest
}

/// `/v1/cart/{user}/items/{product}`.
pub open spec fn cart_item_path(user: Seq<char>, product: Seq<char>) -> Seq<char> {
    cart_path(user, "/items/"@ + product)
}

/// `GET /v1/product/{id}`, recorded as `product-get`.
pub open spec fn product_get(id: Seq<char>) -> RequestView {
    RequestView {
        method: Method::Get,
        name: "product-get"@,
        path: "/v1/product/"@ + id,
        body: PayloadView::Absent,
    }
}

/// `GET /v1/product/search?query=brand:"{brand}"`, recorded as
/// `product-search-by-brand`. The brand stands between the quotes as it is.
pub open spec fn product_search_by_brand(brand: Seq<char>) -> RequestView {
    RequestView {
        method: Method::Get,
        name: "product-search-by-brand"@,
        path: "/v1/product/search?query=brand:\""@ + brand + "\""@,
        body: PayloadView::Absent,
    }
}

/// `GET /v1/pricing/{id}`, recorded as `pricing-get`.
pub open spec fn pricing_get(id: Seq<char>) -> RequestView {
    RequestView {
        method: Method::Get,
        name: "pricing-get"@,
        path: "/v1/pricing/"@ + id,
        body: PayloadView::Absent,
    }
}

/// `PUT /v1/cart/{user}/items/{product}` with the quantity, recorded as
/// `cart-add-item`.
pub open spec fn cart_add_item(user: Seq<char>, product: Seq<char>, item: AddItem) -> RequestView {
    RequestView {
        method: Method::Put,
        name: "cart-add-item"@,
        path: cart_item_path(user, product),
        body: PayloadView::AddItem(item),
    }
}

/// `DELETE /v1/cart/{user}/items/{product}`, recorded as `cart-delete-item`.
pub open spec fn cart_delete_item(user: Seq<char>, product: Seq<char>) -> RequestView {
    RequestView {
        method: Method::Delete,
        name: "cart-delete-item"@,
        path: cart_item_path(user, product),
        body: PayloadView::Absent,
    }
}

/// `PUT /v1/cart/{user}/email` with the email, recorded as `cart-set-email`.
pub open spec fn cart_set_email(user: Seq<char>, email: Seq<char>) -> RequestView {
    RequestView {
        method: Method::Put,
        name: "cart-set-email"@,
        path: cart_path(user, "/email"@),
        body: PayloadView::SetEmail(email),
    }
}

/// `PUT /v1/cart/{user}/billing-address` with the address, recorded as
/// `cart-set-billing-address`.
pub open spec fn cart_set_billing_address(user: Seq<char>, address: AddressView) -> RequestView {
    RequestView {
        method: Method::Put,
        name: "cart-set-billing-address"@,
        path: cart_path(user, "/billing-address"@),
        body: PayloadView::Address(address),
    }
}

/// `GET /v1/cart/{user}`, recorded as `cart-get`.
pub open spec fn cart_get(user: Seq<char>) -> RequestView {
    RequestView {
        method: Method::Get,
        name: "cart-get"@,
        path: cart_path(user, Seq::empty()),
        body: PayloadView::Absent,
    }
}

/// `POST /v1/cart/{user}/checkout` with a null body, recorded as
/// `cart-checkout`.
pub open spec fn cart_checkout(user: Seq<char>) -> RequestView {
    RequestView {
        method: Method::Post,
        name: "cart-checkout"@,
        path: cart_path(user, "/checkout"@),
        body: PayloadView::Null,
    }
}

/// `GET /v1/order/{order_id}`, recorded as `order-get`.
pub open spec fn order_get(order_id: Seq<char>) -> RequestView {
    RequestView {
        method: Method::Get,
        name: "order-get"@,
        path: "/v1/order/"@ + order_id,
        body: PayloadView::Absent,
    }
}

fn join(head: &str, tail: &str) -> (s: String)
    ensures
        s@ == head@ + tail@,
{
    let mut s = String::from_str(head);
    s.append(tail);
    s
}

fn make_cart_path(user: &str, rest: &str) -> (s: String)
    ensures
        s@ == cart_path(user@, rest@),
{
    let mut s = join("/v1/cart/", user);
    s.append(rest);
    s
}

fn make_cart_item_path(user: &str, product: &str) -> (s: String)
    ensures
        s@ == cart_item_path(user@, product@),
{
    let rest = join("/items/", product);
    make_cart_path(user, rest.as_str())
}

impl Request {
    pub fn product_get(id: &str) -> (r: Request)
        ensures
            r@ == product_get(id@),
    {
        Request {
            method: Method::Get,
            name: String::from_str("product-get"),
            path: join("/v1/product/", id),
            body: Payload::Absent,
        }
    }

    pub fn product_search_by_brand(brand: &str) -> (r: Request)
        ensures
            r@ == product_search_by_brand(brand@),
    {
        let mut path = join("/v1/product/search?query=brand:\"", brand);
        path.append("\"");
        Request {
            method: Method::Get,
            name: String::from_str("product-search-by-brand"),
            path,
            body: Payload::Absent,
        }
    }

    pub fn pricing_get(id: &str) -> (r: Request)
        ensures
            r@ == pricing_get(id@),
    {
        Request {
            method: Method::Get,
            name: String::from_str("pricing-get"),
            path: join("/v1/pricing/", id),
            body: Payload::Absent,
        }
    }

    pub fn cart_add_item(user: &str, product: &str, item: AddItem) -> (r: Request)
        ensures
            r@ == cart_add_item(user@, product@, item),
    {
        Request {
            method: Method::Put,
            name: String::from_str("cart-add-item"),
            path: make_cart_item_path(user, product),
            body: Payload::AddItem(item),
        }
    }

    pub fn cart_delete_item(user: &str, product: &str) -> (r: Request)
        ensures
            r@ == cart_delete_item(user@, product@),
    {
        Request {
            method: Method::Delete,
            name: String::from_str("cart-delete-item"),
            path: make_cart_item_path(user, product),
            body: Payload::Absent,
        }
    }

    pub fn cart_set_email(user: &str, email: SetEmail) -> (r: Request)
        ensures
            r@ == cart_set_email(user@, email@),
    {
        Request {
            method: Method::Put,
            name: String::from_str("cart-set-email"),
            path: make_cart_path(user, "/email"),
            body: Payload::SetEmail(email),
        }
    }

    pub fn cart_set_billing_address(user: &str, address: Address) -> (r: Request)
        ensures
            r@ == cart_set_billing_address(user@, address@),
    {
        Request {
            method: Method::Put,
            name: String::from_str("cart-set-billing-address"),
            path: make_cart_path(user, "/billing-address"),
            body: Payload::Address(address),
        }
    }

    pub fn cart_get(user: &str) -> (r: Request)
        ensures
            r@ == cart_get(user@),
    {
        proof {
            reveal_strlit("");
            assert(""@ =~= Seq::<char>::empty());
        }
        Request {
            method: Method::Get,
            name: String::from_str("cart-get"),
            path: make_cart_path(user, ""),
            body: Payload::Absent,
        }
    }

    pub fn cart_checkout(user: &str) -> (r: Request)
        ensures
            r@ == cart_checkout(user@),
    {
        Request {
            method: Method::Post,
            name: String::from_str("cart-checkout"),
            path: make_cart_path(user, "/checkout"),
            body: Payload::Null,
        }
    }

    pub fn order_get(order_id: &str) -> (r: Request)
        ensures
            r@ == order_get(order_id@),
    {
        Request {
            method: Method::Get,
            name: String::from_str("order-get"),
            path: join("/v1/order/", order_id),
            body: Payload::Absent,
        }
    }
}

} // verus!
