//! Payloads of the cart-mutating requests.

use vstd::prelude::*;

verus! {

/// A postal address. `name` and `phone_number` may be absent.
#[derive(Debug, PartialEq, Eq)]
pub struct Address {
    pub street: String,
    pub city: String,
    pub state_or_region: String,
    pub country: String,
    pub postal_code: String,
    pub name: Option<String>,
    pub phone_number: Option<String>,
}

/// The text of an [`Address`], field by field.
pub ghost struct AddressView {
    pub street: Seq<char>,
    pub city: Seq<char>,
    pub state_or_region: Seq<char>,
    pub country: Seq<char>,
    pub postal_code: Seq<char>,
    pub name: Option<Seq<char>>,
    pub phone_number: Option<Seq<char>>,
}

/// The text of an optional string.
pub open spec fn optional_text(s: Option<String>) -> Option<Seq<char>> {
    match s {
        Some(t) => Some(t@),
        None => None,
    }
}

impl View for Address {
    type V = AddressView;

    open spec fn view(&self) -> AddressView {
        AddressView {
            street: self.street@,
            city: self.city@,
            state_or_region: self.state_or_region@,
            country: self.country@,
            postal_code: self.postal_code@,
            name: optional_text(self.name),
            phone_number: optional_text(self.phone_number),
        }
    }
}

fn clone_optional(s: &Option<String>) -> (r: Option<String>)
    ensures
        optional_text(r) == optional_text(*s),
{
    match s {
        Some(t) => Some(t.clone()),
        None => None,
    }
}

impl Clone for Address {
    /// A copy with the same text in every field.
    fn clone(&self) -> (r: Self)
        ensures
            r@ == self@,
    {
        Address {
            street: self.street.clone(),
            city: self.city.clone(),
            state_or_region: self.state_or_region.clone(),
            country: self.country.clone(),
            postal_code: self.postal_code.clone(),
            name: clone_optional(&self.name),
            phone_number: clone_optional(&self.phone_number),
        }
    }
}

/// Body of a cart-add call: how many units of the product to add.
#[derive(Clone, Copy, Debug, PartialEq, Eq, Structural)]
pub struct AddItem {
    pub quantity: u32,
}

impl AddItem {
    pub fn new(quantity: u32) -> (r: Self)
        ensures
            r.quantity == quantity,
    {
        Self { quantity }
    }
}

/// Body of the call that sets the cart's contact email.
#[derive(Debug, PartialEq, Eq)]
pub struct SetEmail {
    pub email: String,
}

impl View for SetEmail {
    type V = Seq<char>;

    open spec fn view(&self) -> Seq<char> {
        self.email@
    }
}

impl SetEmail {
    pub fn new(email: String) -> (r: Self)
        ensures
            r.email == email,
    {
        Self { email }
    }
}

impl Clone for SetEmail {
    /// A copy with the same address.
    fn clone(&self) -> (r: Self)
        ensures
            r@ == self@,
    {
        SetEmail { email: self.email.clone() }
    }
}

} // verus!
