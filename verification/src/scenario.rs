//! The scenarios that virtual users run, and the single-call ones among them.

use crate::data::{brand_pool, product_id_pool, rand_product_brand, rand_product_id};
use crate::request::{pricing_get, product_get, product_search_by_brand, Request};
use vstd::prelude::*;

verus! {

/// Shortest pause between two iterations of a scenario, in seconds.
pub const WAIT_MIN_SECS: u64 = 5;

/// Longest pause between two iterations of a scenario, in seconds.
pub const WAIT_MAX_SECS: u64 = 15;

/// A named workflow that a virtual user repeats.
#[derive(Clone, Copy, Debug, PartialEq, Eq, Structural)]
pub enum Scenario {
    GetProducts,
    SearchProductsByBrand,
    GetPricing,
    CreateAndCheckoutCart,
}

/// The name under which a scenario is registered.
pub open spec fn scenario_name(scenario: Scenario) -> Seq<char> {
    match scenario {
        Scenario::GetProducts => "Get Products"@,
        Scenario::SearchProductsByBrand => "Search Products By Brand"@,
        Scenario::GetPricing => "Get Pricing"@,
        Scenario::CreateAndCheckoutCart => "Create, checkout Cart and get Order"@,
    }
}

impl Scenario {
    /// The four scenarios, in the order in which they are registered.
    pub fn all() -> (scenarios: Vec<Scenario>)
        ensures
            scenarios@ == seq![
                Scenario::GetProducts,
                Scenario::SearchProductsByBrand,
                Scenario::GetPricing,
                Scenario::CreateAndCheckoutCart,
            ],
    {
        let mut scenarios: Vec<Scenario> = Vec::new();
        scenarios.push(Scenario::GetProducts);
        scenarios.push(Scenario::SearchProductsByBrand);
        scenarios.push(Scenario::GetPricing);
        scenarios.push(Scenario::CreateAndCheckoutCart);
        assert(scenarios@ =~= seq![
            Scenario::GetProducts,
            Scenario::SearchProductsByBrand,
            Scenario::GetPricing,
            Scenario::CreateAndCheckoutCart,
        ]);
        scenarios
    }

    /// The name under which this scenario is registered.
    pub fn name(&self) -> (name: &'static str)
        ensures
            name@ == scenario_name(*self),
    {
        match self {
            Scenario::GetProducts => "Get Products",
            Scenario::SearchProductsByBrand => "Search Products By Brand",
            Scenario::GetPricing => "Get Pricing",
            Scenario::CreateAndCheckoutCart => "Create, checkout Cart and get Order",
        }
    }

    /// The range, in seconds, from which the pause between two iterations is
    /// drawn. It is the same for every scenario.
    pub fn wait_time(&self) -> (range: (u64, u64))
        ensures
            range == (WAIT_MIN_SECS, WAIT_MAX_SECS),
    {
        (WAIT_MIN_SECS, WAIT_MAX_SECS)
    }
}

/// Looks up one product, drawn at random from the pool.
pub fn get_products() -> (request: Request)
    ensures
        exists|id: Seq<char>| product_id_pool().contains(id) && request@ == product_get(id),
{
    let product_id = rand_product_id();
    Request::product_get(product_id.as_str())
}

/// Searches the products of one brand, drawn at random from the four.
pub fn search_products_by_brand() -> (request: Request)
    ensures
        exists|brand: Seq<char>|
            brand_pool().contains(brand) && request@ == product_search_by_brand(brand),
{
    let brand = rand_product_brand();
    Request::product_search_by_brand(brand.as_str())
}

/// Looks up the price of one product, drawn at random from the pool.
pub fn get_pricing() -> (request: Request)
    ensures
        exists|id: Seq<char>| product_id_pool().contains(id) && request@ == pricing_get(id),
{
    let product_id = rand_product_id();
    Request::pricing_get(product_id.as_str())
}

} // verus!
