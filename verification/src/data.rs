//! The pool of synthetic entities: product ids, brands, user ids, addresses
//! and emails, and random draws from them.
//!
//! The pools are small and fixed, so that the shape of the load stays the same
//! from run to run while the selection within it does not.

use crate::domain::common::{Address, AddressView};
use crate::text::{is_digit, lemma_padded3_digits, padded3, to_padded3};
use rand::seq::SliceRandom;
use rand::Rng;
use vstd::prelude::*;

verus! {

/// Number of product ids in the pool.
pub const PRODUCT_COUNT: u32 = 50;

/// Number of user ids in the pool.
pub const USER_COUNT: u32 = 10;

/// Emails carry a random number below this bound.
pub const EMAIL_SUFFIX_BOUND: u32 = 100;

/// The text of each string of a list.
pub open spec fn texts(v: Seq<String>) -> Seq<Seq<char>> {
    Seq::new(v.len(), |i: int| v[i]@)
}

/// The content of each address of a list.
pub open spec fn address_views(v: Seq<Address>) -> Seq<AddressView> {
    Seq::new(v.len(), |i: int| v[i]@)
}

/// The `n`-th product id: `p` and the number in three digits.
pub open spec fn product_id_text(n: nat) -> Seq<char> {
    "p"@ + padded3(n)
}

/// The `n`-th user id: `user` and the number in three digits.
pub open spec fn user_id_text(n: nat) -> Seq<char> {
    "user"@ + padded3(n)
}

/// `p001` to `p050`, ascending.
pub open spec fn product_id_pool() -> Seq<Seq<char>> {
    Seq::new(PRODUCT_COUNT as nat, |i: int| product_id_text((i + 1) as nat))
}

/// `user001` to `user010`, ascending.
pub open spec fn user_id_pool() -> Seq<Seq<char>> {
    Seq::new(USER_COUNT as nat, |i: int| user_id_text((i + 1) as nat))
}

/// The four brand names.
pub open spec fn brand_pool() -> Seq<Seq<char>> {
    seq!["Brand A"@, "Brand B"@, "Brand C"@, "Brand D"@]
}

/// The email of `user` with the number `n`: `{user}-{n in three digits}@test.com`.
pub open spec fn email_text(user: Seq<char>, n: nat) -> Seq<char> {
    user + "-"@ + padded3(n) + "@test.com"@
}

/// The three addresses of the catalog. The last one, in New York, has no name.
pub open spec fn address_catalog() -> Seq<AddressView> {
    seq![
        AddressView {
            street: "123 Main St"@,
            city: "San Francisco"@,
            state_or_region: "CA"@,
            country: "USA"@,
            postal_code: "12345"@,
            name: Some("John Doe"@),
            phone_number: Some("555-555-5555"@),
        },
        AddressView {
            street: "123 Main St"@,
            city: "Washington DC"@,
            state_or_region: "Washington"@,
            country: "USA"@,
            postal_code: "23456"@,
            name: Some("John Doe"@),
            phone_number: Some("555-555-1234"@),
        },
        AddressView {
            street: "123 Main St"@,
            city: "New York"@,
            state_or_region: "NY"@,
            country: "USA"@,
            postal_code: "3456"@,
            name: None,
            phone_number: Some("555-555-3456"@),
        },
    ]
}

/// `picked` holds the items of `pool` at the positions `at`, each position in
/// range and none of them twice.
pub open spec fn drawn_at<T>(pool: Seq<T>, picked: Seq<T>, at: Seq<int>) -> bool {
    &&& at.len() == picked.len()
    &&& forall|k: int|
        0 <= k < picked.len() ==> 0 <= #[trigger] at[k] < pool.len() && picked[k] == pool[at[k]]
    &&& forall|j: int, k: int| 0 <= j < k < picked.len() ==> at[j] != at[k]
}

/// `picked` was taken from `pool` without replacement: its items stand at
/// pairwise different positions of `pool`.
pub open spec fn is_sample<T>(pool: Seq<T>, picked: Seq<T>) -> bool {
    exists|at: Seq<int>| drawn_at(pool, picked, at)
}

/// What was drawn without replacement consists of items of the pool, and holds
/// nothing twice where the pool holds nothing twice.
pub proof fn lemma_sample_members_distinct<T>(pool: Seq<T>, picked: Seq<T>)
    requires
        is_sample(pool, picked),
    ensures
        forall|k: int| 0 <= k < picked.len() ==> pool.contains(#[trigger] picked[k]),
        pool.no_duplicates() ==> picked.no_duplicates(),
{
    let at = choose|at: Seq<int>| drawn_at(pool, picked, at);
    assert forall|k: int| 0 <= k < picked.len() implies pool.contains(#[trigger] picked[k]) by {
        assert(pool[at[k]] == picked[k]);
    }
    if pool.no_duplicates() {
        assert forall|j: int, k: int| 0 <= j < picked.len() && 0 <= k < picked.len() && j != k implies picked[j]
            != picked[k] by {
            assert(pool[at[j]] == picked[j]);
            assert(pool[at[k]] == picked[k]);
            if j < k {
                assert(at[j] != at[k]);
            } else {
                assert(at[k] != at[j]);
            }
        }
    }
}

/// A product id of the pool is `p0` and two digits, for a number from 1 to 50.
pub proof fn lemma_product_id_shape(id: Seq<char>)
    requires
        product_id_pool().contains(id),
    ensures
        exists|n: nat| 1 <= n <= PRODUCT_COUNT && id == product_id_text(n),
        id.len() == 4,
        id[0] == 'p',
        id[1] == '0',
        is_digit(id[2]),
        is_digit(id[3]),
{
    let i = choose|i: int| 0 <= i < product_id_pool().len() && product_id_pool()[i] == id;
    let n = (i + 1) as nat;
    assert(id == product_id_text(n));
    reveal_strlit("p");
    lemma_padded3_digits(n);
}

/// The product-id pool holds no id twice.
pub proof fn lemma_product_ids_distinct()
    ensures
        product_id_pool().no_duplicates(),
{
    reveal_strlit("p");
    assert forall|i: int, j: int|
        0 <= i < product_id_pool().len() && 0 <= j < product_id_pool().len() && i != j implies product_id_pool()[i]
        != product_id_pool()[j] by {
        let a = (i + 1) as nat;
        let b = (j + 1) as nat;
        lemma_padded3_digits(a);
        lemma_padded3_digits(b);
        let x = product_id_text(a);
        let y = product_id_text(b);
        if x == y {
            assert(x[2] == y[2]);
            assert(x[3] == y[3]);
            assert(padded3(a)[1] == x[2]);
            assert(padded3(b)[1] == y[2]);
            assert(padded3(a)[2] == x[3]);
            assert(padded3(b)[2] == y[3]);
            assert(a / 10 % 10 == b / 10 % 10);
            assert(a % 10 == b % 10);
            assert(false);
        }
    }
}

/// Any number of ids drawn without replacement from the product-id pool are
/// ids of the pool, and no two of them are the same.
pub proof fn lemma_product_sample(picked: Seq<Seq<char>>)
    requires
        is_sample(product_id_pool(), picked),
    ensures
        forall|k: int| 0 <= k < picked.len() ==> product_id_pool().contains(#[trigger] picked[k]),
        picked.no_duplicates(),
{
    lemma_product_ids_distinct();
    lemma_sample_members_distinct(product_id_pool(), picked);
}

/// An email generated for `user` is the user id, a hyphen, three digits and
/// `@test.com`.
pub proof fn lemma_email_shape(user: Seq<char>, n: nat)
    requires
        n < EMAIL_SUFFIX_BOUND,
    ensures
        exists|a: char, b: char, c: char|
            is_digit(a) && is_digit(b) && is_digit(c) && email_text(user, n) == user + seq![
                '-',
                a,
                b,
                c,
            ] + "@test.com"@,
{
    reveal_strlit("-");
    lemma_padded3_digits(n);
    let d = padded3(n);
    assert(email_text(user, n) =~= user + seq!['-', d[0], d[1], d[2]] + "@test.com"@);
}

/// The catalog has three addresses, and only the third, in New York, has no
/// name.
pub proof fn lemma_address_catalog_names()
    ensures
        address_catalog().len() == 3,
        forall|i: int| 0 <= i < 3 ==> (address_catalog()[i].name is None <==> i == 2),
        address_catalog()[2].city == "New York"@,
{
}

/// `rand::seq::SliceRandom::choose` with the thread-local generator: `None` on
/// an empty list, else a reference to one of its items. Which one is left open.
#[verifier::external_body]
fn choose_one<T>(pool: &Vec<T>) -> (picked: Option<&T>)
    ensures
        pool@.len() == 0 <==> picked is None,
        picked matches Some(item) ==> pool@.contains(*item),
{
    pool.choose(&mut rand::thread_rng())
}

/// `rand::seq::SliceRandom::choose_multiple` with the thread-local generator:
/// `amount` items of the list, or all of them where it has fewer, taken at
/// pairwise different positions, in the order in which they were drawn. Which
/// positions is left open.
#[verifier::external_body]
fn choose_multiple<T>(pool: &Vec<T>, amount: usize) -> (picked: Vec<&T>)
    ensures
        picked@.len() == if amount <= pool@.len() { amount as nat } else { pool@.len() },
        is_sample(pool@, Seq::new(picked@.len(), |k: int| *picked@[k])),
{
    pool.choose_multiple(&mut rand::thread_rng(), amount).collect()
}

/// `rand::Rng::gen_range` on `0..bound` with the thread-local generator: some
/// number below `bound`. An empty range makes it panic, so `bound` is positive.
#[verifier::external_body]
fn gen_range(bound: u32) -> (n: u32)
    requires
        bound > 0,
    ensures
        n < bound,
{
    rand::thread_rng().gen_range(0..bound)
}

fn prefixed(prefix: &str, n: u32) -> (s: String)
    ensures
        s@ == prefix@ + padded3(n as nat),
{
    let mut s = String::from_str(prefix);
    let digits = to_padded3(n);
    s.append(digits.as_str());
    s
}

/// The four brand names, in their fixed order.
pub fn get_product_brands() -> (brands: Vec<String>)
    ensures
        texts(brands@) == brand_pool(),
{
    let mut brands: Vec<String> = Vec::new();
    brands.push(String::from_str("Brand A"));
    brands.push(String::from_str("Brand B"));
    brands.push(String::from_str("Brand C"));
    brands.push(String::from_str("Brand D"));
    assert(texts(brands@) =~= brand_pool());
    brands
}

/// The whole product-id pool, `p001` to `p050`, ascending.
pub fn get_product_ids() -> (ids: Vec<String>)
    ensures
        texts(ids@) == product_id_pool(),
{
    let mut ids: Vec<String> = Vec::new();
    let mut n: u32 = 1;
    while n <= PRODUCT_COUNT
        invariant
            1 <= n <= PRODUCT_COUNT + 1,
            ids@.len() == n - 1,
            forall|i: int| 0 <= i < ids@.len() ==> ids@[i]@ == product_id_text((i + 1) as nat),
        decreases PRODUCT_COUNT + 1 - n,
    {
        ids.push(prefixed("p", n));
        n = n + 1;
    }
    assert(texts(ids@) =~= product_id_pool());
    ids
}

/// The whole user-id pool, `user001` to `user010`, ascending.
pub fn get_user_ids() -> (ids: Vec<String>)
    ensures
        texts(ids@) == user_id_pool(),
{
    let mut ids: Vec<String> = Vec::new();
    let mut n: u32 = 1;
    while n <= USER_COUNT
        invariant
            1 <= n <= USER_COUNT + 1,
            ids@.len() == n - 1,
            forall|i: int| 0 <= i < ids@.len() ==> ids@[i]@ == user_id_text((i + 1) as nat),
        decreases USER_COUNT + 1 - n,
    {
        ids.push(prefixed("user", n));
        n = n + 1;
    }
    assert(texts(ids@) =~= user_id_pool());
    ids
}

/// The fixed address catalog.
pub fn get_addresses() -> (addresses: Vec<Address>)
    ensures
        address_views(addresses@) == address_catalog(),
{
    let mut addresses: Vec<Address> = Vec::new();

    addresses.push(
        Address {
            street: String::from_str("123 Main St"),
            state_or_region: String::from_str("CA"),
            phone_number: Some(String::from_str("555-555-5555")),
            postal_code: String::from_str("12345"),
            name: Some(String::from_str("John Doe")),
            city: String::from_str("San Francisco"),
            country: String::from_str("USA"),
        },
    );

    addresses.push(
        Address {
            street: String::from_str("123 Main St"),
            state_or_region: String::from_str("Washington"),
            phone_number: Some(String::from_str("555-555-1234")),
            postal_code: String::from_str("23456"),
            name: Some(String::from_str("John Doe")),
            city: String::from_str("Washington DC"),
            country: String::from_str("USA"),
        },
    );

    addresses.push(
        Address {
            street: String::from_str("123 Main St"),
            state_or_region: String::from_str("NY"),
            phone_number: Some(String::from_str("555-555-3456")),
            postal_code: String::from_str("3456"),
            name: None,
            city: String::from_str("New York"),
            country: String::from_str("USA"),
        },
    );

    assert(address_views(addresses@) =~= address_catalog());
    addresses
}

/// One item of a non-empty list of strings, drawn at random.
pub fn pick(pool: &Vec<String>) -> (item: String)
    requires
        pool@.len() > 0,
    ensures
        texts(pool@).contains(item@),
{
    let picked = choose_one(pool).unwrap();
    proof {
        let i = choose|i: int| 0 <= i < pool@.len() && pool@[i] == *picked;
        assert(texts(pool@)[i] == picked@);
    }
    picked.clone()
}

/// One address of a non-empty list, drawn at random.
pub fn pick_address(pool: &Vec<Address>) -> (item: Address)
    requires
        pool@.len() > 0,
    ensures
        address_views(pool@).contains(item@),
{
    let picked = choose_one(pool).unwrap();
    proof {
        let i = choose|i: int| 0 <= i < pool@.len() && pool@[i] == *picked;
        assert(address_views(pool@)[i] == picked@);
    }
    picked.clone()
}

/// One product id of the pool, drawn at random.
pub fn rand_product_id() -> (id: String)
    ensures
        product_id_pool().contains(id@),
        exists|n: nat| 1 <= n <= PRODUCT_COUNT && id@ == product_id_text(n),
        id@.len() == 4,
        id@[0] == 'p',
        id@[1] == '0',
        is_digit(id@[2]),
        is_digit(id@[3]),
{
    let product_ids = get_product_ids();
    assert(product_ids@.len() == texts(product_ids@).len());
    let id = pick(&product_ids);
    proof {
        lemma_product_id_shape(id@);
    }
    id
}

/// One of the four brand names, drawn at random.
pub fn rand_product_brand() -> (brand: String)
    ensures
        brand_pool().contains(brand@),
{
    let product_brands = get_product_brands();
    assert(product_brands@.len() == texts(product_brands@).len());
    pick(&product_brands)
}

/// The email of `user` with the number `num`.
pub fn email_with_suffix(user: &str, num: u32) -> (email: String)
    ensures
        email@ == email_text(user@, num as nat),
{
    let mut email = String::from_str(user);
    email.append("-");
    let digits = to_padded3(num);
    email.append(digits.as_str());
    email.append("@test.com");
    email
}

/// An email for `user`, with a random number below [`EMAIL_SUFFIX_BOUND`].
pub fn get_email(user: String) -> (email: String)
    ensures
        exists|n: nat| n < EMAIL_SUFFIX_BOUND && email@ == email_text(user@, n),
{
    let num = gen_range(EMAIL_SUFFIX_BOUND);
    email_with_suffix(user.as_str(), num)
}

/// Draws `n` items from `pool` without replacement, in the order of drawing.
pub fn choose_multiple_distinct(pool: &Vec<String>, n: usize) -> (picked: Vec<String>)
    requires
        n <= pool@.len(),
    ensures
        picked@.len() == n,
        is_sample(texts(pool@), texts(picked@)),
        forall|k: int| 0 <= k < n ==> texts(pool@).contains(#[trigger] texts(picked@)[k]),
        texts(pool@).no_duplicates() ==> texts(picked@).no_duplicates(),
{
    let refs = choose_multiple(pool, n);
    let mut picked: Vec<String> = Vec::new();
    let mut k: usize = 0;
    while k < refs.len()
        invariant
            k <= refs@.len(),
            picked@.len() == k,
            forall|j: int| 0 <= j < k ==> picked@[j]@ == (#[trigger] refs@[j])@,
        decreases refs@.len() - k,
    {
        let item: &String = refs[k];
        picked.push(item.clone());
        k = k + 1;
    }
    proof {
        let drawn = Seq::new(refs@.len(), |k: int| *refs@[k]);
        let at = choose|at: Seq<int>| drawn_at(pool@, drawn, at);
        assert(drawn_at(texts(pool@), texts(picked@), at)) by {
            assert forall|k: int| 0 <= k < picked@.len() implies 0 <= #[trigger] at[k] < pool@.len()
                && texts(picked@)[k] == texts(pool@)[at[k]] by {
                assert(drawn[k] == pool@[at[k]]);
            }
        }
        lemma_sample_members_distinct(texts(pool@), texts(picked@));
    }
    picked
}

} // verus!
