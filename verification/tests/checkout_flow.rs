use benchmark::checkout::{
    create_and_checkout_cart, draw_cart, Cart, Checkout, Reply, Stage, Step, ITEM_COUNT,
};
use benchmark::data::{get_addresses, get_product_ids, get_user_ids};
use benchmark::domain::cart::{OkOrderCreated, OrderCreated};
use benchmark::domain::common::{AddItem, SetEmail};
use benchmark::request::{Method, Payload, Request};

fn sample_cart() -> Cart {
    Cart {
        product_ids: vec![
            "p007".to_string(),
            "p031".to_string(),
            "p002".to_string(),
            "p044".to_string(),
        ],
        user_id: "user003".to_string(),
        address: get_addresses().remove(0),
        set_email: SetEmail::new("user003-042@test.com".to_string()),
    }
}

fn order(id: &str) -> Reply {
    Reply::Order(OkOrderCreated { ok: OrderCreated { order_id: id.to_string() } })
}

/// Reads a checkout response body: the order sits under `ok`, its id under
/// `order-id`.
fn checkout_reply(body: &str) -> Reply {
    let value: serde_json::Value = match serde_json::from_str(body) {
        Ok(v) => v,
        Err(_) => return Reply::Failed,
    };
    match value.get("ok").and_then(|ok| ok.get("order-id")).and_then(|id| id.as_str()) {
        Some(id) => order(id),
        None => Reply::Failed,
    }
}

/// Runs the checkout, answering the checkout call with `at_checkout` and every
/// other call with success.
fn run(cart: Cart, at_checkout: fn() -> Reply) -> (Vec<Request>, Step) {
    let mut run = Checkout::new(cart);
    let mut sent = Vec::new();
    let mut step = run.step();
    loop {
        match step {
            Step::Send(request) => {
                let reply =
                    if request.name == "cart-checkout" { at_checkout() } else { Reply::Succeeded };
                sent.push(request);
                step = run.advance(reply);
            }
            end => return (sent, end),
        }
    }
}

#[test]
fn checkout_issues_its_calls_in_order() {
    let (sent, end) = run(sample_cart(), || order("ord-123"));
    assert_eq!(end, Step::Finish);
    let calls: Vec<(Method, &str, &str)> =
        sent.iter().map(|r| (r.method, r.name.as_str(), r.path.as_str())).collect();
    assert_eq!(
        calls,
        vec![
            (Method::Put, "cart-add-item", "/v1/cart/user003/items/p007"),
            (Method::Put, "cart-add-item", "/v1/cart/user003/items/p031"),
            (Method::Put, "cart-add-item", "/v1/cart/user003/items/p002"),
            (Method::Put, "cart-add-item", "/v1/cart/user003/items/p044"),
            (Method::Delete, "cart-delete-item", "/v1/cart/user003/items/p007"),
            (Method::Put, "cart-set-email", "/v1/cart/user003/email"),
            (Method::Put, "cart-set-billing-address", "/v1/cart/user003/billing-address"),
            (Method::Get, "cart-get", "/v1/cart/user003"),
            (Method::Post, "cart-checkout", "/v1/cart/user003/checkout"),
            (Method::Get, "order-get", "/v1/order/ord-123"),
        ]
    );
}

#[test]
fn checkout_sends_its_payloads() {
    let cart = sample_cart();
    let address = cart.address.clone();
    let (sent, _) = run(cart, || order("ord-123"));
    let bodies: Vec<&Payload> = sent.iter().map(|r| &r.body).collect();
    assert_eq!(
        bodies,
        vec![
            &Payload::AddItem(AddItem { quantity: 1 }),
            &Payload::AddItem(AddItem { quantity: 1 }),
            &Payload::AddItem(AddItem { quantity: 1 }),
            &Payload::AddItem(AddItem { quantity: 1 }),
            &Payload::Absent,
            &Payload::SetEmail(SetEmail { email: "user003-042@test.com".to_string() }),
            &Payload::Address(address),
            &Payload::Absent,
            &Payload::Null,
            &Payload::Absent,
        ]
    );
}

#[test]
fn order_id_of_the_checkout_response_goes_into_the_last_call() {
    let (sent, end) = run(sample_cart(), || checkout_reply("{\"ok\":{\"order-id\":\"ord-123\"}}"));
    assert_eq!(end, Step::Finish);
    let last = sent.last().unwrap();
    assert_eq!(last.name, "order-get");
    assert_eq!(last.path, "/v1/order/ord-123");
}

#[test]
fn checkout_response_without_order_id_aborts_before_order_get() {
    let (sent, end) = run(sample_cart(), || checkout_reply("{\"ok\":{}}"));
    assert_eq!(end, Step::Abort);
    assert_eq!(sent.len(), 9);
    assert_eq!(sent.last().unwrap().name, "cart-checkout");
    assert!(sent.iter().all(|r| r.name != "order-get"));

    let (sent, end) = run(sample_cart(), || checkout_reply("{\"error\":\"no\"}"));
    assert_eq!(end, Step::Abort);
    assert!(sent.iter().all(|r| r.name != "order-get"));
}

#[test]
fn checkout_success_without_an_order_aborts() {
    let (sent, end) = run(sample_cart(), || Reply::Succeeded);
    assert_eq!(end, Step::Abort);
    assert_eq!(sent.len(), 9);
}

#[test]
fn a_failure_at_any_call_aborts_the_rest() {
    for failing in 0..10usize {
        let mut run = Checkout::new(sample_cart());
        let mut step = run.step();
        let mut sent = 0usize;
        loop {
            match step {
                Step::Send(request) => {
                    let reply = if sent == failing {
                        Reply::Failed
                    } else if request.name == "cart-checkout" {
                        order("ord-9")
                    } else {
                        Reply::Succeeded
                    };
                    sent += 1;
                    step = run.advance(reply);
                }
                end => {
                    assert_eq!(end, Step::Abort);
                    break;
                }
            }
        }
        assert_eq!(sent, failing + 1);
        assert_eq!(run.stage(), &Stage::Aborted);
    }
}

#[test]
fn an_ended_run_stays_ended() {
    let mut run = Checkout::new(sample_cart());
    assert_eq!(run.advance(Reply::Failed), Step::Abort);
    assert_eq!(run.advance(Reply::Succeeded), Step::Abort);
    assert_eq!(run.advance(order("ord-1")), Step::Abort);
    assert_eq!(run.stage(), &Stage::Aborted);

    let mut run = Checkout::new(sample_cart());
    let mut step = run.step();
    while let Step::Send(request) = step {
        let reply = if request.name == "cart-checkout" { order("o") } else { Reply::Succeeded };
        step = run.advance(reply);
    }
    assert_eq!(step, Step::Finish);
    assert_eq!(run.advance(Reply::Succeeded), Step::Finish);
    assert_eq!(run.advance(Reply::Failed), Step::Finish);
    assert_eq!(run.stage(), &Stage::Finished);
}

#[test]
fn an_order_reply_before_the_checkout_counts_as_success() {
    let mut run = Checkout::new(sample_cart());
    assert_eq!(run.stage(), &Stage::AddItem(0));
    let step = run.advance(order("early"));
    assert_eq!(run.stage(), &Stage::AddItem(1));
    match step {
        Step::Send(request) => assert_eq!(request.path, "/v1/cart/user003/items/p031"),
        other => panic!("unexpected step {:?}", other),
    }
}

#[test]
fn a_cart_of_one_product_adds_and_removes_it() {
    let mut cart = sample_cart();
    cart.product_ids.truncate(1);
    let (sent, end) = run(cart, || order("ord-1"));
    assert_eq!(end, Step::Finish);
    let names: Vec<&str> = sent.iter().map(|r| r.name.as_str()).collect();
    assert_eq!(
        names,
        vec![
            "cart-add-item",
            "cart-delete-item",
            "cart-set-email",
            "cart-set-billing-address",
            "cart-get",
            "cart-checkout",
            "order-get",
        ]
    );
    assert_eq!(sent[0].path, sent[1].path);
}

#[test]
fn envelope_unwraps_to_the_order_id() {
    let envelope = OkOrderCreated { ok: OrderCreated { order_id: "ord-123".to_string() } };
    assert_eq!(envelope.clone().into_order_id(), "ord-123");
    assert_eq!(envelope.ok.order_id, "ord-123");
}

#[test]
fn drawn_cart_is_consistent_with_the_pools() {
    let products = get_product_ids();
    let users = get_user_ids();
    let addresses = get_addresses();
    for _ in 0..200 {
        let cart = draw_cart();
        assert_eq!(ITEM_COUNT, 4);
        assert_eq!(cart.product_ids.len(), 4);
        for (i, id) in cart.product_ids.iter().enumerate() {
            assert!(products.contains(id));
            assert!(!cart.product_ids[..i].contains(id));
        }
        assert!(users.contains(&cart.user_id));
        assert!(addresses.contains(&cart.address));
        let email = &cart.set_email.email;
        let suffix = email.strip_prefix(&format!("{}-", cart.user_id)).unwrap();
        let digits = suffix.strip_suffix("@test.com").unwrap();
        assert_eq!(digits.len(), 3);
        assert!(digits.parse::<u32>().unwrap() < 100);
    }
}

#[test]
fn a_fresh_run_uses_one_user_in_every_cart_call() {
    for _ in 0..50 {
        let mut run = create_and_checkout_cart();
        assert_eq!(run.stage(), &Stage::AddItem(0));
        let user = run.cart().user_id.clone();
        let first = run.cart().product_ids[0].clone();
        let email = run.cart().set_email.clone();
        let mut sent = Vec::new();
        let mut step = run.step();
        while let Step::Send(request) = step {
            let reply =
                if request.name == "cart-checkout" { order("ord-77") } else { Reply::Succeeded };
            sent.push(request);
            step = run.advance(reply);
        }
        assert_eq!(step, Step::Finish);
        assert_eq!(sent.len(), 10);
        let prefix = format!("/v1/cart/{}", user);
        for request in &sent[..9] {
            assert!(request.path.starts_with(&prefix));
        }
        assert_eq!(sent[4].path, format!("/v1/cart/{}/items/{}", user, first));
        assert_eq!(sent[5].body, Payload::SetEmail(email));
        assert_eq!(sent[9].path, "/v1/order/ord-77");
    }
}

#[test]
fn a_response_is_a_success_only_with_a_status_from_200_to_299() {
    assert_eq!(Reply::from_response(None, None), Reply::Failed);
    assert_eq!(Reply::from_response(Some(199), None), Reply::Failed);
    assert_eq!(Reply::from_response(Some(200), None), Reply::Succeeded);
    assert_eq!(Reply::from_response(Some(204), None), Reply::Succeeded);
    assert_eq!(Reply::from_response(Some(299), None), Reply::Succeeded);
    assert_eq!(Reply::from_response(Some(300), None), Reply::Failed);
    assert_eq!(Reply::from_response(Some(404), None), Reply::Failed);
    assert_eq!(Reply::from_response(Some(500), None), Reply::Failed);
    assert_eq!(Reply::from_response(Some(u16::MAX), None), Reply::Failed);

    let envelope = OkOrderCreated { ok: OrderCreated { order_id: "ord-123".to_string() } };
    assert_eq!(Reply::from_response(Some(200), Some(envelope.clone())), order("ord-123"));
    assert_eq!(Reply::from_response(Some(500), Some(envelope.clone())), Reply::Failed);
    assert_eq!(Reply::from_response(None, Some(envelope)), Reply::Failed);

    assert!(Reply::Failed.is_failure());
    assert!(!Reply::Succeeded.is_failure());
    assert!(!order("x").is_failure());
}

#[test]
fn only_the_checkout_call_expects_an_order() {
    let mut run = Checkout::new(sample_cart());
    let mut step = run.step();
    let mut expecting = Vec::new();
    while let Step::Send(request) = step {
        if run.expects_order() {
            expecting.push(request.name.clone());
        }
        let reply = Reply::from_response(
            Some(200),
            if run.expects_order() {
                Some(OkOrderCreated { ok: OrderCreated { order_id: "ord-5".to_string() } })
            } else {
                None
            },
        );
        step = run.advance(reply);
    }
    assert_eq!(step, Step::Finish);
    assert_eq!(expecting, vec!["cart-checkout".to_string()]);
    assert!(!run.expects_order());
}
