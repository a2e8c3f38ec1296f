//! The cart-to-order checkout: a fixed sequence of dependent calls over one
//! cart, advanced one reply at a time.
//!
//! The caller sends what [`Checkout::step`] asks for and hands the outcome to
//! [`Checkout::advance`]. Every call of one run uses the same user, products,
//! email and address; the order id that the checkout call returns goes into
//! the last call. A failed call ends the run.

use crate::data::{
    address_catalog, choose_multiple_distinct, email_text, get_addresses, get_email,
    address_views, get_product_ids, get_user_ids, is_sample, pick, pick_address, product_id_pool,
    texts,
    user_id_pool, EMAIL_SUFFIX_BOUND,
};
use crate::domain::cart::OkOrderCreated;
use crate::domain::common::{AddItem, Address, AddressView, SetEmail};
use crate::request::{
    cart_add_item, cart_checkout, cart_delete_item, cart_get, cart_path,
    cart_set_billing_address, cart_set_email, order_get, Request, RequestView,
};
use vstd::prelude::*;

verus! {

/// Number of products put into the cart of one run.
pub const ITEM_COUNT: usize = 4;

/// Quantity of each product added.
pub const ITEM_QUANTITY: u32 = 1;

/// The data of one run. It is drawn once and used in every call of the run.
#[derive(Debug, PartialEq, Eq)]
pub struct Cart {
    /// Products to add, in the order in which they were drawn.
    pub product_ids: Vec<String>,
    pub user_id: String,
    pub address: Address,
    pub set_email: SetEmail,
}

/// The content of a [`Cart`].
pub ghost struct CartView {
    pub product_ids: Seq<Seq<char>>,
    pub user_id: Seq<char>,
    pub address: AddressView,
    pub email: Seq<char>,
}

impl View for Cart {
    type V = CartView;

    open spec fn view(&self) -> CartView {
        CartView {
            product_ids: texts(self.product_ids@),
            user_id: self.user_id@,
            address: self.address@,
            email: self.set_email@,
        }
    }
}

/// The call that is due, or how the run ended.
#[derive(Debug, PartialEq, Eq)]
pub enum Stage {
    /// Adding the product at this position.
    AddItem(usize),
    /// Removing the first product again.
    DeleteItem,
    SetEmail,
    SetBillingAddress,
    GetCart,
    Checkout,
    /// Looking up the order with this id.
    GetOrder(String),
    Finished,
    Aborted,
}

/// The content of a [`Stage`].
pub ghost enum StageView {
    AddItem(nat),
    DeleteItem,
    SetEmail,
    SetBillingAddress,
    GetCart,
    Checkout,
    GetOrder(Seq<char>),
    Finished,
    Aborted,
}

impl View for Stage {
    type V = StageView;

    open spec fn view(&self) -> StageView {
        match self {
            Stage::AddItem(k) => StageView::AddItem(*k as nat),
            Stage::DeleteItem => StageView::DeleteItem,
            Stage::SetEmail => StageView::SetEmail,
            Stage::SetBillingAddress => StageView::SetBillingAddress,
            Stage::GetCart => StageView::GetCart,
            Stage::Checkout => StageView::Checkout,
            Stage::GetOrder(id) => StageView::GetOrder(id@),
            Stage::Finished => StageView::Finished,
            Stage::Aborted => StageView::Aborted,
        }
    }
}

/// Outcome of the call that was due.
#[derive(Debug, PartialEq, Eq)]
pub enum Reply {
    /// The call succeeded; nothing was read from its response.
    Succeeded,
    /// The call succeeded and its response held this order envelope.
    Order(OkOrderCreated),
    /// The call failed: no connection, a non-success status, or a body that
    /// could not be read.
    Failed,
}

/// The content of a [`Reply`].
pub ghost enum ReplyView {
    Succeeded,
    Order(Seq<char>),
    Failed,
}

impl View for Reply {
    type V = ReplyView;

    open spec fn view(&self) -> ReplyView {
        match self {
            Reply::Succeeded => ReplyView::Succeeded,
            Reply::Order(envelope) => ReplyView::Order(envelope@),
            Reply::Failed => ReplyView::Failed,
        }
    }
}

/// Whether an HTTP status is a success: 200 to 299.
pub open spec fn is_success(status: u16) -> bool {
    200 <= status <= 299
}

/// The reply that a response amounts to. `status` is `None` where no response
/// came; `order` is the order envelope read from the body, if one was read.
/// No response and a non-success status are failures.
pub open spec fn reply_for(status: Option<u16>, order: Option<Seq<char>>) -> ReplyView {
    match status {
        Some(code) => if is_success(code) {
            match order {
                Some(order_id) => ReplyView::Order(order_id),
                None => ReplyView::Succeeded,
            }
        } else {
            ReplyView::Failed
        },
        None => ReplyView::Failed,
    }
}

/// The order id of an optional envelope.
pub open spec fn optional_order(order: Option<OkOrderCreated>) -> Option<Seq<char>> {
    match order {
        Some(envelope) => Some(envelope@),
        None => None,
    }
}

impl Reply {
    /// Sums up a response: `status` is `None` where no response came, `order`
    /// the order envelope read from its body, if one was read.
    pub fn from_response(status: Option<u16>, order: Option<OkOrderCreated>) -> (reply: Reply)
        ensures
            reply@ == reply_for(status, optional_order(order)),
    {
        match status {
            Some(code) => if 200 <= code && code <= 299 {
                match order {
                    Some(envelope) => Reply::Order(envelope),
                    None => Reply::Succeeded,
                }
            } else {
                Reply::Failed
            },
            None => Reply::Failed,
        }
    }

    /// Whether this reply reports a failure.
    pub fn is_failure(&self) -> (failed: bool)
        ensures
            failed == (self@ is Failed),
    {
        match self {
            Reply::Failed => true,
            _ => false,
        }
    }
}

/// What the caller does next.
#[derive(Debug, PartialEq, Eq)]
pub enum Step {
    /// Send this call and report its outcome.
    Send(Request),
    /// Every call was made and succeeded.
    Finish,
    /// A call failed; the rest of the run is dropped.
    Abort,
}

/// The content of a [`Step`].
pub ghost enum StepView {
    Send(RequestView),
    Finish,
    Abort,
}

impl View for Step {
    type V = StepView;

    open spec fn view(&self) -> StepView {
        match self {
            Step::Send(request) => StepView::Send(request@),
            Step::Finish => StepView::Finish,
            Step::Abort => StepView::Abort,
        }
    }
}

/// Whether `stage` is a stage of a run over `cart`: the cart holds a product,
/// and a product being added is one of the cart.
pub open spec fn stage_fits(cart: CartView, stage: StageView) -> bool {
    &&& cart.product_ids.len() > 0
    &&& stage matches StageView::AddItem(k) ==> k < cart.product_ids.len()
}

/// Whether the run has ended.
pub open spec fn is_terminal(stage: StageView) -> bool {
    stage is Finished || stage is Aborted
}

/// What is to be done at `stage`.
pub open spec fn step_at(cart: CartView, stage: StageView) -> StepView {
    match stage {
        StageView::AddItem(k) => StepView::Send(
            cart_add_item(
                cart.user_id,
                cart.product_ids[k as int],
                AddItem { quantity: ITEM_QUANTITY },
            ),
        ),
        StageView::DeleteItem => StepView::Send(
            cart_delete_item(cart.user_id, cart.product_ids[0]),
        ),
        StageView::SetEmail => StepView::Send(cart_set_email(cart.user_id, cart.email)),
        StageView::SetBillingAddress => StepView::Send(
            cart_set_billing_address(cart.user_id, cart.address),
        ),
        StageView::GetCart => StepView::Send(cart_get(cart.user_id)),
        StageView::Checkout => StepView::Send(cart_checkout(cart.user_id)),
        StageView::GetOrder(order_id) => StepView::Send(order_get(order_id)),
        StageView::Finished => StepView::Finish,
        StageView::Aborted => StepView::Abort,
    }
}

/// The stage that follows `stage` on `reply`.
///
/// A run that has ended stays as it is. A failure aborts. A success leads to
/// the next call; after the checkout call only a reply with an order does, and
/// that order's id goes into the order lookup.
pub open spec fn next_stage(cart: CartView, stage: StageView, reply: ReplyView) -> StageView {
    if is_terminal(stage) {
        stage
    } else if reply is Failed {
        StageView::Aborted
    } else {
        match stage {
            StageView::AddItem(k) => if k + 1 < cart.product_ids.len() {
                StageView::AddItem(k + 1)
            } else {
                StageView::DeleteItem
            },
            StageView::DeleteItem => StageView::SetEmail,
            StageView::SetEmail => StageView::SetBillingAddress,
            StageView::SetBillingAddress => StageView::GetCart,
            StageView::GetCart => StageView::Checkout,
            StageView::Checkout => match reply {
                ReplyView::Order(order_id) => StageView::GetOrder(order_id),
                _ => StageView::Aborted,
            },
            _ => StageView::Finished,
        }
    }
}

/// A run of the checkout over one cart.
#[derive(Debug)]
pub struct Checkout {
    cart: Cart,
    stage: Stage,
}

/// The content of a [`Checkout`].
pub ghost struct CheckoutView {
    pub cart: CartView,
    pub stage: StageView,
}

impl View for Checkout {
    type V = CheckoutView;

    closed spec fn view(&self) -> CheckoutView {
        CheckoutView { cart: self.cart@, stage: self.stage@ }
    }
}

impl Checkout {
    /// The stage of a run is always one of its cart.
    #[verifier::type_invariant]
    spec fn wf(self) -> bool {
        stage_fits(self.cart@, self.stage@)
    }

    /// A run over `cart`, about to add the first product.
    pub fn new(cart: Cart) -> (run: Checkout)
        requires
            cart@.product_ids.len() > 0,
        ensures
            run@.cart == cart@,
            run@.stage == StageView::AddItem(0),
    {
        Checkout { cart, stage: Stage::AddItem(0) }
    }

    /// The cart of this run.
    pub fn cart(&self) -> (cart: &Cart)
        ensures
            cart@ == self@.cart,
    {
        &self.cart
    }

    /// The stage this run is at. It is always one of the run's cart.
    pub fn stage(&self) -> (stage: &Stage)
        ensures
            stage@ == self@.stage,
            stage_fits(self@.cart, self@.stage),
    {
        proof {
            use_type_invariant(self);
        }
        &self.stage
    }

    /// Whether the call that is due is the checkout, whose response body
    /// holds the order envelope.
    pub fn expects_order(&self) -> (expected: bool)
        ensures
            expected == (self@.stage is Checkout),
    {
        match &self.stage {
            Stage::Checkout => true,
            _ => false,
        }
    }

    /// What is to be done now.
    pub fn step(&self) -> (step: Step)
        ensures
            stage_fits(self@.cart, self@.stage),
            step@ == step_at(self@.cart, self@.stage),
    {
        proof {
            use_type_invariant(self);
        }
        let user = self.cart.user_id.as_str();
        match &self.stage {
            Stage::AddItem(k) => {
                assert(texts(self.cart.product_ids@)[*k as int] == self.cart.product_ids@[*k as int]@);
                Step::Send(
                    Request::cart_add_item(
                        user,
                        self.cart.product_ids[*k].as_str(),
                        AddItem::new(ITEM_QUANTITY),
                    ),
                )
            },
            Stage::DeleteItem => {
                assert(texts(self.cart.product_ids@)[0] == self.cart.product_ids@[0]@);
                Step::Send(Request::cart_delete_item(user, self.cart.product_ids[0].as_str()))
            },
            Stage::SetEmail => Step::Send(
                Request::cart_set_email(user, self.cart.set_email.clone()),
            ),
            Stage::SetBillingAddress => Step::Send(
                Request::cart_set_billing_address(user, self.cart.address.clone()),
            ),
            Stage::GetCart => Step::Send(Request::cart_get(user)),
            Stage::Checkout => Step::Send(Request::cart_checkout(user)),
            Stage::GetOrder(order_id) => Step::Send(Request::order_get(order_id.as_str())),
            Stage::Finished => Step::Finish,
            Stage::Aborted => Step::Abort,
        }
    }

    /// Takes the outcome of the call that was due, moves to the stage that
    /// follows, and says what is to be done there.
    pub fn advance(&mut self, reply: Reply) -> (step: Step)
        ensures
            stage_fits(final(self)@.cart, final(self)@.stage),
            final(self)@.cart == old(self)@.cart,
            final(self)@.stage == next_stage(old(self)@.cart, old(self)@.stage, reply@),
            step@ == step_at(final(self)@.cart, final(self)@.stage),
    {
        proof {
            use_type_invariant(&*self);
        }
        let count = self.cart.product_ids.len();
        assert(count == texts(self.cart.product_ids@).len());
        let failed = reply.is_failure();
        let next = match &self.stage {
            Stage::Finished => Stage::Finished,
            Stage::Aborted => Stage::Aborted,
            _ if failed => Stage::Aborted,
            Stage::AddItem(k) => if *k + 1 < count {
                Stage::AddItem(*k + 1)
            } else {
                Stage::DeleteItem
            },
            Stage::DeleteItem => Stage::SetEmail,
            Stage::SetEmail => Stage::SetBillingAddress,
            Stage::SetBillingAddress => Stage::GetCart,
            Stage::GetCart => Stage::Checkout,
            Stage::Checkout => match reply {
                Reply::Order(envelope) => Stage::GetOrder(envelope.into_order_id()),
                _ => Stage::Aborted,
            },
            Stage::GetOrder(_) => Stage::Finished,
        };
        self.stage = next;
        self.step()
    }
}

/// Whether `cart` is one that [`draw_cart`] may hand out: four products drawn
/// without replacement from the product-id pool, a user of the user pool, an
/// address of the catalog, and an email generated for that user.
pub open spec fn is_drawn_cart(cart: CartView) -> bool {
    &&& cart.product_ids.len() == ITEM_COUNT
    &&& is_sample(product_id_pool(), cart.product_ids)
    &&& user_id_pool().contains(cart.user_id)
    &&& address_catalog().contains(cart.address)
    &&& exists|n: nat| n < EMAIL_SUFFIX_BOUND && cart.email == email_text(cart.user_id, n)
}

/// Every call of a run, first to last, where the checkout call is answered
/// with `order_id`: one cart-add per product, then removing the first product,
/// setting email and billing address, reading the cart back, the checkout, and
/// the order lookup.
pub open spec fn script(cart: CartView, order_id: Seq<char>) -> Seq<RequestView> {
    Seq::new(
        cart.product_ids.len(),
        |k: int|
            cart_add_item(cart.user_id, cart.product_ids[k], AddItem { quantity: ITEM_QUANTITY }),
    ) + seq![
        cart_delete_item(cart.user_id, cart.product_ids[0]),
        cart_set_email(cart.user_id, cart.email),
        cart_set_billing_address(cart.user_id, cart.address),
        cart_get(cart.user_id),
        cart_checkout(cart.user_id),
        order_get(order_id),
    ]
}

/// How many calls of the run precede the one due at `stage`.
pub open spec fn position(cart: CartView, stage: StageView) -> int {
    let n = cart.product_ids.len() as int;
    match stage {
        StageView::AddItem(k) => k as int,
        StageView::DeleteItem => n,
        StageView::SetEmail => n + 1,
        StageView::SetBillingAddress => n + 2,
        StageView::GetCart => n + 3,
        StageView::Checkout => n + 4,
        StageView::GetOrder(_) => n + 5,
        _ => n + 6,
    }
}

/// At every stage before the end, the call that is due is the one that the
/// script has at that stage's position.
pub proof fn lemma_step_follows_script(cart: CartView, stage: StageView, order_id: Seq<char>)
    requires
        stage_fits(cart, stage),
        !is_terminal(stage),
        stage matches StageView::GetOrder(id) ==> id == order_id,
    ensures
        0 <= position(cart, stage) < script(cart, order_id).len(),
        script(cart, order_id).len() == cart.product_ids.len() + 6,
        step_at(cart, stage) == StepView::Send(script(cart, order_id)[position(cart, stage)]),
{
}

/// A success moves the run on by exactly one call, and ends it after the
/// order lookup. At the checkout call, a success is a reply with an order.
pub proof fn lemma_success_advances(cart: CartView, stage: StageView, reply: ReplyView)
    requires
        stage_fits(cart, stage),
        !is_terminal(stage),
        !(reply is Failed),
        stage is Checkout ==> reply is Order,
    ensures
        stage_fits(cart, next_stage(cart, stage, reply)),
        !(next_stage(cart, stage, reply) is Aborted),
        position(cart, next_stage(cart, stage, reply)) == position(cart, stage) + 1,
        next_stage(cart, stage, reply) is Finished <==> stage is GetOrder,
{
}

/// The reply to a successful call at `stage`, where the checkout call is
/// answered with `order_id`.
pub open spec fn success_reply(stage: StageView, order_id: Seq<char>) -> ReplyView {
    if stage is Checkout {
        ReplyView::Order(order_id)
    } else {
        ReplyView::Succeeded
    }
}

/// The stage of a run after `calls` calls that all succeeded.
pub open spec fn stage_after(cart: CartView, order_id: Seq<char>, calls: nat) -> StageView
    decreases calls,
{
    if calls == 0 {
        StageView::AddItem(0)
    } else {
        let before = stage_after(cart, order_id, (calls - 1) as nat);
        next_stage(cart, before, success_reply(before, order_id))
    }
}

/// A run in which every call succeeds sends the calls of the script, each at
/// its place, and finishes after the last one.
pub proof fn lemma_successful_run_is_script(cart: CartView, order_id: Seq<char>, calls: nat)
    requires
        cart.product_ids.len() > 0,
        calls <= cart.product_ids.len() + 6,
    ensures
        stage_fits(cart, stage_after(cart, order_id, calls)),
        position(cart, stage_after(cart, order_id, calls)) == calls,
        calls < cart.product_ids.len() + 6 ==> step_at(cart, stage_after(cart, order_id, calls))
            == StepView::Send(script(cart, order_id)[calls as int]),
        calls == cart.product_ids.len() + 6 ==> stage_after(cart, order_id, calls)
            == StageView::Finished,
        stage_after(cart, order_id, calls) matches StageView::GetOrder(id) ==> id == order_id,
    decreases calls,
{
    let stage = stage_after(cart, order_id, calls);
    if calls > 0 {
        let before = stage_after(cart, order_id, (calls - 1) as nat);
        lemma_successful_run_is_script(cart, order_id, (calls - 1) as nat);
        lemma_success_advances(cart, before, success_reply(before, order_id));
    }
    if calls < cart.product_ids.len() + 6 {
        lemma_step_follows_script(cart, stage, order_id);
    }
}

/// A failed call aborts the run at once, and so does a checkout call whose
/// reply holds no order: nothing more is sent.
pub proof fn lemma_failure_aborts(cart: CartView, stage: StageView, reply: ReplyView)
    requires
        !is_terminal(stage),
        reply is Failed || (stage is Checkout && !(reply is Order)),
    ensures
        next_stage(cart, stage, reply) == StageView::Aborted,
        step_at(cart, next_stage(cart, stage, reply)) == StepView::Abort,
{
}

/// Without a response, or with a non-success status, the run aborts whatever
/// the body held; a success status at the checkout call without an order in
/// the body aborts too.
pub proof fn lemma_bad_response_aborts(
    cart: CartView,
    stage: StageView,
    status: Option<u16>,
    order: Option<Seq<char>>,
)
    requires
        !is_terminal(stage),
        match status {
            Some(code) => !is_success(code) || (stage is Checkout && order is None),
            None => true,
        },
    ensures
        next_stage(cart, stage, reply_for(status, order)) == StageView::Aborted,
{
}

/// A run that has ended stays ended, whatever is reported to it.
pub proof fn lemma_terminal_stays(cart: CartView, stage: StageView, reply: ReplyView)
    requires
        is_terminal(stage),
    ensures
        next_stage(cart, stage, reply) == stage,
        !(step_at(cart, stage) is Send),
{
}

/// The order id that the checkout call returns is the one that the order
/// lookup asks for.
pub proof fn lemma_order_id_carries(cart: CartView, order_id: Seq<char>)
    ensures
        next_stage(cart, StageView::Checkout, ReplyView::Order(order_id)) == StageView::GetOrder(
            order_id,
        ),
        step_at(cart, StageView::GetOrder(order_id)) == StepView::Send(order_get(order_id)),
        order_get(order_id).path == "/v1/order/"@ + order_id,
{
}

/// Every call of a run but the order lookup goes to the cart of the run's one
/// user.
pub proof fn lemma_same_user_throughout(cart: CartView, order_id: Seq<char>)
    requires
        cart.product_ids.len() > 0,
    ensures
        forall|k: int|
            0 <= k < script(cart, order_id).len() - 1 ==> exists|rest: Seq<char>|
                (#[trigger] script(cart, order_id)[k]).path == cart_path(cart.user_id, rest),
{
    let s = script(cart, order_id);
    let n = cart.product_ids.len() as int;
    assert forall|k: int| 0 <= k < s.len() - 1 implies exists|rest: Seq<char>|
        (#[trigger] s[k]).path == cart_path(cart.user_id, rest) by {
        if k < n {
            assert(s[k].path == cart_path(cart.user_id, "/items/"@ + cart.product_ids[k]));
        } else if k == n {
            assert(s[k].path == cart_path(cart.user_id, "/items/"@ + cart.product_ids[0]));
        } else if k == n + 1 {
            assert(s[k].path == cart_path(cart.user_id, "/email"@));
        } else if k == n + 2 {
            assert(s[k].path == cart_path(cart.user_id, "/billing-address"@));
        } else if k == n + 3 {
            assert(s[k].path == cart_path(cart.user_id, Seq::<char>::empty()));
        } else {
            assert(s[k].path == cart_path(cart.user_id, "/checkout"@));
        }
    }
}

/// Draws the data of one run: four distinct products, a user, an address, and
/// an email for that user.
pub fn draw_cart() -> (cart: Cart)
    ensures
        is_drawn_cart(cart@),
{
    let product_ids = get_product_ids();
    assert(product_ids@.len() == texts(product_ids@).len());
    let product_ids = choose_multiple_distinct(&product_ids, ITEM_COUNT);
    assert(product_ids@.len() == texts(product_ids@).len());

    let user_ids = get_user_ids();
    assert(user_ids@.len() == texts(user_ids@).len());
    let user_id = pick(&user_ids);

    let addresses = get_addresses();
    assert(addresses@.len() == address_views(addresses@).len());
    let address = pick_address(&addresses);

    let set_email = SetEmail::new(get_email(user_id.clone()));

    let cart = Cart { product_ids, user_id, address, set_email };
    proof {
        assert(user_id_pool().contains(cart@.user_id));
        assert(exists|n: nat| n < EMAIL_SUFFIX_BOUND && cart@.email == email_text(cart@.user_id, n));
    }
    cart
}

/// Starts a run over freshly drawn data.
pub fn create_and_checkout_cart() -> (run: Checkout)
    ensures
        is_drawn_cart(run@.cart),
        run@.stage == StageView::AddItem(0),
{
    Checkout::new(draw_cart())
}

} // verus!
