//! Placing orders and changing their status: the checks made before an
//! order is stored, the stock reservation, who may set which status, the
//! notifications that follow, returns and seller reminders.

use vstd::prelude::*;
use crate::numeric::{decimal_int, format_i32};
use crate::requests::{NewOrder, NewOrderItem, UpdateOrderRequest};
use crate::response::{answers, bad_request, reply, unauthorized, ApiResponse};
use crate::sql::SqlParam;
use crate::text::{ascii_lower, join, join_with, one_of, string_from, text_eq, texts, to_ascii_lower};
use crate::validation::{checked, is_one_of, order_statuses, refuse, strs, validate_order_status};

verus! {

// ---------------------------------------------------------------------------
// Placing an order
// ---------------------------------------------------------------------------

/// An order must hold at least one item.
pub fn check_order_items(order: &NewOrder) -> (r: Result<(), ApiResponse>)
    ensures
        checked(
            r,
            if order.order_items@.len() == 0 {
                refuse("Order items must not be empty!"@)
            } else {
                None
            },
        ),
{
    if order.order_items.len() == 0 {
        return Err(bad_request("Order items must not be empty!"));
    }
    Ok(())
}

/// The items must all come from one shop (`single_shop` is what the
/// product lookup found).
pub fn check_single_shop(single_shop: bool) -> (r: Result<(), ApiResponse>)
    ensures
        checked(
            r,
            if !single_shop {
                refuse(
                    "You can only order items from one shop at a time. Please place separate orders for items from different shops!"@,
                )
            } else {
                None
            },
        ),
{
    if !single_shop {
        return Err(
            bad_request(
                "You can only order items from one shop at a time. Please place separate orders for items from different shops!",
            ),
        );
    }
    Ok(())
}

/// The items must share one currency: `currency` is the single currency the
/// product lookup found, if any; a missing currency or currency `0` is
/// refused.
pub fn check_currency(currency: Option<i32>) -> (r: Result<i32, ApiResponse>)
    ensures
        match currency {
            Some(c) if c != 0 => r == Ok::<i32, ApiResponse>(c),
            _ => match r {
                Ok(_) => false,
                Err(e) => answers(
                    e,
                    400,
                    "You can only order items with the same currency at a time. Please place separate orders for items with different currencies!"@,
                ),
            },
        },
{
    let c = match currency {
        Some(c) => c,
        None => 0,
    };
    if c == 0 {
        return Err(
            bad_request(
                "You can only order items with the same currency at a time. Please place separate orders for items with different currencies!",
            ),
        );
    }
    Ok(c)
}

/// The payment types an order may use.
pub open spec fn payment_types() -> Seq<Seq<char>> {
    seq!["Full Prepaid"@, "Half Prepaid"@, "Cash on Delivery"@]
}

/// Why the payment of an order is refused, if it is: an unknown payment
/// type, then a missing payment slip for anything but cash on delivery.
pub open spec fn payment_refusal(order: NewOrder) -> Option<(u16, Seq<char>)> {
    if !one_of(order.payment_type@, payment_types()) {
        refuse(
            "Please select a valid payment type: Full Prepaid, Half Prepaid, or Cash on Delivery."@,
        )
    } else if order.payment_type@ != "Cash on Delivery"@ && order.payslip_screenshot_path@.len()
        == 0 {
        refuse("Please provide your payment slip."@)
    } else {
        None
    }
}

/// Checks the payment of an order.
pub fn check_payment(order: &NewOrder) -> (r: Result<(), ApiResponse>)
    ensures
        checked(r, payment_refusal(*order)),
{
    let kinds: Vec<&str> = vec!["Full Prepaid", "Half Prepaid", "Cash on Delivery"];
    assert(strs(kinds@) =~= payment_types());
    if !is_one_of(order.payment_type.as_str(), &kinds) {
        return Err(
            bad_request(
                "Please select a valid payment type: Full Prepaid, Half Prepaid, or Cash on Delivery.",
            ),
        );
    }
    if !text_eq(order.payment_type.as_str(), "Cash on Delivery")
        && order.payslip_screenshot_path.as_str().is_empty() {
        return Err(bad_request("Please provide your payment slip."));
    }
    Ok(())
}

// ---------------------------------------------------------------------------
// Stock reservation
// ---------------------------------------------------------------------------

/// Every item is covered by the stock read for it.
pub open spec fn all_in_stock(stocks: Seq<i32>, items: Seq<NewOrderItem>) -> bool {
    forall|i: int| 0 <= i < items.len() ==> stocks[i] >= #[trigger] items[i].quantity
}

/// Whether the stock read for an item covers its quantity; when it does the
/// stock is reduced by the quantity, otherwise the reservation is rolled
/// back.
pub fn covers(stock: i32, quantity: i32) -> (r: bool)
    ensures
        r == (stock >= quantity),
{
    stock >= quantity
}

/// A stock reservation in progress: the items of the order, how many of
/// them have been taken from stock so far, and the stock that was read
/// (under lock) for each taken item. Its fields are private: it changes
/// only through `record`.
pub struct StockReservation {
    items: Vec<NewOrderItem>,
    taken: usize,
    stocks: Ghost<Seq<i32>>,
}

impl StockReservation {
    /// The items of the order.
    pub closed spec fn items_view(&self) -> Seq<NewOrderItem> {
        self.items@
    }

    /// How many items have been taken from stock so far.
    pub closed spec fn taken_count(&self) -> nat {
        self.taken as nat
    }

    /// The stock read for each taken item, in order.
    pub closed spec fn stocks_read(&self) -> Seq<i32> {
        self.stocks@
    }

    /// The reservation is consistent: the taken items are a prefix of the
    /// items, one stock was read for each, and it covered the item.
    pub closed spec fn wf(&self) -> bool {
        &&& self.taken <= self.items.len()
        &&& self.stocks@.len() == self.taken
        &&& all_in_stock(self.stocks@, self.items@.subrange(0, self.taken as int))
    }

    /// What `wf` gives callers: the taken items are a prefix of the items,
    /// one stock was read for each of them, and it covered the item.
    pub proof fn lemma_wf(&self)
        requires
            self.wf(),
        ensures
            self.taken_count() <= self.items_view().len(),
            self.stocks_read().len() == self.taken_count(),
            all_in_stock(self.stocks_read(), self.items_view().subrange(0, self.taken_count() as int)),
    {
    }

    /// A reservation of the items of an order, none taken yet.
    pub fn new(items: Vec<NewOrderItem>) -> (r: StockReservation)
        ensures
            r.wf(),
            r.items_view() == items@,
            r.taken_count() == 0,
            r.stocks_read() == Seq::<i32>::empty(),
    {
        StockReservation { items, taken: 0, stocks: Ghost(Seq::empty()) }
    }

    /// How many items have been taken from stock so far.
    pub fn taken(&self) -> (n: usize)
        ensures
            n == self.taken_count(),
    {
        self.taken
    }

    /// The product whose stock is to be read (and locked) next, or `None`
    /// when every item has been taken: then the reservation is committed,
    /// and every item was covered by the stock read for it.
    pub fn next_product(&self) -> (r: Option<i32>)
        requires
            self.wf(),
        ensures
            r is None <==> self.taken_count() == self.items_view().len(),
            r matches Some(p) ==> p == self.items_view()[self.taken_count() as int].product_id,
            r is None ==> all_in_stock(self.stocks_read(), self.items_view()),
    {
        if self.taken < self.items.len() {
            Some(self.items[self.taken].product_id)
        } else {
            assert(self.items@.subrange(0, self.taken as int) =~= self.items@);
            None
        }
    }

    /// The quantity to take from the stock of the next product.
    pub fn next_quantity(&self) -> (q: i32)
        requires
            self.wf(),
            self.taken_count() < self.items_view().len(),
        ensures
            q == self.items_view()[self.taken_count() as int].quantity,
    {
        self.items[self.taken].quantity
    }

    /// Records the stock read for the next item: when it covers the item's
    /// quantity the item is taken (its quantity is to be subtracted) and
    /// `true` returned; otherwise nothing changes, `false` is returned and
    /// the reservation is rolled back.
    pub fn record(&mut self, stock: i32) -> (r: bool)
        requires
            old(self).wf(),
            old(self).taken_count() < old(self).items_view().len(),
        ensures
            final(self).wf(),
            final(self).items_view() == old(self).items_view(),
            r == (stock >= old(self).items_view()[old(self).taken_count() as int].quantity),
            r ==> final(self).taken_count() == old(self).taken_count() + 1 && final(self).stocks_read()
                == old(self).stocks_read().push(stock),
            !r ==> final(self).taken_count() == old(self).taken_count() && final(self).stocks_read()
                == old(self).stocks_read(),
    {
        let q = self.items[self.taken].quantity;
        if covers(stock, q) {
            let ghost old_stocks = self.stocks@;
            let ghost old_taken = self.taken as int;
            self.stocks = Ghost(self.stocks@.push(stock));
            self.taken = self.taken + 1;
            assert(self.items@.subrange(0, old_taken + 1).drop_last() =~= self.items@.subrange(0, old_taken));
            assert forall|i: int| 0 <= i < self.items@.subrange(0, self.taken as int).len() implies
                self.stocks@[i] >= #[trigger] self.items@.subrange(0, self.taken as int)[i].quantity by {
                if i < old_taken {
                    assert(self.stocks@[i] == old_stocks[i]);
                    assert(self.items@.subrange(0, self.taken as int)[i] == self.items@.subrange(0, old_taken)[i]);
                }
            }
            true
        } else {
            false
        }
    }
}

/// The answer to a failed reservation: `Ok(false)` (not enough stock) gives
/// `400 Insufficient stock!`; an error of the database gives `500 Error
/// updating stocks!`; `Ok(true)` lets the order go on.
pub fn reservation_outcome(r: Result<bool, ()>) -> (res: Result<(), ApiResponse>)
    ensures
        checked(
            res,
            match r {
                Ok(true) => None,
                Ok(false) => refuse("Insufficient stock!"@),
                Err(_) => Some((500u16, "Error updating stocks!"@)),
            },
        ),
{
    match r {
        Ok(true) => Ok(()),
        Ok(false) => Err(bad_request("Insufficient stock!")),
        Err(_) => Err(reply(500, "Error updating stocks!")),
    }
}

/// The statement that sets the totals of a stored order: its total, its
/// item count and its commission (by the insurance rule chosen, or rule `0`).
pub const ORDER_TOTALS_UPDATE: &'static str = "update orders set order_total = (select coalesce(sum(price * quantity), 0) from order_items where deleted_at is null and order_id = $1), item_counts = (select count(*) from order_items where order_id = $2 and deleted_at is null), commission_amount = ((select coalesce(sum(price * quantity), 0) from order_items where deleted_at is null and order_id = $3) * (select coalesce(commission_percentage / 100, 0) from commission_rules where rule_id = $4 and deleted_at is null)) where order_id = $5 and deleted_at is null";

/// The parameters of `ORDER_TOTALS_UPDATE` for an order.
pub fn order_totals_params(order_id: i32, rule_id: Option<i32>) -> (r: Vec<SqlParam>)
    ensures
        r@ == seq![
            SqlParam::Int(order_id),
            SqlParam::Int(order_id),
            SqlParam::Int(order_id),
            SqlParam::Int(
                match rule_id {
                    Some(x) => x,
                    None => 0,
                },
            ),
            SqlParam::Int(order_id),
        ],
{
    let rule = match rule_id {
        Some(x) => x,
        None => 0,
    };
    let mut r: Vec<SqlParam> = Vec::new();
    r.push(SqlParam::Int(order_id));
    r.push(SqlParam::Int(order_id));
    r.push(SqlParam::Int(order_id));
    r.push(SqlParam::Int(rule));
    r.push(SqlParam::Int(order_id));
    assert(r@ =~= seq![
        SqlParam::Int(order_id),
        SqlParam::Int(order_id),
        SqlParam::Int(order_id),
        SqlParam::Int(rule),
        SqlParam::Int(order_id),
    ]);
    r
}

// ---------------------------------------------------------------------------
// Status changes
// ---------------------------------------------------------------------------

/// The statuses customers may set on their own orders.
pub open spec fn customer_statuses() -> Seq<Seq<char>> {
    seq!["Cancelled"@, "Returned"@, "Completed"@]
}

/// The first step of a status change: customers may only cancel, return or
/// complete (`401` otherwise); agents need the permission to change order
/// statuses, which must be looked up; everyone else goes on.
pub enum StatusGate {
    Refuse(ApiResponse),
    NeedsAgentPermission,
    Proceed,
}

/// Who may set `status`, by role.
pub fn status_change_gate(role: &str, status: &str) -> (r: StatusGate)
    ensures
        role@ == "user"@ && !one_of(status@, customer_statuses()) ==> (r matches StatusGate::Refuse(
            e,
        ) && answers(e, 401, "Unauthorized!"@)),
        role@ == "user"@ && one_of(status@, customer_statuses()) ==> r is Proceed,
        role@ == "agent"@ ==> r is NeedsAgentPermission,
        role@ != "user"@ && role@ != "agent"@ ==> r is Proceed,
{
    proof {
        reveal_strlit("user");
        reveal_strlit("agent");
        assert("user"@.len() == 4);
        assert("agent"@.len() == 5);
        assert("user"@ != "agent"@);
    }
    let allowed: Vec<&str> = vec!["Cancelled", "Returned", "Completed"];
    assert(strs(allowed@) =~= customer_statuses());
    if text_eq(role, "user") && !is_one_of(status, &allowed) {
        StatusGate::Refuse(unauthorized())
    } else if text_eq(role, "agent") {
        StatusGate::NeedsAgentPermission
    } else {
        StatusGate::Proceed
    }
}

/// An agent without the permission to change order statuses gets `401`.
pub fn check_agent_permission(may_modify: bool) -> (r: Result<(), ApiResponse>)
    ensures
        checked(
            r,
            if may_modify {
                None
            } else {
                Some((401u16, "Unauthorized!"@))
            },
        ),
{
    if !may_modify {
        return Err(unauthorized());
    }
    Ok(())
}

/// Cancelling an order puts its items back in stock.
pub fn restocks(status: &str) -> (r: bool)
    ensures
        r == (status@ == "Cancelled"@),
{
    text_eq(status, "Cancelled")
}

/// A return is recorded (and the order marked returned) unless the order is
/// already returned or refunded.
pub fn records_return(current_status: &str) -> (r: bool)
    ensures
        r == (current_status@ != "Returned"@ && current_status@ != "Refunded"@),
{
    !text_eq(current_status, "Returned") && !text_eq(current_status, "Refunded")
}

/// A notification: its title and message.
#[derive(Debug)]
pub struct Notice {
    pub title: String,
    pub message: String,
}

/// The notice a customer gets when the status of an order changes: `Order
/// <status>`, and `Your order #<id> is processing.` or `Your order #<id>
/// has been <status>.` (status in lower case).
pub open spec fn status_notice_message(order_id: int, status: Seq<char>) -> Seq<char> {
    if status == "Processing"@ {
        "Your order #"@ + decimal_int(order_id) + " is "@ + ascii_lower(status) + "."@
    } else {
        "Your order #"@ + decimal_int(order_id) + " has been "@ + ascii_lower(status) + "."@
    }
}

/// The notice for the customer of an order whose status changed.
pub fn status_notice(order_id: i32, status: &str) -> (n: Notice)
    ensures
        n.title@ == "Order "@ + status@,
        n.message@ == status_notice_message(order_id as int, status@),
{
    let mut title = string_from("Order ");
    title.append(status);
    let id = format_i32(order_id);
    let lower = to_ascii_lower(status);
    let mut message = string_from("Your order #");
    message.append(id.as_str());
    if text_eq(status, "Processing") {
        message.append(" is ");
    } else {
        message.append(" has been ");
    }
    message.append(lower.as_str());
    message.append(".");
    Notice { title, message }
}

/// When someone other than an administrator cancels, returns or completes
/// an order, the administrators get `Order <status>` and `Order #<id> has
/// been <status>.`; otherwise they get nothing.
pub fn admin_status_notice(order_id: i32, status: &str, actor_role: &str) -> (r: Option<Notice>)
    ensures
        (actor_role@ != "admin"@ && one_of(status@, customer_statuses())) ==> (r matches Some(n)
            && n.title@ == "Order "@ + status@ && n.message@ == "Order #"@ + decimal_int(
            order_id as int,
        ) + " has been "@ + ascii_lower(status@) + "."@),
        !(actor_role@ != "admin"@ && one_of(status@, customer_statuses())) ==> r is None,
{
    let allowed: Vec<&str> = vec!["Cancelled", "Returned", "Completed"];
    assert(strs(allowed@) =~= customer_statuses());
    if !text_eq(actor_role, "admin") && is_one_of(status, &allowed) {
        let mut title = string_from("Order ");
        title.append(status);
        let id = format_i32(order_id);
        let lower = to_ascii_lower(status);
        let mut message = string_from("Order #");
        message.append(id.as_str());
        message.append(" has been ");
        message.append(lower.as_str());
        message.append(".");
        Some(Notice { title, message })
    } else {
        None
    }
}

/// The notice the administrators (and the seller) get for a new order:
/// `New Order #<id>` and `<customer> has placed a <payment type> order for
/// <items> from <shops>. Please review and process the order.`
pub fn new_order_notice(
    order_id: i32,
    customer: &str,
    payment_type: &str,
    items: &Vec<String>,
    shops: &Vec<String>,
) -> (n: Notice)
    ensures
        n.title@ == "New Order #"@ + decimal_int(order_id as int),
        n.message@ == customer@ + " has placed a "@ + ascii_lower(payment_type@) + " order for "@
            + join_with(texts(items@), ", "@) + " from "@ + join_with(texts(shops@), ", "@)
            + ". Please review and process the order."@,
{
    let id = format_i32(order_id);
    let mut title = string_from("New Order #");
    title.append(id.as_str());
    let lower = to_ascii_lower(payment_type);
    let item_list = join(items, ", ");
    let shop_list = join(shops, ", ");
    let mut message = string_from(customer);
    message.append(" has placed a ");
    message.append(lower.as_str());
    message.append(" order for ");
    message.append(item_list.as_str());
    message.append(" from ");
    message.append(shop_list.as_str());
    message.append(". Please review and process the order.");
    Notice { title, message }
}

/// The statuses for which reminding the seller is refused.
pub open spec fn closed_statuses() -> Seq<Seq<char>> {
    seq!["Completed"@, "Refunded"@, "Canceled"@]
}

/// Reminding the seller of a completed, refunded or canceled order is
/// refused with `400 Order has been already <status>`.
pub fn check_reminder(status: &str) -> (r: Result<(), ApiResponse>)
    ensures
        checked(
            r,
            if one_of(status@, closed_statuses()) {
                refuse("Order has been already "@ + ascii_lower(status@))
            } else {
                None
            },
        ),
{
    let closed: Vec<&str> = vec!["Completed", "Refunded", "Canceled"];
    assert(strs(closed@) =~= closed_statuses());
    if is_one_of(status, &closed) {
        let lower = to_ascii_lower(status);
        let mut message = string_from("Order has been already ");
        message.append(lower.as_str());
        return Err(ApiResponse { code: 400, message });
    }
    Ok(())
}

/// The reminder the seller and the administrators get.
pub fn urgent_delivery_notice(order_id: i32, customer: &str) -> (n: Notice)
    ensures
        n.title@ == "Urgent Delivery Alert"@,
        n.message@ == "Order ID #"@ + decimal_int(order_id as int) + " for "@ + customer@
            + " has been marked for urgent delivery - please oversee timely dispatch."@,
{
    let id = format_i32(order_id);
    let mut message = string_from("Order ID #");
    message.append(id.as_str());
    message.append(" for ");
    message.append(customer);
    message.append(" has been marked for urgent delivery - please oversee timely dispatch.");
    Notice { title: string_from("Urgent Delivery Alert"), message }
}


/// The notice to administrators and the seller when a customer asks to
/// return an order.
pub fn return_request_notice(user_name: &str, order_id: i32) -> (n: Notice)
    ensures
        n.title@ == "Return Request Submitted"@,
        n.message@ == "Return requested by "@ + user_name@ + " for Order ID #"@ + decimal_int(
            order_id as int,
        ) + " - please review and process."@,
{
    let id = format_i32(order_id);
    let mut message = string_from("Return requested by ");
    message.append(user_name);
    message.append(" for Order ID #");
    message.append(id.as_str());
    message.append(" - please review and process.");
    Notice { title: string_from("Return Request Submitted"), message }
}

/// The seller of the order is told too where it is known (its id is not
/// `0`).
pub fn seller_known(creator_id: i32) -> (r: bool)
    ensures
        r == (creator_id != 0),
{
    creator_id != 0
}

/// The notice to administrators when a user reports a seller.
pub fn seller_report_notice(user_name: &str, subject: &str) -> (n: Notice)
    ensures
        n.title@ == "New Report Submitted"@,
        n.message@ == user_name@ + " has submitted a report. Subject: '"@ + subject@
            + "'. Please review the details."@,
{
    let mut message = string_from(user_name);
    message.append(" has submitted a report. Subject: '");
    message.append(subject);
    message.append("'. Please review the details.");
    Notice { title: string_from("New Report Submitted"), message }
}

/// The ids as a list separated by `, `.
pub open spec fn id_list(ids: Seq<i32>) -> Seq<char> {
    join_with(ids.map_values(|i: i32| decimal_int(i as int)), ", "@)
}

/// The query that names the products of an order (brand and model) and
/// their shops, or `None` for no products (nothing is looked up then).
pub fn product_and_shop_names_query(product_ids: &Vec<i32>) -> (r: Option<String>)
    ensures
        product_ids@.len() == 0 ==> r is None,
        product_ids@.len() > 0 ==> (r matches Some(q) && q@
            == "select (b.name || ' ' || p.model) as product_name, s.name shop_name from products p inner join brands b on b.brand_id = p.brand_id inner join shops s on s.shop_id = p.shop_id where p.product_id in ("@
            + id_list(product_ids@)
            + ") and p.deleted_at is null and s.deleted_at is null and b.deleted_at is null"@),
{
    if product_ids.len() == 0 {
        return None;
    }
    let mut texts_v: Vec<String> = Vec::new();
    let mut i: usize = 0;
    while i < product_ids.len()
        invariant
            i <= product_ids.len(),
            texts_v.len() == i,
            texts(texts_v@) == product_ids@.subrange(0, i as int).map_values(|x: i32| decimal_int(x as int)),
        decreases product_ids.len() - i,
    {
        let t = format_i32(product_ids[i]);
        let ghost prev = texts_v@;
        texts_v.push(t);
        let ghost want = product_ids@.subrange(0, i + 1).map_values(|x: i32| decimal_int(x as int));
        assert forall|j: int| 0 <= j < i + 1 implies #[trigger] texts(texts_v@)[j] == want[j] by {
            if j < i {
                assert(texts_v@[j] == prev[j]);
                assert(texts(prev)[j] == prev[j]@);
            }
        }
        assert(texts(texts_v@) =~= want);
        i = i + 1;
    }
    assert(product_ids@.subrange(0, product_ids.len() as int) =~= product_ids@);
    let list = join(&texts_v, ", ");
    let mut q = string_from(
        "select (b.name || ' ' || p.model) as product_name, s.name shop_name from products p inner join brands b on b.brand_id = p.brand_id inner join shops s on s.shop_id = p.shop_id where p.product_id in (",
    );
    q.append(list.as_str());
    q.append(") and p.deleted_at is null and s.deleted_at is null and b.deleted_at is null");
    Some(q)
}

// ---------------------------------------------------------------------------
// The checks of a handler, in the order they are made
// ---------------------------------------------------------------------------

/// Why an order is refused, by the first check that fails, in the order the
/// checks are made: no items; items from more than one shop (`single_shop`
/// is what the product lookup found); no single currency (`currency` is
/// what the currency lookup found); then the payment.
pub open spec fn new_order_refusal(order: NewOrder, single_shop: bool, currency: Option<i32>) -> Option<
    (u16, Seq<char>),
> {
    if order.order_items@.len() == 0 {
        refuse("Order items must not be empty!"@)
    } else if !single_shop {
        refuse(
            "You can only order items from one shop at a time. Please place separate orders for items from different shops!"@,
        )
    } else if currency is None || currency == Some(0i32) {
        refuse(
            "You can only order items with the same currency at a time. Please place separate orders for items with different currencies!"@,
        )
    } else {
        payment_refusal(order)
    }
}

/// Makes the checks of a new order in order; the currency of the order when
/// they all pass.
pub fn check_new_order(order: &NewOrder, single_shop: bool, currency: Option<i32>) -> (r: Result<
    i32,
    ApiResponse,
>)
    ensures
        match new_order_refusal(*order, single_shop, currency) {
            None => r == Ok::<i32, ApiResponse>(currency->0),
            Some((code, msg)) => (r matches Err(e) && answers(e, code, msg)),
        },
{
    if let Err(e) = check_order_items(order) {
        return Err(e);
    }
    if let Err(e) = check_single_shop(single_shop) {
        return Err(e);
    }
    let c = match check_currency(currency) {
        Ok(c) => c,
        Err(e) => return Err(e),
    };
    if let Err(e) = check_payment(order) {
        return Err(e);
    }
    Ok(c)
}

/// Only cash on delivery goes without a payment slip: an order paid
/// "Full Prepaid" or "Half Prepaid" whose payment slip path is empty is
/// refused with `400` "Please provide your payment slip.", and so is every
/// new order that passes the item, shop and currency checks with such a
/// payment; a payment type outside the three is refused as invalid; a known
/// payment type with a slip, or cash on delivery, passes.
pub proof fn law_payment_slip_required(order: NewOrder, single_shop: bool, currency: Option<i32>)
    ensures
        (order.payment_type@ == "Full Prepaid"@ || order.payment_type@ == "Half Prepaid"@)
            && order.payslip_screenshot_path@.len() == 0 ==> payment_refusal(order) == Some(
            (400u16, "Please provide your payment slip."@),
        ),
        (order.payment_type@ == "Full Prepaid"@ || order.payment_type@ == "Half Prepaid"@)
            && order.payslip_screenshot_path@.len() == 0 && order.order_items@.len() > 0
            && single_shop && currency is Some && currency != Some(0i32) ==> new_order_refusal(
            order,
            single_shop,
            currency,
        ) == Some((400u16, "Please provide your payment slip."@)),
        order.payment_type@ != "Full Prepaid"@ && order.payment_type@ != "Half Prepaid"@
            && order.payment_type@ != "Cash on Delivery"@ ==> payment_refusal(order) == Some(
            (
                400u16,
                "Please select a valid payment type: Full Prepaid, Half Prepaid, or Cash on Delivery."@,
            ),
        ),
        order.payment_type@ == "Cash on Delivery"@ || ((order.payment_type@ == "Full Prepaid"@
            || order.payment_type@ == "Half Prepaid"@) && order.payslip_screenshot_path@.len() > 0)
            ==> payment_refusal(order) is None,
{
    reveal_strlit("Full Prepaid");
    reveal_strlit("Half Prepaid");
    reveal_strlit("Cash on Delivery");
    assert("Full Prepaid"@.len() == 12);
    assert("Half Prepaid"@.len() == 12);
    assert("Cash on Delivery"@.len() == 16);
    assert(payment_types()[0] == "Full Prepaid"@);
    assert(payment_types()[1] == "Half Prepaid"@);
    assert(payment_types()[2] == "Cash on Delivery"@);
    if order.payment_type@ == "Full Prepaid"@ {
        assert(one_of(order.payment_type@, payment_types()));
    }
    if order.payment_type@ == "Half Prepaid"@ {
        assert(one_of(order.payment_type@, payment_types()));
    }
    if order.payment_type@ == "Cash on Delivery"@ {
        assert(one_of(order.payment_type@, payment_types()));
    }
}

/// Why a status change is refused, by the first check that fails, in the
/// order the checks are made: a customer setting a status other than
/// cancelled, returned or completed (`401`); an agent without the
/// permission to change order statuses (`401`; `agent_may_modify` is what
/// its lookup found, and counts for agents only); an unknown status (`400`).
pub open spec fn status_change_refusal(role: Seq<char>, status: Seq<char>, agent_may_modify: bool) -> Option<
    (u16, Seq<char>),
> {
    if role == "user"@ && !one_of(status, customer_statuses()) {
        Some((401u16, "Unauthorized!"@))
    } else if role == "agent"@ && !agent_may_modify {
        Some((401u16, "Unauthorized!"@))
    } else if !one_of(status, order_statuses()) {
        refuse(
            "Please select a valid order status: Pending, Processing, Shipped, Delivered, Completed, Cancelled, Refunded, Failed, On Hold, Backordered, or Returned."@,
        )
    } else {
        None
    }
}

/// Who may set which order status: a customer may only cancel, return or
/// complete an order, and is answered `401` "Unauthorized!" for any other
/// status; an agent without the permission to change order statuses is
/// answered `401` whatever the status; a customer setting one of its three
/// statuses, an agent with the permission and an administrator pass with
/// any valid status.
pub proof fn law_status_change_permissions(role: Seq<char>, status: Seq<char>, agent_may_modify: bool)
    ensures
        role == "user"@ && status != "Cancelled"@ && status != "Returned"@ && status
            != "Completed"@ ==> status_change_refusal(role, status, agent_may_modify) == Some(
            (401u16, "Unauthorized!"@),
        ),
        role == "user"@ && (status == "Cancelled"@ || status == "Returned"@ || status
            == "Completed"@) ==> status_change_refusal(role, status, agent_may_modify) is None,
        role == "agent"@ && !agent_may_modify ==> status_change_refusal(
            role,
            status,
            agent_may_modify,
        ) == Some((401u16, "Unauthorized!"@)),
        (role == "admin"@ || (role == "agent"@ && agent_may_modify)) && one_of(
            status,
            order_statuses(),
        ) ==> status_change_refusal(role, status, agent_may_modify) is None,
{
    reveal_strlit("user");
    reveal_strlit("agent");
    reveal_strlit("admin");
    assert("user"@.len() != "agent"@.len());
    assert("user"@.len() != "admin"@.len());
    assert("admin"@[1] != "agent"@[1]);
    assert(customer_statuses()[0] == "Cancelled"@);
    assert(customer_statuses()[1] == "Returned"@);
    assert(customer_statuses()[2] == "Completed"@);
    assert(order_statuses()[4] == "Completed"@);
    assert(order_statuses()[5] == "Cancelled"@);
    assert(order_statuses()[10] == "Returned"@);
    if role == "user"@ && !(status == "Cancelled"@ || status == "Returned"@ || status
        == "Completed"@) {
        assert(!one_of(status, customer_statuses()));
    }
}

/// Makes the checks of a status change in order.
pub fn check_status_change(role: &str, status: &str, agent_may_modify: bool) -> (r: Result<
    (),
    ApiResponse,
>)
    ensures
        checked(r, status_change_refusal(role@, status@, agent_may_modify)),
{
    match status_change_gate(role, status) {
        StatusGate::Refuse(e) => return Err(e),
        StatusGate::NeedsAgentPermission => {
            if let Err(e) = check_agent_permission(agent_may_modify) {
                return Err(e);
            }
        },
        StatusGate::Proceed => {},
    }
    validate_order_status(&UpdateOrderRequest { status: string_from(status) })
}

// ---------------------------------------------------------------------------
// Stock levels across a reservation and a cancellation
// ---------------------------------------------------------------------------

/// The total quantity of product `p` among the items.
pub open spec fn taken_quantity(items: Seq<NewOrderItem>, p: i32) -> int
    decreases items.len(),
{
    if items.len() == 0 {
        0
    } else {
        taken_quantity(items.drop_last(), p) + if items.last().product_id == p {
            items.last().quantity as int
        } else {
            0
        }
    }
}

/// The stock levels once a reservation has taken each item's quantity from
/// its product, one statement per item as the reservation runs them
/// (`stock_quantity - quantity`; products without a row stay absent).
pub open spec fn stock_after_reservation(stock: Map<i32, int>, items: Seq<NewOrderItem>) -> Map<i32, int>
    decreases items.len(),
{
    if items.len() == 0 {
        stock
    } else {
        let m = stock_after_reservation(stock, items.drop_last());
        let it = items.last();
        if m.dom().contains(it.product_id) {
            m.insert(it.product_id, m[it.product_id] - it.quantity)
        } else {
            m
        }
    }
}

/// The stock levels once a cancellation has put each item's quantity back,
/// one statement per item as the cancellation runs them
/// (`stock_quantity + quantity`).
pub open spec fn stock_after_cancellation(stock: Map<i32, int>, items: Seq<NewOrderItem>) -> Map<i32, int>
    decreases items.len(),
{
    if items.len() == 0 {
        stock
    } else {
        let m = stock_after_cancellation(stock, items.drop_last());
        let it = items.last();
        if m.dom().contains(it.product_id) {
            m.insert(it.product_id, m[it.product_id] + it.quantity)
        } else {
            m
        }
    }
}

proof fn lemma_reservation_totals(stock: Map<i32, int>, items: Seq<NewOrderItem>)
    ensures
        stock_after_reservation(stock, items).dom() == stock.dom(),
        forall|p: i32| stock.dom().contains(p) ==> #[trigger] stock_after_reservation(stock, items)[p]
            == stock[p] - taken_quantity(items, p),
    decreases items.len(),
{
    if items.len() > 0 {
        lemma_reservation_totals(stock, items.drop_last());
        assert(stock_after_reservation(stock, items).dom() =~= stock.dom());
    }
}

proof fn lemma_cancellation_totals(stock: Map<i32, int>, items: Seq<NewOrderItem>)
    ensures
        stock_after_cancellation(stock, items).dom() == stock.dom(),
        forall|p: i32| stock.dom().contains(p) ==> #[trigger] stock_after_cancellation(stock, items)[p]
            == stock[p] + taken_quantity(items, p),
    decreases items.len(),
{
    if items.len() > 0 {
        lemma_cancellation_totals(stock, items.drop_last());
        assert(stock_after_cancellation(stock, items).dom() =~= stock.dom());
    }
}

/// Cancelling an order puts back exactly what its reservation took: run over
/// the same items, the cancellation's statements bring every product's stock
/// back to its level before the reservation.
pub proof fn law_cancellation_restores_stock(stock: Map<i32, int>, items: Seq<NewOrderItem>)
    ensures
        stock_after_cancellation(stock_after_reservation(stock, items), items) == stock,
{
    lemma_reservation_totals(stock, items);
    lemma_cancellation_totals(stock_after_reservation(stock, items), items);
    assert(stock_after_cancellation(stock_after_reservation(stock, items), items) =~= stock);
}

/// The stock read for each taken item is the level of its product as the
/// reservation's own statements have left it: the level before the
/// reservation, less the quantities of the items taken before it.
pub open spec fn reads_follow_statements(initial: Map<i32, int>, items: Seq<NewOrderItem>, stocks: Seq<i32>) -> bool {
    forall|j: int|
        0 <= j < stocks.len() ==> initial.dom().contains(#[trigger] items[j].product_id) && stocks[j]
            == stock_after_reservation(initial, items.subrange(0, j))[items[j].product_id]
}

proof fn lemma_reservation_prefix(
    initial: Map<i32, int>,
    items: Seq<NewOrderItem>,
    stocks: Seq<i32>,
    k: int,
)
    requires
        0 <= k <= stocks.len() <= items.len(),
        reads_follow_statements(initial, items, stocks),
        all_in_stock(stocks, items.subrange(0, stocks.len() as int)),
        forall|p: i32| initial.dom().contains(p) ==> initial[p] >= 0,
    ensures
        stock_after_reservation(initial, items.subrange(0, k)).dom() == initial.dom(),
        forall|p: i32|
            initial.dom().contains(p) ==> #[trigger] stock_after_reservation(
                initial,
                items.subrange(0, k),
            )[p] >= 0,
    decreases k,
{
    lemma_reservation_totals(initial, items.subrange(0, k));
    if k > 0 {
        lemma_reservation_prefix(initial, items, stocks, k - 1);
        let pre = items.subrange(0, k - 1);
        let cur = items.subrange(0, k);
        assert(cur.drop_last() =~= pre);
        assert(cur.last() == items[k - 1]);
        let it = items[k - 1];
        let m = stock_after_reservation(initial, pre);
        assert(initial.dom().contains(it.product_id));
        assert(stocks[k - 1] == m[it.product_id]);
        assert(items.subrange(0, stocks.len() as int)[k - 1] == it);
        assert(stocks[k - 1] >= it.quantity);
        assert forall|p: i32| initial.dom().contains(p) implies #[trigger] stock_after_reservation(
            initial,
            cur,
        )[p] >= 0 by {
            if p != it.product_id {
                assert(stock_after_reservation(initial, cur)[p] == m[p]);
            }
        }
    }
}

/// A reservation never overdraws a product: where each stock it read is the
/// level its own statements left (and the levels were not negative before),
/// every product's level stays non-negative after the statements of the taken
/// items, and so after a committed reservation, whose taken items are all the
/// items of the order.
pub proof fn law_reservation_never_overdraws(r: StockReservation, initial: Map<i32, int>)
    requires
        r.wf(),
        reads_follow_statements(initial, r.items_view(), r.stocks_read()),
        forall|p: i32| initial.dom().contains(p) ==> initial[p] >= 0,
    ensures
        forall|p: i32|
            initial.dom().contains(p) ==> #[trigger] stock_after_reservation(
                initial,
                r.items_view().subrange(0, r.taken_count() as int),
            )[p] >= 0,
        r.taken_count() == r.items_view().len() ==> forall|p: i32|
            initial.dom().contains(p) ==> #[trigger] stock_after_reservation(initial, r.items_view())[p]
                >= 0,
{
    r.lemma_wf();
    lemma_reservation_prefix(initial, r.items_view(), r.stocks_read(), r.taken_count() as int);
    assert(r.items_view().subrange(0, r.items_view().len() as int) =~= r.items_view());
}

} // verus!
