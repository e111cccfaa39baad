use watch_market::orders::{
    admin_status_notice, check_agent_permission, check_currency, check_order_items, check_payment,
    check_reminder, check_single_shop, covers, new_order_notice, order_totals_params,
    product_and_shop_names_query, check_new_order, check_status_change,
    records_return, reservation_outcome, restocks, return_request_notice, seller_known,
    seller_report_notice, status_change_gate, status_notice, urgent_delivery_notice, StatusGate,
    StockReservation,
};
use watch_market::requests::{NewAddress, NewOrder, NewOrderItem};
use watch_market::response::ApiResponse;
use watch_market::sql::SqlParam;

fn assert_refused<T>(r: Result<T, ApiResponse>, code: u16, message: &str) {
    match r {
        Ok(_) => panic!("expected a refusal with {code}"),
        Err(e) => {
            assert_eq!(e.code, code);
            assert_eq!(e.message, message);
        }
    }
}

fn order(items: Vec<NewOrderItem>, payment_type: &str, slip: &str) -> NewOrder {
    NewOrder {
        order_items: items,
        address: NewAddress {
            street_address: "1 Main St".to_string(),
            city: "Yangon".to_string(),
            state: "Yangon".to_string(),
            postal_code: "11181".to_string(),
            country: "Myanmar".to_string(),
        },
        payment_type: payment_type.to_string(),
        payslip_screenshot_path: slip.to_string(),
        rule_id: None,
        shop_id: None,
    }
}

fn item(product_id: i32, quantity: i32) -> NewOrderItem {
    NewOrderItem { product_id, quantity }
}

#[test]
fn order_needs_items() {
    assert_refused(check_order_items(&order(vec![], "Cash on Delivery", "")), 400, "Order items must not be empty!");
    assert!(check_order_items(&order(vec![item(1, 1)], "Cash on Delivery", "")).is_ok());
}

#[test]
fn order_from_one_shop_and_currency() {
    assert_refused(
        check_single_shop(false),
        400,
        "You can only order items from one shop at a time. Please place separate orders for items from different shops!",
    );
    assert!(check_single_shop(true).is_ok());
    let msg = "You can only order items with the same currency at a time. Please place separate orders for items with different currencies!";
    assert_refused(check_currency(None), 400, msg);
    assert_refused(check_currency(Some(0)), 400, msg);
    assert_eq!(check_currency(Some(2)).unwrap(), 2);
}

#[test]
fn payment_checks() {
    assert_refused(
        check_payment(&order(vec![item(1, 1)], "Card", "slip.png")),
        400,
        "Please select a valid payment type: Full Prepaid, Half Prepaid, or Cash on Delivery.",
    );
    assert_refused(check_payment(&order(vec![item(1, 1)], "Full Prepaid", "")), 400, "Please provide your payment slip.");
    assert!(check_payment(&order(vec![item(1, 1)], "Half Prepaid", "slip.png")).is_ok());
    assert!(check_payment(&order(vec![item(1, 1)], "Cash on Delivery", "")).is_ok());
}

#[test]
fn reservation_commits_when_every_item_is_covered() {
    let mut r = StockReservation::new(vec![item(7, 2), item(8, 1)]);
    assert_eq!(r.next_product(), Some(7));
    assert_eq!(r.next_quantity(), 2);
    assert!(r.record(5));
    assert_eq!(r.next_product(), Some(8));
    assert_eq!(r.next_quantity(), 1);
    assert!(r.record(1));
    assert_eq!(r.next_product(), None);
}

#[test]
fn reservation_stops_at_the_first_uncovered_item() {
    let mut r = StockReservation::new(vec![item(7, 2), item(8, 3), item(9, 1)]);
    assert!(r.record(2));
    assert!(!r.record(2));
    assert_eq!(r.taken(), 1);
    assert_eq!(r.next_product(), Some(8));
}

#[test]
fn empty_reservation_commits_at_once() {
    let r = StockReservation::new(vec![]);
    assert_eq!(r.next_product(), None);
}

#[test]
fn stock_covers_quantity() {
    assert!(covers(3, 3));
    assert!(!covers(2, 3));
}

#[test]
fn reservation_answers() {
    assert!(reservation_outcome(Ok(true)).is_ok());
    assert_refused(reservation_outcome(Ok(false)), 400, "Insufficient stock!");
    assert_refused(reservation_outcome(Err(())), 500, "Error updating stocks!");
}

#[test]
fn totals_statement_parameters() {
    let p = order_totals_params(41, Some(3));
    let ints: Vec<i32> = p
        .iter()
        .map(|x| match x {
            SqlParam::Int(v) => *v,
            _ => panic!("integer parameters expected"),
        })
        .collect();
    assert_eq!(ints, vec![41, 41, 41, 3, 41]);
    let p = order_totals_params(41, None);
    assert!(matches!(p[3], SqlParam::Int(0)));
}

#[test]
fn customers_may_only_cancel_return_or_complete() {
    assert!(matches!(status_change_gate("user", "Cancelled"), StatusGate::Proceed));
    assert!(matches!(status_change_gate("user", "Completed"), StatusGate::Proceed));
    match status_change_gate("user", "Shipped") {
        StatusGate::Refuse(e) => {
            assert_eq!(e.code, 401);
            assert_eq!(e.message, "Unauthorized!");
        }
        _ => panic!("expected a refusal"),
    }
    assert!(matches!(status_change_gate("agent", "Shipped"), StatusGate::NeedsAgentPermission));
    assert!(matches!(status_change_gate("admin", "Shipped"), StatusGate::Proceed));
    assert_refused(check_agent_permission(false), 401, "Unauthorized!");
    assert!(check_agent_permission(true).is_ok());
}

#[test]
fn status_side_effects() {
    assert!(restocks("Cancelled"));
    assert!(!restocks("Returned"));
    assert!(records_return("Delivered"));
    assert!(!records_return("Returned"));
    assert!(!records_return("Refunded"));
}

#[test]
fn customer_status_notices() {
    let n = status_notice(15, "Processing");
    assert_eq!(n.title, "Order Processing");
    assert_eq!(n.message, "Your order #15 is processing.");
    let n = status_notice(15, "On Hold");
    assert_eq!(n.title, "Order On Hold");
    assert_eq!(n.message, "Your order #15 has been on hold.");
}

#[test]
fn administrators_hear_of_customer_changes_only() {
    let n = admin_status_notice(9, "Returned", "user").unwrap();
    assert_eq!(n.title, "Order Returned");
    assert_eq!(n.message, "Order #9 has been returned.");
    assert!(admin_status_notice(9, "Returned", "admin").is_none());
    assert!(admin_status_notice(9, "Shipped", "agent").is_none());
}

#[test]
fn new_order_notice_text() {
    let n = new_order_notice(
        100,
        "Ann",
        "Cash on Delivery",
        &vec!["Seiko 5".to_string(), "Casio F91W".to_string()],
        &vec!["Watch House".to_string()],
    );
    assert_eq!(n.title, "New Order #100");
    assert_eq!(
        n.message,
        "Ann has placed a cash on delivery order for Seiko 5, Casio F91W from Watch House. Please review and process the order."
    );
}

#[test]
fn reminders() {
    assert_refused(check_reminder("Completed"), 400, "Order has been already completed");
    assert_refused(check_reminder("Canceled"), 400, "Order has been already canceled");
    assert!(check_reminder("Cancelled").is_ok());
    assert!(check_reminder("Pending").is_ok());
    let n = urgent_delivery_notice(5, "Ann");
    assert_eq!(n.title, "Urgent Delivery Alert");
    assert_eq!(n.message, "Order ID #5 for Ann has been marked for urgent delivery - please oversee timely dispatch.");
}

#[test]
fn return_and_report_notices() {
    let n = return_request_notice("Ann", 77);
    assert_eq!(n.title, "Return Request Submitted");
    assert_eq!(n.message, "Return requested by Ann for Order ID #77 - please review and process.");
    assert!(seller_known(4));
    assert!(!seller_known(0));
    let n = seller_report_notice("Ann", "Fake item");
    assert_eq!(n.title, "New Report Submitted");
    assert_eq!(n.message, "Ann has submitted a report. Subject: 'Fake item'. Please review the details.");
}

#[test]
fn product_names_query_lists_the_ids() {
    assert!(product_and_shop_names_query(&vec![]).is_none());
    let q = product_and_shop_names_query(&vec![3, 14, -1]).unwrap();
    assert_eq!(
        q,
        "select (b.name || ' ' || p.model) as product_name, s.name shop_name from products p inner join brands b on b.brand_id = p.brand_id inner join shops s on s.shop_id = p.shop_id where p.product_id in (3, 14, -1) and p.deleted_at is null and s.deleted_at is null and b.deleted_at is null"
    );
}

#[test]
fn new_order_refusals_come_in_order() {
    let empty = order(vec![], "Card", "");
    assert_refused(check_new_order(&empty, false, None), 400, "Order items must not be empty!");
    let bad = order(vec![item(1, 1)], "Card", "");
    assert_refused(
        check_new_order(&bad, false, None),
        400,
        "You can only order items from one shop at a time. Please place separate orders for items from different shops!",
    );
    assert_refused(
        check_new_order(&bad, true, Some(0)),
        400,
        "You can only order items with the same currency at a time. Please place separate orders for items with different currencies!",
    );
    assert_refused(
        check_new_order(&bad, true, Some(2)),
        400,
        "Please select a valid payment type: Full Prepaid, Half Prepaid, or Cash on Delivery.",
    );
    let good = order(vec![item(1, 1)], "Full Prepaid", "slip.png");
    assert_eq!(check_new_order(&good, true, Some(2)).unwrap(), 2);
}

#[test]
fn status_change_refusals_come_in_order() {
    assert_refused(check_status_change("user", "Lost", true), 401, "Unauthorized!");
    assert_refused(check_status_change("agent", "Lost", false), 401, "Unauthorized!");
    let msg = "Please select a valid order status: Pending, Processing, Shipped, Delivered, Completed, Cancelled, Refunded, Failed, On Hold, Backordered, or Returned.";
    assert_refused(check_status_change("agent", "Lost", true), 400, msg);
    assert_refused(check_status_change("admin", "Lost", false), 400, msg);
    assert!(check_status_change("user", "Returned", false).is_ok());
    assert!(check_status_change("agent", "Shipped", true).is_ok());
}
