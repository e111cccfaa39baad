use watch_market::listing::{
    app_version, brand_list_query, discount_rule_list_query, insurance_rule_list_query,
    notification_list_query, order_item_list_query, order_list_query, platform_or_empty,
    product_list_query, registration_fee_order, shop_list_query, DemoSettings, OrderListFilter,
    ProductListFilter, ShopListFilter, ORDERS_FROM, ORDER_ITEMS_FROM, PRODUCTS_FROM,
};
use watch_market::sql::{CalendarDay, SqlFilter, SqlParam};

fn demo() -> DemoSettings {
    DemoSettings { demo_platform: "demo".to_string(), min_demo_version: 120, demo_user_id: 99 }
}

fn product_filter(role: &str) -> ProductListFilter {
    ProductListFilter {
        platform: "android".to_string(),
        shop_id: None,
        category_id: None,
        brands: None,
        models: None,
        price_bounds: None,
        is_top_model: None,
        products: None,
        view: None,
        role: role.to_string(),
        user_id: 5,
        version: 0,
    }
}

#[test]
fn plain_product_list() {
    let q = product_list_query(&product_filter("user"), &demo());
    assert_eq!(q.base_query, format!("{PRODUCTS_FROM} and p.is_demo = false"));
    assert!(q.params.is_empty());
}

#[test]
fn product_list_placeholders_follow_the_parameters() {
    let mut f = product_filter("agent");
    f.shop_id = Some(3);
    f.brands = Some(vec![1, 2]);
    f.models = Some(vec!["SKX".to_string()]);
    f.price_bounds = Some(("10".to_string(), "20".to_string()));
    f.is_top_model = Some(true);
    f.products = Some(vec![8, 9, 10]);
    f.platform = "ios".to_string();
    f.version = 130;
    let q = product_list_query(&f, &demo());
    assert_eq!(
        q.base_query,
        format!(
            "{PRODUCTS_FROM} and p.creator_id = $1 and p.shop_id = $2 and p.brand_id in ($3, $4) and p.model = $5 and (p.price - (p.price * p.discount_percent / 100)) between 10 and 20 and p.is_top_model = $6 and p.product_id in ($7, $8, $9) and p.is_demo = true"
        )
    );
    assert_eq!(q.params.len(), 9);
    assert!(matches!(q.params[0], SqlParam::Int(5)));
    assert!(matches!(q.params[1], SqlParam::Int(3)));
    assert!(matches!(q.params[5], SqlParam::Bool(true)));
    assert!(matches!(q.params[8], SqlParam::Int(10)));
}

#[test]
fn agent_customer_view_excludes_own_products() {
    let mut f = product_filter("agent");
    f.view = Some("user".to_string());
    let q = product_list_query(&f, &demo());
    assert!(q.base_query.starts_with(&format!("{PRODUCTS_FROM} and p.creator_id != $1")));
}

#[test]
fn shop_lists_by_role() {
    let f = |role: &str, view: Option<&str>, status: Option<&str>| ShopListFilter {
        platform: "web".to_string(),
        status: status.map(|s| s.to_string()),
        view: view.map(|s| s.to_string()),
        role: role.to_string(),
        user_id: 5,
    };
    let q = shop_list_query(&f("agent", None, None), &demo());
    assert_eq!(q.base_query, "from shops where deleted_at is null and creator_id = $1 and is_demo = false");
    assert_eq!(q.order_options, "created_at desc");
    let q = shop_list_query(&f("agent", Some("user"), None), &demo());
    assert_eq!(
        q.base_query,
        "from shops where deleted_at is null and creator_id != $1 and status != 'Pending Approval' and is_demo = false"
    );
    assert_eq!(q.order_options, "name asc, created_at desc");
    let q = shop_list_query(&f("admin", None, Some("Active")), &demo());
    assert_eq!(q.base_query, "from shops where deleted_at is null and status = $1 and is_demo = false");
    assert!(matches!(&q.params[..], [SqlParam::Text(s)] if s == "Active"));
    let q = shop_list_query(&f("user", None, None), &demo());
    assert_eq!(q.base_query, "from shops where deleted_at is null and status != 'Pending Approval' and is_demo = false");
    assert_eq!(q.order_options, "name asc, created_at desc");
}

#[test]
fn demo_account_sees_demo_brands() {
    let q = brand_list_query("android", 99, 0, &demo());
    assert_eq!(q.base_query, "from brands where deleted_at is null and is_demo = true");
    let q = brand_list_query("ios", 1, 119, &demo());
    assert_eq!(q.base_query, "from brands where deleted_at is null and is_demo = false");
    let q = brand_list_query("ios", 1, 120, &demo());
    assert_eq!(q.base_query, "from brands where deleted_at is null and is_demo = true");
    assert_eq!(q.order_options, "name asc");
}

#[test]
fn order_list_filters() {
    let day = |d: u32| CalendarDay { year: 2024, month: 5, day: d };
    let f = OrderListFilter {
        from_date: Some(day(1)),
        to_date: Some(day(31)),
        amount_bounds: Some(("100".to_string(), "500".to_string())),
        payment_type: Some("Cash on Delivery".to_string()),
        user_id: 7,
        role: "user".to_string(),
    };
    let q = order_list_query(&f);
    assert_eq!(
        q.base_query,
        format!("{ORDERS_FROM} and o.user_id = $1 and o.created_at::date between $2 and $3 and o.order_total between 100 and 500 and o.payment_type = $4")
    );
    assert_eq!(q.params.len(), 4);
    assert_eq!(q.order_options, "o.created_at desc");
    let f = OrderListFilter { from_date: Some(day(1)), to_date: None, amount_bounds: None, payment_type: None, user_id: 7, role: "admin".to_string() };
    let q = order_list_query(&f);
    assert_eq!(q.base_query, ORDERS_FROM);
    assert!(q.params.is_empty());
}

#[test]
fn order_items_of_a_customer() {
    let q = order_item_list_query("user", 7, Some(3), None, None);
    assert_eq!(q.base_query, format!("{ORDER_ITEMS_FROM} and o.user_id = $1 and oi.order_id = $2"));
    assert_eq!(q.order_options, "b.name, p.model");
}

#[test]
fn discount_rules_by_role() {
    let q = discount_rule_list_query(Some(4), 7, "admin");
    assert!(q.base_query.ends_with(" and dr.shop_id = $1"));
    let q = discount_rule_list_query(Some(4), 7, "agent");
    assert!(q.base_query.ends_with(" and dr.creator_id = $1"));
    assert!(matches!(q.params[..], [SqlParam::Int(7)]));
}

#[test]
fn notification_statuses_list() {
    let q = notification_list_query(3, &Some(vec!["Unread".to_string(), "Read".to_string()]));
    assert!(q.base_query.ends_with("n.user_id = $1 and n.status in ($2, $3)"));
    assert_eq!(q.params.len(), 3);
    let q = notification_list_query(3, &Some(vec!["Unread".to_string()]));
    assert!(q.base_query.ends_with("n.user_id = $1 and n.status = $2"));
    let q = notification_list_query(3, &None);
    assert!(q.base_query.ends_with("n.user_id = $1"));
}

#[test]
fn insurance_rules_and_fees() {
    let q = insurance_rule_list_query(&Some("250".to_string()), "user");
    assert_eq!(
        q.base_query,
        "from commission_rules where deleted_at is null and min_order_amount <= 250 and max_order_amount >= 250 and now()::date between effective_from::date AND effective_to::date"
    );
    assert_eq!(q.order_options, "description");
    let q = insurance_rule_list_query(&None, "admin");
    assert_eq!(q.base_query, "from commission_rules where deleted_at is null");
    assert_eq!(q.order_options, "created_at desc");
    assert_eq!(registration_fee_order("admin"), "f.created_at desc");
    assert_eq!(registration_fee_order("agent"), "f.description asc");
}

#[test]
fn app_versions() {
    assert_eq!(app_version(Some("1.2.3")), Some(123));
    assert_eq!(app_version(None), Some(0));
    assert_eq!(app_version(Some("1.x")), None);
    assert_eq!(platform_or_empty(Some("ios")), "ios");
    assert_eq!(platform_or_empty(None), "");
}

#[test]
fn filter_numbers_placeholders_in_binding_order() {
    let mut f = SqlFilter::new("from t where true");
    f.push_condition("a", "=", SqlParam::Int(1));
    f.push_list("b", vec![SqlParam::Int(2), SqlParam::Int(3)]);
    f.push_text(" and c is null");
    f.push_condition("d", ">=", SqlParam::Bool(true));
    assert_eq!(f.text, "from t where true and a = $1 and b in ($2, $3) and c is null and d >= $4");
    assert_eq!(f.params.len(), 4);
}
