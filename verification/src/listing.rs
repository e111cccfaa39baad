//! The filters, bound parameters and orderings of the paginated list
//! queries (products, shops, brands, orders, order items, discount rules,
//! notifications, chat sessions, insurance rules, registration fees).

use vstd::prelude::*;
use crate::sql::{condition, list_condition, SqlFilter, SqlParam, CalendarDay};
use crate::text::{string_from, text_eq, replaced, replace_all};
use crate::numeric::{parse_i32, parse_i32_spec};

verus! {

/// A list query: the `from ... where ...` text, the parameters its
/// placeholders bind, in order, and the `order by` text.
#[derive(Debug)]
pub struct ListQuery {
    pub base_query: String,
    pub params: Vec<SqlParam>,
    pub order_options: String,
}

/// The settings that select demo content: the demo platform, the lowest
/// iOS app version that is shown the demo, and the demo account (`0` for
/// none).
pub struct DemoSettings {
    pub demo_platform: String,
    pub min_demo_version: i32,
    pub demo_user_id: i32,
}

/// The caller is shown demo content: it uses the demo platform, or (where
/// the version counts) an iOS app at least the demo version, or it is the
/// demo account.
pub open spec fn shows_demo(
    platform: Seq<char>,
    version: int,
    user_id: int,
    demo: DemoSettings,
    version_counts: bool,
) -> bool {
    ||| platform == demo.demo_platform@
    ||| (version_counts && platform == "ios"@ && version >= demo.min_demo_version)
    ||| (demo.demo_user_id > 0 && user_id == demo.demo_user_id)
}

fn shows_demo_exec(
    platform: &str,
    version: i32,
    user_id: i32,
    demo: &DemoSettings,
    version_counts: bool,
) -> (r: bool)
    ensures
        r == shows_demo(platform@, version as int, user_id as int, *demo, version_counts),
{
    text_eq(platform, demo.demo_platform.as_str()) || (version_counts && text_eq(platform, "ios")
        && version >= demo.min_demo_version) || (demo.demo_user_id > 0 && user_id
        == demo.demo_user_id)
}

/// The demo condition on a column of the given table alias prefix.
pub open spec fn demo_condition(prefix: Seq<char>, demo: bool) -> Seq<char> {
    if demo {
        " and "@ + prefix + "is_demo = true"@
    } else {
        " and "@ + prefix + "is_demo = false"@
    }
}

fn push_demo(f: &mut SqlFilter, prefix: &str, demo: bool)
    ensures
        final(f).text@ == old(f).text@ + demo_condition(prefix@, demo),
        final(f).params@ == old(f).params@,
{
    f.push_text(" and ");
    f.push_text(prefix);
    if demo {
        f.push_text("is_demo = true");
    } else {
        f.push_text("is_demo = false");
    }
    assert(f.text@ =~= old(f).text@ + demo_condition(prefix@, demo));
}

/// The integer values as bound parameters.
pub open spec fn int_params(v: Seq<i32>) -> Seq<SqlParam> {
    v.map_values(|x: i32| SqlParam::Int(x))
}

/// The texts as bound parameters.
pub open spec fn text_params(v: Seq<String>) -> Seq<SqlParam> {
    v.map_values(|x: String| SqlParam::Text(x))
}

fn to_int_params(v: &Vec<i32>) -> (r: Vec<SqlParam>)
    ensures
        r@ == int_params(v@),
{
    let mut r: Vec<SqlParam> = Vec::new();
    let mut i: usize = 0;
    while i < v.len()
        invariant
            i <= v.len(),
            r@ == int_params(v@.subrange(0, i as int)),
        decreases v.len() - i,
    {
        r.push(SqlParam::Int(v[i]));
        assert(r@ =~= int_params(v@.subrange(0, i + 1)));
        i = i + 1;
    }
    assert(v@.subrange(0, v.len() as int) =~= v@);
    r
}

fn to_text_params(v: &Vec<String>) -> (r: Vec<SqlParam>)
    ensures
        r@ == text_params(v@),
{
    let mut r: Vec<SqlParam> = Vec::new();
    let mut i: usize = 0;
    while i < v.len()
        invariant
            i <= v.len(),
            r@ == text_params(v@.subrange(0, i as int)),
        decreases v.len() - i,
    {
        r.push(SqlParam::Text(v[i].clone()));
        assert(r@ =~= text_params(v@.subrange(0, i + 1)));
        i = i + 1;
    }
    assert(v@.subrange(0, v.len() as int) =~= v@);
    r
}

/// The number of values an optional list holds.
pub open spec fn opt_len<T>(v: Option<Vec<T>>) -> nat {
    match v {
        Some(v) => v@.len(),
        None => 0,
    }
}

/// The view selected by the caller is the customer-facing one (the default
/// view is the administrative one).
pub open spec fn is_user_view(view: Option<String>) -> bool {
    match view {
        Some(v) => v@ == "user"@,
        None => false,
    }
}

fn is_user_view_exec(view: &Option<String>) -> (r: bool)
    ensures
        r == is_user_view(*view),
{
    match view {
        Some(v) => text_eq(v.as_str(), "user"),
        None => false,
    }
}

// ---------------------------------------------------------------------------
// Products
// ---------------------------------------------------------------------------

/// The joins and fixed conditions of the product list.
pub const PRODUCTS_FROM: &'static str = "from products p inner join brands b on b.brand_id = p.brand_id inner join categories c on p.category_id = c.category_id inner join shops s on s.shop_id = p.shop_id inner join currencies cur on cur.currency_id = p.currency_id inner join warranty_types wt on wt.warranty_type_id = p.warranty_type_id inner join dial_glass_types dgt on dgt.dial_glass_type_id = p.dial_glass_type_id inner join other_accessories_types oat on oat.other_accessories_type_id = p.other_accessories_type_id inner join genders g on g.gender_id = p.gender_id where p.deleted_at is null and b.deleted_at is null and c.deleted_at is null and s.deleted_at is null and cur.deleted_at is null and wt.deleted_at is null and dgt.deleted_at is null and oat.deleted_at is null and g.deleted_at is null";

/// The filters of the product list. The price bounds are the decimal
/// renderings of the two prices, when both were given.
pub struct ProductListFilter {
    pub platform: String,
    pub shop_id: Option<i32>,
    pub category_id: Option<i32>,
    pub brands: Option<Vec<i32>>,
    pub models: Option<Vec<String>>,
    pub price_bounds: Option<(String, String)>,
    pub is_top_model: Option<bool>,
    pub products: Option<Vec<i32>>,
    pub view: Option<String>,
    pub role: String,
    pub user_id: i32,
    pub version: i32,
}

/// The values of an optional list (none when absent).
pub open spec fn opt_seq<T>(v: Option<Vec<T>>) -> Seq<T> {
    match v {
        Some(v) => v@,
        None => seq![],
    }
}

/// The condition on an optional single value whose placeholder would be
/// `$k`: nothing when the value is absent.
pub open spec fn opt_condition(column: Seq<char>, op: Seq<char>, present: bool, k: nat) -> Seq<char> {
    if present {
        condition(column, op, k)
    } else {
        seq![]
    }
}

/// The parameter count after the product filters up to the given stage.
pub open spec fn product_counts(f: ProductListFilter) -> Seq<nat> {
    let n1: nat = if f.role@ == "agent"@ { 1 } else { 0 };
    let n2: nat = n1 + if f.shop_id is Some { 1nat } else { 0nat };
    let n3: nat = n2 + if f.category_id is Some { 1nat } else { 0nat };
    let n4: nat = n3 + opt_len(f.brands);
    let n5: nat = n4 + opt_len(f.models);
    let n6: nat = n5 + if f.is_top_model is Some { 1nat } else { 0nat };
    seq![n1, n2, n3, n4, n5, n6]
}

/// The condition an agent's listing adds: its own products, or (in the
/// customer view) everyone else's.
pub open spec fn product_agent_part(f: ProductListFilter) -> Seq<char> {
    if f.role@ == "agent"@ {
        condition("p.creator_id"@, if is_user_view(f.view) { "!="@ } else { "="@ }, 1)
    } else {
        seq![]
    }
}

/// The condition on the discounted price, when both bounds were given.
pub open spec fn product_price_part(f: ProductListFilter) -> Seq<char> {
    match f.price_bounds {
        Some((lo, hi)) => " and (p.price - (p.price * p.discount_percent / 100)) between "@ + lo@
            + " and "@ + hi@,
        None => seq![],
    }
}

/// The `where` text of the product list.
pub open spec fn product_filter_text(f: ProductListFilter, demo: DemoSettings) -> Seq<char> {
    let n = product_counts(f);
    PRODUCTS_FROM@ + product_agent_part(f) + opt_condition(
        "p.shop_id"@,
        "="@,
        f.shop_id is Some,
        n[0] + 1,
    ) + opt_condition("p.category_id"@, "="@, f.category_id is Some, n[1] + 1) + list_condition(
        "p.brand_id"@,
        n[2] + 1,
        opt_len(f.brands),
    ) + list_condition("p.model"@, n[3] + 1, opt_len(f.models)) + product_price_part(f)
        + opt_condition("p.is_top_model"@, "="@, f.is_top_model is Some, n[4] + 1)
        + list_condition("p.product_id"@, n[5] + 1, opt_len(f.products)) + demo_condition(
        "p."@,
        shows_demo(f.platform@, f.version as int, f.user_id as int, demo, true),
    )
}

/// A single optional integer as a parameter list.
pub open spec fn opt_int_param(v: Option<i32>) -> Seq<SqlParam> {
    match v {
        Some(x) => seq![SqlParam::Int(x)],
        None => seq![],
    }
}

/// The parameter an agent's listing binds: its user id.
pub open spec fn product_agent_params(f: ProductListFilter) -> Seq<SqlParam> {
    if f.role@ == "agent"@ {
        seq![SqlParam::Int(f.user_id)]
    } else {
        seq![]
    }
}

/// The parameter of the top-model filter.
pub open spec fn opt_bool_param(v: Option<bool>) -> Seq<SqlParam> {
    match v {
        Some(x) => seq![SqlParam::Bool(x)],
        None => seq![],
    }
}

/// The parameters of the product list, in placeholder order.
pub open spec fn product_filter_params(f: ProductListFilter) -> Seq<SqlParam> {
    product_agent_params(f) + opt_int_param(f.shop_id) + opt_int_param(f.category_id) + int_params(
        opt_seq(f.brands),
    ) + text_params(opt_seq(f.models)) + opt_bool_param(f.is_top_model) + int_params(
        opt_seq(f.products),
    )
}

/// The ordering of the product list: by level and model for customers
/// (and agents looking at the customer view), newest first otherwise.
pub open spec fn product_order(f: ProductListFilter) -> Seq<char> {
    if f.role@ == "user"@ || (f.role@ == "agent"@ && is_user_view(f.view)) {
        "p.level desc, p.model asc, p.created_at desc"@
    } else {
        "p.created_at desc"@
    }
}

/// Customers browse products by level, then model, then newest first: for
/// the role "user", and for an agent looking at the customer view, the
/// product list is ordered "p.level desc, p.model asc, p.created_at desc";
/// for an agent on its own view, and for any other role, newest first.
pub proof fn law_customer_product_order(f: ProductListFilter)
    ensures
        f.role@ == "user"@ ==> product_order(f) == "p.level desc, p.model asc, p.created_at desc"@,
        f.role@ == "agent"@ && f.view is Some && f.view->0@ == "user"@ ==> product_order(f)
            == "p.level desc, p.model asc, p.created_at desc"@,
        f.role@ == "agent"@ && f.view is None ==> product_order(f) == "p.created_at desc"@,
        f.role@ != "user"@ && f.role@ != "agent"@ ==> product_order(f) == "p.created_at desc"@,
{
    reveal_strlit("user");
    reveal_strlit("agent");
    assert("user"@.len() != "agent"@.len());
}

/// The product list query for the given filters.
fn push_opt_int(sf: &mut SqlFilter, column: &str, v: Option<i32>)
    ensures
        final(sf).text@ == old(sf).text@ + opt_condition(
            column@,
            "="@,
            v is Some,
            old(sf).params@.len() + 1,
        ),
        final(sf).params@ == old(sf).params@ + opt_int_param(v),
{
    match v {
        Some(x) => {
            sf.push_condition(column, "=", SqlParam::Int(x));
            assert(sf.params@ =~= old(sf).params@ + opt_int_param(v));
        },
        None => {
            assert(sf.text@ =~= old(sf).text@ + opt_condition(
                column@,
                "="@,
                v is Some,
                old(sf).params@.len() + 1,
            ));
            assert(sf.params@ =~= old(sf).params@ + opt_int_param(v));
        },
    }
}

fn push_opt_int_list(sf: &mut SqlFilter, column: &str, v: &Option<Vec<i32>>)
    ensures
        final(sf).text@ == old(sf).text@ + list_condition(
            column@,
            old(sf).params@.len() + 1,
            opt_len(*v),
        ),
        final(sf).params@ == old(sf).params@ + int_params(opt_seq(*v)),
{
    match v {
        Some(b) => {
            let ps = to_int_params(b);
            sf.push_list(column, ps);
        },
        None => {
            assert(sf.text@ =~= old(sf).text@ + list_condition(
                column@,
                old(sf).params@.len() + 1,
                opt_len(*v),
            ));
            assert(sf.params@ =~= old(sf).params@ + int_params(opt_seq(*v)));
        },
    }
}

fn push_opt_text_list(sf: &mut SqlFilter, column: &str, v: &Option<Vec<String>>)
    ensures
        final(sf).text@ == old(sf).text@ + list_condition(
            column@,
            old(sf).params@.len() + 1,
            opt_len(*v),
        ),
        final(sf).params@ == old(sf).params@ + text_params(opt_seq(*v)),
{
    match v {
        Some(b) => {
            let ps = to_text_params(b);
            sf.push_list(column, ps);
        },
        None => {
            assert(sf.text@ =~= old(sf).text@ + list_condition(
                column@,
                old(sf).params@.len() + 1,
                opt_len(*v),
            ));
            assert(sf.params@ =~= old(sf).params@ + text_params(opt_seq(*v)));
        },
    }
}

fn push_product_agent(sf: &mut SqlFilter, f: &ProductListFilter)
    requires
        old(sf).params@.len() == 0,
    ensures
        final(sf).text@ == old(sf).text@ + product_agent_part(*f),
        final(sf).params@ == product_agent_params(*f),
{
    let user_view = is_user_view_exec(&f.view);
    if text_eq(f.role.as_str(), "agent") {
        if user_view {
            sf.push_condition("p.creator_id", "!=", SqlParam::Int(f.user_id));
        } else {
            sf.push_condition("p.creator_id", "=", SqlParam::Int(f.user_id));
        }
        assert(sf.params@ =~= product_agent_params(*f));
    } else {
        assert(sf.text@ =~= old(sf).text@ + product_agent_part(*f));
        assert(sf.params@ =~= product_agent_params(*f));
    }
}

fn push_product_price(sf: &mut SqlFilter, f: &ProductListFilter)
    ensures
        final(sf).text@ == old(sf).text@ + product_price_part(*f),
        final(sf).params@ == old(sf).params@,
{
    match &f.price_bounds {
        Some((lo, hi)) => {
            sf.push_text(" and (p.price - (p.price * p.discount_percent / 100)) between ");
            sf.push_text(lo.as_str());
            sf.push_text(" and ");
            sf.push_text(hi.as_str());
        },
        None => {},
    }
    assert(sf.text@ =~= old(sf).text@ + product_price_part(*f));
}

fn push_opt_bool(sf: &mut SqlFilter, column: &str, v: Option<bool>)
    ensures
        final(sf).text@ == old(sf).text@ + opt_condition(
            column@,
            "="@,
            v is Some,
            old(sf).params@.len() + 1,
        ),
        final(sf).params@ == old(sf).params@ + opt_bool_param(v),
{
    match v {
        Some(x) => {
            sf.push_condition(column, "=", SqlParam::Bool(x));
            assert(sf.params@ =~= old(sf).params@ + opt_bool_param(v));
        },
        None => {
            assert(sf.text@ =~= old(sf).text@ + opt_condition(
                column@,
                "="@,
                v is Some,
                old(sf).params@.len() + 1,
            ));
            assert(sf.params@ =~= old(sf).params@ + opt_bool_param(v));
        },
    }
}

proof fn lemma_param_lens(f: ProductListFilter)
    ensures
        product_agent_params(f).len() == product_counts(f)[0],
        opt_int_param(f.shop_id).len() + product_counts(f)[0] == product_counts(f)[1],
        opt_int_param(f.category_id).len() + product_counts(f)[1] == product_counts(f)[2],
        int_params(opt_seq(f.brands)).len() + product_counts(f)[2] == product_counts(f)[3],
        text_params(opt_seq(f.models)).len() + product_counts(f)[3] == product_counts(f)[4],
        opt_bool_param(f.is_top_model).len() + product_counts(f)[4] == product_counts(f)[5],
{
}

/// The product list query for the given filters.
pub fn product_list_query(f: &ProductListFilter, demo: &DemoSettings) -> (q: ListQuery)
    ensures
        q.base_query@ == product_filter_text(*f, *demo),
        q.params@ == product_filter_params(*f),
        q.order_options@ == product_order(*f),
{
    proof {
        lemma_param_lens(*f);
    }
    let mut sf = SqlFilter::new(PRODUCTS_FROM);
    push_product_agent(&mut sf, f);
    push_opt_int(&mut sf, "p.shop_id", f.shop_id);
    push_opt_int(&mut sf, "p.category_id", f.category_id);
    push_opt_int_list(&mut sf, "p.brand_id", &f.brands);
    push_opt_text_list(&mut sf, "p.model", &f.models);
    push_product_price(&mut sf, f);
    push_opt_bool(&mut sf, "p.is_top_model", f.is_top_model);
    push_opt_int_list(&mut sf, "p.product_id", &f.products);
    let demo_flag = shows_demo_exec(f.platform.as_str(), f.version, f.user_id, demo, true);
    push_demo(&mut sf, "p.", demo_flag);
    let user_view = is_user_view_exec(&f.view);
    let order = if text_eq(f.role.as_str(), "user") || (text_eq(f.role.as_str(), "agent")
        && user_view) {
        string_from("p.level desc, p.model asc, p.created_at desc")
    } else {
        string_from("p.created_at desc")
    };
    ListQuery { base_query: sf.text, params: sf.params, order_options: order }
}

} // verus!

verus! {

// ---------------------------------------------------------------------------
// Shops and brands
// ---------------------------------------------------------------------------

/// The filters of the shop list.
pub struct ShopListFilter {
    pub platform: String,
    pub status: Option<String>,
    pub view: Option<String>,
    pub role: String,
    pub user_id: i32,
}

/// The `where` text of the shop list: agents see their own shops (or, in
/// the customer view, the approved shops of others); administrators may
/// filter by status; everyone else sees approved shops only; then the demo
/// condition.
pub open spec fn shop_filter_text(f: ShopListFilter, demo: DemoSettings) -> Seq<char> {
    "from shops where deleted_at is null"@ + (if f.role@ == "agent"@ {
        if is_user_view(f.view) {
            condition("creator_id"@, "!="@, 1) + " and status != 'Pending Approval'"@
        } else {
            condition("creator_id"@, "="@, 1)
        }
    } else if f.role@ == "admin"@ {
        opt_condition("status"@, "="@, f.status is Some, 1)
    } else {
        " and status != 'Pending Approval'"@
    }) + demo_condition(
        ""@,
        shows_demo(f.platform@, 0, f.user_id as int, demo, false),
    )
}

/// The parameters of the shop list.
pub open spec fn shop_filter_params(f: ShopListFilter) -> Seq<SqlParam> {
    if f.role@ == "agent"@ {
        seq![SqlParam::Int(f.user_id)]
    } else if f.role@ == "admin"@ {
        match f.status {
            Some(s) => seq![SqlParam::Text(s)],
            None => seq![],
        }
    } else {
        seq![]
    }
}

/// The ordering of the shop list.
pub open spec fn shop_order(f: ShopListFilter) -> Seq<char> {
    if f.role@ == "user"@ || (f.role@ == "agent"@ && is_user_view(f.view)) {
        "name asc, created_at desc"@
    } else {
        "created_at desc"@
    }
}

/// Customers see shops by name, then newest first: for the role "user", and
/// for an agent looking at the customer view, the shop list is ordered
/// "name asc, created_at desc"; for an agent on its own view, and for any
/// other role, newest first.
pub proof fn law_customer_shop_order(f: ShopListFilter)
    ensures
        f.role@ == "user"@ ==> shop_order(f) == "name asc, created_at desc"@,
        f.role@ == "agent"@ && f.view is Some && f.view->0@ == "user"@ ==> shop_order(f)
            == "name asc, created_at desc"@,
        f.role@ == "agent"@ && f.view is None ==> shop_order(f) == "created_at desc"@,
        f.role@ != "user"@ && f.role@ != "agent"@ ==> shop_order(f) == "created_at desc"@,
{
    reveal_strlit("user");
    reveal_strlit("agent");
    assert("user"@.len() != "agent"@.len());
}

/// The shop list query for the given filters.
pub fn shop_list_query(f: &ShopListFilter, demo: &DemoSettings) -> (q: ListQuery)
    ensures
        q.base_query@ == shop_filter_text(*f, *demo),
        q.params@ == shop_filter_params(*f),
        q.order_options@ == shop_order(*f),
{
    let mut sf = SqlFilter::new("from shops where deleted_at is null");
    let ghost t0 = sf.text@;
    let user_view = is_user_view_exec(&f.view);
    let agent = text_eq(f.role.as_str(), "agent");
    if agent {
        if user_view {
            sf.push_condition("creator_id", "!=", SqlParam::Int(f.user_id));
            sf.push_text(" and status != 'Pending Approval'");
        } else {
            sf.push_condition("creator_id", "=", SqlParam::Int(f.user_id));
        }
    } else if text_eq(f.role.as_str(), "admin") {
        match &f.status {
            Some(s) => sf.push_condition("status", "=", SqlParam::Text(s.clone())),
            None => {},
        }
    } else {
        sf.push_text(" and status != 'Pending Approval'");
    }
    let ghost t1 = sf.text@;
    assert(sf.params@ =~= shop_filter_params(*f));
    let demo_flag = shows_demo_exec(f.platform.as_str(), 0, f.user_id, demo, false);
    push_demo(&mut sf, "", demo_flag);
    assert(sf.text@ =~= shop_filter_text(*f, *demo));
    let order = if text_eq(f.role.as_str(), "user") || (agent && user_view) {
        string_from("name asc, created_at desc")
    } else {
        string_from("created_at desc")
    };
    ListQuery { base_query: sf.text, params: sf.params, order_options: order }
}

/// The brand list query: no parameters, the demo condition, by name.
pub fn brand_list_query(platform: &str, user_id: i32, version: i32, demo: &DemoSettings) -> (q:
    ListQuery)
    ensures
        q.base_query@ == "from brands where deleted_at is null"@ + demo_condition(
            ""@,
            shows_demo(platform@, version as int, user_id as int, *demo, true),
        ),
        q.params@.len() == 0,
        q.order_options@ == "name asc"@,
{
    let mut sf = SqlFilter::new("from brands where deleted_at is null");
    let demo_flag = shows_demo_exec(platform, version, user_id, demo, true);
    push_demo(&mut sf, "", demo_flag);
    ListQuery { base_query: sf.text, params: sf.params, order_options: string_from("name asc") }
}

// ---------------------------------------------------------------------------
// Orders and order items
// ---------------------------------------------------------------------------

/// The condition ` and <column> between $k and $(k+1)`.
pub open spec fn between_condition(column: Seq<char>, k: nat) -> Seq<char> {
    " and "@ + column + " between "@ + crate::sql::placeholder(k) + " and "@
        + crate::sql::placeholder(k + 1)
}

fn push_day_range(sf: &mut SqlFilter, column: &str, from: CalendarDay, to: CalendarDay)
    ensures
        final(sf).params@ == old(sf).params@.push(SqlParam::Day(from)).push(SqlParam::Day(to)),
        final(sf).text@ == old(sf).text@ + between_condition(column@, old(sf).params@.len() + 1),
{
    sf.params.push(SqlParam::Day(from));
    sf.params.push(SqlParam::Day(to));
    let k2 = sf.params.len();
    let k1 = k2 - 1;
    let p1 = crate::sql::placeholder_text_of(k1);
    let p2 = crate::sql::placeholder_text_of(k2);
    sf.text.append(" and ");
    sf.text.append(column);
    sf.text.append(" between ");
    sf.text.append(p1.as_str());
    sf.text.append(" and ");
    sf.text.append(p2.as_str());
}

/// The joins and fixed conditions of the order list.
pub const ORDERS_FROM: &'static str = "from orders o inner join users u on o.user_id = u.user_id inner join order_addresses a on o.shipping_address_id = a.address_id left join insurance_options i on i.order_id = o.order_id left join commission_rules r on r.rule_id = i.rule_id inner join currencies cur on cur.currency_id = o.currency_id where o.deleted_at is null and u.deleted_at is null and a.deleted_at is null and i.deleted_at is null and r.deleted_at is null and cur.deleted_at is null";

/// The condition that restricts an agent to orders holding its products.
pub open spec fn agent_orders_condition(k: nat) -> Seq<char> {
    " and o.order_id in (select oi.order_id from order_items oi inner join products p on p.product_id = oi.product_id where p.creator_id = "@
        + crate::sql::placeholder(k) + " and p.deleted_at is null and oi.deleted_at is null)"@
}

/// The filters of the order list. The amount bounds are the decimal
/// renderings of the two amounts, when both were given.
pub struct OrderListFilter {
    pub from_date: Option<CalendarDay>,
    pub to_date: Option<CalendarDay>,
    pub amount_bounds: Option<(String, String)>,
    pub payment_type: Option<String>,
    pub user_id: i32,
    pub role: String,
}

/// Both ends of a day range were given.
pub open spec fn has_day_range(from: Option<CalendarDay>, to: Option<CalendarDay>) -> bool {
    from is Some && to is Some
}

/// The number of parameters the role condition of the order list binds.
pub open spec fn order_role_count(f: OrderListFilter) -> nat {
    if f.role@ == "user"@ || f.role@ == "agent"@ {
        1
    } else {
        0
    }
}

/// The `where` text of the order list: customers see their orders, agents
/// the orders holding their products; then the day range, the amount range
/// and the payment type, each when given.
pub open spec fn order_filter_text(f: OrderListFilter) -> Seq<char> {
    let n1 = order_role_count(f);
    let n2 = n1 + if has_day_range(f.from_date, f.to_date) { 2nat } else { 0nat };
    ORDERS_FROM@ + (if f.role@ == "user"@ {
        condition("o.user_id"@, "="@, 1)
    } else if f.role@ == "agent"@ {
        agent_orders_condition(1)
    } else {
        seq![]
    }) + (if has_day_range(f.from_date, f.to_date) {
        between_condition("o.created_at::date"@, n1 + 1)
    } else {
        seq![]
    }) + (match f.amount_bounds {
        Some((lo, hi)) => " and o.order_total between "@ + lo@ + " and "@ + hi@,
        None => seq![],
    }) + opt_condition("o.payment_type"@, "="@, f.payment_type is Some, n2 + 1)
}

/// The parameters of the order list.
pub open spec fn order_filter_params(f: OrderListFilter) -> Seq<SqlParam> {
    (if order_role_count(f) == 1 {
        seq![SqlParam::Int(f.user_id)]
    } else {
        seq![]
    }) + (if has_day_range(f.from_date, f.to_date) {
        seq![SqlParam::Day(f.from_date->0), SqlParam::Day(f.to_date->0)]
    } else {
        seq![]
    }) + (match f.payment_type {
        Some(p) => seq![SqlParam::Text(p)],
        None => seq![],
    })
}

fn push_order_role(sf: &mut SqlFilter, f: &OrderListFilter)
    requires
        old(sf).params@.len() == 0,
    ensures
        final(sf).text@ == old(sf).text@ + (if f.role@ == "user"@ {
            condition("o.user_id"@, "="@, 1)
        } else if f.role@ == "agent"@ {
            agent_orders_condition(1)
        } else {
            seq![]
        }),
        final(sf).params@ == (if order_role_count(*f) == 1 {
            seq![SqlParam::Int(f.user_id)]
        } else {
            seq![]
        }),
{
    if text_eq(f.role.as_str(), "user") {
        sf.push_condition("o.user_id", "=", SqlParam::Int(f.user_id));
        assert(sf.params@ =~= seq![SqlParam::Int(f.user_id)]);
    } else if text_eq(f.role.as_str(), "agent") {
        sf.params.push(SqlParam::Int(f.user_id));
        let k = sf.params.len();
        let ph = crate::sql::placeholder_text_of(k);
        sf.text.append(
            " and o.order_id in (select oi.order_id from order_items oi inner join products p on p.product_id = oi.product_id where p.creator_id = ",
        );
        sf.text.append(ph.as_str());
        sf.text.append(" and p.deleted_at is null and oi.deleted_at is null)");
        assert(sf.params@ =~= seq![SqlParam::Int(f.user_id)]);
        assert(sf.text@ =~= old(sf).text@ + agent_orders_condition(1));
    } else {
        assert(sf.text@ =~= old(sf).text@ + seq![]);
        assert(sf.params@ =~= seq![]);
    }
}

fn push_opt_day_range(
    sf: &mut SqlFilter,
    column: &str,
    from: &Option<CalendarDay>,
    to: &Option<CalendarDay>,
)
    ensures
        final(sf).text@ == old(sf).text@ + (if has_day_range(*from, *to) {
            between_condition(column@, old(sf).params@.len() + 1)
        } else {
            seq![]
        }),
        final(sf).params@ == old(sf).params@ + (if has_day_range(*from, *to) {
            seq![SqlParam::Day(from->0), SqlParam::Day(to->0)]
        } else {
            seq![]
        }),
{
    match (from, to) {
        (Some(a), Some(b)) => {
            let a2 = CalendarDay { year: a.year, month: a.month, day: a.day };
            let b2 = CalendarDay { year: b.year, month: b.month, day: b.day };
            push_day_range(sf, column, a2, b2);
            assert(sf.params@ =~= old(sf).params@ + seq![
                SqlParam::Day(from->0),
                SqlParam::Day(to->0),
            ]);
        },
        _ => {
            assert(sf.text@ =~= old(sf).text@ + seq![]);
            assert(sf.params@ =~= old(sf).params@ + seq![]);
        },
    }
}

fn push_opt_text(sf: &mut SqlFilter, column: &str, v: &Option<String>)
    ensures
        final(sf).text@ == old(sf).text@ + opt_condition(
            column@,
            "="@,
            v is Some,
            old(sf).params@.len() + 1,
        ),
        final(sf).params@ == old(sf).params@ + (match *v {
            Some(p) => seq![SqlParam::Text(p)],
            None => seq![],
        }),
{
    match v {
        Some(p) => {
            sf.push_condition(column, "=", SqlParam::Text(p.clone()));
            assert(sf.params@ =~= old(sf).params@ + seq![SqlParam::Text(*p)]);
        },
        None => {
            assert(sf.text@ =~= old(sf).text@ + seq![]);
            assert(sf.params@ =~= old(sf).params@ + seq![]);
        },
    }
}

fn push_amount_bounds(sf: &mut SqlFilter, bounds: &Option<(String, String)>)
    ensures
        final(sf).text@ == old(sf).text@ + (match *bounds {
            Some((lo, hi)) => " and o.order_total between "@ + lo@ + " and "@ + hi@,
            None => seq![],
        }),
        final(sf).params@ == old(sf).params@,
{
    match bounds {
        Some((lo, hi)) => {
            sf.push_text(" and o.order_total between ");
            sf.push_text(lo.as_str());
            sf.push_text(" and ");
            sf.push_text(hi.as_str());
            assert(sf.text@ =~= old(sf).text@ + (" and o.order_total between "@ + lo@ + " and "@
                + hi@));
        },
        None => {
            assert(sf.text@ =~= old(sf).text@ + seq![]);
        },
    }
}

/// The order list query for the given filters, newest first.
pub fn order_list_query(f: &OrderListFilter) -> (q: ListQuery)
    ensures
        q.base_query@ == order_filter_text(*f),
        q.params@ == order_filter_params(*f),
        q.order_options@ == "o.created_at desc"@,
{
    let mut sf = SqlFilter::new(ORDERS_FROM);
    push_order_role(&mut sf, f);
    let ghost n1 = order_role_count(*f);
    assert(sf.params@.len() == n1);
    push_opt_day_range(&mut sf, "o.created_at::date", &f.from_date, &f.to_date);
    push_amount_bounds(&mut sf, &f.amount_bounds);
    assert(sf.params@.len() == n1 + if has_day_range(f.from_date, f.to_date) {
        2nat
    } else {
        0nat
    });
    push_opt_text(&mut sf, "o.payment_type", &f.payment_type);
    assert(sf.params@ == order_filter_params(*f));
    assert(sf.text@ == order_filter_text(*f));
    ListQuery {
        base_query: sf.text,
        params: sf.params,
        order_options: string_from("o.created_at desc"),
    }
}

/// The joins and fixed conditions of the order item list.
pub const ORDER_ITEMS_FROM: &'static str = "from order_items oi inner join orders o on oi.order_id = o.order_id inner join products p on p.product_id = oi.product_id inner join brands b on b.brand_id = p.brand_id inner join currencies cur on cur.currency_id = oi.currency_id where oi.deleted_at is null and o.deleted_at is null and p.deleted_at is null and cur.deleted_at is null";

/// The `where` text of the order item list: customers see the items of
/// their orders; then the order and the day range, when given.
pub open spec fn order_item_filter_text(
    role: Seq<char>,
    order_id: Option<i32>,
    from: Option<CalendarDay>,
    to: Option<CalendarDay>,
) -> Seq<char> {
    let n1: nat = if role == "user"@ { 1 } else { 0 };
    let n2: nat = n1 + if order_id is Some { 1nat } else { 0nat };
    ORDER_ITEMS_FROM@ + opt_condition("o.user_id"@, "="@, role == "user"@, 1) + opt_condition(
        "oi.order_id"@,
        "="@,
        order_id is Some,
        n1 + 1,
    ) + (if has_day_range(from, to) {
        between_condition("oi.created_at::date"@, n2 + 1)
    } else {
        seq![]
    })
}

/// The parameters of the order item list.
pub open spec fn order_item_filter_params(
    role: Seq<char>,
    user_id: i32,
    order_id: Option<i32>,
    from: Option<CalendarDay>,
    to: Option<CalendarDay>,
) -> Seq<SqlParam> {
    (if role == "user"@ {
        seq![SqlParam::Int(user_id)]
    } else {
        seq![]
    }) + opt_int_param(order_id) + (if has_day_range(from, to) {
        seq![SqlParam::Day(from->0), SqlParam::Day(to->0)]
    } else {
        seq![]
    })
}

/// The order item list query, by brand and model.
pub fn order_item_list_query(
    role: &str,
    user_id: i32,
    order_id: Option<i32>,
    from: Option<CalendarDay>,
    to: Option<CalendarDay>,
) -> (q: ListQuery)
    ensures
        q.base_query@ == order_item_filter_text(role@, order_id, from, to),
        q.params@ == order_item_filter_params(role@, user_id, order_id, from, to),
        q.order_options@ == "b.name, p.model"@,
{
    let ghost from0 = from;
    let ghost to0 = to;
    let mut sf = SqlFilter::new(ORDER_ITEMS_FROM);
    let is_user = text_eq(role, "user");
    if is_user {
        sf.push_condition("o.user_id", "=", SqlParam::Int(user_id));
    }
    let ghost t1 = sf.text@;
    assert(t1 =~= ORDER_ITEMS_FROM@ + opt_condition("o.user_id"@, "="@, role@ == "user"@, 1));
    push_opt_int(&mut sf, "oi.order_id", order_id);
    let ghost t2 = sf.text@;
    match (from, to) {
        (Some(a), Some(b)) => {
            push_day_range(&mut sf, "oi.created_at::date", a, b);
        },
        _ => {},
    }
    assert(sf.params@ =~= order_item_filter_params(role@, user_id, order_id, from0, to0));
    assert(sf.text@ =~= order_item_filter_text(role@, order_id, from0, to0));
    ListQuery {
        base_query: sf.text,
        params: sf.params,
        order_options: string_from("b.name, p.model"),
    }
}

// ---------------------------------------------------------------------------
// Discount rules, notifications, chats, insurance rules, registration fees
// ---------------------------------------------------------------------------

/// The discount rule list query: administrators may filter by shop, others
/// see the rules they created; newest first.
pub fn discount_rule_list_query(shop_id: Option<i32>, creator_id: i32, role: &str) -> (q:
    ListQuery)
    ensures
        role@ == "admin"@ ==> q.base_query@
            == "from discount_rules dr join shops s on dr.shop_id = s.shop_id where dr.deleted_at is null"@
            + opt_condition("dr.shop_id"@, "="@, shop_id is Some, 1) && q.params@ == opt_int_param(
            shop_id,
        ),
        role@ != "admin"@ ==> q.base_query@
            == "from discount_rules dr join shops s on dr.shop_id = s.shop_id where dr.deleted_at is null"@
            + condition("dr.creator_id"@, "="@, 1) && q.params@ == seq![SqlParam::Int(creator_id)],
        q.order_options@ == "created_at desc"@,
{
    let mut sf = SqlFilter::new(
        "from discount_rules dr join shops s on dr.shop_id = s.shop_id where dr.deleted_at is null",
    );
    if text_eq(role, "admin") {
        push_opt_int(&mut sf, "dr.shop_id", shop_id);
        assert(sf.params@ =~= opt_int_param(shop_id));
    } else {
        sf.push_condition("dr.creator_id", "=", SqlParam::Int(creator_id));
        assert(sf.params@ =~= seq![SqlParam::Int(creator_id)]);
    }
    ListQuery {
        base_query: sf.text,
        params: sf.params,
        order_options: string_from("created_at desc"),
    }
}

/// The notification list query of a user: its notifications, optionally
/// restricted to the given statuses; newest first.
pub fn notification_list_query(user_id: i32, status_list: &Option<Vec<String>>) -> (q: ListQuery)
    ensures
        q.base_query@
            == "from notifications n inner join users u on n.user_id = u.user_id where n.deleted_at is null and u.deleted_at is null and n.user_id = $1"@
            + list_condition("n.status"@, 2, opt_len(*status_list)),
        q.params@ == seq![SqlParam::Int(user_id)] + text_params(opt_seq(*status_list)),
        q.order_options@ == "n.created_at desc"@,
{
    let mut sf = SqlFilter::new(
        "from notifications n inner join users u on n.user_id = u.user_id where n.deleted_at is null and u.deleted_at is null and n.user_id = $1",
    );
    sf.params.push(SqlParam::Int(user_id));
    push_opt_text_list(&mut sf, "n.status", status_list);
    ListQuery {
        base_query: sf.text,
        params: sf.params,
        order_options: string_from("n.created_at desc"),
    }
}

/// The chat session list query: everyone but administrators sees only the
/// chats it takes part in; latest message first.
pub fn chat_session_list_query(user_id: i32, role: &str) -> (q: ListQuery)
    ensures
        role@ == "admin"@ ==> q.base_query@ == chat_sessions_from() && q.params@.len() == 0,
        role@ != "admin"@ ==> q.base_query@ == chat_sessions_from()
            + " and c.chat_id in (select chat_id from chat_participants where user_id = $1)"@
            && q.params@ == seq![SqlParam::Int(user_id)],
        q.order_options@ == "m.created_at desc"@,
{
    proof {
        reveal_strlit("$1");
        reveal_strlit("$");
        reveal_strlit(")");
        reveal_strlit(" and c.chat_id in (select chat_id from chat_participants where user_id = $1)");
        reveal_strlit(" and c.chat_id in (select chat_id from chat_participants where user_id = ");
    }
    let mut sf = SqlFilter::new(CHAT_SESSIONS_FROM);
    if !text_eq(role, "admin") {
        sf.params.push(SqlParam::Int(user_id));
        let ph = crate::sql::placeholder_text_of(1);
        sf.push_text(" and c.chat_id in (select chat_id from chat_participants where user_id = ");
        sf.push_text(ph.as_str());
        sf.push_text(")");
        proof {
            crate::numeric::lemma_decimal(1);
            assert(crate::numeric::decimal(1) =~= seq!['1']);
        }
        assert(sf.text@ =~= chat_sessions_from()
            + " and c.chat_id in (select chat_id from chat_participants where user_id = $1)"@);
        assert(sf.params@ =~= seq![SqlParam::Int(user_id)]);
    }
    ListQuery {
        base_query: sf.text,
        params: sf.params,
        order_options: string_from("m.created_at desc"),
    }
}

/// The joins of the chat session list: each chat with its latest message
/// and that message's sender.
pub const CHAT_SESSIONS_FROM: &'static str = "from chats c join (select message_text, created_at, sender_id, chat_id, status from messages where deleted_at is null order by created_at desc limit 1) as m on m.chat_id = c.chat_id join users u on m.sender_id = u.user_id where c.deleted_at is null and u.deleted_at is null";

/// The text of `CHAT_SESSIONS_FROM`.
pub open spec fn chat_sessions_from() -> Seq<char> {
    CHAT_SESSIONS_FROM@
}

/// The insurance rule list query: rules whose order amount range holds the
/// given amount (its decimal rendering), when given; outside the
/// administration only the rules in effect today; by creation for
/// administrators, by description otherwise.
pub fn insurance_rule_list_query(amount: &Option<String>, role: &str) -> (q: ListQuery)
    ensures
        q.base_query@ == "from commission_rules where deleted_at is null"@ + (match *amount {
            Some(a) => " and min_order_amount <= "@ + a@ + " and max_order_amount >= "@ + a@,
            None => seq![],
        }) + (if role@ != "admin"@ {
            " and now()::date between effective_from::date AND effective_to::date"@
        } else {
            seq![]
        }),
        q.params@.len() == 0,
        q.order_options@ == (if role@ == "admin"@ {
            "created_at desc"@
        } else {
            "description"@
        }),
{
    let mut sf = SqlFilter::new("from commission_rules where deleted_at is null");
    let ghost t0 = sf.text@;
    match amount {
        Some(a) => {
            sf.push_text(" and min_order_amount <= ");
            sf.push_text(a.as_str());
            sf.push_text(" and max_order_amount >= ");
            sf.push_text(a.as_str());
        },
        None => {},
    }
    let ghost t1 = sf.text@;
    let admin = text_eq(role, "admin");
    if !admin {
        sf.push_text(" and now()::date between effective_from::date AND effective_to::date");
    }
    assert(sf.text@ =~= "from commission_rules where deleted_at is null"@ + (match *amount {
        Some(a) => " and min_order_amount <= "@ + a@ + " and max_order_amount >= "@ + a@,
        None => seq![],
    }) + (if role@ != "admin"@ {
        " and now()::date between effective_from::date AND effective_to::date"@
    } else {
        seq![]
    }));
    let order = if admin {
        string_from("created_at desc")
    } else {
        string_from("description")
    };
    ListQuery { base_query: sf.text, params: sf.params, order_options: order }
}

/// The ordering of the seller registration fee list: by creation for
/// administrators, by description otherwise.
pub fn registration_fee_order(role: &str) -> (r: String)
    ensures
        r@ == (if role@ == "admin"@ {
            "f.created_at desc"@
        } else {
            "f.description asc"@
        }),
{
    if text_eq(role, "admin") {
        string_from("f.created_at desc")
    } else {
        string_from("f.description asc")
    }
}


/// The app version a shop list is asked for: its dotted text with the dots
/// removed, read as a number (`1.2.3` is `123`); `0` where none is given;
/// `None` where the text is not a number.
pub fn app_version(version: Option<&str>) -> (r: Option<i32>)
    ensures
        version is None ==> r == Some(0i32),
        version matches Some(v) ==> (match parse_i32_spec(replaced(v@, "."@, ""@)) {
            Some(n) => r == Some(n as i32),
            None => r is None,
        }),
{
    proof {
        reveal_strlit(".");
    }
    match version {
        None => Some(0),
        Some(v) => {
            let digits = replace_all(v, ".", "");
            parse_i32(digits.as_str())
        },
    }
}

/// The platform a list is asked for, empty where none is given.
pub fn platform_or_empty(platform: Option<&str>) -> (r: String)
    ensures
        r@ == (match platform {
            Some(p) => p@,
            None => ""@,
        }),
{
    match platform {
        Some(p) => string_from(p),
        None => string_from(""),
    }
}

} // verus!
