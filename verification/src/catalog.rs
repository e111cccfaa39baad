//! The catalogue: the checks on products, the column values a product is
//! stored with, who owns a new product, how a change of discount is
//! attributed, and the rules on shops.

use vstd::prelude::*;
use crate::response::{answers, bad_request, reply, ApiResponse};
use crate::text::{replace_all, replaced, string_from, text_eq};
use crate::validation::{checked, refuse, shop_refusal, validate_shop};
use crate::requests::ShopRequest;
use crate::auth::require_admin_or_agent;
use crate::text::texts;

verus! {

// ---------------------------------------------------------------------------
// Products
// ---------------------------------------------------------------------------

/// The descriptive texts of a product.
pub struct ProductDetails {
    pub model: String,
    pub description: String,
    pub color: String,
    pub strap_material: String,
    pub strap_color: String,
    pub case_material: String,
    pub dial_color: String,
    pub movement_type: String,
    pub water_resistance: String,
    pub warranty_period: String,
}

/// Why the texts of a product are refused, if they are: the first empty
/// one among model, description, color, strap material, strap color, case
/// material, dial color, movement type, water resistance and warranty
/// period.
pub open spec fn product_refusal(d: ProductDetails) -> Option<(u16, Seq<char>)> {
    if d.model@.len() == 0 {
        refuse("Model must not be empty!"@)
    } else if d.description@.len() == 0 {
        refuse("Description must not be empty!"@)
    } else if d.color@.len() == 0 {
        refuse("Color must not be empty!"@)
    } else if d.strap_material@.len() == 0 {
        refuse("Strap Material must not be empty!"@)
    } else if d.strap_color@.len() == 0 {
        refuse("Strap Color must not be empty!"@)
    } else if d.case_material@.len() == 0 {
        refuse("Case Material must not be empty!"@)
    } else if d.dial_color@.len() == 0 {
        refuse("Dial Color must not be empty!"@)
    } else if d.movement_type@.len() == 0 {
        refuse("Movement Type must not be empty!"@)
    } else if d.water_resistance@.len() == 0 {
        refuse("Water Resistance must not be empty!"@)
    } else if d.warranty_period@.len() == 0 {
        refuse("Warranty Period must not be empty!"@)
    } else {
        None
    }
}

/// A product is accepted exactly when none of its ten required texts is
/// empty: model, description, color, strap material, strap color, case
/// material, dial color, movement type, water resistance and warranty
/// period. Otherwise it is refused with `400`, naming the first empty one in
/// that order ("Case Material must not be empty!" for an empty case material
/// after five filled texts).
pub proof fn law_product_texts_required(d: ProductDetails)
    ensures
        product_refusal(d) is None <==> (d.model@.len() > 0 && d.description@.len() > 0
            && d.color@.len() > 0 && d.strap_material@.len() > 0 && d.strap_color@.len() > 0
            && d.case_material@.len() > 0 && d.dial_color@.len() > 0 && d.movement_type@.len() > 0
            && d.water_resistance@.len() > 0 && d.warranty_period@.len() > 0),
        d.model@.len() == 0 ==> product_refusal(d) == Some((400u16, "Model must not be empty!"@)),
        d.model@.len() > 0 && d.description@.len() == 0 ==> product_refusal(d) == Some((400u16, "Description must not be empty!"@)),
        d.model@.len() > 0 && d.description@.len() > 0 && d.color@.len() == 0 ==> product_refusal(d) == Some((400u16, "Color must not be empty!"@)),
        d.model@.len() > 0 && d.description@.len() > 0 && d.color@.len() > 0 && d.strap_material@.len() == 0 ==> product_refusal(d) == Some((400u16, "Strap Material must not be empty!"@)),
        d.model@.len() > 0 && d.description@.len() > 0 && d.color@.len() > 0 && d.strap_material@.len() > 0 && d.strap_color@.len() == 0 ==> product_refusal(d) == Some((400u16, "Strap Color must not be empty!"@)),
        d.model@.len() > 0 && d.description@.len() > 0 && d.color@.len() > 0 && d.strap_material@.len() > 0 && d.strap_color@.len() > 0 && d.case_material@.len() == 0 ==> product_refusal(d) == Some((400u16, "Case Material must not be empty!"@)),
        d.model@.len() > 0 && d.description@.len() > 0 && d.color@.len() > 0 && d.strap_material@.len() > 0 && d.strap_color@.len() > 0 && d.case_material@.len() > 0 && d.dial_color@.len() == 0 ==> product_refusal(d) == Some((400u16, "Dial Color must not be empty!"@)),
        d.model@.len() > 0 && d.description@.len() > 0 && d.color@.len() > 0 && d.strap_material@.len() > 0 && d.strap_color@.len() > 0 && d.case_material@.len() > 0 && d.dial_color@.len() > 0 && d.movement_type@.len() == 0 ==> product_refusal(d) == Some((400u16, "Movement Type must not be empty!"@)),
        d.model@.len() > 0 && d.description@.len() > 0 && d.color@.len() > 0 && d.strap_material@.len() > 0 && d.strap_color@.len() > 0 && d.case_material@.len() > 0 && d.dial_color@.len() > 0 && d.movement_type@.len() > 0 && d.water_resistance@.len() == 0 ==> product_refusal(d) == Some((400u16, "Water Resistance must not be empty!"@)),
        d.model@.len() > 0 && d.description@.len() > 0 && d.color@.len() > 0 && d.strap_material@.len() > 0 && d.strap_color@.len() > 0 && d.case_material@.len() > 0 && d.dial_color@.len() > 0 && d.movement_type@.len() > 0 && d.water_resistance@.len() > 0 && d.warranty_period@.len() == 0 ==> product_refusal(d) == Some((400u16, "Warranty Period must not be empty!"@)),
{
}

/// Checks the texts of a product.
pub fn validate_product(d: &ProductDetails) -> (r: Result<(), ApiResponse>)
    ensures
        checked(r, product_refusal(*d)),
{
    if d.model.as_str().is_empty() {
        return Err(bad_request("Model must not be empty!"));
    }
    if d.description.as_str().is_empty() {
        return Err(bad_request("Description must not be empty!"));
    }
    if d.color.as_str().is_empty() {
        return Err(bad_request("Color must not be empty!"));
    }
    if d.strap_material.as_str().is_empty() {
        return Err(bad_request("Strap Material must not be empty!"));
    }
    if d.strap_color.as_str().is_empty() {
        return Err(bad_request("Strap Color must not be empty!"));
    }
    if d.case_material.as_str().is_empty() {
        return Err(bad_request("Case Material must not be empty!"));
    }
    if d.dial_color.as_str().is_empty() {
        return Err(bad_request("Dial Color must not be empty!"));
    }
    if d.movement_type.as_str().is_empty() {
        return Err(bad_request("Movement Type must not be empty!"));
    }
    if d.water_resistance.as_str().is_empty() {
        return Err(bad_request("Water Resistance must not be empty!"));
    }
    if d.warranty_period.as_str().is_empty() {
        return Err(bad_request("Warranty Period must not be empty!"));
    }
    Ok(())
}

/// The currency of a product: the given one, otherwise the default one
/// (`default_currency` is what its lookup gave, `None` when it failed);
/// currency `0` or none at all is answered with `500`.
pub fn product_currency(given: Option<i32>, default_currency: Option<i32>) -> (r: Result<
    i32,
    ApiResponse,
>)
    ensures
        ({
            let c = match given {
                Some(c) => c,
                None => match default_currency {
                    Some(d) => d,
                    None => 0,
                },
            };
            if c == 0 {
                r matches Err(e) && answers(e, 500, "Something went wrong with currency!"@)
            } else {
                r == Ok::<i32, ApiResponse>(c)
            }
        }),
{
    let c = match given {
        Some(c) => c,
        None => match default_currency {
            Some(d) => d,
            None => 0,
        },
    };
    if c == 0 {
        return Err(reply(500, "Something went wrong with currency!"));
    }
    Ok(c)
}

/// A product must name an existing shop.
pub fn check_product_shop(found: bool) -> (r: Result<(), ApiResponse>)
    ensures
        checked(
            r,
            if found {
                None
            } else {
                refuse(
                    "The shop ID provided does not exist. Please provide a valid shop ID to add a product!"@,
                )
            },
        ),
{
    if !found {
        return Err(
            bad_request(
                "The shop ID provided does not exist. Please provide a valid shop ID to add a product!",
            ),
        );
    }
    Ok(())
}

/// A product must name an existing category.
pub fn check_product_category(found: bool) -> (r: Result<(), ApiResponse>)
    ensures
        checked(
            r,
            if found {
                None
            } else {
                refuse(
                    "The category ID provided does not exist. Please provide a valid category ID to add a product!"@,
                )
            },
        ),
{
    if !found {
        return Err(
            bad_request(
                "The category ID provided does not exist. Please provide a valid category ID to add a product!",
            ),
        );
    }
    Ok(())
}

/// Who owns a new product: when an administrator adds it, the creator of
/// its shop (when the shop has one); otherwise the caller.
pub fn product_creator(role: &str, caller_id: i32, shop_creator: Option<i32>) -> (r: i32)
    ensures
        r == if role@ == "admin"@ && shop_creator is Some {
            shop_creator->0
        } else {
            caller_id
        },
{
    if text_eq(role, "admin") {
        match shop_creator {
            Some(id) => id,
            None => caller_id,
        }
    } else {
        caller_id
    }
}

/// The optional attributes of a product as sent (the prices and the
/// discount percentage are kept apart, as numbers).
pub struct ProductOptions {
    pub condition: Option<String>,
    pub warranty_type_id: Option<i32>,
    pub dial_glass_type_id: Option<i32>,
    pub other_accessories_type_id: Option<i32>,
    pub gender_id: Option<i32>,
    pub waiting_time: Option<String>,
    pub case_diameter: Option<String>,
    pub case_depth: Option<String>,
    pub case_width: Option<String>,
    pub is_preorder: Option<bool>,
    pub movement_caliber: Option<String>,
    pub movement_country: Option<String>,
    pub discount_expiration: Option<String>,
    pub discount_reason: Option<String>,
    pub discount_type: Option<String>,
    pub level: Option<i32>,
}

/// The values a product is stored with for its optional attributes.
pub struct ProductColumns {
    pub condition: String,
    pub warranty_type_id: i32,
    pub dial_glass_type_id: i32,
    pub other_accessories_type_id: i32,
    pub gender_id: i32,
    pub waiting_time: String,
    pub case_diameter: String,
    pub case_depth: String,
    pub case_width: String,
    pub is_preorder: bool,
    pub movement_caliber: String,
    pub movement_country: String,
    /// The SQL text of the discount expiry: the date quoted, or `null`.
    pub discount_expiration: String,
    pub discount_reason: String,
    pub discount_type: String,
    pub level: i32,
}

/// The text of an optional attribute, empty when absent.
pub open spec fn text_or_empty(v: Option<String>) -> Seq<char> {
    match v {
        Some(s) => s@,
        None => seq![],
    }
}

/// The identifier of an optional type, `1` when absent.
pub open spec fn id_or_one(v: Option<i32>) -> i32 {
    match v {
        Some(x) => x,
        None => 1,
    }
}

/// The SQL text of an optional expiry date: `'<date>'`, or `null`.
pub open spec fn expiry_sql(v: Option<String>) -> Seq<char> {
    match v {
        Some(d) => "'"@ + d@ + "'"@,
        None => "null"@,
    }
}

/// The discount type, by default a percentage.
pub open spec fn discount_type_or_default(v: Option<String>) -> Seq<char> {
    match v {
        Some(s) => s@,
        None => "Discount by Specific Percentage"@,
    }
}

fn opt_text(v: &Option<String>) -> (r: String)
    ensures
        r@ == text_or_empty(*v),
{
    match v {
        Some(s) => string_from(s.as_str()),
        None => String::new(),
    }
}

fn opt_id(v: Option<i32>) -> (r: i32)
    ensures
        r == id_or_one(v),
{
    match v {
        Some(x) => x,
        None => 1,
    }
}

/// The stored values of the optional attributes of a product. The level is
/// the one sent only when an administrator sends it; otherwise it is
/// `keep_level` (`0` for a new product, the current level for an update).
pub fn product_columns(o: &ProductOptions, role: &str, keep_level: i32) -> (r: ProductColumns)
    ensures
        r.condition@ == text_or_empty(o.condition),
        r.warranty_type_id == id_or_one(o.warranty_type_id),
        r.dial_glass_type_id == id_or_one(o.dial_glass_type_id),
        r.other_accessories_type_id == id_or_one(o.other_accessories_type_id),
        r.gender_id == id_or_one(o.gender_id),
        r.waiting_time@ == text_or_empty(o.waiting_time),
        r.case_diameter@ == text_or_empty(o.case_diameter),
        r.case_depth@ == text_or_empty(o.case_depth),
        r.case_width@ == text_or_empty(o.case_width),
        r.is_preorder == match o.is_preorder {
            Some(b) => b,
            None => false,
        },
        r.movement_caliber@ == text_or_empty(o.movement_caliber),
        r.movement_country@ == text_or_empty(o.movement_country),
        r.discount_expiration@ == expiry_sql(o.discount_expiration),
        r.discount_reason@ == text_or_empty(o.discount_reason),
        r.discount_type@ == discount_type_or_default(o.discount_type),
        r.level == match o.level {
            Some(l) => if role@ == "admin"@ {
                l
            } else {
                keep_level
            },
            None => keep_level,
        },
{
    let expiry = match &o.discount_expiration {
        Some(d) => {
            let mut e = string_from("'");
            e.append(d.as_str());
            e.append("'");
            e
        },
        None => string_from("null"),
    };
    let dtype = match &o.discount_type {
        Some(t) => string_from(t.as_str()),
        None => string_from("Discount by Specific Percentage"),
    };
    let level = match o.level {
        Some(l) => if text_eq(role, "admin") {
            l
        } else {
            keep_level
        },
        None => keep_level,
    };
    ProductColumns {
        condition: opt_text(&o.condition),
        warranty_type_id: opt_id(o.warranty_type_id),
        dial_glass_type_id: opt_id(o.dial_glass_type_id),
        other_accessories_type_id: opt_id(o.other_accessories_type_id),
        gender_id: opt_id(o.gender_id),
        waiting_time: opt_text(&o.waiting_time),
        case_diameter: opt_text(&o.case_diameter),
        case_depth: opt_text(&o.case_depth),
        case_width: opt_text(&o.case_width),
        is_preorder: match o.is_preorder {
            Some(b) => b,
            None => false,
        },
        movement_caliber: opt_text(&o.movement_caliber),
        movement_country: opt_text(&o.movement_country),
        discount_expiration: expiry,
        discount_reason: opt_text(&o.discount_reason),
        discount_type: dtype,
        level,
    }
}

/// Who a new product's discount is attributed to: nobody (`none`) for no
/// discount, the product itself otherwise.
pub fn new_discount_attribution(discount_type: &str) -> (r: String)
    ensures
        r@ == if discount_type@ == "No Discount"@ {
            "none"@
        } else {
            "product"@
        },
{
    if text_eq(discount_type, "No Discount") {
        string_from("none")
    } else {
        string_from("product")
    }
}

/// What the product held before an update, as far as the discount goes.
pub struct StoredDiscount {
    /// The expiry day as `YYYY-MM-DD`, when there is one.
    pub expiration_day: Option<String>,
    pub reason: String,
    pub discount_type: String,
    pub updated_by: String,
}

/// The discount expiry is unchanged: neither the old nor the new one is
/// set, or the old day equals the new SQL text with its quotes removed.
pub open spec fn same_expiry(old: Option<String>, new_expiry: Option<String>) -> bool {
    (old is None && new_expiry is None) || (match old {
        Some(d) => d@,
        None => "null"@,
    }) == replaced(expiry_sql(new_expiry), "'"@, ""@)
}

/// Who an updated product's discount is attributed to: nobody for no
/// discount; the previous attribution when nothing about the discount
/// changed (same percentage and, for a fixed amount kept as such, the same
/// amount, as compared by the caller; same reason, type and expiry);
/// the product itself otherwise.
pub open spec fn updated_attribution(
    old: StoredDiscount,
    new_type: Seq<char>,
    new_reason: Seq<char>,
    new_expiry: Option<String>,
    same_percent: bool,
    same_amount: bool,
) -> Seq<char> {
    let same_price = if old.discount_type@ == new_type && new_type
        == "Discount by Specific Amount"@ {
        same_amount
    } else {
        true
    };
    if new_type == "No Discount"@ {
        "none"@
    } else if same_percent && old.reason@ == new_reason && same_price && old.discount_type@
        == new_type && same_expiry(old.expiration_day, new_expiry) {
        old.updated_by@
    } else {
        "product"@
    }
}

/// Whether the expiry is unchanged.
fn same_expiry_exec(old: &Option<String>, new_expiry: &Option<String>) -> (r: bool)
    ensures
        r == same_expiry(*old, *new_expiry),
{
    proof {
        reveal_strlit("'");
    }
    let old_text = match old {
        Some(d) => string_from(d.as_str()),
        None => string_from("null"),
    };
    let new_sql = match new_expiry {
        Some(d) => {
            let mut e = string_from("'");
            e.append(d.as_str());
            e.append("'");
            e
        },
        None => string_from("null"),
    };
    let unquoted = replace_all(new_sql.as_str(), "'", "");
    (old.is_none() && new_expiry.is_none()) || text_eq(old_text.as_str(), unquoted.as_str())
}

/// Who an updated product's discount is attributed to.
pub fn update_discount_attribution(
    old: &StoredDiscount,
    new_type: &str,
    new_reason: &str,
    new_expiry: &Option<String>,
    same_percent: bool,
    same_amount: bool,
) -> (r: String)
    ensures
        r@ == updated_attribution(*old, new_type@, new_reason@, *new_expiry, same_percent, same_amount),
{
    let same_price = if text_eq(old.discount_type.as_str(), new_type) && text_eq(
        new_type,
        "Discount by Specific Amount",
    ) {
        same_amount
    } else {
        true
    };
    if text_eq(new_type, "No Discount") {
        string_from("none")
    } else if same_percent && text_eq(old.reason.as_str(), new_reason) && same_price && text_eq(
        old.discount_type.as_str(),
        new_type,
    ) && same_expiry_exec(&old.expiration_day, new_expiry) {
        string_from(old.updated_by.as_str())
    } else {
        string_from("product")
    }
}

/// How a discount rule sets a price.
pub enum DiscountKind {
    /// The price is reduced by the rule's percentage.
    Percentage,
    /// The rule sets the price to its fixed amount.
    FixedAmount,
    /// The price is kept.
    Other,
}

/// The kind of a discount rule, by its type name.
pub fn discount_kind(discount_type: &str) -> (r: DiscountKind)
    ensures
        discount_type@ == "Discount by Specific Percentage"@ ==> r is Percentage,
        discount_type@ == "Discount by Specific Amount"@ ==> r is FixedAmount,
        discount_type@ != "Discount by Specific Percentage"@ && discount_type@
            != "Discount by Specific Amount"@ ==> r is Other,
{
    proof {
        reveal_strlit("Discount by Specific Percentage");
        reveal_strlit("Discount by Specific Amount");
        assert("Discount by Specific Percentage"@.len() == 31);
        assert("Discount by Specific Amount"@.len() == 27);
    }
    if text_eq(discount_type, "Discount by Specific Percentage") {
        DiscountKind::Percentage
    } else if text_eq(discount_type, "Discount by Specific Amount") {
        DiscountKind::FixedAmount
    } else {
        DiscountKind::Other
    }
}

// ---------------------------------------------------------------------------
// Shops
// ---------------------------------------------------------------------------

/// The status a shop is stored with: agents' shops await approval,
/// administrators set it.
pub fn stored_shop_status(role: &str, requested: &str) -> (r: String)
    ensures
        r@ == if role@ == "agent"@ {
            "Pending Approval"@
        } else {
            requested@
        },
{
    if text_eq(role, "agent") {
        string_from("Pending Approval")
    } else {
        string_from(requested)
    }
}

/// An agent may change or delete a shop only while it awaits approval; the
/// refusal says which (`updated` or `deleted`).
pub fn check_shop_change(current_status: &str, role: &str, deleting: bool) -> (r: Result<
    (),
    ApiResponse,
>)
    ensures
        checked(
            r,
            if current_status@ != "Pending Approval"@ && role@ == "agent"@ {
                if deleting {
                    refuse(
                        "Your shop has been approved by the admin and can no longer be deleted. If you need to make changes, please contact customer support!"@,
                    )
                } else {
                    refuse(
                        "Your shop has been approved by the admin and can no longer be updated. If you need to make changes, please contact customer support!"@,
                    )
                }
            } else {
                None
            },
        ),
{
    if !text_eq(current_status, "Pending Approval") && text_eq(role, "agent") {
        if deleting {
            return Err(
                bad_request(
                    "Your shop has been approved by the admin and can no longer be deleted. If you need to make changes, please contact customer support!",
                ),
            );
        } else {
            return Err(
                bad_request(
                    "Your shop has been approved by the admin and can no longer be updated. If you need to make changes, please contact customer support!",
                ),
            );
        }
    }
    Ok(())
}

/// A shop that still has products cannot be deleted; a failed lookup is
/// answered with `500`.
pub fn check_shop_empty(has_products: Result<bool, ()>) -> (r: Result<(), ApiResponse>)
    ensures
        checked(
            r,
            match has_products {
                Ok(false) => None,
                Ok(true) => refuse(
                    "Please delete the associated products first before deleting the shop. Ensure all products related to this shop are removed to proceed with shop deletion!"@,
                ),
                Err(_) => Some(
                    (500u16, "Something went wrong with checking products existence!"@),
                ),
            },
        ),
{
    match has_products {
        Ok(false) => Ok(()),
        Ok(true) => Err(
            bad_request(
                "Please delete the associated products first before deleting the shop. Ensure all products related to this shop are removed to proceed with shop deletion!",
            ),
        ),
        Err(_) => Err(reply(500, "Something went wrong with checking products existence!")),
    }
}

/// The message the administrators get when an agent adds a shop.
pub fn shop_approval_message(agent_name: &str, shop_name: &str) -> (r: String)
    ensures
        r@ == agent_name@ + " has added a new shop, "@ + shop_name@
            + ". Please review and approve."@,
{
    let mut r = string_from(agent_name);
    r.append(" has added a new shop, ");
    r.append(shop_name);
    r.append(". Please review and approve.");
    r
}

/// The message sent when a shop is updated (as approved).
pub fn shop_approved_message(shop_name: &str) -> (r: String)
    ensures
        r@ == "Your shop, "@ + shop_name@ + ", has been approved and is now live!"@,
{
    let mut r = string_from("Your shop, ");
    r.append(shop_name);
    r.append(", has been approved and is now live!");
    r
}

// ---------------------------------------------------------------------------
// The checks of a handler, in the order they are made
// ---------------------------------------------------------------------------

/// Only administrators and agents may add or change products and shops.
pub open spec fn catalog_role_refusal(role: Seq<char>) -> Option<(u16, Seq<char>)> {
    if role != "admin"@ && role != "agent"@ {
        Some((401u16, "Unauthorized!"@))
    } else {
        None
    }
}

/// Administrators and agents may add and change products and shops; any
/// other caller, a customer among them, is answered `401` "Unauthorized!".
pub proof fn law_catalog_editors(role: Seq<char>)
    ensures
        role == "admin"@ || role == "agent"@ ==> catalog_role_refusal(role) is None,
        role != "admin"@ && role != "agent"@ ==> catalog_role_refusal(role) == Some(
            (401u16, "Unauthorized!"@),
        ),
        role == "user"@ ==> catalog_role_refusal(role) == Some((401u16, "Unauthorized!"@)),
{
    reveal_strlit("user");
    reveal_strlit("agent");
    reveal_strlit("admin");
    assert("user"@.len() != "agent"@.len());
    assert("user"@.len() != "admin"@.len());
}

/// Why a shop is refused before it is stored or looked up: the caller's
/// role, then the body.
pub open spec fn shop_request_refusal(role: Seq<char>, r: ShopRequest) -> Option<(u16, Seq<char>)> {
    if catalog_role_refusal(role) is Some {
        catalog_role_refusal(role)
    } else {
        shop_refusal(r)
    }
}

/// Makes the checks of a shop creation or change, in order.
pub fn check_shop_request(role: &str, r: &ShopRequest) -> (res: Result<(), ApiResponse>)
    ensures
        checked(res, shop_request_refusal(role@, *r)),
{
    if let Err(e) = require_admin_or_agent(role) {
        return Err(e);
    }
    validate_shop(r)
}

/// The currency a product gets: the given one, otherwise the default one.
pub open spec fn chosen_currency(given: Option<i32>, default_currency: Option<i32>) -> i32 {
    match given {
        Some(c) => c,
        None => match default_currency {
            Some(d) => d,
            None => 0,
        },
    }
}

/// Why a new product is refused, by the first check that fails, in the order
/// the checks are made: the caller's role (`401`); the texts; a currency of
/// `0` (`500`); a shop that does not exist; a category that does not exist
/// (`shop_found` and `category_found` are what their lookups found).
pub open spec fn product_request_refusal(
    role: Seq<char>,
    d: ProductDetails,
    given: Option<i32>,
    default_currency: Option<i32>,
    shop_found: bool,
    category_found: bool,
) -> Option<(u16, Seq<char>)> {
    if catalog_role_refusal(role) is Some {
        catalog_role_refusal(role)
    } else if product_refusal(d) is Some {
        product_refusal(d)
    } else if chosen_currency(given, default_currency) == 0 {
        Some((500u16, "Something went wrong with currency!"@))
    } else if !shop_found {
        refuse(
            "The shop ID provided does not exist. Please provide a valid shop ID to add a product!"@,
        )
    } else if !category_found {
        refuse(
            "The category ID provided does not exist. Please provide a valid category ID to add a product!"@,
        )
    } else {
        None
    }
}

/// Makes the checks of a new product in order; its currency when they all
/// pass.
pub fn check_product_request(
    role: &str,
    d: &ProductDetails,
    given: Option<i32>,
    default_currency: Option<i32>,
    shop_found: bool,
    category_found: bool,
) -> (r: Result<i32, ApiResponse>)
    ensures
        match product_request_refusal(role@, *d, given, default_currency, shop_found, category_found) {
            None => r == Ok::<i32, ApiResponse>(chosen_currency(given, default_currency)),
            Some((code, msg)) => (r matches Err(e) && answers(e, code, msg)),
        },
{
    if let Err(e) = require_admin_or_agent(role) {
        return Err(e);
    }
    if let Err(e) = validate_product(d) {
        return Err(e);
    }
    let c = match product_currency(given, default_currency) {
        Ok(c) => c,
        Err(e) => return Err(e),
    };
    if let Err(e) = check_product_shop(shop_found) {
        return Err(e);
    }
    if let Err(e) = check_product_category(category_found) {
        return Err(e);
    }
    Ok(c)
}

/// Why a product update is refused, by the first check that fails, in the
/// order the checks are made: the caller's role (`401`); the texts; a
/// currency of `0` (`500`); a product that does not exist (`404 Product not
/// found!`; `product_found` is what its lookup found).
pub open spec fn product_update_refusal(
    role: Seq<char>,
    d: ProductDetails,
    given: Option<i32>,
    default_currency: Option<i32>,
    product_found: bool,
) -> Option<(u16, Seq<char>)> {
    if catalog_role_refusal(role) is Some {
        catalog_role_refusal(role)
    } else if product_refusal(d) is Some {
        product_refusal(d)
    } else if chosen_currency(given, default_currency) == 0 {
        Some((500u16, "Something went wrong with currency!"@))
    } else if !product_found {
        Some((404u16, "Product not found!"@))
    } else {
        None
    }
}

/// Makes the checks of a product update in order; the product's currency
/// when they all pass.
pub fn check_product_update_request(
    role: &str,
    d: &ProductDetails,
    given: Option<i32>,
    default_currency: Option<i32>,
    product_found: bool,
) -> (r: Result<i32, ApiResponse>)
    ensures
        match product_update_refusal(role@, *d, given, default_currency, product_found) {
            None => r == Ok::<i32, ApiResponse>(chosen_currency(given, default_currency)),
            Some((code, msg)) => (r matches Err(e) && answers(e, code, msg)),
        },
{
    if let Err(e) = require_admin_or_agent(role) {
        return Err(e);
    }
    if let Err(e) = validate_product(d) {
        return Err(e);
    }
    let c = match product_currency(given, default_currency) {
        Ok(c) => c,
        Err(e) => return Err(e),
    };
    if !product_found {
        return Err(reply(404, "Product not found!"));
    }
    Ok(c)
}

// ---------------------------------------------------------------------------
// Files left behind by a change
// ---------------------------------------------------------------------------

/// The old images that the new list no longer holds, in their old order.
pub open spec fn removed_images_of(old: Seq<Seq<char>>, new: Seq<Seq<char>>) -> Seq<Seq<char>>
    decreases old.len(),
{
    if old.len() == 0 {
        seq![]
    } else if new.contains(old.last()) {
        removed_images_of(old.drop_last(), new)
    } else {
        removed_images_of(old.drop_last(), new).push(old.last())
    }
}

fn holds_text(list: &Vec<String>, t: &str) -> (r: bool)
    ensures
        r == texts(list@).contains(t@),
{
    let mut i: usize = 0;
    while i < list.len()
        invariant
            i <= list.len(),
            forall|j: int| 0 <= j < i ==> list@[j]@ != t@,
        decreases list.len() - i,
    {
        if text_eq(list[i].as_str(), t) {
            assert(texts(list@)[i as int] == t@);
            return true;
        }
        i = i + 1;
    }
    assert forall|j: int| 0 <= j < texts(list@).len() implies texts(list@)[j] != t@ by {
        assert(texts(list@)[j] == list@[j]@);
    }
    false
}

/// The stored images of a product that an update drops: every old image the
/// new list does not hold, in order. Their files (and their full-size
/// copies) are deleted.
pub fn removed_images(old: &Vec<String>, new: &Vec<String>) -> (r: Vec<String>)
    ensures
        texts(r@) == removed_images_of(texts(old@), texts(new@)),
{
    let mut r: Vec<String> = Vec::new();
    let mut i: usize = 0;
    while i < old.len()
        invariant
            i <= old.len(),
            texts(r@) == removed_images_of(texts(old@.subrange(0, i as int)), texts(new@)),
        decreases old.len() - i,
    {
        let ghost pre = texts(old@.subrange(0, i as int));
        let ghost nxt = texts(old@.subrange(0, i + 1));
        assert(nxt.drop_last() =~= pre);
        assert(nxt.last() == old@[i as int]@);
        if !holds_text(new, old[i].as_str()) {
            let ghost before = r@;
            r.push(string_from(old[i].as_str()));
            assert(texts(r@) =~= texts(before).push(old@[i as int]@));
        }
        i = i + 1;
    }
    assert(old@.subrange(0, old.len() as int) =~= old@);
    r
}

/// The cover image a shop update leaves behind: the old one, when the new
/// cover differs from it. Its file (and its full-size copy) is deleted.
pub fn cover_to_remove(old: &str, new: &str) -> (r: Option<String>)
    ensures
        old@ != new@ ==> (r matches Some(c) && c@ == old@),
        old@ == new@ ==> r is None,
{
    if text_eq(old, new) {
        None
    } else {
        Some(string_from(old))
    }
}

} // verus!
