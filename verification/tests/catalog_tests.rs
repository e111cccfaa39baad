use watch_market::catalog::{
    check_product_category, check_product_shop, check_shop_change, check_shop_empty,
    discount_kind, new_discount_attribution, product_columns, product_creator, product_currency,
    shop_approval_message, shop_approved_message, stored_shop_status, update_discount_attribution,
    validate_product, check_product_request, check_product_update_request, check_shop_request, cover_to_remove, removed_images, DiscountKind, ProductDetails, ProductOptions, StoredDiscount,
};
use watch_market::requests::{
    AdvertisementRequest, BrandRequest, ChangePasswordRequest, Fcm, NotificationRequest,
    ShopRequest, UpdateOrderRequest,
};
use watch_market::response::ApiResponse;
use watch_market::validation::{
    is_one_of, validate_advertisement, validate_brand, validate_description,
    validate_device_type, validate_discount_for, validate_insurance_rule,
    validate_notification_status, validate_order_status, validate_password_change, validate_shop,
};

fn assert_refused<T>(r: Result<T, ApiResponse>, code: u16, message: &str) {
    match r {
        Ok(_) => panic!("expected a refusal with {code}"),
        Err(e) => {
            assert_eq!(e.code, code);
            assert_eq!(e.message, message);
        }
    }
}

fn details() -> ProductDetails {
    let s = |x: &str| x.to_string();
    ProductDetails {
        model: s("SKX007"),
        description: s("Diver"),
        color: s("Black"),
        strap_material: s("Rubber"),
        strap_color: s("Black"),
        case_material: s("Steel"),
        dial_color: s("Black"),
        movement_type: s("Automatic"),
        water_resistance: s("200m"),
        warranty_period: s("1 year"),
    }
}

fn options() -> ProductOptions {
    ProductOptions {
        condition: None,
        warranty_type_id: None,
        dial_glass_type_id: Some(4),
        other_accessories_type_id: None,
        gender_id: None,
        waiting_time: None,
        case_diameter: Some("42".to_string()),
        case_depth: None,
        case_width: None,
        is_preorder: None,
        movement_caliber: None,
        movement_country: None,
        discount_expiration: Some("2024-12-31".to_string()),
        discount_reason: None,
        discount_type: None,
        level: Some(9),
    }
}

#[test]
fn product_texts_are_checked_in_order() {
    assert!(validate_product(&details()).is_ok());
    let mut d = details();
    d.model = String::new();
    d.color = String::new();
    assert_refused(validate_product(&d), 400, "Model must not be empty!");
    let mut d = details();
    d.strap_color = String::new();
    assert_refused(validate_product(&d), 400, "Strap Color must not be empty!");
    let mut d = details();
    d.warranty_period = String::new();
    assert_refused(validate_product(&d), 400, "Warranty Period must not be empty!");
}

#[test]
fn product_currency_and_lookups() {
    assert_eq!(product_currency(Some(2), Some(1)).unwrap(), 2);
    assert_eq!(product_currency(None, Some(1)).unwrap(), 1);
    assert_refused(product_currency(None, None), 500, "Something went wrong with currency!");
    assert_refused(product_currency(Some(0), Some(1)), 500, "Something went wrong with currency!");
    assert_refused(
        check_product_shop(false),
        400,
        "The shop ID provided does not exist. Please provide a valid shop ID to add a product!",
    );
    assert!(check_product_shop(true).is_ok());
    assert_refused(
        check_product_category(false),
        400,
        "The category ID provided does not exist. Please provide a valid category ID to add a product!",
    );
}

#[test]
fn product_owner() {
    assert_eq!(product_creator("admin", 1, Some(8)), 8);
    assert_eq!(product_creator("admin", 1, None), 1);
    assert_eq!(product_creator("agent", 1, Some(8)), 1);
}

#[test]
fn product_column_defaults() {
    let c = product_columns(&options(), "agent", 3);
    assert_eq!(c.condition, "");
    assert_eq!(c.warranty_type_id, 1);
    assert_eq!(c.dial_glass_type_id, 4);
    assert_eq!(c.case_diameter, "42");
    assert!(!c.is_preorder);
    assert_eq!(c.discount_expiration, "'2024-12-31'");
    assert_eq!(c.discount_type, "Discount by Specific Percentage");
    assert_eq!(c.level, 3);
    let c = product_columns(&options(), "admin", 3);
    assert_eq!(c.level, 9);
    let mut o = options();
    o.discount_expiration = None;
    assert_eq!(product_columns(&o, "admin", 0).discount_expiration, "null");
}

#[test]
fn discount_attribution() {
    assert_eq!(new_discount_attribution("No Discount"), "none");
    assert_eq!(new_discount_attribution("Discount by Specific Amount"), "product");
    let old = StoredDiscount {
        expiration_day: Some("2024-12-31".to_string()),
        reason: "Sale".to_string(),
        discount_type: "Discount by Specific Amount".to_string(),
        updated_by: "brand".to_string(),
    };
    let exp = Some("2024-12-31".to_string());
    assert_eq!(update_discount_attribution(&old, "Discount by Specific Amount", "Sale", &exp, true, true), "brand");
    assert_eq!(update_discount_attribution(&old, "Discount by Specific Amount", "Sale", &exp, true, false), "product");
    assert_eq!(update_discount_attribution(&old, "Discount by Specific Amount", "Sale", &None, true, true), "product");
    assert_eq!(update_discount_attribution(&old, "Discount by Specific Amount", "Sale!", &exp, true, true), "product");
    assert_eq!(update_discount_attribution(&old, "No Discount", "Sale", &exp, true, true), "none");
    let old = StoredDiscount { expiration_day: None, ..old };
    assert_eq!(update_discount_attribution(&old, "Discount by Specific Amount", "Sale", &None, true, true), "brand");
}

#[test]
fn discount_kinds() {
    assert!(matches!(discount_kind("Discount by Specific Percentage"), DiscountKind::Percentage));
    assert!(matches!(discount_kind("Discount by Specific Amount"), DiscountKind::FixedAmount));
    assert!(matches!(discount_kind("No Discount"), DiscountKind::Other));
}

#[test]
fn shop_rules() {
    assert_eq!(stored_shop_status("agent", "Active"), "Pending Approval");
    assert_eq!(stored_shop_status("admin", "Active"), "Active");
    assert!(check_shop_change("Pending Approval", "agent", false).is_ok());
    assert!(check_shop_change("Active", "admin", true).is_ok());
    assert_refused(
        check_shop_change("Active", "agent", false),
        400,
        "Your shop has been approved by the admin and can no longer be updated. If you need to make changes, please contact customer support!",
    );
    assert_refused(
        check_shop_change("Active", "agent", true),
        400,
        "Your shop has been approved by the admin and can no longer be deleted. If you need to make changes, please contact customer support!",
    );
    assert!(check_shop_empty(Ok(false)).is_ok());
    assert_refused(
        check_shop_empty(Ok(true)),
        400,
        "Please delete the associated products first before deleting the shop. Ensure all products related to this shop are removed to proceed with shop deletion!",
    );
    assert_refused(check_shop_empty(Err(())), 500, "Something went wrong with checking products existence!");
    assert_eq!(shop_approval_message("Ann", "Watch House"), "Ann has added a new shop, Watch House. Please review and approve.");
    assert_eq!(shop_approved_message("Watch House"), "Your shop, Watch House, has been approved and is now live!");
}

#[test]
fn membership() {
    assert!(is_one_of("b", &vec!["a", "b"]));
    assert!(!is_one_of("c", &vec!["a", "b"]));
    assert!(!is_one_of("a", &vec![]));
}

#[test]
fn body_checks() {
    let ad = |t: &str, u: &str| AdvertisementRequest { media_type: t.to_string(), media_url: u.to_string(), level: 1 };
    assert_refused(validate_advertisement(&ad("gif", "")), 400, "Media url must not be empty!");
    assert_refused(validate_advertisement(&ad("gif", "/images/a.gif")), 400, "Please select a valid media type: image or video.");
    assert!(validate_advertisement(&ad("video", "/images/a.mp4")).is_ok());
    let brand = BrandRequest { name: String::new(), description: "x".to_string(), logo_url: "y".to_string() };
    assert_refused(validate_brand(&brand), 400, "Brand name cannot be empty!");
    assert_refused(validate_description(""), 400, "Description must not be empty!");
    assert!(validate_description("Basic").is_ok());
    assert_refused(validate_insurance_rule("", true), 400, "Description must not be empty!");
    assert_refused(
        validate_insurance_rule("Basic", true),
        400,
        "Minimum order amount must not be greater than maximum order amount!",
    );
    assert!(validate_insurance_rule("Basic", false).is_ok());
    assert_refused(validate_discount_for("shop"), 400, "Please select a valid discount for: all, product, brand, or category.");
    assert!(validate_discount_for("brand").is_ok());
    let fcm = |d: &str| Fcm { token: "t".to_string(), device_type: d.to_string() };
    assert_refused(validate_device_type(&fcm("tv")), 400, "Please select a valid device type: android, ios, or web.");
    assert!(validate_device_type(&fcm("web")).is_ok());
    assert_refused(
        validate_notification_status(&NotificationRequest { status: "Gone".to_string() }),
        400,
        "Please select a valid status: Unread, Read, Acted, Dismissed, or Archived.",
    );
    assert!(validate_notification_status(&NotificationRequest { status: "Archived".to_string() }).is_ok());
    assert_refused(
        validate_order_status(&UpdateOrderRequest { status: "Lost".to_string() }),
        400,
        "Please select a valid order status: Pending, Processing, Shipped, Delivered, Completed, Cancelled, Refunded, Failed, On Hold, Backordered, or Returned.",
    );
    assert!(validate_order_status(&UpdateOrderRequest { status: "On Hold".to_string() }).is_ok());
    assert_refused(
        validate_password_change(&ChangePasswordRequest { new_password: "a".to_string(), old_password: "a".to_string() }),
        400,
        "Old password and new password are the same!",
    );
    assert!(validate_password_change(&ChangePasswordRequest { new_password: "b".to_string(), old_password: "a".to_string() }).is_ok());
}

#[test]
fn shop_body_checks() {
    let shop = |name: &str, cover: &str, status: &str| {
        let mut r = ShopRequest {
            name: name.to_string(),
            description: String::new(),
            cover_image: cover.to_string(),
            address: String::new(),
            city: String::new(),
            state: String::new(),
            postal_code: String::new(),
            country: String::new(),
            phone: String::new(),
            email: String::new(),
            website_url: String::new(),
            operating_hours: String::new(),
            status: status.to_string(),
        };
        r.description = "d".to_string();
        r
    };
    assert_refused(validate_shop(&shop("", "", "x")), 400, "Name must not be empty!");
    assert_refused(validate_shop(&shop("S", "", "x")), 400, "Cover image must not be empty!");
    assert_refused(
        validate_shop(&shop("S", "c.png", "Open")),
        400,
        "Please select a valid status: Active, Inactive, Closed, Suspended, or Pending Approval.",
    );
    assert!(validate_shop(&shop("S", "c.png", "Pending Approval")).is_ok());
}

#[test]
fn product_refusals_come_in_order() {
    let mut d = details();
    d.model = String::new();
    assert_refused(check_product_request("user", &d, None, None, false, false), 401, "Unauthorized!");
    assert_refused(check_product_request("agent", &d, None, None, false, false), 400, "Model must not be empty!");
    let d = details();
    assert_refused(check_product_request("agent", &d, None, None, false, false), 500, "Something went wrong with currency!");
    assert_refused(
        check_product_request("agent", &d, None, Some(1), false, false),
        400,
        "The shop ID provided does not exist. Please provide a valid shop ID to add a product!",
    );
    assert_refused(
        check_product_request("admin", &d, Some(3), Some(1), true, false),
        400,
        "The category ID provided does not exist. Please provide a valid category ID to add a product!",
    );
    assert_eq!(check_product_request("admin", &d, Some(3), Some(1), true, true).unwrap(), 3);
    assert_eq!(check_product_request("agent", &d, None, Some(1), true, true).unwrap(), 1);
}

#[test]
fn shop_request_refusals_come_in_order() {
    let r = ShopRequest {
        name: String::new(),
        description: String::new(),
        cover_image: String::new(),
        address: String::new(),
        city: String::new(),
        state: String::new(),
        postal_code: String::new(),
        country: String::new(),
        phone: String::new(),
        email: String::new(),
        website_url: String::new(),
        operating_hours: String::new(),
        status: "Active".to_string(),
    };
    assert_refused(check_shop_request("user", &r), 401, "Unauthorized!");
    assert_refused(check_shop_request("agent", &r), 400, "Name must not be empty!");
}

#[test]
fn images_dropped_by_an_update() {
    let s = |v: &[&str]| v.iter().map(|x| x.to_string()).collect::<Vec<String>>();
    assert_eq!(
        removed_images(&s(&["/images/a.png", "/images/b.png", "/images/c.png"]), &s(&["/images/b.png", "/images/d.png"])),
        s(&["/images/a.png", "/images/c.png"])
    );
    assert!(removed_images(&s(&["/images/a.png"]), &s(&["/images/a.png"])).is_empty());
    assert!(removed_images(&Vec::new(), &s(&["/images/a.png"])).is_empty());
}

#[test]
fn cover_left_behind() {
    assert_eq!(cover_to_remove("/images/a.png", "/images/b.png"), Some("/images/a.png".to_string()));
    assert_eq!(cover_to_remove("/images/a.png", "/images/a.png"), None);
}

#[test]
fn product_update_refusals_come_in_order() {
    let mut d = details();
    d.color = String::new();
    assert_refused(check_product_update_request("user", &d, None, None, false), 401, "Unauthorized!");
    assert_refused(check_product_update_request("admin", &d, None, None, false), 400, "Color must not be empty!");
    let d = details();
    assert_refused(check_product_update_request("admin", &d, Some(0), Some(1), false), 500, "Something went wrong with currency!");
    assert_refused(check_product_update_request("agent", &d, None, Some(1), false), 404, "Product not found!");
    assert_eq!(check_product_update_request("agent", &d, None, Some(1), true).unwrap(), 1);
}
