//! The checks the handlers make on request bodies, in the order they make
//! them, with the answer each refusal gives.

use vstd::prelude::*;
use crate::requests::{
    AdvertisementRequest, BrandRequest, ChangePasswordRequest, Fcm, NotificationRequest,
    ShopRequest, UpdateOrderRequest,
};
use crate::response::{answers, bad_request, ApiResponse};
use crate::text::{one_of, text_eq};

verus! {

/// The texts of a list of string slices.
pub open spec fn strs(v: Seq<&str>) -> Seq<Seq<char>> {
    v.map_values(|s: &str| s@)
}

/// Whether `v` is one of `options`.
pub fn is_one_of(v: &str, options: &Vec<&str>) -> (r: bool)
    ensures
        r == one_of(v@, strs(options@)),
{
    let mut i: usize = 0;
    while i < options.len()
        invariant
            i <= options.len(),
            forall|j: int| 0 <= j < i ==> options@[j]@ != v@,
        decreases options.len() - i,
    {
        if text_eq(v, options[i]) {
            assert(strs(options@)[i as int] == v@);
            return true;
        }
        i = i + 1;
    }
    assert forall|j: int| 0 <= j < strs(options@).len() implies strs(options@)[j] != v@ by {
        assert(strs(options@)[j] == options@[j]@);
    }
    false
}

/// The check outcome `r` agrees with `refusal`: success when there is
/// none, and otherwise the answer with that code and message.
pub open spec fn checked(r: Result<(), ApiResponse>, refusal: Option<(u16, Seq<char>)>) -> bool {
    match refusal {
        None => r is Ok,
        Some((code, msg)) => match r {
            Ok(_) => false,
            Err(e) => answers(e, code, msg),
        },
    }
}

/// A `400` refusal with the given message.
pub open spec fn refuse(msg: Seq<char>) -> Option<(u16, Seq<char>)> {
    Some((400u16, msg))
}

// ---------------------------------------------------------------------------
// Advertisements
// ---------------------------------------------------------------------------

/// The media kinds an advertisement may show.
pub open spec fn media_types() -> Seq<Seq<char>> {
    seq!["image"@, "video"@]
}

/// Why an advertisement body is refused, if it is: an empty media URL,
/// then a media kind other than image or video.
pub open spec fn advertisement_refusal(r: AdvertisementRequest) -> Option<(u16, Seq<char>)> {
    if r.media_url@.len() == 0 {
        refuse("Media url must not be empty!"@)
    } else if !one_of(r.media_type@, media_types()) {
        refuse("Please select a valid media type: image or video."@)
    } else {
        None
    }
}

/// An advertisement needs a media URL and shows an image or a video: an
/// empty URL is refused with `400` "Media url must not be empty!", a media
/// type other than "image" or "video" with `400` "Please select a valid
/// media type: image or video.", and an image or a video with a URL passes.
pub proof fn law_advertisement_media(r: AdvertisementRequest)
    ensures
        r.media_url@.len() == 0 ==> advertisement_refusal(r) == Some(
            (400u16, "Media url must not be empty!"@),
        ),
        r.media_url@.len() > 0 && r.media_type@ != "image"@ && r.media_type@ != "video"@
            ==> advertisement_refusal(r) == Some(
            (400u16, "Please select a valid media type: image or video."@),
        ),
        r.media_url@.len() > 0 && (r.media_type@ == "image"@ || r.media_type@ == "video"@)
            ==> advertisement_refusal(r) is None,
{
    assert(media_types()[0] == "image"@);
    assert(media_types()[1] == "video"@);
}

/// Checks an advertisement body.
pub fn validate_advertisement(r: &AdvertisementRequest) -> (res: Result<(), ApiResponse>)
    ensures
        checked(res, advertisement_refusal(*r)),
{
    if r.media_url.as_str().is_empty() {
        return Err(bad_request("Media url must not be empty!"));
    }
    let kinds: Vec<&str> = vec!["image", "video"];
    assert(strs(kinds@) =~= media_types());
    if !is_one_of(r.media_type.as_str(), &kinds) {
        return Err(bad_request("Please select a valid media type: image or video."));
    }
    Ok(())
}

// ---------------------------------------------------------------------------
// Brands, descriptions
// ---------------------------------------------------------------------------

/// Checks a brand body: its name must not be empty.
pub fn validate_brand(r: &BrandRequest) -> (res: Result<(), ApiResponse>)
    ensures
        checked(
            res,
            if r.name@.len() == 0 {
                refuse("Brand name cannot be empty!"@)
            } else {
                None
            },
        ),
{
    if r.name.as_str().is_empty() {
        return Err(bad_request("Brand name cannot be empty!"));
    }
    Ok(())
}

/// Checks the description of an insurance rule or a registration fee: it
/// must not be empty.
pub fn validate_description(description: &str) -> (res: Result<(), ApiResponse>)
    ensures
        checked(
            res,
            if description@.len() == 0 {
                refuse("Description must not be empty!"@)
            } else {
                None
            },
        ),
{
    if description.is_empty() {
        return Err(bad_request("Description must not be empty!"));
    }
    Ok(())
}

/// Checks an insurance rule body: a description, then an order amount range
/// whose minimum does not exceed its maximum (`min_exceeds_max` is the
/// outcome of comparing the two amounts).
pub fn validate_insurance_rule(description: &str, min_exceeds_max: bool) -> (res: Result<
    (),
    ApiResponse,
>)
    ensures
        checked(
            res,
            if description@.len() == 0 {
                refuse("Description must not be empty!"@)
            } else if min_exceeds_max {
                refuse("Minimum order amount must not be greater than maximum order amount!"@)
            } else {
                None
            },
        ),
{
    validate_description(description)?;
    if min_exceeds_max {
        return Err(
            bad_request("Minimum order amount must not be greater than maximum order amount!"),
        );
    }
    Ok(())
}

// ---------------------------------------------------------------------------
// Shops
// ---------------------------------------------------------------------------

/// The statuses a shop may have.
pub open spec fn shop_statuses() -> Seq<Seq<char>> {
    seq!["Active"@, "Inactive"@, "Closed"@, "Suspended"@, "Pending Approval"@]
}

/// Why a shop body is refused, if it is: an empty name, an empty cover
/// image, then an unknown status.
pub open spec fn shop_refusal(r: ShopRequest) -> Option<(u16, Seq<char>)> {
    if r.name@.len() == 0 {
        refuse("Name must not be empty!"@)
    } else if r.cover_image@.len() == 0 {
        refuse("Cover image must not be empty!"@)
    } else if !one_of(r.status@, shop_statuses()) {
        refuse(
            "Please select a valid status: Active, Inactive, Closed, Suspended, or Pending Approval."@,
        )
    } else {
        None
    }
}

/// A shop needs a name, a cover image and one of the five statuses: an
/// empty name is refused with `400` "Name must not be empty!", then an
/// empty cover image with `400` "Cover image must not be empty!", then a
/// status other than "Active", "Inactive", "Closed", "Suspended" and
/// "Pending Approval" as invalid; a named shop with a cover image and one of
/// those statuses passes.
pub proof fn law_shop_requirements(r: ShopRequest)
    ensures
        r.name@.len() == 0 ==> shop_refusal(r) == Some((400u16, "Name must not be empty!"@)),
        r.name@.len() > 0 && r.cover_image@.len() == 0 ==> shop_refusal(r) == Some(
            (400u16, "Cover image must not be empty!"@),
        ),
        r.name@.len() > 0 && r.cover_image@.len() > 0 && r.status@ != "Active"@ && r.status@
            != "Inactive"@ && r.status@ != "Closed"@ && r.status@ != "Suspended"@ && r.status@
            != "Pending Approval"@ ==> shop_refusal(r) == Some(
            (
                400u16,
                "Please select a valid status: Active, Inactive, Closed, Suspended, or Pending Approval."@,
            ),
        ),
        r.name@.len() > 0 && r.cover_image@.len() > 0 && (r.status@ == "Active"@ || r.status@
            == "Inactive"@ || r.status@ == "Closed"@ || r.status@ == "Suspended"@ || r.status@
            == "Pending Approval"@) ==> shop_refusal(r) is None,
{
    assert(shop_statuses()[0] == "Active"@);
    assert(shop_statuses()[1] == "Inactive"@);
    assert(shop_statuses()[2] == "Closed"@);
    assert(shop_statuses()[3] == "Suspended"@);
    assert(shop_statuses()[4] == "Pending Approval"@);
}

/// Checks a shop body.
pub fn validate_shop(r: &ShopRequest) -> (res: Result<(), ApiResponse>)
    ensures
        checked(res, shop_refusal(*r)),
{
    if r.name.as_str().is_empty() {
        return Err(bad_request("Name must not be empty!"));
    }
    if r.cover_image.as_str().is_empty() {
        return Err(bad_request("Cover image must not be empty!"));
    }
    let statuses: Vec<&str> = vec!["Active", "Inactive", "Closed", "Suspended", "Pending Approval"];
    assert(strs(statuses@) =~= shop_statuses());
    if !is_one_of(r.status.as_str(), &statuses) {
        return Err(
            bad_request(
                "Please select a valid status: Active, Inactive, Closed, Suspended, or Pending Approval.",
            ),
        );
    }
    Ok(())
}

// ---------------------------------------------------------------------------
// Discount rules, push tokens, notifications, orders
// ---------------------------------------------------------------------------

/// What a discount rule may apply to.
pub open spec fn discount_targets() -> Seq<Seq<char>> {
    seq!["all"@, "product"@, "brand"@, "category"@]
}

/// Checks what a discount rule applies to.
pub fn validate_discount_for(discount_for: &str) -> (res: Result<(), ApiResponse>)
    ensures
        checked(
            res,
            if !one_of(discount_for@, discount_targets()) {
                refuse("Please select a valid discount for: all, product, brand, or category."@)
            } else {
                None
            },
        ),
{
    let targets: Vec<&str> = vec!["all", "product", "brand", "category"];
    assert(strs(targets@) =~= discount_targets());
    if !is_one_of(discount_for, &targets) {
        return Err(bad_request("Please select a valid discount for: all, product, brand, or category."));
    }
    Ok(())
}

/// The kinds of device a push token may belong to.
pub open spec fn device_types() -> Seq<Seq<char>> {
    seq!["android"@, "ios"@, "web"@]
}

/// Checks the device kind of a push token.
pub fn validate_device_type(r: &Fcm) -> (res: Result<(), ApiResponse>)
    ensures
        checked(
            res,
            if !one_of(r.device_type@, device_types()) {
                refuse("Please select a valid device type: android, ios, or web."@)
            } else {
                None
            },
        ),
{
    let kinds: Vec<&str> = vec!["android", "ios", "web"];
    assert(strs(kinds@) =~= device_types());
    if !is_one_of(r.device_type.as_str(), &kinds) {
        return Err(bad_request("Please select a valid device type: android, ios, or web."));
    }
    Ok(())
}

/// The statuses a notification may be given.
pub open spec fn notification_statuses() -> Seq<Seq<char>> {
    seq!["Unread"@, "Read"@, "Acted"@, "Dismissed"@, "Archived"@]
}

/// Checks a notification status change.
pub fn validate_notification_status(r: &NotificationRequest) -> (res: Result<(), ApiResponse>)
    ensures
        checked(
            res,
            if !one_of(r.status@, notification_statuses()) {
                refuse(
                    "Please select a valid status: Unread, Read, Acted, Dismissed, or Archived."@,
                )
            } else {
                None
            },
        ),
{
    let statuses: Vec<&str> = vec!["Unread", "Read", "Acted", "Dismissed", "Archived"];
    assert(strs(statuses@) =~= notification_statuses());
    if !is_one_of(r.status.as_str(), &statuses) {
        return Err(
            bad_request(
                "Please select a valid status: Unread, Read, Acted, Dismissed, or Archived.",
            ),
        );
    }
    Ok(())
}

/// The statuses an order may be given.
pub open spec fn order_statuses() -> Seq<Seq<char>> {
    seq![
        "Pending"@,
        "Processing"@,
        "Shipped"@,
        "Delivered"@,
        "Completed"@,
        "Cancelled"@,
        "Refunded"@,
        "Failed"@,
        "On Hold"@,
        "Backordered"@,
        "Returned"@,
    ]
}

/// Checks the status of an order status change.
pub fn validate_order_status(r: &UpdateOrderRequest) -> (res: Result<(), ApiResponse>)
    ensures
        checked(
            res,
            if !one_of(r.status@, order_statuses()) {
                refuse(
                    "Please select a valid order status: Pending, Processing, Shipped, Delivered, Completed, Cancelled, Refunded, Failed, On Hold, Backordered, or Returned."@,
                )
            } else {
                None
            },
        ),
{
    let statuses: Vec<&str> = vec![
        "Pending",
        "Processing",
        "Shipped",
        "Delivered",
        "Completed",
        "Cancelled",
        "Refunded",
        "Failed",
        "On Hold",
        "Backordered",
        "Returned",
    ];
    assert(strs(statuses@) =~= order_statuses());
    if !is_one_of(r.status.as_str(), &statuses) {
        return Err(
            bad_request(
                "Please select a valid order status: Pending, Processing, Shipped, Delivered, Completed, Cancelled, Refunded, Failed, On Hold, Backordered, or Returned.",
            ),
        );
    }
    Ok(())
}

/// Checks a password change: the new password must differ from the old.
pub fn validate_password_change(r: &ChangePasswordRequest) -> (res: Result<(), ApiResponse>)
    ensures
        checked(
            res,
            if r.old_password@ == r.new_password@ {
                refuse("Old password and new password are the same!"@)
            } else {
                None
            },
        ),
{
    if text_eq(r.old_password.as_str(), r.new_password.as_str()) {
        return Err(bad_request("Old password and new password are the same!"));
    }
    Ok(())
}

} // verus!
