//! The request bodies, query strings and answer payloads of the API, as
//! plain data.

use vstd::prelude::*;

verus! {

/// Query string of the advertisement list.
pub struct GetAdvertisementsQuery {
    pub search: Option<String>,
    pub page: Option<usize>,
    pub per_page: Option<usize>,
}

/// Body of a self-registration.
pub struct RegisterRequest {
    pub name: String,
    pub username: String,
    pub password: String,
    pub email: String,
    pub phone: String,
    pub profile_image: String,
    pub role: Option<String>,
}

/// Body of a login.
pub struct LoginRequest {
    pub username: String,
    pub password: String,
}

/// What a successful login answers with.
pub struct LoginData {
    pub token: String,
    pub name: String,
    pub profile_image: String,
    pub role: String,
    pub can_modify_order_status: bool,
}

/// Body of a request to hash a password.
pub struct PasswordInput {
    pub password: String,
}

/// The hash of a password.
pub struct HashedPasswordOutput {
    pub hashed_password: String,
}

/// Body of a password change.
pub struct ChangePasswordRequest {
    pub new_password: String,
    pub old_password: String,
}

/// Body of a token check.
pub struct VerifyTokenRequest {
    pub token: String,
}

/// What a token check answers with: the user id of the token, as the room to join.
pub struct VerifyTokenData {
    pub room: i32,
}

/// Body of a password reset request.
pub struct ForgotPasswordRequest {
    pub username: Option<String>,
    pub email: String,
    pub phone: String,
}

/// Body of a brand creation or update.
pub struct BrandRequest {
    pub name: String,
    pub description: String,
    pub logo_url: String,
}

/// Query string of the brand list.
pub struct GetBrandsQuery {
    pub search: Option<String>,
    pub page: Option<usize>,
    pub per_page: Option<usize>,
}

/// Query string of the category list.
pub struct GetCategoriesQuery {
    pub search: Option<String>,
    pub page: Option<u32>,
    pub per_page: Option<u32>,
}

/// Query string of the chat session list.
pub struct GetChatSessionsQuery {
    pub search: Option<String>,
    pub page: Option<usize>,
    pub per_page: Option<usize>,
}

/// Query string of the message list of a chat.
pub struct GetChatMessagesQuery {
    pub search: Option<String>,
    pub page: Option<usize>,
    pub per_page: Option<usize>,
    pub receiver_id: Option<i32>,
}

/// Body of a message status change.
pub struct UpdateMessageStatusRequest {
    pub status: String,
}

/// Query string of a single chat session.
pub struct GetChatSessionQuery {
    pub receiver_id: Option<i32>,
}

/// Query string of the discount rule list.
pub struct GetDiscountRulesQuery {
    pub search: Option<String>,
    pub page: Option<usize>,
    pub per_page: Option<usize>,
    pub shop_id: Option<i32>,
}

/// Body of a coupon use.
pub struct UsedCouponRequest {
    pub coupon_code: String,
}

/// Query string of the used coupon list.
pub struct GetUsedCouponsQuery {
    pub search: Option<String>,
    pub page: Option<usize>,
    pub per_page: Option<usize>,
}

/// Body of a Google sign-in token check.
pub struct VerifyGoogleTokenRequest {
    pub id_token: String,
}

/// What an image upload answers with.
pub struct UploadResponse {
    pub code: u16,
    pub message: String,
    pub url: String,
}

/// Query string of an image upload: the optional `<width>x<height>` to resize to.
pub struct ResolutionInfo {
    pub resolution: Option<String>,
}

/// Body of an image resize.
pub struct ResizeRequest {
    pub image_path: String,
    pub resolution: String,
}

/// Body of the notification list request.
pub struct GetNotificationsBody {
    pub search: Option<String>,
    pub page: Option<usize>,
    pub per_page: Option<usize>,
    pub status_list: Option<Vec<String>>,
}

/// Body of a notification status change.
pub struct NotificationRequest {
    pub status: String,
}

/// What placing an order answers with.
pub struct AddOrderResponse<T> {
    pub code: u16,
    pub message: String,
    pub data: Option<T>,
    pub is_already_reviewed: bool,
}

/// Body of an order status change.
pub struct UpdateOrderRequest {
    pub status: String,
}

/// Query string of the watch model list.
pub struct GetModelsQuery {
    pub search: Option<String>,
    pub page: Option<usize>,
    pub per_page: Option<usize>,
}

/// Query string of the seller registration fee list.
pub struct GetSellerRegistrationFeesQuery {
    pub search: Option<String>,
    pub page: Option<usize>,
    pub per_page: Option<usize>,
}

/// The client settings: the platform that requires signing in.
pub struct Setting {
    pub platform_required_signin: String,
}

/// Query string of the shop list.
pub struct GetShopsQuery {
    pub search: Option<String>,
    pub page: Option<usize>,
    pub per_page: Option<usize>,
    pub platform: Option<String>,
    pub version: Option<String>,
    pub status: Option<String>,
    pub view: Option<String>,
}

/// Query string of the user list.
pub struct GetUsersQuery {
    pub search: Option<String>,
    pub page: Option<usize>,
    pub per_page: Option<usize>,
    pub role: Option<String>,
    pub account_status: Option<String>,
    pub request_to_agent: Option<bool>,
}

/// Body of a user creation by an administrator.
pub struct AddUserRequest {
    pub name: String,
    pub username: String,
    pub password: String,
    pub email: String,
    pub phone: String,
    pub role: String,
    pub profile_image: String,
    pub account_status: Option<String>,
    pub seller_information: Option<SellerInformationRequest>,
    pub can_modify_order_status: Option<bool>,
    pub can_view_address: Option<bool>,
    pub can_view_phone: Option<bool>,
}

/// Body of a user update.
pub struct UpdateUserRequest {
    pub name: String,
    pub password: String,
    pub email: String,
    pub phone: String,
    pub role: String,
    pub profile_image: String,
    pub account_status: Option<String>,
    pub seller_information: Option<SellerInformationRequest>,
    pub can_modify_order_status: Option<bool>,
    pub can_view_address: Option<bool>,
    pub can_view_phone: Option<bool>,
    pub request_to_agent: Option<bool>,
}

/// Body of an image similarity search.
pub struct SearchRequest {
    pub image_path: String,
}

/// A saved customer address.
pub struct Address {
    pub address_id: i32,
    pub street_address: String,
    pub city: String,
    pub state: String,
    pub postal_code: String,
    pub country: String,
}

/// The address given with an order.
pub struct NewAddress {
    pub street_address: String,
    pub city: String,
    pub state: String,
    pub postal_code: String,
    pub country: String,
}

/// Body of an advertisement creation or update.
pub struct AdvertisementRequest {
    pub media_type: String,
    pub media_url: String,
    pub level: i32,
}

/// A bank account that payments can be made to.
pub struct BankAccount {
    pub account_holder_name: String,
    pub account_number: String,
    pub bank_logo: String,
}

/// Body of a buyer protection creation or update.
pub struct BuyerProtectionRequest {
    pub description: String,
}

/// Body of a category creation or update.
pub struct CategoryRequest {
    pub name: String,
    pub description: String,
    pub cover_image: String,
}

/// Body of a chat message.
pub struct MessageRequest {
    pub receiver_id: i32,
    pub chat_id: i32,
    pub message_text: String,
    pub image_urls: Vec<String>,
}

/// A participant of a chat, as shown to the caller.
pub struct ChatParticipant {
    pub user_id: i32,
    pub name: String,
    pub profile_image: String,
    pub is_me: bool,
}

/// A watch condition.
pub struct Condition {
    pub condition_id: i32,
    pub description: String,
}

/// A currency.
pub struct Currency {
    pub currency_id: i32,
    pub currency_code: String,
    pub currency_name: String,
    pub symbol: String,
}

/// A dial glass type.
pub struct DialGlassType {
    pub dial_glass_type_id: i32,
    pub description: String,
}

/// A push notification token and the kind of device that holds it.
pub struct Fcm {
    pub token: String,
    pub device_type: String,
}

/// A gender a watch is made for.
pub struct Gender {
    pub gender_id: i32,
    pub description: String,
}

/// A product and quantity of an order being placed.
pub struct NewOrderItem {
    pub product_id: i32,
    pub quantity: i32,
}

/// Body of an order being placed.
pub struct NewOrder {
    pub order_items: Vec<NewOrderItem>,
    pub address: NewAddress,
    pub payment_type: String,
    pub payslip_screenshot_path: String,
    pub rule_id: Option<i32>,
    pub shop_id: Option<i32>,
}

/// A kind of accessory sold with a watch.
pub struct OtherAccessoriesType {
    pub other_accessories_type_id: i32,
    pub description: String,
}

/// The name of a product and of the shop that sells it.
pub struct ProductAndShopName {
    pub product_name: String,
    pub shop_name: String,
}

/// A reason for a refund.
pub struct ReasonType {
    pub reason_type_id: i32,
    pub description: String,
}

/// Body of a return request.
pub struct RefundReasonRequest {
    pub order_id: i32,
    pub reason_type_id: i32,
    pub comment: String,
}

/// The profile of a seller.
pub struct SellerInformation {
    pub company_name: String,
    pub professional_title: String,
    pub active_since_year: i32,
    pub location: String,
    pub offline_trader: bool,
    pub product_counts: i64,
    pub sold_product_counts: i64,
    pub seller_name: String,
    pub seller_profile_image: String,

    pub facebook_profile_image: String,
    pub shop_or_page_name: String,
    pub facebook_page_image: String,
    pub bussiness_phone: String,
    pub address: String,
    pub nrc: String,
    pub nrc_front_image: String,
    pub nrc_back_image: String,
    pub bank_code: String,
    pub bank_account: String,
    pub bank_account_image: String,
    pub wallet_type: String,
    pub wallet_account: String,
    pub fee_id: i32,
    pub monthly_transaction_screenshot: String,
}

/// The seller profile given with a user creation or update.
pub struct SellerInformationRequest {
    pub company_name: String,
    pub professional_title: String,
    pub location: String,
    pub offline_trader: bool,

    pub facebook_profile_image: Option<String>,
    pub shop_or_page_name: Option<String>,
    pub facebook_page_image: Option<String>,
    pub bussiness_phone: Option<String>,
    pub address: Option<String>,
    pub nrc: Option<String>,
    pub nrc_front_image: Option<String>,
    pub nrc_back_image: Option<String>,
    pub bank_code: Option<String>,
    pub bank_account: Option<String>,
    pub bank_account_image: Option<String>,
    pub wallet_type: Option<String>,
    pub wallet_account: Option<String>,
    pub fee_id: Option<i32>,
    pub monthly_transaction_screenshot: Option<String>,
}

/// A subject of a seller report.
pub struct ReportSubject {
    pub subject_id: i32,
    pub description: String,
}

/// Body of a seller report.
pub struct SellerReportRequest {
    pub seller_id: i32,
    pub phone: String,
    pub subject_id: i32,
    pub message: String,
}

/// Body of a shop creation or update.
pub struct ShopRequest {
    pub name: String,
    pub description: String,
    pub cover_image: String,
    pub address: String,
    pub city: String,
    pub state: String,
    pub postal_code: String,
    pub country: String,
    pub phone: String,
    pub email: String,
    pub website_url: String,
    pub operating_hours: String,
    pub status: String,
}

} // verus!
