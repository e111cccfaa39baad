//! Accounts: registration, login, password changes and resets, and the
//! rules for creating and updating users.

use vstd::prelude::*;
use crate::numeric::{decimal_int, format_i32, is_digit, lemma_decimal_int_symbols};
use crate::auth::subject_parts;
use crate::passwords::{bcrypt_hash, bcrypt_verify, bcrypt_verify_result};
use crate::requests::HashedPasswordOutput;
use crate::response::{answers, bad_request, reply, unauthorized, ApiResponse};
use crate::text::{lemma_pieces_three, one_of, pieces, string_from, text_eq};
use crate::orders::Notice;
use crate::validation::{checked, is_one_of, refuse, strs};

verus! {

/// The answer to logging into (or resetting the password of) an account
/// that is not active.
pub open spec fn inactive_message() -> Seq<char> {
    "Your account has not been activated yet. Please wait for an admin to approve your account or contact support for further assistance!"@
}

// ---------------------------------------------------------------------------
// Registration and user records
// ---------------------------------------------------------------------------

/// The role and account status of a self-registration: `user` and `active`
/// by default; a requested role must be `user` (active) or `agent`
/// (pending approval), and any other is refused.
pub fn registration_role(role: &Option<String>) -> (r: Result<(String, String), ApiResponse>)
    ensures
        match role {
            None => r matches Ok((ro, st)) && ro@ == "user"@ && st@ == "active"@,
            Some(x) => if x@ == "user"@ {
                r matches Ok((ro, st)) && ro@ == "user"@ && st@ == "active"@
            } else if x@ == "agent"@ {
                r matches Ok((ro, st)) && ro@ == "agent"@ && st@ == "pending"@
            } else {
                r matches Err(e) && answers(e, 400, "Role must be user or agent!"@)
            },
        },
{
    match role {
        None => Ok((string_from("user"), string_from("active"))),
        Some(x) => {
            if text_eq(x.as_str(), "user") {
                Ok((string_from("user"), string_from("active")))
            } else if text_eq(x.as_str(), "agent") {
                Ok((string_from("agent"), string_from("pending")))
            } else {
                Err(bad_request("Role must be user or agent!"))
            }
        },
    }
}

/// The first checks of a registration, a user creation or a profile
/// update: a name, then a valid email and phone (`email_ok` and `phone_ok`
/// are the outcomes of the address checks).
pub open spec fn contact_refusal(name: Seq<char>, email_ok: bool, phone_ok: bool) -> Option<
    (u16, Seq<char>),
> {
    if name.len() == 0 {
        refuse("Name must not be empty!"@)
    } else if !email_ok {
        refuse("Invalid email!"@)
    } else if !phone_ok {
        refuse("Invalid phone!"@)
    } else {
        None
    }
}

/// Checks the name, email and phone of a registration or profile update.
pub fn check_contact(name: &str, email_ok: bool, phone_ok: bool) -> (r: Result<(), ApiResponse>)
    ensures
        checked(r, contact_refusal(name@, email_ok, phone_ok)),
{
    if name.is_empty() {
        return Err(bad_request("Name must not be empty!"));
    }
    if !email_ok {
        return Err(bad_request("Invalid email!"));
    }
    if !phone_ok {
        return Err(bad_request("Invalid phone!"));
    }
    Ok(())
}

/// The roles a user record may have.
pub open spec fn user_roles() -> Seq<Seq<char>> {
    seq!["admin"@, "user"@, "agent"@]
}

/// The checks of a user creation or update: a name, a known role, then a
/// valid email and phone.
pub open spec fn user_refusal(name: Seq<char>, role: Seq<char>, email_ok: bool, phone_ok: bool) -> Option<
    (u16, Seq<char>),
> {
    if name.len() == 0 {
        refuse("Name must not be empty!"@)
    } else if !one_of(role, user_roles()) {
        refuse("Role must be admin, user or agent!"@)
    } else if !email_ok {
        refuse("Invalid email!"@)
    } else if !phone_ok {
        refuse("Invalid phone!"@)
    } else {
        None
    }
}

/// Checks the fields of a user creation or update.
pub fn check_user_fields(name: &str, role: &str, email_ok: bool, phone_ok: bool) -> (r: Result<
    (),
    ApiResponse,
>)
    ensures
        checked(r, user_refusal(name@, role@, email_ok, phone_ok)),
{
    if name.is_empty() {
        return Err(bad_request("Name must not be empty!"));
    }
    let roles: Vec<&str> = vec!["admin", "user", "agent"];
    assert(strs(roles@) =~= user_roles());
    if !is_one_of(role, &roles) {
        return Err(bad_request("Role must be admin, user or agent!"));
    }
    if !email_ok {
        return Err(bad_request("Invalid email!"));
    }
    if !phone_ok {
        return Err(bad_request("Invalid phone!"));
    }
    Ok(())
}

/// A phone number already in use by someone else is refused.
pub fn check_phone_free(in_use: bool) -> (r: Result<(), ApiResponse>)
    ensures
        checked(
            r,
            if in_use {
                refuse("Phone number is already in use!"@)
            } else {
                None
            },
        ),
{
    if in_use {
        return Err(bad_request("Phone number is already in use!"));
    }
    Ok(())
}

/// A user name already taken is refused.
pub fn check_username_free(exists: bool) -> (r: Result<(), ApiResponse>)
    ensures
        checked(
            r,
            if exists {
                refuse("User already exists!"@)
            } else {
                None
            },
        ),
{
    if exists {
        return Err(bad_request("User already exists!"));
    }
    Ok(())
}

/// Updating a user needs the phone lookup only when the phone changes.
pub fn phone_lookup_needed(old_phone: &str, new_phone: &str) -> (r: bool)
    ensures
        r == (old_phone@ != new_phone@),
{
    !text_eq(old_phone, new_phone)
}

/// The account status and permissions a user record gets: the given ones,
/// and `active` with no permissions by default.
pub struct AccountSettings {
    pub account_status: String,
    pub can_modify_order_status: bool,
    pub can_view_address: bool,
    pub can_view_phone: bool,
}

/// The settings of a created or updated user.
pub fn account_settings(
    account_status: &Option<String>,
    can_modify_order_status: Option<bool>,
    can_view_address: Option<bool>,
    can_view_phone: Option<bool>,
) -> (r: AccountSettings)
    ensures
        r.account_status@ == match account_status {
            Some(s) => s@,
            None => "active"@,
        },
        r.can_modify_order_status == match can_modify_order_status {
            Some(b) => b,
            None => false,
        },
        r.can_view_address == match can_view_address {
            Some(b) => b,
            None => false,
        },
        r.can_view_phone == match can_view_phone {
            Some(b) => b,
            None => false,
        },
{
    let status = match account_status {
        Some(s) => string_from(s.as_str()),
        None => string_from("active"),
    };
    AccountSettings {
        account_status: status,
        can_modify_order_status: match can_modify_order_status {
            Some(b) => b,
            None => false,
        },
        can_view_address: match can_view_address {
            Some(b) => b,
            None => false,
        },
        can_view_phone: match can_view_phone {
            Some(b) => b,
            None => false,
        },
    }
}

/// Who may update a user: administrators may update anyone; a request to
/// become an agent is made by the user itself and must keep the `user`
/// role; anything else gets `401`.
pub fn check_user_update(caller_role: &str, request_to_agent: bool, new_role: &str) -> (r: Result<
    (),
    ApiResponse,
>)
    ensures
        checked(
            r,
            if (!request_to_agent && caller_role@ != "admin"@) || (request_to_agent && new_role@
                != "user"@) {
                Some((401u16, "Unauthorized!"@))
            } else {
                None
            },
        ),
{
    if (!request_to_agent && !text_eq(caller_role, "admin")) || (request_to_agent && !text_eq(
        new_role,
        "user",
    )) {
        return Err(unauthorized());
    }
    Ok(())
}

/// The user a user update applies to: the caller itself for a request to
/// become an agent, the one in the path otherwise.
pub fn user_update_target(path_user_id: i32, request_to_agent: bool, caller_id: i32) -> (r: i32)
    ensures
        r == if request_to_agent {
            caller_id
        } else {
            path_user_id
        },
{
    if request_to_agent {
        caller_id
    } else {
        path_user_id
    }
}

/// The user a profile lookup applies to: the one in the path, or the caller
/// when the path names user `0`.
pub fn profile_target(path_user_id: i32, caller_id: i32) -> (r: i32)
    ensures
        r == if path_user_id == 0 {
            caller_id
        } else {
            path_user_id
        },
{
    if path_user_id == 0 {
        caller_id
    } else {
        path_user_id
    }
}

/// The notice the administrators get when a user asks to become an agent:
/// `Agent Role Upgrade Request` and `User <username> has requested to
/// upgrade to an 'Agent' role.`
pub fn agent_request_notice(username: &str) -> (n: Notice)
    ensures
        n.title@ == "Agent Role Upgrade Request"@,
        n.message@ == "User "@ + username@ + " has requested to upgrade to an 'Agent' role."@,
{
    let mut message = string_from("User ");
    message.append(username);
    message.append(" has requested to upgrade to an 'Agent' role.");
    Notice { title: string_from("Agent Role Upgrade Request"), message }
}

// ---------------------------------------------------------------------------
// The checks of a handler, in the order they are made
// ---------------------------------------------------------------------------

/// Why a self-registration is refused, by the first check that fails, in the
/// order the checks are made: the name, email and phone; a phone already in
/// use; a requested role other than `user` or `agent`; a taken user name
/// (`username_exists` is what its lookup gave; a failed lookup is `500
/// Something went wrong!`).
pub open spec fn registration_refusal(
    name: Seq<char>,
    email_ok: bool,
    phone_ok: bool,
    phone_in_use: bool,
    role: Option<String>,
    username_exists: Result<bool, ()>,
) -> Option<(u16, Seq<char>)> {
    if contact_refusal(name, email_ok, phone_ok) is Some {
        contact_refusal(name, email_ok, phone_ok)
    } else if phone_in_use {
        refuse("Phone number is already in use!"@)
    } else if role matches Some(x) && x@ != "user"@ && x@ != "agent"@ {
        refuse("Role must be user or agent!"@)
    } else {
        match username_exists {
            Ok(true) => refuse("User already exists!"@),
            Ok(false) => None,
            Err(_) => Some((500u16, "Something went wrong!"@)),
        }
    }
}

/// Makes the checks of a self-registration in order; the role and account
/// status the account gets when they all pass.
pub fn registration_decision(
    name: &str,
    email_ok: bool,
    phone_ok: bool,
    phone_in_use: bool,
    role: &Option<String>,
    username_exists: Result<bool, ()>,
) -> (r: Result<(String, String), ApiResponse>)
    ensures
        match registration_refusal(name@, email_ok, phone_ok, phone_in_use, *role, username_exists) {
            Some((code, msg)) => (r matches Err(e) && answers(e, code, msg)),
            None => (r matches Ok((ro, st)) && (if role matches Some(x) && x@ == "agent"@ {
                ro@ == "agent"@ && st@ == "pending"@
            } else {
                ro@ == "user"@ && st@ == "active"@
            })),
        },
{
    proof {
        reveal_strlit("user");
        reveal_strlit("agent");
        assert("user"@.len() == 4);
        assert("agent"@.len() == 5);
    }
    if let Err(e) = check_contact(name, email_ok, phone_ok) {
        return Err(e);
    }
    if let Err(e) = check_phone_free(phone_in_use) {
        return Err(e);
    }
    let granted = match registration_role(role) {
        Ok(g) => g,
        Err(e) => return Err(e),
    };
    match username_exists {
        Ok(exists) => {
            if let Err(e) = check_username_free(exists) {
                return Err(e);
            }
        },
        Err(_) => return Err(reply(500, "Something went wrong!")),
    }
    Ok(granted)
}

/// Why an administrator's creation of a user is refused, by the first check
/// that fails, in the order the checks are made: a caller who is not an
/// administrator (`401`); the name, role, email and phone; a phone already
/// in use; a taken user name (a failed lookup is `500 Something went
/// wrong!`).
pub open spec fn add_user_refusal(
    caller_role: Seq<char>,
    name: Seq<char>,
    role: Seq<char>,
    email_ok: bool,
    phone_ok: bool,
    phone_in_use: bool,
    username_exists: Result<bool, ()>,
) -> Option<(u16, Seq<char>)> {
    if caller_role != "admin"@ {
        Some((401u16, "Unauthorized!"@))
    } else if user_refusal(name, role, email_ok, phone_ok) is Some {
        user_refusal(name, role, email_ok, phone_ok)
    } else if phone_in_use {
        refuse("Phone number is already in use!"@)
    } else {
        match username_exists {
            Ok(true) => refuse("User already exists!"@),
            Ok(false) => None,
            Err(_) => Some((500u16, "Something went wrong!"@)),
        }
    }
}

/// Makes the checks of a user creation in order.
pub fn add_user_decision(
    caller_role: &str,
    name: &str,
    role: &str,
    email_ok: bool,
    phone_ok: bool,
    phone_in_use: bool,
    username_exists: Result<bool, ()>,
) -> (r: Result<(), ApiResponse>)
    ensures
        checked(
            r,
            add_user_refusal(caller_role@, name@, role@, email_ok, phone_ok, phone_in_use, username_exists),
        ),
{
    if !text_eq(caller_role, "admin") {
        return Err(unauthorized());
    }
    if let Err(e) = check_user_fields(name, role, email_ok, phone_ok) {
        return Err(e);
    }
    if let Err(e) = check_phone_free(phone_in_use) {
        return Err(e);
    }
    match username_exists {
        Ok(exists) => check_username_free(exists),
        Err(_) => Err(reply(500, "Something went wrong!")),
    }
}

/// Why a user update is refused before the user is looked up, by the first
/// check that fails, in the order the checks are made: who may update
/// (`401`), then the name, role, email and phone.
pub open spec fn user_update_refusal(
    caller_role: Seq<char>,
    request_to_agent: bool,
    name: Seq<char>,
    role: Seq<char>,
    email_ok: bool,
    phone_ok: bool,
) -> Option<(u16, Seq<char>)> {
    if (!request_to_agent && caller_role != "admin"@) || (request_to_agent && role != "user"@) {
        Some((401u16, "Unauthorized!"@))
    } else {
        user_refusal(name, role, email_ok, phone_ok)
    }
}

/// Makes the checks of a user update that come before the user is looked up,
/// in order.
pub fn check_user_update_request(
    caller_role: &str,
    request_to_agent: bool,
    name: &str,
    role: &str,
    email_ok: bool,
    phone_ok: bool,
) -> (r: Result<(), ApiResponse>)
    ensures
        checked(r, user_update_refusal(caller_role@, request_to_agent, name@, role@, email_ok, phone_ok)),
{
    if let Err(e) = check_user_update(caller_role, request_to_agent, role) {
        return Err(e);
    }
    check_user_fields(name, role, email_ok, phone_ok)
}

// ---------------------------------------------------------------------------
// Login and passwords
// ---------------------------------------------------------------------------

/// What login needs of the stored account.
pub struct LoginAccount {
    pub id: i32,
    pub account_status: String,
    pub password_hash: String,
    pub role_name: String,
    pub shop_id: i32,
}

/// The outcome of a login attempt: refused with an answer; the stored hash
/// could not be read; or granted, with the subject the token is issued for
/// (`<id>,<role name>,<shop id>`).
pub enum LoginDecision {
    Refuse(ApiResponse),
    UnreadableHash,
    Grant { subject: String },
}

/// The subject of the token issued at login.
pub open spec fn login_subject(a: LoginAccount) -> Seq<char> {
    decimal_int(a.id as int) + ","@ + a.role_name@ + ","@ + decimal_int(a.shop_id as int)
}

/// The subject issued at login splits at commas into three pieces (id,
/// role name, shop id) wherever the role name holds no comma; a reader that
/// asks for exactly two pieces refuses every such subject.
pub proof fn law_login_subject_has_three_pieces(a: LoginAccount)
    requires
        forall|i: int| 0 <= i < a.role_name@.len() ==> #[trigger] a.role_name@[i] != ',',
    ensures
        pieces(login_subject(a), ',') == seq![
            decimal_int(a.id as int),
            a.role_name@,
            decimal_int(a.shop_id as int),
        ],
        subject_parts(login_subject(a)) is None,
{
    reveal_strlit(",");
    let d = decimal_int(a.id as int);
    let s = decimal_int(a.shop_id as int);
    lemma_decimal_int_symbols(a.id as int);
    lemma_decimal_int_symbols(a.shop_id as int);
    assert forall|i: int| 0 <= i < d.len() implies #[trigger] d[i] != ',' by {
        assert(d[i] == '-' || is_digit(d[i]));
    }
    assert forall|i: int| 0 <= i < s.len() implies #[trigger] s[i] != ',' by {
        assert(s[i] == '-' || is_digit(s[i]));
    }
    lemma_pieces_three(d, a.role_name@, s, ',');
    assert(login_subject(a) =~= (d.push(',') + a.role_name@).push(',') + s);
}

/// Decides a login: an unknown user name gets `401 Invalid username!`, an
/// inactive account `401` with the activation message, a wrong password
/// `401 Invalid password!`; a right one grants the token.
pub fn login_decision(account: &Option<LoginAccount>, password: &str) -> (r: LoginDecision)
    ensures
        match account {
            None => r matches LoginDecision::Refuse(e) && answers(e, 401, "Invalid username!"@),
            Some(a) => if a.account_status@ != "active"@ {
                r matches LoginDecision::Refuse(e) && answers(e, 401, inactive_message())
            } else {
                match bcrypt_verify_result(password@, a.password_hash@) {
                    None => r is UnreadableHash,
                    Some(true) => r matches LoginDecision::Grant { subject } && subject@
                        == login_subject(*a),
                    Some(false) => r matches LoginDecision::Refuse(e) && answers(
                        e,
                        401,
                        "Invalid password!"@,
                    ),
                }
            },
        },
{
    match account {
        None => LoginDecision::Refuse(reply(401, "Invalid username!")),
        Some(a) => {
            if !text_eq(a.account_status.as_str(), "active") {
                return LoginDecision::Refuse(
                    reply(
                        401,
                        "Your account has not been activated yet. Please wait for an admin to approve your account or contact support for further assistance!",
                    ),
                );
            }
            match bcrypt_verify(password, a.password_hash.as_str()) {
                Err(_) => LoginDecision::UnreadableHash,
                Ok(false) => LoginDecision::Refuse(reply(401, "Invalid password!")),
                Ok(true) => {
                    let mut subject = format_i32(a.id);
                    subject.append(",");
                    subject.append(a.role_name.as_str());
                    subject.append(",");
                    let shop = format_i32(a.shop_id);
                    subject.append(shop.as_str());
                    LoginDecision::Grant { subject }
                },
            }
        },
    }
}

/// The outcome of checking the old password of a password change: refused
/// with `401 Incorrect password!`, the stored hash could not be read, or
/// accepted.
pub enum PasswordCheck {
    Incorrect(ApiResponse),
    UnreadableHash,
    Correct,
}

/// Checks the old password of a password change against the stored hash.
pub fn check_old_password(old_password: &str, stored_hash: &str) -> (r: PasswordCheck)
    ensures
        match bcrypt_verify_result(old_password@, stored_hash@) {
            None => r is UnreadableHash,
            Some(true) => r is Correct,
            Some(false) => r matches PasswordCheck::Incorrect(e) && answers(
                e,
                401,
                "Incorrect password!"@,
            ),
        },
{
    match bcrypt_verify(old_password, stored_hash) {
        Err(_) => PasswordCheck::UnreadableHash,
        Ok(true) => PasswordCheck::Correct,
        Ok(false) => PasswordCheck::Incorrect(reply(401, "Incorrect password!")),
    }
}

/// Hashes a password for the hashing endpoint: the hash, or `500 Failed to
/// hash password` when hashing fails. A hash it gives verifies against the
/// password and has the bcrypt form `$2b$12$...` of 60 characters, so it
/// differs from every password that does not itself have that form.
pub fn hash_password(password: &str) -> (r: Result<HashedPasswordOutput, ApiResponse>)
    ensures
        r matches Ok(out) ==> bcrypt_verify_result(password@, out.hashed_password@) == Some(true),
        r matches Ok(out) ==> out.hashed_password@.len() == 60 && out.hashed_password@.subrange(0, 7)
            == "$2b$12$"@,
        r matches Ok(out) ==> (password@.len() != 60 || password@.subrange(0, 7) != "$2b$12$"@
            ==> out.hashed_password@ != password@),
        r matches Err(e) ==> answers(e, 500, "Failed to hash password"@),
{
    match bcrypt_hash(password) {
        Ok(h) => Ok(HashedPasswordOutput { hashed_password: h }),
        Err(_) => Err(reply(500, "Failed to hash password")),
    }
}

/// What a password reset needs of the stored account.
pub struct ResetAccount {
    pub name: String,
    pub email: String,
    pub role: String,
    pub account_status: String,
}

/// Decides a password reset request: an unknown account gets `401 Invalid
/// username!`, an inactive one `401` with the activation message, an
/// administrator or an email that does not match `401 Unauthorized!`;
/// otherwise the administrators are told, with the message returned.
pub fn password_reset_decision(account: &Option<ResetAccount>, email: &str) -> (r: Result<
    String,
    ApiResponse,
>)
    ensures
        match account {
            None => r matches Err(e) && answers(e, 401, "Invalid username!"@),
            Some(a) => if a.account_status@ != "active"@ {
                r matches Err(e) && answers(e, 401, inactive_message())
            } else if a.role@ == "admin"@ || a.email@ != email@ {
                r matches Err(e) && answers(e, 401, "Unauthorized!"@)
            } else {
                r matches Ok(m) && m@ == "A password reset request was made for user "@ + a.name@
                    + " ("@ + email@
                    + "). Please verify legitimacy and monitor for any suspicious activity."@
            },
        },
{
    match account {
        None => Err(reply(401, "Invalid username!")),
        Some(a) => {
            if !text_eq(a.account_status.as_str(), "active") {
                return Err(
                    reply(
                        401,
                        "Your account has not been activated yet. Please wait for an admin to approve your account or contact support for further assistance!",
                    ),
                );
            }
            if text_eq(a.role.as_str(), "admin") || !text_eq(a.email.as_str(), email) {
                return Err(unauthorized());
            }
            let mut m = string_from("A password reset request was made for user ");
            m.append(a.name.as_str());
            m.append(" (");
            m.append(email);
            m.append("). Please verify legitimacy and monitor for any suspicious activity.");
            Ok(m)
        },
    }
}

} // verus!
