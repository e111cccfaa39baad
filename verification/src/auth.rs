//! The checks every protected endpoint makes before it touches the
//! database: reading the bearer token from the `Authorization` header,
//! reading the subject of a verified token (`"<user id>,<role>"`), and the
//! role gates.

use vstd::prelude::*;
use crate::numeric::{decimal_int, is_digit, lemma_decimal_int_symbols, lemma_parse_i32_decimal, parse_i32, parse_i32_spec};
use crate::response::{answers, fails_with, reply, unauthorized, ApiResponse};
use crate::text::{contains, contains_text, is_ws, lemma_pieces_two, lemma_words_append_word, lemma_words_append_ws, pieces, split_char, split_whitespace, string_from, text_eq, texts, words};

verus! {

// ---------------------------------------------------------------------------
// Bearer token
// ---------------------------------------------------------------------------

/// The header text holds exactly two words, the first being `Bearer`.
pub open spec fn is_bearer_header(h: Seq<char>) -> bool {
    words(h).len() == 2 && words(h)[0] == "Bearer"@
}

/// What the `Authorization` header yields: the token, or the answer given
/// when it is missing (`401`) or not of the form `Bearer <token>` (`400`).
/// `header` is the header's text, or `None` when the request has none.
pub open spec fn bearer_outcome(header: Option<Seq<char>>) -> Result<Seq<char>, (u16, Seq<char>)> {
    match header {
        None => Err((401u16, "Authorization header missing"@)),
        Some(h) => if is_bearer_header(h) {
            Ok(words(h)[1])
        } else {
            Err((400u16, "Invalid Authorization header format"@))
        },
    }
}

/// The bearer token of a request whose endpoint requires one.
pub fn bearer_token(header: Option<&str>) -> (r: Result<String, ApiResponse>)
    ensures
        match bearer_outcome(match header {
            Some(h) => Some(h@),
            None => None,
        }) {
            Ok(t) => r matches Ok(tok) && tok@ == t,
            Err((code, msg)) => r matches Err(resp) && answers(resp, code, msg),
        },
{
    match header {
        None => Err(reply(401, "Authorization header missing")),
        Some(h) => {
            let parts = split_whitespace(h);
            proof {
                assert(texts(parts@).len() == parts@.len());
            }
            if parts.len() == 2 && text_eq(parts[0].as_str(), "Bearer") {
                proof {
                    assert(texts(parts@)[0] == parts@[0]@);
                    assert(texts(parts@)[1] == parts@[1]@);
                }
                Ok(string_from(parts[1].as_str()))
            } else {
                proof {
                    if parts@.len() == 2 {
                        assert(texts(parts@)[0] == parts@[0]@);
                    }
                }
                Err(reply(400, "Invalid Authorization header format"))
            }
        },
    }
}

/// The bearer token of a request whose endpoint also serves anonymous
/// callers: the token when the header is `Bearer <token>`, and the empty
/// text otherwise.
pub fn optional_bearer_token(header: Option<&str>) -> (r: String)
    ensures
        r@ == match bearer_outcome(match header {
            Some(h) => Some(h@),
            None => None,
        }) {
            Ok(t) => t,
            Err(_) => Seq::<char>::empty(),
        },
{
    match bearer_token(header) {
        Ok(t) => t,
        Err(_) => String::new(),
    }
}

/// A header `Bearer <token>` yields the token, for every token that is a
/// single word (non-empty, without whitespace).
pub proof fn law_bearer_header_round_trip(token: Seq<char>)
    requires
        token.len() > 0,
        forall|i: int| 0 <= i < token.len() ==> !is_ws(#[trigger] token[i]),
    ensures
        bearer_outcome(Some("Bearer "@ + token)) == Ok::<Seq<char>, (u16, Seq<char>)>(token),
{
    reveal_strlit("Bearer");
    reveal_strlit("Bearer ");
    let b = "Bearer"@;
    let e = Seq::<char>::empty();
    assert(e + b =~= b);
    lemma_words_append_word(e, b);
    assert(words(e) =~= Seq::<Seq<char>>::empty());
    lemma_words_append_ws(b, ' ');
    assert("Bearer "@ =~= b.push(' '));
    lemma_words_append_word(b.push(' '), token);
    assert(words("Bearer "@ + token) =~= seq![b, token]);
}

// ---------------------------------------------------------------------------
// Subject of a verified token
// ---------------------------------------------------------------------------

/// The user id text and the role that a token subject holds.
#[derive(Debug)]
pub struct Claims {
    pub user_id: String,
    pub role: String,
}

/// The subject `s` read as `"<user id>,<role>"`: exactly two comma-separated
/// pieces.
pub open spec fn subject_parts(s: Seq<char>) -> Option<(Seq<char>, Seq<char>)> {
    let p = pieces(s, ',');
    if p.len() == 2 {
        Some((p[0], p[1]))
    } else {
        None
    }
}

/// A subject written as `<user id>,<role>`, for a role without commas,
/// reads back as that user id text and that role, and the id text parses
/// back to the id.
pub proof fn law_subject_round_trip(user_id: i32, role: Seq<char>)
    requires
        forall|i: int| 0 <= i < role.len() ==> #[trigger] role[i] != ',',
    ensures
        subject_parts(decimal_int(user_id as int) + ","@ + role) == Some(
            (decimal_int(user_id as int), role),
        ),
        parse_i32_spec(decimal_int(user_id as int)) == Some(user_id as int),
{
    reveal_strlit(",");
    let d = decimal_int(user_id as int);
    lemma_decimal_int_symbols(user_id as int);
    assert forall|i: int| 0 <= i < d.len() implies #[trigger] d[i] != ',' by {
        assert(d[i] == '-' || is_digit(d[i]));
    }
    lemma_pieces_two(d, role, ',');
    assert(d + ","@ + role =~= d.push(',') + role);
    lemma_parse_i32_decimal(user_id);
}

/// The claims of a token subject; `500` (`Invalid sub format in token`)
/// unless it splits into exactly two pieces at commas.
pub fn parse_subject(sub: &str) -> (r: Result<Claims, ApiResponse>)
    ensures
        match subject_parts(sub@) {
            Some((id, role)) => r matches Ok(c) && c.user_id@ == id && c.role@ == role,
            None => fails_with(r, 500, "Invalid sub format in token"@),
        },
{
    let parts = split_char(sub, ',');
    proof {
        assert(texts(parts@).len() == parts@.len());
    }
    if parts.len() != 2 {
        return Err(reply(500, "Invalid sub format in token"));
    }
    proof {
        assert(texts(parts@)[0] == parts@[0]@);
        assert(texts(parts@)[1] == parts@[1]@);
    }
    Ok(Claims { user_id: string_from(parts[0].as_str()), role: string_from(parts[1].as_str()) })
}

/// The claims of a request whose token the signer checked: `verified` is
/// the subject the check gave back, or `None` when the token was rejected
/// (`401`, `Invalid token`).
pub fn verified_claims(verified: Option<String>) -> (r: Result<Claims, ApiResponse>)
    ensures
        match verified {
            None => fails_with(r, 401, "Invalid token"@),
            Some(sub) => match subject_parts(sub@) {
                Some((id, role)) => r matches Ok(c) && c.user_id@ == id && c.role@ == role,
                None => fails_with(r, 500, "Invalid sub format in token"@),
            },
        },
{
    match verified {
        None => Err(reply(401, "Invalid token")),
        Some(sub) => parse_subject(sub.as_str()),
    }
}

/// The claims of a caller of an endpoint that also serves anonymous callers.
/// `token` is what `optional_bearer_token` gave; when it is empty no check
/// is made and the caller is anonymous (`None`); otherwise `verified` is
/// the outcome of checking it, as for `verified_claims`.
pub fn viewer_claims(token: &str, verified: Option<String>) -> (r: Result<Option<Claims>, ApiResponse>)
    ensures
        token@.len() == 0 ==> r matches Ok(None),
        token@.len() > 0 ==> match verified {
            None => fails_with(r, 401, "Invalid token"@),
            Some(sub) => match subject_parts(sub@) {
                Some((id, role)) => r matches Ok(Some(c)) && c.user_id@ == id && c.role@ == role,
                None => fails_with(r, 500, "Invalid sub format in token"@),
            },
        },
{
    if token.is_empty() {
        return Ok(None);
    }
    match verified_claims(verified) {
        Ok(c) => Ok(Some(c)),
        Err(e) => Err(e),
    }
}

impl Claims {
    /// The user id as a number (`str::parse::<i32>`); `None` when the text
    /// is not one.
    pub fn user_id_number(&self) -> (r: Option<i32>)
        ensures
            r matches Some(v) ==> parse_i32_spec(self.user_id@) == Some(v as int),
            r is None ==> parse_i32_spec(self.user_id@) is None,
    {
        parse_i32(self.user_id.as_str())
    }
}

/// The role of a viewer: that of the claims, and `user` for an anonymous one.
pub fn viewer_role(c: &Option<Claims>) -> (r: String)
    ensures
        r@ == match c {
            Some(c) => c.role@,
            None => "user"@,
        },
{
    match c {
        Some(c) => string_from(c.role.as_str()),
        None => string_from("user"),
    }
}

// ---------------------------------------------------------------------------
// Role gates
// ---------------------------------------------------------------------------

/// Only administrators pass; others get `401 Unauthorized!`.
pub fn require_admin(role: &str) -> (r: Result<(), ApiResponse>)
    ensures
        role@ == "admin"@ ==> r is Ok,
        role@ != "admin"@ ==> fails_with(r, 401, "Unauthorized!"@),
{
    if text_eq(role, "admin") {
        Ok(())
    } else {
        Err(unauthorized())
    }
}

/// Administrators and agents pass; others get `401 Unauthorized!`.
pub fn require_admin_or_agent(role: &str) -> (r: Result<(), ApiResponse>)
    ensures
        (role@ == "admin"@ || role@ == "agent"@) ==> r is Ok,
        !(role@ == "admin"@ || role@ == "agent"@) ==> fails_with(r, 401, "Unauthorized!"@),
{
    if text_eq(role, "admin") || text_eq(role, "agent") {
        Ok(())
    } else {
        Err(unauthorized())
    }
}

/// Everyone but the `user` role passes; `user` gets `401 Unauthorized!`.
pub fn forbid_user(role: &str) -> (r: Result<(), ApiResponse>)
    ensures
        role@ != "user"@ ==> r is Ok,
        role@ == "user"@ ==> fails_with(r, 401, "Unauthorized!"@),
{
    if text_eq(role, "user") {
        Err(unauthorized())
    } else {
        Ok(())
    }
}

/// Roles whose name contains `user` get `401 Unauthorized!`; others pass.
pub fn forbid_user_like(role: &str) -> (r: Result<(), ApiResponse>)
    ensures
        !contains_text(role@, "user"@) ==> r is Ok,
        contains_text(role@, "user"@) ==> fails_with(r, 401, "Unauthorized!"@),
{
    if contains(role, "user") {
        Err(unauthorized())
    } else {
        Ok(())
    }
}

} // verus!
