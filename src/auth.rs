//! Role checks on an authenticated caller.
use crate::error::{AppError, AppErrorView};
use crate::text::{same_text, trim_text, trimmed};
use vstd::prelude::*;

verus! {

/// The scheme word that opens an `Authorization` header.
pub open spec fn bearer_prefix() -> Seq<char> {
    "Bearer "@
}

/// The text with every leading copy of `Bearer ` removed.
pub open spec fn strip_bearer(s: Seq<char>) -> Seq<char>
    decreases s.len(),
{
    if s.len() >= 7 && s.take(7) == bearer_prefix() {
        strip_bearer(s.skip(7))
    } else {
        s
    }
}

/// The token carried by an `Authorization` header: the header must open
/// with `Bearer `; every leading `Bearer ` is dropped and the rest trimmed.
pub fn bearer_token(header: &str) -> (r: Result<String, AppError>)
    ensures
        !(header@.len() >= 7 && header@.take(7) == bearer_prefix()) ==> r is Err && r->Err_0@
            == AppErrorView::Unauthorized,
        header@.len() >= 7 && header@.take(7) == bearer_prefix() ==> r is Ok && r->Ok_0@
            == trimmed(strip_bearer(header@)),
{
    let mut rest: &str = header;
    let mut stripped: usize = 0;
    while rest.unicode_len() >= 7 && same_text(rest.substring_char(0, 7), "Bearer ")
        invariant
            strip_bearer(rest@) == strip_bearer(header@),
            stripped == 0 ==> rest@ == header@,
            stripped <= 1,
            stripped == 1 ==> header@.len() >= 7 && header@.take(7) == bearer_prefix(),
        decreases rest@.len(),
    {
        rest = rest.substring_char(7, rest.unicode_len());
        stripped = 1;
    }
    if stripped == 0 {
        return Err(AppError::Unauthorized);
    }
    Ok(trim_text(rest))
}

/// The caller, as established by the bearer token.
#[derive(Debug)]
pub struct AuthUser {
    pub user_id: u128,
    pub role: String,
}

/// The role that may use the administrative operations.
pub open spec fn admin_role() -> Seq<char> {
    "admin"@
}

/// Refuses a caller whose role is not `role`.
pub fn ensure_role(user: &AuthUser, role: &str) -> (r: Result<(), AppError>)
    ensures
        r is Ok <==> user.role@ == role@,
        r is Err ==> r->Err_0@ == AppErrorView::Forbidden,
{
    if !same_text(user.role.as_str(), role) {
        return Err(AppError::Forbidden);
    }
    Ok(())
}

/// Refuses a caller who is not an administrator.
pub fn ensure_admin(user: &AuthUser) -> (r: Result<(), AppError>)
    ensures
        r is Ok <==> user.role@ == admin_role(),
        r is Err ==> r->Err_0@ == AppErrorView::Forbidden,
{
    ensure_role(user, "admin")
}

} // verus!
