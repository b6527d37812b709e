//! Request middleware: the current operator taken from a verified access
//! token, the operation audit of write requests, and the tenant access check.

use vstd::prelude::*;
use vstd::string::*;
use crate::auth::AccessClaims;
use crate::error::AppError;
use crate::text::owned;

pub mod audit;
pub mod tenant_access;

verus! {

/// The current operator, as the verified access token describes it.
pub struct Operator {
    pub user_id: i64,
    pub tenant_id: i64,
    pub username: String,
    pub roles: Vec<String>,
    /// Only the admin client issues tokens, so this is always `admin`.
    pub client_type: String,
}

/// The role codes that the claims carry; none when the claim is absent.
pub open spec fn role_codes(roc: Option<Vec<String>>) -> Seq<String> {
    match roc {
        Some(v) => v@,
        None => Seq::<String>::empty(),
    }
}

impl Operator {
    /// The operator of verified access-token claims.
    pub fn from_claims(claims: AccessClaims) -> (r: Operator)
        ensures
            r.user_id == claims.uid,
            r.tenant_id == claims.tid,
            r.username == claims.sub,
            r.roles@ == role_codes(claims.roc),
            r.client_type@ == "admin"@,
    {
        let roles = match claims.roc {
            Some(v) => v,
            None => Vec::new(),
        };
        Operator {
            user_id: claims.uid,
            tenant_id: claims.tid,
            username: claims.sub,
            roles,
            client_type: owned("admin"),
        }
    }
}

/// The operator of a request: the claims of its verified bearer token, or
/// `Unauthorized` when the request carries no token that verifies, or when
/// the token's id is blacklisted (it was revoked by a logout, a forced
/// logout or a password change). `revoked` is whether the blacklist holds
/// the marker of the claims' `jti`.
pub fn authenticate(claims: Option<AccessClaims>, revoked: bool) -> (r: Result<Operator, AppError>)
    ensures
        match claims {
            Some(c) => if revoked {
                r matches Err(AppError::Unauthorized)
            } else {
                r matches Ok(o) && o.user_id == c.uid && o.tenant_id == c.tid && o.username == c.sub
                    && o.roles@ == role_codes(c.roc) && o.client_type@ == "admin"@
            },
            None => r matches Err(AppError::Unauthorized),
        },
{
    match claims {
        Some(c) => if revoked {
            Err(AppError::Unauthorized)
        } else {
            Ok(Operator::from_claims(c))
        },
        None => Err(AppError::Unauthorized),
    }
}

} // verus!
