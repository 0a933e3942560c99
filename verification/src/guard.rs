//! The authorization guards: predicate checks that run before any service is
//! asked to change or to show anything.

use vstd::prelude::*;
use crate::context::{Context, JWTPayload, LicenseInfo, LicenseStatus, LicenseType, UserSecured};
use crate::error::CoreError;

verus! {

pub const NOT_LOGGED_IN: &'static str = "You're not logged in";

pub const AUTH_TOKEN_NOT_ALLOWED: &'static str =
    "Invoking this API with an auth token is not allowed";

pub const ADMIN_REQUIRED: &'static str = "You must be admin to proceed";

pub const LICENSE_LACKS_FEATURE: &'static str =
    "Your plan doesn't include support for this feature.";

pub const LICENSE_EXPIRED: &'static str =
    "Your license has expired - please renew it to continue using this feature.";

pub const LICENSE_SEATS_EXCEEDED: &'static str =
    "You have more active users than seats included in your license - please upgrade your license.";

pub const PAGE_SERVICE_DISABLED: &'static str = "Page service is not enabled";

/// The verdict on the principal alone, before its user record is loaded.
pub open spec fn claims_verdict(ctx: Context, allow_auth_token: bool) -> Result<JWTPayload, CoreError> {
    match ctx.claims {
        None => Err(CoreError::Unauthorized(NOT_LOGGED_IN)),
        Some(claims) => if !allow_auth_token && claims.is_generated_from_auth_token {
            Err(CoreError::Unauthorized(AUTH_TOKEN_NOT_ALLOWED))
        } else {
            Ok(claims)
        },
    }
}

/// The principal of the request, or `Unauthorized` for an anonymous one.
pub fn check_claims(ctx: &Context) -> (r: Result<&JWTPayload, CoreError>)
    ensures
        match r {
            Ok(claims) => ctx.claims == Some(*claims),
            Err(e) => ctx.claims is None && e == CoreError::Unauthorized(NOT_LOGGED_IN),
        },
{
    match &ctx.claims {
        Some(claims) => Ok(claims),
        None => Err(CoreError::Unauthorized(NOT_LOGGED_IN)),
    }
}

/// The principal whose user record is to be loaded: `Unauthorized` for an
/// anonymous request, and for a principal derived from an auth token where
/// the operation does not allow one. No user record is loaded for either.
pub fn check_user_and_auth_token(ctx: &Context, allow_auth_token: bool) -> (r: Result<
    &JWTPayload,
    CoreError,
>)
    ensures
        match r {
            Ok(claims) => claims_verdict(*ctx, allow_auth_token) == Ok::<JWTPayload, CoreError>(
                *claims,
            ),
            Err(e) => claims_verdict(*ctx, allow_auth_token) == Err::<JWTPayload, CoreError>(e),
        },
{
    let claims = check_claims(ctx)?;
    if !allow_auth_token && claims.is_generated_from_auth_token {
        return Err(CoreError::Unauthorized(AUTH_TOKEN_NOT_ALLOWED));
    }
    Ok(claims)
}

/// As `check_user_and_auth_token`, for an operation closed to auth tokens.
pub fn check_user(ctx: &Context) -> (r: Result<&JWTPayload, CoreError>)
    ensures
        match r {
            Ok(claims) => claims_verdict(*ctx, false) == Ok::<JWTPayload, CoreError>(*claims),
            Err(e) => claims_verdict(*ctx, false) == Err::<JWTPayload, CoreError>(e),
        },
{
    check_user_and_auth_token(ctx, false)
}

/// As `check_user_and_auth_token`, for an operation open to auth tokens.
pub fn check_user_allow_auth_token(ctx: &Context) -> (r: Result<&JWTPayload, CoreError>)
    ensures
        match r {
            Ok(claims) => claims_verdict(*ctx, true) == Ok::<JWTPayload, CoreError>(*claims),
            Err(e) => claims_verdict(*ctx, true) == Err::<JWTPayload, CoreError>(e),
        },
{
    check_user_and_auth_token(ctx, true)
}

/// What the failed load of a user record ends the operation with. A
/// principal whose user is gone or deactivated is no longer authorized: the
/// service's failure stands where it is an authorization failure itself, and
/// every other failure of the load goes out as `Unauthorized`.
pub open spec fn load_failure(error: CoreError) -> CoreError {
    match error {
        CoreError::Unauthorized(_) | CoreError::Forbidden(_) => error,
        _ => CoreError::Unauthorized(NOT_LOGGED_IN),
    }
}

/// The failure that the failed load of a user record ends the operation with.
pub fn check_loaded(error: CoreError) -> (out: CoreError)
    ensures
        out == load_failure(error),
{
    match error {
        CoreError::Unauthorized(m) => CoreError::Unauthorized(m),
        CoreError::Forbidden(m) => CoreError::Forbidden(m),
        _ => CoreError::Unauthorized(NOT_LOGGED_IN),
    }
}

/// The verdict on a loaded user where an administrator is required.
pub open spec fn admin_verdict(user: UserSecured) -> Result<(), CoreError> {
    if user.is_admin {
        Ok(())
    } else {
        Err(CoreError::Forbidden(ADMIN_REQUIRED))
    }
}

/// `Forbidden` unless the user is an administrator.
pub fn check_admin(user: &UserSecured) -> (r: Result<(), CoreError>)
    ensures
        r == admin_verdict(*user),
{
    if !user.is_admin {
        return Err(CoreError::Forbidden(ADMIN_REQUIRED));
    }
    Ok(())
}

/// The verdict on a license where one of `allowed` tiers is required: the
/// tier is tested first, then the license's standing.
pub open spec fn license_verdict(license: LicenseInfo, allowed: Seq<LicenseType>) -> Result<
    (),
    CoreError,
> {
    if !allowed.contains(license.kind) {
        Err(CoreError::InvalidLicense(LICENSE_LACKS_FEATURE))
    } else {
        match license.status {
            LicenseStatus::Valid => Ok(()),
            LicenseStatus::Expired => Err(CoreError::InvalidLicense(LICENSE_EXPIRED)),
            LicenseStatus::SeatsExceeded => Err(CoreError::InvalidLicense(LICENSE_SEATS_EXCEEDED)),
        }
    }
}

/// `InvalidLicense` unless the license is of an allowed tier and in good standing.
pub fn check_license(license: &LicenseInfo, license_type: &Vec<LicenseType>) -> (r: Result<
    (),
    CoreError,
>)
    ensures
        r == license_verdict(*license, license_type@),
{
    let mut found = false;
    let mut i: usize = 0;
    while i < license_type.len()
        invariant
            i <= license_type.len(),
            found == license_type@.take(i as int).contains(license.kind),
        decreases license_type.len() - i,
    {
        if license_type[i] == license.kind {
            found = true;
        }
        proof {
            let t = license_type@.take(i + 1);
            assert(t == license_type@.take(i as int).push(license_type@[i as int]));
            if license_type@.take(i as int).contains(license.kind) {
                let j = choose|j: int|
                    0 <= j < i && license_type@.take(i as int)[j] == license.kind;
                assert(t[j] == license.kind);
            }
            if license_type@[i as int] == license.kind {
                assert(t[i as int] == license.kind);
            }
        }
        i += 1;
    }
    proof {
        assert(license_type@.take(i as int) == license_type@);
    }
    if !found {
        return Err(CoreError::InvalidLicense(LICENSE_LACKS_FEATURE));
    }
    match license.status {
        LicenseStatus::Valid => Ok(()),
        LicenseStatus::Expired => Err(CoreError::InvalidLicense(LICENSE_EXPIRED)),
        LicenseStatus::SeatsExceeded => Err(CoreError::InvalidLicense(LICENSE_SEATS_EXCEEDED)),
    }
}

} // verus!
