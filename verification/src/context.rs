//! The request context and the records that the guards read.

use vstd::prelude::*;

verus! {

/// An opaque identifier of a record.
pub type ID = String;

/// The claims of a verified bearer credential.
#[derive(Debug)]
pub struct JWTPayload {
    /// The user that the credential was issued to.
    pub sub: ID,
    /// Whether the credential was derived from a long-lived auth token
    /// rather than from a login.
    pub is_generated_from_auth_token: bool,
}

/// The user record that a principal resolves to.
#[derive(Debug)]
pub struct UserSecured {
    pub id: ID,
    pub is_admin: bool,
}

/// Which of the optional services the registry holds.
#[derive(Clone, Copy, Debug, PartialEq, Eq, Structural)]
pub struct Capabilities {
    pub chat: bool,
    pub completion: bool,
    pub page: bool,
}

/// What one operation runs under: who asks, and which optional services exist.
/// It is made once for an operation and not changed after.
#[derive(Debug)]
pub struct Context {
    pub claims: Option<JWTPayload>,
    pub locator: Capabilities,
}

#[derive(Clone, Copy, Debug, PartialEq, Eq, Structural)]
pub enum LicenseType {
    Community,
    Team,
    Enterprise,
}

#[derive(Clone, Copy, Debug, PartialEq, Eq, Structural)]
pub enum LicenseStatus {
    Valid,
    Expired,
    SeatsExceeded,
}

/// The license in force.
#[derive(Clone, Copy, Debug, PartialEq, Eq, Structural)]
pub struct LicenseInfo {
    pub kind: LicenseType,
    pub status: LicenseStatus,
}

#[derive(Debug)]
pub struct Thread {
    pub id: ID,
    pub user_id: ID,
    pub is_ephemeral: bool,
}

#[derive(Debug)]
pub struct Page {
    pub id: ID,
    pub author_id: ID,
}

#[derive(Debug)]
pub struct PageSection {
    pub id: ID,
    pub page_id: ID,
}

} // verus!
