//! The operations that change something. Each is given as the checks it runs
//! under and the service call it ends in; what the call carries besides stays
//! with the driver of the run.

use vstd::prelude::*;
use crate::check::{Check, PolicyKind};
use crate::context::{LicenseType, ID};
use crate::error::CoreError;
use crate::operation::{Call, Operation};
use crate::outside::{decode_standard, standard_base64};

verus! {

pub const OWN_ACTIVE_STATUS: &'static str = "You cannot change your own active status";

pub const OWN_ROLE: &'static str = "You cannot update your own role";

pub const OTHERS_AVATAR: &'static str = "You cannot change another user's avatar";

pub const OTHERS_NAME: &'static str = "You cannot change another user's name";

pub const THREAD_MISSING: &'static str = "Thread not found";

pub const AVATAR_NOT_BASE64: &'static str = "avatar is not valid base64 string";

#[derive(Default)]
pub struct Mutation;

impl Mutation {
    /// Replaces the token that workers register with. For administrators.
    pub fn reset_registration_token() -> (op: Operation)
        ensures
            op.plan@ == seq![Check::Admin],
            op.call == Call::WorkerResetRegistrationToken,
            op.window is None,
    {
        Operation {
            plan: vec![Check::Admin],
            call: Call::WorkerResetRegistrationToken,
            window: None,
        }
    }

    /// Asks for an invitation to be sent. Open to every caller with a valid input.
    pub fn request_invitation_email() -> (op: Operation)
        ensures
            op.plan@ == seq![Check::Valid],
            op.call == Call::AuthRequestInvitationEmail,
            op.window is None,
    {
        Operation {
            plan: vec![Check::Valid],
            call: Call::AuthRequestInvitationEmail,
            window: None,
        }
    }

    /// Makes an address at which a user can reset the password. For administrators.
    pub fn generate_reset_password_url() -> (op: Operation)
        ensures
            op.plan@ == seq![Check::Admin],
            op.call == Call::AuthGenerateResetPasswordUrl,
            op.window is None,
    {
        Operation {
            plan: vec![Check::Admin],
            call: Call::AuthGenerateResetPasswordUrl,
            window: None,
        }
    }

    /// Asks for a password reset mail. Open to every caller with a valid input.
    pub fn request_password_reset_email() -> (op: Operation)
        ensures
            op.plan@ == seq![Check::Valid],
            op.call == Call::AuthRequestPasswordResetEmail,
            op.window is None,
    {
        Operation {
            plan: vec![Check::Valid],
            call: Call::AuthRequestPasswordResetEmail,
            window: None,
        }
    }

    /// Resets a password with a reset code. Open to every caller with a valid input.
    pub fn password_reset() -> (op: Operation)
        ensures
            op.plan@ == seq![Check::Valid],
            op.call == Call::AuthPasswordReset,
            op.window is None,
    {
        Operation {
            plan: vec![Check::Valid],
            call: Call::AuthPasswordReset,
            window: None,
        }
    }

    /// Changes the caller's password. The principal alone decides; no user record is loaded.
    pub fn password_change() -> (op: Operation)
        ensures
            op.plan@ == seq![
                Check::Claims,
                Check::Valid,
            ],
            op.call == Call::AuthUpdateUserPassword,
            op.window is None,
    {
        Operation {
            plan: vec![Check::Claims, Check::Valid],
            call: Call::AuthUpdateUserPassword,
            window: None,
        }
    }

    /// Replaces the caller's auth token.
    pub fn reset_user_auth_token() -> (op: Operation)
        ensures
            op.plan@ == seq![Check::Claims],
            op.call == Call::AuthResetUserAuthToken,
            op.window is None,
    {
        Operation {
            plan: vec![Check::Claims],
            call: Call::AuthResetUserAuthToken,
            window: None,
        }
    }

    /// Ends all sessions of the caller.
    pub fn logout_all_sessions() -> (op: Operation)
        ensures
            op.plan@ == seq![Check::Claims],
            op.call == Call::AuthLogoutAllSessions,
            op.window is None,
    {
        Operation {
            plan: vec![Check::Claims],
            call: Call::AuthLogoutAllSessions,
            window: None,
        }
    }

    /// Activates or deactivates user `id`. For administrators, and never on oneself.
    pub fn update_user_active(id: ID) -> (op: Operation)
        ensures
            op.plan@ == seq![
                Check::Admin,
                Check::NotSelf { target: id, message: OWN_ACTIVE_STATUS },
            ],
            op.call == Call::AuthUpdateUserActive,
            op.window is None,
    {
        Operation {
            plan: vec![
                Check::Admin,
                Check::NotSelf { target: id, message: OWN_ACTIVE_STATUS },
            ],
            call: Call::AuthUpdateUserActive,
            window: None,
        }
    }

    /// Makes user `id` an administrator or an ordinary user. For administrators,
    /// and never on oneself.
    pub fn update_user_role(id: ID) -> (op: Operation)
        ensures
            op.plan@ == seq![
                Check::Admin,
                Check::NotSelf { target: id, message: OWN_ROLE },
            ],
            op.call == Call::AuthUpdateUserRole,
            op.window is None,
    {
        Operation {
            plan: vec![Check::Admin, Check::NotSelf { target: id, message: OWN_ROLE }],
            call: Call::AuthUpdateUserRole,
            window: None,
        }
    }

    /// Sets or clears the avatar of user `id`, who must be the caller. The avatar
    /// is decoded by `decode_avatar` once the checks have passed.
    pub fn upload_user_avatar_base64(id: ID) -> (op: Operation)
        ensures
            op.plan@ == seq![
                Check::Claims,
                Check::SelfOnly { target: id, message: OTHERS_AVATAR },
            ],
            op.call == Call::AuthUpdateUserAvatar,
            op.window is None,
    {
        Operation {
            plan: vec![
                Check::Claims,
                Check::SelfOnly { target: id, message: OTHERS_AVATAR },
            ],
            call: Call::AuthUpdateUserAvatar,
            window: None,
        }
    }

    /// Renames user `id`, who must be the caller.
    pub fn update_user_name(id: ID) -> (op: Operation)
        ensures
            op.plan@ == seq![
                Check::Claims,
                Check::SelfOnly { target: id, message: OTHERS_NAME },
                Check::Valid,
            ],
            op.call == Call::AuthUpdateUserName,
            op.window is None,
    {
        Operation {
            plan: vec![
                Check::Claims,
                Check::SelfOnly { target: id, message: OTHERS_NAME },
                Check::Valid,
            ],
            call: Call::AuthUpdateUserName,
            window: None,
        }
    }

    /// Registers a user. Open to every caller with a valid input.
    pub fn register() -> (op: Operation)
        ensures
            op.plan@ == seq![Check::Valid],
            op.call == Call::AuthRegister,
            op.window is None,
    {
        Operation {
            plan: vec![Check::Valid],
            call: Call::AuthRegister,
            window: None,
        }
    }

    /// Logs in with mail address and password. Open to every caller with a valid input.
    pub fn token_auth() -> (op: Operation)
        ensures
            op.plan@ == seq![Check::Valid],
            op.call == Call::AuthTokenAuth,
            op.window is None,
    {
        Operation {
            plan: vec![Check::Valid],
            call: Call::AuthTokenAuth,
            window: None,
        }
    }

    /// Logs in against the directory. Open to every caller with a valid input.
    pub fn token_auth_ldap() -> (op: Operation)
        ensures
            op.plan@ == seq![Check::Valid],
            op.call == Call::AuthTokenAuthLdap,
            op.window is None,
    {
        Operation {
            plan: vec![Check::Valid],
            call: Call::AuthTokenAuthLdap,
            window: None,
        }
    }

    /// Verifies an access token. Open to every caller.
    pub fn verify_token() -> (op: Operation)
        ensures
            op.plan@ == Seq::<Check>::empty(),
            op.call == Call::AuthVerifyAccessToken,
            op.window is None,
    {
        Operation {
            plan: Vec::new(),
            call: Call::AuthVerifyAccessToken,
            window: None,
        }
    }

    /// Trades a refresh token for new tokens. Open to every caller.
    pub fn refresh_token() -> (op: Operation)
        ensures
            op.plan@ == Seq::<Check>::empty(),
            op.call == Call::AuthRefreshToken,
            op.window is None,
    {
        Operation {
            plan: Vec::new(),
            call: Call::AuthRefreshToken,
            window: None,
        }
    }

    /// Invites a mail address. For administrators.
    pub fn create_invitation() -> (op: Operation)
        ensures
            op.plan@ == seq![Check::Admin],
            op.call == Call::AuthCreateInvitation,
            op.window is None,
    {
        Operation {
            plan: vec![Check::Admin],
            call: Call::AuthCreateInvitation,
            window: None,
        }
    }

    /// Sends a test mail. For administrators.
    pub fn send_test_email() -> (op: Operation)
        ensures
            op.plan@ == seq![Check::Admin],
            op.call == Call::EmailSendTest,
            op.window is None,
    {
        Operation {
            plan: vec![Check::Admin],
            call: Call::EmailSendTest,
            window: None,
        }
    }

    /// Marks one or all of the caller's notifications as read.
    pub fn mark_notifications_read() -> (op: Operation)
        ensures
            op.plan@ == seq![Check::User { allow_auth_token: false }],
            op.call == Call::NotificationMarkRead,
            op.window is None,
    {
        Operation {
            plan: vec![Check::User { allow_auth_token: false }],
            call: Call::NotificationMarkRead,
            window: None,
        }
    }

    /// Adds a git repository. For administrators.
    pub fn create_git_repository() -> (op: Operation)
        ensures
            op.plan@ == seq![
                Check::Admin,
                Check::Valid,
            ],
            op.call == Call::GitRepositoryCreate,
            op.window is None,
    {
        Operation {
            plan: vec![Check::Admin, Check::Valid],
            call: Call::GitRepositoryCreate,
            window: None,
        }
    }

    /// Removes a git repository. For administrators.
    pub fn delete_git_repository() -> (op: Operation)
        ensures
            op.plan@ == seq![Check::Admin],
            op.call == Call::GitRepositoryDelete,
            op.window is None,
    {
        Operation {
            plan: vec![Check::Admin],
            call: Call::GitRepositoryDelete,
            window: None,
        }
    }

    /// Changes a git repository. For administrators.
    pub fn update_git_repository() -> (op: Operation)
        ensures
            op.plan@ == seq![Check::Admin],
            op.call == Call::GitRepositoryUpdate,
            op.window is None,
    {
        Operation {
            plan: vec![Check::Admin],
            call: Call::GitRepositoryUpdate,
            window: None,
        }
    }

    /// Withdraws an invitation. For administrators.
    pub fn delete_invitation() -> (op: Operation)
        ensures
            op.plan@ == seq![Check::Admin],
            op.call == Call::AuthDeleteInvitation,
            op.window is None,
    {
        Operation {
            plan: vec![Check::Admin],
            call: Call::AuthDeleteInvitation,
            window: None,
        }
    }

    /// Sets the credential of an OAuth provider. For administrators under an
    /// enterprise license.
    pub fn update_oauth_credential() -> (op: Operation)
        ensures
            op.plan@.len() == 3,
            op.plan@[0] == Check::Admin,
            op.plan@[1] matches Check::License { allowed } && allowed@ == seq![
                LicenseType::Enterprise,
            ],
            op.plan@[2] == Check::Valid,
            op.call == Call::AuthUpdateOauthCredential,
            op.window is None,
    {
        Operation {
            plan: vec![
                Check::Admin,
                Check::License { allowed: vec![LicenseType::Enterprise] },
                Check::Valid,
            ],
            call: Call::AuthUpdateOauthCredential,
            window: None,
        }
    }

    /// Removes the credential of an OAuth provider. For administrators.
    pub fn delete_oauth_credential() -> (op: Operation)
        ensures
            op.plan@ == seq![Check::Admin],
            op.call == Call::AuthDeleteOauthCredential,
            op.window is None,
    {
        Operation {
            plan: vec![Check::Admin],
            call: Call::AuthDeleteOauthCredential,
            window: None,
        }
    }

    /// Tries a directory credential without storing it. For administrators under
    /// an enterprise license. The input is not validated.
    pub fn test_ldap_connection() -> (op: Operation)
        ensures
            op.plan@.len() == 2,
            op.plan@[0] == Check::Admin,
            op.plan@[1] matches Check::License { allowed } && allowed@ == seq![
                LicenseType::Enterprise,
            ],
            op.call == Call::AuthTestLdapConnection,
            op.window is None,
    {
        Operation {
            plan: vec![
                Check::Admin,
                Check::License { allowed: vec![LicenseType::Enterprise] },
            ],
            call: Call::AuthTestLdapConnection,
            window: None,
        }
    }

    /// Sets the credential of the directory. For administrators under an
    /// enterprise license.
    pub fn update_ldap_credential() -> (op: Operation)
        ensures
            op.plan@.len() == 3,
            op.plan@[0] == Check::Admin,
            op.plan@[1] matches Check::License { allowed } && allowed@ == seq![
                LicenseType::Enterprise,
            ],
            op.plan@[2] == Check::Valid,
            op.call == Call::AuthUpdateLdapCredential,
            op.window is None,
    {
        Operation {
            plan: vec![
                Check::Admin,
                Check::License { allowed: vec![LicenseType::Enterprise] },
                Check::Valid,
            ],
            call: Call::AuthUpdateLdapCredential,
            window: None,
        }
    }

    /// Removes the credential of the directory. For administrators.
    pub fn delete_ldap_credential() -> (op: Operation)
        ensures
            op.plan@ == seq![Check::Admin],
            op.call == Call::AuthDeleteLdapCredential,
            op.window is None,
    {
        Operation {
            plan: vec![Check::Admin],
            call: Call::AuthDeleteLdapCredential,
            window: None,
        }
    }

    /// Sets the mail transport. For administrators.
    pub fn update_email_setting() -> (op: Operation)
        ensures
            op.plan@ == seq![
                Check::Admin,
                Check::Valid,
            ],
            op.call == Call::EmailUpdateSetting,
            op.window is None,
    {
        Operation {
            plan: vec![Check::Admin, Check::Valid],
            call: Call::EmailUpdateSetting,
            window: None,
        }
    }

    /// Sets the security setting. For administrators under an enterprise license.
    pub fn update_security_setting() -> (op: Operation)
        ensures
            op.plan@.len() == 3,
            op.plan@[0] == Check::Admin,
            op.plan@[1] matches Check::License { allowed } && allowed@ == seq![
                LicenseType::Enterprise,
            ],
            op.plan@[2] == Check::Valid,
            op.call == Call::SettingUpdateSecuritySetting,
            op.window is None,
    {
        Operation {
            plan: vec![
                Check::Admin,
                Check::License { allowed: vec![LicenseType::Enterprise] },
                Check::Valid,
            ],
            call: Call::SettingUpdateSecuritySetting,
            window: None,
        }
    }

    /// Sets the network setting. For administrators.
    pub fn update_network_setting() -> (op: Operation)
        ensures
            op.plan@ == seq![
                Check::Admin,
                Check::Valid,
            ],
            op.call == Call::SettingUpdateNetworkSetting,
            op.window is None,
    {
        Operation {
            plan: vec![Check::Admin, Check::Valid],
            call: Call::SettingUpdateNetworkSetting,
            window: None,
        }
    }

    /// Removes the mail transport. For administrators.
    pub fn delete_email_setting() -> (op: Operation)
        ensures
            op.plan@ == seq![Check::Admin],
            op.call == Call::EmailDeleteSetting,
            op.window is None,
    {
        Operation {
            plan: vec![Check::Admin],
            call: Call::EmailDeleteSetting,
            window: None,
        }
    }

    /// Installs a license. For administrators.
    pub fn upload_license() -> (op: Operation)
        ensures
            op.plan@ == seq![Check::Admin],
            op.call == Call::LicenseUpdate,
            op.window is None,
    {
        Operation {
            plan: vec![Check::Admin],
            call: Call::LicenseUpdate,
            window: None,
        }
    }

    /// Removes the installed license. For administrators.
    pub fn reset_license() -> (op: Operation)
        ensures
            op.plan@ == seq![Check::Admin],
            op.call == Call::LicenseReset,
            op.window is None,
    {
        Operation {
            plan: vec![Check::Admin],
            call: Call::LicenseReset,
            window: None,
        }
    }

    /// Adds an integration. For administrators.
    pub fn create_integration() -> (op: Operation)
        ensures
            op.plan@ == seq![
                Check::Admin,
                Check::Valid,
            ],
            op.call == Call::IntegrationCreate,
            op.window is None,
    {
        Operation {
            plan: vec![Check::Admin, Check::Valid],
            call: Call::IntegrationCreate,
            window: None,
        }
    }

    /// Changes an integration. For administrators.
    pub fn update_integration() -> (op: Operation)
        ensures
            op.plan@ == seq![
                Check::Admin,
                Check::Valid,
            ],
            op.call == Call::IntegrationUpdate,
            op.window is None,
    {
        Operation {
            plan: vec![Check::Admin, Check::Valid],
            call: Call::IntegrationUpdate,
            window: None,
        }
    }

    /// Removes an integration. For administrators.
    pub fn delete_integration() -> (op: Operation)
        ensures
            op.plan@ == seq![Check::Admin],
            op.call == Call::IntegrationDelete,
            op.window is None,
    {
        Operation {
            plan: vec![Check::Admin],
            call: Call::IntegrationDelete,
            window: None,
        }
    }

    /// Switches a provided repository on or off. For administrators.
    pub fn update_integrated_repository_active() -> (op: Operation)
        ensures
            op.plan@ == seq![Check::Admin],
            op.call == Call::ThirdPartyRepositoryUpdateActive,
            op.window is None,
    {
        Operation {
            plan: vec![Check::Admin],
            call: Call::ThirdPartyRepositoryUpdateActive,
            window: None,
        }
    }

    /// Starts a background job. For administrators.
    pub fn trigger_job_run() -> (op: Operation)
        ensures
            op.plan@ == seq![Check::Admin],
            op.call == Call::JobTrigger,
            op.window is None,
    {
        Operation {
            plan: vec![Check::Admin],
            call: Call::JobTrigger,
            window: None,
        }
    }

    /// Deletes a user message and its answer from a thread: the thread must
    /// exist and the caller's policy must allow it.
    pub fn delete_thread_message_pair(thread_id: ID) -> (op: Operation)
        ensures
            op.plan@ == seq![
                Check::User { allow_auth_token: true },
                Check::Thread { id: thread_id, missing: THREAD_MISSING },
                Check::Policy(PolicyKind::DeleteThreadMessages),
            ],
            op.call == Call::ThreadDeleteMessagePair,
            op.window is None,
    {
        Operation {
            plan: vec![
                Check::User { allow_auth_token: true },
                Check::Thread { id: thread_id, missing: THREAD_MISSING },
                Check::Policy(PolicyKind::DeleteThreadMessages),
            ],
            call: Call::ThreadDeleteMessagePair,
            window: None,
        }
    }

    /// Deletes a thread: it must exist and the caller's policy must allow it.
    pub fn delete_thread(id: ID) -> (op: Operation)
        ensures
            op.plan@ == seq![
                Check::User { allow_auth_token: true },
                Check::Thread { id: id, missing: THREAD_MISSING },
                Check::Policy(PolicyKind::DeleteThread),
            ],
            op.call == Call::ThreadDelete,
            op.window is None,
    {
        Operation {
            plan: vec![
                Check::User { allow_auth_token: true },
                Check::Thread { id: id, missing: THREAD_MISSING },
                Check::Policy(PolicyKind::DeleteThread),
            ],
            call: Call::ThreadDelete,
            window: None,
        }
    }

    /// Makes a thread permanent: it must exist and the caller's policy must allow it.
    pub fn set_thread_persisted(thread_id: ID) -> (op: Operation)
        ensures
            op.plan@ == seq![
                Check::User { allow_auth_token: true },
                Check::Thread { id: thread_id, missing: THREAD_MISSING },
                Check::Policy(PolicyKind::UpdateThreadPersistence),
            ],
            op.call == Call::ThreadSetPersisted,
            op.window is None,
    {
        Operation {
            plan: vec![
                Check::User { allow_auth_token: true },
                Check::Thread { id: thread_id, missing: THREAD_MISSING },
                Check::Policy(PolicyKind::UpdateThreadPersistence),
            ],
            call: Call::ThreadSetPersisted,
            window: None,
        }
    }

    /// Changes a message of a thread: the input must be valid, the thread must
    /// exist and the caller's policy must allow it.
    pub fn update_thread_message(thread_id: ID) -> (op: Operation)
        ensures
            op.plan@ == seq![
                Check::User { allow_auth_token: false },
                Check::Valid,
                Check::Thread { id: thread_id, missing: THREAD_MISSING },
                Check::Policy(PolicyKind::UpdateThreadMessage),
            ],
            op.call == Call::ThreadUpdateMessage,
            op.window is None,
    {
        Operation {
            plan: vec![
                Check::User { allow_auth_token: false },
                Check::Valid,
                Check::Thread { id: thread_id, missing: THREAD_MISSING },
                Check::Policy(PolicyKind::UpdateThreadMessage),
            ],
            call: Call::ThreadUpdateMessage,
            window: None,
        }
    }

    /// Changes a page's title: the caller's policy must allow it on the page.
    pub fn update_page_title(id: ID) -> (op: Operation)
        ensures
            op.plan@ == seq![
                Check::User { allow_auth_token: false },
                Check::PageService,
                Check::Valid,
                Check::Page { id },
                Check::Policy(PolicyKind::UpdatePage),
            ],
            op.call == Call::PageUpdateTitle,
            op.window is None,
    {
        Operation {
            plan: vec![
                Check::User { allow_auth_token: false },
                Check::PageService,
                Check::Valid,
                Check::Page { id },
                Check::Policy(PolicyKind::UpdatePage),
            ],
            call: Call::PageUpdateTitle,
            window: None,
        }
    }

    /// Changes a page's content: the caller's policy must allow it on the page.
    pub fn update_page_content(id: ID) -> (op: Operation)
        ensures
            op.plan@ == seq![
                Check::User { allow_auth_token: false },
                Check::PageService,
                Check::Valid,
                Check::Page { id },
                Check::Policy(PolicyKind::UpdatePage),
            ],
            op.call == Call::PageUpdateContent,
            op.window is None,
    {
        Operation {
            plan: vec![
                Check::User { allow_auth_token: false },
                Check::PageService,
                Check::Valid,
                Check::Page { id },
                Check::Policy(PolicyKind::UpdatePage),
            ],
            call: Call::PageUpdateContent,
            window: None,
        }
    }

    /// Changes a section's title: the caller's policy must allow it on the
    /// section's page.
    pub fn update_page_section_title(id: ID) -> (op: Operation)
        ensures
            op.plan@ == seq![
                Check::User { allow_auth_token: false },
                Check::PageService,
                Check::Valid,
                Check::Section { id },
                Check::SectionPage,
                Check::Policy(PolicyKind::UpdatePage),
            ],
            op.call == Call::PageUpdateSectionTitle,
            op.window is None,
    {
        Operation {
            plan: vec![
                Check::User { allow_auth_token: false },
                Check::PageService,
                Check::Valid,
                Check::Section { id },
                Check::SectionPage,
                Check::Policy(PolicyKind::UpdatePage),
            ],
            call: Call::PageUpdateSectionTitle,
            window: None,
        }
    }

    /// Changes a section's content: the caller's policy must allow it on the
    /// section's page.
    pub fn update_page_section_content(id: ID) -> (op: Operation)
        ensures
            op.plan@ == seq![
                Check::User { allow_auth_token: false },
                Check::PageService,
                Check::Valid,
                Check::Section { id },
                Check::SectionPage,
                Check::Policy(PolicyKind::UpdatePage),
            ],
            op.call == Call::PageUpdateSectionContent,
            op.window is None,
    {
        Operation {
            plan: vec![
                Check::User { allow_auth_token: false },
                Check::PageService,
                Check::Valid,
                Check::Section { id },
                Check::SectionPage,
                Check::Policy(PolicyKind::UpdatePage),
            ],
            call: Call::PageUpdateSectionContent,
            window: None,
        }
    }

    /// Deletes a page with all its sections: the caller's policy must allow it.
    pub fn delete_page(id: ID) -> (op: Operation)
        ensures
            op.plan@ == seq![
                Check::User { allow_auth_token: false },
                Check::PageService,
                Check::Page { id },
                Check::Policy(PolicyKind::UpdatePage),
            ],
            op.call == Call::PageDelete,
            op.window is None,
    {
        Operation {
            plan: vec![
                Check::User { allow_auth_token: false },
                Check::PageService,
                Check::Page { id },
                Check::Policy(PolicyKind::UpdatePage),
            ],
            call: Call::PageDelete,
            window: None,
        }
    }

    /// Deletes one section: the caller's policy must allow it on the section's page.
    pub fn delete_page_section(section_id: ID) -> (op: Operation)
        ensures
            op.plan@ == seq![
                Check::User { allow_auth_token: false },
                Check::PageService,
                Check::Section { id: section_id },
                Check::SectionPage,
                Check::Policy(PolicyKind::UpdatePage),
            ],
            op.call == Call::PageDeleteSection,
            op.window is None,
    {
        Operation {
            plan: vec![
                Check::User { allow_auth_token: false },
                Check::PageService,
                Check::Section { id: section_id },
                Check::SectionPage,
                Check::Policy(PolicyKind::UpdatePage),
            ],
            call: Call::PageDeleteSection,
            window: None,
        }
    }

    /// Moves a section up or down: the caller's policy must allow it on the
    /// section's page.
    pub fn move_page_section(id: ID) -> (op: Operation)
        ensures
            op.plan@ == seq![
                Check::User { allow_auth_token: false },
                Check::PageService,
                Check::Section { id },
                Check::SectionPage,
                Check::Policy(PolicyKind::UpdatePage),
            ],
            op.call == Call::PageMoveSection,
            op.window is None,
    {
        Operation {
            plan: vec![
                Check::User { allow_auth_token: false },
                Check::PageService,
                Check::Section { id },
                Check::SectionPage,
                Check::Policy(PolicyKind::UpdatePage),
            ],
            call: Call::PageMoveSection,
            window: None,
        }
    }

    /// Adds a web document. For administrators.
    pub fn create_custom_document() -> (op: Operation)
        ensures
            op.plan@ == seq![
                Check::Admin,
                Check::Valid,
            ],
            op.call == Call::WebDocumentCreateCustom,
            op.window is None,
    {
        Operation {
            plan: vec![Check::Admin, Check::Valid],
            call: Call::WebDocumentCreateCustom,
            window: None,
        }
    }

    /// Removes a web document. For administrators.
    pub fn delete_custom_document() -> (op: Operation)
        ensures
            op.plan@ == seq![Check::Admin],
            op.call == Call::WebDocumentDeleteCustom,
            op.window is None,
    {
        Operation {
            plan: vec![Check::Admin],
            call: Call::WebDocumentDeleteCustom,
            window: None,
        }
    }

    /// Switches a preset web document on or off. For administrators.
    pub fn set_preset_document_active() -> (op: Operation)
        ensures
            op.plan@ == seq![
                Check::Admin,
                Check::Valid,
            ],
            op.call == Call::WebDocumentSetPresetActive,
            op.window is None,
    {
        Operation {
            plan: vec![Check::Admin, Check::Valid],
            call: Call::WebDocumentSetPresetActive,
            window: None,
        }
    }

    /// Adds a user group. For administrators.
    pub fn create_user_group() -> (op: Operation)
        ensures
            op.plan@ == seq![
                Check::Admin,
                Check::Valid,
            ],
            op.call == Call::UserGroupCreate,
            op.window is None,
    {
        Operation {
            plan: vec![Check::Admin, Check::Valid],
            call: Call::UserGroupCreate,
            window: None,
        }
    }

    /// Removes a user group. For administrators.
    pub fn delete_user_group() -> (op: Operation)
        ensures
            op.plan@ == seq![Check::Admin],
            op.call == Call::UserGroupDelete,
            op.window is None,
    {
        Operation {
            plan: vec![Check::Admin],
            call: Call::UserGroupDelete,
            window: None,
        }
    }

    /// Adds a member to a group or changes the member's standing: the caller's
    /// policy decides first, then the input is validated.
    pub fn upsert_user_group_membership(
        user_group_id: ID,
        user_id: ID,
        is_group_admin: bool,
    ) -> (op: Operation)
        ensures
            op.plan@ == seq![
                Check::User { allow_auth_token: false },
                Check::UpsertMembership { user_group_id, user_id, is_group_admin },
                Check::Valid,
            ],
            op.call == Call::UserGroupUpsertMembership,
            op.window is None,
    {
        Operation {
            plan: vec![
                Check::User { allow_auth_token: false },
                Check::UpsertMembership { user_group_id, user_id, is_group_admin },
                Check::Valid,
            ],
            call: Call::UserGroupUpsertMembership,
            window: None,
        }
    }

    /// Removes a member from a group: the caller's policy decides.
    pub fn delete_user_group_membership(user_group_id: ID, user_id: ID) -> (op: Operation)
        ensures
            op.plan@ == seq![
                Check::User { allow_auth_token: false },
                Check::DeleteMembership { user_group_id, user_id },
            ],
            op.call == Call::UserGroupDeleteMembership,
            op.window is None,
    {
        Operation {
            plan: vec![
                Check::User { allow_auth_token: false },
                Check::DeleteMembership { user_group_id, user_id },
            ],
            call: Call::UserGroupDeleteMembership,
            window: None,
        }
    }

    /// Lets a group read a source. For administrators.
    pub fn grant_source_id_read_access() -> (op: Operation)
        ensures
            op.plan@ == seq![Check::Admin],
            op.call == Call::AccessPolicyGrantSourceIdReadAccess,
            op.window is None,
    {
        Operation {
            plan: vec![Check::Admin],
            call: Call::AccessPolicyGrantSourceIdReadAccess,
            window: None,
        }
    }

    /// Takes a group's right to read a source away. For administrators.
    pub fn revoke_source_id_read_access() -> (op: Operation)
        ensures
            op.plan@ == seq![Check::Admin],
            op.call == Call::AccessPolicyRevokeSourceIdReadAccess,
            op.window is None,
    {
        Operation {
            plan: vec![Check::Admin],
            call: Call::AccessPolicyRevokeSourceIdReadAccess,
            window: None,
        }
    }

    /// The bytes of an avatar that was sent as base64 text, `None` where no
    /// avatar was sent (the avatar is then cleared). Text that is not base64
    /// in the standard alphabet with canonical padding is refused.
    pub fn decode_avatar(avatar_base64: Option<String>) -> (r: Result<Option<Vec<u8>>, CoreError>)
        ensures
            match avatar_base64 {
                None => r matches Ok(None),
                Some(text) => match standard_base64(text@) {
                    Some(bytes) => r matches Ok(Some(avatar)) && avatar@ == bytes,
                    None => r matches Err(CoreError::Other(m)) && m@ == AVATAR_NOT_BASE64@,
                },
            },
    {
        match avatar_base64 {
            None => Ok(None),
            Some(text) => match decode_standard(&text) {
                Ok(bytes) => Ok(Some(bytes)),
                Err(_) => Err(CoreError::Other(AVATAR_NOT_BASE64.to_owned())),
            },
        }
    }
}

} // verus!
