//! What an operation of the gateway is made of: the checks it runs under, the
//! service call it ends in, and the window of a list it returns.

use vstd::prelude::*;
use crate::check::Check;
use crate::relay::Window;

verus! {

/// The service calls that operations end in, each named by the service and
/// by what is asked of it.
#[derive(Clone, Copy, Debug, PartialEq, Eq, Structural)]
pub enum Call {
    /// No service is asked: the answer is in the checks' facts or is fixed.
    Nothing,
    WorkerReadRegistrationToken,
    WorkerResetRegistrationToken,
    AuthListUsers,
    AuthListInvitations,
    AuthReadProviders,
    AuthReadOauthCredential,
    AuthOauthCallbackUrl,
    AuthReadLdapCredential,
    AuthRequestInvitationEmail,
    AuthGenerateResetPasswordUrl,
    AuthRequestPasswordResetEmail,
    AuthPasswordReset,
    AuthUpdateUserPassword,
    AuthResetUserAuthToken,
    AuthLogoutAllSessions,
    AuthUpdateUserActive,
    AuthUpdateUserRole,
    AuthUpdateUserAvatar,
    AuthUpdateUserName,
    AuthRegister,
    AuthTokenAuth,
    AuthTokenAuthLdap,
    AuthVerifyAccessToken,
    AuthRefreshToken,
    AuthCreateInvitation,
    AuthDeleteInvitation,
    AuthUpdateOauthCredential,
    AuthDeleteOauthCredential,
    AuthTestLdapConnection,
    AuthUpdateLdapCredential,
    AuthDeleteLdapCredential,
    JobList,
    JobComputeStats,
    JobTrigger,
    EmailReadSetting,
    EmailUpdateSetting,
    EmailDeleteSetting,
    EmailSendTest,
    SettingReadNetworkSetting,
    SettingReadSecuritySetting,
    SettingUpdateSecuritySetting,
    SettingUpdateNetworkSetting,
    GitRepositoryList,
    GitRepositoryCreate,
    GitRepositoryDelete,
    GitRepositoryUpdate,
    ThirdPartyRepositoryList,
    ThirdPartyRepositoryUpdateActive,
    RepositorySearchFiles,
    RepositoryGrep,
    RepositoryList,
    RepositoryReadRelatedQuestions,
    ServerInfo,
    LicenseRead,
    LicenseUpdate,
    LicenseReset,
    AnalyticDailyStatsInPastYear,
    AnalyticDailyStats,
    AnalyticChatDailyStatsInPastYear,
    AnalyticChatDailyStats,
    AnalyticDiskUsageStats,
    UserEventList,
    NotificationList,
    NotificationMarkRead,
    ContextRead,
    IntegrationList,
    IntegrationCreate,
    IntegrationUpdate,
    IntegrationDelete,
    IngestionStats,
    ThreadList,
    ThreadListOwned,
    ThreadListMessages,
    ThreadCreate,
    ThreadAppendUserMessage,
    /// Start a run on a thread. The two flags say what the stream gives
    /// besides the answer: the user message that the run answers, and the
    /// notice that a thread was created.
    ThreadCreateRun { yield_last_user_message: bool, yield_thread_created: bool },
    ThreadDeleteMessagePair,
    ThreadDelete,
    ThreadSetPersisted,
    ThreadUpdateMessage,
    PageList,
    PageListSections,
    PageUpdateTitle,
    PageUpdateContent,
    PageUpdateSectionTitle,
    PageUpdateSectionContent,
    PageDelete,
    PageDeleteSection,
    PageMoveSection,
    PageCreateRun,
    PageConvertThread,
    PageAppendSection,
    WebDocumentListCustom,
    WebDocumentListPreset,
    WebDocumentCreateCustom,
    WebDocumentDeleteCustom,
    WebDocumentSetPresetActive,
    UserGroupList,
    UserGroupCreate,
    UserGroupDelete,
    UserGroupUpsertMembership,
    UserGroupDeleteMembership,
    AccessPolicyListSourceIdReadAccess,
    AccessPolicyGrantSourceIdReadAccess,
    AccessPolicyRevokeSourceIdReadAccess,
    ModelProbe,
}

/// One operation, ready to run: the checks in the order in which they are
/// made, the call that follows once all have passed, and, for an operation
/// that returns a list, the window asked for.
#[derive(Debug)]
pub struct Operation {
    pub plan: Vec<Check>,
    pub call: Call,
    pub window: Option<Window>,
}

} // verus!
