//! The operations that read. Each is given as the checks it runs under, the
//! service call it ends in and, for a list, the window asked for; what the
//! call carries besides stays with the driver of the run.

use vstd::prelude::*;
use crate::check::{Check, PolicyKind, PolicyQuestion};
use crate::context::{Capabilities, Thread, ID};
use crate::error::{CoreError, TestModelConnectionError};
use crate::operation::{Call, Operation};
use crate::chat::Role;
use crate::outside::{
    api_message, chat_request, elapsed_since, instant_now, request_messages, user_message,
    whole_millis,
};
use crate::relay::Window;

verus! {

pub const THREAD_MISSING_ON_READ: &'static str = "thread not found";

pub const CHAT_NOT_INITIALIZED: &'static str = "The Chat didn't initialize yet";

/// How many files a search in a repository returns at most.
pub const SEARCH_LIMIT: usize = 40;

/// The seed with which the completion model is probed.
pub const COMPLETION_PROBE_SEED: u64 = 0;

pub const COMPLETION_UNREACHABLE: &'static str = "Failed to connect to the completion model";

/// The prompt that probes the completion model.
pub const COMPLETION_PROBE: &'static str = "def fib(n):\n";

/// The message that probes the chat model.
pub const CHAT_PROBE: &'static str = "Hello, please reply in short";

/// The text that probes the embedding model.
pub const EMBEDDING_PROBE: &'static str = "hello Tabby";

#[derive(Clone, Copy, Debug, PartialEq, Eq, Structural)]
pub enum ModelHealthBackend {
    Chat,
    Completion,
    Embedding,
}

#[derive(Clone, Copy, Debug, PartialEq, Eq, Structural)]
pub struct ModelBackendHealthInfo {
    /// Latency in milliseconds.
    pub latency_ms: i32,
}

/// How the probe of a model backend went.
pub enum ProbeOutcome {
    /// The completion model was asked to generate; `first_chunk` says
    /// whether its stream gave anything.
    Completion { first_chunk: bool },
    /// The chat model was asked; the client's error where it failed.
    Chat(Result<(), async_openai_alt::error::OpenAIError>),
    /// The embedding model was asked; the failure's text where it failed.
    Embedding(Result<(), String>),
}

#[derive(Clone, Copy, Debug, PartialEq, Eq, Structural)]
pub enum OAuthProvider {
    Github,
    Google,
    Gitlab,
}

#[derive(Clone, Copy, Debug, PartialEq, Eq, Structural)]
pub enum AuthProviderKind {
    OAuthGithub,
    OAuthGoogle,
    OAuthGitlab,
    Ldap,
}

#[derive(Clone, Copy, Debug, PartialEq, Eq, Structural)]
pub struct AuthProvider {
    pub kind: AuthProviderKind,
}

impl OAuthProvider {
    /// The kind under which a login through this provider is offered.
    pub open spec fn kind(self) -> AuthProviderKind {
        match self {
            OAuthProvider::Github => AuthProviderKind::OAuthGithub,
            OAuthProvider::Google => AuthProviderKind::OAuthGoogle,
            OAuthProvider::Gitlab => AuthProviderKind::OAuthGitlab,
        }
    }

    pub fn provider_kind(&self) -> (kind: AuthProviderKind)
        ensures
            kind == self.kind(),
    {
        match self {
            OAuthProvider::Github => AuthProviderKind::OAuthGithub,
            OAuthProvider::Google => AuthProviderKind::OAuthGoogle,
            OAuthProvider::Gitlab => AuthProviderKind::OAuthGitlab,
        }
    }

    /// Every provider, in the order in which they are offered.
    pub fn all() -> (providers: Vec<OAuthProvider>)
        ensures
            providers@ == seq![OAuthProvider::Github, OAuthProvider::Google, OAuthProvider::Gitlab],
    {
        vec![OAuthProvider::Github, OAuthProvider::Google, OAuthProvider::Gitlab]
    }
}

#[derive(Clone, Copy, Debug, PartialEq, Eq, Structural)]
pub struct ServerInfo {
    pub is_admin_initialized: bool,
    pub is_chat_enabled: bool,
    pub is_email_configured: bool,
    pub allow_self_signup: bool,
    pub disable_password_login: bool,
    pub is_demo_mode: bool,
}

/// The users whose analytics are asked for: those named, or none.
pub open spec fn named_users(users: Option<Vec<ID>>) -> Seq<ID> {
    match users {
        Some(u) => u@,
        None => Seq::empty(),
    }
}

/// The checks of an operation that reads the analytics of `users`.
pub open spec fn reads_analytic(plan: Seq<Check>, users: Option<Vec<ID>>) -> bool {
    &&& plan.len() == 2
    &&& plan[0] == Check::User { allow_auth_token: false }
    &&& plan[1] matches Check::ReadAnalytic { users: named }
    &&& named@ == named_users(users)
}

/// The kinds under which the providers with a credential are offered, in the
/// order of `reads`.
pub open spec fn offered(reads: Seq<(OAuthProvider, bool)>) -> Seq<AuthProviderKind>
    decreases reads.len(),
{
    if reads.len() == 0 {
        Seq::empty()
    } else if reads.last().1 {
        offered(reads.drop_last()).push(reads.last().0.kind())
    } else {
        offered(reads.drop_last())
    }
}

/// The kinds of a list of providers.
pub open spec fn kinds_of(providers: Seq<AuthProvider>) -> Seq<AuthProviderKind> {
    providers.map_values(|p: AuthProvider| p.kind)
}

/// What the policy is asked about each of `threads`, in their order.
pub open spec fn thread_questions(threads: Seq<Thread>) -> Seq<PolicyQuestion> {
    threads.map_values(
        |t: Thread| PolicyQuestion::ReadThread { owner: t.user_id, is_ephemeral: t.is_ephemeral },
    )
}

/// The first failure among `verdicts`, if there is one.
pub open spec fn first_failure(verdicts: Seq<Result<(), CoreError>>) -> Option<CoreError>
    decreases verdicts.len(),
{
    if verdicts.len() == 0 {
        None
    } else {
        match first_failure(verdicts.drop_last()) {
            Some(e) => Some(e),
            None => match verdicts.last() {
                Err(e) => Some(e),
                Ok(_) => None,
            },
        }
    }
}

#[derive(Default)]
pub struct Query;

impl Query {
    /// The names of the background jobs.
    pub fn jobs() -> (jobs: Vec<String>)
        ensures
            jobs@.len() == 3,
            jobs@[0]@ == "scheduler_git"@,
            jobs@[1]@ == "scheduler_github_gitlab"@,
            jobs@[2]@ == "web_crawler"@,
    {
        vec!["scheduler_git".to_owned(), "scheduler_github_gitlab".to_owned(), "web_crawler".to_owned()]
    }

    fn analytic(users: Option<Vec<ID>>, call: Call) -> (op: Operation)
        ensures
            reads_analytic(op.plan@, users),
            op.call == call,
            op.window is None,
    {
        let users = match users {
            Some(u) => u,
            None => Vec::new(),
        };
        Operation {
            plan: vec![Check::User { allow_auth_token: false }, Check::ReadAnalytic { users }],
            call,
            window: None,
        }
    }

    /// Completion statistics by day over the past year: the caller's policy
    /// must let the caller read the analytics of `users`.
    pub fn daily_stats_in_past_year(users: Option<Vec<ID>>) -> (op: Operation)
        ensures
            reads_analytic(op.plan@, users),
            op.call == Call::AnalyticDailyStatsInPastYear,
            op.window is None,
    {
        Self::analytic(users, Call::AnalyticDailyStatsInPastYear)
    }

    /// Completion statistics by day between two dates: the caller's policy
    /// must let the caller read the analytics of `users`.
    pub fn daily_stats(users: Option<Vec<ID>>) -> (op: Operation)
        ensures
            reads_analytic(op.plan@, users),
            op.call == Call::AnalyticDailyStats,
            op.window is None,
    {
        Self::analytic(users, Call::AnalyticDailyStats)
    }

    /// Chat statistics by day over the past year: the caller's policy must
    /// let the caller read the analytics of `users`.
    pub fn chat_daily_stats_in_past_year(users: Option<Vec<ID>>) -> (op: Operation)
        ensures
            reads_analytic(op.plan@, users),
            op.call == Call::AnalyticChatDailyStatsInPastYear,
            op.window is None,
    {
        Self::analytic(users, Call::AnalyticChatDailyStatsInPastYear)
    }

    /// Chat statistics by day between two dates: the caller's policy must let
    /// the caller read the analytics of `users`.
    pub fn chat_daily_stats(users: Option<Vec<ID>>) -> (op: Operation)
        ensures
            reads_analytic(op.plan@, users),
            op.call == Call::AnalyticChatDailyStats,
            op.window is None,
    {
        Self::analytic(users, Call::AnalyticChatDailyStats)
    }

    /// The ways to log in that are set up. Open to every caller: each OAuth
    /// provider's credential and the directory's are read, and a provider is
    /// offered where the read succeeded and found one.
    pub fn auth_providers() -> (op: Operation)
        ensures
            op.plan@ == Seq::<Check>::empty(),
            op.call == Call::AuthReadProviders,
            op.window is None,
    {
        Operation { plan: Vec::new(), call: Call::AuthReadProviders, window: None }
    }

    /// Whether the read of a credential succeeded and found one.
    pub fn is_configured<T>(read: &Result<Option<T>, CoreError>) -> (b: bool)
        ensures
            b == (read matches Ok(Some(_))),
    {
        match read {
            Ok(Some(_)) => true,
            _ => false,
        }
    }

    /// The providers that are offered: each OAuth provider of `reads` that
    /// has a credential, in the order of `reads`, and behind them the
    /// directory where it has one.
    pub fn offered_providers(reads: &Vec<(OAuthProvider, bool)>, ldap: bool) -> (providers: Vec<
        AuthProvider,
    >)
        ensures
            kinds_of(providers@) == if ldap {
                offered(reads@).push(AuthProviderKind::Ldap)
            } else {
                offered(reads@)
            },
    {
        let mut providers: Vec<AuthProvider> = Vec::new();
        let mut i: usize = 0;
        while i < reads.len()
            invariant
                i <= reads.len(),
                kinds_of(providers@) == offered(reads@.take(i as int)),
            decreases reads.len() - i,
        {
            proof {
                assert(reads@.take(i + 1).drop_last() == reads@.take(i as int));
                assert(reads@.take(i + 1).last() == reads@[i as int]);
            }
            if reads[i].1 {
                let ghost before = providers@;
                providers.push(AuthProvider { kind: reads[i].0.provider_kind() });
                assert(kinds_of(providers@) == kinds_of(before).push(reads@[i as int].0.kind()));
            }
            i += 1;
        }
        proof {
            assert(reads@.take(i as int) == reads@);
        }
        if ldap {
            let ghost before = providers@;
            providers.push(AuthProvider { kind: AuthProviderKind::Ldap });
            assert(kinds_of(providers@) == kinds_of(before).push(AuthProviderKind::Ldap));
        }
        providers
    }

    /// What the server tells every caller about itself. Open to every caller.
    pub fn server_info() -> (op: Operation)
        ensures
            op.plan@ == Seq::<Check>::empty(),
            op.call == Call::ServerInfo,
            op.window is None,
    {
        Operation { plan: Vec::new(), call: Call::ServerInfo, window: None }
    }

    /// The server's description of itself, made of what the services
    /// answered, or the first failure among their answers in this order:
    /// administrator set up, chat enabled, mail configured, self signup,
    /// password login.
    pub fn server_info_of(
        is_admin_initialized: Result<bool, CoreError>,
        is_chat_enabled: Result<bool, CoreError>,
        is_email_configured: Result<bool, CoreError>,
        allow_self_signup: Result<bool, CoreError>,
        disable_password_login: Result<bool, CoreError>,
        is_demo_mode: bool,
    ) -> (r: Result<ServerInfo, CoreError>)
        ensures
            r == match (
                is_admin_initialized,
                is_chat_enabled,
                is_email_configured,
                allow_self_signup,
                disable_password_login,
            ) {
                (Ok(a), Ok(b), Ok(c), Ok(d), Ok(e)) => Ok::<ServerInfo, CoreError>(
                    ServerInfo {
                        is_admin_initialized: a,
                        is_chat_enabled: b,
                        is_email_configured: c,
                        allow_self_signup: d,
                        disable_password_login: e,
                        is_demo_mode,
                    },
                ),
                (Err(e), _, _, _, _) => Err(e),
                (_, Err(e), _, _, _) => Err(e),
                (_, _, Err(e), _, _) => Err(e),
                (_, _, _, Err(e), _) => Err(e),
                (_, _, _, _, Err(e)) => Err(e),
            },
    {
        Ok(
            ServerInfo {
                is_admin_initialized: is_admin_initialized?,
                is_chat_enabled: is_chat_enabled?,
                is_email_configured: is_email_configured?,
                allow_self_signup: allow_self_signup?,
                disable_password_login: disable_password_login?,
                is_demo_mode,
            },
        )
    }

    /// The time that a search took, as it is reported: the whole
    /// milliseconds, cut to 32 bits.
    pub fn grep_elapsed_ms(elapsed_millis: i64) -> (ms: i32)
        ensures
            ms == elapsed_millis as i32,
    {
        #[verifier::truncate]
        (elapsed_millis as i32)
    }

    /// What the policy has to be asked before fetched threads are shown: one
    /// question for each thread, in the threads' order.
    pub fn read_thread_questions(threads: &Vec<Thread>) -> (questions: Vec<PolicyQuestion>)
        ensures
            questions@ == thread_questions(threads@),
    {
        let mut questions: Vec<PolicyQuestion> = Vec::new();
        let mut i: usize = 0;
        while i < threads.len()
            invariant
                i <= threads.len(),
                questions@ == thread_questions(threads@.take(i as int)),
            decreases threads.len() - i,
        {
            questions.push(
                PolicyQuestion::ReadThread {
                    owner: threads[i].user_id.clone(),
                    is_ephemeral: threads[i].is_ephemeral,
                },
            );
            proof {
                assert(threads@.take(i + 1) == threads@.take(i as int).push(threads@[i as int]));
            }
            i += 1;
        }
        proof {
            assert(threads@.take(i as int) == threads@);
        }
        questions
    }

    /// Whether fetched threads may be shown: the first refusal among the
    /// policy's verdicts on them ends the operation; without one they pass.
    pub fn all_readable(verdicts: Vec<Result<(), CoreError>>) -> (r: Result<(), CoreError>)
        ensures
            match r {
                Ok(_) => first_failure(verdicts@) is None,
                Err(e) => first_failure(verdicts@) == Some(e),
            },
    {
        let mut verdicts = verdicts;
        let ghost all = verdicts@;
        // Walk from the back, so that the failure kept last is the first.
        let mut found: Option<CoreError> = None;
        while verdicts.len() > 0
            invariant
                verdicts@ == all.take(verdicts@.len() as int),
                verdicts@.len() <= all.len(),
                first_failure(all) == match first_failure(verdicts@) {
                    Some(e) => Some(e),
                    None => found,
                },
            decreases verdicts@.len(),
        {
            let ghost before = verdicts@;
            let last = verdicts.pop();
            proof {
                assert(verdicts@ == before.drop_last());
                assert(verdicts@ == all.take(verdicts@.len() as int));
            }
            match last {
                Some(Err(e)) => {
                    found = Some(e);
                },
                _ => {},
            }
        }
        match found {
            Some(e) => Err(e),
            None => Ok(()),
        }
    }

    /// Probes a model backend. For administrators.
    pub fn test_model_connection() -> (op: Operation)
        ensures
            op.plan@ == seq![Check::Admin],
            op.call == Call::ModelProbe,
            op.window is None,
    {
        Operation { plan: vec![Check::Admin], call: Call::ModelProbe, window: None }
    }

    /// Starts the clock of a probe of `backend`, where the backend exists:
    /// the chat and the completion model are optional, the embedding model
    /// is always there.
    pub fn start_model_probe(locator: &Capabilities, backend: ModelHealthBackend) -> (r: Result<
        std::time::Instant,
        TestModelConnectionError,
    >)
        ensures
            r is Ok <==> match backend {
                ModelHealthBackend::Chat => locator.chat,
                ModelHealthBackend::Completion => locator.completion,
                ModelHealthBackend::Embedding => true,
            },
            r matches Err(e) ==> e is NotEnabled,
    {
        let start = instant_now();
        let enabled = match backend {
            ModelHealthBackend::Chat => locator.chat,
            ModelHealthBackend::Completion => locator.completion,
            ModelHealthBackend::Embedding => true,
        };
        if enabled {
            Ok(start)
        } else {
            Err(TestModelConnectionError::NotEnabled)
        }
    }

    /// The request that probes the chat model, made by the model client's
    /// builders: it holds exactly one message, a user message with the
    /// probe's text. The builders do not fail on it, so a request is always
    /// returned.
    pub fn chat_probe_request() -> (r: Result<
        async_openai_alt::types::CreateChatCompletionRequest,
        TestModelConnectionError,
    >)
        ensures
            r matches Ok(request) && request_messages(request) == seq![
                (Role::User, Some(CHAT_PROBE@)),
            ],
    {
        let message = match user_message(CHAT_PROBE) {
            Ok(message) => message,
            Err(e) => {
                return Err(TestModelConnectionError::from(e));
            },
        };
        match chat_request(message) {
            Ok(request) => Ok(request),
            Err(e) => Err(TestModelConnectionError::from(e)),
        }
    }

    /// The health of a backend whose probe took `elapsed_millis`: the latency
    /// in whole milliseconds, cut to 32 bits, where the probe went well; a
    /// failure to connect where it did not.
    pub fn probe_health(outcome: ProbeOutcome, elapsed_millis: u128) -> (r: Result<
        ModelBackendHealthInfo,
        TestModelConnectionError,
    >)
        ensures
            match outcome {
                ProbeOutcome::Completion { first_chunk: true }
                | ProbeOutcome::Chat(Ok(_))
                | ProbeOutcome::Embedding(Ok(_)) => r == Ok::<
                    ModelBackendHealthInfo,
                    TestModelConnectionError,
                >(ModelBackendHealthInfo { latency_ms: elapsed_millis as i32 }),
                ProbeOutcome::Completion { first_chunk: false } => r matches Err(
                    TestModelConnectionError::FailedToConnect(m),
                ) && m@ == COMPLETION_UNREACHABLE@,
                ProbeOutcome::Chat(Err(e)) => r matches Err(
                    TestModelConnectionError::FailedToConnect(m),
                ) && (api_message(e) matches Some(sent) ==> m@ == sent),
                ProbeOutcome::Embedding(Err(text)) => r == Err::<
                    ModelBackendHealthInfo,
                    TestModelConnectionError,
                >(TestModelConnectionError::FailedToConnect(text)),
            },
    {
        let latency_ms = #[verifier::truncate]
        (elapsed_millis as i32);
        match outcome {
            ProbeOutcome::Completion { first_chunk } => if first_chunk {
                Ok(ModelBackendHealthInfo { latency_ms })
            } else {
                Err(TestModelConnectionError::FailedToConnect(COMPLETION_UNREACHABLE.to_owned()))
            },
            ProbeOutcome::Chat(Ok(_)) => Ok(ModelBackendHealthInfo { latency_ms }),
            ProbeOutcome::Chat(Err(e)) => Err(TestModelConnectionError::from(e)),
            ProbeOutcome::Embedding(Ok(_)) => Ok(ModelBackendHealthInfo { latency_ms }),
            ProbeOutcome::Embedding(Err(text)) => Err(
                TestModelConnectionError::FailedToConnect(text),
            ),
        }
    }

    /// The health of a backend whose probe was started at `start` and has
    /// now ended with `outcome`. The clock is read here, so the latency is
    /// whatever time has passed; the rest is as `probe_health` says.
    pub fn finish_model_probe(start: &std::time::Instant, outcome: ProbeOutcome) -> (r: Result<
        ModelBackendHealthInfo,
        TestModelConnectionError,
    >)
        ensures
            match outcome {
                ProbeOutcome::Completion { first_chunk: true }
                | ProbeOutcome::Chat(Ok(_))
                | ProbeOutcome::Embedding(Ok(_)) => r is Ok,
                ProbeOutcome::Completion { first_chunk: false } => r matches Err(
                    TestModelConnectionError::FailedToConnect(m),
                ) && m@ == COMPLETION_UNREACHABLE@,
                ProbeOutcome::Chat(Err(e)) => r matches Err(
                    TestModelConnectionError::FailedToConnect(m),
                ) && (api_message(e) matches Some(sent) ==> m@ == sent),
                ProbeOutcome::Embedding(Err(text)) => r == Err::<
                    ModelBackendHealthInfo,
                    TestModelConnectionError,
                >(TestModelConnectionError::FailedToConnect(text)),
            },
    {
        let elapsed = elapsed_since(start);
        Self::probe_health(outcome, whole_millis(&elapsed))
    }

    /// The token that workers register with. For administrators.
    pub fn registration_token() -> (op: Operation)
        ensures
            op.plan@ == seq![Check::Admin],
            op.call == Call::WorkerReadRegistrationToken,
            op.window is None,
    {
        Operation {
            plan: vec![Check::Admin],
            call: Call::WorkerReadRegistrationToken,
            window: None,
        }
    }

    /// The caller's own user record: what the check resolves is the answer.
    pub fn me() -> (op: Operation)
        ensures
            op.plan@ == seq![Check::User { allow_auth_token: true }],
            op.call == Call::Nothing,
            op.window is None,
    {
        Operation {
            plan: vec![Check::User { allow_auth_token: true }],
            call: Call::Nothing,
            window: None,
        }
    }

    /// The users, page by page. For every user that is logged in.
    pub fn users(
        after: Option<String>,
        before: Option<String>,
        first: Option<i32>,
        last: Option<i32>,
    ) -> (op: Operation)
        ensures
            op.plan@ == seq![Check::User { allow_auth_token: false }],
            op.call == Call::AuthListUsers,
            op.window == Some(Window { after, before, first, last }),
    {
        Operation {
            plan: vec![Check::User { allow_auth_token: false }],
            call: Call::AuthListUsers,
            window: Some(Window { after, before, first, last }),
        }
    }

    /// The open invitations, page by page. For administrators.
    pub fn invitations(
        after: Option<String>,
        before: Option<String>,
        first: Option<i32>,
        last: Option<i32>,
    ) -> (op: Operation)
        ensures
            op.plan@ == seq![Check::Admin],
            op.call == Call::AuthListInvitations,
            op.window == Some(Window { after, before, first, last }),
    {
        Operation {
            plan: vec![Check::Admin],
            call: Call::AuthListInvitations,
            window: Some(Window { after, before, first, last }),
        }
    }

    /// The runs of background jobs, page by page. For administrators.
    pub fn job_runs(
        after: Option<String>,
        before: Option<String>,
        first: Option<i32>,
        last: Option<i32>,
    ) -> (op: Operation)
        ensures
            op.plan@ == seq![Check::Admin],
            op.call == Call::JobList,
            op.window == Some(Window { after, before, first, last }),
    {
        Operation {
            plan: vec![Check::Admin],
            call: Call::JobList,
            window: Some(Window { after, before, first, last }),
        }
    }

    /// Counts of job runs by outcome. For administrators.
    pub fn job_run_stats() -> (op: Operation)
        ensures
            op.plan@ == seq![Check::Admin],
            op.call == Call::JobComputeStats,
            op.window is None,
    {
        Operation {
            plan: vec![Check::Admin],
            call: Call::JobComputeStats,
            window: None,
        }
    }

    /// The mail transport's setting. For administrators.
    pub fn email_setting() -> (op: Operation)
        ensures
            op.plan@ == seq![Check::Admin],
            op.call == Call::EmailReadSetting,
            op.window is None,
    {
        Operation {
            plan: vec![Check::Admin],
            call: Call::EmailReadSetting,
            window: None,
        }
    }

    /// The network setting. For administrators.
    pub fn network_setting() -> (op: Operation)
        ensures
            op.plan@ == seq![Check::Admin],
            op.call == Call::SettingReadNetworkSetting,
            op.window is None,
    {
        Operation {
            plan: vec![Check::Admin],
            call: Call::SettingReadNetworkSetting,
            window: None,
        }
    }

    /// The security setting. For administrators.
    pub fn security_setting() -> (op: Operation)
        ensures
            op.plan@ == seq![Check::Admin],
            op.call == Call::SettingReadSecuritySetting,
            op.window is None,
    {
        Operation {
            plan: vec![Check::Admin],
            call: Call::SettingReadSecuritySetting,
            window: None,
        }
    }

    /// The git repositories, page by page. For administrators.
    pub fn git_repositories(
        after: Option<String>,
        before: Option<String>,
        first: Option<i32>,
        last: Option<i32>,
    ) -> (op: Operation)
        ensures
            op.plan@ == seq![Check::Admin],
            op.call == Call::GitRepositoryList,
            op.window == Some(Window { after, before, first, last }),
    {
        Operation {
            plan: vec![Check::Admin],
            call: Call::GitRepositoryList,
            window: Some(Window { after, before, first, last }),
        }
    }

    /// Searches the files of a repository by name; the service filters by the caller's policy.
    pub fn repository_search() -> (op: Operation)
        ensures
            op.plan@ == seq![Check::User { allow_auth_token: false }],
            op.call == Call::RepositorySearchFiles,
            op.window is None,
    {
        Operation {
            plan: vec![Check::User { allow_auth_token: false }],
            call: Call::RepositorySearchFiles,
            window: None,
        }
    }

    /// Searches the content of a repository's files; the service filters by the caller's policy.
    pub fn repository_grep() -> (op: Operation)
        ensures
            op.plan@ == seq![Check::User { allow_auth_token: false }],
            op.call == Call::RepositoryGrep,
            op.window is None,
    {
        Operation {
            plan: vec![Check::User { allow_auth_token: false }],
            call: Call::RepositoryGrep,
            window: None,
        }
    }

    /// The credential of one OAuth provider. For administrators.
    pub fn oauth_credential() -> (op: Operation)
        ensures
            op.plan@ == seq![Check::Admin],
            op.call == Call::AuthReadOauthCredential,
            op.window is None,
    {
        Operation {
            plan: vec![Check::Admin],
            call: Call::AuthReadOauthCredential,
            window: None,
        }
    }

    /// The callback address of one OAuth provider. For administrators.
    pub fn oauth_callback_url() -> (op: Operation)
        ensures
            op.plan@ == seq![Check::Admin],
            op.call == Call::AuthOauthCallbackUrl,
            op.window is None,
    {
        Operation {
            plan: vec![Check::Admin],
            call: Call::AuthOauthCallbackUrl,
            window: None,
        }
    }

    /// The credential of the directory. For administrators.
    pub fn ldap_credential() -> (op: Operation)
        ensures
            op.plan@ == seq![Check::Admin],
            op.call == Call::AuthReadLdapCredential,
            op.window is None,
    {
        Operation {
            plan: vec![Check::Admin],
            call: Call::AuthReadLdapCredential,
            window: None,
        }
    }

    /// The license in force. For administrators.
    pub fn license() -> (op: Operation)
        ensures
            op.plan@ == seq![Check::Admin],
            op.call == Call::LicenseRead,
            op.window is None,
    {
        Operation {
            plan: vec![Check::Admin],
            call: Call::LicenseRead,
            window: None,
        }
    }

    /// The recorded events of `users`, page by page. For every user that is
    /// logged in and whose policy lets the caller read the analytics of
    /// `users`. The users that the policy is asked about are the users whose
    /// events are fetched: those named, and none where no filter is given.
    pub fn user_events(
        after: Option<String>,
        before: Option<String>,
        first: Option<i32>,
        last: Option<i32>,
        users: Option<Vec<ID>>,
    ) -> (op: Operation)
        ensures
            reads_analytic(op.plan@, users),
            op.call == Call::UserEventList,
            op.window == Some(Window { after, before, first, last }),
    {
        let users = match users {
            Some(u) => u,
            None => Vec::new(),
        };
        Operation {
            plan: vec![Check::User { allow_auth_token: false }, Check::ReadAnalytic { users }],
            call: Call::UserEventList,
            window: Some(Window { after, before, first, last }),
        }
    }

    /// The caller's notifications.
    pub fn notifications() -> (op: Operation)
        ensures
            op.plan@ == seq![Check::User { allow_auth_token: false }],
            op.call == Call::NotificationList,
            op.window is None,
    {
        Operation {
            plan: vec![Check::User { allow_auth_token: false }],
            call: Call::NotificationList,
            window: None,
        }
    }

    /// How much disk the server's data takes. For administrators.
    pub fn disk_usage_stats() -> (op: Operation)
        ensures
            op.plan@ == seq![Check::Admin],
            op.call == Call::AnalyticDiskUsageStats,
            op.window is None,
    {
        Operation {
            plan: vec![Check::Admin],
            call: Call::AnalyticDiskUsageStats,
            window: None,
        }
    }

    /// The repositories that the caller's policy shows.
    pub fn repository_list() -> (op: Operation)
        ensures
            op.plan@ == seq![Check::User { allow_auth_token: true }],
            op.call == Call::RepositoryList,
            op.window is None,
    {
        Operation {
            plan: vec![Check::User { allow_auth_token: true }],
            call: Call::RepositoryList,
            window: None,
        }
    }

    /// The sources that the caller's policy shows.
    pub fn context_info() -> (op: Operation)
        ensures
            op.plan@ == seq![Check::User { allow_auth_token: true }],
            op.call == Call::ContextRead,
            op.window is None,
    {
        Operation {
            plan: vec![Check::User { allow_auth_token: true }],
            call: Call::ContextRead,
            window: None,
        }
    }

    /// The integrations, page by page. For administrators.
    pub fn integrations(
        after: Option<String>,
        before: Option<String>,
        first: Option<i32>,
        last: Option<i32>,
    ) -> (op: Operation)
        ensures
            op.plan@ == seq![Check::Admin],
            op.call == Call::IntegrationList,
            op.window == Some(Window { after, before, first, last }),
    {
        Operation {
            plan: vec![Check::Admin],
            call: Call::IntegrationList,
            window: Some(Window { after, before, first, last }),
        }
    }

    /// The repositories that integrations provide, page by page. For administrators.
    pub fn integrated_repositories(
        after: Option<String>,
        before: Option<String>,
        first: Option<i32>,
        last: Option<i32>,
    ) -> (op: Operation)
        ensures
            op.plan@ == seq![Check::Admin],
            op.call == Call::ThirdPartyRepositoryList,
            op.window == Some(Window { after, before, first, last }),
    {
        Operation {
            plan: vec![Check::Admin],
            call: Call::ThirdPartyRepositoryList,
            window: Some(Window { after, before, first, last }),
        }
    }

    /// The state of ingestion by source. For administrators.
    pub fn ingestion_status() -> (op: Operation)
        ensures
            op.plan@ == seq![Check::Admin],
            op.call == Call::IngestionStats,
            op.window is None,
    {
        Operation {
            plan: vec![Check::Admin],
            call: Call::IngestionStats,
            window: None,
        }
    }

    /// The threads, page by page. What was fetched still has to pass
    /// `read_thread_questions` before it is shown.
    pub fn threads(
        after: Option<String>,
        before: Option<String>,
        first: Option<i32>,
        last: Option<i32>,
    ) -> (op: Operation)
        ensures
            op.plan@ == seq![Check::User { allow_auth_token: true }],
            op.call == Call::ThreadList,
            op.window == Some(Window { after, before, first, last }),
    {
        Operation {
            plan: vec![Check::User { allow_auth_token: true }],
            call: Call::ThreadList,
            window: Some(Window { after, before, first, last }),
        }
    }

    /// The caller's own threads, page by page.
    pub fn my_threads(
        after: Option<String>,
        before: Option<String>,
        first: Option<i32>,
        last: Option<i32>,
    ) -> (op: Operation)
        ensures
            op.plan@ == seq![Check::User { allow_auth_token: true }],
            op.call == Call::ThreadListOwned,
            op.window == Some(Window { after, before, first, last }),
    {
        Operation {
            plan: vec![Check::User { allow_auth_token: true }],
            call: Call::ThreadListOwned,
            window: Some(Window { after, before, first, last }),
        }
    }

    /// The messages of one thread, page by page: the thread must exist and the
    /// caller's policy must let the caller read it.
    pub fn thread_messages(
        thread_id: ID,
        after: Option<String>,
        before: Option<String>,
        first: Option<i32>,
        last: Option<i32>,
    ) -> (op: Operation)
        ensures
            op.plan@ == seq![
                Check::User { allow_auth_token: true },
                Check::Thread { id: thread_id, missing: THREAD_MISSING_ON_READ },
                Check::Policy(PolicyKind::ReadThread),
            ],
            op.call == Call::ThreadListMessages,
            op.window == Some(Window { after, before, first, last }),
    {
        Operation {
            plan: vec![
                Check::User { allow_auth_token: true },
                Check::Thread { id: thread_id, missing: THREAD_MISSING_ON_READ },
                Check::Policy(PolicyKind::ReadThread),
            ],
            call: Call::ThreadListMessages,
            window: Some(Window { after, before, first, last }),
        }
    }

    /// The pages, page by page. The page service must exist.
    pub fn pages(
        after: Option<String>,
        before: Option<String>,
        first: Option<i32>,
        last: Option<i32>,
    ) -> (op: Operation)
        ensures
            op.plan@ == seq![
                Check::User { allow_auth_token: false },
                Check::PageService,
            ],
            op.call == Call::PageList,
            op.window == Some(Window { after, before, first, last }),
    {
        Operation {
            plan: vec![Check::User { allow_auth_token: false }, Check::PageService],
            call: Call::PageList,
            window: Some(Window { after, before, first, last }),
        }
    }

    /// The sections of one page, page by page. The page service must exist.
    pub fn page_sections(
        after: Option<String>,
        before: Option<String>,
        first: Option<i32>,
        last: Option<i32>,
    ) -> (op: Operation)
        ensures
            op.plan@ == seq![
                Check::User { allow_auth_token: false },
                Check::PageService,
            ],
            op.call == Call::PageListSections,
            op.window == Some(Window { after, before, first, last }),
    {
        Operation {
            plan: vec![Check::User { allow_auth_token: false }, Check::PageService],
            call: Call::PageListSections,
            window: Some(Window { after, before, first, last }),
        }
    }

    /// The web documents that were added by hand, page by page. For administrators.
    pub fn custom_web_documents(
        after: Option<String>,
        before: Option<String>,
        first: Option<i32>,
        last: Option<i32>,
    ) -> (op: Operation)
        ensures
            op.plan@ == seq![Check::Admin],
            op.call == Call::WebDocumentListCustom,
            op.window == Some(Window { after, before, first, last }),
    {
        Operation {
            plan: vec![Check::Admin],
            call: Call::WebDocumentListCustom,
            window: Some(Window { after, before, first, last }),
        }
    }

    /// The preset web documents, page by page. For administrators.
    pub fn preset_web_documents(
        after: Option<String>,
        before: Option<String>,
        first: Option<i32>,
        last: Option<i32>,
    ) -> (op: Operation)
        ensures
            op.plan@ == seq![Check::Admin],
            op.call == Call::WebDocumentListPreset,
            op.window == Some(Window { after, before, first, last }),
    {
        Operation {
            plan: vec![Check::Admin],
            call: Call::WebDocumentListPreset,
            window: Some(Window { after, before, first, last }),
        }
    }

    /// The user groups.
    pub fn user_groups() -> (op: Operation)
        ensures
            op.plan@ == seq![Check::User { allow_auth_token: false }],
            op.call == Call::UserGroupList,
            op.window is None,
    {
        Operation {
            plan: vec![Check::User { allow_auth_token: false }],
            call: Call::UserGroupList,
            window: None,
        }
    }

    /// The groups that may read one source. For administrators.
    pub fn source_id_access_policies() -> (op: Operation)
        ensures
            op.plan@ == seq![Check::Admin],
            op.call == Call::AccessPolicyListSourceIdReadAccess,
            op.window is None,
    {
        Operation {
            plan: vec![Check::Admin],
            call: Call::AccessPolicyListSourceIdReadAccess,
            window: None,
        }
    }

    /// Questions that the chat model suggests about a repository. The chat service must exist.
    pub fn read_repository_related_questions() -> (op: Operation)
        ensures
            op.plan@ == seq![
                Check::User { allow_auth_token: false },
                Check::ChatService { message: CHAT_NOT_INITIALIZED },
            ],
            op.call == Call::RepositoryReadRelatedQuestions,
            op.window is None,
    {
        Operation {
            plan: vec![
                Check::User { allow_auth_token: false },
                Check::ChatService { message: CHAT_NOT_INITIALIZED },
            ],
            call: Call::RepositoryReadRelatedQuestions,
            window: None,
        }
    }
}

} // verus!
