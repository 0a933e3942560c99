use tabby_schema::check::{Answer, Check, PolicyKind, PolicyQuestion, Request, UNEXPECTED_ANSWER};
use tabby_schema::context::{
    Capabilities, Context, JWTPayload, LicenseInfo, LicenseStatus, LicenseType, Page, PageSection,
    Thread, UserSecured,
};
use tabby_schema::error::{CoreError, ErrorCode};
use tabby_schema::guard::{
    check_admin, check_claims, check_license, check_user, check_user_allow_auth_token,
    check_user_and_auth_token, ADMIN_REQUIRED, AUTH_TOKEN_NOT_ALLOWED, LICENSE_EXPIRED,
    LICENSE_LACKS_FEATURE, LICENSE_SEATS_EXCEEDED, NOT_LOGGED_IN, PAGE_SERVICE_DISABLED,
};
use tabby_schema::mutation::Mutation;
use tabby_schema::operation::Call;
use tabby_schema::query::Query;
use tabby_schema::run::{Action, Phase, Run};
use tabby_schema::subscription::Subscription;

fn context_of(sub: Option<&str>, from_token: bool, page: bool) -> Context {
    Context {
        claims: sub.map(|s| JWTPayload { sub: s.to_string(), is_generated_from_auth_token: from_token }),
        locator: Capabilities { chat: false, completion: false, page },
    }
}

fn user_of(id: &str, is_admin: bool) -> UserSecured {
    UserSecured { id: id.to_string(), is_admin }
}

fn thread_of(id: &str, owner: &str) -> Thread {
    Thread { id: id.to_string(), user_id: owner.to_string(), is_ephemeral: false }
}

/// Feeds the answers to the run, one for each request, and returns where it ends
/// together with the requests it made.
fn drive(ctx: Context, plan: Vec<Check>, answers: Vec<Answer>) -> (Run, Action, Vec<Request>) {
    let (mut run, mut action) = Run::start(ctx, plan);
    let mut asked = Vec::new();
    for answer in answers {
        match action {
            Action::Ask(request) => asked.push(request),
            other => return (run, other, asked),
        }
        let (next, then) = run.resume(answer);
        run = next;
        action = then;
    }
    (run, action, asked)
}

#[test]
fn anonymous_caller_of_admin_query_is_unauthorized() {
    let op = Query::registration_token();
    let (run, action, asked) = drive(context_of(None, false, true), op.plan, vec![]);
    assert!(matches!(action, Action::Reject(CoreError::Unauthorized(m)) if m == NOT_LOGGED_IN));
    assert_eq!(run.phase, Phase::Denied);
    assert!(asked.is_empty());
    assert!(!run.is_granted());
    for plan in [Query::license().plan, Query::job_run_stats().plan] {
        let (run, action) = Run::start(context_of(None, false, true), plan);
        assert!(matches!(action, Action::Reject(CoreError::Unauthorized(m)) if m == NOT_LOGGED_IN));
        assert!(!run.is_granted());
    }
}

#[test]
fn non_admin_is_forbidden_on_admin_operations() {
    let plans = vec![
        Query::registration_token().plan,
        Query::invitations(None, None, Some(10), None).plan,
        Mutation::create_invitation().plan,
        Mutation::update_security_setting().plan,
        Mutation::trigger_job_run().plan,
        Query::test_model_connection().plan,
        Query::job_run_stats().plan,
        Query::license().plan,
    ];
    for plan in plans {
        let (run, action) = Run::start(context_of(Some("u1"), false, true), plan);
        assert!(matches!(&action, Action::Ask(Request::User(sub)) if sub == "u1"));
        assert!(run.is_waiting());
        let (run, action) = run.resume(Answer::User(Ok(user_of("u1", false))));
        assert!(matches!(action, Action::Reject(CoreError::Forbidden(m)) if m == ADMIN_REQUIRED));
        assert_eq!(run.phase, Phase::Denied);
    }
}

#[test]
fn admin_passes_admin_operation() {
    let op = Mutation::reset_license();
    assert_eq!(op.call, Call::LicenseReset);
    let (run, action, asked) = drive(
        context_of(Some("root"), false, true),
        op.plan,
        vec![Answer::User(Ok(user_of("root", true)))],
    );
    assert!(matches!(action, Action::Proceed));
    assert!(run.is_granted());
    assert_eq!(run.at, run.plan.len());
    assert_eq!(asked.len(), 1);
    assert_eq!(run.facts.user.unwrap().id, "root");
}

#[test]
fn user_lookup_failure_ends_the_operation() {
    let (run, action, _) = drive(
        context_of(Some("gone"), false, true),
        Query::users(None, None, None, None).plan,
        vec![Answer::User(Err(CoreError::Unauthorized("user is deactivated")))],
    );
    assert!(matches!(action, Action::Reject(CoreError::Unauthorized("user is deactivated"))));
    assert_eq!(run.phase, Phase::Denied);
    // Whatever the load fails with, the caller sees an authorization failure.
    for failure in [
        CoreError::Other("no rows returned".to_string()),
        CoreError::NotFound("User not found"),
        CoreError::InvalidID,
    ] {
        for plan in [Query::users(None, None, None, None).plan, Mutation::reset_license().plan] {
            let (run, action, _) =
                drive(context_of(Some("gone"), false, true), plan, vec![Answer::User(Err(failure_copy(&failure)))]);
            assert!(matches!(action, Action::Reject(CoreError::Unauthorized(m)) if m == NOT_LOGGED_IN));
            assert!(!run.is_granted());
        }
    }
    let (_, action, _) = drive(
        context_of(Some("gone"), false, true),
        Query::me().plan,
        vec![Answer::User(Err(CoreError::Forbidden("user is locked")))],
    );
    assert!(matches!(action, Action::Reject(CoreError::Forbidden("user is locked"))));
}

fn failure_copy(failure: &CoreError) -> CoreError {
    match failure {
        CoreError::Other(m) => CoreError::Other(m.clone()),
        CoreError::NotFound(m) => CoreError::NotFound(*m),
        _ => CoreError::InvalidID,
    }
}

#[test]
fn auth_token_principal_is_unauthorized_where_not_allowed() {
    let (_, action, asked) =
        drive(context_of(Some("u1"), true, true), Query::users(None, None, None, None).plan, vec![]);
    assert!(matches!(action, Action::Reject(CoreError::Unauthorized(m)) if m == AUTH_TOKEN_NOT_ALLOWED));
    assert!(asked.is_empty());
    let (_, action) = Run::start(context_of(Some("u1"), true, true), Query::me().plan);
    assert!(matches!(action, Action::Ask(Request::User(sub)) if sub == "u1"));
    let (_, action) = Run::start(context_of(Some("u1"), true, true), Mutation::create_invitation().plan);
    assert!(matches!(action, Action::Reject(CoreError::Unauthorized(m)) if m == AUTH_TOKEN_NOT_ALLOWED));
}

#[test]
fn check_claims_and_user_guards() {
    let anonymous = context_of(None, false, true);
    assert!(matches!(check_claims(&anonymous), Err(CoreError::Unauthorized(m)) if m == NOT_LOGGED_IN));
    assert!(matches!(check_user(&anonymous), Err(CoreError::Unauthorized(_))));
    let token = context_of(Some("u9"), true, true);
    assert_eq!(check_claims(&token).unwrap().sub, "u9");
    assert!(matches!(check_user(&token), Err(CoreError::Unauthorized(m)) if m == AUTH_TOKEN_NOT_ALLOWED));
    assert!(matches!(check_user_and_auth_token(&token, false), Err(CoreError::Unauthorized(_))));
    assert_eq!(check_user_allow_auth_token(&token).unwrap().sub, "u9");
    assert_eq!(check_user_and_auth_token(&token, true).unwrap().sub, "u9");
    let login = context_of(Some("u2"), false, true);
    assert_eq!(check_user(&login).unwrap().sub, "u2");
    assert!(check_admin(&user_of("a", true)).is_ok());
    assert!(matches!(check_admin(&user_of("b", false)), Err(CoreError::Forbidden(m)) if m == ADMIN_REQUIRED));
}

#[test]
fn self_targeting_admin_mutations_are_forbidden() {
    for is_admin in [true, false] {
        for plan in [
            Mutation::update_user_active("me".to_string()).plan,
            Mutation::update_user_role("me".to_string()).plan,
        ] {
            let (run, action, _) = drive(
                context_of(Some("me"), false, true),
                plan,
                vec![Answer::User(Ok(user_of("me", is_admin)))],
            );
            assert!(matches!(&action, Action::Reject(e) if e.error_code() == Some(ErrorCode::Forbidden)));
            assert_eq!(run.phase, Phase::Denied);
        }
    }
    let (_, action, _) = drive(
        context_of(Some("me"), false, true),
        Mutation::update_user_active("me".to_string()).plan,
        vec![Answer::User(Ok(user_of("me", true)))],
    );
    assert!(matches!(action, Action::Reject(CoreError::Forbidden("You cannot change your own active status"))));
    let (_, action, _) = drive(
        context_of(Some("me"), false, true),
        Mutation::update_user_role("me".to_string()).plan,
        vec![Answer::User(Ok(user_of("me", true)))],
    );
    assert!(matches!(action, Action::Reject(CoreError::Forbidden("You cannot update your own role"))));
    let (run, action, _) = drive(
        context_of(Some("me"), false, true),
        Mutation::update_user_role("other".to_string()).plan,
        vec![Answer::User(Ok(user_of("me", true)))],
    );
    assert!(matches!(action, Action::Proceed));
    assert!(run.is_granted());
}

#[test]
fn only_the_user_itself_changes_name_and_avatar() {
    let (_, action, _) =
        drive(context_of(Some("a"), false, true), Mutation::upload_user_avatar_base64("b".to_string()).plan, vec![]);
    assert!(matches!(action, Action::Reject(CoreError::Forbidden("You cannot change another user's avatar"))));
    let (_, action, _) =
        drive(context_of(Some("a"), false, true), Mutation::update_user_name("b".to_string()).plan, vec![]);
    assert!(matches!(action, Action::Reject(CoreError::Forbidden("You cannot change another user's name"))));
    let (_, action, _) =
        drive(context_of(None, false, true), Mutation::update_user_name("b".to_string()).plan, vec![]);
    assert!(matches!(action, Action::Reject(CoreError::Unauthorized(m)) if m == NOT_LOGGED_IN));
    let (run, action, _) =
        drive(context_of(Some("a"), false, true), Mutation::upload_user_avatar_base64("a".to_string()).plan, vec![]);
    assert!(matches!(action, Action::Proceed));
    assert!(run.facts.user.is_none());
    let (_, action) = Run::start(context_of(Some("a"), false, true), Mutation::update_user_name("a".to_string()).plan);
    assert!(matches!(action, Action::Ask(Request::Validation)));
}

#[test]
fn license_guard_tests_tier_then_standing() {
    let enterprise = vec![LicenseType::Enterprise];
    let ok = LicenseInfo { kind: LicenseType::Enterprise, status: LicenseStatus::Valid };
    assert!(check_license(&ok, &enterprise).is_ok());
    let team = LicenseInfo { kind: LicenseType::Team, status: LicenseStatus::Valid };
    assert!(matches!(check_license(&team, &enterprise), Err(CoreError::InvalidLicense(m)) if m == LICENSE_LACKS_FEATURE));
    let expired_team = LicenseInfo { kind: LicenseType::Community, status: LicenseStatus::Expired };
    assert!(matches!(check_license(&expired_team, &enterprise), Err(CoreError::InvalidLicense(m)) if m == LICENSE_LACKS_FEATURE));
    let expired = LicenseInfo { kind: LicenseType::Enterprise, status: LicenseStatus::Expired };
    assert!(matches!(check_license(&expired, &enterprise), Err(CoreError::InvalidLicense(m)) if m == LICENSE_EXPIRED));
    let crowded = LicenseInfo { kind: LicenseType::Enterprise, status: LicenseStatus::SeatsExceeded };
    assert!(matches!(check_license(&crowded, &enterprise), Err(CoreError::InvalidLicense(m)) if m == LICENSE_SEATS_EXCEEDED));
    assert!(matches!(check_license(&ok, &vec![]), Err(CoreError::InvalidLicense(_))));
    assert!(check_license(&team, &vec![LicenseType::Enterprise, LicenseType::Team]).is_ok());
}

#[test]
fn licensed_setting_asks_user_license_and_validation_in_order() {
    let answers = vec![
        Answer::User(Ok(user_of("root", true))),
        Answer::License(Ok(LicenseInfo { kind: LicenseType::Enterprise, status: LicenseStatus::Valid })),
        Answer::Validation(Ok(())),
    ];
    let (run, action, asked) =
        drive(context_of(Some("root"), false, true), Mutation::update_oauth_credential().plan, answers);
    assert!(matches!(action, Action::Proceed));
    assert!(run.is_granted());
    assert!(matches!(asked[0], Request::User(_)));
    assert!(matches!(asked[1], Request::License));
    assert!(matches!(asked[2], Request::Validation));
    let answers = vec![
        Answer::User(Ok(user_of("root", true))),
        Answer::License(Ok(LicenseInfo { kind: LicenseType::Team, status: LicenseStatus::Valid })),
    ];
    let (_, action, asked) =
        drive(context_of(Some("root"), false, true), Mutation::update_ldap_credential().plan, answers);
    assert!(matches!(&action, Action::Reject(e) if e.error_code() == Some(ErrorCode::InvalidLicense)));
    assert_eq!(asked.len(), 2);
    let answers = vec![
        Answer::User(Ok(user_of("root", true))),
        Answer::License(Err(CoreError::Other("license store is down".to_string()))),
    ];
    let (_, action, _) =
        drive(context_of(Some("root"), false, true), Mutation::test_ldap_connection().plan, answers);
    assert!(matches!(action, Action::Reject(CoreError::Other(m)) if m == "license store is down"));
}

#[test]
fn delete_thread_is_forbidden_for_non_owner_and_passes_for_owner() {
    // The thread store of this scenario: one thread of alice.
    let mut store = vec![thread_of("t1", "alice")];
    let policy = |caller: &str, question: &PolicyQuestion| match question {
        PolicyQuestion::DeleteThread { owner } if owner == caller => Ok(()),
        _ => Err(CoreError::Forbidden("You cannot delete threads that do not belong to you")),
    };
    for (caller, allowed) in [("bob", false), ("alice", true)] {
        let op = Mutation::delete_thread("t1".to_string());
        assert_eq!(op.call, Call::ThreadDelete);
        let (run, action) = Run::start(context_of(Some(caller), false, true), op.plan);
        assert!(matches!(action, Action::Ask(Request::User(_))));
        let (run, action) = run.resume(Answer::User(Ok(user_of(caller, false))));
        let id = match action {
            Action::Ask(Request::Thread(id)) => id,
            other => panic!("expected a thread request, got {:?}", other),
        };
        let found = store.iter().find(|t| t.id == id).map(|t| thread_of(&t.id, &t.user_id));
        let (run, action) = run.resume(Answer::Thread(Ok(found)));
        let verdict = match &action {
            Action::Ask(Request::Policy(question)) => {
                assert!(matches!(question, PolicyQuestion::DeleteThread { owner } if owner == "alice"));
                policy(caller, question)
            }
            other => panic!("expected a policy question, got {:?}", other),
        };
        let (run, action) = run.resume(Answer::Policy(verdict));
        if allowed {
            assert!(matches!(action, Action::Proceed));
            assert!(run.is_granted());
            store.retain(|t| t.id != "t1");
        } else {
            assert!(matches!(&action, Action::Reject(e) if e.error_code() == Some(ErrorCode::Forbidden)));
            assert!(!run.is_granted());
            assert_eq!(store.len(), 1);
        }
    }
    // A later read of the deleted thread is answered with NotFound.
    let op = Query::thread_messages("t1".to_string(), None, None, Some(5), None);
    let found = store.iter().find(|t| t.id == "t1").map(|t| thread_of(&t.id, &t.user_id));
    let (_, action, _) = drive(
        context_of(Some("alice"), false, true),
        op.plan,
        vec![Answer::User(Ok(user_of("alice", false))), Answer::Thread(Ok(found))],
    );
    assert!(matches!(action, Action::Reject(CoreError::NotFound("thread not found"))));
    let (_, action, _) = drive(
        context_of(Some("alice"), false, true),
        Mutation::delete_thread("t1".to_string()).plan,
        vec![Answer::User(Ok(user_of("alice", false))), Answer::Thread(Ok(None))],
    );
    assert!(matches!(action, Action::Reject(CoreError::NotFound("Thread not found"))));
}

#[test]
fn create_thread_and_run_persists_before_the_stream() {
    let mut threads: Vec<Thread> = Vec::new();
    let op = Subscription::create_thread_and_run();
    assert_eq!(
        op.call,
        Call::ThreadCreateRun { yield_last_user_message: true, yield_thread_created: true }
    );
    assert_eq!(
        Subscription::create_thread_run("t1".to_string()).call,
        Call::ThreadCreateRun { yield_last_user_message: true, yield_thread_created: false }
    );
    let (run, action) = Run::start(context_of(Some("alice"), true, true), op.plan);
    assert!(matches!(action, Action::Ask(Request::User(_))));
    let (run, action) = run.resume(Answer::User(Ok(user_of("alice", false))));
    assert!(matches!(action, Action::Ask(Request::Validation)));
    assert!(threads.is_empty());
    let (run, action) = run.resume(Answer::Validation(Ok(())));
    assert!(matches!(action, Action::Ask(Request::Perform(Call::ThreadCreate))));
    assert!(!run.is_granted());
    threads.push(thread_of("t7", "alice"));
    let (run, action) = run.resume(Answer::Performed(Ok(Some("t7".to_string()))));
    assert!(matches!(action, Action::Proceed));
    assert!(run.is_granted());
    assert_eq!(run.facts.created.as_deref(), Some("t7"));
    assert_eq!(run.facts.user.as_ref().map(|u| u.id.as_str()), Some("alice"));
    // The stream is handed out and dropped at once: the thread stays.
    assert_eq!(threads.len(), 1);
    assert_eq!(threads[0].user_id, "alice");
    // A second subscription runs its own checks before its own change.
    let (run, action) = Run::start(context_of(Some("alice"), true, true), Subscription::create_thread_and_run().plan);
    assert!(matches!(action, Action::Ask(Request::User(_))));
    assert!(run.is_waiting());
    assert_eq!(threads.len(), 1);
}

#[test]
fn failed_persist_or_failed_check_never_starts_the_stream() {
    let (run, action, asked) = drive(
        context_of(Some("alice"), false, true),
        Subscription::create_thread_and_run().plan,
        vec![
            Answer::User(Ok(user_of("alice", false))),
            Answer::Validation(Ok(())),
            Answer::Performed(Err(CoreError::Other("disk full".to_string()))),
        ],
    );
    assert!(matches!(action, Action::Reject(CoreError::Other(m)) if m == "disk full"));
    assert!(!run.is_granted());
    assert_eq!(asked.len(), 3);
    let mut errors = validator::ValidationErrors::new();
    errors.add("content", validator::ValidationError::new("length"));
    let (run, action, asked) = drive(
        context_of(Some("alice"), false, true),
        Subscription::create_thread_and_run().plan,
        vec![Answer::User(Ok(user_of("alice", false))), Answer::Validation(Err(errors))],
    );
    assert!(matches!(&action, Action::Reject(CoreError::InvalidInput(_))));
    assert!(!run.is_granted());
    assert!(asked.iter().all(|r| !matches!(r, Request::Perform(_))));
}

#[test]
fn create_thread_run_requires_the_owner() {
    let answers = |owner: &str| {
        vec![
            Answer::User(Ok(user_of("alice", false))),
            Answer::Validation(Ok(())),
            Answer::Thread(Ok(Some(thread_of("t1", owner)))),
            Answer::Performed(Ok(None)),
        ]
    };
    let (_, action, asked) = drive(
        context_of(Some("alice"), true, false),
        Subscription::create_thread_run("t1".to_string()).plan,
        answers("bob"),
    );
    assert!(matches!(action, Action::Reject(CoreError::Forbidden("You must be the thread owner to create a run"))));
    assert_eq!(asked.len(), 3);
    let (run, action, asked) = drive(
        context_of(Some("alice"), true, false),
        Subscription::create_thread_run("t1".to_string()).plan,
        answers("alice"),
    );
    assert!(matches!(action, Action::Proceed));
    assert!(run.is_granted());
    assert!(matches!(asked[3], Request::Perform(Call::ThreadAppendUserMessage)));
    let (_, action, _) = drive(
        context_of(Some("alice"), true, false),
        Subscription::create_thread_run("t1".to_string()).plan,
        vec![Answer::User(Ok(user_of("alice", false))), Answer::Validation(Ok(())), Answer::Thread(Ok(None))],
    );
    assert!(matches!(action, Action::Reject(CoreError::NotFound("Thread not found"))));
}

#[test]
fn page_operations_need_the_page_service() {
    for plan in [
        Query::pages(None, None, None, None).plan,
        Mutation::delete_page("page1".to_string()).plan,
        Subscription::create_page_run().plan,
        Subscription::create_page_section_run("page1".to_string()).plan,
    ] {
        let (_, action, asked) = drive(
            context_of(Some("alice"), false, false),
            plan,
            vec![Answer::User(Ok(user_of("alice", false)))],
        );
        assert!(matches!(action, Action::Reject(CoreError::Forbidden(m)) if m == PAGE_SERVICE_DISABLED));
        assert_eq!(asked.len(), 1);
    }
}

#[test]
fn section_update_resolves_section_then_page_then_policy() {
    let answers = vec![
        Answer::User(Ok(user_of("alice", false))),
        Answer::Validation(Ok(())),
        Answer::Section(Ok(PageSection { id: "s1".to_string(), page_id: "page9".to_string() })),
        Answer::Page(Ok(Page { id: "page9".to_string(), author_id: "carol".to_string() })),
        Answer::Policy(Ok(())),
    ];
    let (run, action, asked) = drive(
        context_of(Some("alice"), false, true),
        Mutation::update_page_section_title("s1".to_string()).plan,
        answers,
    );
    assert!(matches!(action, Action::Proceed));
    assert!(matches!(&asked[2], Request::Section(id) if id == "s1"));
    assert!(matches!(&asked[3], Request::Page(id) if id == "page9"));
    assert!(matches!(&asked[4], Request::Policy(PolicyQuestion::UpdatePage { author }) if author == "carol"));
    assert_eq!(run.facts.page.unwrap().author_id, "carol");
    assert_eq!(run.facts.section.unwrap().id, "s1");
}

#[test]
fn membership_policy_is_asked_before_validation() {
    let op = Mutation::upsert_user_group_membership("g1".to_string(), "u2".to_string(), true);
    let (_, action, asked) = drive(
        context_of(Some("alice"), false, true),
        op.plan,
        vec![
            Answer::User(Ok(user_of("alice", false))),
            Answer::Policy(Err(CoreError::Forbidden("You are not allowed to manage this group"))),
        ],
    );
    assert!(matches!(action, Action::Reject(CoreError::Forbidden("You are not allowed to manage this group"))));
    assert!(matches!(
        &asked[1],
        Request::Policy(PolicyQuestion::UpsertMembership { user_group_id, user_id, is_group_admin: true })
            if user_group_id == "g1" && user_id == "u2"
    ));
    assert_eq!(asked.len(), 2);
}

#[test]
fn analytics_ask_the_policy_about_the_named_users() {
    let op = Query::daily_stats(Some(vec!["u1".to_string(), "u2".to_string()]));
    assert_eq!(op.call, Call::AnalyticDailyStats);
    assert!(matches!(&op.plan[1], Check::ReadAnalytic { users } if users.len() == 2 && users[1] == "u2"));
    let op = Query::chat_daily_stats_in_past_year(None);
    assert!(matches!(&op.plan[1], Check::ReadAnalytic { users } if users.is_empty()));
    let (_, action, asked) = drive(
        context_of(Some("alice"), false, true),
        op.plan,
        vec![Answer::User(Ok(user_of("alice", false))), Answer::Policy(Ok(()))],
    );
    assert!(matches!(action, Action::Proceed));
    assert!(matches!(asked[1], Request::Policy(PolicyQuestion::ReadAnalytic)));
}

#[test]
fn user_events_ask_the_policy_about_the_users_they_fetch() {
    let op = Query::user_events(None, None, Some(10), None, Some(vec!["u7".to_string()]));
    assert_eq!(op.call, Call::UserEventList);
    assert_eq!(op.window.as_ref().unwrap().first, Some(10));
    let (run, action) = Run::replay(
        context_of(Some("alice"), false, true),
        op.plan,
        vec![Answer::User(Ok(user_of("alice", false)))],
    );
    assert!(matches!(action, Action::Ask(Request::Policy(PolicyQuestion::ReadAnalytic))));
    assert_eq!(run.pending_users(), Some(&vec!["u7".to_string()]));
    let (run, action) = run.resume(Answer::Policy(Err(CoreError::Forbidden("not your analytics"))));
    assert!(matches!(action, Action::Reject(CoreError::Forbidden("not your analytics"))));
    assert!(run.pending_users().is_none());
    // No filter: the policy is asked about no users, and none are fetched.
    let op = Query::user_events(None, None, None, None, None);
    assert!(matches!(&op.plan[1], Check::ReadAnalytic { users } if users.is_empty()));
    let (run, _) = Run::replay(
        context_of(Some("alice"), false, true),
        op.plan,
        vec![Answer::User(Ok(user_of("alice", false)))],
    );
    assert_eq!(run.pending_users(), Some(&Vec::new()));
    let (_, action) = Run::start(
        context_of(None, false, true),
        Query::user_events(None, None, None, None, None).plan,
    );
    assert!(matches!(action, Action::Reject(CoreError::Unauthorized(m)) if m == NOT_LOGGED_IN));
}

#[test]
fn answer_of_the_wrong_kind_never_passes() {
    let (run, action) = Run::start(context_of(Some("u1"), false, true), Query::registration_token().plan);
    assert!(matches!(action, Action::Ask(Request::User(_))));
    let (run, action) = run.resume(Answer::Policy(Ok(())));
    assert!(matches!(action, Action::Reject(CoreError::Forbidden(m)) if m == UNEXPECTED_ANSWER));
    assert_eq!(run.phase, Phase::Denied);
    // A run that is over takes no further answer.
    let (run, action) = run.resume(Answer::User(Ok(user_of("u1", true))));
    assert!(matches!(action, Action::Reject(CoreError::Forbidden(m)) if m == UNEXPECTED_ANSWER));
    assert!(!run.is_granted());
}

#[test]
fn granted_run_is_denied_by_a_stray_answer() {
    let (run, action) = Run::start(context_of(None, false, true), Query::server_info().plan);
    assert!(matches!(action, Action::Proceed));
    assert!(run.is_granted());
    let (run, action) = run.resume(Answer::Policy(Ok(())));
    assert!(matches!(action, Action::Reject(_)));
    assert!(!run.is_granted());
}

#[test]
fn policy_check_without_resolved_resource_is_denied() {
    let plan = vec![Check::Policy(PolicyKind::DeleteThread)];
    let (run, action) = Run::start(context_of(Some("u1"), false, true), plan);
    assert!(matches!(action, Action::Reject(CoreError::Forbidden(_))));
    assert!(!run.is_granted());
    let (_, action) = Run::start(context_of(Some("u1"), false, true), vec![Check::SectionPage]);
    assert!(matches!(action, Action::Reject(CoreError::Forbidden(_))));
    let (_, action) = Run::start(
        context_of(Some("u1"), false, true),
        vec![Check::ThreadOwner { message: "not yours" }],
    );
    assert!(matches!(action, Action::Reject(CoreError::Forbidden(_))));
}

#[test]
fn chat_service_must_exist_for_related_questions() {
    let (_, action, _) = drive(
        context_of(Some("u1"), false, true),
        Query::read_repository_related_questions().plan,
        vec![Answer::User(Ok(user_of("u1", false)))],
    );
    assert!(matches!(action, Action::Reject(CoreError::NotFound("The Chat didn't initialize yet"))));
    let mut ctx = context_of(Some("u1"), false, true);
    ctx.locator.chat = true;
    let (_, action, _) = drive(
        ctx,
        Query::read_repository_related_questions().plan,
        vec![Answer::User(Ok(user_of("u1", false)))],
    );
    assert!(matches!(action, Action::Proceed));
}

#[test]
fn replay_gives_the_answers_in_order_and_stops_at_the_end() {
    let (run, action) = Run::replay(
        context_of(Some("alice"), false, true),
        Mutation::delete_thread("t1".to_string()).plan,
        vec![
            Answer::User(Ok(user_of("alice", false))),
            Answer::Thread(Ok(Some(thread_of("t1", "alice")))),
            Answer::Policy(Ok(())),
            Answer::Policy(Err(CoreError::Forbidden("never read"))),
        ],
    );
    assert!(matches!(action, Action::Proceed));
    assert!(run.is_granted());
    assert_eq!(run.facts.thread.unwrap().user_id, "alice");
    let (run, action) = Run::replay(
        context_of(Some("alice"), false, true),
        Mutation::delete_thread("t1".to_string()).plan,
        vec![Answer::User(Ok(user_of("alice", false)))],
    );
    assert!(matches!(&action, Action::Ask(Request::Thread(id)) if id == "t1"));
    assert!(run.is_waiting());
    assert_eq!(run.at, 1);
    let (run, action) = Run::replay(
        context_of(Some("bob"), false, true),
        Mutation::reset_registration_token().plan,
        vec![Answer::User(Ok(user_of("bob", false))), Answer::User(Ok(user_of("bob", true)))],
    );
    assert!(matches!(action, Action::Reject(CoreError::Forbidden(m)) if m == ADMIN_REQUIRED));
    assert!(!run.is_granted());
    let (run, action) = Run::replay(context_of(None, false, true), Vec::new(), vec![Answer::Policy(Ok(()))]);
    assert!(matches!(action, Action::Proceed));
    assert!(run.is_granted());
}

#[test]
fn no_answers_make_a_non_admin_pass_an_admin_plan() {
    let answers = || {
        vec![
            Answer::User(Ok(user_of("bob", false))),
            Answer::License(Ok(LicenseInfo { kind: LicenseType::Enterprise, status: LicenseStatus::Valid })),
            Answer::Validation(Ok(())),
            Answer::Policy(Ok(())),
            Answer::Performed(Ok(None)),
        ]
    };
    for plan in [
        Mutation::update_security_setting().plan,
        Mutation::create_user_group().plan,
        Mutation::update_user_role("alice".to_string()).plan,
        Query::source_id_access_policies().plan,
    ] {
        let (run, action) = Run::replay(context_of(Some("bob"), false, true), plan, answers());
        assert!(matches!(action, Action::Reject(CoreError::Forbidden(_))));
        assert!(!run.is_granted());
    }
}
