//! The checks that an operation runs under, one by one: what each decides from
//! the request alone, what it has to ask for, and how it judges the answer.

use vstd::prelude::*;
use crate::context::{Context, LicenseInfo, LicenseType, Page, PageSection, Thread, UserSecured, ID};
use crate::error::CoreError;
use crate::operation::Call;
use crate::guard::{
    admin_verdict, check_admin, check_claims, check_license, check_loaded,
    check_user_and_auth_token, claims_verdict, license_verdict, load_failure, NOT_LOGGED_IN,
    PAGE_SERVICE_DISABLED,
};

verus! {

pub const UNEXPECTED_ANSWER: &'static str = "The answer does not belong to the pending check";

pub const UNRESOLVED_RESOURCE: &'static str = "The resource of this check was not resolved";

/// A question to the caller's access policy about a resolved resource.
#[derive(Clone, Copy, Debug, PartialEq, Eq, Structural)]
pub enum PolicyKind {
    ReadThread,
    DeleteThread,
    DeleteThreadMessages,
    UpdateThreadPersistence,
    UpdateThreadMessage,
    UpdatePage,
}

impl PolicyKind {
    /// Whether the question is about a page; the others are about a thread.
    pub open spec fn about_page(self) -> bool {
        self is UpdatePage
    }
}

/// One check of an operation's plan.
#[derive(Debug)]
pub enum Check {
    /// The request has a principal.
    Claims,
    /// The principal is of an admissible kind and resolves to a user.
    User { allow_auth_token: bool },
    /// As `User` without auth tokens, and the user is an administrator.
    Admin,
    /// The license in force is of one of these tiers and in good standing.
    License { allowed: Vec<LicenseType> },
    /// The principal is not the user that the operation targets.
    NotSelf { target: ID, message: &'static str },
    /// The principal is the user that the operation targets: an anonymous
    /// caller is unauthorized, any other principal forbidden.
    SelfOnly { target: ID, message: &'static str },
    /// The page service exists.
    PageService,
    /// The chat service exists.
    ChatService { message: &'static str },
    /// The operation's input passes validation.
    Valid,
    /// The thread exists; it is kept for the checks that follow.
    Thread { id: ID, missing: &'static str },
    /// The page can be had; it is kept for the checks that follow.
    Page { id: ID },
    /// The page section can be had; it is kept for the checks that follow.
    Section { id: ID },
    /// The page of the resolved section can be had.
    SectionPage,
    /// The resolved thread belongs to the resolved user.
    ThreadOwner { message: &'static str },
    /// The access policy allows this on the resolved thread or page.
    Policy(PolicyKind),
    /// The access policy allows reading the analytics of these users.
    ReadAnalytic { users: Vec<ID> },
    /// The access policy allows this change of a group's members.
    UpsertMembership { user_group_id: ID, user_id: ID, is_group_admin: bool },
    /// The access policy allows removing this member from the group.
    DeleteMembership { user_group_id: ID, user_id: ID },
    /// The change that a streaming run builds on has been made and has
    /// succeeded. It stands behind the checks that authorize it.
    Persist { call: Call },
}

/// What the checks passed so far have resolved.
#[derive(Debug)]
pub struct Facts {
    pub user: Option<UserSecured>,
    pub thread: Option<Thread>,
    pub page: Option<Page>,
    pub section: Option<PageSection>,
    /// The record that the change behind a streaming run created, where it
    /// created one.
    pub created: Option<ID>,
}

impl Facts {
    pub open spec fn none() -> Facts {
        Facts { user: None, thread: None, page: None, section: None, created: None }
    }

    pub fn new() -> (facts: Facts)
        ensures
            facts == Facts::none(),
    {
        Facts { user: None, thread: None, page: None, section: None, created: None }
    }
}

/// What the access policy is asked, with the attributes of the resource that
/// it is asked about.
#[derive(Debug)]
pub enum PolicyQuestion {
    /// About the users that the waiting check names; the run hands them
    /// out beside the question.
    ReadAnalytic,
    ReadThread { owner: ID, is_ephemeral: bool },
    DeleteThread { owner: ID },
    DeleteThreadMessages { owner: ID },
    UpdateThreadPersistence { owner: ID },
    UpdateThreadMessage { owner: ID },
    UpdatePage { author: ID },
    UpsertMembership { user_group_id: ID, user_id: ID, is_group_admin: bool },
    DeleteMembership { user_group_id: ID, user_id: ID },
}

/// What a check needs from outside before it can be judged.
#[derive(Debug)]
pub enum Request {
    /// The user record of this principal. A user that is gone or deactivated
    /// is reported as a failure.
    User(ID),
    /// The license in force.
    License,
    /// The validation of the operation's input.
    Validation,
    Thread(ID),
    Page(ID),
    Section(ID),
    Policy(PolicyQuestion),
    /// Make this change now, and report how it went.
    Perform(Call),
}

/// What came back for a request.
#[derive(Debug)]
pub enum Answer {
    User(Result<UserSecured, CoreError>),
    License(Result<LicenseInfo, CoreError>),
    Validation(Result<(), validator::ValidationErrors>),
    Thread(Result<Option<Thread>, CoreError>),
    Page(Result<Page, CoreError>),
    Section(Result<PageSection, CoreError>),
    Policy(Result<(), CoreError>),
    /// How the change went, with the id of the record it created, where it
    /// created one.
    Performed(Result<Option<ID>, CoreError>),
}

/// The question that a policy check puts about a thread.
pub open spec fn thread_question(kind: PolicyKind, thread: Thread) -> PolicyQuestion {
    match kind {
        PolicyKind::ReadThread => PolicyQuestion::ReadThread {
            owner: thread.user_id,
            is_ephemeral: thread.is_ephemeral,
        },
        PolicyKind::DeleteThread => PolicyQuestion::DeleteThread { owner: thread.user_id },
        PolicyKind::DeleteThreadMessages => PolicyQuestion::DeleteThreadMessages {
            owner: thread.user_id,
        },
        PolicyKind::UpdateThreadPersistence => PolicyQuestion::UpdateThreadPersistence {
            owner: thread.user_id,
        },
        _ => PolicyQuestion::UpdateThreadMessage { owner: thread.user_id },
    }
}

/// What a principal's claims decide for a check that loads the user.
pub open spec fn user_request(ctx: Context, allow_auth_token: bool) -> Result<
    Option<Request>,
    CoreError,
> {
    match claims_verdict(ctx, allow_auth_token) {
        Ok(claims) => Ok(Some(Request::User(claims.sub))),
        Err(e) => Err(e),
    }
}

impl Check {
    /// What the check decides before anything is asked: a failure, nothing
    /// more to ask (the check has passed), or the request whose answer it
    /// will judge.
    pub open spec fn before(self, ctx: Context, facts: Facts) -> Result<Option<Request>, CoreError> {
        match self {
            Check::Claims => match ctx.claims {
                Some(_) => Ok(None),
                None => Err(CoreError::Unauthorized(NOT_LOGGED_IN)),
            },
            Check::User { allow_auth_token } => user_request(ctx, allow_auth_token),
            Check::Admin => user_request(ctx, false),
            Check::License { .. } => Ok(Some(Request::License)),
            Check::NotSelf { target, message } => match ctx.claims {
                Some(claims) if claims.sub@ == target@ => Err(CoreError::Forbidden(message)),
                _ => Ok(None),
            },
            Check::SelfOnly { target, message } => match ctx.claims {
                None => Err(CoreError::Unauthorized(NOT_LOGGED_IN)),
                Some(claims) => if claims.sub@ == target@ {
                    Ok(None)
                } else {
                    Err(CoreError::Forbidden(message))
                },
            },
            Check::PageService => if ctx.locator.page {
                Ok(None)
            } else {
                Err(CoreError::Forbidden(PAGE_SERVICE_DISABLED))
            },
            Check::ChatService { message } => if ctx.locator.chat {
                Ok(None)
            } else {
                Err(CoreError::NotFound(message))
            },
            Check::Valid => Ok(Some(Request::Validation)),
            Check::Thread { id, .. } => Ok(Some(Request::Thread(id))),
            Check::Page { id } => Ok(Some(Request::Page(id))),
            Check::Section { id } => Ok(Some(Request::Section(id))),
            Check::SectionPage => match facts.section {
                Some(section) => Ok(Some(Request::Page(section.page_id))),
                None => Err(CoreError::Forbidden(UNRESOLVED_RESOURCE)),
            },
            Check::ThreadOwner { message } => match (facts.user, facts.thread) {
                (Some(user), Some(thread)) => if thread.user_id@ == user.id@ {
                    Ok(None)
                } else {
                    Err(CoreError::Forbidden(message))
                },
                _ => Err(CoreError::Forbidden(UNRESOLVED_RESOURCE)),
            },
            Check::Policy(kind) => if kind.about_page() {
                match facts.page {
                    Some(page) => Ok(
                        Some(Request::Policy(PolicyQuestion::UpdatePage { author: page.author_id })),
                    ),
                    None => Err(CoreError::Forbidden(UNRESOLVED_RESOURCE)),
                }
            } else {
                match facts.thread {
                    Some(thread) => Ok(Some(Request::Policy(thread_question(kind, thread)))),
                    None => Err(CoreError::Forbidden(UNRESOLVED_RESOURCE)),
                }
            },
            Check::ReadAnalytic { .. } => Ok(Some(Request::Policy(PolicyQuestion::ReadAnalytic))),
            Check::UpsertMembership { user_group_id, user_id, is_group_admin } => Ok(
                Some(
                    Request::Policy(
                        PolicyQuestion::UpsertMembership { user_group_id, user_id, is_group_admin },
                    ),
                ),
            ),
            Check::DeleteMembership { user_group_id, user_id } => Ok(
                Some(Request::Policy(PolicyQuestion::DeleteMembership { user_group_id, user_id })),
            ),
            Check::Persist { call } => Ok(Some(Request::Perform(call))),
        }
    }

    /// How the check judges the answer to its request: a failure, or the
    /// facts as they stand once it has passed. An answer of another kind
    /// than the check asked for never passes.
    pub open spec fn after(self, facts: Facts, answer: Answer) -> Result<Facts, CoreError> {
        match (self, answer) {
            (Check::User { .. }, Answer::User(Ok(user))) => Ok(Facts { user: Some(user), ..facts }),
            (Check::User { .. }, Answer::User(Err(e))) => Err(load_failure(e)),
            (Check::Admin, Answer::User(Ok(user))) => match admin_verdict(user) {
                Ok(_) => Ok(Facts { user: Some(user), ..facts }),
                Err(e) => Err(e),
            },
            (Check::Admin, Answer::User(Err(e))) => Err(load_failure(e)),
            (Check::License { allowed }, Answer::License(Ok(license))) => match license_verdict(
                license,
                allowed@,
            ) {
                Ok(_) => Ok(facts),
                Err(e) => Err(e),
            },
            (Check::License { .. }, Answer::License(Err(e))) => Err(e),
            (Check::Valid, Answer::Validation(Ok(_))) => Ok(facts),
            (Check::Valid, Answer::Validation(Err(errors))) => Err(CoreError::InvalidInput(errors)),
            (Check::Thread { .. }, Answer::Thread(Ok(Some(thread)))) => Ok(
                Facts { thread: Some(thread), ..facts },
            ),
            (Check::Thread { missing, .. }, Answer::Thread(Ok(None))) => Err(
                CoreError::NotFound(missing),
            ),
            (Check::Thread { .. }, Answer::Thread(Err(e))) => Err(e),
            (Check::Page { .. }, Answer::Page(Ok(page))) => Ok(Facts { page: Some(page), ..facts }),
            (Check::Page { .. }, Answer::Page(Err(e))) => Err(e),
            (Check::Section { .. }, Answer::Section(Ok(section))) => Ok(
                Facts { section: Some(section), ..facts },
            ),
            (Check::Section { .. }, Answer::Section(Err(e))) => Err(e),
            (Check::SectionPage, Answer::Page(Ok(page))) => Ok(Facts { page: Some(page), ..facts }),
            (Check::SectionPage, Answer::Page(Err(e))) => Err(e),
            (Check::Policy(_), Answer::Policy(Ok(_))) => Ok(facts),
            (Check::Policy(_), Answer::Policy(Err(e))) => Err(e),
            (Check::ReadAnalytic { .. }, Answer::Policy(Ok(_))) => Ok(facts),
            (Check::ReadAnalytic { .. }, Answer::Policy(Err(e))) => Err(e),
            (Check::UpsertMembership { .. }, Answer::Policy(Ok(_))) => Ok(facts),
            (Check::UpsertMembership { .. }, Answer::Policy(Err(e))) => Err(e),
            (Check::DeleteMembership { .. }, Answer::Policy(Ok(_))) => Ok(facts),
            (Check::DeleteMembership { .. }, Answer::Policy(Err(e))) => Err(e),
            (Check::Persist { .. }, Answer::Performed(Ok(created))) => Ok(
                Facts { created, ..facts },
            ),
            (Check::Persist { .. }, Answer::Performed(Err(e))) => Err(e),
            _ => Err(CoreError::Forbidden(UNEXPECTED_ANSWER)),
        }
    }
}

/// The request for the user record of the principal, where the principal is
/// admissible.
fn request_user(ctx: &Context, allow_auth_token: bool) -> (r: Result<Option<Request>, CoreError>)
    ensures
        r == user_request(*ctx, allow_auth_token),
{
    let claims = check_user_and_auth_token(ctx, allow_auth_token)?;
    Ok(Some(Request::User(claims.sub.clone())))
}

/// The question that a policy check puts about `thread`.
fn question_about_thread(kind: PolicyKind, thread: &Thread) -> (q: PolicyQuestion)
    requires
        !kind.about_page(),
    ensures
        q == thread_question(kind, *thread),
{
    let owner = thread.user_id.clone();
    match kind {
        PolicyKind::ReadThread => PolicyQuestion::ReadThread {
            owner,
            is_ephemeral: thread.is_ephemeral,
        },
        PolicyKind::DeleteThread => PolicyQuestion::DeleteThread { owner },
        PolicyKind::DeleteThreadMessages => PolicyQuestion::DeleteThreadMessages { owner },
        PolicyKind::UpdateThreadPersistence => PolicyQuestion::UpdateThreadPersistence { owner },
        _ => PolicyQuestion::UpdateThreadMessage { owner },
    }
}

/// The verdict of a service or of the policy, with the facts unchanged where
/// it is favourable.
fn keep_facts(facts: Facts, verdict: Result<(), CoreError>) -> (r: Result<Facts, CoreError>)
    ensures
        r == match verdict {
            Ok(_) => Ok::<Facts, CoreError>(facts),
            Err(e) => Err::<Facts, CoreError>(e),
        },
{
    match verdict {
        Ok(_) => Ok(facts),
        Err(e) => Err(e),
    }
}

impl Check {
    /// Decides what can be decided of this check from the request and the
    /// facts, and says what has to be asked for the rest.
    pub fn begin(&self, ctx: &Context, facts: &Facts) -> (r: Result<Option<Request>, CoreError>)
        ensures
            r == self.before(*ctx, *facts),
    {
        match self {
            Check::Claims => {
                let _ = check_claims(ctx)?;
                Ok(None)
            },
            Check::User { allow_auth_token } => request_user(ctx, *allow_auth_token),
            Check::Admin => request_user(ctx, false),
            Check::License { .. } => Ok(Some(Request::License)),
            Check::NotSelf { target, message } => match &ctx.claims {
                Some(claims) => if claims.sub == *target {
                    Err(CoreError::Forbidden(*message))
                } else {
                    Ok(None)
                },
                None => Ok(None),
            },
            Check::SelfOnly { target, message } => {
                let claims = check_claims(ctx)?;
                if claims.sub == *target {
                    Ok(None)
                } else {
                    Err(CoreError::Forbidden(*message))
                }
            },
            Check::PageService => if ctx.locator.page {
                Ok(None)
            } else {
                Err(CoreError::Forbidden(PAGE_SERVICE_DISABLED))
            },
            Check::ChatService { message } => if ctx.locator.chat {
                Ok(None)
            } else {
                Err(CoreError::NotFound(*message))
            },
            Check::Valid => Ok(Some(Request::Validation)),
            Check::Thread { id, .. } => Ok(Some(Request::Thread(id.clone()))),
            Check::Page { id } => Ok(Some(Request::Page(id.clone()))),
            Check::Section { id } => Ok(Some(Request::Section(id.clone()))),
            Check::SectionPage => match &facts.section {
                Some(section) => Ok(Some(Request::Page(section.page_id.clone()))),
                None => Err(CoreError::Forbidden(UNRESOLVED_RESOURCE)),
            },
            Check::ThreadOwner { message } => match (&facts.user, &facts.thread) {
                (Some(user), Some(thread)) => if thread.user_id == user.id {
                    Ok(None)
                } else {
                    Err(CoreError::Forbidden(*message))
                },
                _ => Err(CoreError::Forbidden(UNRESOLVED_RESOURCE)),
            },
            Check::Policy(kind) => match kind {
                PolicyKind::UpdatePage => match &facts.page {
                    Some(page) => Ok(
                        Some(
                            Request::Policy(
                                PolicyQuestion::UpdatePage { author: page.author_id.clone() },
                            ),
                        ),
                    ),
                    None => Err(CoreError::Forbidden(UNRESOLVED_RESOURCE)),
                },
                _ => match &facts.thread {
                    Some(thread) => Ok(Some(Request::Policy(question_about_thread(*kind, thread)))),
                    None => Err(CoreError::Forbidden(UNRESOLVED_RESOURCE)),
                },
            },
            Check::ReadAnalytic { .. } => Ok(Some(Request::Policy(PolicyQuestion::ReadAnalytic))),
            Check::UpsertMembership { user_group_id, user_id, is_group_admin } => Ok(
                Some(
                    Request::Policy(
                        PolicyQuestion::UpsertMembership {
                            user_group_id: user_group_id.clone(),
                            user_id: user_id.clone(),
                            is_group_admin: *is_group_admin,
                        },
                    ),
                ),
            ),
            Check::DeleteMembership { user_group_id, user_id } => Ok(
                Some(
                    Request::Policy(
                        PolicyQuestion::DeleteMembership {
                            user_group_id: user_group_id.clone(),
                            user_id: user_id.clone(),
                        },
                    ),
                ),
            ),
            Check::Persist { call } => Ok(Some(Request::Perform(*call))),
        }
    }

    /// Judges the answer to this check's request.
    pub fn judge(&self, facts: Facts, answer: Answer) -> (r: Result<Facts, CoreError>)
        ensures
            r == self.after(facts, answer),
    {
        let mut facts = facts;
        match self {
            Check::User { .. } => match answer {
                Answer::User(Ok(user)) => {
                    facts.user = Some(user);
                    Ok(facts)
                },
                Answer::User(Err(e)) => Err(check_loaded(e)),
                _ => Err(CoreError::Forbidden(UNEXPECTED_ANSWER)),
            },
            Check::Admin => match answer {
                Answer::User(Ok(user)) => {
                    check_admin(&user)?;
                    facts.user = Some(user);
                    Ok(facts)
                },
                Answer::User(Err(e)) => Err(check_loaded(e)),
                _ => Err(CoreError::Forbidden(UNEXPECTED_ANSWER)),
            },
            Check::License { allowed } => match answer {
                Answer::License(Ok(license)) => keep_facts(facts, check_license(&license, allowed)),
                Answer::License(Err(e)) => Err(e),
                _ => Err(CoreError::Forbidden(UNEXPECTED_ANSWER)),
            },
            Check::Valid => match answer {
                Answer::Validation(Ok(_)) => Ok(facts),
                Answer::Validation(Err(errors)) => Err(CoreError::InvalidInput(errors)),
                _ => Err(CoreError::Forbidden(UNEXPECTED_ANSWER)),
            },
            Check::Thread { missing, .. } => match answer {
                Answer::Thread(Ok(Some(thread))) => {
                    facts.thread = Some(thread);
                    Ok(facts)
                },
                Answer::Thread(Ok(None)) => Err(CoreError::NotFound(*missing)),
                Answer::Thread(Err(e)) => Err(e),
                _ => Err(CoreError::Forbidden(UNEXPECTED_ANSWER)),
            },
            Check::Page { .. } | Check::SectionPage => match answer {
                Answer::Page(Ok(page)) => {
                    facts.page = Some(page);
                    Ok(facts)
                },
                Answer::Page(Err(e)) => Err(e),
                _ => Err(CoreError::Forbidden(UNEXPECTED_ANSWER)),
            },
            Check::Section { .. } => match answer {
                Answer::Section(Ok(section)) => {
                    facts.section = Some(section);
                    Ok(facts)
                },
                Answer::Section(Err(e)) => Err(e),
                _ => Err(CoreError::Forbidden(UNEXPECTED_ANSWER)),
            },
            Check::Policy(_)
            | Check::ReadAnalytic { .. }
            | Check::UpsertMembership { .. }
            | Check::DeleteMembership { .. } => match answer {
                Answer::Policy(verdict) => keep_facts(facts, verdict),
                _ => Err(CoreError::Forbidden(UNEXPECTED_ANSWER)),
            },
            Check::Persist { .. } => match answer {
                Answer::Performed(Ok(created)) => {
                    facts.created = created;
                    Ok(facts)
                },
                Answer::Performed(Err(e)) => Err(e),
                _ => Err(CoreError::Forbidden(UNEXPECTED_ANSWER)),
            },
            _ => Err(CoreError::Forbidden(UNEXPECTED_ANSWER)),
        }
    }
}

} // verus!
