//! One operation's way through its checks. The run decides; whoever drives it
//! asks the services and the policy what the run requests and hands the
//! answers back. Only a run that has passed every check tells its driver to
//! proceed.

use vstd::prelude::*;
use crate::check::{Answer, Check, Facts, Request, UNEXPECTED_ANSWER};
use crate::context::{Context, JWTPayload, UserSecured, ID};
use crate::error::CoreError;
use crate::guard::{claims_verdict, ADMIN_REQUIRED, AUTH_TOKEN_NOT_ALLOWED};
use crate::operation::Call;

verus! {

/// Where a run stands.
pub enum Progress {
    /// Check `at` has asked `request` and waits for the answer.
    Waiting { at: int, facts: Facts, request: Request },
    /// Every check has passed.
    Granted { facts: Facts },
    /// A check has failed: the operation ends with `error`.
    Denied { error: CoreError },
}

/// Where a run stands that takes up its plan at check `at` with `facts` in
/// hand: at the first check from there that has to ask or that fails, or at
/// the end of the plan.
pub open spec fn advance(ctx: Context, plan: Seq<Check>, at: int, facts: Facts) -> Progress
    decreases plan.len() - at,
{
    if at < 0 || at >= plan.len() {
        Progress::Granted { facts }
    } else {
        match plan[at].before(ctx, facts) {
            Err(error) => Progress::Denied { error },
            Ok(Some(request)) => Progress::Waiting { at, facts, request },
            Ok(None) => advance(ctx, plan, at + 1, facts),
        }
    }
}

/// Where a run stands once check `at` has been given `answer`.
pub open spec fn resumed(ctx: Context, plan: Seq<Check>, at: int, facts: Facts, answer: Answer) -> Progress {
    match plan[at].after(facts, answer) {
        Err(error) => Progress::Denied { error },
        Ok(facts) => advance(ctx, plan, at + 1, facts),
    }
}

/// Whether a run waits for an answer or has ended, and how.
#[derive(Clone, Copy, Debug, PartialEq, Eq, Structural)]
pub enum Phase {
    Waiting,
    Granted,
    Denied,
}

/// What the driver of a run does next.
#[derive(Debug)]
pub enum Action {
    /// Get this answered and resume the run with the answer.
    Ask(Request),
    /// Every check has passed: perform the operation.
    Proceed,
    /// The operation has failed with this error; nothing is performed.
    Reject(CoreError),
}

/// One operation on its way through its checks.
#[derive(Debug)]
pub struct Run {
    pub ctx: Context,
    pub plan: Vec<Check>,
    /// The check that waits for its answer, while the run is waiting; the
    /// length of the plan, once it is granted.
    pub at: usize,
    pub facts: Facts,
    pub phase: Phase,
}

impl Run {
    /// Whether the run and the action that came with it show `progress`.
    pub open spec fn shows(self, action: Action, progress: Progress) -> bool {
        match progress {
            Progress::Waiting { at, facts, request } => {
                &&& self.phase is Waiting
                &&& self.at == at
                &&& self.at < self.plan@.len()
                &&& self.facts == facts
                &&& action == Action::Ask(request)
            },
            Progress::Granted { facts } => {
                &&& self.phase is Granted
                &&& self.at == self.plan@.len()
                &&& self.facts == facts
                &&& action is Proceed
            },
            Progress::Denied { error } => {
                &&& self.phase is Denied
                &&& action == Action::Reject(error)
            },
        }
    }

    /// Whether the run waits for an answer.
    pub open spec fn waiting(self) -> bool {
        self.phase is Waiting && self.at < self.plan@.len()
    }

    pub fn is_waiting(&self) -> (b: bool)
        ensures
            b == self.waiting(),
    {
        self.phase == Phase::Waiting && self.at < self.plan.len()
    }

    /// The users that the waiting check asks the policy about, where it is
    /// the check on reading the analytics of users.
    pub open spec fn asked_users(self) -> Option<Vec<ID>> {
        if self.waiting() {
            match self.plan@[self.at as int] {
                Check::ReadAnalytic { users } => Some(users),
                _ => None,
            }
        } else {
            None
        }
    }

    /// The users that go with the policy question `ReadAnalytic` of the
    /// waiting check.
    pub fn pending_users(&self) -> (users: Option<&Vec<ID>>)
        ensures
            match users {
                Some(asked) => self.asked_users() == Some(*asked),
                None => self.asked_users() is None,
            },
    {
        if self.is_waiting() {
            match &self.plan[self.at] {
                Check::ReadAnalytic { users } => Some(users),
                _ => None,
            }
        } else {
            None
        }
    }

    pub fn is_granted(&self) -> (b: bool)
        ensures
            b == (self.phase is Granted),
    {
        self.phase == Phase::Granted
    }

    /// Takes the plan up at check `at`.
    fn advance_from(ctx: Context, plan: Vec<Check>, from: usize, facts: Facts) -> (out: (Run, Action))
        requires
            from <= plan@.len(),
        ensures
            out.0.ctx == ctx,
            out.0.plan == plan,
            out.0.shows(out.1, advance(ctx, plan@, from as int, facts)),
    {
        let mut at = from;
        while at < plan.len()
            invariant
                at <= plan@.len(),
                advance(ctx, plan@, at as int, facts) == advance(ctx, plan@, from as int, facts),
            decreases plan@.len() - at,
        {
            match plan[at].begin(&ctx, &facts) {
                Err(error) => {
                    return (Run { ctx, plan, at, facts, phase: Phase::Denied }, Action::Reject(error));
                },
                Ok(Some(request)) => {
                    return (Run { ctx, plan, at, facts, phase: Phase::Waiting }, Action::Ask(request));
                },
                Ok(None) => {
                    at += 1;
                },
            }
        }
        (Run { ctx, plan, at, facts, phase: Phase::Granted }, Action::Proceed)
    }

    /// Starts an operation: runs its checks in the plan's order up to the
    /// first that fails or has to ask.
    pub fn start(ctx: Context, plan: Vec<Check>) -> (out: (Run, Action))
        ensures
            out.0.ctx == ctx,
            out.0.plan == plan,
            out.0.shows(out.1, advance(ctx, plan@, 0, Facts::none())),
    {
        Self::advance_from(ctx, plan, 0, Facts::new())
    }

    /// Gives the waiting check its answer and goes on from there. A run that
    /// did not wait for an answer ends denied: nothing outside the plan can
    /// make a run proceed.
    pub fn resume(self, answer: Answer) -> (out: (Run, Action))
        ensures
            out.0.ctx == self.ctx,
            out.0.plan == self.plan,
            self.waiting() ==> out.0.shows(
                out.1,
                resumed(self.ctx, self.plan@, self.at as int, self.facts, answer),
            ),
            !self.waiting() ==> out.0.phase is Denied && out.1 == Action::Reject(
                CoreError::Forbidden(UNEXPECTED_ANSWER),
            ),
    {
        let Run { ctx, plan, at, facts, phase } = self;
        if phase != Phase::Waiting || at >= plan.len() {
            return (
                Run { ctx, plan, at, facts, phase: Phase::Denied },
                Action::Reject(CoreError::Forbidden(UNEXPECTED_ANSWER)),
            );
        }
        match plan[at].judge(facts, answer) {
            Err(error) => (
                Run { ctx, plan, at, facts: Facts::new(), phase: Phase::Denied },
                Action::Reject(error),
            ),
            Ok(facts) => Self::advance_from(ctx, plan, at + 1, facts),
        }
    }

    /// Runs an operation against answers that are already at hand: starts the
    /// run and gives it the answers in their order, one for each request,
    /// until it ends or the answers are used up.
    pub fn replay(ctx: Context, plan: Vec<Check>, answers: Vec<Answer>) -> (out: (Run, Action))
        ensures
            out.0.ctx == ctx,
            out.0.plan == plan,
            out.0.shows(out.1, answered(ctx, plan@, 0, Facts::none(), answers@)),
    {
        let ghost goal = answered(ctx, plan@, 0, Facts::none(), answers@);
        let (mut run, mut action) = Self::start(ctx, plan);
        let ghost mut progress = advance(ctx, plan@, 0, Facts::none());
        let mut rest = answers;
        while rest.len() > 0 && run.is_waiting()
            invariant
                run.ctx == ctx,
                run.plan == plan,
                run.shows(action, progress),
                continued(ctx, plan@, progress, rest@) == goal,
            decreases rest@.len(),
        {
            let ghost before = rest@;
            let answer = rest.remove(0);
            proof {
                assert(rest@ == before.drop_first());
                progress = resumed(ctx, plan@, run.at as int, run.facts, answer);
            }
            let (next, then) = run.resume(answer);
            run = next;
            action = then;
        }
        (run, action)
    }
}

/// Whether every check from `from` up to, not including, `to` passes on the
/// request and the facts alone.
pub open spec fn all_pass(ctx: Context, plan: Seq<Check>, from: int, to: int, facts: Facts) -> bool {
    forall|i: int| from <= i < to ==> (#[trigger] plan[i]).before(ctx, facts) == Ok::<
        Option<Request>,
        CoreError,
    >(None)
}

/// Law: a run never gets ahead of its checks. Taken up at `at`, it is granted
/// only if every check from there on passes; it asks for check `k` only if
/// every check in between passes and `k` asks exactly that; and it is denied
/// only with the failure of the first check that does not pass.
pub proof fn lemma_no_check_is_skipped(ctx: Context, plan: Seq<Check>, at: int, facts: Facts)
    requires
        0 <= at <= plan.len(),
    ensures
        match advance(ctx, plan, at, facts) {
            Progress::Granted { facts: kept } => kept == facts && all_pass(
                ctx,
                plan,
                at,
                plan.len() as int,
                facts,
            ),
            Progress::Waiting { at: k, facts: kept, request } => {
                &&& at <= k < plan.len()
                &&& kept == facts
                &&& all_pass(ctx, plan, at, k, facts)
                &&& plan[k].before(ctx, facts) == Ok::<Option<Request>, CoreError>(Some(request))
            },
            Progress::Denied { error } => exists|k: int|
                at <= k < plan.len() && all_pass(ctx, plan, at, k, facts) && (
                #[trigger] plan[k]).before(ctx, facts) == Err::<Option<Request>, CoreError>(error),
        },
    decreases plan.len() - at,
{
    if at < plan.len() {
        match plan[at].before(ctx, facts) {
            Ok(None) => {
                lemma_no_check_is_skipped(ctx, plan, at + 1, facts);
                match advance(ctx, plan, at + 1, facts) {
                    Progress::Denied { error } => {
                        let k = choose|k: int|
                            at + 1 <= k < plan.len() && all_pass(ctx, plan, at + 1, k, facts) && (
                            #[trigger] plan[k]).before(ctx, facts) == Err::<
                                Option<Request>,
                                CoreError,
                            >(error);
                        assert(all_pass(ctx, plan, at, k, facts));
                    },
                    _ => {},
                }
            },
            Err(error) => {
                assert(all_pass(ctx, plan, at, at, facts));
            },
            _ => {},
        }
    }
}

/// Law: an answer makes a run go on only if the waiting check accepts it.
/// A run that is granted, or that asks again, after check `at` was answered
/// has that check's favourable judgement behind it.
pub proof fn lemma_answer_is_judged(ctx: Context, plan: Seq<Check>, at: int, facts: Facts, answer: Answer)
    requires
        0 <= at < plan.len(),
    ensures
        !(resumed(ctx, plan, at, facts, answer) is Denied) ==> plan[at].after(facts, answer) is Ok,
        plan[at].after(facts, answer) matches Err(error) ==> resumed(ctx, plan, at, facts, answer)
            == (Progress::Denied { error }),
{
}

/// Law: where an operation requires an administrator, a principal that
/// comes from a login and whose user is no administrator is refused with
/// `Forbidden`, whatever else the plan holds: the run asks for the user's
/// record first, and ends when that shows no administrator. A principal
/// derived from an auth token is turned away before that, as unauthorized,
/// and no user record is loaded for it.
pub proof fn lemma_non_admin_is_forbidden(
    ctx: Context,
    plan: Seq<Check>,
    claims: JWTPayload,
    user: UserSecured,
)
    requires
        plan.len() > 0,
        plan[0] is Admin,
        ctx.claims == Some(claims),
        !user.is_admin,
    ensures
        claims.is_generated_from_auth_token ==> advance(ctx, plan, 0, Facts::none()) == (
        Progress::Denied { error: CoreError::Unauthorized(AUTH_TOKEN_NOT_ALLOWED) }),
        !claims.is_generated_from_auth_token ==> advance(ctx, plan, 0, Facts::none()) == (
        Progress::Waiting { at: 0, facts: Facts::none(), request: Request::User(claims.sub) }),
        resumed(ctx, plan, 0, Facts::none(), Answer::User(Ok(user))) == (Progress::Denied {
            error: CoreError::Forbidden(ADMIN_REQUIRED),
        }),
{
}

/// Law: a principal whose user record cannot be loaded any more, because the
/// user is gone or deactivated or for any other reason, is refused with an
/// authorization failure, and the run ends there.
pub proof fn lemma_lost_user_is_refused(
    ctx: Context,
    plan: Seq<Check>,
    at: int,
    facts: Facts,
    failure: CoreError,
)
    requires
        0 <= at < plan.len(),
        loads_user(plan[at]),
    ensures
        resumed(ctx, plan, at, facts, Answer::User(Err(failure))) matches Progress::Denied {
            error,
        } && (error is Unauthorized || error is Forbidden),
{
}

/// Law: what the access policy refuses is not performed. Where the check
/// that waits is one on the policy and the policy answers with a refusal,
/// the run ends with that refusal, whatever the plan holds behind the check:
/// a thread that the policy does not let its caller delete is not deleted.
pub proof fn lemma_policy_refusal_ends_run(
    ctx: Context,
    plan: Seq<Check>,
    at: int,
    facts: Facts,
    refusal: CoreError,
)
    requires
        0 <= at < plan.len(),
        plan[at] is Policy || plan[at] is ReadAnalytic || plan[at] is UpsertMembership
            || plan[at] is DeleteMembership,
    ensures
        resumed(ctx, plan, at, facts, Answer::Policy(Err(refusal))) == (Progress::Denied {
            error: refusal,
        }),
{
}

/// Law: an operation of administrators on a user that rejects its caller as
/// the target fails with `Forbidden` where the caller is the target, whether
/// the caller is an administrator or not. The caller's principal comes from a
/// login: one derived from an auth token is turned away before, as
/// unauthorized.
pub proof fn lemma_self_target_is_forbidden(
    ctx: Context,
    plan: Seq<Check>,
    claims: JWTPayload,
    user: UserSecured,
)
    requires
        plan.len() > 1,
        plan[0] is Admin,
        plan[1] is NotSelf,
        ctx.claims == Some(claims),
        !claims.is_generated_from_auth_token,
        claims.sub@ == plan[1]->NotSelf_target@,
    ensures
        advance(ctx, plan, 0, Facts::none()) == (Progress::Waiting {
            at: 0,
            facts: Facts::none(),
            request: Request::User(claims.sub),
        }),
        resumed(ctx, plan, 0, Facts::none(), Answer::User(Ok(user))) matches Progress::Denied {
            error,
        } && error is Forbidden,
{
    assert(plan[1].before(ctx, Facts { user: Some(user), ..Facts::none() }) is Err);
}

/// Law: the change that a streaming run builds on is requested only behind
/// every check that stands before it in the plan, and the run is granted
/// only once that change has been reported as made. So the stream exists
/// only where the change is complete, and dropping the stream undoes nothing.
pub proof fn lemma_change_precedes_stream(
    ctx: Context,
    plan: Seq<Check>,
    at: int,
    facts: Facts,
    answer: Answer,
)
    requires
        0 <= at < plan.len(),
        advance(ctx, plan, 0, facts) matches Progress::Waiting { at: k, .. } && k == at,
        plan[at] is Persist,
    ensures
        all_pass(ctx, plan, 0, at, facts),
        advance(ctx, plan, 0, facts) matches Progress::Waiting { request, .. } && request
            == Request::Perform(plan[at]->Persist_call),
        !(resumed(ctx, plan, at, facts, answer) is Denied) ==> (answer matches Answer::Performed(
            outcome,
        ) && outcome is Ok),
{
    lemma_no_check_is_skipped(ctx, plan, 0, facts);
}

/// Where a run goes from `progress` when it is given `answers`, one for each
/// request it makes, as far as they reach. Answers that are left when the run
/// has ended are not read.
pub open spec fn continued(
    ctx: Context,
    plan: Seq<Check>,
    progress: Progress,
    answers: Seq<Answer>,
) -> Progress
    decreases answers.len(),
{
    match progress {
        Progress::Waiting { at, facts, request } => if answers.len() == 0 {
            progress
        } else {
            continued(ctx, plan, resumed(ctx, plan, at, facts, answers[0]), answers.drop_first())
        },
        other => other,
    }
}

/// Where a run stands that takes up its plan at check `at` and is given
/// `answers`, one for each request it makes, as far as they reach.
pub open spec fn answered(
    ctx: Context,
    plan: Seq<Check>,
    at: int,
    facts: Facts,
    answers: Seq<Answer>,
) -> Progress {
    continued(ctx, plan, advance(ctx, plan, at, facts), answers)
}

/// What a check demands of the request itself, whatever the services answer.
pub open spec fn admits(check: Check, ctx: Context) -> bool {
    match check {
        Check::Claims => ctx.claims is Some,
        Check::User { allow_auth_token } => claims_verdict(ctx, allow_auth_token) is Ok,
        Check::Admin => claims_verdict(ctx, false) is Ok,
        Check::NotSelf { target, .. } => match ctx.claims {
            Some(claims) => claims.sub@ != target@,
            None => true,
        },
        Check::SelfOnly { target, .. } => match ctx.claims {
            Some(claims) => claims.sub@ == target@,
            None => false,
        },
        Check::PageService => ctx.locator.page,
        Check::ChatService { .. } => ctx.locator.chat,
        _ => true,
    }
}

/// Whether a check loads the user of the request.
pub open spec fn loads_user(check: Check) -> bool {
    check is User || check is Admin
}

/// Law: a run is granted only where the request meets what every check of
/// its plan demands of it, whatever the services and the policy answered. So
/// no operation on pages is performed without the page service, none that is
/// closed to auth tokens for a principal derived from one, and none that
/// rejects its caller as the target on the caller.
pub proof fn lemma_granted_run_met_every_check(
    ctx: Context,
    plan: Seq<Check>,
    at: int,
    facts: Facts,
    answers: Seq<Answer>,
)
    requires
        0 <= at <= plan.len(),
    ensures
        answered(ctx, plan, at, facts, answers) is Granted ==> forall|i: int|
            at <= i < plan.len() ==> admits(#[trigger] plan[i], ctx),
    decreases answers.len(),
{
    lemma_no_check_is_skipped(ctx, plan, at, facts);
    match advance(ctx, plan, at, facts) {
        Progress::Waiting { at: k, facts: kept, request } => {
            if answers.len() > 0 {
                if let Ok(next) = plan[k].after(kept, answers[0]) {
                    lemma_granted_run_met_every_check(ctx, plan, k + 1, next, answers.drop_first());
                } else {
                    assert(continued(
                        ctx,
                        plan,
                        resumed(ctx, plan, k, kept, answers[0]),
                        answers.drop_first(),
                    ) is Denied);
                }
            }
            assert forall|i: int| at <= i < k implies admits(#[trigger] plan[i], ctx) by {
                assert(plan[i].before(ctx, facts) == Ok::<Option<Request>, CoreError>(None));
            }
            assert(admits(plan[k], ctx));
        },
        Progress::Granted { .. } => {
            assert forall|i: int| at <= i < plan.len() implies admits(#[trigger] plan[i], ctx) by {
                assert(plan[i].before(ctx, facts) == Ok::<Option<Request>, CoreError>(None));
            }
        },
        _ => {},
    }
}

/// The user that was loaded stays the user of the run while no later check
/// loads one.
proof fn lemma_user_is_kept(
    ctx: Context,
    plan: Seq<Check>,
    at: int,
    facts: Facts,
    answers: Seq<Answer>,
)
    requires
        0 <= at <= plan.len(),
        forall|i: int| at <= i < plan.len() ==> !loads_user(#[trigger] plan[i]),
    ensures
        answered(ctx, plan, at, facts, answers) matches Progress::Granted { facts: last }
            ==> last.user == facts.user,
    decreases answers.len(),
{
    lemma_no_check_is_skipped(ctx, plan, at, facts);
    match advance(ctx, plan, at, facts) {
        Progress::Waiting { at: k, facts: kept, request } => {
            if answers.len() > 0 {
                assert(!loads_user(plan[k]));
                if let Ok(next) = plan[k].after(kept, answers[0]) {
                    assert(next.user == facts.user);
                    lemma_user_is_kept(ctx, plan, k + 1, next, answers.drop_first());
                } else {
                    assert(continued(
                        ctx,
                        plan,
                        resumed(ctx, plan, k, kept, answers[0]),
                        answers.drop_first(),
                    ) is Denied);
                }
            }
        },
        _ => {},
    }
}

/// Law: an operation that requires an administrator is performed for
/// administrators only. Where the plan begins with the administrator check
/// and loads no other user, a granted run holds the record of a user who is
/// an administrator, whatever was answered; for any other user the run is
/// never granted.
pub proof fn lemma_only_admins_are_granted(ctx: Context, plan: Seq<Check>, answers: Seq<Answer>)
    requires
        plan.len() > 0,
        plan[0] is Admin,
        forall|i: int| 1 <= i < plan.len() ==> !loads_user(#[trigger] plan[i]),
    ensures
        answered(ctx, plan, 0, Facts::none(), answers) matches Progress::Granted { facts } ==> {
            &&& answers.len() > 0
            &&& answers[0] matches Answer::User(Ok(user))
            &&& user.is_admin
            &&& facts.user == Some(user)
        },
{
    let start = Facts::none();
    match advance(ctx, plan, 0, start) {
        Progress::Waiting { at: k, facts: kept, request } => {
            assert(k == 0 && kept == start);
            if answers.len() > 0 {
                if let Ok(next) = plan[0].after(start, answers[0]) {
                    lemma_user_is_kept(ctx, plan, 1, next, answers.drop_first());
                } else {
                    assert(continued(
                        ctx,
                        plan,
                        resumed(ctx, plan, 0, start, answers[0]),
                        answers.drop_first(),
                    ) is Denied);
                }
            }
        },
        _ => {},
    }
}

} // verus!
