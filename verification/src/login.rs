//! The login pipeline: request an account, then have its token verified, and
//! only then hold a session.
//!
//! The pipeline is a state machine. [`login`] starts it and gives the first
//! request; [`LoginFlow::advance`] takes the reply to the request that is out
//! and gives the next state and, where there is one, the next request. The
//! caller sends the requests.

use vstd::prelude::*;
use crate::account::Account;
use crate::account::AccountView;
use crate::config::Params;
use crate::config::ParamsView;
use crate::credentials::Credentials;
use crate::credentials::pair;
use crate::credentials::CredentialsView;
use crate::error::AuthError;
use crate::error::ErrorKind;
use crate::error::ErrorView;
use crate::gateway::account_from_reply;
use crate::gateway::account_outcome;
use crate::gateway::account_request;
use crate::gateway::account_request_of;
use crate::gateway::verification_from_reply;
use crate::gateway::verification_outcome;
use crate::gateway::verify_request;
use crate::gateway::verify_request_of;
use crate::gateway::Endpoint;
use crate::gateway::Reply;
use crate::gateway::ReplyView;
use crate::gateway::Request;
use crate::gateway::RequestView;
use crate::model::option_view;
use crate::model::result_view;

verus! {

/// A verified session. The only way to one is a login whose account request
/// and token verification both succeeded. It is evidence that the session was
/// valid when it was made; it does not refresh or invalidate itself.
#[derive(PartialEq, Eq)]
pub struct AuthController {
    account: Account,
}

impl View for AuthController {
    type V = AccountView;

    closed spec fn view(&self) -> AccountView {
        self.account@
    }
}

impl AuthController {
    /// The account of the session.
    pub fn account(&self) -> (account: &Account)
        ensures
            account@ == self@,
    {
        &self.account
    }

    /// The request that asks the service whether this session's token is
    /// still accepted. Staleness is found out this way and no other.
    pub fn verify_request(&self, params: &Params) -> (request: Request)
        ensures
            request@ == verify_request_of(self@.access_token, params@),
    {
        verify_request(self.account.access_token(), params)
    }
}

enum Phase {
    AwaitingAccount,
    AwaitingVerification(Account),
    Authenticated(AuthController),
    Failed(AuthError),
}

/// A login in progress or finished.
pub struct LoginFlow {
    phase: Phase,
}

/// The model of a [`LoginFlow`].
pub enum FlowView {
    /// The account request is out.
    AwaitingAccount,
    /// The account has come; the verification of its token is out.
    AwaitingVerification(AccountView),
    /// Finished: the token was verified.
    Authenticated(AccountView),
    /// Finished: one of the two steps failed.
    Failed(ErrorView),
}

impl View for LoginFlow {
    type V = FlowView;

    closed spec fn view(&self) -> FlowView {
        match self.phase {
            Phase::AwaitingAccount => FlowView::AwaitingAccount,
            Phase::AwaitingVerification(account) => FlowView::AwaitingVerification(account@),
            Phase::Authenticated(controller) => FlowView::Authenticated(controller@),
            Phase::Failed(error) => FlowView::Failed(error@),
        }
    }
}

/// The state after a reply. A finished login stays as it is.
pub open spec fn next_flow(flow: FlowView, reply: ReplyView) -> FlowView {
    match flow {
        FlowView::AwaitingAccount => match account_outcome(reply) {
            Ok(account) => FlowView::AwaitingVerification(account),
            Err(error) => FlowView::Failed(error),
        },
        FlowView::AwaitingVerification(account) => match verification_outcome(reply) {
            Ok(_) => FlowView::Authenticated(account),
            Err(error) => FlowView::Failed(error),
        },
        FlowView::Authenticated(_) => flow,
        FlowView::Failed(_) => flow,
    }
}

/// The request to send after a reply: the verification of the token that has
/// just come, and nothing in any other case.
pub open spec fn next_request(flow: FlowView, reply: ReplyView, params: ParamsView) -> Option<
    RequestView,
> {
    match next_flow(flow, reply) {
        FlowView::AwaitingVerification(account) => Some(
            verify_request_of(account.access_token, params),
        ),
        _ => None,
    }
}

/// The state after a series of replies, in order.
pub open spec fn run(flow: FlowView, replies: Seq<ReplyView>) -> FlowView
    decreases replies.len(),
{
    if replies.len() == 0 {
        flow
    } else {
        next_flow(run(flow, replies.drop_last()), replies.last())
    }
}

/// The model of a login's result: none while it is in progress.
pub open spec fn outcome_view(result: Option<Result<AuthController, AuthError>>) -> Option<
    Result<AccountView, ErrorView>,
> {
    match result {
        Some(result) => Some(result_view(result)),
        None => None,
    }
}

/// A login run to its end against a gateway that answers each request in one
/// way: the account request goes out, and, if an account comes back, the
/// verification of its token.
pub open spec fn login_against(
    gateway: spec_fn(RequestView) -> ReplyView,
    credentials: CredentialsView,
    params: ParamsView,
) -> FlowView {
    let first = gateway(account_request_of(credentials, params));
    match next_request(FlowView::AwaitingAccount, first, params) {
        Some(request) => run(FlowView::AwaitingAccount, seq![first, gateway(request)]),
        None => run(FlowView::AwaitingAccount, seq![first]),
    }
}

/// The result of a login in a given state: none while it is in progress.
pub open spec fn outcome_of(flow: FlowView) -> Option<Result<AccountView, ErrorView>> {
    match flow {
        FlowView::Authenticated(account) => Some(Ok(account)),
        FlowView::Failed(error) => Some(Err(error)),
        _ => None,
    }
}

/// Starts a login: the state that awaits the account, and the request that
/// submits the credentials under the current parameters.
pub fn login(username: &str, password: &str, params: &Params) -> (start: (LoginFlow, Request))
    ensures
        start@ == (FlowView::AwaitingAccount, account_request_of(pair(username@, password@), params@)),
{
    let credentials = Credentials::new(username, password);
    let request = account_request(&credentials, params);
    (LoginFlow { phase: Phase::AwaitingAccount }, request)
}

impl LoginFlow {
    /// Takes the reply to the request that is out.
    pub fn advance(self, reply: Reply, params: &Params) -> (next: (LoginFlow, Option<Request>))
        ensures
            next.0@ == next_flow(self@, reply@),
            option_view(next.1) == next_request(self@, reply@, params@),
    {
        match self.phase {
            Phase::AwaitingAccount => match account_from_reply(reply) {
                Ok(account) => {
                    let request = verify_request(account.access_token(), params);
                    (LoginFlow { phase: Phase::AwaitingVerification(account) }, Some(request))
                },
                Err(error) => (LoginFlow { phase: Phase::Failed(error) }, None),
            },
            Phase::AwaitingVerification(account) => match verification_from_reply(reply) {
                Ok(_) => (
                    LoginFlow { phase: Phase::Authenticated(AuthController { account }) },
                    None,
                ),
                Err(error) => (LoginFlow { phase: Phase::Failed(error) }, None),
            },
            Phase::Authenticated(controller) => (
                LoginFlow { phase: Phase::Authenticated(controller) },
                None,
            ),
            Phase::Failed(error) => (LoginFlow { phase: Phase::Failed(error) }, None),
        }
    }

    /// Whether the login is over, one way or the other.
    pub fn is_finished(&self) -> (finished: bool)
        ensures
            finished == outcome_of(self@) is Some,
    {
        match &self.phase {
            Phase::Authenticated(_) => true,
            Phase::Failed(_) => true,
            _ => false,
        }
    }

    /// The result of a finished login; `None` while it is in progress.
    pub fn outcome(self) -> (result: Option<Result<AuthController, AuthError>>)
        ensures
            outcome_view(result) == outcome_of(self@),
    {
        match self.phase {
            Phase::Authenticated(controller) => Some(Ok(controller)),
            Phase::Failed(error) => Some(Err(error)),
            _ => None,
        }
    }
}

/// A finished login stays finished, whatever replies still arrive.
pub proof fn lemma_finished_is_final(flow: FlowView, replies: Seq<ReplyView>)
    requires
        outcome_of(flow) is Some,
    ensures
        run(flow, replies) == flow,
    decreases replies.len(),
{
    if replies.len() > 0 {
        lemma_finished_is_final(flow, replies.drop_last());
    }
}

/// Where a login that got the given replies stands: the first reply decides
/// on the account, the second on its verification, and later ones on nothing.
pub open spec fn decided(replies: Seq<ReplyView>) -> FlowView {
    if replies.len() == 0 {
        FlowView::AwaitingAccount
    } else {
        match account_outcome(replies[0]) {
            Err(error) => FlowView::Failed(error),
            Ok(account) => if replies.len() == 1 {
                FlowView::AwaitingVerification(account)
            } else {
                match verification_outcome(replies[1]) {
                    Err(error) => FlowView::Failed(error),
                    Ok(_) => FlowView::Authenticated(account),
                }
            },
        }
    }
}

/// A login is decided by the first two replies it gets: the reply to the
/// account request and the reply to the verification.
pub proof fn lemma_login_is_decided_by_two_replies(replies: Seq<ReplyView>)
    ensures
        run(FlowView::AwaitingAccount, replies) == decided(replies),
    decreases replies.len(),
{
    if replies.len() > 0 {
        let before = replies.drop_last();
        lemma_login_is_decided_by_two_replies(before);
        if before.len() > 0 {
            assert(before[0] == replies[0]);
        }
        if before.len() > 1 {
            assert(before[1] == replies[1]);
        }
    }
}

/// A login is over after two replies at most.
pub proof fn lemma_login_ends(
    gateway: spec_fn(RequestView) -> ReplyView,
    credentials: CredentialsView,
    params: ParamsView,
)
    ensures
        outcome_of(login_against(gateway, credentials, params)) is Some,
{
    let first = gateway(account_request_of(credentials, params));
    match next_request(FlowView::AwaitingAccount, first, params) {
        Some(request) => {
            lemma_login_is_decided_by_two_replies(seq![first, gateway(request)]);
        },
        None => {
            lemma_login_is_decided_by_two_replies(seq![first]);
        },
    }
}

/// Credentials that the gateway accepts give a session whose access token is
/// the one the gateway issued: where the gateway answers the account request
/// with an account and confirms the token of that account, the login ends
/// with a session that holds exactly that account.
pub proof fn lemma_accepted_login_holds_issued_token(
    gateway: spec_fn(RequestView) -> ReplyView,
    credentials: CredentialsView,
    params: ParamsView,
    issued: AccountView,
)
    requires
        account_outcome(gateway(account_request_of(credentials, params))) == Ok::<
            AccountView,
            ErrorView,
        >(issued),
        verification_outcome(gateway(verify_request_of(issued.access_token, params))) is Ok,
    ensures
        outcome_of(login_against(gateway, credentials, params)) == Some(
            Ok::<AccountView, ErrorView>(issued),
        ),
{
    let first = gateway(account_request_of(credentials, params));
    let second = gateway(verify_request_of(issued.access_token, params));
    lemma_login_is_decided_by_two_replies(seq![first, second]);
}

/// Credentials that the gateway refuses give the error that they were
/// rejected, and no session: the login is over, and nothing that arrives
/// later changes how it ended.
pub proof fn lemma_refused_login_gives_no_session(
    gateway: spec_fn(RequestView) -> ReplyView,
    credentials: CredentialsView,
    params: ParamsView,
    later: Seq<ReplyView>,
)
    requires
        gateway(account_request_of(credentials, params)) is Refused,
    ensures
        login_against(gateway, credentials, params) matches FlowView::Failed(error) && error.kind
            == ErrorKind::AuthRejected,
        run(login_against(gateway, credentials, params), later) == login_against(
            gateway,
            credentials,
            params,
        ),
{
    let first = gateway(account_request_of(credentials, params));
    lemma_login_is_decided_by_two_replies(seq![first]);
    lemma_finished_is_final(login_against(gateway, credentials, params), later);
}

/// How a login ends depends on the credentials only through what the gateway
/// replies: two logins that get the same replies end the same, whatever
/// credentials started them. In particular no error holds the credentials.
pub proof fn lemma_outcome_depends_on_replies_only(
    one: spec_fn(RequestView) -> ReplyView,
    one_credentials: CredentialsView,
    other: spec_fn(RequestView) -> ReplyView,
    other_credentials: CredentialsView,
    params: ParamsView,
)
    requires
        one(account_request_of(one_credentials, params)) == other(
            account_request_of(other_credentials, params),
        ),
        forall|request: RequestView| request.endpoint == Endpoint::Verify ==> one(request) == other(
            request,
        ),
    ensures
        login_against(one, one_credentials, params) == login_against(
            other,
            other_credentials,
            params,
        ),
{
    let first = one(account_request_of(one_credentials, params));
    match next_request(FlowView::AwaitingAccount, first, params) {
        Some(request) => {
            assert(request.endpoint == Endpoint::Verify);
            lemma_login_is_decided_by_two_replies(seq![first, one(request)]);
        },
        None => {
            lemma_login_is_decided_by_two_replies(seq![first]);
        },
    }
}

/// There is no session without both steps: a login that ended with a session
/// got an account from the first reply and a successful verification from the
/// second, and the session holds that account.
pub proof fn lemma_session_means_verified(replies: Seq<ReplyView>, session: AccountView)
    requires
        run(FlowView::AwaitingAccount, replies) == FlowView::Authenticated(session),
    ensures
        replies.len() >= 2,
        account_outcome(replies[0]) == Ok::<AccountView, ErrorView>(session),
        verification_outcome(replies[1]) is Ok,
{
    lemma_login_is_decided_by_two_replies(replies);
}

} // verus!
