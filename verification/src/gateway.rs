//! The remote gateway's contract: the requests that go out and what each kind
//! of reply means. Sending and receiving is the caller's part.

use vstd::prelude::*;
use crate::account::read_account;
use crate::account::Account;
use crate::account::AccountView;
use crate::config::Build;
use crate::config::Params;
use crate::config::ParamsView;
use crate::credentials::Credentials;
use crate::credentials::CredentialsView;
use crate::error::classified;
use crate::error::classify;
use crate::error::unreadable;
use crate::error::AuthError;
use crate::error::ErrorKind;
use crate::error::ErrorView;
use crate::error::Failure;
use crate::error::FailureView;
use crate::model::result_view;
use crate::record::value_of;
use crate::record::Record;
use crate::text::owned;

verus! {

/// The name of the request field that carries the username.
pub const USERNAME: &'static str = "username";

/// The name of the request field that carries the password.
pub const PASSWORD: &'static str = "password";

/// The name of the request field that carries the access token.
pub const TOKEN: &'static str = "access_token";

/// The name of the request field that carries the platform identifier.
pub const PLATFORM: &'static str = "platform";

/// The name of the request field that carries the build channel.
pub const CHANNEL: &'static str = "channel";

/// The name of the request field that carries the install's identifier.
pub const STEAMID: &'static str = "steamid";

/// The name of the response field that carries the served build's hash.
pub const BUILD_HASH: &'static str = "BuildHash";

/// What precedes the server's reason where a login request was refused.
pub const LOGIN_REFUSED: &'static str = "Login request failed: ";

/// What precedes the server's reason where an access token was refused.
pub const TOKEN_REFUSED: &'static str = "Access token rejected: ";

/// The three operations of the gateway.
#[derive(Clone, Copy, Debug, PartialEq, Eq, Structural)]
pub enum Endpoint {
    /// Credentials in, an account record out.
    Account,
    /// An access token in, success or failure out.
    Verify,
    /// A platform and channel in, a record with the build hash out.
    BuildInfo,
}

/// A request for the caller to send.
#[derive(PartialEq, Eq)]
pub struct Request {
    pub endpoint: Endpoint,
    pub body: Record,
}

/// The model of a [`Request`].
pub struct RequestView {
    pub endpoint: Endpoint,
    pub body: Seq<(Seq<char>, Seq<char>)>,
}

impl View for Request {
    type V = RequestView;

    open spec fn view(&self) -> RequestView {
        RequestView { endpoint: self.endpoint, body: self.body@ }
    }
}

/// What came back for a request.
#[derive(PartialEq, Eq)]
pub enum Reply {
    /// Nothing came back: the transport failed, with its description.
    Unreachable(String),
    /// The service refused, with its reason.
    Refused(String),
    /// The service answered, but not with a record; with the offending text.
    Unreadable(String),
    /// The service answered with this record.
    Success(Record),
}

/// The model of a [`Reply`].
pub enum ReplyView {
    Unreachable(Seq<char>),
    Refused(Seq<char>),
    Unreadable(Seq<char>),
    Success(Seq<(Seq<char>, Seq<char>)>),
}

impl View for Reply {
    type V = ReplyView;

    open spec fn view(&self) -> ReplyView {
        match self {
            Reply::Unreachable(detail) => ReplyView::Unreachable(detail@),
            Reply::Refused(reason) => ReplyView::Refused(reason@),
            Reply::Unreadable(text) => ReplyView::Unreadable(text@),
            Reply::Success(record) => ReplyView::Success(record@),
        }
    }
}

/// The platform and, off the stable channel, the channel.
pub open spec fn channel_tags(params: ParamsView) -> Seq<(Seq<char>, Seq<char>)> {
    match params.build {
        Build::Stable => seq![(PLATFORM@, params.platform)],
        Build::Testing => seq![(PLATFORM@, params.platform), (CHANNEL@, Build::Testing.name_of())],
    }
}

/// The fields that the configuration adds to every authorized request.
pub open spec fn tags(params: ParamsView) -> Seq<(Seq<char>, Seq<char>)> {
    channel_tags(params).push((STEAMID@, params.steamid))
}

/// The request that submits credentials.
pub open spec fn account_request_of(credentials: CredentialsView, params: ParamsView) -> RequestView {
    RequestView {
        endpoint: Endpoint::Account,
        body: seq![(USERNAME@, credentials.username), (PASSWORD@, credentials.password)] + tags(
            params,
        ),
    }
}

/// The request that asks whether a token is still accepted.
pub open spec fn verify_request_of(token: Seq<char>, params: ParamsView) -> RequestView {
    RequestView { endpoint: Endpoint::Verify, body: seq![(TOKEN@, token)] + tags(params) }
}

/// The request for the served build's hash.
pub open spec fn build_request_of(params: ParamsView) -> RequestView {
    RequestView { endpoint: Endpoint::BuildInfo, body: channel_tags(params) }
}

/// The error for a refusal, with what precedes the server's reason.
pub open spec fn refusal(context: Seq<char>, reason: Seq<char>) -> ErrorView {
    ErrorView { kind: ErrorKind::AuthRejected, message: context + reason }
}

/// What a reply to an account request means.
pub open spec fn account_outcome(reply: ReplyView) -> Result<AccountView, ErrorView> {
    match reply {
        ReplyView::Unreachable(detail) => Err(classified(FailureView::Transport(detail))),
        ReplyView::Refused(reason) => Err(refusal(LOGIN_REFUSED@, reason)),
        ReplyView::Unreadable(text) => Err(classified(FailureView::Malformed(text))),
        ReplyView::Success(record) => read_account(record),
    }
}

/// What a reply to a verification request means. A refusal is final: the
/// token is not valid, and nothing here retries or refreshes.
pub open spec fn verification_outcome(reply: ReplyView) -> Result<(), ErrorView> {
    match reply {
        ReplyView::Unreachable(detail) => Err(classified(FailureView::Transport(detail))),
        ReplyView::Refused(reason) => Err(refusal(TOKEN_REFUSED@, reason)),
        ReplyView::Unreadable(text) => Err(classified(FailureView::Malformed(text))),
        ReplyView::Success(_) => Ok(()),
    }
}

/// What a reply to a build request means.
pub open spec fn build_hash_outcome(reply: ReplyView) -> Result<Seq<char>, ErrorView> {
    match reply {
        ReplyView::Unreachable(detail) => Err(classified(FailureView::Transport(detail))),
        ReplyView::Refused(reason) => Err(classified(FailureView::Rejected(reason))),
        ReplyView::Unreadable(text) => Err(classified(FailureView::Malformed(text))),
        ReplyView::Success(record) => match value_of(record, BUILD_HASH@) {
            Some(hash) => Ok(hash),
            None => Err(unreadable()),
        },
    }
}

fn push_channel_tags(body: &mut Record, params: &Params)
    ensures
        final(body)@ == old(body)@ + channel_tags(params@),
{
    body.push(PLATFORM, params.platform());
    match params.build() {
        Build::Stable => {},
        Build::Testing => {
            body.push(CHANNEL, Build::Testing.name());
        },
    }
    assert(body@ =~= old(body)@ + channel_tags(params@));
}

fn push_tags(body: &mut Record, params: &Params)
    ensures
        final(body)@ == old(body)@ + tags(params@),
{
    push_channel_tags(body, params);
    body.push(STEAMID, params.steamid());
    assert(body@ =~= old(body)@ + tags(params@));
}

/// Shapes the request that submits credentials. The credentials go out as
/// they are, empty or not.
pub fn account_request(credentials: &Credentials, params: &Params) -> (request: Request)
    ensures
        request@ == account_request_of(credentials@, params@),
{
    let mut body = Record::new();
    body.push(USERNAME, credentials.username());
    body.push(PASSWORD, credentials.password());
    push_tags(&mut body, params);
    assert(body@ =~= account_request_of(credentials@, params@).body);
    Request { endpoint: Endpoint::Account, body }
}

/// Shapes the request that asks whether a token is still accepted.
pub fn verify_request(token: &str, params: &Params) -> (request: Request)
    ensures
        request@ == verify_request_of(token@, params@),
{
    let mut body = Record::new();
    body.push(TOKEN, token);
    push_tags(&mut body, params);
    assert(body@ =~= verify_request_of(token@, params@).body);
    Request { endpoint: Endpoint::Verify, body }
}

/// Shapes the request for the served build's hash, for the platform and
/// channel that the parameters name.
pub fn build_request(params: &Params) -> (request: Request)
    ensures
        request@ == build_request_of(params@),
{
    let mut body = Record::new();
    push_channel_tags(&mut body, params);
    assert(body@ =~= build_request_of(params@).body);
    Request { endpoint: Endpoint::BuildInfo, body }
}

fn refused(context: &str, reason: String) -> (error: AuthError)
    ensures
        error@ == refusal(context@, reason@),
{
    classify(Failure::Rejected(owned(context).concat(reason.as_str())))
}

/// Reads the reply to an account request.
pub fn account_from_reply(reply: Reply) -> (account: Result<Account, AuthError>)
    ensures
        result_view(account) == account_outcome(reply@),
{
    match reply {
        Reply::Unreachable(detail) => Err(classify(Failure::Transport(detail))),
        Reply::Refused(reason) => Err(refused(LOGIN_REFUSED, reason)),
        Reply::Unreadable(text) => Err(classify(Failure::Malformed(text))),
        Reply::Success(record) => Account::from_record(&record),
    }
}

/// Reads the reply to a verification request.
pub fn verification_from_reply(reply: Reply) -> (verified: Result<(), AuthError>)
    ensures
        result_view(verified) == verification_outcome(reply@),
{
    match reply {
        Reply::Unreachable(detail) => Err(classify(Failure::Transport(detail))),
        Reply::Refused(reason) => Err(refused(TOKEN_REFUSED, reason)),
        Reply::Unreadable(text) => Err(classify(Failure::Malformed(text))),
        Reply::Success(_) => Ok(()),
    }
}

/// Reads the reply to a build request.
pub fn build_hash_from_reply(reply: Reply) -> (hash: Result<String, AuthError>)
    ensures
        result_view(hash) == build_hash_outcome(reply@),
{
    match reply {
        Reply::Unreachable(detail) => Err(classify(Failure::Transport(detail))),
        Reply::Refused(reason) => Err(classify(Failure::Rejected(reason))),
        Reply::Unreadable(text) => Err(classify(Failure::Malformed(text))),
        Reply::Success(record) => match record.get(BUILD_HASH) {
            Some(hash) => Ok(owned(hash)),
            None => Err(classify(Failure::Malformed(String::new()))),
        },
    }
}

/// A refused login and a refused token give different messages, whatever
/// reasons the server gave.
pub proof fn lemma_refusals_differ(login_reason: Seq<char>, token_reason: Seq<char>)
    ensures
        refusal(LOGIN_REFUSED@, login_reason).message != refusal(TOKEN_REFUSED@, token_reason).message,
        refusal(LOGIN_REFUSED@, login_reason).kind == refusal(TOKEN_REFUSED@, token_reason).kind,
{
    reveal_strlit("Login request failed: ");
    reveal_strlit("Access token rejected: ");
    assert((LOGIN_REFUSED@ + login_reason)[0] == 'L');
    assert((TOKEN_REFUSED@ + token_reason)[0] == 'A');
}

/// A verification is refused exactly when the service refused the token, and
/// then the error says so.
pub proof fn lemma_refused_token_is_rejected(reply: ReplyView)
    ensures
        reply is Refused ==> verification_outcome(reply) is Err && verification_outcome(
            reply,
        )->Err_0.kind == ErrorKind::AuthRejected,
        reply is Success <==> verification_outcome(reply) is Ok,
{
}

} // verus!
