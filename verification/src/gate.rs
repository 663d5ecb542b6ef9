//! The build gate: may the installed build be launched?
//!
//! The identifier of the installed build is compared with the hash that the
//! service reports for the configured platform and channel. The decision is
//! advice to the caller; it neither performs nor prevents a login.

use vstd::prelude::*;
use crate::error::classified;
use crate::error::classify;
use crate::error::AuthError;
use crate::error::ErrorKind;
use crate::error::ErrorView;
use crate::error::Failure;
use crate::error::FailureView;
use crate::gateway::build_hash_from_reply;
use crate::gateway::build_hash_outcome;
use crate::gateway::Reply;
use crate::gateway::ReplyView;
use crate::model::option_view;
use crate::model::result_view;
use crate::text::owned;
use crate::text::same_text;

verus! {

/// What the user is told when the check itself could not be made.
pub const CHECK_FAILED: &'static str = "Failed to check for updates.";

/// The reason of a block, in words.
pub const UPDATE_REASON: &'static str = "update available";

/// Why a launch is blocked.
#[derive(Clone, Copy, Debug, PartialEq, Eq, Structural)]
pub enum BlockReason {
    /// The service serves another build than the installed one.
    UpdateAvailable,
}

/// The decision on a launch.
#[derive(Clone, Copy, Debug, PartialEq, Eq, Structural)]
pub enum GateResult {
    Pass,
    Blocked(BlockReason),
}

impl View for GateResult {
    type V = GateResult;

    open spec fn view(&self) -> GateResult {
        *self
    }
}

/// The decision for two identifiers: pass exactly when they are equal, with
/// no normalization.
pub open spec fn verdict(local: Seq<char>, remote: Seq<char>) -> GateResult {
    if local == remote {
        GateResult::Pass
    } else {
        GateResult::Blocked(BlockReason::UpdateAvailable)
    }
}

/// The error for a check that could not be made. It is transient: the same
/// check may succeed later.
pub open spec fn check_failed() -> ErrorView {
    ErrorView { kind: ErrorKind::NetworkFailure, message: CHECK_FAILED@ }
}

/// The decision where either identifier may be missing: without both there is
/// no decision, and in particular no block.
pub open spec fn verdict_of_lookups(local: Option<Seq<char>>, remote: Option<Seq<char>>) -> Result<
    GateResult,
    ErrorView,
> {
    match (local, remote) {
        (Some(local), Some(remote)) => Ok(verdict(local, remote)),
        _ => Err(check_failed()),
    }
}

/// The reason of a decision that blocks.
pub open spec fn reason_of(gate: GateResult) -> Option<BlockReason> {
    match gate {
        GateResult::Pass => None,
        GateResult::Blocked(reason) => Some(reason),
    }
}

/// What a decision means for a launch.
pub open spec fn launch_outcome(gate: GateResult) -> Result<(), ErrorView> {
    match gate {
        GateResult::Pass => Ok(()),
        GateResult::Blocked(_) => Err(classified(FailureView::VersionMismatch)),
    }
}

/// The hash in a reply to a build request, if it holds one.
pub open spec fn hash_of(reply: ReplyView) -> Option<Seq<char>> {
    match build_hash_outcome(reply) {
        Ok(hash) => Some(hash),
        Err(_) => None,
    }
}

/// The whole check, from what the lookup of the installed build's identifier
/// gave and the reply to the build request.
pub open spec fn update_check_outcome(local: Option<Seq<char>>, reply: ReplyView) -> Result<
    GateResult,
    ErrorView,
> {
    verdict_of_lookups(local, hash_of(reply))
}

/// Compares the installed build's identifier with the served build's hash.
pub fn check_update(local_build_id: &str, remote_build_hash: &str) -> (gate: GateResult)
    ensures
        gate == verdict(local_build_id@, remote_build_hash@),
{
    if same_text(local_build_id, remote_build_hash) {
        GateResult::Pass
    } else {
        GateResult::Blocked(BlockReason::UpdateAvailable)
    }
}

/// Decides from the results of the two lookups. A lookup that failed is no
/// mismatch: it gives a transient error, never a block.
pub fn check_update_lookups(local: Option<&str>, remote: Option<&str>) -> (gate: Result<
    GateResult,
    AuthError,
>)
    ensures
        result_view(gate) == verdict_of_lookups(option_view(local), option_view(remote)),
{
    match (local, remote) {
        (Some(local), Some(remote)) => Ok(check_update(local, remote)),
        _ => Err(AuthError::NetworkFailure(owned(CHECK_FAILED))),
    }
}

/// Makes the whole check: reads the served hash from the reply to the build
/// request and compares it with the installed build's identifier. A reply
/// without a hash is a failed lookup, whatever was wrong with it.
pub fn update_check(local: Option<&str>, reply: Reply) -> (gate: Result<GateResult, AuthError>)
    ensures
        result_view(gate) == update_check_outcome(option_view(local), reply@),
{
    match build_hash_from_reply(reply) {
        Ok(hash) => check_update_lookups(local, Some(hash.as_str())),
        Err(_) => check_update_lookups(local, None),
    }
}

impl BlockReason {
    /// The reason in words.
    pub fn describe(self) -> (text: &'static str)
        ensures
            text@ == UPDATE_REASON@,
    {
        match self {
            BlockReason::UpdateAvailable => UPDATE_REASON,
        }
    }
}

impl GateResult {
    pub fn is_pass(self) -> (pass: bool)
        ensures
            pass == (self == GateResult::Pass),
    {
        match self {
            GateResult::Pass => true,
            GateResult::Blocked(_) => false,
        }
    }

    /// Why the launch is blocked, if it is.
    pub fn reason(self) -> (reason: Option<BlockReason>)
        ensures
            reason == reason_of(self),
    {
        match self {
            GateResult::Pass => None,
            GateResult::Blocked(reason) => Some(reason),
        }
    }

    /// The decision as a result: a block is the error that an update is
    /// required.
    pub fn into_result(self) -> (outcome: Result<(), AuthError>)
        ensures
            result_view(outcome) == launch_outcome(self),
    {
        match self {
            GateResult::Pass => Ok(()),
            GateResult::Blocked(_) => Err(classify(Failure::VersionMismatch)),
        }
    }
}

/// The check blocks exactly when both identifiers were obtained and they
/// differ, and passes exactly when both were obtained and they are equal.
/// Whatever went wrong in obtaining them is a transient error instead, and
/// never the error that an update is required.
pub proof fn lemma_block_only_on_mismatch(local: Option<Seq<char>>, reply: ReplyView)
    ensures
        update_check_outcome(local, reply) == Ok::<GateResult, ErrorView>(GateResult::Pass) <==> local
            is Some && hash_of(reply) == local,
        update_check_outcome(local, reply) matches Ok(GateResult::Blocked(_)) <==> local is Some
            && hash_of(reply) is Some && hash_of(reply) != local,
        update_check_outcome(local, reply) matches Err(error) ==> error == check_failed()
            && error.kind != ErrorKind::UpdateRequired,
        update_check_outcome(local, reply) is Err <==> local is None || hash_of(reply) is None,
{
}

} // verus!
