//! The closed taxonomy of failures, and the classifier that maps low-level
//! failures into it.

use vstd::prelude::*;
use crate::text::owned;

verus! {

/// What the user is told when a response could not be read. The offending
/// fragment is never part of it.
pub const UNREADABLE_RESPONSE: &'static str = "The game service sent a response that could not be read.";

/// What the user is told when the installed build differs from the served one.
pub const UPDATE_AVAILABLE: &'static str = "An update for the game is available, please run the official launcher to update the game first.";

/// The discriminant of an [`AuthError`]: enough to branch on without reading
/// the message.
#[derive(Clone, Copy, Debug, PartialEq, Eq, Structural)]
pub enum ErrorKind {
    /// The transport failed; the same request may succeed later.
    NetworkFailure,
    /// The response did not have the expected shape.
    DeserializationFailure,
    /// The service refused the credentials or the token.
    AuthRejected,
    /// The installed build is not the one the service reports.
    UpdateRequired,
    /// Anything else.
    Unclassified,
}

/// What a caller can do about an error.
#[derive(Clone, Copy, Debug, PartialEq, Eq, Structural)]
pub enum Remedy {
    /// Try the same operation again later.
    RetryLater,
    /// Ask for other credentials; the same ones will be refused again.
    FixCredentials,
    /// Prompt for an update of the game; the same check will fail again.
    UpdateGame,
    /// Nothing the user can do: report it.
    Report,
}

/// A low-level failure, as the place where it happened knows it.
#[derive(Debug, PartialEq, Eq)]
pub enum Failure {
    /// The network library failed, with its description.
    Transport(String),
    /// A response could not be parsed, with the offending fragment.
    Malformed(String),
    /// The server explicitly refused, with its reason.
    Rejected(String),
    /// The local and the remote build identifier differ.
    VersionMismatch,
    /// Any other failure, with its description.
    Other(String),
}

/// The model of a [`Failure`].
pub enum FailureView {
    Transport(Seq<char>),
    Malformed(Seq<char>),
    Rejected(Seq<char>),
    VersionMismatch,
    Other(Seq<char>),
}

impl View for Failure {
    type V = FailureView;

    open spec fn view(&self) -> FailureView {
        match self {
            Failure::Transport(detail) => FailureView::Transport(detail@),
            Failure::Malformed(fragment) => FailureView::Malformed(fragment@),
            Failure::Rejected(reason) => FailureView::Rejected(reason@),
            Failure::VersionMismatch => FailureView::VersionMismatch,
            Failure::Other(detail) => FailureView::Other(detail@),
        }
    }
}

/// A failure of the core, with a message that can be shown to the user.
#[derive(Debug, PartialEq, Eq)]
pub enum AuthError {
    NetworkFailure(String),
    DeserializationFailure(String),
    AuthRejected(String),
    UpdateRequired(String),
    Unclassified(String),
}

/// The model of an [`AuthError`]: its discriminant and its message.
pub struct ErrorView {
    pub kind: ErrorKind,
    pub message: Seq<char>,
}

impl View for AuthError {
    type V = ErrorView;

    open spec fn view(&self) -> ErrorView {
        match self {
            AuthError::NetworkFailure(m) => ErrorView { kind: ErrorKind::NetworkFailure, message: m@ },
            AuthError::DeserializationFailure(m) => ErrorView {
                kind: ErrorKind::DeserializationFailure,
                message: m@,
            },
            AuthError::AuthRejected(m) => ErrorView { kind: ErrorKind::AuthRejected, message: m@ },
            AuthError::UpdateRequired(m) => ErrorView { kind: ErrorKind::UpdateRequired, message: m@ },
            AuthError::Unclassified(m) => ErrorView { kind: ErrorKind::Unclassified, message: m@ },
        }
    }
}

/// The remedy that goes with each kind of error.
pub open spec fn remedy_of(kind: ErrorKind) -> Remedy {
    match kind {
        ErrorKind::NetworkFailure => Remedy::RetryLater,
        ErrorKind::DeserializationFailure => Remedy::Report,
        ErrorKind::AuthRejected => Remedy::FixCredentials,
        ErrorKind::UpdateRequired => Remedy::UpdateGame,
        ErrorKind::Unclassified => Remedy::Report,
    }
}

/// The error for a response that could not be read.
pub open spec fn unreadable() -> ErrorView {
    ErrorView { kind: ErrorKind::DeserializationFailure, message: UNREADABLE_RESPONSE@ }
}

/// The error that a low-level failure is classified as.
pub open spec fn classified(failure: FailureView) -> ErrorView {
    match failure {
        FailureView::Transport(detail) => ErrorView { kind: ErrorKind::NetworkFailure, message: detail },
        FailureView::Malformed(_) => unreadable(),
        FailureView::Rejected(reason) => ErrorView { kind: ErrorKind::AuthRejected, message: reason },
        FailureView::VersionMismatch => ErrorView {
            kind: ErrorKind::UpdateRequired,
            message: UPDATE_AVAILABLE@,
        },
        FailureView::Other(detail) => ErrorView { kind: ErrorKind::Unclassified, message: detail },
    }
}

/// Maps a low-level failure into the taxonomy.
pub fn classify(failure: Failure) -> (error: AuthError)
    ensures
        error@ == classified(failure@),
{
    match failure {
        Failure::Transport(detail) => AuthError::NetworkFailure(detail),
        Failure::Malformed(_) => AuthError::DeserializationFailure(owned(UNREADABLE_RESPONSE)),
        Failure::Rejected(reason) => AuthError::AuthRejected(reason),
        Failure::VersionMismatch => AuthError::UpdateRequired(owned(UPDATE_AVAILABLE)),
        Failure::Other(detail) => AuthError::Unclassified(detail),
    }
}

impl AuthError {
    /// The discriminant.
    pub fn kind(&self) -> (kind: ErrorKind)
        ensures
            kind == self@.kind,
    {
        match self {
            AuthError::NetworkFailure(_) => ErrorKind::NetworkFailure,
            AuthError::DeserializationFailure(_) => ErrorKind::DeserializationFailure,
            AuthError::AuthRejected(_) => ErrorKind::AuthRejected,
            AuthError::UpdateRequired(_) => ErrorKind::UpdateRequired,
            AuthError::Unclassified(_) => ErrorKind::Unclassified,
        }
    }

    /// The message, for display.
    pub fn message(&self) -> (message: String)
        ensures
            message@ == self@.message,
    {
        match self {
            AuthError::NetworkFailure(m) => m.clone(),
            AuthError::DeserializationFailure(m) => m.clone(),
            AuthError::AuthRejected(m) => m.clone(),
            AuthError::UpdateRequired(m) => m.clone(),
            AuthError::Unclassified(m) => m.clone(),
        }
    }

    /// What the caller can do about this error.
    pub fn remedy(&self) -> (remedy: Remedy)
        ensures
            remedy == remedy_of(self@.kind),
    {
        match self {
            AuthError::NetworkFailure(_) => Remedy::RetryLater,
            AuthError::DeserializationFailure(_) => Remedy::Report,
            AuthError::AuthRejected(_) => Remedy::FixCredentials,
            AuthError::UpdateRequired(_) => Remedy::UpdateGame,
            AuthError::Unclassified(_) => Remedy::Report,
        }
    }

    /// Whether this is the condition that an update of the game resolves.
    pub fn is_update_required(&self) -> (yes: bool)
        ensures
            yes == (self@.kind == ErrorKind::UpdateRequired),
    {
        match self {
            AuthError::UpdateRequired(_) => true,
            _ => false,
        }
    }

}

impl Clone for AuthError {
    fn clone(&self) -> (copy: AuthError)
        ensures
            copy@ == self@,
    {
        match self {
            AuthError::NetworkFailure(m) => AuthError::NetworkFailure(m.clone()),
            AuthError::DeserializationFailure(m) => AuthError::DeserializationFailure(m.clone()),
            AuthError::AuthRejected(m) => AuthError::AuthRejected(m.clone()),
            AuthError::UpdateRequired(m) => AuthError::UpdateRequired(m.clone()),
            AuthError::Unclassified(m) => AuthError::Unclassified(m.clone()),
        }
    }
}

/// The classifier elides the offending fragment: whatever could not be
/// parsed, the error is the same.
pub proof fn lemma_fragment_is_elided(a: Seq<char>, b: Seq<char>)
    ensures
        classified(FailureView::Malformed(a)) == classified(FailureView::Malformed(b)),
{
}

/// A version mismatch is the one failure that is classified as an update
/// being required.
pub proof fn lemma_update_required_iff_mismatch(failure: FailureView)
    ensures
        classified(failure).kind == ErrorKind::UpdateRequired <==> failure is VersionMismatch,
{
}

/// The three remedies a caller acts on belong to one kind each, so the
/// discriminant alone tells them apart.
pub proof fn lemma_kind_decides_remedy(kind: ErrorKind)
    ensures
        remedy_of(kind) == Remedy::RetryLater <==> kind == ErrorKind::NetworkFailure,
        remedy_of(kind) == Remedy::FixCredentials <==> kind == ErrorKind::AuthRejected,
        remedy_of(kind) == Remedy::UpdateGame <==> kind == ErrorKind::UpdateRequired,
{
}

} // verus!
