use exalta_auth::error::{classify, AuthError, ErrorKind, Failure, Remedy};

#[test]
fn transport_failures_are_network_failures() {
    let error = classify(Failure::Transport("connection reset".to_string()));
    assert_eq!(error, AuthError::NetworkFailure("connection reset".to_string()));
    assert_eq!(error.kind(), ErrorKind::NetworkFailure);
    assert_eq!(error.remedy(), Remedy::RetryLater);
    assert_eq!(error.message(), "connection reset");
}

#[test]
fn malformed_responses_lose_their_fragment() {
    let one = classify(Failure::Malformed("<Account><AccessToken>secret-token".to_string()));
    let other = classify(Failure::Malformed(String::new()));
    assert_eq!(one, other);
    assert_eq!(one.kind(), ErrorKind::DeserializationFailure);
    assert_eq!(one.remedy(), Remedy::Report);
    assert_eq!(one.message(), "The game service sent a response that could not be read.");
    assert!(!one.message().contains("secret-token"));
}

#[test]
fn rejections_keep_the_reason() {
    let error = classify(Failure::Rejected("Account credentials not valid".to_string()));
    assert_eq!(error, AuthError::AuthRejected("Account credentials not valid".to_string()));
    assert_eq!(error.kind(), ErrorKind::AuthRejected);
    assert_eq!(error.remedy(), Remedy::FixCredentials);
}

#[test]
fn version_mismatch_requires_an_update() {
    let error = classify(Failure::VersionMismatch);
    assert_eq!(error.kind(), ErrorKind::UpdateRequired);
    assert_eq!(error.remedy(), Remedy::UpdateGame);
    assert!(error.is_update_required());
    assert_eq!(
        error.message(),
        "An update for the game is available, please run the official launcher to update the game first."
    );
}

#[test]
fn other_failures_are_unclassified() {
    let error = classify(Failure::Other("disk full".to_string()));
    assert_eq!(error, AuthError::Unclassified("disk full".to_string()));
    assert_eq!(error.kind(), ErrorKind::Unclassified);
    assert_eq!(error.remedy(), Remedy::Report);
    assert!(!error.is_update_required());
}

#[test]
fn only_update_required_is_update_required() {
    assert!(AuthError::UpdateRequired(String::new()).is_update_required());
    assert!(!AuthError::NetworkFailure(String::new()).is_update_required());
    assert!(!AuthError::DeserializationFailure(String::new()).is_update_required());
    assert!(!AuthError::AuthRejected(String::new()).is_update_required());
    assert!(!AuthError::Unclassified(String::new()).is_update_required());
}

#[test]
fn error_clone_is_equal() {
    let error = AuthError::AuthRejected("no".to_string());
    assert_eq!(error.clone(), error);
}
