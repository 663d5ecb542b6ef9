use exalta_auth::config::{Build, ConfigStore};
use exalta_auth::credentials::Credentials;
use exalta_auth::error::{AuthError, ErrorKind};
use exalta_auth::gateway::{
    account_from_reply, account_request, build_hash_from_reply, build_request,
    verification_from_reply, verify_request, Endpoint, Reply,
};
use exalta_auth::record::Record;

fn record(fields: &[(&str, &str)]) -> Record {
    let mut record = Record::new();
    for (name, value) in fields {
        record.push(name, value);
    }
    record
}

#[test]
fn account_request_carries_credentials_and_parameters() {
    let params = ConfigStore::new().read();
    let request = account_request(&Credentials::new("bob", "secret"), &params);
    assert_eq!(request.endpoint, Endpoint::Account);
    assert!(
        request.body
            == record(&[
                ("username", "bob"),
                ("password", "secret"),
                ("platform", "Unity"),
                ("steamid", ""),
            ])
    );
}

#[test]
fn empty_credentials_go_out_as_they_are() {
    let params = ConfigStore::new().read();
    let request = account_request(&Credentials::new("", ""), &params);
    assert!(
        request.body
            == record(&[("username", ""), ("password", ""), ("platform", "Unity"), ("steamid", "")])
    );
}

#[test]
fn requests_follow_the_store() {
    let mut store = ConfigStore::new();
    store.set_build(Build::Testing);
    store.set_steamid("sdsdkj");
    store.set_platform("Unity_steam");
    let params = store.read();
    let request = verify_request("tok", &params);
    assert_eq!(request.endpoint, Endpoint::Verify);
    assert!(
        request.body
            == record(&[
                ("access_token", "tok"),
                ("platform", "Unity_steam"),
                ("channel", "testing"),
                ("steamid", "sdsdkj"),
            ])
    );
    let request = build_request(&params);
    assert_eq!(request.endpoint, Endpoint::BuildInfo);
    assert!(request.body == record(&[("platform", "Unity_steam"), ("channel", "testing")]));
}

#[test]
fn build_request_on_the_stable_channel_names_no_channel() {
    let request = build_request(&ConfigStore::new().read());
    assert!(request.body == record(&[("platform", "Unity")]));
}

#[test]
fn account_reply_with_a_record_is_an_account() {
    let account = account_from_reply(Reply::Success(record(&[("AccessToken", "tok")]))).unwrap();
    assert_eq!(account.access_token(), "tok");
}

#[test]
fn account_reply_failures_are_classified() {
    assert_eq!(
        account_from_reply(Reply::Unreachable("dns".to_string())).err().unwrap(),
        AuthError::NetworkFailure("dns".to_string())
    );
    assert_eq!(
        account_from_reply(Reply::Refused("bad password".to_string())).err().unwrap(),
        AuthError::AuthRejected("Login request failed: bad password".to_string())
    );
    let unreadable = AuthError::DeserializationFailure(
        "The game service sent a response that could not be read.".to_string(),
    );
    assert_eq!(
        account_from_reply(Reply::Unreadable("<Account><Acc".to_string())).err().unwrap(),
        unreadable
    );
    assert_eq!(account_from_reply(Reply::Success(Record::new())).err().unwrap(), unreadable);
}

#[test]
fn verification_replies() {
    assert_eq!(verification_from_reply(Reply::Success(Record::new())), Ok(()));
    assert_eq!(
        verification_from_reply(Reply::Refused("Token expired".to_string())),
        Err(AuthError::AuthRejected("Access token rejected: Token expired".to_string()))
    );
    assert_eq!(
        verification_from_reply(Reply::Refused(String::new())),
        Err(AuthError::AuthRejected("Access token rejected: ".to_string()))
    );
    assert_eq!(
        verification_from_reply(Reply::Unreachable("reset".to_string())),
        Err(AuthError::NetworkFailure("reset".to_string()))
    );
    assert_eq!(
        verification_from_reply(Reply::Unreadable("?".to_string())).unwrap_err().kind(),
        ErrorKind::DeserializationFailure
    );
}

#[test]
fn refused_login_and_refused_token_can_be_told_apart() {
    let login = account_from_reply(Reply::Refused("no".to_string())).err().unwrap();
    let token = verification_from_reply(Reply::Refused("no".to_string())).unwrap_err();
    assert_eq!(login.kind(), ErrorKind::AuthRejected);
    assert_eq!(token.kind(), ErrorKind::AuthRejected);
    assert_ne!(login.message(), token.message());
}

#[test]
fn build_hash_replies() {
    assert_eq!(
        build_hash_from_reply(Reply::Success(record(&[("BuildId", "7"), ("BuildHash", "1.0.0")]))),
        Ok("1.0.0".to_string())
    );
    assert_eq!(
        build_hash_from_reply(Reply::Success(record(&[("BuildId", "7")]))).unwrap_err().kind(),
        ErrorKind::DeserializationFailure
    );
    assert_eq!(
        build_hash_from_reply(Reply::Refused("unknown platform".to_string())),
        Err(AuthError::AuthRejected("unknown platform".to_string()))
    );
    assert_eq!(
        build_hash_from_reply(Reply::Unreachable("reset".to_string())),
        Err(AuthError::NetworkFailure("reset".to_string()))
    );
    assert_eq!(
        build_hash_from_reply(Reply::Unreadable("<".to_string())).unwrap_err().kind(),
        ErrorKind::DeserializationFailure
    );
}
