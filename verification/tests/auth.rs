use exalta_auth::account::Account;
use exalta_auth::config::{Build, ConfigStore, Params};
use exalta_auth::credentials::Credentials;
use exalta_auth::error::{AuthError, ErrorKind};
use exalta_auth::gateway::{
    account_from_reply, account_request, verification_from_reply, verify_request, Endpoint, Reply,
    Request,
};
use exalta_auth::record::Record;
use quick_xml::events::Event;
use quick_xml::Reader;

/// A gateway that knows one user and the token it issues to them.
struct StubGateway {
    username: &'static str,
    password: &'static str,
    token: &'static str,
}

impl StubGateway {
    fn send(&self, request: &Request) -> Reply {
        match request.endpoint {
            Endpoint::Account => {
                if request.body.get("username") == Some(self.username)
                    && request.body.get("password") == Some(self.password)
                {
                    let mut record = Record::new();
                    record.push("AccessToken", self.token);
                    Reply::Success(record)
                } else {
                    Reply::Refused("WebChangePasswordDialog.passwordError".to_string())
                }
            }
            Endpoint::Verify => {
                if request.body.get("access_token") == Some(self.token) {
                    Reply::Success(Record::new())
                } else {
                    Reply::Refused("Token expired".to_string())
                }
            }
            Endpoint::BuildInfo => Reply::Unreachable("no such endpoint".to_string()),
        }
    }
}

fn stub() -> StubGateway {
    StubGateway { username: "player@example.com", password: "hunter2", token: "token-123" }
}

fn get_auth_info() -> Credentials {
    Credentials::new("player@example.com", "hunter2")
}

fn request_account(
    gateway: &StubGateway,
    credentials: &Credentials,
    params: &Params,
) -> Result<Account, AuthError> {
    account_from_reply(gateway.send(&account_request(credentials, params)))
}

fn verify_access_token(
    gateway: &StubGateway,
    token: &str,
    params: &Params,
) -> Result<(), AuthError> {
    verification_from_reply(gateway.send(&verify_request(token, params)))
}

/// Reads the children of the root element as the fields of a record.
fn record_from_markup(markup: &str) -> Option<Record> {
    let mut reader = Reader::from_str(markup);
    let mut record = Record::new();
    let mut depth = 0;
    let mut name = String::new();
    let mut text = String::new();
    loop {
        match reader.read_event() {
            Ok(Event::Start(start)) => {
                depth += 1;
                if depth == 2 {
                    name = start.name().0.to_string();
                    text.clear();
                }
            }
            Ok(Event::Text(content)) => {
                if depth == 2 {
                    text.push_str(&content.xml10_content());
                }
            }
            Ok(Event::End(_)) => {
                if depth == 2 {
                    record.push(&name, &text);
                }
                depth -= 1;
            }
            Ok(Event::Empty(empty)) => {
                if depth == 1 {
                    record.push(empty.name().0, "");
                }
            }
            Ok(Event::Eof) => return Some(record),
            Ok(_) => {}
            Err(_) => return None,
        }
    }
}

#[test]
fn test_login() {
    let params = ConfigStore::new().read();
    let account = request_account(&stub(), &get_auth_info(), &params).unwrap();
    assert_eq!(account.access_token(), "token-123");
}

#[test]
fn test_verify() {
    let params = ConfigStore::new().read();
    let gateway = stub();
    let account = request_account(&gateway, &get_auth_info(), &params).unwrap();
    verify_access_token(&gateway, account.access_token(), &params).unwrap();
}

#[test]
fn test_set_steam() {
    let mut store = ConfigStore::new();
    store.set_steamid("sdsdkj");
    let params = store.read();
    println!("{:?}", params);
    assert_eq!(params.steamid(), "sdsdkj");
    assert_eq!(params.platform(), "Unity");
    assert_eq!(params.build(), Build::Stable);
}

#[test]
fn auth_test_set_steam() {
    let mut store = ConfigStore::new();
    store.set_build(Build::Testing);
    let params = store.read();
    println!("{:?}", params);
    assert_eq!(params.build(), Build::Testing);
    assert_eq!(params.steamid(), "");
    assert_eq!(params.platform(), "Unity");
}

#[test]
fn test_serde() {
    let string = "<Account></Account>";
    let record = record_from_markup(string).unwrap();
    assert_eq!(record.len(), 0);
    let error = Account::from_record(&record).err().unwrap();
    assert_eq!(error.kind(), ErrorKind::DeserializationFailure);
}

#[test]
fn account_markup_is_read_through_its_record() {
    let markup = "<Account><AccessToken>abc+/=</AccessToken><Name>Someone</Name>\
                  <RefreshToken>r-1</RefreshToken></Account>";
    let record = record_from_markup(markup).unwrap();
    let account = Account::from_record(&record).unwrap();
    assert_eq!(account.access_token(), "abc+/=");
    assert_eq!(account.refresh_token(), Some("r-1"));
}

#[test]
fn self_closed_token_is_an_empty_token() {
    let record = record_from_markup("<Account><AccessToken/></Account>").unwrap();
    let error = Account::from_record(&record).err().unwrap();
    assert_eq!(error.kind(), ErrorKind::DeserializationFailure);
}
