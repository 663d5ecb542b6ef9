//! The authenticated result of a login.

use vstd::prelude::*;
use crate::error::classify;
use crate::error::unreadable;
use crate::error::AuthError;
use crate::error::ErrorView;
use crate::error::Failure;
use crate::model::option_view;
use crate::model::result_view;
use crate::record::value_of;
use crate::record::Record;
use crate::text::owned;

verus! {

/// The name of the record field that carries the access token.
pub const ACCESS_TOKEN: &'static str = "AccessToken";

/// The name of the record field that carries the refresh token.
pub const REFRESH_TOKEN: &'static str = "RefreshToken";

/// A session with the game service. An account always has a usable access
/// token: there is no empty or half-filled account.
#[derive(PartialEq, Eq)]
pub struct Account {
    access_token: String,
    refresh_token: Option<String>,
}

/// The model of an [`Account`].
pub struct AccountView {
    pub access_token: Seq<char>,
    pub refresh_token: Option<Seq<char>>,
}

impl AccountView {
    /// An account is usable when its access token is not empty.
    pub open spec fn usable(self) -> bool {
        self.access_token.len() > 0
    }
}

impl View for Account {
    type V = AccountView;

    closed spec fn view(&self) -> AccountView {
        AccountView {
            access_token: self.access_token@,
            refresh_token: match self.refresh_token {
                Some(token) => Some(token@),
                None => None,
            },
        }
    }
}

/// The account that a record describes: the first `AccessToken` field, which
/// has to be there and not empty, and the first `RefreshToken` field if there
/// is one. Other fields are ignored.
pub open spec fn account_of(record: Seq<(Seq<char>, Seq<char>)>) -> Option<AccountView> {
    match value_of(record, ACCESS_TOKEN@) {
        Some(token) => if token.len() > 0 {
            Some(AccountView { access_token: token, refresh_token: value_of(record, REFRESH_TOKEN@) })
        } else {
            None
        },
        None => None,
    }
}

/// What reading a record as an account gives: the account, or the error that
/// the response could not be read.
pub open spec fn read_account(record: Seq<(Seq<char>, Seq<char>)>) -> Result<AccountView, ErrorView> {
    match account_of(record) {
        Some(account) => Ok(account),
        None => Err(unreadable()),
    }
}

/// The record that describes an account.
pub open spec fn record_of(account: AccountView) -> Seq<(Seq<char>, Seq<char>)> {
    match account.refresh_token {
        Some(token) => seq![(ACCESS_TOKEN@, account.access_token), (REFRESH_TOKEN@, token)],
        None => seq![(ACCESS_TOKEN@, account.access_token)],
    }
}

impl Account {
    #[verifier::type_invariant]
    spec fn has_token(self) -> bool {
        self.access_token@.len() > 0
    }

    /// Reads an account from a record. A record without an access token, or
    /// with an empty one, is no account.
    pub fn from_record(record: &Record) -> (account: Result<Account, AuthError>)
        ensures
            result_view(account) == read_account(record@),
    {
        match record.get(ACCESS_TOKEN) {
            Some(token) => {
                if token.is_empty() {
                    return Err(classify(Failure::Malformed(String::new())));
                }
                let refresh_token = match record.get(REFRESH_TOKEN) {
                    Some(refresh) => Some(owned(refresh)),
                    None => None,
                };
                Ok(Account { access_token: owned(token), refresh_token })
            },
            None => Err(classify(Failure::Malformed(String::new()))),
        }
    }

    /// Writes the account as a record.
    pub fn to_record(&self) -> (record: Record)
        ensures
            record@ == record_of(self@),
    {
        let mut record = Record::new();
        record.push(ACCESS_TOKEN, self.access_token.as_str());
        match &self.refresh_token {
            Some(token) => {
                record.push(REFRESH_TOKEN, token.as_str());
            },
            None => {},
        }
        assert(record@ =~= record_of(self@));
        record
    }

    /// The access token, which is never empty.
    pub fn access_token(&self) -> (token: &str)
        ensures
            token@ == self@.access_token,
            self@.usable(),
    {
        proof {
            use_type_invariant(self);
        }
        self.access_token.as_str()
    }

    /// The refresh token, if the service issued one.
    pub fn refresh_token(&self) -> (token: Option<&str>)
        ensures
            option_view(token) == self@.refresh_token,
    {
        match &self.refresh_token {
            Some(token) => Some(token.as_str()),
            None => None,
        }
    }
}

impl Clone for Account {
    fn clone(&self) -> (copy: Account)
        ensures
            copy@ == self@,
    {
        proof {
            use_type_invariant(self);
        }
        let refresh_token = match &self.refresh_token {
            Some(token) => Some(token.clone()),
            None => None,
        };
        Account { access_token: self.access_token.clone(), refresh_token }
    }
}

/// Writing an account as a record and reading the record back gives the same
/// account.
pub proof fn lemma_record_round_trip(account: AccountView)
    requires
        account.usable(),
    ensures
        account_of(record_of(account)) == Some(account),
{
    reveal_strlit("AccessToken");
    reveal_strlit("RefreshToken");
    let record = record_of(account);
    assert(ACCESS_TOKEN@.len() != REFRESH_TOKEN@.len());
    assert(record[0].0 == ACCESS_TOKEN@);
    assert(value_of(record, ACCESS_TOKEN@) == Some(account.access_token));
    let rest = record.drop_first();
    match account.refresh_token {
        Some(token) => {
            assert(rest[0] == (REFRESH_TOKEN@, token));
            assert(value_of(rest, REFRESH_TOKEN@) == Some(token));
        },
        None => {
            assert(rest.len() == 0);
            assert(value_of(rest, REFRESH_TOKEN@) is None);
        },
    }
}

/// Reading gives an account exactly when the record holds an access token
/// that is not empty, and then a usable one. On any other record, the empty
/// one among them, it fails: there is no default account.
pub proof fn lemma_no_token_no_account(record: Seq<(Seq<char>, Seq<char>)>)
    ensures
        read_account(record) is Ok <==> (value_of(record, ACCESS_TOKEN@) matches Some(token)
            && token.len() > 0),
        read_account(record) matches Ok(account) ==> account.usable(),
        read_account(record) is Err ==> read_account(record) == Err::<AccountView, ErrorView>(
            unreadable(),
        ),
        read_account(Seq::empty()) == Err::<AccountView, ErrorView>(unreadable()),
{
}

} // verus!
