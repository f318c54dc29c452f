//! The grant exchange: a code from the login, or a refresh token, is
//! exchanged for a bearer token.
//!
//! The client is checked against the configuration before anything is read
//! from the store. Everything happens inside one transaction, which is
//! committed only where tokens are issued.

use vstd::prelude::*;
use crate::dal::{
    bearer_token_inserted, exchange_token_removed, first_expiry, get_exchange_token,
    get_refresh_token, insert_bearer_token, insert_refresh_token, refresh_token_inserted,
    remove_exchange_token,
};
use crate::data::{Config, ConfigView};
use crate::error::Error;
use crate::store::{committed, Transaction, TransactionView};
use crate::tokens::{generate_token, is_token, unix_now, CLOCK_RANGE};

verus! {

/// The number of seconds for which a bearer token is valid: one day.
pub const BEARER_LIFETIME: i64 = 86400;

/// The form that a client sends to exchange a grant.
#[derive(Debug, Clone, PartialEq, Eq)]
pub struct Request {
    pub client_id: String,
    pub client_secret: String,
    pub grant_type: String,
    pub code: Option<String>,
    pub refresh_token: Option<String>,
}

/// The tokens that an exchange issued.
#[derive(Debug, Clone, PartialEq, Eq)]
pub struct Response {
    pub token_type: String,
    pub access_token: String,
    pub refresh_token: Option<String>,
    pub expires_in: i64,
}

/// The text of an optional field.
pub open spec fn text_of(field: Option<String>) -> Option<Seq<char>> {
    match field {
        Some(text) => Some(text@),
        None => None,
    }
}

/// The form of an exchange, with its texts as sequences of characters.
pub struct RequestView {
    pub client_id: Seq<char>,
    pub client_secret: Seq<char>,
    pub grant_type: Seq<char>,
    pub code: Option<Seq<char>>,
    pub refresh_token: Option<Seq<char>>,
}

impl View for Request {
    type V = RequestView;

    open spec fn view(&self) -> RequestView {
        RequestView {
            client_id: self.client_id@,
            client_secret: self.client_secret@,
            grant_type: self.grant_type@,
            code: text_of(self.code),
            refresh_token: text_of(self.refresh_token),
        }
    }
}

/// The tokens of an exchange, as sequences of characters.
pub struct ResponseView {
    pub token_type: Seq<char>,
    pub access_token: Seq<char>,
    pub refresh_token: Option<Seq<char>>,
    pub expires_in: int,
}

impl View for Response {
    type V = ResponseView;

    open spec fn view(&self) -> ResponseView {
        ResponseView {
            token_type: self.token_type@,
            access_token: self.access_token@,
            refresh_token: text_of(self.refresh_token),
            expires_in: self.expires_in as int,
        }
    }
}

/// What a client may exchange.
#[derive(Debug, Clone, Copy, PartialEq, Eq, Structural)]
pub enum Grant {
    /// A code from the login. It buys a bearer token and a refresh token.
    AuthorizationCode,
    /// A refresh token. It buys a bearer token, and stays as it is.
    RefreshToken,
}

/// Whether the request names the configured client with its secret.
pub open spec fn client_matches(config: ConfigView, request: RequestView) -> bool {
    request.client_id == config.oauth2_client_id && request.client_secret
        == config.oauth2_client_secret
}

/// The transaction after a grant has been checked at the time `now`, and the
/// grant if it holds.
///
/// The grant is invalid where the client or its secret is not the configured
/// one, where the grant type is neither `authorization_code` nor
/// `refresh_token`, where the code or the refresh token is missing from the
/// request or unknown to the store, and where the code has expired. Only an
/// expired code touches the transaction: it is removed.
pub open spec fn grant_checked(
    config: ConfigView,
    tx: TransactionView,
    request: RequestView,
    now: int,
) -> (TransactionView, Result<Grant, Error>) {
    if !client_matches(config, request) {
        (tx, Err(Error::InvalidGrant))
    } else if request.grant_type == "authorization_code"@ {
        match request.code {
            None => (tx, Err(Error::InvalidGrant)),
            Some(code) => match first_expiry(tx.store.exchange_tokens, code) {
                None => (tx, Err(Error::InvalidGrant)),
                Some(expiry) => if now > expiry {
                    (exchange_token_removed(tx, code), Err(Error::InvalidGrant))
                } else {
                    (tx, Ok(Grant::AuthorizationCode))
                },
            },
        }
    } else if request.grant_type == "refresh_token"@ {
        match request.refresh_token {
            None => (tx, Err(Error::InvalidGrant)),
            Some(token) => if tx.store.refresh_tokens.contains(token) {
                (tx, Ok(Grant::RefreshToken))
            } else {
                (tx, Err(Error::InvalidGrant))
            },
        }
    } else {
        (tx, Err(Error::InvalidGrant))
    }
}

/// The transaction after tokens have been issued for a grant at the time
/// `now`, and the answer to the client.
///
/// The bearer token is stored with an expiry one day after `now`. A code
/// also buys the refresh token, which is stored; a refresh token buys no
/// other. The code and the refresh token that were exchanged stay in the
/// store. The transaction is committed.
pub open spec fn tokens_issued(
    tx: TransactionView,
    grant: Grant,
    now: int,
    access_token: Seq<char>,
    refresh_token: Seq<char>,
) -> (TransactionView, ResponseView) {
    let with_bearer = bearer_token_inserted(tx, access_token, now + BEARER_LIFETIME);
    match grant {
        Grant::AuthorizationCode => (
            committed(refresh_token_inserted(with_bearer, refresh_token)),
            ResponseView {
                token_type: "Bearer"@,
                access_token,
                refresh_token: Some(refresh_token),
                expires_in: BEARER_LIFETIME as int,
            },
        ),
        Grant::RefreshToken => (
            committed(with_bearer),
            ResponseView {
                token_type: "Bearer"@,
                access_token,
                refresh_token: None,
                expires_in: BEARER_LIFETIME as int,
            },
        ),
    }
}

/// What an exchange comes to at the time `now`, where `access_token` and
/// `refresh_token` are the fresh tokens at hand: the transaction that it
/// leaves and the answer to the client.
pub open spec fn exchanged(
    config: ConfigView,
    tx: TransactionView,
    request: RequestView,
    now: int,
    access_token: Seq<char>,
    refresh_token: Seq<char>,
) -> (TransactionView, Result<ResponseView, Error>) {
    let (checked, grant) = grant_checked(config, tx, request, now);
    match grant {
        Err(e) => (checked, Err(e)),
        Ok(grant) => {
            let (issued, response) = tokens_issued(checked, grant, now, access_token, refresh_token);
            (issued, Ok(response))
        },
    }
}

/// Whether the request names the configured client with its secret. A
/// request that does not is refused without a look at the store.
pub fn names_client(config: &Config, request: &Request) -> (known: bool)
    ensures
        known == client_matches(config@, request@),
{
    request.client_id == config.oauth2_client_id && request.client_secret
        == config.oauth2_client_secret
}

/// Checks a grant at the time `now`.
pub fn check_grant(config: &Config, tx: &mut Transaction, request: &Request, now: i64) -> (r:
    Result<Grant, Error>)
    ensures
        (final(tx)@, r) == grant_checked(config@, old(tx)@, request@, now as int),
{
    if !names_client(config, request) {
        return Err(Error::InvalidGrant);
    }
    if request.grant_type == String::from_str("authorization_code") {
        let code = match &request.code {
            Some(code) => code,
            None => {
                return Err(Error::InvalidGrant);
            },
        };
        let expiry = match get_exchange_token(tx, code.as_str()) {
            Some(expiry) => expiry,
            None => {
                return Err(Error::InvalidGrant);
            },
        };
        if now > expiry {
            remove_exchange_token(tx, code.as_str());
            return Err(Error::InvalidGrant);
        }
        Ok(Grant::AuthorizationCode)
    } else if request.grant_type == String::from_str("refresh_token") {
        let token = match &request.refresh_token {
            Some(token) => token,
            None => {
                return Err(Error::InvalidGrant);
            },
        };
        match get_refresh_token(tx, token.as_str()) {
            Some(_) => Ok(Grant::RefreshToken),
            None => Err(Error::InvalidGrant),
        }
    } else {
        Err(Error::InvalidGrant)
    }
}

/// Issues tokens for a grant at the time `now` and commits. The refresh
/// token is used only where the grant is a code.
pub fn issue_tokens(
    tx: &mut Transaction,
    grant: Grant,
    now: i64,
    access_token: String,
    refresh_token: String,
) -> (response: Response)
    requires
        now + BEARER_LIFETIME <= i64::MAX,
    ensures
        (final(tx)@, response@) == tokens_issued(
            old(tx)@,
            grant,
            now as int,
            access_token@,
            refresh_token@,
        ),
{
    insert_bearer_token(tx, access_token.as_str(), now + BEARER_LIFETIME);
    let refresh_token = match grant {
        Grant::AuthorizationCode => {
            insert_refresh_token(tx, refresh_token.as_str());
            Some(refresh_token)
        },
        Grant::RefreshToken => None,
    };
    tx.commit();
    Response {
        token_type: String::from_str("Bearer"),
        access_token,
        refresh_token,
        expires_in: BEARER_LIFETIME,
    }
}

/// Exchanges a grant at the time `now`, with the fresh tokens at hand.
///
/// The transaction and the answer are what [`exchanged`] says: the grant is
/// refused exactly where [`grant_checked`] refuses it, and else the tokens
/// are issued as [`tokens_issued`] says.
pub fn exchange_at(
    config: &Config,
    tx: &mut Transaction,
    request: &Request,
    now: i64,
    access_token: String,
    refresh_token: String,
) -> (r: Result<Response, Error>)
    requires
        now + BEARER_LIFETIME <= i64::MAX,
    ensures
        ({
            let (after, reply) = exchanged(
                config@,
                old(tx)@,
                request@,
                now as int,
                access_token@,
                refresh_token@,
            );
            &&& final(tx)@ == after
            &&& match r {
                Ok(response) => reply == Ok::<ResponseView, Error>(response@),
                Err(e) => reply == Err::<ResponseView, Error>(e),
            }
        }),
{
    match check_grant(config, tx, request, now) {
        Err(e) => Err(e),
        Ok(grant) => Ok(issue_tokens(tx, grant, now, access_token, refresh_token)),
    }
}

/// Whether an exchange that found the transaction as `before` and left it
/// as `after`, with the answer `r`, is what checking the grant and issuing
/// tokens at the time `now` come to, for the tokens of the answer, which
/// have the form of tokens.
pub open spec fn is_exchange_at(
    config: ConfigView,
    before: TransactionView,
    request: RequestView,
    now: int,
    after: TransactionView,
    r: Result<Response, Error>,
) -> bool {
    let (checked, grant) = grant_checked(config, before, request, now);
    match grant {
        Err(e) => r == Err::<Response, Error>(e) && after == checked,
        Ok(Grant::AuthorizationCode) => {
            &&& r matches Ok(response)
            &&& is_token(response.access_token@)
            &&& response.refresh_token matches Some(token)
            &&& is_token(token@)
            &&& (after, response@) == tokens_issued(
                checked,
                Grant::AuthorizationCode,
                now,
                response.access_token@,
                token@,
            )
        },
        Ok(Grant::RefreshToken) => {
            &&& r matches Ok(response)
            &&& is_token(response.access_token@)
            &&& (after, response@) == tokens_issued(
                checked,
                Grant::RefreshToken,
                now,
                response.access_token@,
                Seq::empty(),
            )
        },
    }
}

/// Exchanges a grant now, for tokens that are generated on the way.
///
/// There is a time, within the range of the clock, for which the outcome is
/// what [`is_exchange_at`] says. A request that does not name the configured
/// client with its secret is refused whatever the time, and leaves the
/// transaction as it was.
pub fn exchange(config: &Config, tx: &mut Transaction, request: &Request) -> (r: Result<
    Response,
    Error,
>)
    ensures
        !client_matches(config@, request@) ==> r == Err::<Response, Error>(Error::InvalidGrant)
            && final(tx)@ == old(tx)@,
        exists|now: int|
            -CLOCK_RANGE <= now <= CLOCK_RANGE && #[trigger] is_exchange_at(
                config@,
                old(tx)@,
                request@,
                now,
                final(tx)@,
                r,
            ),
{
    let now = unix_now();
    let ghost before = tx@;
    let r = match check_grant(config, tx, request, now) {
        Err(e) => Err(e),
        Ok(grant) => {
            let access_token = generate_token();
            let refresh_token = match grant {
                Grant::AuthorizationCode => generate_token(),
                Grant::RefreshToken => String::new(),
            };
            Ok(issue_tokens(tx, grant, now, access_token, refresh_token))
        },
    };
    assert(is_exchange_at(config@, before, request@, now as int, tx@, r));
    r
}

/// A request with a wrong client secret is refused, whatever the code, the
/// store and the time, and no token is issued: the transaction is left as it
/// was, without a write and without a commit.
pub proof fn wrong_secret_is_always_refused(
    config: ConfigView,
    tx: TransactionView,
    request: RequestView,
    now: int,
    access_token: Seq<char>,
    refresh_token: Seq<char>,
)
    requires
        request.client_secret != config.oauth2_client_secret,
    ensures
        exchanged(config, tx, request, now, access_token, refresh_token) == (
            tx,
            Err::<ResponseView, Error>(Error::InvalidGrant),
        ),
{
}

} // verus!
