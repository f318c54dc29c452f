//! The login: the configured user proves who they are and is sent back to
//! the client with a code, which the client exchanges for tokens.

use vstd::prelude::*;
use crate::dal::{exchange_token_inserted, insert_exchange_token};
use crate::data::{Config, ConfigView};
use crate::error::Error;
use crate::store::{committed, Transaction, TransactionView};
use crate::tokens::{generate_token, is_token, unix_now, CLOCK_RANGE};

verus! {

/// The number of seconds for which a code is valid: ten minutes.
pub const CODE_LIFETIME: i64 = 600;

/// What the client asks for, in the query of the request.
#[derive(Debug, Clone, PartialEq, Eq)]
pub struct Query {
    pub client_id: String,
    pub redirect_uri: String,
    pub response_type: String,
    pub state: String,
}

/// What the user enters.
#[derive(Debug, Clone, PartialEq, Eq)]
pub struct Request {
    pub username: String,
    pub password: String,
}

/// Where the user is sent back to.
#[derive(Debug, Clone, PartialEq, Eq)]
pub struct Response {
    pub redirect_uri: String,
}

/// What the client asks for, as sequences of characters.
pub struct QueryView {
    pub client_id: Seq<char>,
    pub redirect_uri: Seq<char>,
    pub response_type: Seq<char>,
    pub state: Seq<char>,
}

impl View for Query {
    type V = QueryView;

    open spec fn view(&self) -> QueryView {
        QueryView {
            client_id: self.client_id@,
            redirect_uri: self.redirect_uri@,
            response_type: self.response_type@,
            state: self.state@,
        }
    }
}

/// What the user enters, as sequences of characters.
pub struct RequestView {
    pub username: Seq<char>,
    pub password: Seq<char>,
}

impl View for Request {
    type V = RequestView;

    open spec fn view(&self) -> RequestView {
        RequestView { username: self.username@, password: self.password@ }
    }
}

/// Whether a login is in order: the query names the configured client and
/// asks for a code, and the user is the configured one with their password.
pub open spec fn may_log_in(config: ConfigView, query: QueryView, payload: RequestView) -> bool {
    &&& query.client_id == config.oauth2_client_id
    &&& query.response_type == "code"@
    &&& payload.username == config.login_username
    &&& payload.password == config.login_password
}

/// The address that the user is sent back to: the client's address with the
/// code and the client's state in its query.
pub open spec fn redirect_of(query: QueryView, code: Seq<char>) -> Seq<char> {
    query.redirect_uri + "?code="@ + code + "&state="@ + query.state
}

/// What a login comes to at the time `now`, where `code` is the fresh token
/// at hand: the transaction that it leaves and the address to send the user
/// back to. A login that is in order stores the code with an expiry ten
/// minutes after `now` and commits; another is unauthorized and leaves the
/// transaction as it was.
pub open spec fn logged_in(
    config: ConfigView,
    tx: TransactionView,
    query: QueryView,
    payload: RequestView,
    now: int,
    code: Seq<char>,
) -> (TransactionView, Result<Seq<char>, Error>) {
    if may_log_in(config, query, payload) {
        (
            committed(exchange_token_inserted(tx, code, now + CODE_LIFETIME)),
            Ok(redirect_of(query, code)),
        )
    } else {
        (tx, Err(Error::Unauthorized))
    }
}

/// Whether a login is in order.
pub fn check_login(config: &Config, query: &Query, payload: &Request) -> (r: Result<(), Error>)
    ensures
        r == if may_log_in(config@, query@, payload@) {
            Ok::<(), Error>(())
        } else {
            Err::<(), Error>(Error::Unauthorized)
        },
{
    if query.client_id != config.oauth2_client_id {
        return Err(Error::Unauthorized);
    }
    if query.response_type != String::from_str("code") {
        return Err(Error::Unauthorized);
    }
    if payload.username != config.login_username {
        return Err(Error::Unauthorized);
    }
    if payload.password != config.login_password {
        return Err(Error::Unauthorized);
    }
    Ok(())
}

/// Stores the code with its expiry, commits, and gives the address to send
/// the user back to.
pub fn grant_code(tx: &mut Transaction, query: &Query, now: i64, code: String) -> (response:
    Response)
    requires
        now + CODE_LIFETIME <= i64::MAX,
    ensures
        final(tx)@ == committed(exchange_token_inserted(old(tx)@, code@, now + CODE_LIFETIME)),
        response.redirect_uri@ == redirect_of(query@, code@),
{
    insert_exchange_token(tx, code.as_str(), now + CODE_LIFETIME);
    tx.commit();
    let mut redirect_uri = query.redirect_uri.clone();
    redirect_uri.append("?code=");
    redirect_uri.append(code.as_str());
    redirect_uri.append("&state=");
    redirect_uri.append(query.state.as_str());
    Response { redirect_uri }
}

/// Logs the user in at the time `now`, with the fresh token at hand.
///
/// The transaction and the answer are what [`logged_in`] says.
pub fn login_at(
    config: &Config,
    tx: &mut Transaction,
    query: &Query,
    payload: &Request,
    now: i64,
    code: String,
) -> (r: Result<Response, Error>)
    requires
        now + CODE_LIFETIME <= i64::MAX,
    ensures
        ({
            let (after, reply) = logged_in(
                config@,
                old(tx)@,
                query@,
                payload@,
                now as int,
                code@,
            );
            &&& final(tx)@ == after
            &&& match r {
                Ok(response) => reply == Ok::<Seq<char>, Error>(response.redirect_uri@),
                Err(e) => reply == Err::<Seq<char>, Error>(e),
            }
        }),
{
    match check_login(config, query, payload) {
        Err(e) => Err(e),
        Ok(()) => Ok(grant_code(tx, query, now, code)),
    }
}

/// Whether a login that found the transaction as `before` and left it as
/// `after`, with the answer `r`, is what logging in at the time `now` with
/// the code `code` comes to.
pub open spec fn is_login_at(
    config: ConfigView,
    before: TransactionView,
    query: QueryView,
    payload: RequestView,
    now: int,
    code: Seq<char>,
    after: TransactionView,
    r: Result<Response, Error>,
) -> bool {
    let (left, reply) = logged_in(config, before, query, payload, now, code);
    &&& after == left
    &&& match r {
        Ok(response) => reply == Ok::<Seq<char>, Error>(response.redirect_uri@),
        Err(e) => reply == Err::<Seq<char>, Error>(e),
    }
}

/// Logs the user in now, with a code that is generated on the way.
///
/// A login that is not in order is unauthorized and leaves the transaction
/// as it was. For one that is in order there are a time, within the range of
/// the clock, and a code in the form of a token for which the outcome is
/// what [`logged_in`] says.
pub fn login(config: &Config, tx: &mut Transaction, query: &Query, payload: &Request) -> (r:
    Result<Response, Error>)
    ensures
        !may_log_in(config@, query@, payload@) ==> r == Err::<Response, Error>(Error::Unauthorized)
            && final(tx)@ == old(tx)@,
        may_log_in(config@, query@, payload@) ==> exists|now: int, code: Seq<char>|
            -CLOCK_RANGE <= now <= CLOCK_RANGE && is_token(code) && #[trigger] is_login_at(
                config@,
                old(tx)@,
                query@,
                payload@,
                now,
                code,
                final(tx)@,
                r,
            ),
{
    let ghost before = tx@;
    match check_login(config, query, payload) {
        Err(e) => Err(e),
        Ok(()) => {
            let code = generate_token();
            let now = unix_now();
            let ghost text = code@;
            let r = Ok(grant_code(tx, query, now, code));
            assert(is_login_at(config@, before, query@, payload@, now as int, text, tx@, r));
            r
        },
    }
}

} // verus!
