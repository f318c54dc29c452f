//! The authorization that every fulfilment request needs.
//!
//! A request is let through if its authorization header carries a bearer
//! token that the store knows and that has not expired. A token that has
//! expired is removed on the way, so that the store does not keep it.

use vstd::prelude::*;
use vstd::utf8::is_ascii_chars;
use crate::dal::{
    bearer_token_removed, first_expiry, get_bearer_token, remove_bearer_token,
    removed_token_is_unknown, rows_without,
};
use crate::error::Error;
use crate::store::{begun, committed, persisted, StoreView, Transaction, TransactionView};
use crate::tokens::{unix_now, CLOCK_RANGE};

verus! {

/// The mark of a request that is authorized. It carries nothing.
#[derive(Debug, Clone, Copy, PartialEq, Eq, Structural)]
pub struct Auth;

/// What an authorization header begins with where it carries a bearer token.
pub open spec fn bearer_prefix() -> Seq<char> {
    "Bearer "@
}

/// Whether the prefix stands in the text at the given place.
pub open spec fn prefix_at(text: Seq<char>, at: int) -> bool {
    &&& 0 <= at
    &&& at + bearer_prefix().len() <= text.len()
    &&& text.subrange(at, at + bearer_prefix().len()) == bearer_prefix()
}

/// Whether the prefix stands in the text at the given place and nowhere
/// behind it.
pub open spec fn last_prefix_at(text: Seq<char>, at: int) -> bool {
    &&& prefix_at(text, at)
    &&& forall|later: int| at < later ==> !prefix_at(text, later)
}

/// The bearer token that an authorization header carries, if it carries
/// one: the header is ASCII text and begins with the prefix, and the token is
/// what follows the last place at which the prefix stands.
pub open spec fn bearer_of(header: Seq<char>) -> Option<Seq<char>> {
    if is_ascii_chars(header) && prefix_at(header, 0) {
        let at = choose|at: int| last_prefix_at(header, at);
        Some(header.subrange(at + bearer_prefix().len(), header.len() as int))
    } else {
        None
    }
}

/// What authorizing a request comes to at the time `now`: the transaction that it leaves,
/// and whether the request is let through.
///
/// A request without a header, with a header that carries no bearer token,
/// or with a token that the store does not know is unauthorized, and the
/// transaction stays as it was. A request with a token past its expiry is
/// unauthorized as well; the token is removed, for good. A request with a
/// token that is still valid is let through, and the transaction is
/// committed although it wrote nothing.
pub open spec fn authorized(tx: TransactionView, header: Option<Seq<char>>, now: int) -> (
    TransactionView,
    Result<Auth, Error>,
) {
    match header {
        None => (tx, Err(Error::Unauthorized)),
        Some(text) => match bearer_of(text) {
            None => (tx, Err(Error::Unauthorized)),
            Some(token) => match first_expiry(tx.store.bearer_tokens, token) {
                None => (tx, Err(Error::Unauthorized)),
                Some(expiry) => if now > expiry {
                    (committed(bearer_token_removed(tx, token)), Err(Error::Unauthorized))
                } else {
                    (committed(tx), Ok(Auth))
                },
            },
        },
    }
}

/// The text of an optional header.
pub open spec fn header_text(header: Option<&str>) -> Option<Seq<char>> {
    match header {
        Some(text) => Some(text@),
        None => None,
    }
}

fn prefix_stands_at(text: &str, at: usize) -> (stands: bool)
    requires
        text.is_ascii(),
        at + bearer_prefix().len() <= text@.len() <= usize::MAX,
    ensures
        stands == prefix_at(text@, at as int),
{
    proof {
        reveal_strlit("Bearer ");
    }
    let part = String::from_str(text.substring_ascii(at, at + 7));
    part == String::from_str("Bearer ")
}

/// The bearer token that an authorization header carries, if it carries one.
pub fn bearer_token(header: &str) -> (token: Option<String>)
    ensures
        match token {
            Some(text) => bearer_of(header@) == Some(text@),
            None => bearer_of(header@) is None,
        },
{
    proof {
        reveal_strlit("Bearer ");
    }
    if !header.is_ascii() {
        return None;
    }
    let len = header.unicode_len();
    if len < 7 {
        return None;
    }
    if !prefix_stands_at(header, 0) {
        return None;
    }
    let mut at: usize = len - 7;
    while !prefix_stands_at(header, at)
        invariant
            header.is_ascii(),
            len == header@.len(),
            bearer_prefix().len() == 7,
            at + 7 <= len,
            prefix_at(header@, 0),
            forall|later: int| at < later ==> !prefix_at(header@, later),
        decreases at,
    {
        at -= 1;
    }
    assert(last_prefix_at(header@, at as int));
    Some(String::from_str(header.substring_ascii(at + 7, len)))
}

impl Auth {
    /// Decides at the time `now` whether a request with the given
    /// authorization header is let through.
    ///
    /// The transaction and the answer are what [`authorized`] says.
    pub fn from_header_at(tx: &mut Transaction, header: Option<&str>, now: i64) -> (r: Result<
        Auth,
        Error,
    >)
        ensures
            (final(tx)@, r) == authorized(old(tx)@, header_text(header), now as int),
    {
        let text = match header {
            Some(text) => text,
            None => {
                return Err(Error::Unauthorized);
            },
        };
        let token = match bearer_token(text) {
            Some(token) => token,
            None => {
                return Err(Error::Unauthorized);
            },
        };
        let expiry = match get_bearer_token(tx, token.as_str()) {
            Some(expiry) => expiry,
            None => {
                return Err(Error::Unauthorized);
            },
        };
        if now > expiry {
            remove_bearer_token(tx, token.as_str());
            tx.commit();
            return Err(Error::Unauthorized);
        }
        tx.commit();
        Ok(Auth)
    }

    /// Decides now whether a request with the given authorization header is
    /// let through.
    ///
    /// There is a time, within the range of the clock, for which the
    /// transaction and the answer are what [`authorized`] says. A request
    /// whose header carries no bearer token is unauthorized whatever the
    /// time, and leaves the transaction as it was.
    pub fn from_request(tx: &mut Transaction, header: Option<&str>) -> (r: Result<Auth, Error>)
        ensures
            (header_text(header) matches Some(text) ==> bearer_of(text) is None) ==> r == Err::<
                Auth,
                Error,
            >(Error::Unauthorized) && final(tx)@ == old(tx)@,
            exists|now: int|
                -CLOCK_RANGE <= now <= CLOCK_RANGE && (final(tx)@, r) == #[trigger] authorized(
                    old(tx)@,
                    header_text(header),
                    now,
                ),
    {
        Auth::from_header_at(tx, header, unix_now())
    }
}

/// A bearer token past its expiry is refused, and the store does not hold it
/// afterwards. The same request is therefore refused again, at whatever
/// time it comes, and then changes nothing.
pub proof fn expired_token_is_refused_for_good(
    store: StoreView,
    header: Seq<char>,
    now: int,
    later: int,
)
    requires
        bearer_of(header) matches Some(token) && (first_expiry(store.bearer_tokens, token)
            matches Some(expiry) && now > expiry),
    ensures
        ({
            let token = bearer_of(header).unwrap();
            let (first, refused) = authorized(begun(store), Some(header), now);
            let left = persisted(store, first);
            let (second, refused_again) = authorized(begun(left), Some(header), later);
            &&& refused == Err::<Auth, Error>(Error::Unauthorized)
            &&& first_expiry(left.bearer_tokens, token) is None
            &&& left.bearer_tokens == rows_without(store.bearer_tokens, token)
            &&& refused_again == Err::<Auth, Error>(Error::Unauthorized)
            &&& persisted(left, second) == left
        }),
{
    let token = bearer_of(header).unwrap();
    removed_token_is_unknown(store.bearer_tokens, token);
}

} // verus!
