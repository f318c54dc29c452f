//! Reads and writes of the five tables, inside a transaction.
//!
//! The two device tables hold at most one row: a write replaces the row if
//! there is one and inserts it if there is none. The token tables are keyed
//! by the token's text. Nothing checks that a new token differs from those
//! already stored, so a table may hold a token more than once: a read then
//! answers with the row stored first, and a removal takes every such row.

use vstd::prelude::*;
use crate::device::Rgb;
use crate::store::{
    rows_view, names_view, wrote, Statement, StatementView, StoreView, TokenRow, Transaction,
    TransactionView,
};

verus! {

/// The transaction after the colour has been stored.
pub open spec fn color_set(tx: TransactionView, rgb: Rgb) -> TransactionView {
    wrote(
        tx,
        StoreView { color: Some(rgb), ..tx.store },
        if tx.store.color is Some {
            StatementView::UpdateColor { rgb }
        } else {
            StatementView::InsertColor { rgb }
        },
    )
}

/// Whether the light is on, as far as the transaction sees it stored.
pub open spec fn power_of(tx: TransactionView) -> Option<bool> {
    match tx.store.off {
        Some(off) => Some(!off),
        None => None,
    }
}

/// The transaction after it has been stored whether the light is on.
pub open spec fn power_set(tx: TransactionView, on: bool) -> TransactionView {
    wrote(
        tx,
        StoreView { off: Some(!on), ..tx.store },
        if tx.store.off is Some {
            StatementView::UpdateState { off: !on }
        } else {
            StatementView::InsertState { off: !on }
        },
    )
}

/// The expiry of the first row that holds the token, if any row does.
pub open spec fn first_expiry(rows: Seq<(Seq<char>, int)>, token: Seq<char>) -> Option<int>
    decreases rows.len(),
{
    if rows.len() == 0 {
        None
    } else if rows[0].0 == token {
        Some(rows[0].1)
    } else {
        first_expiry(rows.drop_first(), token)
    }
}

/// Whether a row holds another token than the given one.
pub open spec fn holds_another(token: Seq<char>) -> spec_fn((Seq<char>, int)) -> bool {
    |row: (Seq<char>, int)| row.0 != token
}

/// Whether a name is another than the given token.
pub open spec fn is_another(token: Seq<char>) -> spec_fn(Seq<char>) -> bool {
    |name: Seq<char>| name != token
}

/// The rows that do not hold the token.
pub open spec fn rows_without(rows: Seq<(Seq<char>, int)>, token: Seq<char>) -> Seq<
    (Seq<char>, int),
> {
    rows.filter(holds_another(token))
}

/// The names other than the token.
pub open spec fn names_without(names: Seq<Seq<char>>, token: Seq<char>) -> Seq<Seq<char>> {
    names.filter(is_another(token))
}

/// The transaction after a code has been stored.
pub open spec fn exchange_token_inserted(
    tx: TransactionView,
    token: Seq<char>,
    expiry: int,
) -> TransactionView {
    wrote(
        tx,
        StoreView { exchange_tokens: tx.store.exchange_tokens.push((token, expiry)), ..tx.store },
        StatementView::InsertExchangeToken { token, expiry },
    )
}

/// The transaction after a code has been removed.
pub open spec fn exchange_token_removed(tx: TransactionView, token: Seq<char>) -> TransactionView {
    wrote(
        tx,
        StoreView { exchange_tokens: rows_without(tx.store.exchange_tokens, token), ..tx.store },
        StatementView::DeleteExchangeToken { token },
    )
}

/// The transaction after a bearer token has been stored.
pub open spec fn bearer_token_inserted(
    tx: TransactionView,
    token: Seq<char>,
    expiry: int,
) -> TransactionView {
    wrote(
        tx,
        StoreView { bearer_tokens: tx.store.bearer_tokens.push((token, expiry)), ..tx.store },
        StatementView::InsertBearerToken { token, expiry },
    )
}

/// The transaction after a bearer token has been removed.
pub open spec fn bearer_token_removed(tx: TransactionView, token: Seq<char>) -> TransactionView {
    wrote(
        tx,
        StoreView { bearer_tokens: rows_without(tx.store.bearer_tokens, token), ..tx.store },
        StatementView::DeleteBearerToken { token },
    )
}

/// The transaction after a refresh token has been stored.
pub open spec fn refresh_token_inserted(tx: TransactionView, token: Seq<char>) -> TransactionView {
    wrote(
        tx,
        StoreView { refresh_tokens: tx.store.refresh_tokens.push(token), ..tx.store },
        StatementView::InsertRefreshToken { token },
    )
}

/// The transaction after a refresh token has been removed.
pub open spec fn refresh_token_removed(tx: TransactionView, token: Seq<char>) -> TransactionView {
    wrote(
        tx,
        StoreView { refresh_tokens: names_without(tx.store.refresh_tokens, token), ..tx.store },
        StatementView::DeleteRefreshToken { token },
    )
}

/// The stored colour, if there is one.
pub fn get_rgb(tx: &Transaction) -> (rgb: Option<Rgb>)
    ensures
        rgb == tx@.store.color,
{
    tx.store.color
}

/// Stores the colour: replaces the row if there is one, inserts it if not.
pub fn set_rgb(tx: &mut Transaction, rgb: Rgb)
    ensures
        final(tx)@ == color_set(old(tx)@, rgb),
{
    let statement = if get_rgb(tx).is_some() {
        Statement::UpdateColor { rgb }
    } else {
        Statement::InsertColor { rgb }
    };
    tx.record(statement);
    tx.store.color = Some(rgb);
}

/// Whether the light is on, if that is stored.
pub fn get_state(tx: &Transaction) -> (on: Option<bool>)
    ensures
        on == power_of(tx@),
{
    match tx.store.off {
        Some(off) => Some(!off),
        None => None,
    }
}

/// Stores whether the light is on: replaces the row if there is one, inserts
/// it if not.
pub fn set_state(tx: &mut Transaction, on: bool)
    ensures
        final(tx)@ == power_set(old(tx)@, on),
{
    let statement = if get_state(tx).is_some() {
        Statement::UpdateState { off: !on }
    } else {
        Statement::InsertState { off: !on }
    };
    tx.record(statement);
    tx.store.off = Some(!on);
}

fn find_row(rows: &Vec<TokenRow>, token: &String) -> (expiry: Option<i64>)
    ensures
        match expiry {
            Some(e) => first_expiry(rows_view(rows@), token@) == Some(e as int),
            None => first_expiry(rows_view(rows@), token@) is None,
        },
{
    let ghost all = rows_view(rows@);
    let mut i: usize = 0;
    assert(all.skip(0) =~= all);
    while i < rows.len()
        invariant
            i <= rows.len(),
            all == rows_view(rows@),
            first_expiry(all, token@) == first_expiry(all.skip(i as int), token@),
        decreases rows.len() - i,
    {
        assert(all.skip(i as int).drop_first() =~= all.skip(i + 1));
        if rows[i].token == *token {
            return Some(rows[i].expiry);
        }
        i += 1;
    }
    None
}

fn keep_other_rows(rows: &Vec<TokenRow>, token: &String) -> (kept: Vec<TokenRow>)
    ensures
        rows_view(kept@) == rows_without(rows_view(rows@), token@),
{
    let ghost all = rows_view(rows@);
    let mut kept: Vec<TokenRow> = Vec::new();
    let mut i: usize = 0;
    proof {
        reveal(Seq::filter);
    }
    while i < rows.len()
        invariant
            i <= rows.len(),
            all == rows_view(rows@),
            rows_view(kept@) == rows_without(all.take(i as int), token@),
        decreases rows.len() - i,
    {
        proof {
            reveal(Seq::filter);
            assert(all.take(i + 1).drop_last() =~= all.take(i as int));
        }
        if rows[i].token != *token {
            let row = TokenRow { token: rows[i].token.clone(), expiry: rows[i].expiry };
            kept.push(row);
        }
        i += 1;
    }
    assert(all.take(rows.len() as int) =~= all);
    kept
}

fn find_name(names: &Vec<String>, token: &String) -> (found: bool)
    ensures
        found == names_view(names@).contains(token@),
{
    let mut i: usize = 0;
    while i < names.len()
        invariant
            i <= names.len(),
            forall|j: int| 0 <= j < i ==> (#[trigger] names_view(names@)[j]) != token@,
        decreases names.len() - i,
    {
        if names[i] == *token {
            assert(names_view(names@)[i as int] == token@);
            return true;
        }
        i += 1;
    }
    false
}

fn keep_other_names(names: &Vec<String>, token: &String) -> (kept: Vec<String>)
    ensures
        names_view(kept@) == names_without(names_view(names@), token@),
{
    let ghost all = names_view(names@);
    let mut kept: Vec<String> = Vec::new();
    let mut i: usize = 0;
    proof {
        reveal(Seq::filter);
    }
    while i < names.len()
        invariant
            i <= names.len(),
            all == names_view(names@),
            names_view(kept@) == names_without(all.take(i as int), token@),
        decreases names.len() - i,
    {
        proof {
            reveal(Seq::filter);
            assert(all.take(i + 1).drop_last() =~= all.take(i as int));
        }
        if names[i] != *token {
            kept.push(names[i].clone());
        }
        i += 1;
    }
    assert(all.take(names.len() as int) =~= all);
    kept
}

/// Stores a code with its expiry.
pub fn insert_exchange_token(tx: &mut Transaction, token: &str, expiry: i64)
    ensures
        final(tx)@ == exchange_token_inserted(old(tx)@, token@, expiry as int),
{
    tx.record(Statement::InsertExchangeToken { token: String::from_str(token), expiry });
    let ghost before = rows_view(tx.store.exchange_tokens@);
    let row = TokenRow { token: String::from_str(token), expiry };
    tx.store.exchange_tokens.push(row);
    assert(rows_view(tx.store.exchange_tokens@) =~= before.push((token@, expiry as int)));
}

/// The expiry of a code, if the code is stored.
pub fn get_exchange_token(tx: &Transaction, token: &str) -> (expiry: Option<i64>)
    ensures
        match expiry {
            Some(e) => first_expiry(tx@.store.exchange_tokens, token@) == Some(e as int),
            None => first_expiry(tx@.store.exchange_tokens, token@) is None,
        },
{
    let key = String::from_str(token);
    find_row(&tx.store.exchange_tokens, &key)
}

/// Removes a code.
pub fn remove_exchange_token(tx: &mut Transaction, token: &str)
    ensures
        final(tx)@ == exchange_token_removed(old(tx)@, token@),
{
    let key = String::from_str(token);
    let kept = keep_other_rows(&tx.store.exchange_tokens, &key);
    tx.record(Statement::DeleteExchangeToken { token: key });
    tx.store.exchange_tokens = kept;
}

/// Stores a bearer token with its expiry.
pub fn insert_bearer_token(tx: &mut Transaction, token: &str, expiry: i64)
    ensures
        final(tx)@ == bearer_token_inserted(old(tx)@, token@, expiry as int),
{
    tx.record(Statement::InsertBearerToken { token: String::from_str(token), expiry });
    let ghost before = rows_view(tx.store.bearer_tokens@);
    let row = TokenRow { token: String::from_str(token), expiry };
    tx.store.bearer_tokens.push(row);
    assert(rows_view(tx.store.bearer_tokens@) =~= before.push((token@, expiry as int)));
}

/// The expiry of a bearer token, if the token is stored.
pub fn get_bearer_token(tx: &Transaction, token: &str) -> (expiry: Option<i64>)
    ensures
        match expiry {
            Some(e) => first_expiry(tx@.store.bearer_tokens, token@) == Some(e as int),
            None => first_expiry(tx@.store.bearer_tokens, token@) is None,
        },
{
    let key = String::from_str(token);
    find_row(&tx.store.bearer_tokens, &key)
}

/// Removes a bearer token.
pub fn remove_bearer_token(tx: &mut Transaction, token: &str)
    ensures
        final(tx)@ == bearer_token_removed(old(tx)@, token@),
{
    let key = String::from_str(token);
    let kept = keep_other_rows(&tx.store.bearer_tokens, &key);
    tx.record(Statement::DeleteBearerToken { token: key });
    tx.store.bearer_tokens = kept;
}

/// Stores a refresh token.
pub fn insert_refresh_token(tx: &mut Transaction, token: &str)
    ensures
        final(tx)@ == refresh_token_inserted(old(tx)@, token@),
{
    tx.record(Statement::InsertRefreshToken { token: String::from_str(token) });
    let ghost before = names_view(tx.store.refresh_tokens@);
    tx.store.refresh_tokens.push(String::from_str(token));
    assert(names_view(tx.store.refresh_tokens@) =~= before.push(token@));
}

/// Whether a refresh token is stored.
pub fn get_refresh_token(tx: &Transaction, token: &str) -> (found: Option<()>)
    ensures
        found is Some <==> tx@.store.refresh_tokens.contains(token@),
{
    let key = String::from_str(token);
    if find_name(&tx.store.refresh_tokens, &key) {
        Some(())
    } else {
        None
    }
}

/// Removes a refresh token.
pub fn remove_refresh_token(tx: &mut Transaction, token: &str)
    ensures
        final(tx)@ == refresh_token_removed(old(tx)@, token@),
{
    let key = String::from_str(token);
    let kept = keep_other_names(&tx.store.refresh_tokens, &key);
    tx.record(Statement::DeleteRefreshToken { token: key });
    tx.store.refresh_tokens = kept;
}

/// A table from which a token was removed does not hold it any more.
pub proof fn removed_token_is_unknown(rows: Seq<(Seq<char>, int)>, token: Seq<char>)
    ensures
        first_expiry(rows_without(rows, token), token) is None,
{
    let kept = rows_without(rows, token);
    assert forall|i: int| 0 <= i < kept.len() implies (#[trigger] kept[i]).0 != token by {
        rows.lemma_filter_pred(holds_another(token), i);
    }
    absent_token_is_unknown(kept, token);
}

proof fn absent_token_is_unknown(rows: Seq<(Seq<char>, int)>, token: Seq<char>)
    requires
        forall|i: int| 0 <= i < rows.len() ==> (#[trigger] rows[i]).0 != token,
    ensures
        first_expiry(rows, token) is None,
    decreases rows.len(),
{
    if rows.len() > 0 {
        let rest = rows.drop_first();
        assert forall|i: int| 0 <= i < rest.len() implies (#[trigger] rest[i]).0 != token by {
            assert(rest[i] == rows[i + 1]);
        }
        absent_token_is_unknown(rest, token);
    }
}

} // verus!
