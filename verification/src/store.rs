//! The persisted state and the transactions that read and change it.
//!
//! The relational store keeps five tables: three of tokens, and two that
//! hold at most one row each, the colour of the light and whether it is
//! switched off. A [`Store`] holds their rows as plain values. A
//! [`Transaction`] works on a copy of them and records every write as a
//! [`Statement`], in the order in which it was issued, for the relational
//! store to carry out. What a transaction wrote lasts only if it was
//! committed.

use vstd::prelude::*;
use crate::device::Rgb;

verus! {

/// A token with the time, in seconds since the Unix epoch, after which it is
/// no longer valid.
#[derive(Debug, Clone, PartialEq, Eq)]
pub struct TokenRow {
    pub token: String,
    pub expiry: i64,
}

impl View for TokenRow {
    type V = (Seq<char>, int);

    open spec fn view(&self) -> (Seq<char>, int) {
        (self.token@, self.expiry as int)
    }
}

/// The rows of a table of tokens with an expiry, in the order of insertion.
pub open spec fn rows_view(rows: Seq<TokenRow>) -> Seq<(Seq<char>, int)> {
    rows.map_values(|row: TokenRow| row@)
}

/// The rows of a table of tokens without an expiry, in the order of insertion.
pub open spec fn names_view(names: Seq<String>) -> Seq<Seq<char>> {
    names.map_values(|name: String| name@)
}

/// The rows of the five tables.
#[derive(Debug, Clone, PartialEq, Eq)]
pub struct Store {
    /// Codes handed out at login, to be exchanged for a bearer token.
    pub exchange_tokens: Vec<TokenRow>,
    /// Tokens that authorize a fulfilment request.
    pub bearer_tokens: Vec<TokenRow>,
    /// Tokens that mint new bearer tokens. They do not expire.
    pub refresh_tokens: Vec<String>,
    /// The colour of the light, once one was stored.
    pub color: Option<Rgb>,
    /// Whether the light is switched off, once that was stored.
    pub off: Option<bool>,
}

/// The rows of the five tables: each token as its text with its expiry, in
/// the order of insertion.
pub struct StoreView {
    pub exchange_tokens: Seq<(Seq<char>, int)>,
    pub bearer_tokens: Seq<(Seq<char>, int)>,
    pub refresh_tokens: Seq<Seq<char>>,
    pub color: Option<Rgb>,
    pub off: Option<bool>,
}

impl View for Store {
    type V = StoreView;

    open spec fn view(&self) -> StoreView {
        StoreView {
            exchange_tokens: rows_view(self.exchange_tokens@),
            bearer_tokens: rows_view(self.bearer_tokens@),
            refresh_tokens: names_view(self.refresh_tokens@),
            color: self.color,
            off: self.off,
        }
    }
}

/// A write to one of the tables.
#[derive(Debug, Clone, PartialEq, Eq)]
pub enum Statement {
    InsertExchangeToken { token: String, expiry: i64 },
    DeleteExchangeToken { token: String },
    InsertBearerToken { token: String, expiry: i64 },
    DeleteBearerToken { token: String },
    InsertRefreshToken { token: String },
    DeleteRefreshToken { token: String },
    /// Stores the first colour.
    InsertColor { rgb: Rgb },
    /// Replaces the stored colour.
    UpdateColor { rgb: Rgb },
    /// Stores for the first time whether the light is switched off.
    InsertState { off: bool },
    /// Replaces the stored answer to whether the light is switched off.
    UpdateState { off: bool },
}

/// A write to one of the tables, with the token as its text.
pub enum StatementView {
    InsertExchangeToken { token: Seq<char>, expiry: int },
    DeleteExchangeToken { token: Seq<char> },
    InsertBearerToken { token: Seq<char>, expiry: int },
    DeleteBearerToken { token: Seq<char> },
    InsertRefreshToken { token: Seq<char> },
    DeleteRefreshToken { token: Seq<char> },
    InsertColor { rgb: Rgb },
    UpdateColor { rgb: Rgb },
    InsertState { off: bool },
    UpdateState { off: bool },
}

impl View for Statement {
    type V = StatementView;

    open spec fn view(&self) -> StatementView {
        match self {
            Statement::InsertExchangeToken { token, expiry } => StatementView::InsertExchangeToken {
                token: token@,
                expiry: *expiry as int,
            },
            Statement::DeleteExchangeToken { token } => StatementView::DeleteExchangeToken {
                token: token@,
            },
            Statement::InsertBearerToken { token, expiry } => StatementView::InsertBearerToken {
                token: token@,
                expiry: *expiry as int,
            },
            Statement::DeleteBearerToken { token } => StatementView::DeleteBearerToken {
                token: token@,
            },
            Statement::InsertRefreshToken { token } => StatementView::InsertRefreshToken {
                token: token@,
            },
            Statement::DeleteRefreshToken { token } => StatementView::DeleteRefreshToken {
                token: token@,
            },
            Statement::InsertColor { rgb } => StatementView::InsertColor { rgb: *rgb },
            Statement::UpdateColor { rgb } => StatementView::UpdateColor { rgb: *rgb },
            Statement::InsertState { off } => StatementView::InsertState { off: *off },
            Statement::UpdateState { off } => StatementView::UpdateState { off: *off },
        }
    }
}

/// The writes of a transaction, in the order in which they were issued.
pub open spec fn statements_view(statements: Seq<Statement>) -> Seq<StatementView> {
    statements.map_values(|statement: Statement| statement@)
}

/// A unit of work on the store.
#[derive(Debug, Clone, PartialEq, Eq)]
pub struct Transaction {
    /// The rows as this transaction sees them: those it began with, changed
    /// by its own writes.
    pub store: Store,
    /// The writes issued so far.
    pub statements: Vec<Statement>,
    /// Whether the writes are to last.
    pub committed: bool,
}

/// A unit of work: the rows as it sees them, its writes in order, and
/// whether they are to last.
pub struct TransactionView {
    pub store: StoreView,
    pub statements: Seq<StatementView>,
    pub committed: bool,
}

impl View for Transaction {
    type V = TransactionView;

    open spec fn view(&self) -> TransactionView {
        TransactionView {
            store: self.store@,
            statements: statements_view(self.statements@),
            committed: self.committed,
        }
    }
}

/// A transaction that has just begun on the given rows.
pub open spec fn begun(store: StoreView) -> TransactionView {
    TransactionView { store, statements: Seq::empty(), committed: false }
}

/// The transaction after one more write: the rows as given, the statement
/// recorded behind the earlier ones.
pub open spec fn wrote(
    tx: TransactionView,
    store: StoreView,
    statement: StatementView,
) -> TransactionView {
    TransactionView { store, statements: tx.statements.push(statement), committed: tx.committed }
}

/// The transaction, committed.
pub open spec fn committed(tx: TransactionView) -> TransactionView {
    TransactionView { committed: true, ..tx }
}

/// The rows that are in the store once a transaction that began on `before`
/// has ended as `tx`: those that the transaction left if it was committed,
/// else those it began with.
pub open spec fn persisted(before: StoreView, tx: TransactionView) -> StoreView {
    if tx.committed {
        tx.store
    } else {
        before
    }
}

impl Store {
    /// A store whose tables are all empty.
    pub fn new() -> (store: Self)
        ensures
            store@ == (StoreView {
                exchange_tokens: Seq::empty(),
                bearer_tokens: Seq::empty(),
                refresh_tokens: Seq::empty(),
                color: None,
                off: None,
            }),
    {
        let store = Store {
            exchange_tokens: Vec::new(),
            bearer_tokens: Vec::new(),
            refresh_tokens: Vec::new(),
            color: None,
            off: None,
        };
        assert(store@.exchange_tokens =~= Seq::empty());
        assert(store@.bearer_tokens =~= Seq::empty());
        assert(store@.refresh_tokens =~= Seq::empty());
        store
    }
}

impl Transaction {
    /// Begins a transaction on the given rows.
    pub fn begin(store: Store) -> (tx: Self)
        ensures
            tx@ == begun(store@),
    {
        let tx = Transaction { store, statements: Vec::new(), committed: false };
        assert(tx@.statements =~= Seq::empty());
        tx
    }

    /// Commits the transaction: its writes are to last.
    pub fn commit(&mut self)
        ensures
            final(self)@ == committed(old(self)@),
    {
        self.committed = true;
    }

    /// Ends the transaction and gives the rows that are in the store after
    /// it, where `before` holds those it began with.
    pub fn end(self, before: Store) -> (after: Store)
        ensures
            after@ == persisted(before@, self@),
    {
        if self.committed {
            self.store
        } else {
            before
        }
    }

    /// Records a write behind the earlier ones.
    pub(crate) fn record(&mut self, statement: Statement)
        ensures
            final(self).store == old(self).store,
            final(self).committed == old(self).committed,
            final(self)@ == wrote(old(self)@, old(self)@.store, statement@),
    {
        self.statements.push(statement);
        assert(statements_view(self.statements@) =~= statements_view(old(self).statements@).push(
            statement@,
        ));
    }
}

} // verus!
