//! The client capability: one backend operation, `batch`, and two derived from it.
use vstd::prelude::*;
use crate::error::ClientError;
use crate::statement::Statement;

verus! {

/// The SQL texts of `stmts`, in order.
pub open spec fn texts(stmts: Seq<Statement>) -> Seq<Seq<char>> {
    stmts.map_values(|s: Statement| s@)
}

/// The statement list that a transaction over `stmts` sends: `BEGIN`, `stmts`, `END`.
pub open spec fn framed(stmts: Seq<Seq<char>>) -> Seq<Seq<char>> {
    seq!["BEGIN"@] + stmts + seq!["END"@]
}

/// What a transaction hands back from the results of its framed batch:
/// everything but the first and the last result.
pub open spec fn unframed<Q>(results: Seq<Q>) -> Seq<Q> {
    if results.len() < 2 {
        Seq::empty()
    } else {
        results.subrange(1, results.len() - 1)
    }
}

/// Wraps `stmts` between a `BEGIN` and an `END` statement.
pub fn transaction_statements(stmts: Vec<Statement>) -> (r: Vec<Statement>)
    ensures
        texts(r@) == framed(texts(stmts@)),
{
    let mut r: Vec<Statement> = Vec::new();
    r.push(Statement::new("BEGIN"));
    let mut rest = stmts;
    r.append(&mut rest);
    r.push(Statement::new("END"));
    assert(texts(r@) =~= framed(texts(stmts@)));
    r
}

/// Drops the results of the `BEGIN` and `END` statements that frame a transaction.
pub fn transaction_results<Q>(results: Vec<Q>) -> (r: Vec<Q>)
    ensures
        r@ == unframed(results@),
{
    let mut r = results;
    if r.len() < 2 {
        Vec::new()
    } else {
        r.remove(0);
        r.pop();
        assert(r@ =~= unframed(results@));
        r
    }
}

/// The capabilities of a database client: executing statements, batches, transactions.
pub trait DatabaseClient {
    /// The parsed outcome of one statement.
    type QueryResult;

    /// The outcomes that `batch` may have on statements with the SQL texts `stmts`.
    spec fn batch_outcome(&self, stmts: Seq<Seq<char>>, r: Result<Seq<Self::QueryResult>, ClientError>) -> bool;

    /// Executes a batch of statements, each in its own transaction unless they are
    /// wrapped in `BEGIN` and `END`; returns one result per statement, in order.
    fn batch(&self, stmts: Vec<Statement>) -> (r: Result<Vec<Self::QueryResult>, ClientError>)
        ensures
            match r {
                Ok(results) => self.batch_outcome(texts(stmts@), Ok(results@)) && results.len() == stmts.len(),
                Err(e) => self.batch_outcome(texts(stmts@), Err(e)),
            },
    ;

    /// Executes a single statement: a batch of one, whose one result is returned.
    fn execute(&self, stmt: Statement) -> (r: Result<Self::QueryResult, ClientError>)
        ensures
            match r {
                Ok(q) => exists|results: Seq<Self::QueryResult>|
                    #[trigger] self.batch_outcome(seq![stmt@], Ok(results)) && results.len() == 1 && results[0] == q,
                Err(e) => self.batch_outcome(seq![stmt@], Err(e)),
            },
    {
        let ghost text = stmt@;
        let mut stmts: Vec<Statement> = Vec::new();
        stmts.push(stmt);
        assert(texts(stmts@) =~= seq![text]);
        match self.batch(stmts) {
            Ok(mut results) => {
                let ghost all = results@;
                let q = results.remove(0);
                assert(self.batch_outcome(seq![text], Ok(all)));
                Ok(q)
            },
            Err(e) => Err(e),
        }
    }

    /// Executes `stmts` as one transaction: the batch `BEGIN`, `stmts`, `END`, of whose
    /// results those of `stmts` are returned. Nested transactions are not supported.
    fn transaction(&self, stmts: Vec<Statement>) -> (r: Result<Vec<Self::QueryResult>, ClientError>)
        ensures
            match r {
                Ok(results) => exists|all: Seq<Self::QueryResult>|
                    #[trigger] self.batch_outcome(framed(texts(stmts@)), Ok(all)) && all.len() == stmts.len() + 2
                        && results@ == all.subrange(1, all.len() - 1),
                Err(e) => self.batch_outcome(framed(texts(stmts@)), Err(e)),
            },
    {
        let ghost sent = framed(texts(stmts@));
        let ghost n = stmts@.len();
        let wrapped = transaction_statements(stmts);
        assert(wrapped@.len() == texts(wrapped@).len());
        assert(wrapped@.len() == n + 2);
        match self.batch(wrapped) {
            Ok(results) => {
                let ghost all = results@;
                assert(all.len() >= 2);
                let r = transaction_results(results);
                assert(self.batch_outcome(sent, Ok(all)));
                Ok(r)
            },
            Err(e) => Err(e),
        }
    }
}

/// A client over one of the backend kinds, chosen at construction; every call is
/// forwarded to it.
pub enum GenericClient<L, R, W, S> {
    /// A local, file-backed database.
    Local(L),
    /// A remote database reached over HTTP.
    Reqwest(R),
    /// A database reached from an edge-worker runtime.
    Workers(W),
    /// A database reached from a Spin runtime.
    Spin(S),
}

impl<L, R, W, S> DatabaseClient for GenericClient<L, R, W, S> where
    L: DatabaseClient,
    R: DatabaseClient<QueryResult = L::QueryResult>,
    W: DatabaseClient<QueryResult = L::QueryResult>,
    S: DatabaseClient<QueryResult = L::QueryResult>,
 {
    type QueryResult = L::QueryResult;

    /// The outcomes of the active backend.
    open spec fn batch_outcome(&self, stmts: Seq<Seq<char>>, r: Result<Seq<L::QueryResult>, ClientError>) -> bool {
        match self {
            GenericClient::Local(l) => l.batch_outcome(stmts, r),
            GenericClient::Reqwest(c) => c.batch_outcome(stmts, r),
            GenericClient::Workers(w) => w.batch_outcome(stmts, r),
            GenericClient::Spin(s) => s.batch_outcome(stmts, r),
        }
    }

    fn batch(&self, stmts: Vec<Statement>) -> (r: Result<Vec<L::QueryResult>, ClientError>) {
        match self {
            GenericClient::Local(l) => l.batch(stmts),
            GenericClient::Reqwest(c) => c.batch(stmts),
            GenericClient::Workers(w) => w.batch(stmts),
            GenericClient::Spin(s) => s.batch(stmts),
        }
    }
}

} // verus!
