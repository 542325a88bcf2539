//! A statement text paired with its bound values and execution settings.

use vstd::prelude::*;
use crate::errors::{Misuse, QueryError};

verus! {

/// How many `?` placeholders `s` holds.
pub open spec fn marker_count(s: Seq<char>) -> nat
    decreases s.len(),
{
    if s.len() == 0 {
        0
    } else {
        marker_count(s.drop_last()) + if s.last() == '?' { 1nat } else { 0nat }
    }
}

/// Counts the `?` placeholders of a statement text.
pub fn count_markers(s: &str) -> (r: usize)
    ensures
        r == marker_count(s@),
{
    let n = s.unicode_len();
    let mut i: usize = 0;
    let mut count: usize = 0;
    while i < n
        invariant
            n == s@.len(),
            i <= n,
            count == marker_count(s@.take(i as int)),
            count <= i,
        decreases n - i,
    {
        let c = s.get_char(i);
        assert(s@.take(i + 1).drop_last() =~= s@.take(i as int));
        if c == '?' {
            count = count + 1;
        }
        i = i + 1;
    }
    assert(s@.take(n as int) =~= s@);
    count
}

/// The consistency level a statement asks of the store.
#[derive(Clone, Copy, Debug, PartialEq, Eq, Structural)]
pub enum Consistency {
    Any,
    One,
    Two,
    Three,
    Quorum,
    All,
    LocalQuorum,
    EachQuorum,
    LocalOne,
}

/// Settings attached to a request before it runs; `None` leaves the
/// session's default in place.
#[derive(Clone, Debug, PartialEq, Eq)]
pub struct ExecutionConfig {
    pub page_size: Option<i32>,
    pub paging_state: Option<Vec<u8>>,
    pub consistency: Option<Consistency>,
    pub tracing: Option<bool>,
}

impl ExecutionConfig {
    pub open spec fn is_default(&self) -> bool {
        self.page_size.is_none() && self.paging_state.is_none() && self.consistency.is_none()
            && self.tracing.is_none()
    }

    /// Every setting left to the session.
    pub fn session_default() -> (r: Self)
        ensures
            r.is_default(),
    {
        ExecutionConfig { page_size: None, paging_state: None, consistency: None, tracing: None }
    }
}

/// A statement text with its bound values, in placeholder order, and its
/// settings. Running it consumes it, so it cannot be set up again or sent twice.
pub struct BoundQuery<V> {
    statement: String,
    values: Vec<V>,
    config: ExecutionConfig,
}

impl<V> BoundQuery<V> {
    pub closed spec fn statement_spec(&self) -> Seq<char> {
        self.statement@
    }

    pub closed spec fn values_spec(&self) -> Seq<V> {
        self.values@
    }

    pub closed spec fn config_spec(&self) -> ExecutionConfig {
        self.config
    }

    /// Pairs `statement` with `values`; the values must come in the order of
    /// the placeholders. Fails with `WrongArity` where their number differs.
    pub fn new(statement: &str, values: Vec<V>) -> (r: Result<Self, QueryError>)
        ensures
            r.is_ok() <==> values@.len() == marker_count(statement@),
            r matches Ok(q) ==> q.statement_spec() == statement@ && q.values_spec() == values@
                && q.config_spec().is_default(),
            r matches Err(e) ==> e == QueryError::Misuse(
                Misuse::WrongArity { expected: marker_count(statement@) as usize, given: values@.len() as usize },
            ),
    {
        let expected = count_markers(statement);
        if expected != values.len() {
            return Err(QueryError::Misuse(Misuse::WrongArity { expected, given: values.len() }));
        }
        Ok(BoundQuery { statement: String::from_str(statement), values, config: ExecutionConfig::session_default() })
    }

    pub fn with_page_size(self, page_size: i32) -> (r: Self)
        ensures
            r.statement_spec() == self.statement_spec(),
            r.values_spec() == self.values_spec(),
            r.config_spec() == (ExecutionConfig { page_size: Some(page_size), ..self.config_spec() }),
    {
        let BoundQuery { statement, values, config } = self;
        BoundQuery { statement, values, config: ExecutionConfig { page_size: Some(page_size), ..config } }
    }

    pub fn with_paging_state(self, paging_state: Vec<u8>) -> (r: Self)
        ensures
            r.statement_spec() == self.statement_spec(),
            r.values_spec() == self.values_spec(),
            r.config_spec() == (ExecutionConfig { paging_state: Some(paging_state), ..self.config_spec() }),
    {
        let BoundQuery { statement, values, config } = self;
        BoundQuery { statement, values, config: ExecutionConfig { paging_state: Some(paging_state), ..config } }
    }

    pub fn with_consistency(self, consistency: Consistency) -> (r: Self)
        ensures
            r.statement_spec() == self.statement_spec(),
            r.values_spec() == self.values_spec(),
            r.config_spec() == (ExecutionConfig { consistency: Some(consistency), ..self.config_spec() }),
    {
        let BoundQuery { statement, values, config } = self;
        BoundQuery { statement, values, config: ExecutionConfig { consistency: Some(consistency), ..config } }
    }

    pub fn with_tracing(self, tracing: bool) -> (r: Self)
        ensures
            r.statement_spec() == self.statement_spec(),
            r.values_spec() == self.values_spec(),
            r.config_spec() == (ExecutionConfig { tracing: Some(tracing), ..self.config_spec() }),
    {
        let BoundQuery { statement, values, config } = self;
        BoundQuery { statement, values, config: ExecutionConfig { tracing: Some(tracing), ..config } }
    }

    pub fn statement(&self) -> (r: &str)
        ensures
            r@ == self.statement_spec(),
    {
        self.statement.as_str()
    }

    pub fn values(&self) -> (r: &Vec<V>)
        ensures
            r@ == self.values_spec(),
    {
        &self.values
    }

    pub fn config(&self) -> (r: &ExecutionConfig)
        ensures
            *r == self.config_spec(),
    {
        &self.config
    }

    /// Hands the request over for sending: its text, its values in bound
    /// order, and its settings. The request is gone afterwards.
    pub fn into_parts(self) -> (r: (String, Vec<V>, ExecutionConfig))
        ensures
            r.0@ == self.statement_spec(),
            r.1@ == self.values_spec(),
            r.2 == self.config_spec(),
    {
        let BoundQuery { statement, values, config } = self;
        (statement, values, config)
    }
}

} // verus!
