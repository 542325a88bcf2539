//! What an entity type provides, and the requests built from it.

use vstd::prelude::*;
use crate::callbacks::{mutation_wf, Mutation, MutationModel, MutationStage};
use crate::errors::QueryError;
use crate::request::{marker_count, BoundQuery};

verus! {

/// A value bound to a placeholder, as the session will serialize it.
#[derive(Debug, PartialEq, Eq)]
pub enum Value {
    Null,
    Boolean(bool),
    TinyInt(i8),
    SmallInt(i16),
    Int(i32),
    BigInt(i64),
    Counter(i64),
    Text(String),
    Ascii(String),
    Blob(Vec<u8>),
    Uuid([u8; 16]),
    Timeuuid([u8; 16]),
    /// Milliseconds since the Unix epoch.
    Timestamp(i64),
    /// Days since -5877641-06-23 (2^31 days before the Unix epoch).
    Date(u32),
    /// Nanoseconds since midnight.
    Time(i64),
    InetV4([u8; 4]),
    InetV6([u8; 16]),
    List(Vec<Value>),
    SetOf(Vec<Value>),
    /// Entries as keys and values at the same positions.
    MapOf { keys: Vec<Value>, values: Vec<Value> },
}

/// An entity type: its statement texts and its key values, in the order of
/// the placeholders of those texts.
pub trait BaseModel: Sized {
    /// The text of the type's select-by-primary-key statement.
    spec fn primary_key_query_spec() -> Seq<char>;

    /// The text of the type's select-by-partition-key statement.
    spec fn partition_key_query_spec() -> Seq<char>;

    /// Partition key values followed by clustering key values.
    spec fn primary_key_values_spec(&self) -> Seq<Value>;

    spec fn partition_key_values_spec(&self) -> Seq<Value>;

    fn find_by_primary_key_query() -> (r: &'static str)
        ensures
            r@ == Self::primary_key_query_spec(),
    ;

    fn find_by_partition_key_query() -> (r: &'static str)
        ensures
            r@ == Self::partition_key_query_spec(),
    ;

    fn primary_key_values(&self) -> (r: Vec<Value>)
        ensures
            r@ == self.primary_key_values_spec(),
    ;

    fn partition_key_values(&self) -> (r: Vec<Value>)
        ensures
            r@ == self.partition_key_values_spec(),
    ;
}

/// An entity type that can be written.
pub trait Model: BaseModel {
    /// The text of the type's update statement.
    spec fn update_query_spec() -> Seq<char>;

    /// The regular column values followed by the primary key values, in the
    /// order of the update statement's placeholders.
    spec fn update_values_spec(&self) -> Seq<Value>;

    fn update_query() -> (r: &'static str)
        ensures
            r@ == Self::update_query_spec(),
    ;

    fn update_values(&self) -> (r: Vec<Value>)
        ensures
            r@ == self.update_values_spec(),
    ;
}

/// An entity type with hooks around its mutations, each phase in a fixed
/// declared order.
pub trait Callbacks: Model {
    spec fn before_hooks_spec() -> nat;

    spec fn after_hooks_spec() -> nat;

    fn before_update_hooks() -> (r: usize)
        ensures
            r as nat == Self::before_hooks_spec(),
    ;

    fn after_update_hooks() -> (r: usize)
        ensures
            r as nat == Self::after_hooks_spec(),
    ;
}

/// Requests for reads, built without running them, so that settings can be
/// attached before they are sent.
pub trait FindConfigured: BaseModel {
    fn find_cfg(query: &str, values: Vec<Value>) -> (r: Result<BoundQuery<Value>, QueryError>)
        ensures
            r.is_ok() <==> values@.len() == marker_count(query@),
            r matches Ok(q) ==> q.statement_spec() == query@ && q.values_spec() == values@
                && q.config_spec().is_default(),
            r matches Err(e) ==> e is Misuse,
    {
        BoundQuery::new(query, values)
    }

    fn find_first_cfg(query: &str, values: Vec<Value>) -> (r: Result<BoundQuery<Value>, QueryError>)
        ensures
            r.is_ok() <==> values@.len() == marker_count(query@),
            r matches Ok(q) ==> q.statement_spec() == query@ && q.values_spec() == values@
                && q.config_spec().is_default(),
            r matches Err(e) ==> e is Misuse,
    {
        BoundQuery::new(query, values)
    }

    fn find_by_primary_key_value_cfg(value: Vec<Value>) -> (r: Result<BoundQuery<Value>, QueryError>)
        ensures
            r.is_ok() <==> value@.len() == marker_count(Self::primary_key_query_spec()),
            r matches Ok(q) ==> q.statement_spec() == Self::primary_key_query_spec() && q.values_spec() == value@
                && q.config_spec().is_default(),
            r matches Err(e) ==> e is Misuse,
    {
        BoundQuery::new(Self::find_by_primary_key_query(), value)
    }

    fn find_by_partition_key_value_cfg(value: Vec<Value>) -> (r: Result<BoundQuery<Value>, QueryError>)
        ensures
            r.is_ok() <==> value@.len() == marker_count(Self::partition_key_query_spec()),
            r matches Ok(q) ==> q.statement_spec() == Self::partition_key_query_spec() && q.values_spec()
                == value@ && q.config_spec().is_default(),
            r matches Err(e) ==> e is Misuse,
    {
        BoundQuery::new(Self::find_by_partition_key_query(), value)
    }

    fn find_first_by_partition_key_value_cfg(value: Vec<Value>) -> (r: Result<BoundQuery<Value>, QueryError>)
        ensures
            r.is_ok() <==> value@.len() == marker_count(Self::partition_key_query_spec()),
            r matches Ok(q) ==> q.statement_spec() == Self::partition_key_query_spec() && q.values_spec()
                == value@ && q.config_spec().is_default(),
            r matches Err(e) ==> e is Misuse,
    {
        BoundQuery::new(Self::find_by_partition_key_query(), value)
    }

    fn find_by_primary_key_cfg(&self) -> (r: Result<BoundQuery<Value>, QueryError>)
        ensures
            r.is_ok() <==> self.primary_key_values_spec().len() == marker_count(Self::primary_key_query_spec()),
            r matches Ok(q) ==> q.statement_spec() == Self::primary_key_query_spec() && q.values_spec()
                == self.primary_key_values_spec() && q.config_spec().is_default(),
            r matches Err(e) ==> e is Misuse,
    {
        BoundQuery::new(Self::find_by_primary_key_query(), self.primary_key_values())
    }

    fn find_by_partition_key_cfg(&self) -> (r: Result<BoundQuery<Value>, QueryError>)
        ensures
            r.is_ok() <==> self.partition_key_values_spec().len() == marker_count(Self::partition_key_query_spec()),
            r matches Ok(q) ==> q.statement_spec() == Self::partition_key_query_spec() && q.values_spec()
                == self.partition_key_values_spec() && q.config_spec().is_default(),
            r matches Err(e) ==> e is Misuse,
    {
        BoundQuery::new(Self::find_by_partition_key_query(), self.partition_key_values())
    }
}

impl<T: BaseModel> FindConfigured for T {}

/// Builds the update request of an entity from its current values.
pub trait Update: Model {
    fn update(&self) -> (r: Result<BoundQuery<Value>, QueryError>)
        ensures
            r.is_ok() <==> self.update_values_spec().len() == marker_count(Self::update_query_spec()),
            r matches Ok(q) ==> q.statement_spec() == Self::update_query_spec() && q.values_spec()
                == self.update_values_spec() && q.config_spec().is_default(),
            r matches Err(e) ==> e is Misuse,
    {
        BoundQuery::new(Self::update_query(), self.update_values())
    }
}

impl<M: Model> Update for M {}

/// An update that runs through the entity type's hooks.
pub struct CbQuery {
    statement: &'static str,
    mutation: Mutation,
}

impl CbQuery {
    pub closed spec fn statement_spec(&self) -> Seq<char> {
        self.statement@
    }

    pub closed spec fn mutation_spec(&self) -> Mutation {
        self.mutation
    }

    pub fn new(statement: &'static str, before_hooks: usize, after_hooks: usize) -> (r: Self)
        ensures
            r.statement_spec() == statement@,
            r.mutation_spec()@ == (MutationModel {
                stage: MutationStage::Created,
                before_hooks: before_hooks as nat,
                after_hooks: after_hooks as nat,
                hook: 0,
                sends: 0,
            }),
            mutation_wf(r.mutation_spec()@),
    {
        CbQuery { statement, mutation: Mutation::new(before_hooks, after_hooks) }
    }

    /// The pipeline that decides each step of the call.
    pub fn mutation(&mut self) -> (r: &mut Mutation)
        ensures
            *r == old(self).mutation_spec(),
            *final(r) == final(self).mutation_spec(),
            final(self).statement_spec() == old(self).statement_spec(),
    {
        &mut self.mutation
    }

    /// The statement to send when the pipeline says `Send`, bound to the
    /// entity's values as the before-hooks left them.
    pub fn bind(&self, values: Vec<Value>) -> (r: Result<BoundQuery<Value>, QueryError>)
        ensures
            r.is_ok() <==> values@.len() == marker_count(self.statement_spec()),
            r matches Ok(q) ==> q.statement_spec() == self.statement_spec() && q.values_spec() == values@
                && q.config_spec().is_default(),
    {
        BoundQuery::new(self.statement, values)
    }
}

/// Builds the hook-enabled update of an entity.
pub trait UpdateWithCallbacks: Callbacks {
    fn update_cb(&self) -> (r: CbQuery)
        ensures
            r.statement_spec() == Self::update_query_spec(),
            r.mutation_spec()@ == (MutationModel {
                stage: MutationStage::Created,
                before_hooks: Self::before_hooks_spec(),
                after_hooks: Self::after_hooks_spec(),
                hook: 0,
                sends: 0,
            }),
            mutation_wf(r.mutation_spec()@),
    {
        CbQuery::new(Self::update_query(), Self::before_update_hooks(), Self::after_update_hooks())
    }
}

impl<M: Callbacks> UpdateWithCallbacks for M {}

} // verus!
