use vstd::prelude::*;
use crate::statements::{CREATE_KEYSPACE, CREATE_TABLE};

verus! {

/// Which schema objects exist in the store.
#[derive(Clone, Copy, Debug, PartialEq, Eq, Structural)]
pub struct Schema {
    pub keyspace: bool,
    pub table: bool,
}

/// A statement of the schema bootstrap; each creates its object unless it
/// exists.
#[derive(Clone, Copy, Debug, PartialEq, Eq, Structural)]
pub enum SchemaStatement {
    CreateKeyspace,
    CreateTable,
}

/// Why a schema statement failed.
#[derive(Clone, Copy, Debug, PartialEq, Eq, Structural)]
pub enum SchemaError {
    /// The table's keyspace does not exist.
    KeyspaceMissing,
}

/// The result of one statement on a schema.
pub open spec fn applied(s: Schema, st: SchemaStatement) -> Result<Schema, SchemaError> {
    match st {
        SchemaStatement::CreateKeyspace => Ok(Schema { keyspace: true, ..s }),
        SchemaStatement::CreateTable => if s.keyspace {
            Ok(Schema { table: true, ..s })
        } else {
            Err(SchemaError::KeyspaceMissing)
        },
    }
}

/// The result of statements run in order, stopping at the first failure.
pub open spec fn run(s: Schema, sts: Seq<SchemaStatement>) -> Result<Schema, SchemaError>
    decreases sts.len(),
{
    if sts.len() == 0 {
        Ok(s)
    } else {
        match applied(s, sts[0]) {
            Ok(s1) => run(s1, sts.drop_first()),
            Err(e) => Err(e),
        }
    }
}

pub open spec fn bootstrap_seq() -> Seq<SchemaStatement> {
    seq![SchemaStatement::CreateKeyspace, SchemaStatement::CreateTable]
}

/// The statements of the bootstrap, in the order they run.
pub fn bootstrap_statements() -> (r: Vec<SchemaStatement>)
    ensures
        r@ == bootstrap_seq(),
{
    let r = vec![SchemaStatement::CreateKeyspace, SchemaStatement::CreateTable];
    assert(r@ =~= bootstrap_seq());
    r
}

impl SchemaStatement {
    /// The CQL text of the statement.
    pub fn cql(&self) -> (r: &'static str)
        ensures
            r == match *self {
                SchemaStatement::CreateKeyspace => CREATE_KEYSPACE,
                SchemaStatement::CreateTable => CREATE_TABLE,
            },
    {
        match self {
            SchemaStatement::CreateKeyspace => CREATE_KEYSPACE,
            SchemaStatement::CreateTable => CREATE_TABLE,
        }
    }
}

impl Schema {
    /// A store with no schema objects.
    pub fn empty() -> (r: Schema)
        ensures
            !r.keyspace && !r.table,
    {
        Schema { keyspace: false, table: false }
    }

    /// Runs one statement; on failure the schema is unchanged.
    pub fn apply(&mut self, st: SchemaStatement) -> (r: Result<(), SchemaError>)
        ensures
            match applied(*old(self), st) {
                Ok(s) => r is Ok && *final(self) == s,
                Err(e) => r == Err::<(), SchemaError>(e) && *final(self) == *old(self),
            },
    {
        match st {
            SchemaStatement::CreateKeyspace => {
                self.keyspace = true;
                Ok(())
            },
            SchemaStatement::CreateTable => {
                if self.keyspace {
                    self.table = true;
                    Ok(())
                } else {
                    Err(SchemaError::KeyspaceMissing)
                }
            },
        }
    }

    /// Runs the bootstrap statements in order, stopping at the first failure.
    pub fn bootstrap(&mut self) -> (r: Result<(), SchemaError>)
        ensures
            match run(*old(self), bootstrap_seq()) {
                Ok(s) => r is Ok && *final(self) == s,
                Err(e) => r == Err::<(), SchemaError>(e),
            },
    {
        let sts = bootstrap_statements();
        let ghost start = *self;
        let mut i: usize = 0;
        assert(sts@.subrange(0, sts.len() as int) =~= sts@);
        while i < sts.len()
            invariant
                start == *old(self),
                sts@ == bootstrap_seq(),
                i <= sts.len(),
                run(start, bootstrap_seq()) == run(*self, sts@.subrange(i as int, sts.len() as int)),
            decreases sts.len() - i,
        {
            let ghost before = *self;
            let ghost rest = sts@.subrange(i as int, sts.len() as int);
            assert(rest.drop_first() =~= sts@.subrange(i + 1, sts.len() as int));
            assert(rest[0] == sts@[i as int]);
            let res = self.apply(sts[i]);
            if let Err(e) = res {
                return Err(e);
            }
            i = i + 1;
        }
        assert(sts@.subrange(i as int, sts.len() as int) =~= Seq::<SchemaStatement>::empty());
        Ok(())
    }
}

} // verus!
