//! Insert and query handles. A handle captures an operation without running
//! it. Running it takes two steps around the store round trip, which the
//! caller performs: `start` checks out a connection and gives the request to
//! send, `finish` takes the store's reply, hands the connection back and
//! gives the operation's result. Nothing is retried.

use vstd::prelude::*;
use crate::error::DatabaseError;
use crate::executor::{
    InsertRequest,
    SelectRequest,
    all_names,
    decode_model,
    decode_rows,
    encode_insert,
    encode_select,
    names_at,
    row_fits,
    texts,
};
use crate::pool::{Lease, Pool, SlotState, can_acquire, grants, release_model};
use crate::projection::{Projection, Selection, resolution, resolvable};
use crate::record::Record;
use crate::schema::RegistryEntry;
use crate::value::{Value, values_model};

verus! {

/// What the store answered to an insert.
#[derive(Clone, Copy, Debug, PartialEq, Eq, Structural)]
pub enum InsertReply {
    /// The row was written.
    Acknowledged,
    /// The store refused the row, for instance for a duplicate key.
    Rejected,
    /// The round trip failed or was abandoned: the connection's state is unknown.
    Failed,
}

/// What the store answered to a select.
#[derive(Debug, PartialEq, Eq)]
pub enum QueryReply {
    /// The rows, each holding the selected columns in the order sent.
    Rows(Vec<Vec<Value>>),
    /// The round trip failed or was abandoned: the connection's state is unknown.
    Failed,
}

/// The result of a successful insert.
#[derive(Clone, Copy, Debug, PartialEq, Eq, Structural)]
pub struct InsertOutcome {
    pub rows_written: u64,
}

/// A started insert: the connection it holds and the request to send on it.
#[derive(Debug, PartialEq, Eq)]
pub struct InsertStep {
    pub lease: Lease,
    pub request: InsertRequest,
}

/// A started query: the connection it holds and the request to send on it.
#[derive(Debug, PartialEq, Eq)]
pub struct QueryStep {
    pub lease: Lease,
    pub request: SelectRequest,
}

/// The result of an insert, given the store's reply.
pub open spec fn insert_result(reply: InsertReply) -> Result<InsertOutcome, DatabaseError> {
    match reply {
        InsertReply::Acknowledged => Ok(InsertOutcome { rows_written: 1 }),
        InsertReply::Rejected => Err(DatabaseError::ConstraintViolation),
        InsertReply::Failed => Err(DatabaseError::ConnectionError),
    }
}

/// Checks out a connection for an operation. A handle reports an exhausted
/// pool as a connection error; the pool is then unchanged.
pub fn checkout(pool: &mut Pool) -> (res: Result<Lease, DatabaseError>)
    ensures
        match res {
            Ok(lease) => {
                &&& grants(old(pool)@, lease)
                &&& final(pool)@ == old(pool)@.update(lease.slot as int, SlotState::CheckedOut)
            },
            Err(e) => {
                &&& e == DatabaseError::ConnectionError
                &&& !can_acquire(old(pool)@)
                &&& final(pool)@ == old(pool)@
            },
        },
{
    match pool.acquire() {
        Ok(lease) => Ok(lease),
        Err(_) => Err(DatabaseError::ConnectionError),
    }
}

/// Hands back the connection of an operation whose caller gave up before
/// the reply came: the connection is closed, never reused.
pub fn abandon(pool: &mut Pool, lease: Lease)
    ensures
        final(pool)@ == release_model(old(pool)@, lease.slot as int, false),
{
    pool.release(lease.slot, false);
}

/// A deferred insert of one record.
#[derive(Debug, PartialEq, Eq)]
pub struct InsertHandle {
    pub record: Record,
}

impl InsertHandle {
    /// Captures the record. Nothing is sent and no connection is taken.
    pub fn new(record: Record) -> (res: InsertHandle)
        ensures
            res.record == record,
    {
        InsertHandle { record }
    }

    /// Encodes the request and checks out a connection for it. A record that
    /// is not a fully populated record of the entry's table is refused before
    /// the pool is asked.
    pub fn start(&self, entry: &RegistryEntry, pool: &mut Pool) -> (res: Result<
        InsertStep,
        DatabaseError,
    >)
        ensures
            match res {
                Ok(step) => {
                    &&& self.record@.fits(entry@) && self.record@.complete()
                    &&& grants(old(pool)@, step.lease)
                    &&& final(pool)@ == old(pool)@.update(
                        step.lease.slot as int,
                        SlotState::CheckedOut,
                    )
                    &&& step.request.table_name@ == entry@.table_name
                    &&& texts(step.request.columns@) == all_names(entry@)
                    &&& values_model(step.request.values@) == self.record@.values
                },
                Err(e) => {
                    &&& final(pool)@ == old(pool)@
                    &&& if self.record@.fits(entry@) && self.record@.complete() {
                        e == DatabaseError::ConnectionError && !can_acquire(old(pool)@)
                    } else {
                        e == DatabaseError::ColumnMismatch
                    }
                },
            },
    {
        let request = match encode_insert(entry, &self.record) {
            Ok(request) => request,
            Err(e) => {
                return Err(e);
            },
        };
        match checkout(pool) {
            Ok(lease) => Ok(InsertStep { lease, request }),
            Err(e) => Err(e),
        }
    }

    /// Takes the store's reply and hands the connection back. A written row
    /// counts one. A rejected row is a constraint violation and leaves the
    /// connection healthy; a failed round trip closes it.
    pub fn finish(&self, pool: &mut Pool, lease: Lease, reply: InsertReply) -> (res: Result<
        InsertOutcome,
        DatabaseError,
    >)
        ensures
            res == insert_result(reply),
            final(pool)@ == release_model(
                old(pool)@,
                lease.slot as int,
                reply != InsertReply::Failed,
            ),
    {
        match reply {
            InsertReply::Acknowledged => {
                pool.release(lease.slot, true);
                Ok(InsertOutcome { rows_written: 1 })
            },
            InsertReply::Rejected => {
                pool.release(lease.slot, true);
                Err(DatabaseError::ConstraintViolation)
            },
            InsertReply::Failed => {
                pool.release(lease.slot, false);
                Err(DatabaseError::ConnectionError)
            },
        }
    }
}

/// A deferred query: a projection resolved against its table's entry.
#[derive(Debug, PartialEq, Eq)]
pub struct QueryHandle {
    pub selection: Selection,
}

impl QueryHandle {
    pub open spec fn wf(&self) -> bool {
        self.selection.wf()
    }

    /// Captures the projection for a query on the entry's table. A column of
    /// another table fails here, before anything is sent.
    pub fn new(entry: &RegistryEntry, projection: Projection) -> (res: Result<
        QueryHandle,
        DatabaseError,
    >)
        requires
            projection.wf(),
            entry@.supported(),
        ensures
            match res {
                Ok(h) => {
                    &&& h.wf()
                    &&& h.selection.entry@ == entry@
                    &&& resolution(entry@, projection@, h.selection.positions@)
                },
                Err(e) => e == DatabaseError::ColumnMismatch && !resolvable(entry@, projection@),
            },
    {
        match projection.resolve(entry) {
            Ok(selection) => Ok(QueryHandle { selection }),
            Err(e) => Err(e),
        }
    }

    /// Encodes the select and checks out a connection for it.
    pub fn start(&self, pool: &mut Pool) -> (res: Result<QueryStep, DatabaseError>)
        requires
            self.wf(),
        ensures
            match res {
                Ok(step) => {
                    &&& grants(old(pool)@, step.lease)
                    &&& final(pool)@ == old(pool)@.update(
                        step.lease.slot as int,
                        SlotState::CheckedOut,
                    )
                    &&& step.request.table_name@ == self.selection.entry@.table_name
                    &&& texts(step.request.columns@) == names_at(
                        self.selection.entry@,
                        self.selection.positions@,
                    )
                },
                Err(e) => {
                    &&& e == DatabaseError::ConnectionError
                    &&& !can_acquire(old(pool)@)
                    &&& final(pool)@ == old(pool)@
                },
            },
    {
        match checkout(pool) {
            Ok(lease) => Ok(QueryStep { lease, request: encode_select(&self.selection) }),
            Err(e) => Err(e),
        }
    }

    /// Takes the store's reply and hands the connection back. Rows that all
    /// fit the selection decode to one record each, in order, and leave the
    /// connection healthy. A row that does not fit is a decode error, a
    /// failed round trip a connection error; both close the connection.
    pub fn finish(&self, pool: &mut Pool, lease: Lease, reply: &QueryReply) -> (res: Result<
        Vec<Record>,
        DatabaseError,
    >)
        requires
            self.wf(),
        ensures
            final(pool)@ == release_model(old(pool)@, lease.slot as int, res.is_ok()),
            match *reply {
                QueryReply::Failed => res matches Err(e) && e == DatabaseError::ConnectionError,
                QueryReply::Rows(rows) => match res {
                    Ok(records) => {
                        &&& records.len() == rows.len()
                        &&& forall|i: int|
                            0 <= i < rows.len() ==> row_fits(
                                self.selection.entry@,
                                self.selection.positions@,
                                values_model(#[trigger] rows[i]@),
                            )
                        &&& forall|i: int|
                            0 <= i < rows.len() ==> (#[trigger] records[i])@ == decode_model(
                                self.selection.entry@,
                                self.selection.positions@,
                                values_model(rows[i]@),
                            )
                    },
                    Err(e) => {
                        &&& e == DatabaseError::DecodeError
                        &&& exists|i: int|
                            0 <= i < rows.len() && !row_fits(
                                self.selection.entry@,
                                self.selection.positions@,
                                values_model(#[trigger] rows[i]@),
                            )
                    },
                },
            },
    {
        match reply {
            QueryReply::Failed => {
                pool.release(lease.slot, false);
                Err(DatabaseError::ConnectionError)
            },
            QueryReply::Rows(rows) => match decode_rows(&self.selection, rows) {
                Ok(records) => {
                    pool.release(lease.slot, true);
                    Ok(records)
                },
                Err(e) => {
                    pool.release(lease.slot, false);
                    Err(e)
                },
            },
        }
    }
}

} // verus!
