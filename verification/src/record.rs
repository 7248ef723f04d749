//! Typed records: the values of one row, laid out in the column order of the
//! record's registry entry, with a mark on each field that was fetched.

use vstd::prelude::*;
use crate::error::DatabaseError;
use crate::schema::{ColumnRef, ColumnRefModel, EntryModel, RegistryEntry, lemma_first_named_unique};
use crate::value::{Value, ValueModel, clone_values, kinds_match, values_model};

verus! {

/// The content of a [`Record`].
pub struct RecordModel {
    pub table_name: Seq<char>,
    pub values: Seq<ValueModel>,
    pub fetched: Seq<bool>,
}

impl RecordModel {
    /// The record has the shape of the entry: one value of the right kind
    /// for each column, in column order.
    pub open spec fn fits(self, e: EntryModel) -> bool {
        &&& self.table_name == e.table_name
        &&& self.fetched.len() == e.columns.len()
        &&& kinds_match(e.kinds(), self.values)
    }

    /// Every field is populated.
    pub open spec fn complete(self) -> bool {
        forall|i: int| 0 <= i < self.fetched.len() ==> self.fetched[i]
    }

    /// What reading the field `col` gives: its value, `None` for a field
    /// that was not fetched, or a mismatch where the column is not one of
    /// the record's table.
    pub open spec fn field(self, e: EntryModel, col: ColumnRefModel) -> Result<
        Option<ValueModel>,
        DatabaseError,
    > {
        if !self.fits(e) || !e.has(col) {
            Err(DatabaseError::ColumnMismatch)
        } else {
            let i = choose|i: int| e.owns(col, i);
            if self.fetched[i] {
                Ok(Some(self.values[i]))
            } else {
                Ok(None)
            }
        }
    }
}

/// A fully populated record holding `values`.
pub open spec fn populated(e: EntryModel, values: Seq<ValueModel>) -> RecordModel {
    RecordModel {
        table_name: e.table_name,
        values,
        fetched: Seq::new(e.columns.len(), |i: int| true),
    }
}

/// One row of a table as a typed value.
#[derive(Debug, PartialEq, Eq)]
pub struct Record {
    pub table_name: String,
    pub values: Vec<Value>,
    pub fetched: Vec<bool>,
}

impl View for Record {
    type V = RecordModel;

    open spec fn view(&self) -> RecordModel {
        RecordModel {
            table_name: self.table_name@,
            values: values_model(self.values@),
            fetched: self.fetched@,
        }
    }
}

/// Whether `values` holds one value of each column's kind, in column order.
pub fn values_fit(entry: &RegistryEntry, values: &Vec<Value>) -> (b: bool)
    ensures
        b == kinds_match(entry@.kinds(), values_model(values@)),
{
    if values.len() != entry.columns.len() {
        return false;
    }
    let mut i: usize = 0;
    while i < values.len()
        invariant
            i <= values.len(),
            values.len() == entry.columns.len(),
            forall|j: int|
                0 <= j < i ==> (#[trigger] values_model(values@)[j]).kind() == entry@.kinds()[j],
        decreases values.len() - i,
    {
        if values[i].kind() != entry.columns[i].kind {
            assert(values_model(values@)[i as int].kind() != entry@.kinds()[i as int]);
            return false;
        }
        i += 1;
    }
    true
}

impl Record {
    /// A fully populated record of the entry's table. The values must be one
    /// per column, of the column's kind and in column order.
    pub fn new(entry: &RegistryEntry, values: Vec<Value>) -> (res: Result<Record, DatabaseError>)
        ensures
            match res {
                Ok(r) => {
                    &&& kinds_match(entry@.kinds(), values_model(values@))
                    &&& r@ == populated(entry@, values_model(values@))
                    &&& r@.fits(entry@)
                    &&& r@.complete()
                },
                Err(e) => {
                    &&& e == DatabaseError::ColumnMismatch
                    &&& !kinds_match(entry@.kinds(), values_model(values@))
                },
            },
    {
        if !values_fit(entry, &values) {
            return Err(DatabaseError::ColumnMismatch);
        }
        let mut fetched: Vec<bool> = Vec::new();
        let mut i: usize = 0;
        while i < entry.columns.len()
            invariant
                i <= entry.columns.len(),
                fetched.len() == i,
                forall|j: int| 0 <= j < i ==> fetched[j],
            decreases entry.columns.len() - i,
        {
            fetched.push(true);
            i += 1;
        }
        let res = Record { table_name: entry.table_name.clone(), values, fetched };
        assert(res@.fetched =~= populated(entry@, values_model(values@)).fetched);
        Ok(res)
    }

    /// Whether the record has the shape of the entry.
    pub fn fits(&self, entry: &RegistryEntry) -> (b: bool)
        ensures
            b == self@.fits(entry@),
    {
        self.table_name == entry.table_name && self.fetched.len() == entry.columns.len()
            && values_fit(entry, &self.values)
    }

    /// Whether every field is populated.
    pub fn is_complete(&self) -> (b: bool)
        ensures
            b == self@.complete(),
    {
        let mut i: usize = 0;
        while i < self.fetched.len()
            invariant
                i <= self.fetched.len(),
                forall|j: int| 0 <= j < i ==> self.fetched[j],
            decreases self.fetched.len() - i,
        {
            if !self.fetched[i] {
                assert(!self@.fetched[i as int]);
                return false;
            }
            i += 1;
        }
        true
    }

    /// Reads one field through its column reference. A field that the query
    /// did not select reads as `None`. A reference to another table's
    /// column, or a record that is not of the entry's shape, is a
    /// `ColumnMismatch`.
    pub fn get(&self, entry: &RegistryEntry, col: &ColumnRef) -> (res: Result<
        Option<Value>,
        DatabaseError,
    >)
        ensures
            match self@.field(entry@, col@) {
                Ok(Some(m)) => res matches Ok(Some(v)) && v@ == m,
                Ok(None) => res matches Ok(None),
                Err(e) => res matches Err(f) && f == e,
            },
    {
        if !self.fits(entry) {
            return Err(DatabaseError::ColumnMismatch);
        }
        match entry.locate(col) {
            Ok(i) => {
                proof {
                    lemma_first_named_unique(entry@, col@.column_name, i as int);
                    let c = choose|c: int| entry@.owns(col@, c);
                    assert(c == i);
                    assert(values_model(self.values@)[i as int] == self.values[i as int]@);
                }
                if self.fetched[i] {
                    Ok(Some(self.values[i].clone()))
                } else {
                    Ok(None)
                }
            },
            Err(e) => Err(e),
        }
    }
}

/// The text a record holds in the field `col`, where it was fetched and is text.
pub open spec fn text_of(r: RecordModel, e: EntryModel, col: ColumnRefModel) -> Option<Seq<char>> {
    match r.field(e, col) {
        Ok(Some(ValueModel::Text(s))) => Some(s),
        _ => None,
    }
}

/// Reads the text field `col` of every record, in order. A record that does
/// not hold a fetched text there fails the whole read with `ColumnMismatch`.
pub fn collect_text(records: &Vec<Record>, entry: &RegistryEntry, col: &ColumnRef) -> (res: Result<
    Vec<String>,
    DatabaseError,
>)
    ensures
        match res {
            Ok(v) => {
                &&& v.len() == records.len()
                &&& forall|i: int|
                    0 <= i < v.len() ==> text_of((#[trigger] records[i])@, entry@, col@) == Some(
                        v[i]@,
                    )
            },
            Err(e) => {
                &&& e == DatabaseError::ColumnMismatch
                &&& exists|i: int|
                    0 <= i < records.len() && text_of((#[trigger] records[i])@, entry@, col@)
                        is None
            },
        },
{
    let mut out: Vec<String> = Vec::new();
    let mut i: usize = 0;
    while i < records.len()
        invariant
            i <= records.len(),
            out.len() == i,
            forall|j: int|
                0 <= j < i ==> text_of((#[trigger] records[j])@, entry@, col@) == Some(out[j]@),
        decreases records.len() - i,
    {
        match records[i].get(entry, col) {
            Ok(Some(Value::Text(s))) => {
                out.push(s);
            },
            _ => {
                assert(text_of(records[i as int]@, entry@, col@) is None);
                return Err(DatabaseError::ColumnMismatch);
            },
        }
        i += 1;
    }
    Ok(out)
}

impl Clone for Record {
    fn clone(&self) -> (res: Record)
        ensures
            res@ == self@,
    {
        Record {
            table_name: self.table_name.clone(),
            values: clone_values(&self.values),
            fetched: self.fetched.clone(),
        }
    }
}

} // verus!
