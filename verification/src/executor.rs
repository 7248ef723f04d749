//! The statement executor's two halves: encoding a request for the store,
//! and decoding the rows that come back, by position.

use vstd::prelude::*;
use crate::error::DatabaseError;
use crate::projection::{Selection, positions_wf};
use crate::record::{Record, RecordModel};
use crate::schema::{EntryModel, RegistryEntry};
use crate::value::{Value, ValueModel, clone_values, default_model, values_model};

verus! {

/// The contents of a sequence of strings.
pub open spec fn texts(s: Seq<String>) -> Seq<Seq<char>> {
    Seq::new(s.len(), |i: int| s[i]@)
}

/// The names of all columns of an entry, in column order.
pub open spec fn all_names(e: EntryModel) -> Seq<Seq<char>> {
    Seq::new(e.columns.len(), |i: int| e.columns[i].name)
}

/// The names of the columns at the given positions, in that order.
pub open spec fn names_at(e: EntryModel, pos: Seq<usize>) -> Seq<Seq<char>> {
    Seq::new(pos.len(), |k: int| e.columns[pos[k] as int].name)
}

/// A request to write one row: every column of the table, in column order.
#[derive(Debug, PartialEq, Eq)]
pub struct InsertRequest {
    pub table_name: String,
    pub columns: Vec<String>,
    pub values: Vec<Value>,
}

/// A request to read the chosen columns of every row, in the order chosen.
#[derive(Debug, PartialEq, Eq)]
pub struct SelectRequest {
    pub table_name: String,
    pub columns: Vec<String>,
}

/// Whether `row` is a reply to a selection of `pos`: one value per selected
/// position, each of that column's kind.
pub open spec fn row_fits(e: EntryModel, pos: Seq<usize>, row: Seq<ValueModel>) -> bool {
    &&& row.len() == pos.len()
    &&& forall|k: int|
        0 <= k < row.len() ==> (#[trigger] row[k]).kind() == e.columns[pos[k] as int].kind
}

/// The record a fitting row decodes to. The field at a selected position
/// holds the row's value for it; every other field holds its kind's default
/// and is marked as not fetched. Nothing else enters the record.
pub open spec fn decode_model(e: EntryModel, pos: Seq<usize>, row: Seq<ValueModel>) -> RecordModel {
    RecordModel {
        table_name: e.table_name,
        values: Seq::new(
            e.columns.len(),
            |i: int|
                if pos.contains(i as usize) {
                    row[pos.index_of(i as usize)]
                } else {
                    default_model(e.columns[i].kind)
                },
        ),
        fetched: Seq::new(e.columns.len(), |i: int| pos.contains(i as usize)),
    }
}

/// Encodes the insert of one fully populated record of the entry's table.
/// A record of another shape, or one with unfetched fields, is refused.
pub fn encode_insert(entry: &RegistryEntry, record: &Record) -> (res: Result<
    InsertRequest,
    DatabaseError,
>)
    ensures
        match res {
            Ok(req) => {
                &&& record@.fits(entry@) && record@.complete()
                &&& req.table_name@ == entry@.table_name
                &&& texts(req.columns@) == all_names(entry@)
                &&& values_model(req.values@) == record@.values
            },
            Err(e) => {
                &&& e == DatabaseError::ColumnMismatch
                &&& !(record@.fits(entry@) && record@.complete())
            },
        },
{
    if !record.fits(entry) || !record.is_complete() {
        return Err(DatabaseError::ColumnMismatch);
    }
    let mut columns: Vec<String> = Vec::new();
    let mut i: usize = 0;
    while i < entry.columns.len()
        invariant
            i <= entry.columns.len(),
            columns.len() == i,
            forall|j: int| 0 <= j < i ==> columns[j]@ == entry@.columns[j].name,
        decreases entry.columns.len() - i,
    {
        columns.push(entry.columns[i].name.clone());
        i += 1;
    }
    assert(texts(columns@) =~= all_names(entry@));
    Ok(
        InsertRequest {
            table_name: entry.table_name.clone(),
            columns,
            values: clone_values(&record.values),
        },
    )
}

/// Encodes the select of a resolved projection: the selected columns' names
/// in the order in which the rows are to come back.
pub fn encode_select(selection: &Selection) -> (req: SelectRequest)
    requires
        selection.wf(),
    ensures
        req.table_name@ == selection.entry@.table_name,
        texts(req.columns@) == names_at(selection.entry@, selection.positions@),
{
    let mut columns: Vec<String> = Vec::new();
    let mut k: usize = 0;
    while k < selection.positions.len()
        invariant
            selection.wf(),
            k <= selection.positions.len(),
            columns.len() == k,
            forall|j: int|
                0 <= j < k ==> columns[j]@ == selection.entry@.columns[selection.positions[j] as int].name,
        decreases selection.positions.len() - k,
    {
        let i = selection.positions[k];
        columns.push(selection.entry.columns[i].name.clone());
        k += 1;
    }
    assert(texts(columns@) =~= names_at(selection.entry@, selection.positions@));
    SelectRequest { table_name: selection.entry.table_name.clone(), columns }
}

/// Decodes one returned row by position. A row with another number of
/// values than were selected, or with a value of the wrong kind, is a
/// `DecodeError`.
pub fn decode_row(selection: &Selection, row: &Vec<Value>) -> (res: Result<Record, DatabaseError>)
    requires
        selection.wf(),
    ensures
        match res {
            Ok(r) => {
                &&& row_fits(selection.entry@, selection.positions@, values_model(row@))
                &&& r@ == decode_model(selection.entry@, selection.positions@, values_model(row@))
            },
            Err(e) => {
                &&& e == DatabaseError::DecodeError
                &&& !row_fits(selection.entry@, selection.positions@, values_model(row@))
            },
        },
{
    let entry = &selection.entry;
    let pos = &selection.positions;
    let n = entry.columns.len();
    if row.len() != pos.len() {
        return Err(DatabaseError::DecodeError);
    }
    let mut values: Vec<Value> = Vec::new();
    let mut fetched: Vec<bool> = Vec::new();
    let mut i: usize = 0;
    while i < n
        invariant
            i <= n,
            n == entry.columns.len(),
            entry@.supported(),
            values.len() == i,
            fetched.len() == i,
            forall|j: int| 0 <= j < i ==> !fetched[j],
            forall|j: int| 0 <= j < i ==> values[j]@ == default_model(entry@.columns[j].kind),
        decreases n - i,
    {
        assert(entry@.columns[i as int].kind.encodable());
        match Value::default_for(entry.columns[i].kind) {
            Some(v) => {
                values.push(v);
            },
            None => {
                assert(false);
            },
        }
        fetched.push(false);
        i += 1;
    }
    let mut k: usize = 0;
    while k < pos.len()
        invariant
            *pos == selection.positions,
            *entry == selection.entry,
            k <= pos.len(),
            row.len() == pos.len(),
            n == entry.columns.len(),
            positions_wf(pos@, n as nat),
            values.len() == n,
            fetched.len() == n,
            forall|j: int| 0 <= j < k ==> values_model(row@)[j].kind() == entry@.columns[pos[j] as int].kind,
            forall|j: int| 0 <= j < k ==> fetched[pos[j] as int] && values[pos[j] as int]@ == row[j]@,
            forall|c: int| 0 <= c < n && fetched[c] ==> pos@.contains(c as usize),
            forall|c: int|
                0 <= c < n && !fetched[c] ==> values[c]@ == default_model(entry@.columns[c].kind),
        decreases pos.len() - k,
    {
        let c = pos[k];
        assert(values_model(row@)[k as int] == row[k as int]@);
        assert(entry@.columns[c as int] == entry.columns[c as int]@);
        if row[k].kind() != entry.columns[c].kind {
            proof {
                let r = values_model(row@);
                assert(0 <= k < r.len());
                assert(r[k as int].kind() != selection.entry@.columns[selection.positions@[k as int] as int].kind);
            }
            return Err(DatabaseError::DecodeError);
        }
        values.set(c, row[k].clone());
        fetched.set(c, true);
        assert(pos@[k as int] == c);
        k += 1;
    }
    let res = Record { table_name: entry.table_name.clone(), values, fetched };
    proof {
        let want = decode_model(entry@, pos@, values_model(row@));
        assert forall|c: int| 0 <= c < n implies res@.fetched[c] == want.fetched[c] by {
            if pos@.contains(c as usize) {
                let j = pos@.index_of(c as usize);
                assert(pos@[j] == c as usize);
            }
        }
        assert forall|c: int| 0 <= c < n implies res@.values[c] == want.values[c] by {
            assert(res@.values[c] == values[c]@);
            if pos@.contains(c as usize) {
                let j = pos@.index_of(c as usize);
                assert(0 <= j < pos@.len() && pos@[j] == c as usize);
                assert(values[pos[j] as int]@ == row[j]@);
                assert(values_model(row@)[j] == row[j]@);
            } else {
                assert(!fetched[c]);
            }
        }
        assert(res@.fetched =~= want.fetched);
        assert(res@.values =~= want.values);
    }
    Ok(res)
}

/// Decodes every returned row, in order. One row that does not fit fails the
/// whole query: no partial result is returned.
pub fn decode_rows(selection: &Selection, rows: &Vec<Vec<Value>>) -> (res: Result<
    Vec<Record>,
    DatabaseError,
>)
    requires
        selection.wf(),
    ensures
        match res {
            Ok(records) => {
                &&& records.len() == rows.len()
                &&& forall|i: int|
                    0 <= i < rows.len() ==> row_fits(
                        selection.entry@,
                        selection.positions@,
                        values_model(#[trigger] rows[i]@),
                    )
                &&& forall|i: int|
                    0 <= i < rows.len() ==> (#[trigger] records[i])@ == decode_model(
                        selection.entry@,
                        selection.positions@,
                        values_model(rows[i]@),
                    )
            },
            Err(e) => {
                &&& e == DatabaseError::DecodeError
                &&& exists|i: int|
                    0 <= i < rows.len() && !row_fits(
                        selection.entry@,
                        selection.positions@,
                        values_model(#[trigger] rows[i]@),
                    )
            },
        },
{
    let mut records: Vec<Record> = Vec::new();
    let mut i: usize = 0;
    while i < rows.len()
        invariant
            selection.wf(),
            i <= rows.len(),
            records.len() == i,
            forall|j: int|
                0 <= j < i ==> row_fits(
                    selection.entry@,
                    selection.positions@,
                    values_model(#[trigger] rows[j]@),
                ),
            forall|j: int|
                0 <= j < i ==> (#[trigger] records[j])@ == decode_model(
                    selection.entry@,
                    selection.positions@,
                    values_model(rows[j]@),
                ),
        decreases rows.len() - i,
    {
        match decode_row(selection, &rows[i]) {
            Ok(r) => {
                records.push(r);
            },
            Err(_) => {
                assert(!row_fits(
                    selection.entry@,
                    selection.positions@,
                    values_model(rows[i as int]@),
                ));
                return Err(DatabaseError::DecodeError);
            },
        }
        i += 1;
    }
    Ok(records)
}

/// Decoding what an insert encodes, under a selection of every column in
/// order, gives the inserted record back.
pub proof fn law_full_selection_round_trip(e: EntryModel, r: RecordModel, pos: Seq<usize>)
    requires
        r.fits(e),
        r.complete(),
        pos.len() == e.columns.len(),
        forall|i: int| 0 <= i < pos.len() ==> pos[i] == i,
    ensures
        row_fits(e, pos, r.values),
        decode_model(e, pos, r.values) == r,
{
    let d = decode_model(e, pos, r.values);
    assert forall|k: int| 0 <= k < r.values.len() implies (#[trigger] r.values[k]).kind()
        == e.columns[pos[k] as int].kind by {
        assert(e.kinds()[k] == e.columns[k].kind);
    }
    assert forall|i: int| 0 <= i < e.columns.len() implies d.fetched[i] == r.fetched[i]
        && d.values[i] == r.values[i] by {
        assert(pos[i] == i as usize);
        assert(pos.contains(i as usize));
        let j = pos.index_of(i as usize);
        assert(pos[j] == i as usize);
    }
    assert(d.fetched =~= r.fetched);
    assert(d.values =~= r.values);
}

/// A field whose position the selection does not name decodes to the
/// default of its kind and is marked as not fetched, whatever the row holds.
pub proof fn law_unselected_fields_are_default(
    e: EntryModel,
    pos: Seq<usize>,
    row: Seq<ValueModel>,
    i: int,
)
    requires
        0 <= i < e.columns.len(),
        !pos.contains(i as usize),
    ensures
        decode_model(e, pos, row).values[i] == default_model(e.columns[i].kind),
        !decode_model(e, pos, row).fetched[i],
{
}

/// A field whose position the selection names decodes to the row's value
/// at the place where the position was sent.
pub proof fn law_selected_fields_come_from_the_row(
    e: EntryModel,
    pos: Seq<usize>,
    row: Seq<ValueModel>,
    k: int,
)
    requires
        positions_wf(pos, e.columns.len()),
        0 <= k < pos.len(),
    ensures
        decode_model(e, pos, row).values[pos[k] as int] == row[k],
        decode_model(e, pos, row).fetched[pos[k] as int],
{
    let c = pos[k];
    assert(pos.contains(c));
    let j = pos.index_of(c);
    assert(pos[j] == c);
    assert(j == k);
}

} // verus!
